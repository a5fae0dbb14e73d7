//! Server-side helpers for a mini-program platform: a single-flight cache for
//! the short-lived access token, request argument builders with their
//! validation rules, and the decoding of user payloads.

pub mod coordinator;
pub mod credential;
pub mod error;
pub mod minapp_security;
mod qr_code;
pub mod strings;
pub mod token;
pub mod user;

pub use coordinator::{Admission, RefreshCoordinator};
pub use credential::{Credential, CredentialBuilder};
pub use qr_code::{
    MinappEnvVersion, QrCode, QrCodeArgBuilder, QrCodeArgBuilderView, QrCodeArgs, QrCodeArgsView, Rgb,
};
pub use token::{is_stale, AccessToken, FetchedToken, REFRESH_MARGIN_MS};
