//! The cached access token and the rule that decides when it is stale.
use vstd::prelude::*;

verus! {

/// The margin before expiry from which a token counts as stale: five
/// minutes, in milliseconds.
pub const REFRESH_MARGIN_MS: i64 = 300_000;

/// The cached bearer token together with the instant, in milliseconds since
/// the Unix epoch, from which it is no longer valid. The two are only ever
/// replaced together.
pub struct AccessToken {
    pub access_token: String,
    pub expired_at: i64,
    pub force_refresh: Option<bool>,
}

/// A token that expires at `expired_at` is stale at `now` once `now + margin`
/// has reached that instant.
pub open spec fn stale(expired_at: int, now: int, margin: int) -> bool {
    now + margin >= expired_at
}

/// The instant at which a token fetched at `now` with a lifetime of
/// `expires_in` seconds expires, in milliseconds.
pub open spec fn expiry_of(now: int, expires_in: int) -> int {
    now + 1000 * expires_in
}

/// Whether `token` must be refreshed at time `now`, given a safety `margin`
/// (both in milliseconds).
pub fn is_stale(token: &AccessToken, now: i64, margin: i64) -> (r: bool)
    ensures
        r == stale(token.expired_at as int, now as int, margin as int),
{
    (now as i128) + (margin as i128) >= token.expired_at as i128
}

/// What the fetch capability hands back on success: a new token and its
/// lifetime in seconds.
pub struct FetchedToken {
    pub access_token: String,
    pub expires_in: i64,
}

} // verus!
