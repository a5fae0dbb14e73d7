//! A user's login credential, the decryption of the payloads that are
//! encrypted with its session key, and the signature that proves that key.
use vstd::prelude::*;
use vstd::string::StringSliceAdditionalSpecFns;
use aes::cipher::block_padding::Pkcs7;
use aes::cipher::{BlockDecryptMut, KeyIvInit};
use base64::Engine;
use hmac::Mac;
use crate::error::Error;
use crate::strings::opt_view;

verus! {

/// The bytes that `s` encodes in standard, padded base64, if it is such an
/// encoding.
pub uninterp spec fn base64_decoded(s: Seq<char>) -> Option<Seq<u8>>;

/// The plaintext that AES-128 in CBC mode with PKCS#7 padding recovers from
/// `data` under `key` and `iv`, if the padding checks out.
pub uninterp spec fn aes128_cbc_decrypted(key: Seq<u8>, iv: Seq<u8>, data: Seq<u8>) -> Option<
    Seq<u8>,
>;

/// The HMAC-SHA256 tag of `message` under `key`.
pub uninterp spec fn hmac_sha256_of(key: Seq<u8>, message: Seq<u8>) -> Seq<u8>;

/// The lowercase hexadecimal digit for a value below sixteen.
pub open spec fn hex_digit(n: int) -> char {
    seq!['0', '1', '2', '3', '4', '5', '6', '7', '8', '9', 'a', 'b', 'c', 'd', 'e', 'f'][n]
}

/// `b` written as lowercase hexadecimal, two digits per byte, high half first.
pub open spec fn hex_lower(b: Seq<u8>) -> Seq<char> {
    Seq::new(
        2 * b.len(),
        |i: int|
            if i % 2 == 0 {
                hex_digit(b[i / 2] as int / 16)
            } else {
                hex_digit(b[i / 2] as int % 16)
            },
    )
}

/// Relies on base64's `STANDARD` engine and `Engine::decode`: the bytes that
/// `s` encodes, or base64's error when `s` is not standard padded base64.
#[verifier::external_body]
fn base64_decode(s: &str) -> (r: Result<Vec<u8>, base64::DecodeError>)
    ensures
        r is Ok <==> base64_decoded(s@) is Some,
        r matches Ok(b) ==> b@ == base64_decoded(s@)->0,
{
    base64::engine::general_purpose::STANDARD.decode(s.as_bytes())
}

/// Relies on cbc's `Decryptor::<Aes128>`: `new_from_slices` accepts exactly a
/// 16-byte key and a 16-byte IV and fails with `InvalidLength` otherwise;
/// `decrypt_padded_vec_mut::<Pkcs7>` gives the plaintext, or `UnpadError`
/// where the data is not whole blocks or its padding is malformed.
#[verifier::external_body]
fn aes128_cbc_decrypt(key: &[u8], iv: &[u8], data: &[u8]) -> (r: Result<Vec<u8>, Error>)
    ensures
        !(key@.len() == 16 && iv@.len() == 16) <==> r matches Err(Error::AesInvalidLength(_)),
        key@.len() == 16 && iv@.len() == 16 ==> (r is Ok <==> aes128_cbc_decrypted(
            key@,
            iv@,
            data@,
        ) is Some),
        r matches Ok(p) ==> p@ == aes128_cbc_decrypted(key@, iv@, data@)->0,
        r is Err ==> (r matches Err(Error::AesInvalidLength(_)) || r matches Err(Error::Unpad(_))),
{
    match cbc::Decryptor::<aes::Aes128>::new_from_slices(key, iv) {
        Ok(decryptor) => decryptor.decrypt_padded_vec_mut::<Pkcs7>(data).map_err(Error::Unpad),
        Err(e) => Err(Error::AesInvalidLength(e)),
    }
}

/// Relies on hmac's `Hmac::<Sha256>`: `new_from_slice` accepts a key of any
/// length, and `update` followed by `finalize` gives the 32-byte tag.
#[verifier::external_body]
fn hmac_sha256(key: &[u8], message: &[u8]) -> (r: Result<Vec<u8>, aes::cipher::InvalidLength>)
    ensures
        r is Ok,
        r matches Ok(t) ==> t@ == hmac_sha256_of(key@, message@),
        r matches Ok(t) ==> t@.len() == 32,
{
    let mut mac = <hmac::Hmac<sha2::Sha256> as Mac>::new_from_slice(key)?;
    mac.update(message);
    Ok(mac.finalize().into_bytes().to_vec())
}

/// Relies on `hex::encode`: two lowercase hexadecimal digits per byte.
#[verifier::external_body]
fn hex_encode(b: &[u8]) -> (r: String)
    ensures
        r@ == hex_lower(b@),
{
    hex::encode(b)
}

/// What a login answers with: the user's identifiers and the session key.
#[derive(Clone)]
pub struct Credential {
    open_id: String,
    session_key: String,
    union_id: Option<String>,
}

pub struct CredentialView {
    pub open_id: Seq<char>,
    pub session_key: Seq<char>,
    pub union_id: Option<Seq<char>>,
}

impl View for Credential {
    type V = CredentialView;

    closed spec fn view(&self) -> CredentialView {
        CredentialView {
            open_id: self.open_id@,
            session_key: self.session_key@,
            union_id: opt_view(&self.union_id),
        }
    }
}

/// The fields of a login answer, as they are read from it.
pub struct CredentialBuilder {
    pub open_id: String,
    pub session_key: String,
    pub union_id: Option<String>,
}

impl CredentialBuilder {
    pub fn build(self) -> (r: Credential)
        ensures
            r@ == (CredentialView {
                open_id: self.open_id@,
                session_key: self.session_key@,
                union_id: opt_view(&self.union_id),
            }),
    {
        Credential { open_id: self.open_id, session_key: self.session_key, union_id: self.union_id }
    }
}

/// How decrypting `data` with the session key `key` and `iv`, all three in
/// base64, turns out: the plaintext, or nothing when some step fails.
pub open spec fn decryption_of(key: Seq<char>, iv: Seq<char>, data: Seq<char>) -> Option<Seq<u8>> {
    match (base64_decoded(key), base64_decoded(iv), base64_decoded(data)) {
        (Some(k), Some(i), Some(d)) => if k.len() == 16 && i.len() == 16 {
            aes128_cbc_decrypted(k, i, d)
        } else {
            None
        },
        _ => None,
    }
}

impl Credential {
    pub fn open_id(&self) -> (r: &str)
        ensures
            r@ == self@.open_id,
    {
        self.open_id.as_str()
    }

    pub fn session_key(&self) -> (r: &str)
        ensures
            r@ == self@.session_key,
    {
        self.session_key.as_str()
    }

    pub fn union_id(&self) -> (r: Option<&str>)
        ensures
            r is Some <==> self@.union_id is Some,
            r matches Some(u) ==> u@ == self@.union_id->0,
    {
        match &self.union_id {
            Some(u) => Some(u.as_str()),
            None => None,
        }
    }

    /// Decrypts a payload that the client encrypted with this session key
    /// (AES-128-CBC, PKCS#7 padding; key, `iv` and `encrypted_data` in
    /// base64) and gives the plaintext bytes.
    ///
    /// A part that is not base64 gives `Base64Decode`; a key or IV that is
    /// not 16 bytes gives `AesInvalidLength`; bad padding gives `Unpad`.
    pub fn decrypt(&self, encrypted_data: &str, iv: &str) -> (r: Result<Vec<u8>, Error>)
        ensures
            r is Ok <==> decryption_of(self@.session_key, iv@, encrypted_data@) is Some,
            r matches Ok(p) ==> p@ == decryption_of(
                self@.session_key,
                iv@,
                encrypted_data@,
            )->0,
            (base64_decoded(self@.session_key) is None || base64_decoded(iv@) is None
                || base64_decoded(encrypted_data@) is None) ==> r matches Err(
                Error::Base64Decode(_),
            ),
            (base64_decoded(self@.session_key) matches Some(k) && base64_decoded(iv@) matches Some(i)
                && base64_decoded(encrypted_data@) is Some && !(k.len() == 16 && i.len() == 16))
                ==> r matches Err(Error::AesInvalidLength(_)),
            (base64_decoded(self@.session_key) matches Some(k) && base64_decoded(iv@) matches Some(i)
                && base64_decoded(encrypted_data@) matches Some(d) && k.len() == 16 && i.len()
                == 16 && aes128_cbc_decrypted(k, i, d) is None) ==> r matches Err(
                Error::Unpad(_),
            ),
    {
        let key = match base64_decode(self.session_key.as_str()) {
            Ok(k) => k,
            Err(e) => return Err(Error::Base64Decode(e)),
        };
        let iv = match base64_decode(iv) {
            Ok(i) => i,
            Err(e) => return Err(Error::Base64Decode(e)),
        };
        let data = match base64_decode(encrypted_data) {
            Ok(d) => d,
            Err(e) => return Err(Error::Base64Decode(e)),
        };
        aes128_cbc_decrypt(key.as_slice(), iv.as_slice(), data.as_slice())
    }
}

/// The signature that proves knowledge of a session key to the platform: the
/// HMAC-SHA256 of the empty message under the key's bytes, in lowercase
/// hexadecimal.
pub fn session_signature(session_key: &str) -> (r: String)
    ensures
        r@ == hex_lower(hmac_sha256_of(session_key.spec_bytes(), Seq::empty())),
{
    let empty: Vec<u8> = Vec::new();
    match hmac_sha256(session_key.as_bytes(), empty.as_slice()) {
        Ok(tag) => hex_encode(tag.as_slice()),
        Err(_) => {
            proof {
                assert(false);
            }
            String::new()
        },
    }
}

} // verus!
