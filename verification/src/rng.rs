use vstd::prelude::*;
use crate::credential::{KEY_LEN, SECRET_LEN};

verus! {

/// Relies on `rand::rngs::OsRng` through `rand::RngCore::try_fill_bytes`:
/// fills a buffer from the operating system's cryptographically secure
/// entropy source. Nothing can be promised of the bytes themselves — two
/// calls may and should differ — only that a returned payload has exactly
/// the 22 bytes (6-byte sector key plus 16-byte secret) enrollment asks for,
/// and that a source failure comes back as `None` rather than a panic.
#[verifier::external_body]
pub(crate) fn random_key_and_secret() -> (r: Option<Vec<u8>>)
    ensures
        match r {
            Some(p) => p@.len() == KEY_LEN + SECRET_LEN,
            None => true,
        },
{
    let mut buf = vec![0u8; KEY_LEN + SECRET_LEN];
    match rand::RngCore::try_fill_bytes(&mut rand::rngs::OsRng, buf.as_mut_slice()) {
        Ok(()) => Some(buf),
        Err(_) => None,
    }
}

} // verus!
