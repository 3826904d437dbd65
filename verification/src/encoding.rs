//! Standard base64, as the `base64` crate computes it.

use vstd::prelude::*;

verus! {

/// The standard base64 text of `bytes` (the alphabet with `+` and `/`, padded
/// with `=`), as `base64::encode` returns it.
pub uninterp spec fn base64_text(bytes: Seq<u8>) -> Seq<char>;

/// The bytes that `base64::decode` reads from `text`, or `None` where it
/// rejects the text.
pub uninterp spec fn base64_bytes(text: Seq<char>) -> Option<Seq<u8>>;

/// Calls `base64::encode`, which encodes with the standard engine.
///
/// Not proved: that the text returned is the encoding of `bytes`, and that
/// decoding that text gives `bytes` back. The crate computes the length of the
/// text with checked arithmetic and panics where it overflows; the
/// precondition keeps such inputs out.
#[verifier::external_body]
#[allow(deprecated)]
pub(crate) fn base64_encode(bytes: &[u8]) -> (text: String)
    requires
        bytes@.len() / 3 * 4 + 4 <= usize::MAX,
    ensures
        text@ == base64_text(bytes@),
        base64_bytes(text@) == Some(bytes@),
{
    base64::encode(bytes)
}

/// Calls `base64::decode`, which decodes with the standard engine.
///
/// Not proved: that the bytes returned are those that the text encodes, and
/// that `None` comes exactly where the crate reports a decoding error.
#[verifier::external_body]
#[allow(deprecated)]
pub(crate) fn base64_decode(text: &str) -> (bytes: Option<Vec<u8>>)
    ensures
        match bytes {
            Some(b) => base64_bytes(text@) == Some(b@),
            None => base64_bytes(text@) is None,
        },
{
    match base64::decode(text) {
        Ok(b) => Some(b),
        Err(_) => None,
    }
}

} // verus!
