//! Base64 text, as the `base64` crate's standard-alphabet engines read and write it.

use base64::Engine;
use vstd::prelude::*;

verus! {

/// The bytes that `base64::engine::general_purpose::STANDARD` decodes `text`
/// to, or `None` where it reports an error.
pub uninterp spec fn base64_decoding(text: Seq<char>) -> Option<Seq<u8>>;

/// The text that `base64::engine::general_purpose::STANDARD_NO_PAD` encodes
/// `data` to.
pub uninterp spec fn base64_no_pad_encoding(data: Seq<u8>) -> Seq<char>;

/// Calls `Engine::decode` of `base64::engine::general_purpose::STANDARD`: the
/// standard alphabet, with canonical padding required. The contract only
/// names the outcome: the same text always gives the same bytes, and any
/// `DecodeError` is `None`.
#[verifier::external_body]
pub(crate) fn base64_decode(text: &str) -> (bytes: Option<Vec<u8>>)
    ensures
        match bytes {
            Some(b) => base64_decoding(text@) == Some(b@),
            None => base64_decoding(text@) is None,
        },
{
    match base64::engine::general_purpose::STANDARD.decode(text) {
        Ok(bytes) => Some(bytes),
        Err(_) => None,
    }
}

/// Calls `Engine::encode` of `base64::engine::general_purpose::STANDARD_NO_PAD`:
/// the standard alphabet, without padding. The contract only names the text.
/// The call panics where the encoded length does not fit in `usize`, which
/// the bound on the input rules out.
#[verifier::external_body]
pub(crate) fn base64_encode_no_pad(data: &[u8]) -> (text: String)
    requires
        data@.len() / 3 * 4 + 3 <= usize::MAX,
    ensures
        text@ == base64_no_pad_encoding(data@),
{
    base64::engine::general_purpose::STANDARD_NO_PAD.encode(data)
}

} // verus!
