//! The boundary to the `base64` crate: what the library takes from it on
//! trust.

use vstd::prelude::*;

verus! {

/// The standard base64 text of `data`.
pub uninterp spec fn base64_text(data: Seq<u8>) -> Seq<char>;

/// The number of characters in the base64 text of `n` bytes: four for every
/// three bytes, started or complete.
pub open spec fn base64_len(n: nat) -> nat {
    4 * ((n + 2) / 3)
}

/// The bytes that a base64 text stands for, if it is well formed.
pub uninterp spec fn base64_bytes(text: Seq<char>) -> Option<Seq<u8>>;

/// Encodes with `base64::encode`: the standard alphabet, with padding.
///
/// Trusted: the text is a function of the bytes alone, named by
/// `base64_text`, and `base64::decode` gives the same bytes back for it.
/// The crate panics where the size of the text overflows, and the allocator
/// where it is more than a text can have; the bound rules both out.
#[verifier::external_body]
pub(crate) fn base64_encode(data: &[u8]) -> (r: String)
    requires
        base64_len(data@.len()) <= isize::MAX,
    ensures
        r@ == base64_text(data@),
        base64_bytes(r@) == Some(data@),
{
    base64::encode(data)
}

/// Decodes with `base64::decode`: the standard alphabet, with padding.
///
/// Trusted: whether the text is accepted, and the bytes it then gives, are a
/// function of the text alone, named by `base64_bytes`.
#[verifier::external_body]
pub(crate) fn base64_decode(text: &str) -> (r: Option<Vec<u8>>)
    ensures
        r is Some <==> base64_bytes(text@) is Some,
        r matches Some(bytes) ==> base64_bytes(text@) == Some(bytes@),
{
    base64::decode(text).ok()
}

} // verus!
