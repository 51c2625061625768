use rust_base58::{FromBase58, ToBase58};
use vstd::prelude::*;

verus! {

/// The base58 text (bitcoin alphabet) of the bytes `b`.
pub uninterp spec fn base58_text(b: Seq<u8>) -> Seq<char>;

/// The bytes that the base58 text `s` (bitcoin alphabet) denotes; `None`
/// where `s` holds a character outside the alphabet.
pub uninterp spec fn base58_bytes(s: Seq<char>) -> Option<Seq<u8>>;

/// Relies on rust-base58's `ToBase58::to_base58` on a byte slice.
#[verifier::external_body]
pub(crate) fn base58_encode(b: &[u8]) -> (r: String)
    ensures
        r@ == base58_text(b@),
{
    b.to_base58()
}

/// Relies on rust-base58's `FromBase58::from_base58` on a `str`, which fails
/// only on a character outside the alphabet.
#[verifier::external_body]
pub(crate) fn base58_decode(s: &str) -> (r: Option<Vec<u8>>)
    ensures
        match r {
            Some(b) => base58_bytes(s@) == Some(b@),
            None => base58_bytes(s@) is None,
        },
{
    s.from_base58().ok()
}

} // verus!
