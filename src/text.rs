use vstd::prelude::*;
use vstd::utf8::{decode_utf8, encode_utf8, is_ascii_chars, valid_utf8};

verus! {

/// The Unicode upper-case form of a string, as `str::to_uppercase` computes it.
pub uninterp spec fn upper_of(s: Seq<char>) -> Seq<char>;

/// ASCII upper-casing of bytes: `a`..=`z` become `A`..=`Z`, the rest stay.
pub open spec fn ascii_upper_bytes(b: Seq<u8>) -> Seq<u8> {
    Seq::new(b.len(), |i: int| if 97 <= b[i] && b[i] <= 122 { (b[i] - 32) as u8 } else { b[i] })
}

/// Relies on `str::to_uppercase`: the result depends on the characters alone,
/// and on ASCII input it maps each lower-case letter to its upper-case form and
/// keeps every other character.
#[verifier::external_body]
pub(crate) fn uppercase(s: &str) -> (r: String)
    ensures
        r@ == upper_of(s@),
        is_ascii_chars(s@) ==> encode_utf8(r@) == ascii_upper_bytes(encode_utf8(s@)),
{
    s.to_uppercase()
}

/// Relies on `std::str::from_utf8`: it succeeds exactly on valid UTF-8, and
/// then reads the bytes as the characters they encode.
#[verifier::external_body]
pub(crate) fn utf8_text(b: &[u8]) -> (r: Option<String>)
    ensures
        r.is_some() == valid_utf8(b@),
        r.is_some() ==> r.unwrap()@ == decode_utf8(b@),
{
    match std::str::from_utf8(b) {
        Ok(s) => Some(s.to_owned()),
        Err(_) => None,
    }
}

} // verus!
