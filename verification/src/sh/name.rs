//! NUL-terminated names.

use super::error::DecodeErrorKind;
use vstd::prelude::*;
use vstd::utf8::*;

verus! {

/// The index of the first zero byte of `n` at or after `from`, or `n.len()`
/// where there is none.
pub open spec fn spec_name_end(n: Seq<u8>, from: int) -> int
    decreases n.len() - from,
{
    if from < 0 || from >= n.len() {
        n.len() as int
    } else if n[from] == 0 {
        from
    } else {
        spec_name_end(n, from + 1)
    }
}

/// The bytes of the name that `n` starts with: all that precedes the first
/// zero byte.
pub open spec fn spec_name_bytes(n: Seq<u8>) -> Seq<u8> {
    n.subrange(0, spec_name_end(n, 0))
}

/// Why `n` holds no name, or `None` where it holds one.
pub open spec fn spec_name_fault(n: Seq<u8>) -> Option<DecodeErrorKind> {
    if spec_name_end(n, 0) >= n.len() {
        Some(DecodeErrorKind::MissingTerminator)
    } else if !valid_utf8(spec_name_bytes(n)) {
        Some(DecodeErrorKind::InvalidName)
    } else {
        None
    }
}

/// The text of the name that `n` starts with.
pub open spec fn spec_name_text(n: Seq<u8>) -> Seq<char> {
    decode_utf8(spec_name_bytes(n))
}

/// What `spec_name_end` picks: the least index that holds a zero byte.
pub proof fn lemma_name_end(n: Seq<u8>, from: int)
    requires
        0 <= from <= n.len(),
    ensures
        from <= spec_name_end(n, from) <= n.len(),
        spec_name_end(n, from) < n.len() ==> n[spec_name_end(n, from)] == 0,
        forall|i: int| from <= i < spec_name_end(n, from) ==> n[i] != 0,
    decreases n.len() - from,
{
    if from < n.len() && n[from] != 0 {
        lemma_name_end(n, from + 1);
    }
}

/// An index with a zero byte, and none before it, is the name's end.
pub proof fn lemma_name_end_is(n: Seq<u8>, from: int, end: int)
    requires
        0 <= from <= end <= n.len(),
        forall|i: int| from <= i < end ==> n[i] != 0,
        end < n.len() ==> n[end] == 0,
    ensures
        spec_name_end(n, from) == end,
    decreases end - from,
{
    if from < end {
        lemma_name_end_is(n, from + 1, end);
    }
}

/// `std::str::from_utf8`, with the text copied into a `String`. It
/// succeeds exactly on well-formed UTF-8, and the bytes of the string it
/// gives are the bytes it was given.
#[verifier::external_body]
fn utf8_to_string(bytes: &[u8]) -> (r: Option<String>)
    ensures
        r is Some <==> valid_utf8(bytes@),
        r matches Some(s) ==> encode_utf8(s@) == bytes@,
{
    match std::str::from_utf8(bytes) {
        Ok(s) => Some(s.to_owned()),
        Err(_) => None,
    }
}

/// Reads the NUL-terminated name at the start of `n`.
///
/// Fails with `MissingTerminator` where `n` holds no zero byte, and with
/// `InvalidName` where the bytes before the first zero byte are not UTF-8.
pub fn read_name(n: &[u8]) -> (r: Result<String, DecodeErrorKind>)
    ensures
        r is Ok <==> spec_name_fault(n@) is None,
        r matches Ok(s) ==> s@ == spec_name_text(n@) && encode_utf8(s@) == spec_name_bytes(n@),
        r matches Err(k) ==> spec_name_fault(n@) == Some(k),
{
    let mut end: usize = 0;
    while end < n.len() && n[end] != 0
        invariant
            end <= n@.len(),
            forall|i: int| 0 <= i < end ==> n@[i] != 0,
        decreases n@.len() - end,
    {
        end += 1;
    }
    proof {
        lemma_name_end_is(n@, 0, end as int);
    }
    if end >= n.len() {
        return Err(DecodeErrorKind::MissingTerminator);
    }
    match utf8_to_string(vstd::slice::slice_subrange(n, 0, end)) {
        Some(s) => {
            proof {
                encode_utf8_decode_utf8(s@);
            }
            Ok(s)
        },
        None => Err(DecodeErrorKind::InvalidName),
    }
}

} // verus!
