//! The plain-text bus message format `username:message`.

use vstd::prelude::*;
use vstd::utf8::{decode_utf8, valid_utf8};

verus! {

/// Relies on String::from_utf8: the decoded text when the bytes are valid UTF-8.
#[verifier::external_body]
fn string_from_utf8(bytes: Vec<u8>) -> (r: Option<String>)
    ensures
        match r {
            Some(s) => valid_utf8(bytes@) && s@ == decode_utf8(bytes@),
            None => !valid_utf8(bytes@),
        },
{
    String::from_utf8(bytes).ok()
}

/// Whether `i` is the position of the first `:` in `bytes`.
pub open spec fn is_first_colon(bytes: Seq<u8>, i: int) -> bool {
    &&& 0 <= i < bytes.len()
    &&& bytes[i] == 0x3a
    &&& forall|j: int| 0 <= j < i ==> bytes[j] != 0x3a
}

/// What `parse_username_and_message_from_bytes` returns: the UTF-8 text before
/// and after the first `:`, when there is one and both parts decode.
pub open spec fn username_and_message(bytes: Seq<u8>) -> Option<(Seq<char>, Seq<char>)> {
    if exists|i: int| is_first_colon(bytes, i) {
        let i = choose|i: int| is_first_colon(bytes, i);
        let user = bytes.subrange(0, i);
        let msg = bytes.subrange(i + 1, bytes.len() as int);
        if valid_utf8(user) && valid_utf8(msg) {
            Some((decode_utf8(user), decode_utf8(msg)))
        } else {
            None
        }
    } else {
        None
    }
}

/// The bytes `bytes[start..end]` as a vector.
fn copy_range(bytes: &[u8], start: usize, end: usize) -> (r: Vec<u8>)
    requires
        start <= end <= bytes@.len(),
    ensures
        r@ == bytes@.subrange(start as int, end as int),
{
    let mut out: Vec<u8> = Vec::new();
    let mut k: usize = start;
    while k < end
        invariant
            start <= k <= end,
            end <= bytes@.len(),
            out@ == bytes@.subrange(start as int, k as int),
        decreases end - k,
    {
        out.push(bytes[k]);
        proof {
            assert(bytes@.subrange(start as int, k + 1) =~= bytes@.subrange(start as int, k as int).push(
                bytes@[k as int],
            ));
        }
        k = k + 1;
    }
    out
}

/// Splits a `username:message` payload at its first `:`; `None` when there is
/// no `:` or either side is not valid UTF-8.
pub fn parse_username_and_message_from_bytes(bytes: &[u8]) -> (r: Option<(String, String)>)
    ensures
        match r {
            Some((user, msg)) => username_and_message(bytes@) == Some((user@, msg@)),
            None => username_and_message(bytes@) is None,
        },
{
    let mut i: usize = 0;
    while i < bytes.len() && bytes[i] != 0x3a
        invariant
            i <= bytes@.len(),
            forall|j: int| 0 <= j < i ==> bytes@[j] != 0x3a,
        decreases bytes.len() - i,
    {
        i = i + 1;
    }
    if i == bytes.len() {
        return None;
    }
    proof {
        assert(is_first_colon(bytes@, i as int));
        assert forall|k: int| is_first_colon(bytes@, k) implies k == i by {
            if k < i {
            } else if k > i {
                assert(bytes@[i as int] == 0x3a);
            }
        }
    }
    let user = string_from_utf8(copy_range(bytes, 0, i));
    let msg = string_from_utf8(copy_range(bytes, i + 1, bytes.len()));
    match (user, msg) {
        (Some(u), Some(m)) => Some((u, m)),
        _ => None,
    }
}

} // verus!
