//! NUL-terminated text held in fixed-capacity byte fields.
//!
//! The kernel reports driver names, model strings and entity names as
//! fixed-size byte arrays whose meaningful content ends at the first NUL
//! byte.  This module gives that convention a specification -- the prefix
//! before the first NUL, read as UTF-8 -- and verified decoders for it.

use vstd::prelude::*;
use vstd::utf8::{decode_utf8, encode_utf8, encode_utf8_decode_utf8, valid_utf8};

verus! {

/// True when `i` is the index of the first NUL byte of `b`.
pub open spec fn is_first_nul(b: Seq<u8>, i: int) -> bool {
    &&& 0 <= i < b.len()
    &&& b[i] == 0u8
    &&& forall|j: int| 0 <= j < i ==> b[j] != 0u8
}

/// True when `b` holds a NUL terminator at all.
pub open spec fn has_nul(b: Seq<u8>) -> bool {
    exists|i: int| is_first_nul(b, i)
}

/// Index of the first NUL byte of `b`.
pub open spec fn nul_pos(b: Seq<u8>) -> int
    recommends
        has_nul(b),
{
    choose|i: int| is_first_nul(b, i)
}

/// The bytes of `b` that stand before its first NUL terminator.
pub open spec fn cstr_prefix(b: Seq<u8>) -> Seq<u8>
    recommends
        has_nul(b),
{
    b.take(nul_pos(b))
}

/// A text field is well-formed when it is NUL-terminated and the bytes
/// before the terminator are valid UTF-8.
pub open spec fn cstr_ok(b: Seq<u8>) -> bool {
    has_nul(b) && valid_utf8(cstr_prefix(b))
}

/// The text a well-formed field holds: the UTF-8 reading of its prefix.
pub open spec fn cstr_text(b: Seq<u8>) -> Seq<char>
    recommends
        cstr_ok(b),
{
    decode_utf8(cstr_prefix(b))
}

/// Relates a raw text field to its decoded form.
pub open spec fn cstr_decodes_to(b: Seq<u8>, s: Seq<char>) -> bool {
    cstr_ok(b) && s == cstr_text(b)
}

/// Relies on `String::from_utf8`: it succeeds exactly on valid UTF-8 input,
/// and on success the returned string's byte content is the input itself.
#[verifier::external_body]
fn utf8_to_string(bytes: Vec<u8>) -> (r: Option<String>)
    ensures
        (r is Some) == valid_utf8(bytes@),
        r matches Some(s) ==> encode_utf8(s@) == bytes@,
{
    String::from_utf8(bytes).ok()
}

/// Position of the first NUL byte of `b`, if any.
fn find_nul(b: &[u8]) -> (r: Option<usize>)
    ensures
        r matches Some(i) ==> is_first_nul(b@, i as int),
        r is None ==> !has_nul(b@),
{
    let mut i: usize = 0;
    while i < b.len()
        invariant
            i <= b@.len(),
            forall|j: int| 0 <= j < i ==> b@[j] != 0u8,
        decreases b@.len() - i,
    {
        if b[i] == 0 {
            return Some(i);
        }
        i += 1;
    }
    None
}

/// Decode a fixed-capacity text field, reporting a malformed one as `None`.
///
/// The result is `Some` exactly when the field is NUL-terminated with a
/// valid UTF-8 prefix, and then holds the text of that prefix.
pub fn try_c_str_to_str(c_str: &[u8]) -> (r: Option<String>)
    ensures
        (r is Some) == cstr_ok(c_str@),
        r matches Some(s) ==> cstr_decodes_to(c_str@, s@),
{
    let n = match find_nul(c_str) {
        None => {
            return None;
        },
        Some(n) => n,
    };
    proof {
        assert(has_nul(c_str@));
        assert(is_first_nul(c_str@, nul_pos(c_str@)));
        assert(nul_pos(c_str@) == n as int);
    }
    let mut prefix: Vec<u8> = Vec::new();
    let mut j: usize = 0;
    while j < n
        invariant
            j <= n,
            is_first_nul(c_str@, n as int),
            prefix@ == c_str@.take(j as int),
        decreases n - j,
    {
        prefix.push(c_str[j]);
        proof {
            assert(prefix@ =~= c_str@.take(j + 1));
        }
        j += 1;
    }
    proof {
        assert(prefix@ == cstr_prefix(c_str@));
    }
    let ghost prefix_bytes = prefix@;
    match utf8_to_string(prefix) {
        Some(s) => {
            proof {
                encode_utf8_decode_utf8(s@);
                assert(s@ == decode_utf8(prefix_bytes));
            }
            Some(s)
        },
        None => None,
    }
}

/// Decode a text field that the platform contract guarantees well-formed.
pub fn c_str_to_str(c_str: &[u8]) -> (r: String)
    requires
        cstr_ok(c_str@),
    ensures
        cstr_decodes_to(c_str@, r@),
{
    match try_c_str_to_str(c_str) {
        Some(s) => s,
        None => unreached(),
    }
}

} // verus!
