//! The generic structured-value shape and the byte/text coercion rule.
//!
//! Every delivered event is converted into a [`Val`]. Wire byte
//! sequences (payloads, attachments, reply-error payloads) go through
//! one uniform coercion: attempt strict text decoding first, fall back
//! to a raw-bytes value of identical content. The reverse direction,
//! [`value_to_bytes`], accepts exactly text and raw-bytes values.

use vstd::prelude::*;
use vstd::slice::slice_to_vec;
use vstd::utf8::{decode_utf8, encode_utf8, valid_utf8};

use crate::errors::ConvError;

verus! {

/// The single generic structured-value shape every command yields:
/// ordered-field records, lists, scalars, and in-band error values.
#[derive(Debug, PartialEq, Eq)]
pub enum Val {
    Nothing,
    Bool(bool),
    Int(i64),
    Text(String),
    Bytes(Vec<u8>),
    List(Vec<Val>),
    Record(Vec<(String, Val)>),
    Error(String),
}

/// The value is the text `s`.
pub open spec fn is_text(v: Val, s: Seq<char>) -> bool {
    v matches Val::Text(t) && t@ == s
}

/// The value is the raw byte sequence `b`.
pub open spec fn is_bytes(v: Val, b: Seq<u8>) -> bool {
    v matches Val::Bytes(x) && x@ == b
}

/// The value is the integer `i`.
pub open spec fn is_int(v: Val, i: int) -> bool {
    v matches Val::Int(x) && x == i
}

/// The value is the boolean `b`.
pub open spec fn is_bool(v: Val, b: bool) -> bool {
    v matches Val::Bool(x) && x == b
}

/// The value is the nothing value.
pub open spec fn is_nothing(v: Val) -> bool {
    v matches Val::Nothing
}

/// The value is an in-band error value carrying the message `m`.
pub open spec fn is_error(v: Val, m: Seq<char>) -> bool {
    v matches Val::Error(t) && t@ == m
}

/// The value is what the byte/text coercion rule produces for `b`:
/// the decoded text when `b` is valid UTF-8, otherwise the bytes
/// themselves, unchanged.
pub open spec fn is_coerced(v: Val, b: Seq<u8>) -> bool {
    if valid_utf8(b) {
        is_text(v, decode_utf8(b))
    } else {
        is_bytes(v, b)
    }
}

/// The byte sequence a value stands for on the wire: the UTF-8
/// encoding of a text value, the contents of a raw-bytes value, and
/// nothing for every other shape.
pub open spec fn bytes_of(v: Val) -> Option<Seq<u8>> {
    match v {
        Val::Text(s) => Some(encode_utf8(s@)),
        Val::Bytes(b) => Some(b@),
        _ => None,
    }
}

/// Relies on `core::str::from_utf8`: it returns `Ok` exactly on valid
/// UTF-8 input and the returned string slice contains the decoded
/// characters of that input; on failure the error's rendering is used
/// as the diagnostic.
#[verifier::external_body]
fn utf8_decode(bytes: &[u8]) -> (r: Result<&str, String>)
    ensures
        r matches Ok(s) ==> valid_utf8(bytes@) && s@ == decode_utf8(bytes@),
        r matches Err(m) ==> !valid_utf8(bytes@) && m@ == utf8_diagnostic(bytes@),
{
    match core::str::from_utf8(bytes) {
        Ok(s) => Ok(s),
        Err(e) => Err(format!("{e}")),
    }
}

/// The rendering of the UTF-8 decode failure for an invalid byte
/// sequence; it depends on the bytes alone.
pub uninterp spec fn utf8_diagnostic(bytes: Seq<u8>) -> Seq<char>;

/// Coerce a wire byte sequence into a value: text when the bytes are
/// valid UTF-8, otherwise a raw-bytes value with identical content.
pub fn bytes_to_value(bytes: &[u8]) -> (r: Val)
    ensures
        is_coerced(r, bytes@),
{
    match utf8_decode(bytes) {
        Ok(s) => Val::Text(s.to_owned()),
        Err(_) => Val::Bytes(slice_to_vec(bytes)),
    }
}

/// Decode a wire byte sequence into either the decoded text or the
/// diagnostic for why it is not text.
pub fn bytes_to_text(bytes: &[u8]) -> (r: Result<String, String>)
    ensures
        r matches Ok(s) ==> valid_utf8(bytes@) && s@ == decode_utf8(bytes@),
        r matches Err(m) ==> !valid_utf8(bytes@) && m@ == utf8_diagnostic(bytes@),
{
    match utf8_decode(bytes) {
        Ok(s) => Ok(s.to_owned()),
        Err(m) => Err(m),
    }
}

/// Turn a value back into wire bytes. Exactly text and raw-bytes
/// values convert; every other shape is rejected.
pub fn value_to_bytes(v: &Val) -> (r: Result<Vec<u8>, ConvError>)
    ensures
        match bytes_of(*v) {
            Some(b) => r matches Ok(out) && out@ == b,
            None => r matches Err(e) && e matches ConvError::InvalidPayloadType,
        },
{
    match v {
        Val::Text(s) => Ok(s.as_str().as_bytes_vec()),
        Val::Bytes(b) => Ok(clone_bytes(b)),
        _ => Err(ConvError::InvalidPayloadType),
    }
}

/// Copy a byte vector.
pub fn clone_bytes(b: &Vec<u8>) -> (r: Vec<u8>)
    ensures
        r@ == b@,
{
    let mut out: Vec<u8> = Vec::new();
    let mut i: usize = 0;
    while i < b.len()
        invariant
            i <= b@.len(),
            out@ == b@.subrange(0, i as int),
        decreases b@.len() - i,
    {
        out.push(b[i]);
        i = i + 1;
        proof {
            assert(out@ =~= b@.subrange(0, i as int));
        }
    }
    proof {
        assert(b@.subrange(0, b@.len() as int) =~= b@);
    }
    out
}

/// Coercion round trip: whatever value the byte/text coercion produced
/// for a byte sequence, converting that value back to wire bytes
/// reproduces the original byte sequence exactly.
pub proof fn lemma_coercion_round_trip(v: Val, b: Seq<u8>)
    requires
        is_coerced(v, b),
    ensures
        bytes_of(v) == Some(b),
{
    if valid_utf8(b) {
        vstd::utf8::decode_utf8_encode_utf8(b);
    }
}

} // verus!
