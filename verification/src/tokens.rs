//! Token-sequence marshaling between the caller's integer width and the
//! engine's.
//!
//! The engine speaks unsigned 32-bit tokens; the caller's runtime has only a
//! signed 32-bit integer of the same width. The conversion in each direction
//! is bit-preserving: values reinterpret modulo 2^32, and a round trip gives
//! back the original sequence.

use vstd::prelude::*;

verus! {

/// The caller-width (signed) value that carries the token `t`: equal to `t`
/// below `0x8000_0000`, and `t - 2^32` above.
pub open spec fn signed_of(t: u32) -> int {
    if t < 0x8000_0000 {
        t as int
    } else {
        t - 0x1_0000_0000
    }
}

/// The engine-width (unsigned) token carried by the caller value `s`: equal
/// to `s` when nonnegative, and `s + 2^32` when negative.
pub open spec fn unsigned_of(s: i32) -> int {
    if s >= 0 {
        s as int
    } else {
        s + 0x1_0000_0000
    }
}

/// Reinterpret one engine token in the caller's signed width.
pub fn token_to_caller(t: u32) -> (r: i32)
    ensures
        r as int == signed_of(t),
{
    if t <= 0x7FFF_FFFF {
        t as i32
    } else {
        ((t - 0x8000_0000) as i32) + i32::MIN
    }
}

/// Reinterpret one caller-width value as the engine token it carries.
pub fn token_from_caller(s: i32) -> (r: u32)
    ensures
        r as int == unsigned_of(s),
{
    if s >= 0 {
        s as u32
    } else {
        ((s - i32::MIN) as u32) + 0x8000_0000
    }
}

/// Reinterpret an engine token sequence in the caller's signed width,
/// element by element.
pub fn tokens_to_caller(tokens: &[u32]) -> (r: Vec<i32>)
    ensures
        r@.len() == tokens@.len(),
        forall|i: int| 0 <= i < tokens@.len() ==> r@[i] as int == signed_of(tokens@[i]),
{
    let mut out: Vec<i32> = Vec::new();
    let mut i: usize = 0;
    while i < tokens.len()
        invariant
            i <= tokens@.len(),
            out@.len() == i,
            forall|j: int| 0 <= j < i ==> out@[j] as int == signed_of(tokens@[j]),
        decreases tokens@.len() - i,
    {
        out.push(token_to_caller(tokens[i]));
        i = i + 1;
    }
    out
}

/// Reinterpret a caller-width sequence as the engine token sequence it
/// carries, element by element.
pub fn tokens_from_caller(values: &[i32]) -> (r: Vec<u32>)
    ensures
        r@.len() == values@.len(),
        forall|i: int| 0 <= i < values@.len() ==> r@[i] as int == unsigned_of(values@[i]),
{
    let mut out: Vec<u32> = Vec::new();
    let mut i: usize = 0;
    while i < values.len()
        invariant
            i <= values@.len(),
            out@.len() == i,
            forall|j: int| 0 <= j < i ==> out@[j] as int == unsigned_of(values@[j]),
        decreases values@.len() - i,
    {
        out.push(token_from_caller(values[i]));
        i = i + 1;
    }
    out
}

/// Width marshaling loses nothing: a token carried to the caller's width and
/// back is the original token, and a caller value carried to the engine's
/// width and back is the original value.
pub proof fn lemma_width_round_trip(t: u32, s: i32, u: u32, v: i32)
    requires
        s as int == signed_of(t),
        u as int == unsigned_of(s),
        v as int == signed_of(u),
    ensures
        u == t,
        v == s,
{
}

} // verus!
