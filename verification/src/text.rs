//! Text marshaling into the engine's buffer form.
//!
//! Caller text travels to the engine as a NUL-terminated byte buffer. Text
//! that itself contains a NUL cannot be represented in that form and must be
//! rejected, never silently truncated.

use vstd::prelude::*;
use crate::error::BindingError;

verus! {

/// Whether the text bytes contain an embedded NUL, which the engine's
/// NUL-terminated buffer form cannot carry.
pub open spec fn has_interior_nul(s: Seq<u8>) -> bool {
    exists|i: int| 0 <= i < s.len() && s[i] == 0
}

/// The engine's buffer form of text: the bytes followed by one terminator.
pub open spec fn c_buffer(s: Seq<u8>) -> Seq<u8> {
    s.push(0)
}

/// Convert caller text (UTF-8 bytes) into the engine's NUL-terminated buffer
/// form, rejecting text with an embedded NUL.
pub fn to_c_buffer(text: &[u8]) -> (r: Result<Vec<u8>, BindingError>)
    ensures
        match r {
            Ok(buf) => !has_interior_nul(text@) && buf@ == c_buffer(text@),
            Err(e) => e == BindingError::ConversionFailure && has_interior_nul(text@),
        },
{
    let mut buf: Vec<u8> = Vec::new();
    let mut i: usize = 0;
    while i < text.len()
        invariant
            i <= text@.len(),
            buf@ == text@.take(i as int),
            forall|j: int| 0 <= j < i ==> text@[j] != 0,
        decreases text@.len() - i,
    {
        let b = text[i];
        if b == 0 {
            assert(has_interior_nul(text@));
            return Err(BindingError::ConversionFailure);
        }
        buf.push(b);
        i = i + 1;
    }
    assert(buf@ =~= text@);
    buf.push(0);
    Ok(buf)
}

} // verus!
