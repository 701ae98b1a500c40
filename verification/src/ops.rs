//! The operation gates: what may be sent to the engine, and when.
//!
//! Each engine operation runs as one marshal-in / call / marshal-out / free
//! cycle. The functions here are the marshal-in half: they validate the
//! handle before anything else, convert caller arguments into the engine's
//! buffer forms, and hand the unverified runtime shim a fully-formed call
//! description — or an error, in which case no engine call happens, because
//! the call description carrying the resource address is only ever produced
//! on the `Ok` path. The marshal-out half lives in [`crate::engine`].

use vstd::prelude::*;
use crate::error::BindingError;
use crate::handle::{release_step, Handle};
use crate::text::{c_buffer, has_interior_nul, to_c_buffer};

verus! {

/// The decision every operation gate takes first: an operation is permitted
/// exactly on a live handle, and on any other handle it reports the
/// invalid-handle failure without touching the engine.
pub open spec fn gate_decision(h: Handle) -> Result<u64, BindingError> {
    if h.is_live() {
        Ok(h.raw_id())
    } else {
        Err(BindingError::InvalidHandle)
    }
}

/// An optional text argument. Absence is distinct from presence with empty
/// text all the way to the engine call: the engine's prompt grammar treats
/// "no message" and "empty message" as different structural outcomes.
pub enum OptText {
    /// The caller supplied no value; the engine receives the null sentinel.
    Absent,
    /// The caller supplied this text (possibly empty); the engine receives a
    /// valid NUL-terminated buffer.
    Present(Vec<u8>),
}

/// Whether an optional argument must be rejected: present text with an
/// embedded NUL is a hard failure, never silently dropped or treated as
/// absent.
pub open spec fn opt_rejected(o: OptText) -> bool {
    o matches OptText::Present(s) && has_interior_nul(s@)
}

/// What the engine receives for an optional argument: the null sentinel for
/// an absent one, the NUL-terminated buffer form for a present one. Lowering
/// happens only here, at the last moment before the call; nothing upstream
/// collapses absent into empty.
pub open spec fn lowered_opt(o: OptText) -> Option<Seq<u8>> {
    match o {
        OptText::Absent => None,
        OptText::Present(s) => Some(c_buffer(s@)),
    }
}

/// The byte sequences carried by an optional buffer.
pub open spec fn opt_buf_view(o: Option<Vec<u8>>) -> Option<Seq<u8>> {
    match o {
        None => None,
        Some(v) => Some(v@),
    }
}

/// Lower one optional argument to what the engine receives.
pub fn lower_opt(o: &OptText) -> (r: Result<Option<Vec<u8>>, BindingError>)
    ensures
        match r {
            Ok(b) => !opt_rejected(*o) && opt_buf_view(b) == lowered_opt(*o),
            Err(e) => e == BindingError::ConversionFailure && opt_rejected(*o),
        },
{
    match o {
        OptText::Absent => Ok(None),
        OptText::Present(s) => match to_c_buffer(s.as_slice()) {
            Ok(b) => Ok(Some(b)),
            Err(e) => Err(e),
        },
    }
}

/// A fully-marshaled plain-encoding call: the live resource address and the
/// text in the engine's NUL-terminated buffer form.
pub struct EncodeCall {
    /// The engine resource to call on.
    pub encoder: u64,
    /// The caller text, NUL-terminated.
    pub text_z: Vec<u8>,
}

/// A fully-marshaled structured-prompt call. Each optional argument is the
/// null sentinel exactly when the caller supplied no value.
pub struct RenderCall {
    /// The engine resource to call on.
    pub encoder: u64,
    /// The system message, lowered.
    pub system_z: Option<Vec<u8>>,
    /// The mandatory user message, NUL-terminated.
    pub user_z: Vec<u8>,
    /// The assistant prefix, lowered.
    pub prefix_z: Option<Vec<u8>>,
}

/// A fully-marshaled decode call: the resource address and the tokens in the
/// engine's unsigned width.
pub struct DecodeCall {
    /// The engine resource to call on.
    pub encoder: u64,
    /// The tokens to decode.
    pub tokens: Vec<u32>,
}

/// A fully-marshaled stop-token query.
pub struct StopTokensCall {
    /// The engine resource to call on.
    pub encoder: u64,
}

/// Gate and marshal a plain-encoding operation. A handle that is not live is
/// rejected before any conversion; text with an embedded NUL is rejected; on
/// every other input the call description is produced.
pub fn prepare_encode_plain(h: &Handle, text: &[u8]) -> (r: Result<EncodeCall, BindingError>)
    ensures
        gate_decision(*h) matches Err(e) ==> r == Err::<EncodeCall, BindingError>(e),
        h.is_live() && has_interior_nul(text@) ==> r == Err::<EncodeCall, BindingError>(
            BindingError::ConversionFailure,
        ),
        h.is_live() && !has_interior_nul(text@) ==> (r matches Ok(c) && c.encoder == h.raw_id()
            && c.text_z@ == c_buffer(text@)),
{
    if !h.is_live_check() {
        return Err(BindingError::InvalidHandle);
    }
    let text_z = match to_c_buffer(text) {
        Ok(b) => b,
        Err(e) => {
            return Err(e);
        },
    };
    Ok(EncodeCall { encoder: h.raw(), text_z })
}

/// Gate and marshal a structured-prompt operation. The user message is
/// mandatory; each optional argument is lowered at the last moment, absent
/// to the null sentinel, present to a valid buffer. An embedded NUL in any
/// present argument is a hard failure.
pub fn prepare_render_prompt(h: &Handle, system: &OptText, user: &[u8], prefix: &OptText) -> (r:
    Result<RenderCall, BindingError>)
    ensures
        gate_decision(*h) matches Err(e) ==> r == Err::<RenderCall, BindingError>(e),
        h.is_live() && (has_interior_nul(user@) || opt_rejected(*system) || opt_rejected(*prefix))
            ==> r == Err::<RenderCall, BindingError>(BindingError::ConversionFailure),
        h.is_live() && !has_interior_nul(user@) && !opt_rejected(*system) && !opt_rejected(*prefix)
            ==> (r matches Ok(c) && c.encoder == h.raw_id() && c.user_z@ == c_buffer(user@)
            && opt_buf_view(c.system_z) == lowered_opt(*system) && opt_buf_view(c.prefix_z)
            == lowered_opt(*prefix)),
{
    if !h.is_live_check() {
        return Err(BindingError::InvalidHandle);
    }
    let user_z = match to_c_buffer(user) {
        Ok(b) => b,
        Err(e) => {
            return Err(e);
        },
    };
    let system_z = match lower_opt(system) {
        Ok(b) => b,
        Err(e) => {
            return Err(e);
        },
    };
    let prefix_z = match lower_opt(prefix) {
        Ok(b) => b,
        Err(e) => {
            return Err(e);
        },
    };
    Ok(RenderCall { encoder: h.raw(), system_z, user_z, prefix_z })
}

/// Gate a decode operation. On a live handle every token sequence is
/// accepted, whatever its contents or length; in particular the binding never
/// rejects a sequence that one of its own token-producing operations handed
/// out.
pub fn prepare_decode(h: &Handle, tokens: &[u32]) -> (r: Result<DecodeCall, BindingError>)
    ensures
        gate_decision(*h) matches Err(e) ==> r == Err::<DecodeCall, BindingError>(e),
        h.is_live() ==> (r matches Ok(c) && c.encoder == h.raw_id() && c.tokens@ == tokens@),
{
    if !h.is_live_check() {
        return Err(BindingError::InvalidHandle);
    }
    Ok(DecodeCall { encoder: h.raw(), tokens: vstd::slice::slice_to_vec(tokens) })
}

/// Gate the stop-token query, which takes no input besides the handle.
pub fn prepare_stop_tokens(h: &Handle) -> (r: Result<StopTokensCall, BindingError>)
    ensures
        gate_decision(*h) matches Err(e) ==> r == Err::<StopTokensCall, BindingError>(e),
        h.is_live() ==> (r matches Ok(c) && c.encoder == h.raw_id()),
{
    if !h.is_live_check() {
        return Err(BindingError::InvalidHandle);
    }
    Ok(StopTokensCall { encoder: h.raw() })
}

/// Release then operate is always rejected: after a release of any handle —
/// live or not — every operation gate on that handle reports the
/// invalid-handle failure, so no engine call can be issued with it.
pub proof fn lemma_release_then_rejected(pre: Handle, post: Handle, destroy: Option<u64>)
    requires
        release_step(pre, post, destroy),
    ensures
        gate_decision(post) == Err::<u64, BindingError>(BindingError::InvalidHandle),
{
}

/// The binding never rejects what it produced: whenever a token-producing
/// operation surfaced a sequence, the decode gate on any live handle passes —
/// and by [`prepare_decode`]'s contract it then accepts every sequence,
/// whatever its contents or length. The binding therefore adds no decode
/// failures of its own for such sequences; the failures that remain (a null
/// or non-UTF-8 engine reply) are the engine's, outside this layer.
pub proof fn lemma_produced_tokens_accepted_for_decode(
    reply: crate::engine::TokenReply,
    h: Handle,
    ts: Seq<u32>,
)
    requires
        h.is_live(),
        crate::engine::token_outcome(reply) == Ok::<Seq<u32>, BindingError>(ts),
    ensures
        gate_decision(h) == Ok::<u64, BindingError>(h.raw_id()),
{
}

/// Absent and present optional arguments reach the engine in structurally
/// distinct forms: absent lowers to the null sentinel, present text — empty
/// included — lowers to a NUL-terminated buffer, so "no message" and "empty
/// message" can never be confused at the call.
pub proof fn lemma_absent_distinct_from_present(o: OptText)
    ensures
        o is Absent ==> lowered_opt(o) is None,
        o is Present ==> lowered_opt(o) is Some,
        o is Present ==> lowered_opt(o) != lowered_opt(OptText::Absent),
        (o matches OptText::Present(s) && s@.len() == 0) ==> lowered_opt(o) == Some(seq![0u8]),
{
    match o {
        OptText::Present(s) => {
            if s@.len() == 0 {
                assert(c_buffer(s@) =~= seq![0u8]);
            }
        },
        OptText::Absent => {},
    }
}

} // verus!
