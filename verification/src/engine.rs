//! Engine outcomes and their post-call handling.
//!
//! Every engine call that produces a payload allocates it on the engine's own
//! heap; the binding must copy the payload into a caller-owned container and
//! release the engine original before the operation returns, on every exit
//! path. The unverified runtime shim performs the raw call and the copy, then
//! hands the outcome here as a [`TokenReply`] or [`TextReply`]; the functions
//! in this module decide the operation's result and the exact list of free
//! calls the shim owes the engine. Their contracts pin both down completely:
//! the frees are precisely the buffers the reply named, success is surfaced
//! exactly when the engine delivered a payload, and a failure is never
//! mistakable for an empty success.

use vstd::prelude::*;
use vstd::multiset::Multiset;
use crate::error::BindingError;
use crate::utf8::valid_utf8;

verus! {

/// Outcome of a token-producing engine call (plain encoding, structured
/// prompt rendering, or the stop-token query), as observed by the runtime
/// shim. Addresses identify engine allocations; `0` stands for null.
pub enum TokenReply {
    /// The engine reported failure, with the address of its error-message
    /// buffer (`0` when it supplied none).
    Failure { message_addr: u64 },
    /// The engine reported success. `tokens_addr` is the address of its token
    /// buffer (`0` when it handed back null despite reporting success), and
    /// `tokens` is the shim's caller-owned copy of that buffer's contents.
    Success { tokens_addr: u64, tokens: Vec<u32> },
}

/// Outcome of the engine's decode call: either null, or the address of an
/// engine-owned text buffer together with the shim's copy of its bytes (the
/// terminator excluded).
pub enum TextReply {
    /// The engine handed back a null buffer.
    Null,
    /// The engine handed back the text buffer at `addr` (never `0`), holding
    /// `bytes`.
    Buffer { addr: u64, bytes: Vec<u8> },
}

/// One free call the runtime shim owes the engine.
#[derive(Clone, Copy, Debug, PartialEq, Eq, Structural)]
pub enum FreeAction {
    /// Release the token buffer at `addr`, which held `len` tokens.
    Tokens { addr: u64, len: usize },
    /// Release the text buffer at `addr`.
    Text { addr: u64 },
}

/// The free calls a token reply obliges: one for each engine buffer the
/// reply named, and none besides.
pub open spec fn owed_token_frees(reply: TokenReply) -> Seq<FreeAction> {
    match reply {
        TokenReply::Failure { message_addr } => if message_addr == 0 {
            Seq::empty()
        } else {
            seq![FreeAction::Text { addr: message_addr }]
        },
        TokenReply::Success { tokens_addr, tokens } => if tokens_addr == 0 {
            Seq::empty()
        } else {
            seq![FreeAction::Tokens { addr: tokens_addr, len: tokens@.len() as usize }]
        },
    }
}

/// The free calls a text reply obliges.
pub open spec fn owed_text_frees(reply: TextReply) -> Seq<FreeAction> {
    match reply {
        TextReply::Null => Seq::empty(),
        TextReply::Buffer { addr, bytes } => seq![FreeAction::Text { addr }],
    }
}

/// The engine allocations a token reply handed over, as a multiset of
/// addresses.
pub open spec fn token_reply_buffers(reply: TokenReply) -> Multiset<u64> {
    match reply {
        TokenReply::Failure { message_addr } => if message_addr == 0 {
            Multiset::empty()
        } else {
            Multiset::empty().insert(message_addr)
        },
        TokenReply::Success { tokens_addr, tokens } => if tokens_addr == 0 {
            Multiset::empty()
        } else {
            Multiset::empty().insert(tokens_addr)
        },
    }
}

/// The engine allocations a text reply handed over.
pub open spec fn text_reply_buffers(reply: TextReply) -> Multiset<u64> {
    match reply {
        TextReply::Null => Multiset::empty(),
        TextReply::Buffer { addr, bytes } => Multiset::empty().insert(addr),
    }
}

/// What a token-producing operation returns for a given engine outcome:
/// failure when the engine reported one or handed back null despite success,
/// and otherwise exactly the tokens the engine delivered — a delivered empty
/// buffer is an empty success, never a failure.
pub open spec fn token_outcome(reply: TokenReply) -> Result<Seq<u32>, BindingError> {
    match reply {
        TokenReply::Failure { message_addr } => Err(BindingError::EngineFailure),
        TokenReply::Success { tokens_addr, tokens } => if tokens_addr == 0 {
            Err(BindingError::EngineFailure)
        } else {
            Ok(tokens@)
        },
    }
}

/// What the decode operation returns for a given engine outcome: a null
/// buffer is an engine failure, bytes that are not valid UTF-8 are a
/// conversion failure, and valid bytes are the result.
pub open spec fn text_outcome(reply: TextReply) -> Result<Seq<u8>, BindingError> {
    match reply {
        TextReply::Null => Err(BindingError::EngineFailure),
        TextReply::Buffer { addr, bytes } => if valid_utf8(bytes@) {
            Ok(bytes@)
        } else {
            Err(BindingError::ConversionFailure)
        },
    }
}

/// A token result under the view of its payload.
pub open spec fn token_result_view(r: Result<Vec<u32>, BindingError>) -> Result<
    Seq<u32>,
    BindingError,
> {
    match r {
        Ok(v) => Ok(v@),
        Err(e) => Err(e),
    }
}

/// A text result under the view of its payload.
pub open spec fn text_result_view(r: Result<Vec<u8>, BindingError>) -> Result<
    Seq<u8>,
    BindingError,
> {
    match r {
        Ok(v) => Ok(v@),
        Err(e) => Err(e),
    }
}

/// The addresses a list of free actions releases.
pub open spec fn freed_addrs(frees: Seq<FreeAction>) -> Multiset<u64>
    decreases frees.len(),
{
    if frees.len() == 0 {
        Multiset::empty()
    } else {
        freed_addrs(frees.drop_last()).insert(match frees.last() {
            FreeAction::Tokens { addr, len } => addr,
            FreeAction::Text { addr } => addr,
        })
    }
}

/// Finish a token-producing operation: translate the engine's outcome into
/// the binding's result and emit the free calls owed for the reply's buffers.
/// Success is surfaced exactly when the engine delivered a token buffer; a
/// delivered empty buffer is an empty success, never a failure.
pub fn finish_token_reply(reply: TokenReply) -> (r: (Result<Vec<u32>, BindingError>, Vec<
    FreeAction,
>))
    ensures
        r.1@ == owed_token_frees(reply),
        token_result_view(r.0) == token_outcome(reply),
{
    match reply {
        TokenReply::Failure { message_addr } => {
            let mut frees: Vec<FreeAction> = Vec::new();
            if message_addr != 0 {
                frees.push(FreeAction::Text { addr: message_addr });
            }
            proof {
                assert(frees@ =~= owed_token_frees(reply));
            }
            (Err(BindingError::EngineFailure), frees)
        },
        TokenReply::Success { tokens_addr, tokens } => {
            let mut frees: Vec<FreeAction> = Vec::new();
            if tokens_addr == 0 {
                proof {
                    assert(frees@ =~= owed_token_frees(reply));
                }
                (Err(BindingError::EngineFailure), frees)
            } else {
                frees.push(FreeAction::Tokens { addr: tokens_addr, len: tokens.len() });
                proof {
                    assert(frees@ =~= owed_token_frees(reply));
                }
                (Ok(tokens), frees)
            }
        },
    }
}

/// Finish the decode operation: a null buffer is an engine failure; a
/// delivered buffer is freed whether or not its bytes are valid UTF-8, and
/// its bytes are surfaced as text exactly when they are.
pub fn finish_text_reply(reply: TextReply) -> (r: (Result<Vec<u8>, BindingError>, Vec<FreeAction>))
    ensures
        r.1@ == owed_text_frees(reply),
        text_result_view(r.0) == text_outcome(reply),
{
    match reply {
        TextReply::Null => {
            let frees: Vec<FreeAction> = Vec::new();
            proof {
                assert(frees@ =~= owed_text_frees(reply));
            }
            (Err(BindingError::EngineFailure), frees)
        },
        TextReply::Buffer { addr, bytes } => {
            let mut frees: Vec<FreeAction> = Vec::new();
            frees.push(FreeAction::Text { addr });
            proof {
                assert(frees@ =~= owed_text_frees(reply));
            }
            if crate::utf8::validate_utf8(bytes.as_slice()) {
                (Ok(bytes), frees)
            } else {
                (Err(BindingError::ConversionFailure), frees)
            }
        },
    }
}

/// No operation leaks an engine allocation: for every token reply, the owed
/// free list releases exactly the buffers the reply named — each acquired
/// buffer once, and nothing else — on the success path and on every failure
/// path alike.
pub proof fn lemma_token_frees_match_acquires(reply: TokenReply)
    ensures
        freed_addrs(owed_token_frees(reply)) == token_reply_buffers(reply),
        owed_token_frees(reply).len() == token_reply_buffers(reply).len(),
{
    reveal_with_fuel(freed_addrs, 2);
    let owed = owed_token_frees(reply);
    if owed.len() > 0 {
        assert(owed.drop_last() =~= Seq::<FreeAction>::empty());
    }
    assert(freed_addrs(owed) =~= token_reply_buffers(reply));
}

/// No decode path leaks: the owed free list of a text reply releases exactly
/// the buffer the reply named, including when its bytes fail UTF-8
/// validation.
pub proof fn lemma_text_frees_match_acquires(reply: TextReply)
    ensures
        freed_addrs(owed_text_frees(reply)) == text_reply_buffers(reply),
        owed_text_frees(reply).len() == text_reply_buffers(reply).len(),
{
    reveal_with_fuel(freed_addrs, 2);
    let owed = owed_text_frees(reply);
    if owed.len() > 0 {
        assert(owed.drop_last() =~= Seq::<FreeAction>::empty());
    }
    assert(freed_addrs(owed) =~= text_reply_buffers(reply));
}

} // verus!
