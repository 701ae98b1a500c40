use harmony_bridge::engine::{finish_text_reply, finish_token_reply, FreeAction, TextReply, TokenReply};
use harmony_bridge::error::BindingError;

#[test]
fn engine_failure_with_message_frees_the_message() {
    let (result, frees) = finish_token_reply(TokenReply::Failure { message_addr: 0x1000 });
    assert_eq!(result, Err(BindingError::EngineFailure));
    assert_eq!(frees, vec![FreeAction::Text { addr: 0x1000 }]);
}

#[test]
fn engine_failure_without_message_frees_nothing() {
    let (result, frees) = finish_token_reply(TokenReply::Failure { message_addr: 0 });
    assert_eq!(result, Err(BindingError::EngineFailure));
    assert_eq!(frees, Vec::new());
}

#[test]
fn engine_success_copies_then_frees_the_token_buffer() {
    let (result, frees) = finish_token_reply(TokenReply::Success {
        tokens_addr: 0x2000,
        tokens: vec![10, 20, 30],
    });
    assert_eq!(result, Ok(vec![10, 20, 30]));
    assert_eq!(frees, vec![FreeAction::Tokens { addr: 0x2000, len: 3 }]);
}

#[test]
fn engine_success_with_null_buffer_is_a_failure() {
    let (result, frees) = finish_token_reply(TokenReply::Success {
        tokens_addr: 0,
        tokens: Vec::new(),
    });
    assert_eq!(result, Err(BindingError::EngineFailure));
    assert_eq!(frees, Vec::new());
}

#[test]
fn engine_success_with_empty_buffer_is_an_empty_success() {
    let (result, frees) = finish_token_reply(TokenReply::Success {
        tokens_addr: 0x3000,
        tokens: Vec::new(),
    });
    assert_eq!(result, Ok(Vec::new()));
    assert_eq!(frees, vec![FreeAction::Tokens { addr: 0x3000, len: 0 }]);
}

#[test]
fn decode_null_buffer_is_a_failure_with_nothing_to_free() {
    let (result, frees) = finish_text_reply(TextReply::Null);
    assert_eq!(result, Err(BindingError::EngineFailure));
    assert_eq!(frees, Vec::new());
}

#[test]
fn decode_valid_text_is_surfaced_and_the_buffer_freed() {
    let (result, frees) = finish_text_reply(TextReply::Buffer {
        addr: 0x4000,
        bytes: b"hello".to_vec(),
    });
    assert_eq!(result, Ok(b"hello".to_vec()));
    assert_eq!(frees, vec![FreeAction::Text { addr: 0x4000 }]);
}

#[test]
fn decode_invalid_utf8_fails_without_leaking_the_buffer() {
    let (result, frees) = finish_text_reply(TextReply::Buffer {
        addr: 0x5000,
        bytes: vec![0xED, 0xA0, 0x80],
    });
    assert_eq!(result, Err(BindingError::ConversionFailure));
    assert_eq!(frees, vec![FreeAction::Text { addr: 0x5000 }]);
}

#[test]
fn every_reply_pairs_each_acquired_buffer_with_one_free() {
    let replies = vec![
        TokenReply::Failure { message_addr: 0 },
        TokenReply::Failure { message_addr: 0xA },
        TokenReply::Success { tokens_addr: 0, tokens: Vec::new() },
        TokenReply::Success { tokens_addr: 0xB, tokens: vec![1] },
        TokenReply::Success { tokens_addr: 0xC, tokens: Vec::new() },
    ];
    for reply in replies {
        let acquired: Vec<u64> = match &reply {
            TokenReply::Failure { message_addr } => {
                if *message_addr == 0 { Vec::new() } else { vec![*message_addr] }
            }
            TokenReply::Success { tokens_addr, .. } => {
                if *tokens_addr == 0 { Vec::new() } else { vec![*tokens_addr] }
            }
        };
        let (_, frees) = finish_token_reply(reply);
        let freed: Vec<u64> = frees
            .iter()
            .map(|f| match f {
                FreeAction::Tokens { addr, .. } => *addr,
                FreeAction::Text { addr } => *addr,
            })
            .collect();
        assert_eq!(freed, acquired);
    }
}
