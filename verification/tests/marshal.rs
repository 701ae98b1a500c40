use harmony_bridge::error::BindingError;
use harmony_bridge::ops::{lower_opt, OptText};
use harmony_bridge::text::to_c_buffer;
use harmony_bridge::tokens::{
    token_from_caller, token_to_caller, tokens_from_caller, tokens_to_caller,
};
use harmony_bridge::utf8::validate_utf8;

#[test]
fn c_buffer_appends_terminator() {
    assert_eq!(
        to_c_buffer(b"hello"),
        Ok(vec![104, 101, 108, 108, 111, 0])
    );
}

#[test]
fn c_buffer_of_empty_text_is_lone_terminator() {
    assert_eq!(to_c_buffer(b""), Ok(vec![0]));
}

#[test]
fn c_buffer_rejects_interior_nul() {
    assert_eq!(to_c_buffer(b"a\0b"), Err(BindingError::ConversionFailure));
    assert_eq!(to_c_buffer(b"\0"), Err(BindingError::ConversionFailure));
}

#[test]
fn lower_absent_is_null_sentinel() {
    assert_eq!(lower_opt(&OptText::Absent), Ok(None));
}

#[test]
fn lower_present_empty_is_valid_empty_buffer() {
    assert_eq!(lower_opt(&OptText::Present(Vec::new())), Ok(Some(vec![0])));
}

#[test]
fn lower_present_text_is_terminated_buffer() {
    assert_eq!(
        lower_opt(&OptText::Present(b"sys".to_vec())),
        Ok(Some(vec![115, 121, 115, 0]))
    );
}

#[test]
fn lower_present_with_nul_is_hard_failure() {
    assert_eq!(
        lower_opt(&OptText::Present(b"a\0".to_vec())),
        Err(BindingError::ConversionFailure)
    );
}

#[test]
fn utf8_accepts_ascii_and_multibyte() {
    assert!(validate_utf8(b""));
    assert!(validate_utf8(b"hello"));
    assert!(validate_utf8("caf\u{e9} \u{4e16}\u{754c} \u{1f600}".as_bytes()));
    // boundary scalars: U+07FF, U+0800, U+D7FF, U+E000, U+FFFF, U+10000, U+10FFFF
    assert!(validate_utf8(
        "\u{7ff}\u{800}\u{d7ff}\u{e000}\u{ffff}\u{10000}\u{10ffff}".as_bytes()
    ));
}

#[test]
fn utf8_rejects_malformed_sequences() {
    assert!(!validate_utf8(&[0x80])); // stray continuation
    assert!(!validate_utf8(&[0xC0, 0xAF])); // overlong two-byte
    assert!(!validate_utf8(&[0xC1, 0xBF])); // overlong two-byte
    assert!(!validate_utf8(&[0xC2])); // truncated two-byte
    assert!(!validate_utf8(&[0xE0, 0x80, 0x80])); // overlong three-byte
    assert!(!validate_utf8(&[0xED, 0xA0, 0x80])); // surrogate
    assert!(!validate_utf8(&[0xE4, 0xB8])); // truncated three-byte
    assert!(!validate_utf8(&[0xF0, 0x80, 0x80, 0x80])); // overlong four-byte
    assert!(!validate_utf8(&[0xF4, 0x90, 0x80, 0x80])); // above U+10FFFF
    assert!(!validate_utf8(&[0xF5, 0x80, 0x80, 0x80])); // invalid head
    assert!(!validate_utf8(&[0xF0, 0x9F, 0x98])); // truncated four-byte
    assert!(!validate_utf8(b"ok\xFFok")); // invalid byte inside valid text
}

#[test]
fn utf8_agrees_with_the_standard_library() {
    let samples: Vec<Vec<u8>> = vec![
        b"plain".to_vec(),
        vec![0xE2, 0x82, 0xAC],
        vec![0xE2, 0x82],
        vec![0xBF, 0x20],
        vec![0xF1, 0x80, 0x80, 0x80],
        vec![0xED, 0x9F, 0xBF],
        vec![0xEE, 0x80, 0x80],
    ];
    for s in samples {
        assert_eq!(validate_utf8(&s), std::str::from_utf8(&s).is_ok());
    }
}

#[test]
fn token_width_reinterprets_exactly() {
    assert_eq!(token_to_caller(0), 0);
    assert_eq!(token_to_caller(0x7FFF_FFFF), i32::MAX);
    assert_eq!(token_to_caller(0x8000_0000), i32::MIN);
    assert_eq!(token_to_caller(u32::MAX), -1);
    assert_eq!(token_from_caller(0), 0);
    assert_eq!(token_from_caller(-1), u32::MAX);
    assert_eq!(token_from_caller(i32::MIN), 0x8000_0000);
    assert_eq!(token_from_caller(i32::MAX), 0x7FFF_FFFF);
}

#[test]
fn token_width_round_trips() {
    for t in [0u32, 1, 0x7FFF_FFFF, 0x8000_0000, 0xDEAD_BEEF, u32::MAX] {
        assert_eq!(token_from_caller(token_to_caller(t)), t);
    }
    for s in [0i32, -1, 5, i32::MIN, i32::MAX, -123456] {
        assert_eq!(token_to_caller(token_from_caller(s)), s);
    }
}

#[test]
fn token_sequences_convert_elementwise() {
    let engine = vec![5u32, 0x8000_0000, u32::MAX];
    let caller = tokens_to_caller(&engine);
    assert_eq!(caller, vec![5, i32::MIN, -1]);
    assert_eq!(tokens_from_caller(&caller), engine);
    assert_eq!(tokens_to_caller(&[]), Vec::<i32>::new());
}

#[test]
fn error_variants_are_distinct() {
    let all = [
        BindingError::InvalidHandle,
        BindingError::ConversionFailure,
        BindingError::EngineFailure,
        BindingError::AllocationFailure,
    ];
    for (i, a) in all.iter().enumerate() {
        for (j, b) in all.iter().enumerate() {
            assert_eq!(a == b, i == j);
        }
    }
}
