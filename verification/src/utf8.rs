//! UTF-8 validation of engine-produced text.
//!
//! The engine hands decoded text back as a raw byte buffer. Before those
//! bytes may be surfaced to the caller as text they must be valid UTF-8;
//! bytes that are not are a conversion failure, never silently passed on.
//! The validity predicate follows the UTF-8 well-formedness table: one-byte
//! sequences up to `0x7F`, two-byte heads `0xC2..=0xDF`, three-byte heads
//! `0xE0..=0xEF` with the overlong and surrogate ranges carved out, and
//! four-byte heads `0xF0..=0xF4` capped at scalar value `0x10FFFF`.

use vstd::prelude::*;

verus! {

/// Whether `b` is a UTF-8 continuation byte.
pub open spec fn is_cont(b: u8) -> bool {
    0x80 <= b && b <= 0xBF
}

/// Whether `s` is a well-formed UTF-8 byte sequence.
pub open spec fn valid_utf8(s: Seq<u8>) -> bool
    decreases s.len(),
{
    if s.len() == 0 {
        true
    } else {
        let b0 = s[0];
        if b0 < 0x80 {
            valid_utf8(s.skip(1))
        } else if 0xC2 <= b0 && b0 <= 0xDF {
            s.len() >= 2 && is_cont(s[1]) && valid_utf8(s.skip(2))
        } else if b0 == 0xE0 {
            s.len() >= 3 && 0xA0 <= s[1] && s[1] <= 0xBF && is_cont(s[2]) && valid_utf8(s.skip(3))
        } else if b0 == 0xED {
            s.len() >= 3 && 0x80 <= s[1] && s[1] <= 0x9F && is_cont(s[2]) && valid_utf8(s.skip(3))
        } else if 0xE1 <= b0 && b0 <= 0xEF {
            s.len() >= 3 && is_cont(s[1]) && is_cont(s[2]) && valid_utf8(s.skip(3))
        } else if b0 == 0xF0 {
            s.len() >= 4 && 0x90 <= s[1] && s[1] <= 0xBF && is_cont(s[2]) && is_cont(s[3])
                && valid_utf8(s.skip(4))
        } else if 0xF1 <= b0 && b0 <= 0xF3 {
            s.len() >= 4 && is_cont(s[1]) && is_cont(s[2]) && is_cont(s[3]) && valid_utf8(s.skip(4))
        } else if b0 == 0xF4 {
            s.len() >= 4 && 0x80 <= s[1] && s[1] <= 0x8F && is_cont(s[2]) && is_cont(s[3])
                && valid_utf8(s.skip(4))
        } else {
            false
        }
    }
}

/// Whether `b` is a UTF-8 continuation byte.
fn cont_byte(b: u8) -> (r: bool)
    ensures
        r == is_cont(b),
{
    0x80 <= b && b <= 0xBF
}

/// Decide whether `bytes` is well-formed UTF-8.
pub fn validate_utf8(bytes: &[u8]) -> (r: bool)
    ensures
        r == valid_utf8(bytes@),
{
    let n = bytes.len();
    let mut i: usize = 0;
    proof {
        assert(bytes@.skip(0) =~= bytes@);
    }
    while i < n
        invariant
            i <= n,
            n == bytes@.len(),
            valid_utf8(bytes@) == valid_utf8(bytes@.skip(i as int)),
        decreases n - i,
    {
        let ghost rest = bytes@.skip(i as int);
        let b0 = bytes[i];
        assert(rest[0] == b0);
        if b0 < 0x80 {
            proof {
                assert(rest.skip(1) =~= bytes@.skip(i + 1));
            }
            i = i + 1;
        } else if 0xC2 <= b0 && b0 <= 0xDF {
            if n - i < 2 || !cont_byte(bytes[i + 1]) {
                return false;
            }
            proof {
                assert(rest[1] == bytes@[i + 1]);
                assert(rest.skip(2) =~= bytes@.skip(i + 2));
            }
            i = i + 2;
        } else if b0 == 0xE0 {
            if n - i < 3 || !(0xA0 <= bytes[i + 1] && bytes[i + 1] <= 0xBF)
                || !cont_byte(bytes[i + 2]) {
                proof {
                    if n - i >= 3 {
                        assert(rest[1] == bytes@[i + 1]);
                        assert(rest[2] == bytes@[i + 2]);
                    }
                }
                return false;
            }
            proof {
                assert(rest[1] == bytes@[i + 1]);
                assert(rest[2] == bytes@[i + 2]);
                assert(rest.skip(3) =~= bytes@.skip(i + 3));
            }
            i = i + 3;
        } else if b0 == 0xED {
            if n - i < 3 || !(0x80 <= bytes[i + 1] && bytes[i + 1] <= 0x9F)
                || !cont_byte(bytes[i + 2]) {
                proof {
                    if n - i >= 3 {
                        assert(rest[1] == bytes@[i + 1]);
                        assert(rest[2] == bytes@[i + 2]);
                    }
                }
                return false;
            }
            proof {
                assert(rest[1] == bytes@[i + 1]);
                assert(rest[2] == bytes@[i + 2]);
                assert(rest.skip(3) =~= bytes@.skip(i + 3));
            }
            i = i + 3;
        } else if 0xE1 <= b0 && b0 <= 0xEF {
            if n - i < 3 || !cont_byte(bytes[i + 1]) || !cont_byte(bytes[i + 2]) {
                proof {
                    if n - i >= 3 {
                        assert(rest[1] == bytes@[i + 1]);
                        assert(rest[2] == bytes@[i + 2]);
                    }
                }
                return false;
            }
            proof {
                assert(rest[1] == bytes@[i + 1]);
                assert(rest[2] == bytes@[i + 2]);
                assert(rest.skip(3) =~= bytes@.skip(i + 3));
            }
            i = i + 3;
        } else if b0 == 0xF0 {
            if n - i < 4 || !(0x90 <= bytes[i + 1] && bytes[i + 1] <= 0xBF)
                || !cont_byte(bytes[i + 2]) || !cont_byte(bytes[i + 3]) {
                proof {
                    if n - i >= 4 {
                        assert(rest[1] == bytes@[i + 1]);
                        assert(rest[2] == bytes@[i + 2]);
                        assert(rest[3] == bytes@[i + 3]);
                    }
                }
                return false;
            }
            proof {
                assert(rest[1] == bytes@[i + 1]);
                assert(rest[2] == bytes@[i + 2]);
                assert(rest[3] == bytes@[i + 3]);
                assert(rest.skip(4) =~= bytes@.skip(i + 4));
            }
            i = i + 4;
        } else if 0xF1 <= b0 && b0 <= 0xF3 {
            if n - i < 4 || !cont_byte(bytes[i + 1]) || !cont_byte(bytes[i + 2])
                || !cont_byte(bytes[i + 3]) {
                proof {
                    if n - i >= 4 {
                        assert(rest[1] == bytes@[i + 1]);
                        assert(rest[2] == bytes@[i + 2]);
                        assert(rest[3] == bytes@[i + 3]);
                    }
                }
                return false;
            }
            proof {
                assert(rest[1] == bytes@[i + 1]);
                assert(rest[2] == bytes@[i + 2]);
                assert(rest[3] == bytes@[i + 3]);
                assert(rest.skip(4) =~= bytes@.skip(i + 4));
            }
            i = i + 4;
        } else if b0 == 0xF4 {
            if n - i < 4 || !(0x80 <= bytes[i + 1] && bytes[i + 1] <= 0x8F)
                || !cont_byte(bytes[i + 2]) || !cont_byte(bytes[i + 3]) {
                proof {
                    if n - i >= 4 {
                        assert(rest[1] == bytes@[i + 1]);
                        assert(rest[2] == bytes@[i + 2]);
                        assert(rest[3] == bytes@[i + 3]);
                    }
                }
                return false;
            }
            proof {
                assert(rest[1] == bytes@[i + 1]);
                assert(rest[2] == bytes@[i + 2]);
                assert(rest[3] == bytes@[i + 3]);
                assert(rest.skip(4) =~= bytes@.skip(i + 4));
            }
            i = i + 4;
        } else {
            return false;
        }
    }
    proof {
        assert(bytes@.skip(n as int) =~= Seq::<u8>::empty());
    }
    true
}

} // verus!
