//! A UTF-8 validator, proved against vstd's model of UTF-8: a byte
//! sequence is accepted exactly when it is a concatenation of well-formed
//! scalar encodings — right bit patterns, no overlong forms, no surrogates.
use vstd::prelude::*;
use vstd::utf8::{
    codepoint_width_2, codepoint_width_3, codepoint_width_4, not_overlong_encoding, not_surrogate,
    pop_first_scalar, valid_first_scalar, valid_utf8,
};

verus! {

proof fn lemma_scalar_width_2(b0: u8, b1: u8)
    requires
        0xc0 <= b0 <= 0xdf,
        0x80 <= b1 <= 0xbf,
    ensures
        (not_overlong_encoding(codepoint_width_2(b0, b1), 2) && not_surrogate(
            codepoint_width_2(b0, b1),
        )) <==> b0 >= 0xc2,
{
    assert(b0 <= 0xdf ==> ((((b0 & 0x1F) as u32) << 6) | ((b1 & 0x3f) as u32)) < 0x800)
        by (bit_vector);
    assert((0xc0 <= b0 && b0 <= 0xdf && 0x80 <= b1 && b1 <= 0xbf) ==> (((((b0 & 0x1F) as u32)
        << 6) | ((b1 & 0x3f) as u32)) >= 0x80 <==> b0 >= 0xc2)) by (bit_vector);
}

proof fn lemma_scalar_width_3(b0: u8, b1: u8, b2: u8)
    requires
        0xe0 <= b0 <= 0xef,
        0x80 <= b1 <= 0xbf,
        0x80 <= b2 <= 0xbf,
    ensures
        (not_overlong_encoding(codepoint_width_3(b0, b1, b2), 3) && not_surrogate(
            codepoint_width_3(b0, b1, b2),
        )) <==> ((b0 != 0xe0 || b1 >= 0xa0) && !(b0 == 0xed && b1 >= 0xa0)),
{
    let cp = codepoint_width_3(b0, b1, b2);
    assert(cp == ((((b0 & 0x0F) as u32) << 12) | (((b1 & 0x3f) as u32) << 6) | ((b2
        & 0x3f) as u32)));
    assert((0xe0 <= b0 && b0 <= 0xef && 0x80 <= b1 && b1 <= 0xbf && 0x80 <= b2 && b2 <= 0xbf) ==> (
    (((((b0 & 0x0F) as u32) << 12) | (((b1 & 0x3f) as u32) << 6) | ((b2 & 0x3f) as u32)) >= 0x800)
        <==> (b0 != 0xe0 || b1 >= 0xa0))) by (bit_vector);
    assert((0xe0 <= b0 && b0 <= 0xef && 0x80 <= b1 && b1 <= 0xbf && 0x80 <= b2 && b2 <= 0xbf) ==> (
    (0xd800 <= ((((b0 & 0x0F) as u32) << 12) | (((b1 & 0x3f) as u32) << 6) | ((b2
        & 0x3f) as u32)) && ((((b0 & 0x0F) as u32) << 12) | (((b1 & 0x3f) as u32) << 6) | ((b2
        & 0x3f) as u32)) <= 0xdfff) <==> (b0 == 0xed && b1 >= 0xa0))) by (bit_vector);
}

proof fn lemma_scalar_width_4(b0: u8, b1: u8, b2: u8, b3: u8)
    requires
        0xf0 <= b0 <= 0xf7,
        0x80 <= b1 <= 0xbf,
        0x80 <= b2 <= 0xbf,
        0x80 <= b3 <= 0xbf,
    ensures
        (not_overlong_encoding(codepoint_width_4(b0, b1, b2, b3), 4) && not_surrogate(
            codepoint_width_4(b0, b1, b2, b3),
        )) <==> ((b0 == 0xf0 && b1 >= 0x90) || (0xf1 <= b0 && b0 <= 0xf3) || (b0 == 0xf4 && b1
            <= 0x8f)),
{
    let cp = codepoint_width_4(b0, b1, b2, b3);
    assert(cp == ((((b0 & 0x07) as u32) << 18) | (((b1 & 0x3f) as u32) << 12) | (((b2
        & 0x3f) as u32) << 6) | ((b3 & 0x3f) as u32)));
    assert((0xf0 <= b0 && b0 <= 0xf7 && 0x80 <= b1 && b1 <= 0xbf && 0x80 <= b2 && b2 <= 0xbf
        && 0x80 <= b3 && b3 <= 0xbf) ==> ((0x10000 <= ((((b0 & 0x07) as u32) << 18) | (((b1
        & 0x3f) as u32) << 12) | (((b2 & 0x3f) as u32) << 6) | ((b3 & 0x3f) as u32)) && ((((b0
        & 0x07) as u32) << 18) | (((b1 & 0x3f) as u32) << 12) | (((b2 & 0x3f) as u32) << 6) | ((b3
        & 0x3f) as u32)) <= 0x10ffff) <==> ((b0 == 0xf0 && b1 >= 0x90) || (0xf1 <= b0 && b0
        <= 0xf3) || (b0 == 0xf4 && b1 <= 0x8f)))) by (bit_vector);
    assert((0xf0 <= b0 && 0x10000 <= ((((b0 & 0x07) as u32) << 18) | (((b1 & 0x3f) as u32) << 12)
        | (((b2 & 0x3f) as u32) << 6) | ((b3 & 0x3f) as u32))) ==> !(0xd800 <= ((((b0
        & 0x07) as u32) << 18) | (((b1 & 0x3f) as u32) << 12) | (((b2 & 0x3f) as u32) << 6) | ((b3
        & 0x3f) as u32)) && ((((b0 & 0x07) as u32) << 18) | (((b1 & 0x3f) as u32) << 12) | (((b2
        & 0x3f) as u32) << 6) | ((b3 & 0x3f) as u32)) <= 0xdfff)) by (bit_vector);
}

/// Whether `v` is a valid UTF-8 encoding.
pub fn check_utf8(v: &[u8]) -> (r: bool)
    ensures
        r == valid_utf8(v@),
{
    let n = v.len();
    let mut i: usize = 0;
    proof {
        assert(v@.skip(0) =~= v@);
    }
    while i < n
        invariant
            i <= n,
            n == v@.len(),
            valid_utf8(v@) <==> valid_utf8(v@.skip(i as int)),
        decreases n - i,
    {
        let ghost s = v@.skip(i as int);
        proof {
            assert(s.len() == n - i);
            assert forall|k: int| 0 <= k < s.len() implies s[k] == v@[i + k] by {}
        }
        let b0 = v[i];
        let w: usize;
        if b0 < 0x80 {
            proof {
                assert(valid_first_scalar(s));
            }
            w = 1;
        } else if b0 < 0xc0 {
            // A continuation byte cannot lead a scalar.
            proof {
                assert(!valid_first_scalar(s));
            }
            return false;
        } else if b0 < 0xe0 {
            if n - i < 2 {
                proof {
                    assert(!valid_first_scalar(s));
                }
                return false;
            }
            let b1 = v[i + 1];
            if !(0x80 <= b1 && b1 <= 0xbf) {
                proof {
                    assert(!valid_first_scalar(s));
                }
                return false;
            }
            proof {
                lemma_scalar_width_2(b0, b1);
            }
            if b0 < 0xc2 {
                // An overlong two-byte form.
                proof {
                    assert(!valid_first_scalar(s));
                }
                return false;
            }
            proof {
                assert(valid_first_scalar(s));
            }
            w = 2;
        } else if b0 < 0xf0 {
            if n - i < 3 {
                proof {
                    assert(!valid_first_scalar(s));
                }
                return false;
            }
            let b1 = v[i + 1];
            let b2 = v[i + 2];
            if !(0x80 <= b1 && b1 <= 0xbf) || !(0x80 <= b2 && b2 <= 0xbf) {
                proof {
                    assert(!valid_first_scalar(s));
                }
                return false;
            }
            proof {
                lemma_scalar_width_3(b0, b1, b2);
            }
            if (b0 == 0xe0 && b1 < 0xa0) || (b0 == 0xed && b1 >= 0xa0) {
                // An overlong three-byte form, or a surrogate.
                proof {
                    assert(!valid_first_scalar(s));
                }
                return false;
            }
            proof {
                assert(valid_first_scalar(s));
            }
            w = 3;
        } else if b0 < 0xf8 {
            if n - i < 4 {
                proof {
                    assert(!valid_first_scalar(s));
                }
                return false;
            }
            let b1 = v[i + 1];
            let b2 = v[i + 2];
            let b3 = v[i + 3];
            if !(0x80 <= b1 && b1 <= 0xbf) || !(0x80 <= b2 && b2 <= 0xbf) || !(0x80 <= b3 && b3
                <= 0xbf) {
                proof {
                    assert(!valid_first_scalar(s));
                }
                return false;
            }
            proof {
                lemma_scalar_width_4(b0, b1, b2, b3);
            }
            if !((b0 == 0xf0 && b1 >= 0x90) || (0xf1 <= b0 && b0 <= 0xf3) || (b0 == 0xf4 && b1
                <= 0x8f)) {
                // An overlong four-byte form, or a value past the last scalar.
                proof {
                    assert(!valid_first_scalar(s));
                }
                return false;
            }
            proof {
                assert(valid_first_scalar(s));
            }
            w = 4;
        } else {
            // 0xf8 and above lead no scalar at all.
            proof {
                assert(!valid_first_scalar(s));
            }
            return false;
        }
        proof {
            assert(pop_first_scalar(s) =~= v@.skip(i + w as int));
        }
        i += w;
    }
    proof {
        assert(v@.skip(n as int).len() == 0);
    }
    true
}

} // verus!
