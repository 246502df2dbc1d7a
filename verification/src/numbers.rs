//! Decimal text for unsigned 64-bit integers: formatting for the
//! `index` and `wait` query parameters, and parsing for the change-index
//! response header.
use vstd::arithmetic::div_mod::lemma_fundamental_div_mod;
use vstd::prelude::*;

verus! {

/// The character of one decimal digit.
pub open spec fn dec_digit_char(d: int) -> char {
    if d == 0 {
        '0'
    } else if d == 1 {
        '1'
    } else if d == 2 {
        '2'
    } else if d == 3 {
        '3'
    } else if d == 4 {
        '4'
    } else if d == 5 {
        '5'
    } else if d == 6 {
        '6'
    } else if d == 7 {
        '7'
    } else if d == 8 {
        '8'
    } else {
        '9'
    }
}

/// The decimal form of a non-negative integer, most significant digit
/// first, with no sign and no leading zero.
pub open spec fn dec_str_of(n: nat) -> Seq<char>
    decreases n,
{
    if n < 10 {
        seq![dec_digit_char(n as int)]
    } else {
        dec_str_of(n / 10).push(dec_digit_char((n % 10) as int))
    }
}

fn digit_char(d: u64) -> (c: char)
    requires
        d < 10,
    ensures
        c == dec_digit_char(d as int),
{
    match d {
        0 => '0',
        1 => '1',
        2 => '2',
        3 => '3',
        4 => '4',
        5 => '5',
        6 => '6',
        7 => '7',
        8 => '8',
        _ => '9',
    }
}

/// Formats `n` in decimal.
pub fn u64_to_dec(n: u64) -> (s: String)
    ensures
        s@ == dec_str_of(n as nat),
{
    let mut rev: Vec<char> = Vec::new();
    let mut m: u64 = n;
    if m == 0 {
        rev.push('0');
        assert(rev@.reverse() =~= dec_str_of(0));
    }
    while m > 0
        invariant
            dec_str_of(n as nat) == if m > 0 {
                dec_str_of(m as nat) + rev@.reverse()
            } else {
                rev@.reverse()
            },
        decreases m,
    {
        let ghost prev = rev@;
        let d = m % 10;
        rev.push(digit_char(d));
        proof {
            assert(rev@.reverse() =~= seq![dec_digit_char(d as int)] + prev.reverse());
        }
        let m2 = m / 10;
        proof {
            if m2 > 0 {
                assert(m >= 10);
                assert(dec_str_of(m as nat) == dec_str_of((m / 10) as nat).push(
                    dec_digit_char((m % 10) as int),
                ));
                assert(dec_str_of((m / 10) as nat).push(dec_digit_char(d as int)) + prev.reverse()
                    =~= dec_str_of((m / 10) as nat) + rev@.reverse());
            } else {
                assert(m < 10);
                assert(dec_str_of(m as nat) == seq![dec_digit_char(m as int)]);
                assert(dec_str_of(m as nat) + prev.reverse() =~= rev@.reverse());
            }
        }
        m = m2;
    }
    let mut s = String::new();
    let count = rev.len();
    let mut j: usize = 0;
    while j < count
        invariant
            count == rev@.len(),
            j <= count,
            dec_str_of(n as nat) == rev@.reverse(),
            s@ == rev@.reverse().take(j as int),
        decreases count - j,
    {
        let c = rev[count - 1 - j];
        crate::text::push_char(&mut s, c);
        proof {
            assert(rev@.reverse()[j as int] == rev@[count - 1 - j as int]);
            assert(rev@.reverse().take(j + 1 as int) =~= rev@.reverse().take(j as int).push(
                rev@.reverse()[j as int],
            ));
        }
        j += 1;
    }
    proof {
        assert(rev@.reverse().take(count as int) =~= rev@.reverse());
    }
    s
}

/// Whether `b` is the byte of a decimal digit.
pub open spec fn is_dec_digit(b: u8) -> bool {
    0x30 <= b && b <= 0x39
}

/// The value of a sequence of decimal digit bytes, most significant first.
pub open spec fn dec_value_of(s: Seq<u8>) -> int
    decreases s.len(),
{
    if s.len() == 0 {
        0
    } else {
        dec_value_of(s.drop_last()) * 10 + (s.last() - 0x30)
    }
}

/// Whether every byte of `s` is a decimal digit.
pub open spec fn all_dec_digits(s: Seq<u8>) -> bool {
    forall|i: int| 0 <= i < s.len() ==> is_dec_digit(#[trigger] s[i])
}

/// The digits of an unsigned decimal numeral: an optional leading `+` is
/// accepted, as Rust's unsigned integer parse accepts one.
pub open spec fn dec_body(s: Seq<u8>) -> Seq<u8> {
    if s.len() > 0 && s[0] == 0x2b {
        s.drop_first()
    } else {
        s
    }
}

/// What parsing `s` as an unsigned 64-bit decimal numeral gives: `None` on
/// an empty numeral, a non-digit byte, or a value above `u64::MAX`.
pub open spec fn parse_u64_dec(s: Seq<u8>) -> Option<u64> {
    let d = dec_body(s);
    if d.len() > 0 && all_dec_digits(d) && dec_value_of(d) <= u64::MAX {
        Some(dec_value_of(d) as u64)
    } else {
        None
    }
}

proof fn lemma_dec_value_nonneg(s: Seq<u8>)
    requires
        all_dec_digits(s),
    ensures
        dec_value_of(s) >= 0,
    decreases s.len(),
{
    if s.len() > 0 {
        assert(all_dec_digits(s.drop_last()));
        lemma_dec_value_nonneg(s.drop_last());
    }
}

proof fn lemma_dec_value_mono(s: Seq<u8>, j: int, k: int)
    requires
        all_dec_digits(s),
        0 <= j <= k <= s.len(),
    ensures
        dec_value_of(s.take(j)) <= dec_value_of(s.take(k)),
    decreases k - j,
{
    if j < k {
        lemma_dec_value_mono(s, j, k - 1);
        assert(s.take(k).drop_last() =~= s.take(k - 1));
        assert(all_dec_digits(s.take(k - 1)));
        lemma_dec_value_nonneg(s.take(k - 1));
        assert(s.take(k).last() == s[k - 1]);
    }
}

/// Parses `s` as an unsigned 64-bit decimal numeral.
pub fn parse_u64_bytes(s: &[u8]) -> (r: Option<u64>)
    ensures
        r == parse_u64_dec(s@),
{
    let len = s.len();
    let start: usize = if len > 0 && s[0] == 0x2b {
        1
    } else {
        0
    };
    let ghost d = dec_body(s@);
    proof {
        assert(d =~= s@.skip(start as int));
    }
    if start == len {
        return None;
    }
    let mut acc: u64 = 0;
    let mut i: usize = start;
    while i < len
        invariant
            start <= i <= len,
            len == s@.len(),
            start < len,
            d == dec_body(s@),
            d == s@.skip(start as int),
            d.len() == len - start,
            all_dec_digits(d.take(i - start)),
            acc == dec_value_of(d.take(i - start)),
        decreases len - i,
    {
        let b = s[i];
        proof {
            assert(d[i - start] == s@[i as int]);
        }
        if b < 0x30 || b > 0x39 {
            proof {
                assert(!is_dec_digit(d[i - start]));
                assert(!all_dec_digits(d));
            }
            return None;
        }
        let dig = (b - 0x30) as u64;
        if acc > (u64::MAX - dig) / 10 {
            proof {
                let k = i - start;
                assert(d.take(k + 1).drop_last() =~= d.take(k));
                assert(d.take(k + 1).last() == d[k]);
                lemma_fundamental_div_mod((u64::MAX - dig) as int, 10);
                assert(acc * 10 + dig > u64::MAX);
                assert(dec_value_of(d.take(k + 1)) > u64::MAX);
                if all_dec_digits(d) {
                    lemma_dec_value_mono(d, k + 1, d.len() as int);
                    assert(d.take(d.len() as int) =~= d);
                    assert(dec_value_of(d) > u64::MAX);
                }
            }
            return None;
        }
        proof {
            let k = i - start;
            assert(d.take(k + 1).drop_last() =~= d.take(k));
            assert(d.take(k + 1).last() == d[k]);
            lemma_fundamental_div_mod((u64::MAX - dig) as int, 10);
            assert(acc * 10 + dig <= u64::MAX);
        }
        acc = acc * 10 + dig;
        i += 1;
    }
    proof {
        assert(d.take((len - start) as int) =~= d);
    }
    Some(acc)
}

} // verus!
