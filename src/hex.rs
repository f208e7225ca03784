//! A 32-bit unsigned integer written in hex: `0x` and eight uppercase digits
//! where the destination is text, the raw integer where it is binary.
use vstd::arithmetic::div_mod::{lemma_div_denominator, lemma_fundamental_div_mod};
use vstd::prelude::*;

verus! {

/// Why a value could not be read as a `HexU32`.
#[derive(Clone, Copy, Debug, PartialEq, Eq, Structural)]
pub enum HexError {
    /// The text does not start with `0x`.
    MissingPrefix,
    /// Nothing follows the `0x` prefix.
    NoDigits,
    /// More than eight characters follow the `0x` prefix.
    TooManyDigits,
    /// A character after the prefix is not a hex digit.
    InvalidDigit,
    /// The value does not fit in 32 bits.
    OutOfRange,
}

/// A 32-bit value that is written in hex wherever the destination is text.
#[derive(Clone, Copy, Debug, PartialEq, Eq, Structural, Hash, PartialOrd, Ord)]
pub struct HexU32(pub u32);

/// The value of a hex digit, either case.
pub open spec fn hex_digit_value(c: char) -> Option<nat> {
    if '0' <= c && c <= '9' {
        Some((c as nat - '0' as nat) as nat)
    } else if 'a' <= c && c <= 'f' {
        Some((c as nat - 'a' as nat + 10) as nat)
    } else if 'A' <= c && c <= 'F' {
        Some((c as nat - 'A' as nat + 10) as nat)
    } else {
        None
    }
}

pub open spec fn all_hex_digits(s: Seq<char>) -> bool {
    forall|i: int| 0 <= i < s.len() ==> (#[trigger] hex_digit_value(s[i])) is Some
}

/// The number that a string of hex digits spells, most significant first.
pub open spec fn hex_value(s: Seq<char>) -> nat
    decreases s.len(),
{
    if s.len() == 0 {
        0
    } else {
        hex_value(s.drop_last()) * 16 + hex_digit_value(s.last()).unwrap_or(0)
    }
}

/// Reading text: `0x`, then one to eight hex digits of either case.
pub open spec fn spec_decode_str(s: Seq<char>) -> Result<u32, HexError> {
    if s.len() < 2 || s[0] != '0' || s[1] != 'x' {
        Err(HexError::MissingPrefix)
    } else {
        let digits = s.subrange(2, s.len() as int);
        if digits.len() == 0 {
            Err(HexError::NoDigits)
        } else if digits.len() > 8 {
            Err(HexError::TooManyDigits)
        } else if !all_hex_digits(digits) {
            Err(HexError::InvalidDigit)
        } else {
            Ok(hex_value(digits) as u32)
        }
    }
}

/// Reading an unsigned integer of any width.
pub open spec fn spec_decode_int(v: nat) -> Result<u32, HexError> {
    if v > u32::MAX {
        Err(HexError::OutOfRange)
    } else {
        Ok(v as u32)
    }
}

/// A decoded integer as a `HexU32`.
pub open spec fn wrap_result(r: Result<u32, HexError>) -> Result<HexU32, HexError> {
    match r {
        Ok(v) => Ok(HexU32(v)),
        Err(e) => Err(e),
    }
}

pub open spec fn pow16(n: nat) -> nat
    decreases n,
{
    if n == 0 {
        1
    } else {
        16 * pow16((n - 1) as nat)
    }
}

/// The uppercase hex digit for a value below 16.
pub open spec fn upper_hex_digit(d: nat) -> char {
    if d < 10 {
        ('0' as nat + d) as char
    } else {
        ('A' as nat + d - 10) as char
    }
}

/// The eight digits of `v`, most significant first.
pub open spec fn hex_digits8(v: u32) -> Seq<char> {
    Seq::new(8, |i: int| upper_hex_digit((v as nat / pow16((7 - i) as nat)) % 16))
}

/// The text form: `0x` and eight uppercase digits, zero-padded.
pub open spec fn spec_encode_human(v: u32) -> Seq<char> {
    seq!['0', 'x'] + hex_digits8(v)
}

proof fn lemma_pow16_facts()
    ensures
        pow16(0) == 1,
        forall|n: nat| #[trigger] pow16(n + 1) == 16 * pow16(n),
        forall|n: nat| #[trigger] pow16(n) > 0,
        pow16(8) == 0x1_0000_0000,
{
    assert forall|n: nat| #[trigger] pow16(n) > 0 by {
        lemma_pow16_positive(n);
    }
    reveal_with_fuel(pow16, 9);
}

proof fn lemma_pow16_monotone(m: nat, n: nat)
    requires
        m <= n,
    ensures
        pow16(m) <= pow16(n),
    decreases n - m,
{
    if m < n {
        lemma_pow16_monotone(m, (n - 1) as nat);
        lemma_pow16_positive((n - 1) as nat);
        assert(pow16(n) == 16 * pow16((n - 1) as nat));
    }
}

proof fn lemma_pow16_positive(n: nat)
    ensures
        pow16(n) > 0,
    decreases n,
{
    if n > 0 {
        lemma_pow16_positive((n - 1) as nat);
    }
}

/// `n` hex digits spell a number below `16^n`.
proof fn lemma_hex_value_bound(s: Seq<char>)
    requires
        all_hex_digits(s),
    ensures
        hex_value(s) < pow16(s.len()),
    decreases s.len(),
{
    if s.len() > 0 {
        let init = s.drop_last();
        assert(all_hex_digits(init)) by {
            assert forall|i: int| 0 <= i < init.len() implies (#[trigger] hex_digit_value(init[i])) is Some by {
                assert(init[i] == s[i]);
            }
        }
        lemma_hex_value_bound(init);
        assert(hex_digit_value(s[s.len() - 1]) is Some);
        let d = hex_digit_value(s.last()).unwrap_or(0);
        assert(d < 16);
        let h = hex_value(init);
        let p = pow16(init.len());
        assert(pow16(s.len()) == 16 * p) by {
            assert(s.len() == (init.len() + 1) as nat);
        }
        assert(h * 16 + d < 16 * p) by (nonlinear_arith)
            requires
                h < p,
                d < 16,
        ;
    }
}

proof fn lemma_upper_hex_digit(d: nat)
    requires
        d < 16,
    ensures
        hex_digit_value(upper_hex_digit(d)) == Some(d),
        ('0' <= upper_hex_digit(d) <= '9') || ('A' <= upper_hex_digit(d) <= 'F'),
{
}

/// The first `k` of the eight digits spell `v` divided by `16^(8 - k)`.
proof fn lemma_hex_digits8_prefix(v: u32, k: nat)
    requires
        k <= 8,
    ensures
        hex_value(hex_digits8(v).subrange(0, k as int)) == v as nat / pow16((8 - k) as nat),
        all_hex_digits(hex_digits8(v).subrange(0, k as int)),
    decreases k,
{
    lemma_pow16_facts();
    let ds = hex_digits8(v);
    if k == 0 {
        lemma_pow16_facts();
        assert(v as nat / pow16(8) == 0) by {
            assert(v as nat / 0x1_0000_0000nat == 0);
        }
    } else {
        let km = (k - 1) as nat;
        lemma_hex_digits8_prefix(v, km);
        let p = pow16((8 - k) as nat);
        let q = v as nat / p;
        assert(ds.subrange(0, k as int).drop_last() =~= ds.subrange(0, km as int));
        lemma_upper_hex_digit(q % 16);
        assert(ds.subrange(0, k as int).last() == upper_hex_digit(q % 16));
        assert(pow16((8 - km) as nat) == 16 * p) by {
            assert((8 - km) as nat == ((8 - k) as nat + 1) as nat);
        }
        lemma_div_denominator(v as int, p as int, 16);
        assert(v as nat / (16 * p) == q / 16) by {
            assert(p * 16 == 16 * p) by (nonlinear_arith);
        }
        lemma_fundamental_div_mod(q as int, 16);
        assert forall|i: int| 0 <= i < k implies (#[trigger] hex_digit_value(
            ds.subrange(0, k as int)[i],
        )) is Some by {
            if i < km {
                assert(ds.subrange(0, k as int)[i] == ds.subrange(0, km as int)[i]);
            } else {
                lemma_upper_hex_digit(q % 16);
            }
        }
    }
}

/// Writing a value as text and reading the text back gives the value again.
pub proof fn lemma_human_round_trip(v: u32)
    ensures
        spec_decode_str(spec_encode_human(v)) == Ok::<u32, HexError>(v),
{
    let s = spec_encode_human(v);
    assert(s.subrange(2, s.len() as int) =~= hex_digits8(v));
    assert(hex_digits8(v).subrange(0, 8) =~= hex_digits8(v));
    lemma_hex_digits8_prefix(v, 8);
    lemma_pow16_facts();
    assert(v as nat / 1 == v as nat);
    assert(s[0] == '0' && s[1] == 'x');
}

/// Writing a value in the compact form and reading it back gives the value again.
pub proof fn lemma_compact_round_trip(v: u32)
    ensures
        spec_decode_int(v as nat) == Ok::<u32, HexError>(v),
{
}

/// The text form is ten characters: `0x` and eight uppercase hex digits.
pub proof fn lemma_human_shape(v: u32)
    ensures
        spec_encode_human(v).len() == 10,
        spec_encode_human(v)[0] == '0',
        spec_encode_human(v)[1] == 'x',
        forall|i: int|
            2 <= i < 10 ==> ('0' <= #[trigger] spec_encode_human(v)[i] <= '9') || ('A'
                <= spec_encode_human(v)[i] <= 'F'),
{
    lemma_pow16_facts();
    assert forall|i: int| 2 <= i < 10 implies ('0' <= #[trigger] spec_encode_human(v)[i] <= '9')
        || ('A' <= spec_encode_human(v)[i] <= 'F') by {
        let d = (v as nat / pow16((7 - (i - 2)) as nat)) % 16;
        lemma_upper_hex_digit(d);
    }
}

/// The literal text of one uppercase hex digit.
fn upper_hex_str(d: u32) -> (r: &'static str)
    requires
        d < 16,
    ensures
        r@ == seq![upper_hex_digit(d as nat)],
{
    proof {
        reveal_strlit("0");
        reveal_strlit("1");
        reveal_strlit("2");
        reveal_strlit("3");
        reveal_strlit("4");
        reveal_strlit("5");
        reveal_strlit("6");
        reveal_strlit("7");
        reveal_strlit("8");
        reveal_strlit("9");
        reveal_strlit("A");
        reveal_strlit("B");
        reveal_strlit("C");
        reveal_strlit("D");
        reveal_strlit("E");
        reveal_strlit("F");
    }
    match d {
        0 => "0",
        1 => "1",
        2 => "2",
        3 => "3",
        4 => "4",
        5 => "5",
        6 => "6",
        7 => "7",
        8 => "8",
        9 => "9",
        10 => "A",
        11 => "B",
        12 => "C",
        13 => "D",
        14 => "E",
        _ => "F",
    }
}

fn digit_value(c: char) -> (r: Option<u32>)
    ensures
        match hex_digit_value(c) {
            Some(d) => r == Some(d as u32),
            None => r is None,
        },
{
    if '0' <= c && c <= '9' {
        Some((c as u32) - ('0' as u32))
    } else if 'a' <= c && c <= 'f' {
        Some((c as u32) - ('a' as u32) + 10)
    } else if 'A' <= c && c <= 'F' {
        Some((c as u32) - ('A' as u32) + 10)
    } else {
        None
    }
}

impl HexU32 {
    /// The text form, `0x` and eight uppercase hex digits.
    pub fn encode_human(&self) -> (r: String)
        ensures
            r@ == spec_encode_human(self.0),
    {
        proof {
            reveal_strlit("0x");
            lemma_pow16_facts();
        }
        let v = self.0;
        let mut r = String::from_str("0x");
        let mut p: u32 = 0x1000_0000;
        let mut i: usize = 0;
        while i < 8
            invariant
                i <= 8,
                r@ == seq!['0', 'x'] + hex_digits8(v).subrange(0, i as int),
                i < 8 ==> p as nat == pow16((7 - i) as nat),
                p > 0,
            decreases 8 - i,
        {
            let d = (v / p) % 16;
            r.append(upper_hex_str(d));
            proof {
                assert(hex_digits8(v).subrange(0, i + 1) =~= hex_digits8(v).subrange(0, i as int).push(
                    upper_hex_digit(d as nat),
                ));
            }
            if i < 7 {
                proof {
                    assert(pow16((7 - i) as nat) == 16 * pow16((7 - (i + 1)) as nat)) by {
                        assert((7 - i) as nat == ((7 - (i + 1)) as nat + 1) as nat);
                    }
                }
                p = p / 16;
            }
            i = i + 1;
        }
        proof {
            assert(hex_digits8(v).subrange(0, 8) =~= hex_digits8(v));
        }
        r
    }

    /// The same text as `encode_human`.
    pub fn to_string(&self) -> (r: String)
        ensures
            r@ == spec_encode_human(self.0),
    {
        self.encode_human()
    }

    /// The compact form: the raw integer.
    pub fn encode_compact(&self) -> (r: u32)
        ensures
            r == self.0,
    {
        self.0
    }

    pub fn decode_u8(v: u8) -> (r: HexU32)
        ensures
            r.0 == v as u32,
    {
        HexU32(v as u32)
    }

    pub fn decode_u16(v: u16) -> (r: HexU32)
        ensures
            r.0 == v as u32,
    {
        HexU32(v as u32)
    }

    pub fn decode_u32(v: u32) -> (r: HexU32)
        ensures
            r.0 == v,
    {
        HexU32(v)
    }

    pub fn decode_u64(v: u64) -> (r: Result<HexU32, HexError>)
        ensures
            r == wrap_result(spec_decode_int(v as nat)),
    {
        if v > 0xFFFF_FFFF {
            Err(HexError::OutOfRange)
        } else {
            Ok(HexU32(v as u32))
        }
    }

    pub fn decode_u128(v: u128) -> (r: Result<HexU32, HexError>)
        ensures
            r == wrap_result(spec_decode_int(v as nat)),
    {
        if v > 0xFFFF_FFFF {
            Err(HexError::OutOfRange)
        } else {
            Ok(HexU32(v as u32))
        }
    }

    /// Reads `0x` followed by hex digits of either case.
    pub fn decode_str(s: &str) -> (r: Result<HexU32, HexError>)
        ensures
            r == wrap_result(spec_decode_str(s@)),
    {
        let n = s.unicode_len();
        if n < 2 || s.get_char(0) != '0' || s.get_char(1) != 'x' {
            return Err(HexError::MissingPrefix);
        }
        if n == 2 {
            return Err(HexError::NoDigits);
        }
        if n > 10 {
            return Err(HexError::TooManyDigits);
        }
        let ghost digits = s@.subrange(2, n as int);
        proof {
            lemma_pow16_facts();
        }
        let mut acc: u64 = 0;
        let mut i: usize = 2;
        while i < n
            invariant
                2 <= i <= n <= 10,
                n == s@.len(),
                s@[0] == '0' && s@[1] == 'x',
                digits == s@.subrange(2, n as int),
                all_hex_digits(digits.subrange(0, i - 2)),
                acc as nat == hex_value(digits.subrange(0, i - 2)),
                acc as nat <= u32::MAX,
            decreases n - i,
        {
            let c = s.get_char(i);
            let d = match digit_value(c) {
                Some(d) => d,
                None => {
                    proof {
                        assert(digits[i - 2] == c);
                        assert(hex_digit_value(digits[i - 2]) is None);
                    }
                    return Err(HexError::InvalidDigit);
                },
            };
            proof {
                let pre = digits.subrange(0, i - 2);
                let next = digits.subrange(0, i - 1);
                assert(next.drop_last() =~= pre);
                assert(next.last() == c);
                assert forall|j: int| 0 <= j < next.len() implies (#[trigger] hex_digit_value(
                    next[j],
                )) is Some by {
                    if j < pre.len() {
                        assert(next[j] == pre[j]);
                    }
                }
                lemma_hex_value_bound(next);
                lemma_pow16_monotone(next.len(), 8);
                lemma_pow16_facts();
                assert(hex_value(next) == hex_value(pre) * 16 + d);
            }
            acc = acc * 16 + d as u64;
            i = i + 1;
        }
        proof {
            assert(digits.subrange(0, n - 2) =~= digits);
        }
        Ok(HexU32(acc as u32))
    }
}

} // verus!
