//! A ready-made arbitrary-parameter value type: one 32-bit signed
//! integer.
//!
//! Its flat form is four bytes, big-endian, two's complement; its text
//! form is the plain decimal numeral (also what a JSON rendering of the
//! integer looks like).  Both encodings are proved to round-trip, which
//! discharges every law of [`crate::value::ArbitraryData`] for it.

use vstd::prelude::*;
use crate::value::{ArbCompare, ArbitraryData, Weight, WEIGHT_ONE};

verus! {

/// An arbitrary parameter holding one `i32`.
#[derive(Clone, Copy, Debug, PartialEq, Eq, Structural)]
pub struct IntValue {
    pub value: i32,
}

/// The unsigned 32-bit pattern of a signed value (two's complement).
pub open spec fn bits_of_i32(v: i32) -> int {
    if v >= 0 {
        v as int
    } else {
        v + 0x1_0000_0000
    }
}

/// The signed value of an unsigned 32-bit pattern (two's complement).
pub open spec fn i32_of_bits(m: int) -> int {
    if m < 0x8000_0000 {
        m
    } else {
        m - 0x1_0000_0000
    }
}

/// Big-endian bytes of a 32-bit pattern.
pub open spec fn be_bytes(m: int) -> Seq<u8> {
    seq![
        ((m / 0x100_0000) % 0x100) as u8,
        ((m / 0x1_0000) % 0x100) as u8,
        ((m / 0x100) % 0x100) as u8,
        (m % 0x100) as u8,
    ]
}

/// The 32-bit pattern read back from four big-endian bytes.
pub open spec fn be_value(b: Seq<u8>) -> int {
    b[0] * 0x100_0000 + b[1] * 0x1_0000 + b[2] * 0x100 + b[3]
}

pub proof fn lemma_be_round_trip(m: int)
    requires
        0 <= m < 0x1_0000_0000,
    ensures
        be_value(be_bytes(m)) == m,
{
    assert(be_value(be_bytes(m)) == m) by (nonlinear_arith)
        requires 0 <= m < 0x1_0000_0000;
}

impl IntValue {
    /// Wrap a plain integer.
    pub fn new(value: i32) -> (r: IntValue)
        ensures
            r.value == value,
    {
        IntValue { value }
    }

    /// The wrapped integer.
    pub fn get(&self) -> (r: i32)
        ensures
            r == self.value,
    {
        self.value
    }
}

/// Encode an `i32` as four big-endian two's-complement bytes.
pub fn encode_i32(v: i32) -> (r: Vec<u8>)
    ensures
        r@ == be_bytes(bits_of_i32(v)),
{
    let m: u32 = if v >= 0 {
        v as u32
    } else {
        ((v as i64) + 0x1_0000_0000i64) as u32
    };
    proof {
        assert(m as int == bits_of_i32(v));
    }
    let mut r: Vec<u8> = Vec::new();
    r.push((m / 0x100_0000) as u8);
    r.push(((m / 0x1_0000) % 0x100) as u8);
    r.push(((m / 0x100) % 0x100) as u8);
    r.push((m % 0x100) as u8);
    proof {
        assert((m as int / 0x100_0000) % 0x100 == m as int / 0x100_0000);
        assert(r@ =~= be_bytes(bits_of_i32(v)));
    }
    r
}

/// The decimal digits of a natural number, most significant first.
pub open spec fn dec_digits(n: nat) -> Seq<u8>
    decreases n,
{
    if n < 10 {
        seq![(48 + n) as u8]
    } else {
        dec_digits(n / 10).push((48 + n % 10) as u8)
    }
}

/// Powers of ten.
pub open spec fn pow10(k: nat) -> nat
    decreases k,
{
    if k == 0 {
        1
    } else {
        10 * pow10((k - 1) as nat)
    }
}

/// A canonical unsigned decimal numeral: nonempty, digits only, no
/// leading zero except for "0" itself.
pub open spec fn is_dec_numeral(s: Seq<u8>) -> bool {
    &&& s.len() > 0
    &&& forall|i: int| 0 <= i < s.len() ==> 48 <= #[trigger] s[i] <= 57
    &&& (s.len() > 1 ==> s[0] != 48)
}

/// The value of a digit string, most significant first.
pub open spec fn dec_val(s: Seq<u8>) -> int
    decreases s.len(),
{
    if s.len() == 0 {
        0
    } else {
        dec_val(s.drop_last()) * 10 + (s.last() - 48)
    }
}

/// The signed integer a text buffer denotes, if it is a canonical
/// decimal numeral for a value an `i32` can hold.
pub open spec fn text_int(s: Seq<u8>) -> Option<int> {
    if is_dec_numeral(s) && dec_val(s) <= 0x7fff_ffff {
        Some(dec_val(s))
    } else if s.len() >= 2 && s[0] == 45 && is_dec_numeral(s.skip(1)) && 1 <= dec_val(s.skip(1))
        && dec_val(s.skip(1)) <= 0x8000_0000 {
        Some(-dec_val(s.skip(1)))
    } else {
        None
    }
}

/// The canonical decimal text of a signed integer.
pub open spec fn text_of(v: int) -> Seq<u8> {
    if v >= 0 {
        dec_digits(v as nat)
    } else {
        seq![45u8].add(dec_digits((-v) as nat))
    }
}

pub proof fn lemma_dec_digits_are_digits(n: nat)
    ensures
        dec_digits(n).len() > 0,
        forall|i: int| 0 <= i < dec_digits(n).len() ==> 48 <= #[trigger] dec_digits(n)[i] <= 57,
        n > 0 ==> dec_digits(n)[0] != 48,
    decreases n,
{
    if n >= 10 {
        lemma_dec_digits_are_digits(n / 10);
    }
}

pub proof fn lemma_dec_digits_val(n: nat)
    ensures
        dec_val(dec_digits(n)) == n,
    decreases n,
{
    if n < 10 {
        let s = dec_digits(n);
        assert(s =~= seq![(48 + n) as u8]);
        assert(s.drop_last() =~= Seq::<u8>::empty());
        assert(s.last() == (48 + n) as u8);
        assert(dec_val(s) == dec_val(s.drop_last()) * 10 + (s.last() - 48));
        assert(dec_val(Seq::<u8>::empty()) == 0);
        assert(s.last() - 48 == n);
    } else {
        lemma_dec_digits_val(n / 10);
        let s = dec_digits(n);
        assert(s == dec_digits(n / 10).push((48 + n % 10) as u8));
        assert(s.drop_last() =~= dec_digits(n / 10));
        assert(s.last() == (48 + n % 10) as u8);
        assert(dec_val(s) == dec_val(s.drop_last()) * 10 + (s.last() - 48));
        assert(dec_val(s) == (n / 10) * 10 + n % 10);
    }
}

/// A canonical numeral is itself: printing then parsing the digits of
/// `n` yields `n`, and the numeral is canonical.
pub proof fn lemma_dec_numeral(n: nat)
    ensures
        is_dec_numeral(dec_digits(n)) || n == 0,
        n == 0 ==> dec_digits(n) =~= seq![48u8],
        dec_val(dec_digits(n)) == n,
{
    lemma_dec_digits_are_digits(n);
    lemma_dec_digits_val(n);
    if n > 0 {
        assert(is_dec_numeral(dec_digits(n)));
    }
}

/// A numeral without a leading zero is at least ten to one less than
/// its length.
pub proof fn lemma_dec_val_lower(s: Seq<u8>)
    requires
        is_dec_numeral(s),
        s[0] != 48,
    ensures
        dec_val(s) >= pow10((s.len() - 1) as nat),
    decreases s.len(),
{
    if s.len() == 1 {
        assert(dec_val(s.drop_last()) == 0);
    } else {
        lemma_dec_val_lower(s.drop_last());
    }
}

pub proof fn lemma_pow10_10()
    ensures
        pow10(10) == 10_000_000_000,
{
    reveal_with_fuel(pow10, 11);
}

/// Parsing inverts printing: the canonical text of any `i32` value
/// denotes that value and nothing else.
pub proof fn lemma_text_round_trip_int(v: int)
    requires
        -0x8000_0000 <= v <= 0x7fff_ffff,
    ensures
        text_int(text_of(v)) == Some(v),
{
    if v >= 0 {
        lemma_dec_numeral(v as nat);
        if v == 0 {
            assert(is_dec_numeral(text_of(v)));
        }
    } else {
        let s = text_of(v);
        let d = dec_digits((-v) as nat);
        lemma_dec_numeral((-v) as nat);
        assert(s.skip(1) =~= d);
        assert(s[0] == 45);
        assert(!is_dec_numeral(s));
    }
}

/// Powers of ten grow with the exponent.
pub proof fn lemma_pow10_mono(a: nat, b: nat)
    requires
        a <= b,
    ensures
        pow10(a) <= pow10(b),
    decreases b,
{
    if a < b {
        lemma_pow10_mono(a, (b - 1) as nat);
        assert(pow10(b) == 10 * pow10((b - 1) as nat));
    }
}

/// A number below ten to the `k` has at most `k` digits.
pub proof fn lemma_dec_digits_len(n: nat, k: nat)
    requires
        k >= 1,
        n < pow10(k),
    ensures
        dec_digits(n).len() <= k,
    decreases n,
{
    if n >= 10 {
        if k == 1 {
            assert(pow10(1) == 10 * pow10(0));
            assert(false);
        } else {
            assert(pow10(k) == 10 * pow10((k - 1) as nat));
            lemma_dec_digits_len(n / 10, (k - 1) as nat);
        }
    }
}

/// Two's-complement round trip on 32-bit patterns.
pub proof fn lemma_bits_round_trip(v: i32)
    ensures
        0 <= bits_of_i32(v) < 0x1_0000_0000,
        i32_of_bits(bits_of_i32(v)) == v as int,
{
}

/// Append the decimal digits of `n`, most significant first.
fn push_dec(n: u32, out: &mut Vec<u8>)
    ensures
        final(out)@ == old(out)@ + dec_digits(n as nat),
    decreases n,
{
    if n < 10 {
        out.push((48 + n) as u8);
        proof {
            assert(out@ =~= old(out)@ + dec_digits(n as nat));
        }
    } else {
        push_dec(n / 10, out);
        out.push((48 + (n % 10)) as u8);
        proof {
            assert(out@ =~= old(out)@ + dec_digits(n as nat));
        }
    }
}

/// Render an `i32` as its canonical decimal text.
pub fn print_i32(v: i32) -> (r: Vec<u8>)
    ensures
        r@ == text_of(v as int),
{
    let mut r: Vec<u8> = Vec::new();
    if v >= 0 {
        push_dec(v as u32, &mut r);
        proof {
            assert(r@ =~= text_of(v as int));
        }
    } else {
        r.push(45);
        let mag: u32 = (-(v as i64)) as u32;
        push_dec(mag, &mut r);
        proof {
            assert(r@ =~= seq![45u8].add(dec_digits((-(v as int)) as nat)));
        }
    }
    r
}

/// Parse the canonical decimal text of an `i32`, rejecting anything
/// else: stray characters, redundant leading zeros, a lone or signed
/// zero sign, and values outside the 32-bit range.
#[verifier::loop_isolation(false)]
pub fn scan_i32(s: &Vec<u8>) -> (r: Option<i32>)
    ensures
        match r {
            Some(v) => text_int(s@) == Some(v as int),
            None => text_int(s@) is None,
        },
{
    let n = s.len();
    if n == 0 {
        return None;
    }
    let neg = s[0] == 45;
    let start: usize = if neg { 1 } else { 0 };
    if n == start {
        return None;
    }
    let mut i: usize = start;
    while i < n
        invariant
            start <= i <= n,
            n == s@.len(),
            start <= 1,
            forall|j: int| start <= j < i ==> 48 <= #[trigger] s@[j] <= 57,
        decreases n - i,
    {
        let c = s[i];
        if c < 48 || c > 57 {
            proof {
                assert(!(48 <= s@[i as int] <= 57));
                assert(!is_dec_numeral(s@));
                if s@[0] == 45 {
                    assert(s@.skip(1)[i - 1] == s@[i as int]);
                    assert(!is_dec_numeral(s@.skip(1)));
                }
            }
            return None;
        }
        i = i + 1;
    }
    if n - start > 1 && s[start] == 48 {
        return None;
    }
    let ghost digits = s@.skip(start as int);
    proof {
        assert(digits =~= s@.subrange(start as int, n as int));
        assert(forall|j: int| 0 <= j < digits.len() ==> 48 <= #[trigger] digits[j] <= 57);
    }
    if n - start > 10 {
        proof {
            assert(digits[0] == s@[start as int]);
            assert(is_dec_numeral(digits));
            lemma_dec_val_lower(digits);
            lemma_pow10_10();
            lemma_pow10_mono(10, (digits.len() - 1) as nat);
            assert(dec_val(digits) > 0x8000_0000);
            if s@[0] == 45 {
                assert(!(48 <= s@[0] <= 57));
                assert(!is_dec_numeral(s@));
                assert(s@.skip(1) == digits);
            } else {
                assert(digits =~= s@);
            }
        }
        return None;
    }
    let mut acc: u64 = 0;
    let mut k: usize = start;
    while k < n
        invariant
            start <= k <= n,
            n == s@.len(),
            n - start <= 10,
            start <= 1,
            forall|j: int| start <= j < n ==> 48 <= #[trigger] s@[j] <= 57,
            acc == dec_val(s@.subrange(start as int, k as int)),
            0 <= acc < pow10((k - start) as nat),
        decreases n - k,
    {
        let ghost pre = s@.subrange(start as int, k as int);
        let ghost cur = s@.subrange(start as int, k + 1 as int);
        proof {
            assert(cur.drop_last() =~= pre);
            lemma_pow10_mono((k - start) as nat, 9);
            lemma_pow10_10();
            assert(pow10(10) == 10 * pow10(9));
        }
        acc = acc * 10 + ((s[k] - 48) as u64);
        k = k + 1;
        proof {
            assert(acc == dec_val(cur));
            assert(acc < pow10((k - start) as nat));
        }
    }
    proof {
        assert(s@.subrange(start as int, n as int) =~= digits);
    }
    if neg {
        if acc == 0 || acc > 0x8000_0000u64 {
            return None;
        }
        proof {
            assert(s@[0] == 45);
            assert(is_dec_numeral(digits));
            assert(!is_dec_numeral(s@));
            assert(text_int(s@) == Some(-dec_val(digits)));
        }
        Some((-(acc as i64)) as i32)
    } else {
        if acc > 0x7fff_ffffu64 {
            proof {
                assert(digits =~= s@);
                assert(dec_val(s@) == acc);
            }
            return None;
        }
        proof {
            assert(digits =~= s@);
            assert(is_dec_numeral(s@));
            assert(text_int(s@) == Some(dec_val(s@)));
        }
        Some(acc as i32)
    }
}

/// Decode four big-endian two's-complement bytes back to an `i32`.
pub fn decode_i32(b: &Vec<u8>) -> (r: Option<i32>)
    ensures
        match r {
            Some(v) => b@.len() == 4 && bits_of_i32(v) == be_value(b@),
            None => b@.len() != 4,
        },
{
    if b.len() != 4 {
        return None;
    }
    let m: u32 = (b[0] as u32) * 0x100_0000 + (b[1] as u32) * 0x1_0000 + (b[2] as u32) * 0x100
        + (b[3] as u32);
    proof {
        assert(m as int == be_value(b@));
    }
    let v: i32 = if m < 0x8000_0000 {
        m as i32
    } else {
        ((m as i64) - 0x1_0000_0000i64) as i32
    };
    proof {
        assert(bits_of_i32(v) == m as int);
    }
    Some(v)
}

impl ArbitraryData for IntValue {
    open spec fn inv(&self) -> bool {
        true
    }

    open spec fn flat_spec(&self) -> Seq<u8> {
        be_bytes(bits_of_i32(self.value))
    }

    open spec fn unflat_spec(b: Seq<u8>) -> Option<IntValue> {
        if b.len() == 4 {
            Some(IntValue { value: i32_of_bits(be_value(b)) as i32 })
        } else {
            None
        }
    }

    open spec fn text_spec(&self) -> Seq<u8> {
        text_of(self.value as int)
    }

    open spec fn scan_spec(s: Seq<u8>) -> Option<IntValue> {
        match text_int(s) {
            Some(nv) => Some(IntValue { value: nv as i32 }),
            None => None,
        }
    }

    open spec fn default_spec() -> IntValue {
        IntValue { value: 0 }
    }

    open spec fn interpolate_spec(&self, other: &IntValue, w: Weight) -> IntValue {
        if other.value >= self.value {
            IntValue {
                value: (self.value + (other.value - self.value) * w.millionths / (
                WEIGHT_ONE as int)) as i32,
            }
        } else {
            IntValue {
                value: (self.value - (self.value - other.value) * w.millionths / (
                WEIGHT_ONE as int)) as i32,
            }
        }
    }

    open spec fn cmp_spec(&self, other: &IntValue) -> ArbCompare {
        if self.value < other.value {
            ArbCompare::Less
        } else if self.value > other.value {
            ArbCompare::More
        } else {
            ArbCompare::Equal
        }
    }

    proof fn lemma_default_wf() {
    }

    proof fn lemma_flat_round_trip(&self) {
        lemma_bits_round_trip(self.value);
        lemma_be_round_trip(bits_of_i32(self.value));
    }

    proof fn lemma_unflat_wf(b: Seq<u8>) {
    }

    proof fn lemma_text_round_trip(&self) {
        lemma_text_round_trip_int(self.value as int);
    }

    proof fn lemma_scan_wf(s: Seq<u8>) {
    }

    proof fn lemma_text_len(&self) {
        lemma_pow10_10();
        let v = self.value as int;
        if v >= 0 {
            lemma_dec_digits_len(v as nat, 10);
        } else {
            lemma_dec_digits_len((-v) as nat, 10);
        }
    }

    proof fn lemma_cmp_equal(&self) {
    }

    proof fn lemma_interpolate_wf(&self, other: &IntValue, w: Weight) {
    }

    proof fn lemma_interpolate_ends(&self, other: &IntValue) {
        let up = (other.value - self.value) as int;
        let down = (self.value - other.value) as int;
        assert(up * 0 == 0 && down * 0 == 0) by (nonlinear_arith);
        assert(up * 1000000 / 1000000 == up) by (nonlinear_arith);
        assert(down * 1000000 / 1000000 == down) by (nonlinear_arith);
    }

    fn arb_default() -> (r: IntValue) {
        IntValue { value: 0 }
    }

    fn flatten(&self) -> (r: Vec<u8>) {
        encode_i32(self.value)
    }

    fn unflatten(b: &Vec<u8>) -> (r: Option<IntValue>) {
        match decode_i32(b) {
            Some(v) => {
                proof {
                    lemma_bits_round_trip(v);
                }
                Some(IntValue { value: v })
            },
            None => None,
        }
    }

    fn print_text(&self) -> (r: Vec<u8>) {
        print_i32(self.value)
    }

    fn scan_text(s: &Vec<u8>) -> (r: Option<IntValue>) {
        match scan_i32(s) {
            Some(v) => Some(IntValue { value: v }),
            None => None,
        }
    }

    fn interpolate(&self, other: &IntValue, w: Weight) -> (r: IntValue) {
        let m = w.millionths;
        if other.value >= self.value {
            let d: u64 = ((other.value as i64) - (self.value as i64)) as u64;
            proof {
                assert(d * m <= d * 1000000 && d * 1000000 <= 0x1_0000_0000u64 * 1000000)
                    by (nonlinear_arith)
                    requires
                        0 <= d <= 0x1_0000_0000u64,
                        0 <= m <= 1000000,
                ;
            }
            let num: u64 = d * (m as u64);
            let q: u64 = num / 1000000;
            proof {
                assert(num / 1000000 <= d) by (nonlinear_arith)
                    requires
                        num <= d * 1000000,
                        0 <= d,
                ;
            }
            IntValue { value: ((self.value as i64) + (q as i64)) as i32 }
        } else {
            let d: u64 = ((self.value as i64) - (other.value as i64)) as u64;
            proof {
                assert(d * m <= d * 1000000 && d * 1000000 <= 0x1_0000_0000u64 * 1000000)
                    by (nonlinear_arith)
                    requires
                        0 <= d <= 0x1_0000_0000u64,
                        0 <= m <= 1000000,
                ;
            }
            let num: u64 = d * (m as u64);
            let q: u64 = num / 1000000;
            proof {
                assert(num / 1000000 <= d) by (nonlinear_arith)
                    requires
                        num <= d * 1000000,
                        0 <= d,
                ;
            }
            IntValue { value: ((self.value as i64) - (q as i64)) as i32 }
        }
    }

    fn compare(&self, other: &IntValue) -> (r: ArbCompare) {
        if self.value < other.value {
            ArbCompare::Less
        } else if self.value > other.value {
            ArbCompare::More
        } else {
            ArbCompare::Equal
        }
    }
}

} // verus!
