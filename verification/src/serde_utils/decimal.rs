//! Decimal text of `i64`, written and read the way std's `to_string` and `parse` do.
use vstd::prelude::*;

use crate::text::chars_of;

verus! {

/// Why decimal text does not denote an `i64`, in std's terms.
#[derive(Debug, Clone, Copy, PartialEq, Eq, Structural)]
pub enum IntErrorKind {
    Empty,
    InvalidDigit,
    PosOverflow,
    NegOverflow,
}

impl IntErrorKind {
    /// The message std gives for this kind of error.
    pub fn message(&self) -> (res: &'static str)
        ensures
            res@ == match *self {
                IntErrorKind::Empty => "cannot parse integer from empty string"@,
                IntErrorKind::InvalidDigit => "invalid digit found in string"@,
                IntErrorKind::PosOverflow => "number too large to fit in target type"@,
                IntErrorKind::NegOverflow => "number too small to fit in target type"@,
            },
    {
        match self {
            IntErrorKind::Empty => "cannot parse integer from empty string",
            IntErrorKind::InvalidDigit => "invalid digit found in string",
            IntErrorKind::PosOverflow => "number too large to fit in target type",
            IntErrorKind::NegOverflow => "number too small to fit in target type",
        }
    }
}

/// The character of the decimal digit `d`.
pub open spec fn digit_char(d: int) -> char {
    (d + 48) as char
}

pub open spec fn is_digit(c: char) -> bool {
    '0' <= c && c <= '9'
}

/// The decimal digits of `n`, most significant first, without leading zeros.
pub open spec fn nat_digits(n: nat) -> Seq<char>
    decreases n,
{
    if n < 10 {
        seq![digit_char(n as int)]
    } else {
        nat_digits(n / 10) + seq![digit_char((n % 10) as int)]
    }
}

/// The text `x.to_string()` gives.
pub open spec fn i64_text(x: i64) -> Seq<char> {
    if x < 0 {
        seq!['-'] + nat_digits((-x) as nat)
    } else {
        nat_digits(x as nat)
    }
}

/// Reading the digits `s` from the left, adding (`positive`) or subtracting each digit
/// after scaling by ten, and stopping at the first non-digit or at the first value
/// outside the `i64` range.
pub open spec fn scan_digits(s: Seq<char>, positive: bool) -> Result<int, IntErrorKind>
    decreases s.len(),
{
    if s.len() == 0 {
        Ok(0)
    } else {
        match scan_digits(s.drop_last(), positive) {
            Err(e) => Err(e),
            Ok(acc) => if !is_digit(s.last()) {
                Err(IntErrorKind::InvalidDigit)
            } else {
                let d = s.last() as int - 48;
                let v = if positive {
                    acc * 10 + d
                } else {
                    acc * 10 - d
                };
                if positive && v > i64::MAX {
                    Err(IntErrorKind::PosOverflow)
                } else if !positive && v < i64::MIN {
                    Err(IntErrorKind::NegOverflow)
                } else {
                    Ok(v)
                }
            },
        }
    }
}

/// What `s.parse::<i64>()` gives: an optional sign, then at least one digit.
pub open spec fn parse_i64_text(s: Seq<char>) -> Result<int, IntErrorKind> {
    if s.len() == 0 {
        Err(IntErrorKind::Empty)
    } else if (s[0] == '+' || s[0] == '-') && s.len() == 1 {
        Err(IntErrorKind::InvalidDigit)
    } else if s[0] == '+' {
        scan_digits(s.skip(1), true)
    } else if s[0] == '-' {
        scan_digits(s.skip(1), false)
    } else {
        scan_digits(s, true)
    }
}

proof fn lemma_scan_in_range(s: Seq<char>, positive: bool)
    ensures
        scan_digits(s, positive) matches Ok(v) ==> i64::MIN <= v <= i64::MAX && (positive ==> v
            >= 0) && (!positive ==> v <= 0),
    decreases s.len(),
{
    if s.len() > 0 {
        lemma_scan_in_range(s.drop_last(), positive);
    }
}

/// Reads `s` as a decimal `i64`, as std's `parse` does.
pub fn parse_i64(s: &str) -> (res: Result<i64, IntErrorKind>)
    ensures
        match parse_i64_text(s@) {
            Ok(v) => res == Ok::<i64, IntErrorKind>(v as i64),
            Err(e) => res == Err::<i64, IntErrorKind>(e),
        },
{
    let chars = chars_of(s);
    let n = chars.len();
    if n == 0 {
        return Err(IntErrorKind::Empty);
    }
    let c0 = chars[0];
    if (c0 == '+' || c0 == '-') && n == 1 {
        return Err(IntErrorKind::InvalidDigit);
    }
    let positive = c0 != '-';
    let start: usize = if c0 == '+' || c0 == '-' {
        1
    } else {
        0
    };
    let ghost digits = chars@.skip(start as int);
    proof {
        assert(chars@.skip(0) =~= chars@);
        assert(parse_i64_text(s@) == scan_digits(digits, positive));
    }
    let mut acc: i64 = 0;
    let mut i: usize = start;
    while i < n
        invariant
            start <= i <= n == chars@.len(),
            digits == chars@.skip(start as int),
            scan_digits(digits.take(i - start), positive) == Ok::<int, IntErrorKind>(acc as int),
            parse_i64_text(s@) == scan_digits(digits, positive),
            positive == (chars@[0] != '-'),
        decreases n - i,
    {
        let c = chars[i];
        proof {
            let t = digits.take(i - start + 1);
            assert(t.drop_last() =~= digits.take(i - start));
            assert(t.last() == c);
            lemma_scan_in_range(digits.take(i - start), positive);
        }
        if !('0' <= c && c <= '9') {
            proof {
                let t = digits.take(i - start + 1);
                assert(t.drop_last() =~= digits.take(i - start));
                assert(scan_digits(t, positive) == Err::<int, IntErrorKind>(IntErrorKind::InvalidDigit));
                lemma_scan_prefix_error(digits, (i - start + 1) as int);
            }
            return Err(IntErrorKind::InvalidDigit);
        }
        let d = (c as u32 - 48) as i128;
        let v: i128 = if positive {
            acc as i128 * 10 + d
        } else {
            acc as i128 * 10 - d
        };
        if positive && v > i64::MAX as i128 {
            proof {
                let t = digits.take(i - start + 1);
                assert(t.drop_last() =~= digits.take(i - start));
                assert(scan_digits(t, positive) == Err::<int, IntErrorKind>(IntErrorKind::PosOverflow));
                lemma_scan_prefix_error(digits, (i - start + 1) as int);
            }
            return Err(IntErrorKind::PosOverflow);
        }
        if !positive && v < i64::MIN as i128 {
            proof {
                let t = digits.take(i - start + 1);
                assert(t.drop_last() =~= digits.take(i - start));
                assert(scan_digits(t, positive) == Err::<int, IntErrorKind>(IntErrorKind::NegOverflow));
                lemma_scan_prefix_error(digits, (i - start + 1) as int);
            }
            return Err(IntErrorKind::NegOverflow);
        }
        acc = v as i64;
        i = i + 1;
    }
    proof {
        assert(digits.take(n - start) =~= digits);
        lemma_scan_in_range(digits, positive);
    }
    Ok(acc)
}

/// Once a prefix of the digits fails, the whole scan fails the same way.
proof fn lemma_scan_prefix_error(s: Seq<char>, k: int)
    requires
        0 <= k <= s.len(),
    ensures
        forall|positive: bool|
            #![trigger scan_digits(s.take(k), positive)]
            scan_digits(s.take(k), positive) is Err ==> scan_digits(s, positive) == scan_digits(
                s.take(k),
                positive,
            ),
    decreases s.len() - k,
{
    if k < s.len() {
        lemma_scan_prefix_error(s, k + 1);
        assert forall|positive: bool|
            #![trigger scan_digits(s.take(k), positive)]
            scan_digits(s.take(k), positive) is Err implies scan_digits(s, positive)
                == scan_digits(s.take(k), positive) by {
            assert(s.take(k + 1).drop_last() =~= s.take(k));
            assert(scan_digits(s.take(k + 1), positive) == scan_digits(s.take(k), positive));
        }
    } else {
        assert(s.take(k) =~= s);
    }
}

/// Appends the decimal digits of `n` to `out`.
fn write_digits(n: u64, out: &mut String)
    ensures
        final(out)@ == old(out)@ + nat_digits(n as nat),
    decreases n,
{
    if n >= 10 {
        write_digits(n / 10, out);
    }
    let d = (n % 10) as usize;
    proof {
        reveal_strlit("0123456789");
    }
    let digit = "0123456789".substring_char(d, d + 1);
    out.append(digit);
    proof {
        assert(digit@ =~= seq![digit_char(d as int)]);
        assert(out@ =~= old(out)@ + nat_digits(n as nat));
    }
}

/// The decimal text of `n`, as `n.to_string()` gives it.
pub fn u64_to_text(n: u64) -> (res: String)
    ensures
        res@ == nat_digits(n as nat),
{
    let mut out = String::new();
    write_digits(n, &mut out);
    proof {
        assert(out@ =~= nat_digits(n as nat));
    }
    out
}

/// The decimal text of `x`, as `x.to_string()` gives it.
pub fn i64_to_text(x: i64) -> (res: String)
    ensures
        res@ == i64_text(x),
{
    let mut out = String::new();
    if x < 0 {
        proof {
            reveal_strlit("-");
        }
        out.append("-");
        let m: u64 = (-(x as i128)) as u64;
        write_digits(m, &mut out);
    } else {
        write_digits(x as u64, &mut out);
    }
    proof {
        assert(out@ =~= i64_text(x));
    }
    out
}

proof fn lemma_nat_digits_are_digits(n: nat)
    ensures
        nat_digits(n).len() >= 1,
        forall|i: int| 0 <= i < nat_digits(n).len() ==> is_digit(#[trigger] nat_digits(n)[i]),
    decreases n,
{
    if n >= 10 {
        lemma_nat_digits_are_digits(n / 10);
        assert forall|i: int| 0 <= i < nat_digits(n).len() implies is_digit(
            #[trigger] nat_digits(n)[i],
        ) by {
            if i < nat_digits(n / 10).len() {
                assert(nat_digits(n)[i] == nat_digits(n / 10)[i]);
            }
        }
    }
}

proof fn lemma_scan_nat_digits(n: nat, positive: bool)
    requires
        positive ==> n <= i64::MAX,
        !positive ==> n <= 0x8000_0000_0000_0000,
    ensures
        scan_digits(nat_digits(n), positive) == Ok::<int, IntErrorKind>(
            if positive {
                n as int
            } else {
                -n
            },
        ),
    decreases n,
{
    let ds = nat_digits(n);
    let d = (n % 10) as int;
    assert(digit_char(d) as int == d + 48);
    assert(ds.last() == digit_char(d));
    if n < 10 {
        assert(n % 10 == n);
        assert(ds.drop_last() =~= Seq::<char>::empty());
        assert(scan_digits(ds.drop_last(), positive) == Ok::<int, IntErrorKind>(0));
    } else {
        lemma_scan_nat_digits(n / 10, positive);
        assert(ds.drop_last() =~= nat_digits(n / 10));
        assert((n / 10) * 10 + n % 10 == n) by (nonlinear_arith);
        assert(scan_digits(ds.drop_last(), positive) == Ok::<int, IntErrorKind>(
            if positive {
                (n / 10) as int
            } else {
                -((n / 10) as int)
            },
        ));
    }
}

/// Reading back the decimal text of an `i64` gives the same `i64`.
pub proof fn law_i64_text_roundtrip(x: i64)
    ensures
        parse_i64_text(i64_text(x)) == Ok::<int, IntErrorKind>(x as int),
{
    if x < 0 {
        let n = (-x) as nat;
        lemma_scan_nat_digits(n, false);
        lemma_nat_digits_are_digits(n);
        let t = i64_text(x);
        assert(t.skip(1) =~= nat_digits(n));
    } else {
        let n = x as nat;
        lemma_scan_nat_digits(n, true);
        lemma_nat_digits_are_digits(n);
        assert(is_digit(nat_digits(n)[0]));
    }
}

} // verus!
