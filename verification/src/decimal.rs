//! Whole numbers in decimal.
use vstd::prelude::*;
use vstd::slice::slice_subrange;

verus! {

pub open spec fn digit(c: char) -> bool {
    '0' <= c <= '9'
}

pub open spec fn all_digits(s: Seq<char>) -> bool {
    forall|i: int| 0 <= i < s.len() ==> digit(#[trigger] s[i])
}

/// The number that a row of decimal digits stands for.
pub open spec fn value(digits: Seq<char>) -> nat
    decreases digits.len(),
{
    if digits.len() == 0 {
        0
    } else {
        (value(digits.drop_last()) * 10 + (digits.last() as int - '0' as int)) as nat
    }
}

/// The number that a text stands for: an optional sign, then decimal digits,
/// and nothing else.
pub open spec fn parsed(s: Seq<char>) -> Option<int> {
    let signed = s.len() > 0 && (s[0] == '-' || s[0] == '+');
    let digits = if signed {
        s.drop_first()
    } else {
        s
    };
    if digits.len() == 0 || !all_digits(digits) {
        None
    } else if s[0] == '-' {
        Some(-value(digits))
    } else {
        Some(value(digits) as int)
    }
}

/// The same, where it fits.
pub open spec fn parsed_i32(s: Seq<char>) -> Option<i32> {
    match parsed(s) {
        Some(n) => if i32::MIN <= n <= i32::MAX {
            Some(n as i32)
        } else {
            None
        },
        None => None,
    }
}

pub open spec fn digit_char(d: nat) -> char {
    if d == 0 {
        '0'
    } else if d == 1 {
        '1'
    } else if d == 2 {
        '2'
    } else if d == 3 {
        '3'
    } else if d == 4 {
        '4'
    } else if d == 5 {
        '5'
    } else if d == 6 {
        '6'
    } else if d == 7 {
        '7'
    } else if d == 8 {
        '8'
    } else {
        '9'
    }
}

/// A number in decimal digits.
pub open spec fn digits_of(n: nat) -> Seq<char>
    decreases n,
{
    if n < 10 {
        seq![digit_char(n)]
    } else {
        digits_of(n / 10).push(digit_char(n % 10))
    }
}

/// A number in decimal digits, with a minus sign where it is negative.
pub open spec fn decimal(n: int) -> Seq<char> {
    if n < 0 {
        seq!['-'] + digits_of((-n) as nat)
    } else {
        digits_of(n as nat)
    }
}

/// The largest magnitude that a signed number of 32 bits can have.
const LIMIT: i64 = 2_147_483_648;

/// One more digit.
proof fn value_of_one_more(s: Seq<char>, i: int)
    requires
        0 <= i < s.len(),
        all_digits(s.take(i)),
        digit(s[i]),
    ensures
        all_digits(s.take(i + 1)),
        value(s.take(i + 1)) == value(s.take(i)) * 10 + (s[i] as int - '0' as int),
{
    let now = s.take(i + 1);
    assert(now.drop_last() =~= s.take(i));
    assert forall|k: int| 0 <= k < now.len() implies digit(#[trigger] now[k]) by {
        if k < i {
            assert(now[k] == s.take(i)[k]);
        }
    }
}

/// The value of a row of digits; anything above the limit comes out as the
/// number after it.
fn read_digits(s: &[char]) -> (sum: Option<i64>)
    ensures
        match sum {
            Some(n) => all_digits(s@) && n == if value(s@) <= LIMIT {
                value(s@) as int
            } else {
                LIMIT + 1
            },
            None => !all_digits(s@),
        },
{
    let mut sum: i64 = 0;
    let mut i: usize = 0;
    while i < s.len()
        invariant
            i <= s@.len(),
            all_digits(s@.take(i as int)),
            sum == if value(s@.take(i as int)) <= LIMIT {
                value(s@.take(i as int)) as int
            } else {
                LIMIT + 1
            },
        decreases s.len() - i,
    {
        let c = s[i];
        if c < '0' || c > '9' {
            assert(!digit(s@[i as int]));
            return None;
        }
        proof {
            value_of_one_more(s@, i as int);
        }
        let d: i64 = (c as u32 - '0' as u32) as i64;
        let next: i64 = sum * 10 + d;
        sum = if next > LIMIT {
            LIMIT + 1
        } else {
            next
        };
        i = i + 1;
    }
    assert(s@.take(i as int) =~= s@);
    Some(sum)
}

/// Reads a number that fits into 32 bits.
pub fn parse_i32(s: &[char]) -> (n: Option<i32>)
    ensures
        n == parsed_i32(s@),
{
    if s.len() == 0 {
        return None;
    }
    let signed = s[0] == '-' || s[0] == '+';
    let start: usize = if signed {
        1
    } else {
        0
    };
    let digits = slice_subrange(s, start, s.len());
    assert(digits@ =~= if signed {
        s@.drop_first()
    } else {
        s@
    });
    if digits.len() == 0 {
        return None;
    }
    match read_digits(digits) {
        Some(sum) => {
            if s[0] == '-' {
                if sum <= LIMIT {
                    Some((-sum) as i32)
                } else {
                    None
                }
            } else if sum < LIMIT {
                Some(sum as i32)
            } else {
                None
            }
        },
        None => None,
    }
}

fn push_digits(out: &mut String, n: u32)
    ensures
        final(out)@ == old(out)@ + digits_of(n as nat),
    decreases n,
{
    if n >= 10 {
        push_digits(out, n / 10);
    }
    let d: u32 = n % 10;
    let c = if d == 0 {
        '0'
    } else if d == 1 {
        '1'
    } else if d == 2 {
        '2'
    } else if d == 3 {
        '3'
    } else if d == 4 {
        '4'
    } else if d == 5 {
        '5'
    } else if d == 6 {
        '6'
    } else if d == 7 {
        '7'
    } else if d == 8 {
        '8'
    } else {
        '9'
    };
    out.push(c);
    assert(out@ =~= old(out)@ + digits_of(n as nat));
}

/// Appends a number in decimal.
pub fn push_i32(out: &mut String, n: i32)
    ensures
        final(out)@ == old(out)@ + decimal(n as int),
{
    if n < 0 {
        out.push('-');
        push_digits(out, (-(n as i64)) as u32);
        assert(out@ =~= old(out)@ + decimal(n as int));
    } else {
        push_digits(out, n as u32);
    }
}

/// A number is read digit by digit: a digit stands for itself, and one more digit
/// behind a number makes it ten times as large and adds its own value, however
/// long the number already is.
pub proof fn digits_are_read_one_by_one(s: Seq<char>, c: char)
    requires
        '0' <= c <= '9',
    ensures
        parsed(seq![c]) == Some(c as int - '0' as int),
        s.len() > 0 && (forall|i: int| 0 <= i < s.len() ==> '0' <= #[trigger] s[i] <= '9') ==> (
        parsed(s) matches Some(n) && n >= 0 && parsed(s.push(c)) == Some(
            n * 10 + (c as int - '0' as int),
        )),
{
    let one = seq![c];
    assert(one.drop_last() =~= Seq::<char>::empty());
    assert(value(one.drop_last()) == 0);
    assert(digit(one[0]));
    if s.len() > 0 && (forall|i: int| 0 <= i < s.len() ==> '0' <= #[trigger] s[i] <= '9') {
        let t = s.push(c);
        assert(t.drop_last() =~= s);
        assert(s[0] == t[0]);
        assert(digit(s[0]));
        assert forall|i: int| 0 <= i < s.len() implies digit(#[trigger] s[i]) by {}
        assert forall|i: int| 0 <= i < t.len() implies digit(#[trigger] t[i]) by {
            if i < s.len() {
                assert(t[i] == s[i]);
            }
        }
    }
}

/// One sign may stand before the digits: a minus turns the number round, a plus
/// changes nothing.
pub proof fn sign_is_read(s: Seq<char>)
    requires
        s.len() > 0,
        forall|i: int| 0 <= i < s.len() ==> '0' <= #[trigger] s[i] <= '9',
    ensures
        parsed(s) is Some,
        parsed(seq!['-'] + s) == Some(-parsed(s)->0),
        parsed(seq!['+'] + s) == parsed(s),
{
    assert((seq!['-'] + s).drop_first() =~= s);
    assert((seq!['+'] + s).drop_first() =~= s);
    assert(digit(s[0]));
    assert forall|i: int| 0 <= i < s.len() implies digit(#[trigger] s[i]) by {}
}

/// Anything else is no number: an empty text, a sign on its own, or a text with
/// some other character in it.
pub proof fn anything_else_is_no_number(s: Seq<char>, at: int)
    requires
        s.len() == 0 || s == seq!['-'] || s == seq!['+'] || (0 <= at < s.len() && !('0' <= s[at]
            <= '9') && (at > 0 || (s[at] != '-' && s[at] != '+'))),
    ensures
        parsed(s) is None,
        parsed_i32(s) is None,
{
    if 0 <= at < s.len() && !('0' <= s[at] <= '9') && (at > 0 || (s[at] != '-' && s[at] != '+')) {
        if s[0] == '-' || s[0] == '+' {
            assert(s.drop_first()[at - 1] == s[at]);
            assert(!digit(s.drop_first()[at - 1]));
        } else {
            assert(!digit(s[at]));
        }
    } else {
        assert(s.len() > 0 ==> s.drop_first().len() == 0);
    }
}

/// A number of 32 bits is read exactly where the number fits into them.
pub proof fn numbers_that_fit_are_read(s: Seq<char>)
    ensures
        parsed(s) matches Some(n) ==> (if -2_147_483_648 <= n <= 2_147_483_647 {
            parsed_i32(s) matches Some(m) && m == n
        } else {
            parsed_i32(s) is None
        }),
        parsed(s) is None ==> parsed_i32(s) is None,
{
}

/// A number is written as people write it: digits without a zero in front, and a
/// minus before those of a negative one.
pub proof fn numbers_are_written_plainly(n: nat)
    ensures
        forall|i: int|
            0 <= i < decimal(n as int).len() ==> '0' <= #[trigger] decimal(n as int)[i] <= '9',
        n > 0 ==> decimal(n as int)[0] != '0',
        n == 0 ==> decimal(n as int) == seq!['0'],
        n > 0 ==> decimal(-n) == seq!['-'] + decimal(n as int),
    decreases n,
{
    digits_stand_for_number(n);
    assert forall|i: int| 0 <= i < decimal(n as int).len() implies '0' <= #[trigger] decimal(
        n as int,
    )[i] <= '9' by {
        assert(digit(digits_of(n)[i]));
    }
    if n >= 10 {
        numbers_are_written_plainly(n / 10);
        digits_stand_for_number(n / 10);
        assert(digits_of(n)[0] == digits_of(n / 10)[0]);
    }
}

/// The digits of a number stand for it.
pub proof fn digits_stand_for_number(n: nat)
    ensures
        digits_of(n).len() > 0,
        all_digits(digits_of(n)),
        value(digits_of(n)) == n,
    decreases n,
{
    if n < 10 {
        let s = digits_of(n);
        assert(s.drop_last() =~= Seq::<char>::empty());
        assert(value(s.drop_last()) == 0);
    } else {
        digits_stand_for_number(n / 10);
        let s = digits_of(n);
        assert(s.drop_last() =~= digits_of(n / 10));
        assert(all_digits(s)) by {
            assert forall|k: int| 0 <= k < s.len() implies digit(#[trigger] s[k]) by {
                if k < s.len() - 1 {
                    assert(s[k] == digits_of(n / 10)[k]);
                }
            }
        }
    }
}

/// A number that is written down in decimal is read back.
pub proof fn decimal_is_read_back(n: int)
    ensures
        parsed(decimal(n)) == Some(n),
        i32::MIN <= n <= i32::MAX ==> parsed_i32(decimal(n)) == Some(n as i32),
{
    let digits = digits_of(if n < 0 {
        (-n) as nat
    } else {
        n as nat
    });
    digits_stand_for_number(if n < 0 {
        (-n) as nat
    } else {
        n as nat
    });
    if n < 0 {
        assert(decimal(n).drop_first() =~= digits);
    } else {
        assert(digit(digits[0]));
    }
}

} // verus!
