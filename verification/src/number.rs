//! Reading integers from text.

use vstd::prelude::*;
use vstd::slice::slice_subrange;

verus! {

/// The value of a digit in the given radix, at most 16.
pub open spec fn digit_value(c: char, radix: nat) -> Option<nat> {
    let value = if '0' <= c <= '9' {
        c as int - 48
    } else if 'a' <= c <= 'f' {
        c as int - 87
    } else if 'A' <= c <= 'F' {
        c as int - 55
    } else {
        16
    };
    if value < radix {
        Some(value as nat)
    } else {
        None
    }
}

/// The value of a sequence of digits, most significant first.
pub open spec fn digits_value(s: Seq<char>, radix: nat) -> Option<nat>
    decreases s.len(),
{
    if s.len() == 0 {
        Some(0)
    } else {
        match (digits_value(s.drop_last(), radix), digit_value(s.last(), radix)) {
            (Some(value), Some(digit)) => Some(value * radix + digit),
            _ => None,
        }
    }
}

/// The value of at least one digit, which a plus sign may precede.
pub open spec fn unsigned_value(s: Seq<char>, radix: nat) -> Option<nat> {
    let digits = if s.len() > 0 && s[0] == '+' {
        s.skip(1)
    } else {
        s
    };
    if digits.len() == 0 {
        None
    } else {
        digits_value(digits, radix)
    }
}

/// The value of at least one decimal digit, which a sign may precede.
pub open spec fn signed_value(s: Seq<char>) -> Option<int> {
    if s.len() > 1 && s[0] == '-' {
        match digits_value(s.skip(1), 10) {
            Some(value) => Some(-(value as int)),
            None => None,
        }
    } else {
        match unsigned_value(s, 10) {
            Some(value) => Some(value as int),
            None => None,
        }
    }
}

/// `value`, unless it is larger than `maximum`.
pub open spec fn at_most(value: Option<nat>, maximum: nat) -> Option<nat> {
    if value is Some && value->0 <= maximum {
        value
    } else {
        None
    }
}

/// The number behind a read value.
pub open spec fn as_nat(value: Option<u64>) -> Option<nat> {
    match value {
        Some(value) => Some(value as nat),
        None => None,
    }
}

fn digit_of(c: char, radix: u64) -> (digit: Option<u64>)
    requires
        radix <= 16,
    ensures
        as_nat(digit) == digit_value(c, radix as nat),
{
    let code: u32 = c as u32;
    let value: u64 = if '0' <= c && c <= '9' {
        (code - 48) as u64
    } else if 'a' <= c && c <= 'f' {
        (code - 87) as u64
    } else if 'A' <= c && c <= 'F' {
        (code - 55) as u64
    } else {
        16
    };
    if value < radix {
        Some(value)
    } else {
        None
    }
}

/// A digit that does not belong there spoils every longer sequence.
proof fn bad_digits_stay_bad(s: Seq<char>, radix: nat, i: int)
    requires
        0 <= i <= s.len(),
        digits_value(s.take(i), radix) is None,
    ensures
        digits_value(s, radix) is None,
    decreases s.len(),
{
    if i < s.len() {
        assert(s.drop_last().take(i) =~= s.take(i));
        bad_digits_stay_bad(s.drop_last(), radix, i);
    } else {
        assert(s.take(i) =~= s);
    }
}

fn read_digits(chars: &[char], radix: u64, maximum: u64) -> (value: Option<u64>)
    requires
        2 <= radix <= 16,
    ensures
        as_nat(value) == at_most(digits_value(chars@, radix as nat), maximum as nat),
{
    let mut value: u64 = 0;
    let mut overflow: bool = false;
    for i in 0..chars.len()
        invariant
            2 <= radix <= 16,
            match digits_value(chars@.take(i as int), radix as nat) {
                Some(exact) => if overflow {
                    exact > u64::MAX
                } else {
                    exact == value
                },
                None => false,
            },
    {
        let ghost longer = chars@.take(i + 1);
        assert(longer.drop_last() =~= chars@.take(i as int));
        assert(longer.last() == chars@[i as int]);
        let ghost exact = digits_value(chars@.take(i as int), radix as nat)->0;
        let digit: u64 = match digit_of(chars[i], radix) {
            Some(digit) => digit,
            None => {
                proof {
                    bad_digits_stay_bad(chars@, radix as nat, i + 1);
                }
                return None;
            },
        };
        assert(exact * radix >= exact) by (nonlinear_arith)
            requires
                exact >= 0,
                radix >= 2,
        ;
        match value.checked_mul(radix) {
            Some(shifted) => match shifted.checked_add(digit) {
                Some(sum) => {
                    value = sum;
                },
                None => {
                    overflow = true;
                },
            },
            None => {
                overflow = true;
            },
        }
    }
    assert(chars@.take(chars@.len() as int) =~= chars@);
    if overflow || value > maximum {
        None
    } else {
        Some(value)
    }
}

/// Reads an unsigned number of at most `maximum`.
pub fn read_unsigned(chars: &[char], radix: u64, maximum: u64) -> (value: Option<u64>)
    requires
        2 <= radix <= 16,
    ensures
        as_nat(value) == at_most(unsigned_value(chars@, radix as nat), maximum as nat),
{
    let digits: &[char] = if chars.len() > 0 && chars[0] == '+' {
        slice_subrange(chars, 1, chars.len())
    } else {
        chars
    };
    assert(chars@.len() > 0 ==> chars@.skip(1) =~= chars@.subrange(1, chars@.len() as int));
    if digits.len() == 0 {
        return None;
    }
    read_digits(digits, radix, maximum)
}

/// Reads a signed 32-bit decimal number.
pub fn read_i32(chars: &[char]) -> (value: Option<i32>)
    ensures
        match signed_value(chars@) {
            Some(exact) if i32::MIN <= exact <= i32::MAX => value == Some(exact as i32),
            _ => value is None,
        },
{
    if chars.len() > 1 && chars[0] == '-' {
        assert(chars@.skip(1) =~= chars@.subrange(1, chars@.len() as int));
        match read_digits(slice_subrange(chars, 1, chars.len()), 10, 2_147_483_648) {
            Some(magnitude) => Some((-(magnitude as i64)) as i32),
            None => None,
        }
    } else {
        match read_unsigned(chars, 10, 2_147_483_647) {
            Some(value) => Some(value as i32),
            None => None,
        }
    }
}

/// A number that was written in decimal reads back as itself.
pub proof fn law_decimal_reads_back(n: nat)
    ensures
        unsigned_value(crate::text::decimal(n), 10) == Some(n),
{
    decimal_has_digits_only(n);
    assert(crate::text::decimal(n)[0] != '+') by {
        decimal_begins_with_a_digit(n);
    }
}

proof fn decimal_has_digits_only(n: nat)
    ensures
        digits_value(crate::text::decimal(n), 10) == Some(n),
        crate::text::decimal(n).len() > 0,
    decreases n,
{
    let s = crate::text::decimal(n);
    if n < 10 {
        assert(s.drop_last() =~= Seq::<char>::empty());
        assert(digits_value(s.drop_last(), 10) == Some(0nat));
    } else {
        decimal_has_digits_only(n / 10);
        assert(s.drop_last() =~= crate::text::decimal(n / 10));
    }
}

proof fn decimal_begins_with_a_digit(n: nat)
    ensures
        crate::text::decimal(n).len() > 0,
        '0' <= crate::text::decimal(n)[0] <= '9',
    decreases n,
{
    if n >= 10 {
        decimal_begins_with_a_digit(n / 10);
    }
}

/// Digits have the values that they are written for, letters count on from ten
/// in either case, and a digit is one only below the radix.
pub proof fn law_digits_have_their_values(c: char, radix: nat)
    requires
        2 <= radix <= 16,
    ensures
        0x30 <= c as u32 <= 0x39 && c as u32 - 0x30 < radix ==> digit_value(c, radix) == Some(
            (c as u32 - 0x30) as nat,
        ),
        0x61 <= c as u32 <= 0x66 && c as u32 - 0x61 + 10 < radix ==> digit_value(c, radix) == Some(
            (c as u32 - 0x61 + 10) as nat,
        ),
        0x41 <= c as u32 <= 0x46 && c as u32 - 0x41 + 10 < radix ==> digit_value(c, radix) == Some(
            (c as u32 - 0x41 + 10) as nat,
        ),
        digit_value(c, radix) is Some ==> digit_value(c, radix)->0 < radix && (0x30 <= c as u32
            <= 0x39 || 0x61 <= c as u32 <= 0x66 || 0x41 <= c as u32 <= 0x46),
{
}

/// The value of digits is positional: a digit that is appended counts the ones,
/// and what stood there counts radix times as much. Anything that is no digit
/// spoils the number.
pub proof fn law_values_are_positional(s: Seq<char>, c: char, radix: nat)
    ensures
        digits_value(Seq::<char>::empty(), radix) == Some(0nat),
        digits_value(s, radix) is Some && digit_value(c, radix) is Some ==> digits_value(
            s.push(c),
            radix,
        ) == Some(digits_value(s, radix)->0 * radix + digit_value(c, radix)->0),
        digits_value(s, radix) is None || digit_value(c, radix) is None ==> digits_value(
            s.push(c),
            radix,
        ) is None,
{
    assert(s.push(c).drop_last() =~= s);
}

/// A number may have one plus sign before its digits, a signed one a minus sign,
/// and without digits there is no number.
pub proof fn law_signs_stand_before_the_digits(digits: Seq<char>, radix: nat)
    requires
        radix <= 16,
        digits.len() > 0,
        digits[0] != '+',
        digits[0] != '-',
    ensures
        unsigned_value(digits, radix) == digits_value(digits, radix),
        unsigned_value(seq!['+'] + digits, radix) == digits_value(digits, radix),
        unsigned_value(seq!['-'] + digits, radix) is None,
        unsigned_value(Seq::<char>::empty(), radix) is None,
        unsigned_value(seq!['+'], radix) is None,
        signed_value(seq!['-']) is None,
        match digits_value(digits, 10) {
            Some(value) => signed_value(digits) == Some(value as int) && signed_value(
                seq!['-'] + digits,
            ) == Some(-(value as int)) && signed_value(seq!['+'] + digits) == Some(value as int),
            None => signed_value(digits) is None && signed_value(seq!['-'] + digits) is None
                && signed_value(seq!['+'] + digits) is None,
        },
{
    assert((seq!['+'] + digits).skip(1) =~= digits);
    assert((seq!['-'] + digits).skip(1) =~= digits);
    let minus = seq!['-'] + digits;
    assert(minus.take(1).drop_last() =~= Seq::<char>::empty());
    assert(minus.take(1).last() == '-');
    assert(digit_value('-', radix) is None) by {
        assert('-' as u32 == 0x2d);
    }
    assert(digits_value(minus.take(1), radix) is None);
    bad_digits_stay_bad(minus, radix, 1);
    assert(seq!['+'].skip(1) =~= Seq::<char>::empty());
    assert(digit_value('-', 10) is None);
    assert(seq!['-'].drop_last() =~= Seq::<char>::empty());
    assert(digits_value(seq!['-'], 10) is None);
}

/// A bounded reading gives the value, or nothing where it is too large.
pub proof fn law_bounded_readings_are_exact(value: Option<nat>, maximum: nat)
    ensures
        match at_most(value, maximum) {
            Some(read) => value == Some(read) && read <= maximum,
            None => value is None || value->0 > maximum,
        },
{
}

} // verus!
