//! The device's local time, and the literary excerpt that belongs to it.

use crate::literary_clock::{minute_index, LiteraryClockCorpus, LiteraryExcerpt};
use crate::number::read_unsigned;
use crate::text::{
    from_chars, slices, spells, split_at_char, split_once, to_chars, trim, CharSet,
};
use vstd::prelude::*;
use vstd::slice::slice_subrange;

verus! {

/// The local time in the forms that the shell needs.
#[derive(Debug, Clone, PartialEq, Eq)]
pub struct LocalClock {
    /// 24-hour `HH:MM`.
    pub minute_key: String,
    /// Year and day of the year.
    pub day_selector: u32,
    /// 12-hour label.
    pub display: String,
    /// Time zone label.
    pub timezone: String,
}

/// Tests whether a text is a 24-hour `HH:MM` key.
pub fn valid_minute_key(value: &str) -> (held: bool)
    ensures
        held == crate::literary_clock::minute_of(value@) is Some,
{
    minute_index(value).is_some()
}

/// Whether a text is a year of four digits and a day of the year of three.
pub open spec fn is_day_key(value: Seq<char>) -> bool {
    &&& value.len() == 7
    &&& CharSet::Digit.covers(value)
    &&& match crate::number::unsigned_value(value.skip(4), 10) {
        Some(day) => 1 <= day <= 366,
        None => false,
    }
}

/// Tests whether a text is a year of four digits and a day of the year of
/// three.
pub fn valid_day_key(value: &str) -> (held: bool)
    ensures
        held == is_day_key(value@),
{
    let chars: Vec<char> = to_chars(value);
    if chars.len() != 7 || !CharSet::Digit.test_all(chars.as_slice()) {
        return false;
    }
    let day: &[char] = slice_subrange(chars.as_slice(), 4, 7);
    assert(day@ =~= value@.skip(4));
    match read_unsigned(day, 10, 366) {
        Some(day) => day >= 1,
        None => false,
    }
}

/// Whether a text is a 12-hour label such as `9:41 AM`.
pub open spec fn is_time_label(value: Seq<char>) -> bool {
    match crate::text::split_first(value, ' ') {
        None => false,
        Some((clock, period)) => match crate::text::split_first(clock, ':') {
            None => false,
            Some((hour, minute)) => {
                &&& period == "AM"@ || period == "PM"@
                &&& match crate::number::unsigned_value(hour, 10) {
                    Some(hour) => 1 <= hour <= 12,
                    None => false,
                }
                &&& minute.len() == 2
                &&& CharSet::Digit.covers(minute)
                &&& match crate::number::unsigned_value(minute, 10) {
                    Some(minute) => minute <= 59,
                    None => false,
                }
            },
        },
    }
}

/// Tests whether a text is a 12-hour label.
pub fn valid_time_label(value: &str) -> (held: bool)
    ensures
        held == is_time_label(value@),
{
    let chars: Vec<char> = to_chars(value);
    let (clock, period): (&[char], &[char]) = match split_once(chars.as_slice(), ' ') {
        Some(pair) => pair,
        None => {
            return false;
        },
    };
    let (hour, minute): (&[char], &[char]) = match split_once(clock, ':') {
        Some(pair) => pair,
        None => {
            return false;
        },
    };
    let hour_fits: bool = match read_unsigned(hour, 10, 12) {
        Some(hour) => hour >= 1,
        None => false,
    };
    (spells(period, "AM") || spells(period, "PM")) && hour_fits && minute.len() == 2
        && CharSet::Digit.test_all(minute) && read_unsigned(minute, 10, 59).is_some()
}

/// Whether a text is a short time zone label.
pub open spec fn is_timezone_label(value: Seq<char>) -> bool {
    1 <= value.len() <= 16 && CharSet::TimezoneLabel.covers(value)
}

/// Tests whether a text is a short time zone label.
pub fn valid_timezone_label(value: &str) -> (held: bool)
    ensures
        held == is_timezone_label(value@),
{
    let chars: Vec<char> = to_chars(value);
    1 <= chars.len() && chars.len() <= 16 && CharSet::TimezoneLabel.test_all(chars.as_slice())
}

/// Whether clock output holds a minute key, a day key, a time label and a time
/// zone label, separated by bars.
pub open spec fn is_clock_output(output: Seq<char>) -> bool {
    let fields = crate::text::pieces(
        crate::text::trimmed(output, CharSet::Whitespace),
        '|',
    );
    &&& fields.len() == 4
    &&& crate::literary_clock::minute_of(fields[0]) is Some
    &&& is_day_key(fields[1])
    &&& is_time_label(fields[2])
    &&& is_timezone_label(fields[3])
}

/// Reads the clock output of the device.
pub fn parse_local_clock(output: &str) -> (clock: Option<LocalClock>)
    ensures
        ({
            let fields = crate::text::pieces(
                crate::text::trimmed(output@, CharSet::Whitespace),
                '|',
            );
            match clock {
                Some(clock) => {
                    &&& is_clock_output(output@)
                    &&& clock.minute_key@ == fields[0]
                    &&& crate::number::unsigned_value(fields[1], 10) == Some(
                        clock.day_selector as nat,
                    )
                    &&& clock.display@ == fields[2]
                    &&& clock.timezone@ == fields[3]
                },
                None => !is_clock_output(output@),
            }
        }),
{
    let chars: Vec<char> = to_chars(output);
    let value: &[char] = trim(chars.as_slice(), CharSet::Whitespace);
    let fields: Vec<&[char]> = split_at_char(value, '|');
    assert(slices(fields@) == crate::text::pieces(value@, '|'));
    if fields.len() != 4 {
        return None;
    }
    assert(slices(fields@)[0] == fields@[0]@ && slices(fields@)[1] == fields@[1]@);
    assert(slices(fields@)[2] == fields@[2]@ && slices(fields@)[3] == fields@[3]@);
    let minute_key: String = from_chars(fields[0]);
    let day_key: String = from_chars(fields[1]);
    let display: String = from_chars(fields[2]);
    let timezone: String = from_chars(fields[3]);
    if !valid_minute_key(minute_key.as_str()) || !valid_day_key(day_key.as_str())
        || !valid_time_label(display.as_str()) || !valid_timezone_label(timezone.as_str()) {
        return None;
    }
    proof {
        seven_digits_are_small(fields@[1]@);
    }
    match read_unsigned(fields[1], 10, 4_294_967_295) {
        Some(day) => Some(
            LocalClock { minute_key, day_selector: day as u32, display, timezone },
        ),
        None => None,
    }
}

/// Digits have a value, and seven of them make less than ten million.
proof fn seven_digits_are_small(s: Seq<char>)
    requires
        s.len() == 7,
        CharSet::Digit.covers(s),
    ensures
        crate::number::unsigned_value(s, 10) is Some,
        crate::number::unsigned_value(s, 10)->0 < 10_000_000,
{
    digits_have_a_value(s);
    assert(crate::number::digits_value(s, 10)->0 < power_of_ten(7));
    reveal_with_fuel(power_of_ten, 8);
    assert('0' <= s[0] <= '9');
}

/// Ten to the given power.
spec fn power_of_ten(n: nat) -> nat
    decreases n,
{
    if n == 0 {
        1
    } else {
        10 * power_of_ten((n - 1) as nat)
    }
}

proof fn digits_have_a_value(s: Seq<char>)
    requires
        CharSet::Digit.covers(s),
    ensures
        crate::number::digits_value(s, 10) is Some,
        crate::number::digits_value(s, 10)->0 < power_of_ten(s.len()),
    decreases s.len(),
{
    if s.len() > 0 {
        assert(CharSet::Digit.covers(s.drop_last()));
        digits_have_a_value(s.drop_last());
        assert(CharSet::Digit.has(s.last()));
    }
}

// ---------------------------------------------------------------------------
// Excerpt of the moment
// ---------------------------------------------------------------------------
/// A number below one hundred in two digits.
pub open spec fn two_digits(n: nat) -> Seq<char> {
    seq![crate::text::digit(n / 10), crate::text::digit(n % 10)]
}

/// The 24-hour `HH:MM` key of a minute of the day.
pub open spec fn minute_key_of(minute: nat) -> Seq<char> {
    two_digits(minute / 60) + seq![':'] + two_digits(minute % 60)
}

fn push_two_digits(out: &mut String, n: usize)
    requires
        n < 100,
    ensures
        final(out)@ == old(out)@ + two_digits(n as nat),
{
    out.push((48 + (n / 10) as u8) as char);
    out.push((48 + (n % 10) as u8) as char);
    assert(out@ =~= old(out)@ + two_digits(n as nat));
}

/// Formats the 24-hour `HH:MM` key of a minute of the day.
pub fn format_minute_key(minute: usize) -> (key: String)
    requires
        minute < 1_440,
    ensures
        key@ == minute_key_of(minute as nat),
{
    let mut key: String = String::new();
    push_two_digits(&mut key, minute / 60);
    key.push(':');
    push_two_digits(&mut key, minute % 60);
    assert(key@ =~= minute_key_of(minute as nat));
    key
}

proof fn two_digits_read_back(n: nat)
    requires
        n < 100,
    ensures
        crate::number::unsigned_value(two_digits(n), 10) == Some(n),
{
    let s = two_digits(n);
    let tens = crate::text::digit(n / 10);
    let ones = crate::text::digit(n % 10);
    assert(s.drop_last() =~= seq![tens]);
    assert(seq![tens].drop_last() =~= Seq::<char>::empty());
    assert(crate::number::digits_value(Seq::<char>::empty(), 10) == Some(0nat));
    assert(crate::number::digit_value(tens, 10) == Some(n / 10));
    assert(crate::number::digit_value(ones, 10) == Some(n % 10));
    assert(crate::number::digits_value(seq![tens], 10) == Some(n / 10));
}

/// The key of a minute of the day names that minute.
pub proof fn law_minute_keys_read_back(minute: nat)
    requires
        minute < 1_440,
    ensures
        crate::literary_clock::minute_of(minute_key_of(minute)) == Some(minute as int),
{
    let key = minute_key_of(minute);
    assert(key.take(2) =~= two_digits(minute / 60));
    assert(key.skip(3) =~= two_digits(minute % 60));
    two_digits_read_back(minute / 60);
    two_digits_read_back(minute % 60);
}

/// The first minute of the interval that a minute falls into.
pub open spec fn bucket(minute: int, interval: int) -> int {
    minute - minute % interval
}

/// The excerpt that belongs to a time: the one for the first minute of its
/// interval, chosen by the day. Without an interval there is none.
pub open spec fn excerpt_for(
    groups: Option<Seq<Seq<crate::literary_clock::Excerpt>>>,
    interval: u16,
    clock: LocalClock,
) -> Option<crate::literary_clock::Excerpt> {
    match (groups, crate::literary_clock::minute_of(clock.minute_key@)) {
        (Some(groups), Some(minute)) => if interval == 0 {
            None
        } else {
            LiteraryClockCorpus::chosen(
                groups,
                minute_key_of(bucket(minute, interval as int) as nat),
                clock.day_selector as u64,
            )
        },
        _ => None,
    }
}

/// Returns the excerpt that belongs to a time.
pub fn current_literary_excerpt<'a>(
    corpus: &'a Option<LiteraryClockCorpus>,
    interval_minutes: u16,
    clock: &LocalClock,
) -> (excerpt: Option<&'a LiteraryExcerpt>)
    ensures
        ({
            let groups = match corpus {
                Some(corpus) => Some(corpus@),
                None => None,
            };
            match excerpt {
                Some(excerpt) => excerpt_for(groups, interval_minutes, *clock) == Some(excerpt@),
                None => excerpt_for(groups, interval_minutes, *clock) is None,
            }
        }),
{
    let interval: usize = interval_minutes as usize;
    if interval == 0 {
        return None;
    }
    match (minute_index(clock.minute_key.as_str()), corpus) {
        (Some(minute), Some(corpus)) => {
            proof {
                vstd::arithmetic::div_mod::lemma_mod_decreases(minute as nat, interval as nat);
            }
            let first: usize = minute - minute % interval;
            corpus.excerpt_at(format_minute_key(first).as_str(), clock.day_selector as u64)
        },
        _ => None,
    }
}

/// Day keys are a year of four digits and a day of the year in three, of which
/// the first is 1 and the last 366.
pub proof fn law_day_keys_end_with_a_day(year: Seq<char>, day: nat, other: Seq<char>)
    requires
        year.len() == 4,
        CharSet::Digit.covers(year),
        day < 1_000,
    ensures
        is_day_key(
            year + seq![
                crate::text::digit(day / 100),
                crate::text::digit(day / 10 % 10),
                crate::text::digit(day % 10),
            ],
        ) <==> 1 <= day <= 366,
        other.len() != 7 || !CharSet::Digit.covers(other) ==> !is_day_key(other),
{
    let hundreds = crate::text::digit(day / 100);
    let tens = crate::text::digit(day / 10 % 10);
    let ones = crate::text::digit(day % 10);
    let three = seq![hundreds, tens, ones];
    let key = year + three;
    assert(key.skip(4) =~= three);
    let none = Seq::<char>::empty();
    crate::number::law_values_are_positional(none, hundreds, 10);
    assert(none.push(hundreds) =~= seq![hundreds]);
    crate::number::law_values_are_positional(seq![hundreds], tens, 10);
    assert(seq![hundreds].push(tens) =~= seq![hundreds, tens]);
    crate::number::law_values_are_positional(seq![hundreds, tens], ones, 10);
    assert(seq![hundreds, tens].push(ones) =~= three);
    assert(crate::number::unsigned_value(three, 10) == Some(day));
    assert(CharSet::Digit.covers(key)) by {
        assert forall|i: int| 0 <= i < key.len() implies CharSet::Digit.has(#[trigger] key[i]) by {
            if i < 4 {
                assert(CharSet::Digit.has(year[i]));
            }
        }
    }
}

/// A time label is taken apart at its first space and its first colon; without
/// them, or with an hour that is no number, it is none.
pub proof fn law_labels_are_taken_apart(hour: Seq<char>, minute: Seq<char>, period: Seq<char>)
    requires
        !hour.contains(':'),
        !hour.contains(' '),
        !minute.contains(' '),
    ensures
        is_time_label(hour + seq![':'] + minute + seq![' '] + period) <==> {
            &&& period == "AM"@ || period == "PM"@
            &&& crate::number::unsigned_value(hour, 10) matches Some(h) && 1 <= h <= 12
            &&& minute.len() == 2 && CharSet::Digit.covers(minute)
            &&& crate::number::unsigned_value(minute, 10) matches Some(m) && m <= 59
        },
        !is_time_label(minute + seq![' '] + period) || minute.contains(':'),
        !is_time_label(minute),
{
    crate::text::law_the_first_separator_splits(minute, ' ', period);
    if !minute.contains(':') {
        crate::text::law_the_first_separator_splits(minute, ':', period);
    }
    let clock = hour + seq![':'] + minute;
    assert(!clock.contains(' ')) by {
        assert forall|i: int| 0 <= i < clock.len() implies clock[i] != ' ' by {
            if i < hour.len() {
                assert(hour.contains(hour[i]));
            } else if i > hour.len() {
                assert(minute.contains(minute[i - hour.len() - 1]));
            }
        }
    }
    crate::text::law_the_first_separator_splits(clock, ' ', period);
    crate::text::law_the_first_separator_splits(hour, ':', minute);
}

/// A time label is an hour from 1 to 12, a colon, a minute of two digits up to
/// 59, a space and the half of the day.
pub proof fn law_time_labels_name_hours_and_minutes(hour: nat, minute: nat, period: Seq<char>)
    requires
        hour < 100,
        minute < 100,
    ensures
        is_time_label(
            two_digits(hour) + seq![':'] + two_digits(minute) + seq![' '] + period,
        ) <==> 1 <= hour <= 12 && minute <= 59 && (period == "AM"@ || period == "PM"@),
        hour < 10 ==> (is_time_label(
            seq![crate::text::digit(hour)] + seq![':'] + two_digits(minute) + seq![' '] + period,
        ) <==> 1 <= hour && minute <= 59 && (period == "AM"@ || period == "PM"@)),
{
    two_digits_read_back(hour);
    two_digits_read_back(minute);
    law_labels_are_taken_apart(two_digits(hour), two_digits(minute), period);
    if hour < 10 {
        let one = crate::text::digit(hour);
        let none = Seq::<char>::empty();
        crate::number::law_values_are_positional(none, one, 10);
        assert(none.push(one) =~= seq![one]);
        law_labels_are_taken_apart(seq![one], two_digits(minute), period);
    }
}

/// The clock's output is four fields with bars between them, white space around
/// them aside: the minute, the day, the time of day and the time zone.
pub proof fn law_clock_outputs_have_four_fields(fields: Seq<Seq<char>>)
    requires
        fields.len() > 0,
        forall|i: int| 0 <= i < fields.len() ==> !(#[trigger] fields[i]).contains('|'),
        crate::text::trimmed(crate::text::joined(fields, seq!['|']), CharSet::Whitespace)
            == crate::text::joined(fields, seq!['|']),
    ensures
        is_clock_output(crate::text::joined(fields, seq!['|'])) <==> {
            &&& fields.len() == 4
            &&& crate::literary_clock::minute_of(fields[0]) is Some
            &&& is_day_key(fields[1])
            &&& is_time_label(fields[2])
            &&& is_timezone_label(fields[3])
        },
{
    crate::text::law_joined_pieces_are_found_again(fields, '|');
}

/// A time zone is named by 1 to 16 letters, digits, signs, underscores and
/// slashes.
pub proof fn law_time_zones_have_short_names(value: Seq<char>)
    ensures
        is_timezone_label(value) <==> {
            &&& 1 <= value.len() <= 16
            &&& forall|i: int|
                0 <= i < value.len() ==> {
                    let c = #[trigger] value[i];
                    ||| 'a' <= c <= 'z'
                    ||| 'A' <= c <= 'Z'
                    ||| '0' <= c <= '9'
                    ||| c == '+' || c == '-' || c == '_' || c == '/'
                }
        },
{
    if is_timezone_label(value) {
        assert forall|i: int| 0 <= i < value.len() implies {
            let c = #[trigger] value[i];
            ||| 'a' <= c <= 'z'
            ||| 'A' <= c <= 'Z'
            ||| '0' <= c <= '9'
            ||| c == '+' || c == '-' || c == '_' || c == '/'
        } by {
            assert(CharSet::TimezoneLabel.has(value[i]));
        }
    }
}

/// A time belongs to the interval that begins at the last multiple of its length
/// that is not later; its excerpt is that of the interval's first minute.
pub proof fn law_excerpts_stay_for_their_interval(
    groups: Seq<Seq<crate::literary_clock::Excerpt>>,
    interval: u16,
    clock: LocalClock,
    other: LocalClock,
    first: nat,
)
    requires
        interval > 0,
        first as int % interval as int == 0,
        crate::literary_clock::minute_of(clock.minute_key@) matches Some(minute) && first <= minute
            < first + interval,
        crate::literary_clock::minute_of(other.minute_key@) matches Some(minute) && first <= minute
            < first + interval,
        clock.day_selector == other.day_selector,
    ensures
        excerpt_for(Some(groups), interval, clock) == excerpt_for(Some(groups), interval, other),
        excerpt_for(Some(groups), interval, clock) == LiteraryClockCorpus::chosen(
            groups,
            minute_key_of(first),
            clock.day_selector as u64,
        ),
        excerpt_for(None, interval, clock) is None,
        excerpt_for(Some(groups), 0, clock) is None,
{
    let minute = crate::literary_clock::minute_of(clock.minute_key@)->0;
    let later = crate::literary_clock::minute_of(other.minute_key@)->0;
    buckets_begin_at_multiples(minute, interval as int, first as int);
    buckets_begin_at_multiples(later, interval as int, first as int);
}

proof fn buckets_begin_at_multiples(minute: int, interval: int, first: int)
    requires
        interval > 0,
        first >= 0,
        first % interval == 0,
        first <= minute < first + interval,
    ensures
        bucket(minute, interval) == first,
{
    vstd::arithmetic::div_mod::lemma_fundamental_div_mod(first, interval);
    let times = first / interval;
    assert(times * interval == interval * times) by (nonlinear_arith);
    vstd::arithmetic::div_mod::lemma_fundamental_div_mod_converse(
        minute,
        interval,
        times,
        minute - first,
    );
}

} // verus!
