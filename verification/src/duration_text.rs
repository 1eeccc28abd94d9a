//! The duration field of a time entry as text: `[-]H:MM:SS`.
//!
//! Reading is lenient, writing is canonical. A text is first freed of a
//! leading minus sign, then cut at its colons; the first three fields are
//! read as signed decimal numbers of hours, minutes and seconds, and further
//! fields are ignored. Writing gives hours without padding, and minutes and
//! seconds below sixty with two digits each.
use vstd::prelude::*;

verus! {

/// Whether `c` is one of the ten decimal digits.
pub open spec fn is_decimal_digit(c: char) -> bool {
    '0' <= c <= '9'
}

/// Whether `text` holds decimal digits only.
pub open spec fn all_decimal_digits(text: Seq<char>) -> bool {
    forall|i: int| 0 <= i < text.len() ==> is_decimal_digit(#[trigger] text[i])
}

/// The digit that stands for `value`, for `0 <= value < 10`.
pub open spec fn decimal_digit(value: int) -> char {
    if value == 0 {
        '0'
    } else if value == 1 {
        '1'
    } else if value == 2 {
        '2'
    } else if value == 3 {
        '3'
    } else if value == 4 {
        '4'
    } else if value == 5 {
        '5'
    } else if value == 6 {
        '6'
    } else if value == 7 {
        '7'
    } else if value == 8 {
        '8'
    } else {
        '9'
    }
}

/// The number that a run of decimal digits denotes.
pub open spec fn digits_value(text: Seq<char>) -> int
    decreases text.len(),
{
    if text.len() == 0 {
        0
    } else {
        10 * digits_value(text.drop_last()) + (text.last() as int - '0' as int)
    }
}

/// A natural number in decimal, without leading zeros.
pub open spec fn decimal_text(value: int) -> Seq<char>
    decreases value,
{
    if value < 10 {
        seq![decimal_digit(value)]
    } else {
        decimal_text(value / 10).push(decimal_digit(value % 10))
    }
}

/// A number below one hundred in two digits.
pub open spec fn two_digit_text(value: int) -> Seq<char> {
    seq![decimal_digit(value / 10), decimal_digit(value % 10)]
}

/// A signed decimal number as the fields of a duration admit it: an
/// optional sign, then one digit or more, with a value that fits 64 bits.
pub open spec fn signed_number_of_text(text: Seq<char>) -> Option<int> {
    let signed = text.len() > 0 && (text[0] == '-' || text[0] == '+');
    let digits = if signed {
        text.skip(1)
    } else {
        text
    };
    let magnitude = digits_value(digits);
    let value = if signed && text[0] == '-' {
        -magnitude
    } else {
        magnitude
    };
    if digits.len() > 0 && all_decimal_digits(digits) && i64::MIN <= value <= i64::MAX {
        Some(value)
    } else {
        None
    }
}

/// Position of the first colon in `text`, or its length if it has none.
pub open spec fn first_colon(text: Seq<char>) -> int
    decreases text.len(),
{
    if text.len() == 0 || text[0] == ':' {
        0
    } else {
        1 + first_colon(text.skip(1))
    }
}

/// The field before the first colon.
pub open spec fn head_field(text: Seq<char>) -> Seq<char> {
    text.take(first_colon(text))
}

/// What follows the first colon, if there is a colon.
pub open spec fn after_head_field(text: Seq<char>) -> Option<Seq<char>> {
    if first_colon(text) < text.len() {
        Some(text.skip(first_colon(text) + 1))
    } else {
        None
    }
}

/// Seconds in `hours:minutes:seconds`, if they fit 64 bits with either sign.
pub open spec fn total_seconds(hours: int, minutes: int, seconds: int, negative: bool) -> Option<
    int,
> {
    let total = hours * 3600 + minutes * 60 + seconds;
    if i64::MIN < total <= i64::MAX {
        Some(
            if negative {
                -total
            } else {
                total
            },
        )
    } else {
        None
    }
}

/// The signed number of seconds that a duration text denotes.
pub open spec fn duration_of_text(text: Seq<char>) -> Option<int> {
    if text.len() == 0 {
        None
    } else {
        let negative = text[0] == '-';
        let body = if negative {
            text.skip(1)
        } else {
            text
        };
        match after_head_field(body) {
            None => None,
            Some(rest) => match after_head_field(rest) {
                None => None,
                Some(last) => match (
                    signed_number_of_text(head_field(body)),
                    signed_number_of_text(head_field(rest)),
                    signed_number_of_text(head_field(last)),
                ) {
                    (Some(h), Some(m), Some(s)) => total_seconds(h, m, s, negative),
                    _ => None,
                },
            },
        }
    }
}

/// The canonical text of a duration of `seconds`.
pub open spec fn duration_text(seconds: int) -> Seq<char> {
    let magnitude = if seconds < 0 {
        -seconds
    } else {
        seconds
    };
    let sign = if seconds < 0 {
        seq!['-']
    } else {
        Seq::<char>::empty()
    };
    sign + decimal_text(magnitude / 3600) + seq![':'] + two_digit_text(magnitude % 3600 / 60)
        + seq![':'] + two_digit_text(magnitude % 60)
}

/// `String::push` appends one character to a text.
pub assume_specification[ String::push ](text: &mut String, c: char)
    ensures
        final(text)@ == old(text)@.push(c),
;

/// The characters of a text.
pub fn chars_of(text: &str) -> (chars: Vec<char>)
    ensures
        chars@ == text@,
{
    let n = text.unicode_len();
    let mut chars: Vec<char> = Vec::new();
    let mut i: usize = 0;
    while i < n
        invariant
            n == text@.len(),
            i <= n,
            chars@ == text@.take(i as int),
        decreases n - i,
    {
        chars.push(text.get_char(i));
        i += 1;
        assert(chars@ == text@.take(i as int));
    }
    assert(text@.take(n as int) == text@);
    chars
}

/// If `text` has no colon before `k`, and a colon or its end at `k`, its
/// first field ends at `k`.
proof fn lemma_first_colon_at(text: Seq<char>, k: int)
    requires
        0 <= k <= text.len(),
        forall|j: int| 0 <= j < k ==> text[j] != ':',
        k == text.len() || text[k] == ':',
    ensures
        first_colon(text) == k,
    decreases k,
{
    if k == 0 {
    } else {
        let rest = text.skip(1);
        assert forall|j: int| 0 <= j < k - 1 implies rest[j] != ':' by {
            assert(rest[j] == text[j + 1]);
        }
        if k < text.len() {
            assert(rest[k - 1] == text[k]);
        }
        lemma_first_colon_at(rest, k - 1);
    }
}

/// End of the field that starts at `start`: the next colon, or the end of the text.
fn field_end(chars: &Vec<char>, start: usize) -> (end: usize)
    requires
        start <= chars.len(),
    ensures
        start <= end <= chars.len(),
        end == start + first_colon(chars@.skip(start as int)),
{
    let mut i: usize = start;
    while i < chars.len() && chars[i] != ':'
        invariant
            start <= i <= chars.len(),
            forall|j: int| start <= j < i ==> chars@[j] != ':',
        decreases chars.len() - i,
    {
        i += 1;
    }
    proof {
        let rest = chars@.skip(start as int);
        assert forall|j: int| 0 <= j < i - start implies rest[j] != ':' by {
            assert(rest[j] == chars@[start + j]);
        }
        lemma_first_colon_at(rest, i - start);
    }
    i
}

/// The value of a run of digits is at least the value of each of its
/// beginnings, and none is negative.
proof fn lemma_digits_value_grows(text: Seq<char>, k: int)
    requires
        0 <= k <= text.len(),
        all_decimal_digits(text),
    ensures
        0 <= digits_value(text.take(k)) <= digits_value(text),
    decreases text.len(),
{
    if text.len() == 0 {
        assert(text.take(k) == text);
    } else if k == text.len() {
        assert(text.take(k) == text);
        lemma_digits_value_grows(text.drop_last(), 0);
        assert(is_decimal_digit(text.last()));
        lemma_digits_value_grows(text.drop_last(), text.len() - 1);
        assert(text.drop_last().take(text.len() - 1) == text.drop_last());
    } else {
        assert(text.drop_last().take(k) == text.take(k));
        assert forall|i: int| 0 <= i < text.drop_last().len() implies is_decimal_digit(
            #[trigger] text.drop_last()[i],
        ) by {
            assert(text.drop_last()[i] == text[i]);
        }
        lemma_digits_value_grows(text.drop_last(), k);
        lemma_digits_value_grows(text.drop_last(), text.len() - 1);
        assert(text.drop_last().take(text.len() - 1) == text.drop_last());
        assert(is_decimal_digit(text.last()));
    }
}

/// Reads the field `chars[start..end]` as a signed decimal number.
#[verifier::loop_isolation(false)]
fn parse_signed_number(chars: &Vec<char>, start: usize, end: usize) -> (value: Option<i64>)
    requires
        start <= end <= chars.len(),
    ensures
        match value {
            Some(v) => signed_number_of_text(chars@.subrange(start as int, end as int)) == Some(
                v as int,
            ),
            None => signed_number_of_text(chars@.subrange(start as int, end as int)) is None,
        },
{
    let ghost field = chars@.subrange(start as int, end as int);
    let mut i: usize = start;
    let mut negative = false;
    if i < end && (chars[i] == '-' || chars[i] == '+') {
        negative = chars[i] == '-';
        i += 1;
    }
    let first = i;
    let ghost digits = chars@.subrange(first as int, end as int);
    proof {
        assert(field.len() > 0 ==> field[0] == chars@[start as int]);
        if first > start {
            assert(field.skip(1) == digits);
        } else {
            assert(field == digits);
        }
    }
    if i == end {
        return None;
    }
    let mut magnitude: i128 = 0;
    while i < end
        invariant
            first <= i <= end <= chars.len(),
            digits == chars@.subrange(first as int, end as int),
            all_decimal_digits(digits.take(i - first)),
            magnitude == digits_value(digits.take(i - first)),
            0 <= magnitude <= 0x8000_0000_0000_0000,
        decreases end - i,
    {
        let c = chars[i];
        if !('0' <= c && c <= '9') {
            proof {
                assert(digits[i - first] == c);
            }
            return None;
        }
        let digit: i128 = (c as u32 - '0' as u32) as i128;
        let ghost before = digits.take(i - first);
        magnitude = magnitude * 10 + digit;
        i += 1;
        proof {
            let now = digits.take(i - first);
            assert(now.drop_last() == before);
            assert(now.last() == c);
            assert forall|j: int| 0 <= j < now.len() implies is_decimal_digit(
                #[trigger] now[j],
            ) by {
                if j < now.len() - 1 {
                    assert(now[j] == before[j]);
                }
            }
        }
        if magnitude > 0x8000_0000_0000_0000 {
            proof {
                if all_decimal_digits(digits) {
                    lemma_digits_value_grows(digits, i - first);
                }
            }
            return None;
        }
    }
    proof {
        assert(digits.take(i - first) == digits);
    }
    let value: i128 = if negative {
        -magnitude
    } else {
        magnitude
    };
    if value < i64::MIN as i128 || value > i64::MAX as i128 {
        None
    } else {
        Some(value as i64)
    }
}

/// Reads a duration written as `[-]H:MM:SS`.
///
/// `None` for an empty text, for fewer than three fields, for a field that
/// is no signed decimal number, and for a total that does not fit 64 bits.
pub fn parse_duration(text: &str) -> (seconds: Option<i64>)
    ensures
        match seconds {
            Some(s) => duration_of_text(text@) == Some(s as int),
            None => duration_of_text(text@) is None,
        },
{
    let chars = chars_of(text);
    if chars.len() == 0 {
        return None;
    }
    let negative = chars[0] == '-';
    let start: usize = if negative {
        1
    } else {
        0
    };
    let ghost body = chars@.skip(start as int);
    assert(body == if negative {
        text@.skip(1)
    } else {
        text@
    });
    let hours_end = field_end(&chars, start);
    if hours_end >= chars.len() {
        return None;
    }
    let ghost rest = chars@.skip(hours_end + 1);
    assert(body.skip(first_colon(body) + 1) == rest);
    let minutes_end = field_end(&chars, hours_end + 1);
    if minutes_end >= chars.len() {
        return None;
    }
    let ghost last = chars@.skip(minutes_end + 1);
    let seconds_end = field_end(&chars, minutes_end + 1);
    proof {
        assert(rest.skip(first_colon(rest) + 1) == last);
        assert(head_field(body) == chars@.subrange(start as int, hours_end as int));
        assert(head_field(rest) == chars@.subrange(hours_end + 1, minutes_end as int));
        assert(head_field(last) == chars@.subrange(minutes_end + 1, seconds_end as int));
    }
    let hours = parse_signed_number(&chars, start, hours_end);
    let minutes = parse_signed_number(&chars, hours_end + 1, minutes_end);
    let seconds = parse_signed_number(&chars, minutes_end + 1, seconds_end);
    match (hours, minutes, seconds) {
        (Some(h), Some(m), Some(s)) => {
            let total: i128 = h as i128 * 3600 + m as i128 * 60 + s as i128;
            if total <= i64::MIN as i128 || total > i64::MAX as i128 {
                None
            } else if negative {
                Some((-total) as i64)
            } else {
                Some(total as i64)
            }
        },
        _ => None,
    }
}

/// The digit that stands for `value`.
fn digit_char(value: u8) -> (c: char)
    requires
        value < 10,
    ensures
        c == decimal_digit(value as int),
{
    if value == 0 {
        '0'
    } else if value == 1 {
        '1'
    } else if value == 2 {
        '2'
    } else if value == 3 {
        '3'
    } else if value == 4 {
        '4'
    } else if value == 5 {
        '5'
    } else if value == 6 {
        '6'
    } else if value == 7 {
        '7'
    } else if value == 8 {
        '8'
    } else {
        '9'
    }
}

/// Appends a natural number in decimal, without leading zeros.
fn push_decimal(text: &mut String, value: u128)
    ensures
        final(text)@ == old(text)@ + decimal_text(value as int),
    decreases value,
{
    if value >= 10 {
        push_decimal(text, value / 10);
    }
    text.push(digit_char((value % 10) as u8));
}

/// Appends a number below one hundred in two digits.
fn push_two_digits(text: &mut String, value: u128)
    requires
        value < 100,
    ensures
        final(text)@ == old(text)@ + two_digit_text(value as int),
{
    text.push(digit_char((value / 10) as u8));
    text.push(digit_char((value % 10) as u8));
}

/// Writes a duration of `seconds` as `[-]H:MM:SS`.
pub fn format_duration(seconds: i128) -> (text: String)
    ensures
        text@ == duration_text(seconds as int),
{
    let mut text = String::new();
    let magnitude: u128 = if seconds < 0 {
        text.push('-');
        if seconds == i128::MIN {
            0x8000_0000_0000_0000_0000_0000_0000_0000u128
        } else {
            (-seconds) as u128
        }
    } else {
        seconds as u128
    };
    push_decimal(&mut text, magnitude / 3600);
    text.push(':');
    push_two_digits(&mut text, magnitude % 3600 / 60);
    text.push(':');
    push_two_digits(&mut text, magnitude % 60);
    text
}

/// A digit is a decimal digit with the value it stands for.
proof fn lemma_decimal_digit(value: int)
    requires
        0 <= value < 10,
    ensures
        is_decimal_digit(decimal_digit(value)),
        decimal_digit(value) as int - '0' as int == value,
        decimal_digit(value) != ':',
        decimal_digit(value) != '-',
        decimal_digit(value) != '+',
{
}

/// The decimal text of a natural number is a run of digits with that value.
pub proof fn lemma_decimal_text(value: int)
    requires
        0 <= value,
    ensures
        decimal_text(value).len() > 0,
        all_decimal_digits(decimal_text(value)),
        digits_value(decimal_text(value)) == value,
    decreases value,
{
    let text = decimal_text(value);
    if value < 10 {
        lemma_decimal_digit(value);
        assert(text.drop_last() == Seq::<char>::empty());
        assert(digits_value(text.drop_last()) == 0);
    } else {
        lemma_decimal_text(value / 10);
        lemma_decimal_digit(value % 10);
        let front = decimal_text(value / 10);
        assert(text.drop_last() == front);
        assert forall|i: int| 0 <= i < text.len() implies is_decimal_digit(#[trigger] text[i]) by {
            if i < text.len() - 1 {
                assert(text[i] == front[i]);
            }
        }
    }
}

/// Two digits are a run of digits with the value they were written for.
proof fn lemma_two_digit_text(value: int)
    requires
        0 <= value < 100,
    ensures
        two_digit_text(value).len() == 2,
        all_decimal_digits(two_digit_text(value)),
        digits_value(two_digit_text(value)) == value,
{
    let text = two_digit_text(value);
    lemma_decimal_digit(value / 10);
    lemma_decimal_digit(value % 10);
    let front = text.drop_last();
    assert(front == seq![decimal_digit(value / 10)]);
    assert(front.drop_last() == Seq::<char>::empty());
    assert(digits_value(front.drop_last()) == 0);
    assert(digits_value(front) == value / 10);
}

/// A run of digits whose value fits 64 bits reads as that value.
proof fn lemma_digits_read_back(text: Seq<char>)
    requires
        text.len() > 0,
        all_decimal_digits(text),
        digits_value(text) <= i64::MAX,
    ensures
        signed_number_of_text(text) == Some(digits_value(text)),
{
    assert(is_decimal_digit(text[0]));
    lemma_digits_value_grows(text, 0);
    assert(text.take(text.len() as int) == text);
}

/// A run of digits followed by a colon ends its field at the colon.
proof fn lemma_field_of_digits(digits: Seq<char>, rest: Seq<char>)
    requires
        all_decimal_digits(digits),
    ensures
        first_colon(digits + seq![':'] + rest) == digits.len(),
        head_field(digits + seq![':'] + rest) == digits,
        after_head_field(digits + seq![':'] + rest) == Some(rest),
        first_colon(digits) == digits.len(),
        head_field(digits) == digits,
{
    let text = digits + seq![':'] + rest;
    assert forall|j: int| 0 <= j < digits.len() implies text[j] != ':' && digits[j] != ':' by {
        assert(text[j] == digits[j]);
        assert(is_decimal_digit(digits[j]));
    }
    assert(text[digits.len() as int] == ':');
    lemma_first_colon_at(text, digits.len() as int);
    lemma_first_colon_at(digits, digits.len() as int);
    assert(text.take(digits.len() as int) == digits);
    assert(text.skip(digits.len() as int + 1) == rest);
    assert(digits.take(digits.len() as int) == digits);
}

/// Writing a duration and reading the text back gives the duration: for
/// every number of seconds whose magnitude fits 64 bits, negative ones
/// included.
pub proof fn lemma_duration_text_round_trip(seconds: int)
    requires
        i64::MIN < seconds <= i64::MAX,
    ensures
        duration_of_text(duration_text(seconds)) == Some(seconds),
{
    let negative = seconds < 0;
    let magnitude = if negative {
        -seconds
    } else {
        seconds
    };
    let h = magnitude / 3600;
    let m = magnitude % 3600 / 60;
    let s = magnitude % 60;
    let hours = decimal_text(h);
    let minutes = two_digit_text(m);
    let secs = two_digit_text(s);
    let colon = seq![':'];
    let last = secs;
    let rest = minutes + colon + last;
    let body = hours + colon + rest;
    let text = duration_text(seconds);
    lemma_decimal_text(h);
    lemma_two_digit_text(m);
    lemma_two_digit_text(s);
    assert(is_decimal_digit(hours[0]));
    if negative {
        assert(text == seq!['-'] + body);
        assert(text[0] == '-');
        assert(text.skip(1) == body);
    } else {
        assert(text == body);
        assert(text[0] == hours[0]);
    }
    lemma_field_of_digits(hours, rest);
    lemma_field_of_digits(minutes, last);
    lemma_field_of_digits(secs, Seq::<char>::empty());
    lemma_digits_read_back(hours);
    lemma_digits_read_back(minutes);
    lemma_digits_read_back(secs);
    assert(h * 3600 + m * 60 + s == magnitude);
}

} // verus!
