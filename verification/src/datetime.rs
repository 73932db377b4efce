//! The fixed-pattern date-time codec: `YYYY-MM-DD HH:MM:SS+00:00`,
//! zero-padded, 24-hour clock, literal `+00:00` suffix. No other offset and
//! no other shape is accepted.

use vstd::prelude::*;
use crate::err::digit_char;

verus! {

broadcast use vstd::seq::group_seq_axioms;

/// A calendar date and time of day, always at offset zero. Pure values;
/// `wf` says the fields name a real moment.
#[derive(Debug, Clone, Copy, PartialEq, Eq, Structural)]
pub struct DateTime {
    pub year: u16,
    pub month: u8,
    pub day: u8,
    pub hour: u8,
    pub minute: u8,
    pub second: u8,
}

impl View for DateTime {
    type V = DateTime;

    open spec fn view(&self) -> DateTime {
        *self
    }
}

/// Proleptic-Gregorian leap years.
pub open spec fn is_leap_year(y: int) -> bool {
    y % 4 == 0 && (y % 100 != 0 || y % 400 == 0)
}

/// The number of days of a month.
pub open spec fn days_in_month(y: int, m: int) -> int {
    if m == 2 {
        if is_leap_year(y) {
            29
        } else {
            28
        }
    } else if m == 4 || m == 6 || m == 9 || m == 11 {
        30
    } else {
        31
    }
}

impl DateTime {
    /// The fields name a real moment of a four-digit year.
    pub open spec fn wf(&self) -> bool {
        &&& self.year <= 9999
        &&& 1 <= self.month <= 12
        &&& 1 <= self.day <= days_in_month(self.year as int, self.month as int)
        &&& self.hour <= 23
        &&& self.minute <= 59
        &&& self.second <= 59
    }
}

/// Whether `c` is a decimal digit.
pub open spec fn is_dec_digit(c: char) -> bool {
    '0' <= c && c <= '9'
}

/// The value of a decimal digit.
pub open spec fn dec_digit_val(c: char) -> int {
    c as int - '0' as int
}

/// Two zero-padded digits.
pub open spec fn two_digits(n: int) -> Seq<char> {
    seq![digit_char(((n / 10) % 10) as nat), digit_char((n % 10) as nat)]
}

/// Four zero-padded digits.
pub open spec fn four_digits(n: int) -> Seq<char> {
    seq![
        digit_char(((n / 1000) % 10) as nat),
        digit_char(((n / 100) % 10) as nat),
        digit_char(((n / 10) % 10) as nat),
        digit_char((n % 10) as nat),
    ]
}

/// The wire text of a date-time.
pub open spec fn dt_text(dt: DateTime) -> Seq<char> {
    four_digits(dt.year as int) + seq!['-'] + two_digits(dt.month as int) + seq!['-'] + two_digits(
        dt.day as int,
    ) + seq![' '] + two_digits(dt.hour as int) + seq![':'] + two_digits(dt.minute as int)
        + seq![':'] + two_digits(dt.second as int) + seq!['+', '0', '0', ':', '0', '0']
}

/// The value of the two digits at `i`.
pub open spec fn val2(s: Seq<char>, i: int) -> int {
    dec_digit_val(s[i]) * 10 + dec_digit_val(s[i + 1])
}

/// The value of the four digits at `i`.
pub open spec fn val4(s: Seq<char>, i: int) -> int {
    dec_digit_val(s[i]) * 1000 + dec_digit_val(s[i + 1]) * 100 + dec_digit_val(s[i + 2]) * 10
        + dec_digit_val(s[i + 3])
}

/// Whether a string has the exact wire shape: digits and literal
/// separators in their places, with the `+00:00` suffix.
pub open spec fn dt_shape_ok(s: Seq<char>) -> bool {
    &&& s.len() == 25
    &&& is_dec_digit(s[0]) && is_dec_digit(s[1]) && is_dec_digit(s[2]) && is_dec_digit(s[3])
    &&& s[4] == '-'
    &&& is_dec_digit(s[5]) && is_dec_digit(s[6])
    &&& s[7] == '-'
    &&& is_dec_digit(s[8]) && is_dec_digit(s[9])
    &&& s[10] == ' '
    &&& is_dec_digit(s[11]) && is_dec_digit(s[12])
    &&& s[13] == ':'
    &&& is_dec_digit(s[14]) && is_dec_digit(s[15])
    &&& s[16] == ':'
    &&& is_dec_digit(s[17]) && is_dec_digit(s[18])
    &&& s[19] == '+'
    &&& s[20] == '0'
    &&& s[21] == '0'
    &&& s[22] == ':'
    &&& s[23] == '0'
    &&& s[24] == '0'
}

/// The date-time a wire string denotes, if it matches the pattern exactly
/// and its fields name a real moment.
pub open spec fn dt_of_text(s: Seq<char>) -> Option<DateTime> {
    if dt_shape_ok(s) {
        let dt = DateTime {
            year: val4(s, 0) as u16,
            month: val2(s, 5) as u8,
            day: val2(s, 8) as u8,
            hour: val2(s, 11) as u8,
            minute: val2(s, 14) as u8,
            second: val2(s, 17) as u8,
        };
        if dt.wf() {
            Some(dt)
        } else {
            None
        }
    } else {
        None
    }
}

/// The value of one decimal digit character, if it is one.
fn digit_of(c: char) -> (r: Option<u8>)
    ensures
        r is Some <==> is_dec_digit(c),
        r matches Some(d) ==> d == dec_digit_val(c) && d <= 9,
{
    match c {
        '0' => Some(0),
        '1' => Some(1),
        '2' => Some(2),
        '3' => Some(3),
        '4' => Some(4),
        '5' => Some(5),
        '6' => Some(6),
        '7' => Some(7),
        '8' => Some(8),
        '9' => Some(9),
        _ => None,
    }
}

/// Reads the two digits at `i` of an ASCII-checked string.
fn read2(s: &str, i: usize) -> (r: Option<u8>)
    requires
        i + 2 <= s@.len(),
        i <= 22,
    ensures
        r is Some <==> is_dec_digit(s@[i as int]) && is_dec_digit(s@[i + 1]),
        r matches Some(v) ==> v == val2(s@, i as int) && v <= 99,
{
    let c0 = match digit_of(s.get_char(i)) {
        Some(d) => d,
        None => {
            return None;
        },
    };
    let c1 = match digit_of(s.get_char(i + 1)) {
        Some(d) => d,
        None => {
            return None;
        },
    };
    Some(c0 * 10 + c1)
}

/// Executable check of the number of days of a month.
fn days_in_month_x(y: u16, m: u8) -> (r: u8)
    ensures
        r == days_in_month(y as int, m as int),
{
    if m == 2 {
        if (y % 4 == 0) && (y % 100 != 0 || y % 400 == 0) {
            29
        } else {
            28
        }
    } else if m == 4 || m == 6 || m == 9 || m == 11 {
        30
    } else {
        31
    }
}

/// Decodes a wire string as a date-time, if it matches the fixed pattern
/// exactly.
pub fn parse_datetime(s: &str) -> (r: Option<DateTime>)
    ensures
        r == dt_of_text(s@),
        r matches Some(dt) ==> dt.wf(),
{
    let n = s.unicode_len();
    if n != 25 {
        return None;
    }
    let y0 = match read2(s, 0) {
        Some(v) => v,
        None => {
            return None;
        },
    };
    let y1 = match read2(s, 2) {
        Some(v) => v,
        None => {
            return None;
        },
    };
    if s.get_char(4) != '-' || s.get_char(7) != '-' || s.get_char(10) != ' ' || s.get_char(13)
        != ':' || s.get_char(16) != ':' {
        return None;
    }
    let month = match read2(s, 5) {
        Some(v) => v,
        None => {
            return None;
        },
    };
    let day = match read2(s, 8) {
        Some(v) => v,
        None => {
            return None;
        },
    };
    let hour = match read2(s, 11) {
        Some(v) => v,
        None => {
            return None;
        },
    };
    let minute = match read2(s, 14) {
        Some(v) => v,
        None => {
            return None;
        },
    };
    let second = match read2(s, 17) {
        Some(v) => v,
        None => {
            return None;
        },
    };
    if s.get_char(19) != '+' || s.get_char(20) != '0' || s.get_char(21) != '0' || s.get_char(22)
        != ':' || s.get_char(23) != '0' || s.get_char(24) != '0' {
        return None;
    }
    let year: u16 = (y0 as u16) * 100 + (y1 as u16);
    proof {
        assert(year == val4(s@, 0)) by {
            assert(y0 == dec_digit_val(s@[0]) * 10 + dec_digit_val(s@[1]));
            assert(y1 == dec_digit_val(s@[2]) * 10 + dec_digit_val(s@[3]));
        }
    }
    let dt = DateTime { year, month, day, hour, minute, second };
    if month < 1 || month > 12 {
        return None;
    }
    if day < 1 || day > days_in_month_x(year, month) {
        return None;
    }
    if hour > 23 || minute > 59 || second > 59 {
        return None;
    }
    Some(dt)
}

/// Writes the two zero-padded digits of `n`.
fn write2(out: &mut String, n: u8)
    ensures
        final(out)@ == old(out)@ + two_digits(n as int),
{
    out.append(crate::err::digit_str(((n / 10) % 10) as usize));
    out.append(crate::err::digit_str((n % 10) as usize));
    proof {
        assert(old(out)@ + seq![digit_char(((n / 10) % 10) as nat)] + seq![
            digit_char((n % 10) as nat),
        ] =~= old(out)@ + two_digits(n as int));
    }
}

/// Encodes a date-time as its wire text.
pub fn format_datetime(dt: &DateTime) -> (r: String)
    ensures
        r@ == dt_text(*dt),
{
    let mut out = String::new();
    out.append(crate::err::digit_str(((dt.year / 1000) % 10) as usize));
    out.append(crate::err::digit_str(((dt.year / 100) % 10) as usize));
    out.append(crate::err::digit_str(((dt.year / 10) % 10) as usize));
    out.append(crate::err::digit_str((dt.year % 10) as usize));
    out.append("-");
    write2(&mut out, dt.month);
    out.append("-");
    write2(&mut out, dt.day);
    out.append(" ");
    write2(&mut out, dt.hour);
    out.append(":");
    write2(&mut out, dt.minute);
    out.append(":");
    write2(&mut out, dt.second);
    out.append("+00:00");
    proof {
        reveal_strlit("-");
        reveal_strlit(" ");
        reveal_strlit(":");
        reveal_strlit("+00:00");
        assert(r"+00:00"@ =~= seq!['+', '0', '0', ':', '0', '0']) by {
            reveal_strlit("+00:00");
        }
        assert(out@ =~= dt_text(*dt));
    }
    out
}

/// Law: the date-time codec round-trips; decoding the encoding of any
/// well-formed date-time yields that date-time again.
pub proof fn lemma_dt_round_trip(dt: DateTime)
    requires
        dt.wf(),
    ensures
        dt_of_text(dt_text(dt)) == Some(dt),
{
    let s = dt_text(dt);
    assert(s.len() == 25);
    assert(dt_shape_ok(s));
    assert(val4(s, 0) == dt.year) by {
        assert(dec_digit_val(digit_char(((dt.year as int / 1000) % 10) as nat)) == (dt.year as int
            / 1000) % 10);
        assert(dec_digit_val(digit_char(((dt.year as int / 100) % 10) as nat)) == (dt.year as int
            / 100) % 10);
        assert(dec_digit_val(digit_char(((dt.year as int / 10) % 10) as nat)) == (dt.year as int
            / 10) % 10);
        assert(dec_digit_val(digit_char((dt.year as int % 10) as nat)) == dt.year as int % 10);
        lemma_recompose4(dt.year as int);
    }
    lemma_val2_round(s, 5, dt.month as int);
    lemma_val2_round(s, 8, dt.day as int);
    lemma_val2_round(s, 11, dt.hour as int);
    lemma_val2_round(s, 14, dt.minute as int);
    lemma_val2_round(s, 17, dt.second as int);
}

/// Law: the decoder pins the exact text; a string that decodes is the
/// encoding of what it decodes to.
pub proof fn lemma_dt_exact(s: Seq<char>, dt: DateTime)
    requires
        dt_of_text(s) == Some(dt),
    ensures
        dt_text(dt) == s,
        dt.wf(),
{
    assert(dt_shape_ok(s));
    let t = dt_text(dt);
    assert forall|i: int| 0 <= i < 25 implies #[trigger] t[i] == s[i] by {
        lemma_digit_char_val(s[0]);
        lemma_digit_char_val(s[1]);
        lemma_digit_char_val(s[2]);
        lemma_digit_char_val(s[3]);
        lemma_digit_char_val(s[5]);
        lemma_digit_char_val(s[6]);
        lemma_digit_char_val(s[8]);
        lemma_digit_char_val(s[9]);
        lemma_digit_char_val(s[11]);
        lemma_digit_char_val(s[12]);
        lemma_digit_char_val(s[14]);
        lemma_digit_char_val(s[15]);
        lemma_digit_char_val(s[17]);
        lemma_digit_char_val(s[18]);
        lemma_decompose4(val4(s, 0), dec_digit_val(s[0]), dec_digit_val(s[1]), dec_digit_val(s[2]),
            dec_digit_val(s[3]));
        lemma_decompose2(val2(s, 5), dec_digit_val(s[5]), dec_digit_val(s[6]));
        lemma_decompose2(val2(s, 8), dec_digit_val(s[8]), dec_digit_val(s[9]));
        lemma_decompose2(val2(s, 11), dec_digit_val(s[11]), dec_digit_val(s[12]));
        lemma_decompose2(val2(s, 14), dec_digit_val(s[14]), dec_digit_val(s[15]));
        lemma_decompose2(val2(s, 17), dec_digit_val(s[17]), dec_digit_val(s[18]));
    }
    assert(t =~= s);
}

/// A digit character is recovered from its value.
proof fn lemma_digit_char_val(c: char)
    requires
        is_dec_digit(c),
    ensures
        digit_char((dec_digit_val(c)) as nat) == c,
{
}

/// Splitting a two-digit value into its digits.
proof fn lemma_decompose2(n: int, d1: int, d0: int)
    requires
        0 <= d1 <= 9,
        0 <= d0 <= 9,
        n == d1 * 10 + d0,
    ensures
        (n / 10) % 10 == d1,
        n % 10 == d0,
{
}

/// Splitting a four-digit value into its digits.
proof fn lemma_decompose4(n: int, d3: int, d2: int, d1: int, d0: int)
    requires
        0 <= d3 <= 9,
        0 <= d2 <= 9,
        0 <= d1 <= 9,
        0 <= d0 <= 9,
        n == d3 * 1000 + d2 * 100 + d1 * 10 + d0,
    ensures
        (n / 1000) % 10 == d3,
        (n / 100) % 10 == d2,
        (n / 10) % 10 == d1,
        n % 10 == d0,
{
    assert(n / 1000 == d3 && (n / 100) == d3 * 10 + d2 && (n / 10) == d3 * 100 + d2 * 10 + d1 && n
        % 10 == d0) by (nonlinear_arith)
        requires
            n == d3 * 1000 + d2 * 100 + d1 * 10 + d0,
            0 <= d3 <= 9,
            0 <= d2 <= 9,
            0 <= d1 <= 9,
            0 <= d0 <= 9,
    ;
    assert(d3 % 10 == d3);
    assert((d3 * 10 + d2) % 10 == d2) by (nonlinear_arith)
        requires
            0 <= d2 <= 9,
            0 <= d3,
    ;
    assert((d3 * 100 + d2 * 10 + d1) % 10 == d1) by (nonlinear_arith)
        requires
            0 <= d1 <= 9,
            0 <= d2,
            0 <= d3,
    ;
}

/// A value below ten thousand is recomposed from its four digits.
proof fn lemma_recompose4(n: int)
    requires
        0 <= n <= 9999,
    ensures
        ((n / 1000) % 10) * 1000 + ((n / 100) % 10) * 100 + ((n / 10) % 10) * 10 + n % 10 == n,
{
    assert((n / 1000) % 10 == n / 1000 && (n / 100) % 10 == n / 100 - (n / 1000) * 10 && (n / 10)
        % 10 == n / 10 - (n / 100) * 10 && n % 10 == n - (n / 10) * 10) by (nonlinear_arith)
        requires
            0 <= n <= 9999,
    ;
    assert((n / 1000) * 1000 + (n / 100 - (n / 1000) * 10) * 100 + (n / 10 - (n / 100) * 10) * 10
        + (n - (n / 10) * 10) == n) by (nonlinear_arith)
        requires
            0 <= n <= 9999,
    ;
}

/// The two digits written at a position read back as the value.
proof fn lemma_val2_round(s: Seq<char>, i: int, n: int)
    requires
        0 <= n <= 99,
        0 <= i,
        i + 2 <= s.len(),
        s[i] == digit_char(((n / 10) % 10) as nat),
        s[i + 1] == digit_char((n % 10) as nat),
    ensures
        val2(s, i) == n,
{
}

} // verus!
