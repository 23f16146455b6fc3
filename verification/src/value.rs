//! Basic value objects: calendar dates, business periods, frequencies and source units.
//!
//! Only the identity of a day, month, quarter or year is needed: no time zones,
//! no arithmetic, no formatting beyond the ISO form of a date.
pub mod envelope;
pub mod mapping;
pub mod number;
pub mod payload;

use crate::error::{Jin10Error, Jin10ErrorKind, Jin10Result};
use crate::text::{
    ascii_lowercase, chars_equal, chars_of, decimal_text, int_text, lowercase_chars, nat_text,
};
use vstd::prelude::*;
use vstd::string::StringSliceAdditionalSpecFns;
use vstd::utf8::encode_utf8;

verus! {

/// What a result reports: the value, or the class and detail text of the error.
pub open spec fn report<T>(r: Result<T, Jin10Error>) -> Result<T, (Jin10ErrorKind, Seq<char>)> {
    match r {
        Ok(v) => Ok(v),
        Err(e) => Err(e@),
    }
}

/// Gregorian leap year: every fourth year, except centuries, except every fourth century.
pub open spec fn leap_year(year: int) -> bool {
    (year % 4 == 0 && year % 100 != 0) || year % 400 == 0
}

/// Number of days of a month (0 for a month number outside 1–12).
pub open spec fn month_length(year: int, month: int) -> int {
    if month == 1 || month == 3 || month == 5 || month == 7 || month == 8 || month == 10
        || month == 12 {
        31
    } else if month == 4 || month == 6 || month == 9 || month == 11 {
        30
    } else if month == 2 {
        if leap_year(year) { 29 } else { 28 }
    } else {
        0
    }
}

/// Strict ISO calendar date `YYYY-MM-DD`.
#[derive(Debug, Clone, Copy, PartialEq, Eq, Structural, PartialOrd, Ord, Hash)]
pub struct Date {
    /// Year (may be negative; kept as the source gives it).
    pub year: i16,
    /// Month, 1–12.
    pub month: u8,
    /// Day, within the month's length (leap years included).
    pub day: u8,
}

/// The detail text of a month outside 1–12 (the value itself is not repeated).
pub open spec fn month_range_detail() -> Seq<char> {
    "月须在 1–12"@
}

/// The detail text of a day outside its month: the month's length, not the day given.
pub open spec fn day_range_detail(max: int) -> Seq<char> {
    "日须在 1–"@ + int_text(max)
}

/// The detail text of a non-digit in a fixed-width number field.
pub open spec fn digits_detail(label: Seq<char>) -> Seq<char> {
    label + "须为两位补零十进制数字"@
}

/// The detail text of a date text that is not `YYYY-MM-DD` in shape; it names the
/// expected shape and repeats nothing of the text.
pub open spec fn date_shape_detail() -> Seq<char> {
    "日期须为严格 YYYY-MM-DD 形态"@
}

/// A byte is an ASCII decimal digit.
pub open spec fn digit_byte(b: u8) -> bool {
    48 <= b <= 57
}

/// Every byte is an ASCII decimal digit.
pub open spec fn all_digits(s: Seq<u8>) -> bool {
    forall|i: int| 0 <= i < s.len() ==> digit_byte(#[trigger] s[i])
}

/// Value of a run of decimal digit bytes, most significant first.
pub open spec fn digits_value(s: Seq<u8>) -> int
    decreases s.len(),
{
    if s.len() == 0 {
        0
    } else {
        digits_value(s.drop_last()) * 10 + (s.last() - 48)
    }
}

/// `10` to the power `k`, for the widths used here.
pub open spec fn digits_bound(k: int) -> int {
    if k <= 0 { 1 } else if k == 1 { 10 } else if k == 2 { 100 } else if k == 3 { 1000 } else { 10000 }
}

impl Date {
    /// The date is a real calendar day: month 1–12, day 1 to the month's length.
    pub open spec fn well_formed(self) -> bool {
        1 <= self.month <= 12 && 1 <= self.day <= month_length(self.year as int, self.month as int)
    }

    /// What validating the date reports.
    pub open spec fn check(self) -> Result<(), (Jin10ErrorKind, Seq<char>)> {
        if !(1 <= self.month <= 12) {
            Err((Jin10ErrorKind::Invalid, month_range_detail()))
        } else if !(1 <= self.day <= month_length(self.year as int, self.month as int)) {
            Err(
                (
                    Jin10ErrorKind::Invalid,
                    day_range_detail(month_length(self.year as int, self.month as int)),
                ),
            )
        } else {
            Ok(())
        }
    }

    /// What parsing a text with these bytes reports.
    pub open spec fn parse_outcome(b: Seq<u8>) -> Result<
        Date,
        (Jin10ErrorKind, Seq<char>),
    > {
        if !(b.len() == 10 && b[4] == 45 && b[7] == 45) {
            Err((Jin10ErrorKind::Invalid, date_shape_detail()))
        } else if !all_digits(b.subrange(0, 4)) {
            Err((Jin10ErrorKind::Invalid, digits_detail("年"@)))
        } else if !all_digits(b.subrange(5, 7)) {
            Err((Jin10ErrorKind::Invalid, digits_detail("月"@)))
        } else if !all_digits(b.subrange(8, 10)) {
            Err((Jin10ErrorKind::Invalid, digits_detail("日"@)))
        } else {
            let d = Date {
                year: digits_value(b.subrange(0, 4)) as i16,
                month: digits_value(b.subrange(5, 7)) as u8,
                day: digits_value(b.subrange(8, 10)) as u8,
            };
            match d.check() {
                Ok(_) => Ok(d),
                Err(e) => Err(e),
            }
        }
    }

    /// Builds and validates a date.
    ///
    /// Fails with [`Jin10ErrorKind::Invalid`] when the month is outside 1–12 or the
    /// day outside the month (leap Februaries included).
    pub fn new(year: i16, month: u8, day: u8) -> (r: Jin10Result<Date>)
        ensures
            report(r) == (match (Date { year, month, day }).check() {
                Ok(_) => Ok(Date { year, month, day }),
                Err(e) => Err(e),
            }),
    {
        let date = Date { year, month, day };
        match date.validate() {
            Ok(()) => Ok(date),
            Err(e) => Err(e),
        }
    }

    /// Strictly parses `YYYY-MM-DD` (zero-padded month and day, `-` separators,
    /// no time part).
    pub fn parse(input: &str) -> (r: Jin10Result<Date>)
        ensures
            report(r) == Date::parse_outcome(input.spec_bytes()),
    {
        let bytes = input.as_bytes();
        if bytes.len() != 10 || bytes[4] != 45u8 || bytes[7] != 45u8 {
            return Err(Jin10Error::Invalid(String::from_str("日期须为严格 YYYY-MM-DD 形态")));
        }
        let year = match read_digits(bytes, 0, 4) {
            Some(v) => v,
            None => return Err(Jin10Error::Invalid(digits_error("年"))),
        };
        let month = match read_digits(bytes, 5, 7) {
            Some(v) => v,
            None => return Err(Jin10Error::Invalid(digits_error("月"))),
        };
        let day = match read_digits(bytes, 8, 10) {
            Some(v) => v,
            None => return Err(Jin10Error::Invalid(digits_error("日"))),
        };
        Date::new(year as i16, month as u8, day as u8)
    }

    /// Checks the month range, the day range and leap years.
    pub fn validate(&self) -> (r: Jin10Result<()>)
        ensures
            report(r) == self.check(),
    {
        if self.month < 1 || self.month > 12 {
            return Err(Jin10Error::Invalid(String::from_str("月须在 1–12")));
        }
        let max = days_in_month(self.year, self.month);
        if self.day < 1 || self.day > max {
            let mut detail = String::from_str("日须在 1–");
            detail.append(decimal_text(max as i64).as_str());
            return Err(Jin10Error::Invalid(detail));
        }
        Ok(())
    }

    /// Whether `year` is a Gregorian leap year.
    pub fn is_leap_year(year: i16) -> (r: bool)
        ensures
            r == leap_year(year as int),
    {
        (year % 4 == 0 && year % 100 != 0) || year % 400 == 0
    }
}

/// The detail text for a non-digit in the field named `label`.
pub(crate) fn digits_error(label: &str) -> (s: String)
    ensures
        s@ == digits_detail(label@),
{
    let mut s = String::from_str(label);
    s.append("须为两位补零十进制数字");
    s
}

/// Reads the decimal digits `b[from..to]` (at most four of them); `None` when one
/// of them is not a digit.
pub(crate) fn read_digits(b: &[u8], from: usize, to: usize) -> (r: Option<u16>)
    requires
        from <= to <= b@.len(),
        to - from <= 4,
    ensures
        r is Some <==> all_digits(b@.subrange(from as int, to as int)),
        r matches Some(v) ==> v == digits_value(b@.subrange(from as int, to as int)),
        r matches Some(v) ==> v < digits_bound(to - from),
{
    let mut value: u16 = 0;
    let mut i = from;
    while i < to
        invariant
            from <= i <= to <= b@.len(),
            to - from <= 4,
            all_digits(b@.subrange(from as int, i as int)),
            value == digits_value(b@.subrange(from as int, i as int)),
            value < digits_bound(i - from),
        decreases to - i,
    {
        let c = b[i];
        if c < 48u8 || c > 57u8 {
            assert(b@.subrange(from as int, to as int)[i - from] == c);
            return None;
        }
        assert(b@.subrange(from as int, i + 1).drop_last() =~= b@.subrange(from as int, i as int));
        assert(all_digits(b@.subrange(from as int, i + 1))) by {
            assert forall|k: int| 0 <= k < i + 1 - from implies digit_byte(
                #[trigger] b@.subrange(from as int, i + 1)[k],
            ) by {
                if k < i - from {
                    assert(b@.subrange(from as int, i + 1)[k] == b@.subrange(from as int, i as int)[k]);
                }
            }
        }
        value = value * 10 + (c - 48u8) as u16;
        i = i + 1;
    }
    Some(value)
}

/// Number of days of a month in a year (0 outside 1–12).
fn days_in_month(year: i16, month: u8) -> (d: u8)
    ensures
        d == month_length(year as int, month as int),
{
    if month == 1 || month == 3 || month == 5 || month == 7 || month == 8 || month == 10
        || month == 12 {
        31
    } else if month == 4 || month == 6 || month == 9 || month == 11 {
        30
    } else if month == 2 {
        if Date::is_leap_year(year) { 29 } else { 28 }
    } else {
        0
    }
}

/// `n` zeros.
pub open spec fn zeros(n: int) -> Seq<char>
    decreases n,
{
    if n <= 0 {
        seq![]
    } else {
        zeros(n - 1) + seq!['0']
    }
}

/// Decimal text of `n` zero-padded to at least `width` characters, the sign counted
/// in the width (as `{:0width$}` writes integers).
pub open spec fn padded_text(n: int, width: int) -> Seq<char> {
    if n < 0 {
        seq!['-'] + zeros(width - 1 - nat_text((-n) as nat).len()) + nat_text((-n) as nat)
    } else {
        zeros(width - nat_text(n as nat).len()) + nat_text(n as nat)
    }
}

/// The ISO text of a date: `YYYY-MM-DD`, zero padded.
pub open spec fn date_text(d: Date) -> Seq<char> {
    padded_text(d.year as int, 4) + seq!['-'] + padded_text(d.month as int, 2) + seq!['-']
        + padded_text(d.day as int, 2)
}

/// A date check passes exactly when the date is a real calendar day.
pub proof fn lemma_date_check_matches_well_formed(d: Date)
    ensures
        d.check() is Ok <==> d.well_formed(),
{
}

/// A parsed date is a real calendar day.
pub proof fn lemma_parsed_date_is_well_formed(b: Seq<u8>)
    requires
        Date::parse_outcome(b) is Ok,
    ensures
        Date::parse_outcome(b)->Ok_0.well_formed(),
{
}

/// Every failure to parse a date is [`Jin10ErrorKind::Invalid`].
pub proof fn lemma_date_errors_are_invalid(b: Seq<u8>)
    ensures
        Date::parse_outcome(b) is Err ==> Date::parse_outcome(b)->Err_0.0 == Jin10ErrorKind::Invalid,
{
}

/// Appends `n` zeros to `s`.
fn push_zeros(s: &mut String, n: usize)
    ensures
        final(s)@ == old(s)@ + zeros(n as int),
{
    let mut i: usize = 0;
    while i < n
        invariant
            i <= n,
            s@ == old(s)@ + zeros(i as int),
        decreases n - i,
    {
        s.append("0");
        proof {
            reveal_strlit("0");
            assert(zeros(i + 1) == zeros(i as int) + seq!['0']);
        }
        i = i + 1;
    }
}

/// Appends the decimal text of `n`, zero padded to `width` characters, sign included.
fn push_padded(s: &mut String, n: i16, width: usize)
    requires
        1 <= width <= 4,
    ensures
        final(s)@ == old(s)@ + padded_text(n as int, width as int),
{
    if n < 0 {
        let digits = decimal_text(-(n as i64));
        let count = digits.as_str().unicode_len();
        s.append("-");
        if count < width - 1 {
            push_zeros(s, width - 1 - count);
        } else {
            push_zeros(s, 0);
        }
        s.append(digits.as_str());
        proof {
            reveal_strlit("-");
            assert(int_text(-(n as int)) == nat_text((-n) as nat));
        }
    } else {
        let digits = decimal_text(n as i64);
        let count = digits.as_str().unicode_len();
        if count < width {
            push_zeros(s, width - count);
        } else {
            push_zeros(s, 0);
        }
        s.append(digits.as_str());
    }
}

impl Date {
    /// The ISO text `YYYY-MM-DD` of the date (what `Display` writes for it).
    /// For years 0–9999, parsing the text gives the date back
    /// (see [`lemma_iso_text_round_trip`]); and a date that parsing returns has
    /// the parsed text as its ISO text (see [`lemma_parsed_date_text`]).
    pub fn to_iso_text(&self) -> (s: String)
        ensures
            s@ == date_text(*self),
    {
        let mut s = String::new();
        push_padded(&mut s, self.year, 4);
        s.append("-");
        push_padded(&mut s, self.month as i16, 2);
        s.append("-");
        push_padded(&mut s, self.day as i16, 2);
        proof {
            reveal_strlit("-");
        }
        s
    }
}

/// Business period. A `String` never stands in for it.
#[non_exhaustive]
#[derive(Debug, Clone, Copy, PartialEq, Eq, Structural, PartialOrd, Ord, Hash)]
pub enum Period {
    /// Day granularity.
    Day(Date),
    /// Month granularity.
    Month {
        /// Year.
        year: i16,
        /// Month, 1–12.
        month: u8,
    },
    /// Quarter granularity.
    Quarter {
        /// Year.
        year: i16,
        /// Quarter, 1–4.
        quarter: u8,
    },
    /// Year granularity.
    Year(i16),
    /// Event period, identified by the day of the event (not a daily series).
    Event {
        /// Day of the event.
        date: Date,
    },
}

/// The detail text of a quarter outside 1–4 (the value itself is not repeated).
pub open spec fn quarter_range_detail() -> Seq<char> {
    "季须在 1–4"@
}

impl Period {
    /// The period's fields are in range: real dates, month 1–12, quarter 1–4.
    pub open spec fn well_formed(self) -> bool {
        match self {
            Period::Day(d) => d.well_formed(),
            Period::Event { date } => date.well_formed(),
            Period::Month { month, .. } => 1 <= month <= 12,
            Period::Quarter { quarter, .. } => 1 <= quarter <= 4,
            Period::Year(_) => true,
        }
    }

    /// What validating the period reports.
    pub open spec fn check(self) -> Result<(), (Jin10ErrorKind, Seq<char>)> {
        match self {
            Period::Day(d) => d.check(),
            Period::Event { date } => date.check(),
            Period::Month { month, .. } => if 1 <= month <= 12 {
                Ok(())
            } else {
                Err((Jin10ErrorKind::Invalid, month_range_detail()))
            },
            Period::Quarter { quarter, .. } => if 1 <= quarter <= 4 {
                Ok(())
            } else {
                Err((Jin10ErrorKind::Invalid, quarter_range_detail()))
            },
            Period::Year(_) => Ok(()),
        }
    }

    /// Checks the value ranges (month 1–12, quarter 1–4, day by month and leap year).
    pub fn validate(&self) -> (r: Jin10Result<()>)
        ensures
            report(r) == self.check(),
    {
        match *self {
            Period::Day(date) => date.validate(),
            Period::Event { date } => date.validate(),
            Period::Month { month, .. } => {
                if 1 <= month && month <= 12 {
                    Ok(())
                } else {
                    Err(Jin10Error::Invalid(String::from_str("月须在 1–12")))
                }
            },
            Period::Quarter { quarter, .. } => {
                if 1 <= quarter && quarter <= 4 {
                    Ok(())
                } else {
                    Err(Jin10Error::Invalid(String::from_str("季须在 1–4")))
                }
            },
            Period::Year(_) => Ok(()),
        }
    }
}

/// A check passes exactly when the value is well formed.
pub proof fn lemma_check_matches_well_formed(p: Period)
    ensures
        p.check() is Ok <==> p.well_formed(),
{
}

/// Frequency: the seven values fixed by the contract.
#[non_exhaustive]
#[derive(Debug, Clone, Copy, PartialEq, Eq, Structural, Hash)]
pub enum Frequency {
    /// Daily.
    Daily,
    /// Weekly.
    Weekly,
    /// Monthly.
    Monthly,
    /// Quarterly.
    Quarterly,
    /// Annual.
    Annual,
    /// Event driven.
    Event,
    /// Irregular or mixed.
    Irregular,
}

/// The stable text of a frequency.
pub open spec fn frequency_text(f: Frequency) -> Seq<char> {
    match f {
        Frequency::Daily => "daily"@,
        Frequency::Weekly => "weekly"@,
        Frequency::Monthly => "monthly"@,
        Frequency::Quarterly => "quarterly"@,
        Frequency::Annual => "annual"@,
        Frequency::Event => "event"@,
        Frequency::Irregular => "irregular"@,
    }
}

/// The frequency whose stable text is `t`, if any.
pub open spec fn frequency_named(t: Seq<char>) -> Option<Frequency> {
    if t == "daily"@ {
        Some(Frequency::Daily)
    } else if t == "weekly"@ {
        Some(Frequency::Weekly)
    } else if t == "monthly"@ {
        Some(Frequency::Monthly)
    } else if t == "quarterly"@ {
        Some(Frequency::Quarterly)
    } else if t == "annual"@ {
        Some(Frequency::Annual)
    } else if t == "event"@ {
        Some(Frequency::Event)
    } else if t == "irregular"@ {
        Some(Frequency::Irregular)
    } else {
        None
    }
}

/// The detail text of a frequency outside the seven values (the text given is not
/// repeated).
pub open spec fn frequency_detail() -> Seq<char> {
    "频率不在契约的七个取值内"@
}

impl Frequency {
    /// The stable text of the frequency.
    pub fn as_str(self) -> (s: &'static str)
        ensures
            s@ == frequency_text(self),
    {
        match self {
            Frequency::Daily => "daily",
            Frequency::Weekly => "weekly",
            Frequency::Monthly => "monthly",
            Frequency::Quarterly => "quarterly",
            Frequency::Annual => "annual",
            Frequency::Event => "event",
            Frequency::Irregular => "irregular",
        }
    }

    /// Parses the stable text, ignoring ASCII case; no synonyms are guessed.
    ///
    /// Fails with [`Jin10ErrorKind::NotApplicable`] outside the seven values.
    pub fn parse(input: &str) -> (r: Jin10Result<Frequency>)
        ensures
            report(r) == (match frequency_named(ascii_lowercase(input@)) {
                Some(f) => Ok(f),
                None => Err((Jin10ErrorKind::NotApplicable, frequency_detail())),
            }),
    {
        let lowered = lowercase_chars(input);
        let names = [
            Frequency::Daily,
            Frequency::Weekly,
            Frequency::Monthly,
            Frequency::Quarterly,
            Frequency::Annual,
            Frequency::Event,
            Frequency::Irregular,
        ];
        let mut i: usize = 0;
        while i < 7
            invariant
                lowered@ == ascii_lowercase(input@),
                names@ == seq![
                    Frequency::Daily,
                    Frequency::Weekly,
                    Frequency::Monthly,
                    Frequency::Quarterly,
                    Frequency::Annual,
                    Frequency::Event,
                    Frequency::Irregular,
                ],
                i <= 7,
                forall|k: int| 0 <= k < i ==> lowered@ != frequency_text(#[trigger] names@[k]),
            decreases 7 - i,
        {
            let candidate = names[i];
            if chars_equal(&lowered, &chars_of(candidate.as_str())) {
                proof {
                    frequency_texts_distinct();
                }
                return Ok(candidate);
            }
            i = i + 1;
        }
        let detail = String::from_str("频率不在契约的七个取值内");
        proof {
            assert(lowered@ != frequency_text(names@[0]));
            assert(lowered@ != frequency_text(names@[1]));
            assert(lowered@ != frequency_text(names@[2]));
            assert(lowered@ != frequency_text(names@[3]));
            assert(lowered@ != frequency_text(names@[4]));
            assert(lowered@ != frequency_text(names@[5]));
            assert(lowered@ != frequency_text(names@[6]));
        }
        Err(Jin10Error::NotApplicable(detail))
    }
}

/// The seven stable texts are pairwise distinct.
proof fn frequency_texts_distinct()
    ensures
        forall|f: Frequency, g: Frequency| f != g ==> frequency_text(f) != frequency_text(g),
{
    reveal_strlit("daily");
    reveal_strlit("weekly");
    reveal_strlit("monthly");
    reveal_strlit("quarterly");
    reveal_strlit("annual");
    reveal_strlit("event");
    reveal_strlit("irregular");
    assert forall|f: Frequency, g: Frequency| f != g implies frequency_text(f) != frequency_text(g) by {
        if frequency_text(f).len() == frequency_text(g).len() {
            let t = frequency_text(f);
            let u = frequency_text(g);
            assert(t[0] != u[0] || t[1] != u[1]);
        }
    }
}

/// Reading back the stable text of a frequency gives the same frequency:
/// `Frequency::parse(f.as_str())` is `Ok(f)`.
pub proof fn lemma_frequency_round_trip(f: Frequency)
    ensures
        frequency_named(ascii_lowercase(frequency_text(f))) == Some(f),
{
    frequency_texts_distinct();
    reveal_strlit("daily");
    reveal_strlit("weekly");
    reveal_strlit("monthly");
    reveal_strlit("quarterly");
    reveal_strlit("annual");
    reveal_strlit("event");
    reveal_strlit("irregular");
    let t = frequency_text(f);
    assert(ascii_lowercase(t) =~= t);
    match f {
        Frequency::Daily => {},
        Frequency::Weekly => {
            assert(t != frequency_text(Frequency::Daily));
        },
        Frequency::Monthly => {
            assert(t != frequency_text(Frequency::Daily));
            assert(t != frequency_text(Frequency::Weekly));
        },
        Frequency::Quarterly => {
            assert(t != frequency_text(Frequency::Daily));
            assert(t != frequency_text(Frequency::Weekly));
            assert(t != frequency_text(Frequency::Monthly));
        },
        Frequency::Annual => {
            assert(t != frequency_text(Frequency::Daily));
            assert(t != frequency_text(Frequency::Weekly));
            assert(t != frequency_text(Frequency::Monthly));
            assert(t != frequency_text(Frequency::Quarterly));
        },
        Frequency::Event => {
            assert(t != frequency_text(Frequency::Daily));
            assert(t != frequency_text(Frequency::Weekly));
            assert(t != frequency_text(Frequency::Monthly));
            assert(t != frequency_text(Frequency::Quarterly));
            assert(t != frequency_text(Frequency::Annual));
        },
        Frequency::Irregular => {
            assert(t != frequency_text(Frequency::Daily));
            assert(t != frequency_text(Frequency::Weekly));
            assert(t != frequency_text(Frequency::Monthly));
            assert(t != frequency_text(Frequency::Quarterly));
            assert(t != frequency_text(Frequency::Annual));
            assert(t != frequency_text(Frequency::Event));
        },
    }
}

/// Source unit. The source listing fixes no units, so the layer keeps the unit as the
/// source names it and converts nothing.
#[non_exhaustive]
#[derive(Debug, Clone, Copy, PartialEq, Eq, Structural, Hash)]
pub enum Jin10Unit {
    /// The source declares no unit (none is inferred).
    Unspecified,
    /// Percent: only for fields whose name carries the percent sense (such as `change_pct`).
    Percent,
}

/// Every character is an ASCII decimal digit.
pub open spec fn digit_chars(s: Seq<char>) -> bool {
    forall|i: int| 0 <= i < s.len() ==> '0' <= #[trigger] s[i] && s[i] <= '9'
}

/// Value of a run of decimal digit characters, most significant first.
pub open spec fn chars_value(s: Seq<char>) -> int
    decreases s.len(),
{
    if s.len() == 0 {
        0
    } else {
        chars_value(s.drop_last()) * 10 + (s.last() as int - 48)
    }
}

proof fn lemma_digit_char(d: nat)
    requires
        d < 10,
    ensures
        crate::text::digit_char(d) as int == 48 + d,
{
}

/// The decimal text of a natural number is made of digits, has the number's value,
/// and is at most `k` characters long for numbers below `10^k`.
proof fn lemma_nat_text(n: nat, k: int)
    requires
        1 <= k <= 4,
        n < digits_bound(k),
    ensures
        digit_chars(nat_text(n)),
        chars_value(nat_text(n)) == n,
        1 <= nat_text(n).len() <= k,
    decreases n,
{
    if n < 10 {
        lemma_digit_char(n);
        assert(nat_text(n).drop_last() =~= Seq::<char>::empty());
        assert(chars_value(nat_text(n)) == chars_value(Seq::<char>::empty()) * 10 + (
        nat_text(n).last() as int - 48));
    } else {
        lemma_nat_text(n / 10, k - 1);
        lemma_digit_char(n % 10);
        let t = nat_text(n);
        assert(t.drop_last() =~= nat_text(n / 10));
        assert(t.last() == crate::text::digit_char(n % 10));
        assert(chars_value(t) == chars_value(nat_text(n / 10)) * 10 + (n % 10));
        assert forall|i: int| 0 <= i < t.len() implies '0' <= #[trigger] t[i] && t[i] <= '9' by {
            if i < t.len() - 1 {
                assert(t[i] == nat_text(n / 10)[i]);
            }
        }
    }
}

/// Leading zeros neither add non-digits nor change the value.
proof fn lemma_leading_zeros(m: int, s: Seq<char>)
    requires
        digit_chars(s),
    ensures
        digit_chars(zeros(m) + s),
        chars_value(zeros(m) + s) == chars_value(s),
        (zeros(m) + s).len() == (if m > 0 { m } else { 0 }) + s.len(),
    decreases s.len(), if m > 0 { m } else { 0 },
{
    lemma_zeros(m);
    if s.len() == 0 {
        assert(zeros(m) + s =~= zeros(m));
    } else {
        lemma_leading_zeros(m, s.drop_last());
        assert((zeros(m) + s).drop_last() =~= zeros(m) + s.drop_last());
    }
    assert forall|i: int| 0 <= i < (zeros(m) + s).len() implies '0' <= #[trigger] (zeros(m) + s)[i]
        && (zeros(m) + s)[i] <= '9' by {
        if i >= zeros(m).len() {
            assert((zeros(m) + s)[i] == s[i - zeros(m).len()]);
        }
    }
}

/// A run of zeros is all `'0'`, has value 0, and has the requested length.
proof fn lemma_zeros(m: int)
    ensures
        zeros(m).len() == if m > 0 { m } else { 0 },
        forall|i: int| 0 <= i < zeros(m).len() ==> #[trigger] zeros(m)[i] == '0',
        chars_value(zeros(m)) == 0,
    decreases if m > 0 { m } else { 0 },
{
    if m > 0 {
        lemma_zeros(m - 1);
        assert(zeros(m).drop_last() =~= zeros(m - 1));
        assert forall|i: int| 0 <= i < zeros(m).len() implies #[trigger] zeros(m)[i] == '0' by {
            if i < m - 1 {
                assert(zeros(m)[i] == zeros(m - 1)[i]);
            }
        }
    }
}

/// A non-negative number below `10^w`, zero padded to `w`, is `w` digits with its value.
proof fn lemma_padded(n: int, w: int)
    requires
        1 <= w <= 4,
        0 <= n < digits_bound(w),
    ensures
        padded_text(n, w).len() == w,
        digit_chars(padded_text(n, w)),
        chars_value(padded_text(n, w)) == n,
{
    lemma_nat_text(n as nat, w);
    lemma_leading_zeros(w - nat_text(n as nat).len(), nat_text(n as nat));
}

/// Bytes that are the characters of a digit run have that run's value.
proof fn lemma_digit_bytes(b: Seq<u8>, c: Seq<char>)
    requires
        b.len() == c.len(),
        digit_chars(c),
        forall|i: int| 0 <= i < c.len() ==> #[trigger] b[i] == c[i] as u8,
    ensures
        all_digits(b),
        digits_value(b) == chars_value(c),
    decreases c.len(),
{
    if c.len() > 0 {
        lemma_digit_bytes(b.drop_last(), c.drop_last());
    }
    assert forall|i: int| 0 <= i < b.len() implies digit_byte(#[trigger] b[i]) by {
        assert('0' <= c[i] && c[i] <= '9');
    }
}

/// Parsing the ISO text of a date gives the date back, for the years whose text
/// has four digits (0–9999).
pub proof fn lemma_iso_text_round_trip(d: Date)
    requires
        d.well_formed(),
        0 <= d.year <= 9999,
    ensures
        Date::parse_outcome(encode_utf8(date_text(d))) == Ok::<
            Date,
            (Jin10ErrorKind, Seq<char>),
        >(d),
{
    let y = padded_text(d.year as int, 4);
    let m = padded_text(d.month as int, 2);
    let dd = padded_text(d.day as int, 2);
    lemma_padded(d.year as int, 4);
    lemma_padded(d.month as int, 2);
    lemma_padded(d.day as int, 2);
    let t = date_text(d);
    assert(t =~= y + seq!['-'] + m + seq!['-'] + dd);
    assert(t.len() == 10);
    assert forall|i: int| 0 <= i < t.len() implies '\0' <= #[trigger] t[i] && t[i] <= '\u{7f}' by {
        if i < 4 {
            assert(t[i] == y[i]);
        } else if 5 <= i < 7 {
            assert(t[i] == m[i - 5]);
        } else if 8 <= i < 10 {
            assert(t[i] == dd[i - 8]);
        }
    }
    vstd::utf8::is_ascii_chars_encode_utf8(t);
    let b = encode_utf8(t);
    assert(b[4] == 45 && b[7] == 45) by {
        assert(t[4] == '-' && t[7] == '-');
        assert(t[4] as u8 == b[4]);
        assert(t[7] as u8 == b[7]);
    }
    lemma_digit_bytes(b.subrange(0, 4), y);
    lemma_digit_bytes(b.subrange(5, 7), m);
    lemma_digit_bytes(b.subrange(8, 10), dd);
}

/// A run of digit bytes of length at most four is below `10^len`.
proof fn lemma_digits_value_bound(b: Seq<u8>)
    requires
        all_digits(b),
        b.len() <= 4,
    ensures
        0 <= digits_value(b) < digits_bound(b.len() as int),
    decreases b.len(),
{
    if b.len() > 0 {
        assert(all_digits(b.drop_last())) by {
            assert forall|i: int| 0 <= i < b.len() - 1 implies digit_byte(#[trigger] b.drop_last()[i]) by {
                assert(b.drop_last()[i] == b[i]);
            }
        }
        assert(digit_byte(b[b.len() - 1]));
        lemma_digits_value_bound(b.drop_last());
    }
}

/// Two digit runs of the same length and the same value are the same digits.
proof fn lemma_same_digits(c: Seq<char>, b: Seq<u8>)
    requires
        c.len() == b.len(),
        digit_chars(c),
        all_digits(b),
        chars_value(c) == digits_value(b),
    ensures
        forall|i: int| 0 <= i < c.len() ==> #[trigger] b[i] == c[i] as u8,
    decreases c.len(),
{
    if c.len() > 0 {
        let n = c.len() - 1;
        assert(digit_chars(c.drop_last())) by {
            assert forall|i: int| 0 <= i < n implies '0' <= #[trigger] c.drop_last()[i]
                && c.drop_last()[i] <= '9' by {
                assert(c.drop_last()[i] == c[i]);
            }
        }
        assert(all_digits(b.drop_last())) by {
            assert forall|i: int| 0 <= i < n implies digit_byte(#[trigger] b.drop_last()[i]) by {
                assert(b.drop_last()[i] == b[i]);
            }
        }
        assert('0' <= c[n] && c[n] <= '9');
        assert(digit_byte(b[n]));
        assert(c.last() as int == b.last() as int);
        assert(chars_value(c.drop_last()) == digits_value(b.drop_last()));
        lemma_same_digits(c.drop_last(), b.drop_last());
        assert forall|i: int| 0 <= i < c.len() implies #[trigger] b[i] == c[i] as u8 by {
            if i < n {
                assert(b.drop_last()[i] == b[i]);
                assert(c.drop_last()[i] == c[i]);
            }
        }
    }
}

/// A date parsed from a text gives that very text back as its ISO text: parsing
/// accepts only the canonical `YYYY-MM-DD` form of the date it returns.
pub proof fn lemma_parsed_date_text(s: Seq<char>)
    requires
        Date::parse_outcome(encode_utf8(s)) is Ok,
    ensures
        date_text(Date::parse_outcome(encode_utf8(s))->Ok_0) == s,
{
    let b = encode_utf8(s);
    let d = Date::parse_outcome(b)->Ok_0;
    let yb = b.subrange(0, 4);
    let mb = b.subrange(5, 7);
    let db = b.subrange(8, 10);
    lemma_digits_value_bound(yb);
    lemma_digits_value_bound(mb);
    lemma_digits_value_bound(db);
    assert(d.year as int == digits_value(yb));
    assert(d.month as int == digits_value(mb));
    assert(d.day as int == digits_value(db));
    let y = padded_text(d.year as int, 4);
    let m = padded_text(d.month as int, 2);
    let dd = padded_text(d.day as int, 2);
    lemma_padded(d.year as int, 4);
    lemma_padded(d.month as int, 2);
    lemma_padded(d.day as int, 2);
    lemma_same_digits(y, yb);
    lemma_same_digits(m, mb);
    lemma_same_digits(dd, db);
    let t = date_text(d);
    assert(t =~= y + seq!['-'] + m + seq!['-'] + dd);
    assert forall|i: int| 0 <= i < t.len() implies '\0' <= #[trigger] t[i] && t[i] <= '\u{7f}' by {
        if i < 4 {
            assert(t[i] == y[i]);
        } else if 5 <= i < 7 {
            assert(t[i] == m[i - 5]);
        } else if 8 <= i < 10 {
            assert(t[i] == dd[i - 8]);
        }
    }
    vstd::utf8::is_ascii_chars_encode_utf8(t);
    assert(encode_utf8(t) =~= b) by {
        assert forall|i: int| 0 <= i < t.len() implies #[trigger] encode_utf8(t)[i] == b[i] by {
            assert(encode_utf8(t)[i] == t[i] as u8);
            if i < 4 {
                assert(t[i] == y[i]);
                assert(yb[i] == b[i]);
            } else if i == 4 || i == 7 {
                assert(t[i] == '-');
            } else if i < 7 {
                assert(t[i] == m[i - 5]);
                assert(mb[i - 5] == b[i]);
            } else {
                assert(t[i] == dd[i - 8]);
                assert(db[i - 8] == b[i]);
            }
        }
    }
    vstd::utf8::encode_utf8_decode_utf8(t);
    vstd::utf8::encode_utf8_decode_utf8(s);
}


/// The twelve months of a year have 366 days in a leap year and 365 otherwise,
/// February alone changing with the year; leap years repeat every 400 years, and
/// a leap year is a multiple of 4.
pub proof fn lemma_year_length(year: int)
    ensures
        month_length(year, 1) + month_length(year, 2) + month_length(year, 3) + month_length(year, 4)
            + month_length(year, 5) + month_length(year, 6) + month_length(year, 7) + month_length(
            year,
            8,
        ) + month_length(year, 9) + month_length(year, 10) + month_length(year, 11) + month_length(
            year,
            12,
        ) == if leap_year(year) { 366int } else { 365int },
        forall|m: int| 1 <= m <= 12 && m != 2 ==> #[trigger] month_length(year, m) == month_length(
            year + 1,
            m,
        ),
        forall|m: int| 1 <= m <= 12 ==> 28 <= #[trigger] month_length(year, m) <= 31,
        leap_year(year) == leap_year(year + 400),
        leap_year(year) ==> year % 4 == 0,
        year % 4 == 0 && year % 100 != 0 ==> leap_year(year),
{
}

} // verus!
