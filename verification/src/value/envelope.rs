//! Data kinds, the planned interface table, timestamps and importance.
//!
//! Only what the source listing fixes is modelled: the eight data kinds and the planned
//! interfaces S01–S08. Endpoints, rate limits and the payload fields of five of the
//! kinds are not fixed and are not invented here.
use super::{
    digits_detail, digits_error, read_digits, report, Date,
};
use crate::error::{Jin10Error, Jin10ErrorKind, Jin10Result};
use crate::text::{chars_equal, chars_of};
use vstd::prelude::*;
use vstd::string::StringSliceAdditionalSpecFns;
use vstd::utf8::valid_utf8;

verus! {

broadcast use vstd::utf8::encode_utf8_valid_utf8, vstd::utf8::encode_utf8_decode_utf8;

/// Identifier of this source. An envelope's `source` must equal it.
pub const SOURCE_ID: &'static str = "jin10";

/// Planned periods are not an access contract: the periods of S01–S08 come from the
/// source listing's planning table and promise no access rate, quota or service level.
pub const PLANNED_PERIODS_ARE_NOT_ACCESS_CONTRACT: bool = true;

/// Data kind: the eight kinds fixed by the source listing.
#[non_exhaustive]
#[derive(Debug, Clone, Copy, PartialEq, Eq, Structural, Hash)]
pub enum DataKind {
    /// Flash news.
    Flash,
    /// Economic calendar.
    Calendar,
    /// Major financial events.
    BigEvent,
    /// Central bank news.
    CentralBank,
    /// Quote snapshot (refused from macro observations by default).
    Quote,
    /// Treasury auctions / reverse repo (write sovereignty undecided).
    Treasury,
    /// COT positions.
    Cot,
    /// ETF / inventory.
    EtfInventory,
}

/// The stable identifier of a data kind.
pub open spec fn kind_text(k: DataKind) -> Seq<char> {
    match k {
        DataKind::Flash => "Flash"@,
        DataKind::Calendar => "Calendar"@,
        DataKind::BigEvent => "BigEvent"@,
        DataKind::CentralBank => "CentralBank"@,
        DataKind::Quote => "Quote"@,
        DataKind::Treasury => "Treasury"@,
        DataKind::Cot => "Cot"@,
        DataKind::EtfInventory => "EtfInventory"@,
    }
}

/// The data kind whose identifier is exactly `t` (case sensitive), if any.
pub open spec fn kind_named(t: Seq<char>) -> Option<DataKind> {
    if t == "Flash"@ {
        Some(DataKind::Flash)
    } else if t == "Calendar"@ {
        Some(DataKind::Calendar)
    } else if t == "BigEvent"@ {
        Some(DataKind::BigEvent)
    } else if t == "CentralBank"@ {
        Some(DataKind::CentralBank)
    } else if t == "Quote"@ {
        Some(DataKind::Quote)
    } else if t == "Treasury"@ {
        Some(DataKind::Treasury)
    } else if t == "Cot"@ {
        Some(DataKind::Cot)
    } else if t == "EtfInventory"@ {
        Some(DataKind::EtfInventory)
    } else {
        None
    }
}

/// The detail text of an identifier outside the eight kinds (the identifier given
/// is not repeated).
pub open spec fn kind_detail() -> Seq<char> {
    "数据类别不属于清单固定八类"@
}

/// What parsing a data kind identifier reports.
pub open spec fn kind_outcome(t: Seq<char>) -> Result<DataKind, (Jin10ErrorKind, Seq<char>)> {
    match kind_named(t) {
        Some(k) => Ok(k),
        None => Err((Jin10ErrorKind::Invalid, kind_detail())),
    }
}

impl DataKind {
    /// The stable identifier used by the source listing.
    pub fn as_str(self) -> (s: &'static str)
        ensures
            s@ == kind_text(self),
    {
        match self {
            DataKind::Flash => "Flash",
            DataKind::Calendar => "Calendar",
            DataKind::BigEvent => "BigEvent",
            DataKind::CentralBank => "CentralBank",
            DataKind::Quote => "Quote",
            DataKind::Treasury => "Treasury",
            DataKind::Cot => "Cot",
            DataKind::EtfInventory => "EtfInventory",
        }
    }

    /// Parses a data kind identifier: case sensitive, no synonyms.
    ///
    /// Fails with [`Jin10ErrorKind::Invalid`] outside the eight kinds.
    pub fn parse(input: &str) -> (r: Jin10Result<DataKind>)
        ensures
            report(r) == kind_outcome(input@),
    {
        let given = chars_of(input);
        let kinds = [
            DataKind::Flash,
            DataKind::Calendar,
            DataKind::BigEvent,
            DataKind::CentralBank,
            DataKind::Quote,
            DataKind::Treasury,
            DataKind::Cot,
            DataKind::EtfInventory,
        ];
        let mut i: usize = 0;
        while i < 8
            invariant
                given@ == input@,
                kinds@ == seq![
                    DataKind::Flash,
                    DataKind::Calendar,
                    DataKind::BigEvent,
                    DataKind::CentralBank,
                    DataKind::Quote,
                    DataKind::Treasury,
                    DataKind::Cot,
                    DataKind::EtfInventory,
                ],
                i <= 8,
                forall|k: int| 0 <= k < i ==> input@ != kind_text(#[trigger] kinds@[k]),
            decreases 8 - i,
        {
            let candidate = kinds[i];
            if chars_equal(&given, &chars_of(candidate.as_str())) {
                proof {
                    lemma_kind_round_trip(candidate);
                }
                return Ok(candidate);
            }
            i = i + 1;
        }
        let detail = String::from_str("数据类别不属于清单固定八类");
        proof {
            assert(input@ != kind_text(kinds@[0]));
            assert(input@ != kind_text(kinds@[1]));
            assert(input@ != kind_text(kinds@[2]));
            assert(input@ != kind_text(kinds@[3]));
            assert(input@ != kind_text(kinds@[4]));
            assert(input@ != kind_text(kinds@[5]));
            assert(input@ != kind_text(kinds@[6]));
            assert(input@ != kind_text(kinds@[7]));
        }
        Err(Jin10Error::Invalid(detail))
    }

    /// Whether the kind is a quote (refused from macro observations by default).
    pub fn is_quote(self) -> (b: bool)
        ensures
            b == (self == DataKind::Quote),
    {
        match self {
            DataKind::Quote => true,
            _ => false,
        }
    }

    /// Whether the kind is the auction / reverse-repo kind that overlaps the
    /// treasury library (write sovereignty undecided).
    pub fn overlaps_treasury_write(self) -> (b: bool)
        ensures
            b == (self == DataKind::Treasury),
    {
        match self {
            DataKind::Treasury => true,
            _ => false,
        }
    }
}

/// Reading back the identifier of a data kind gives the same kind:
/// `DataKind::parse(k.as_str())` is `Ok(k)`, and distinct kinds have distinct identifiers.
pub proof fn lemma_kind_round_trip(k: DataKind)
    ensures
        kind_named(kind_text(k)) == Some(k),
        forall|j: DataKind| j != k ==> kind_text(j) != kind_text(k),
{
    reveal_strlit("Flash");
    reveal_strlit("Calendar");
    reveal_strlit("BigEvent");
    reveal_strlit("CentralBank");
    reveal_strlit("Quote");
    reveal_strlit("Treasury");
    reveal_strlit("Cot");
    reveal_strlit("EtfInventory");
    assert forall|j: DataKind| j != k implies kind_text(j) != kind_text(k) by {
        let t = kind_text(j);
        let u = kind_text(k);
        if t.len() == u.len() {
            assert(t[0] != u[0] || t[1] != u[1]);
        }
    }
    let t = kind_text(k);
    assert(t != kind_text(DataKind::Flash) || k == DataKind::Flash);
    assert(t != kind_text(DataKind::Calendar) || k == DataKind::Calendar);
    assert(t != kind_text(DataKind::BigEvent) || k == DataKind::BigEvent);
    assert(t != kind_text(DataKind::CentralBank) || k == DataKind::CentralBank);
    assert(t != kind_text(DataKind::Quote) || k == DataKind::Quote);
    assert(t != kind_text(DataKind::Treasury) || k == DataKind::Treasury);
    assert(t != kind_text(DataKind::Cot) || k == DataKind::Cot);
}

/// Time of day `HH:MM:SS` (24-hour). Kept only when the source gives one; never invented.
#[derive(Debug, Clone, Copy, PartialEq, Eq, Structural, PartialOrd, Ord, Hash)]
pub struct Jin10Clock {
    /// Hour, 0–23.
    pub hour: u8,
    /// Minute, 0–59.
    pub minute: u8,
    /// Second, 0–59.
    pub second: u8,
}

/// The detail text of an hour above 23 (the value itself is not repeated).
pub open spec fn hour_range_detail() -> Seq<char> {
    "时须在 0–23"@
}

impl Jin10Clock {
    /// Hour 0–23, minute and second 0–59.
    pub open spec fn well_formed(self) -> bool {
        self.hour <= 23 && self.minute <= 59 && self.second <= 59
    }

    /// What validating the time of day reports.
    pub open spec fn check(self) -> Result<(), (Jin10ErrorKind, Seq<char>)> {
        if self.hour > 23 {
            Err((Jin10ErrorKind::Invalid, hour_range_detail()))
        } else if self.minute > 59 || self.second > 59 {
            Err((Jin10ErrorKind::Invalid, "分与秒须在 0–59"@))
        } else {
            Ok(())
        }
    }

    /// Builds and validates a time of day.
    ///
    /// Fails with [`Jin10ErrorKind::Invalid`] when a component is out of range.
    pub fn new(hour: u8, minute: u8, second: u8) -> (r: Jin10Result<Jin10Clock>)
        ensures
            report(r) == (match (Jin10Clock { hour, minute, second }).check() {
                Ok(_) => Ok(Jin10Clock { hour, minute, second }),
                Err(e) => Err(e),
            }),
    {
        let clock = Jin10Clock { hour, minute, second };
        match clock.validate() {
            Ok(()) => Ok(clock),
            Err(e) => Err(e),
        }
    }

    /// Checks the hour, minute and second ranges.
    pub fn validate(&self) -> (r: Jin10Result<()>)
        ensures
            report(r) == self.check(),
    {
        if self.hour > 23 {
            return Err(Jin10Error::Invalid(String::from_str("时须在 0–23")));
        }
        if self.minute > 59 || self.second > 59 {
            return Err(Jin10Error::Invalid(String::from_str("分与秒须在 0–59")));
        }
        Ok(())
    }
}

/// Source timestamp: the date is always there, the time of day only when the
/// source gives it. A date is never padded out to `00:00:00`.
#[derive(Debug, Clone, Copy, PartialEq, Eq, Structural, PartialOrd, Ord, Hash)]
pub struct Jin10Timestamp {
    /// Date part.
    pub date: Date,
    /// Time of day; `None` when the source gives none.
    pub clock: Option<Jin10Clock>,
}

/// Date order: by year, then month, then day.
pub open spec fn date_before(a: Date, b: Date) -> bool {
    a.year < b.year || (a.year == b.year && (a.month < b.month || (a.month == b.month
        && a.day < b.day)))
}

/// Time-of-day order: by hour, then minute, then second.
pub open spec fn clock_before(a: Jin10Clock, b: Jin10Clock) -> bool {
    a.hour < b.hour || (a.hour == b.hour && (a.minute < b.minute || (a.minute == b.minute
        && a.second < b.second)))
}

/// Timestamp order: by date; on the same date a date without a time of day comes
/// before one with a time of day, and times of day are ordered among themselves.
pub open spec fn timestamp_before(a: Jin10Timestamp, b: Jin10Timestamp) -> bool {
    date_before(a.date, b.date) || (a.date == b.date && match (a.clock, b.clock) {
        (None, Some(_)) => true,
        (Some(x), Some(y)) => clock_before(x, y),
        _ => false,
    })
}

/// The detail text of a timestamp that is neither `YYYY-MM-DD` nor
/// `YYYY-MM-DDTHH:MM:SS`; it names the two shapes and repeats nothing of the text.
pub open spec fn timestamp_shape_detail() -> Seq<char> {
    "时间戳须为 YYYY-MM-DD 或 YYYY-MM-DDTHH:MM:SS"@
}

impl Jin10Timestamp {
    /// What parsing a timestamp text with these bytes reports.
    pub open spec fn parse_outcome(b: Seq<u8>) -> Result<
        Jin10Timestamp,
        (Jin10ErrorKind, Seq<char>),
    > {
        if b.len() == 10 {
            match Date::parse_outcome(b) {
                Ok(d) => Ok(Jin10Timestamp { date: d, clock: None }),
                Err(e) => Err(e),
            }
        } else if !(b.len() == 19 && b[10] == 84) {
            Err((Jin10ErrorKind::Invalid, timestamp_shape_detail()))
        } else if !(b[13] == 58 && b[16] == 58) {
            Err((Jin10ErrorKind::Invalid, "时刻须为 HH:MM:SS"@))
        } else {
            match Date::parse_outcome(b.subrange(0, 10)) {
                Err(e) => Err(e),
                Ok(d) => if !super::all_digits(b.subrange(11, 13)) {
                    Err((Jin10ErrorKind::Invalid, digits_detail("时"@)))
                } else if !super::all_digits(b.subrange(14, 16)) {
                    Err((Jin10ErrorKind::Invalid, digits_detail("分"@)))
                } else if !super::all_digits(b.subrange(17, 19)) {
                    Err((Jin10ErrorKind::Invalid, digits_detail("秒"@)))
                } else {
                    let c = Jin10Clock {
                        hour: super::digits_value(b.subrange(11, 13)) as u8,
                        minute: super::digits_value(b.subrange(14, 16)) as u8,
                        second: super::digits_value(b.subrange(17, 19)) as u8,
                    };
                    match c.check() {
                        Ok(_) => Ok(Jin10Timestamp { date: d, clock: Some(c) }),
                        Err(e) => Err(e),
                    }
                },
            }
        }
    }

    /// A timestamp of a date alone.
    pub fn date_only(date: Date) -> (t: Jin10Timestamp)
        ensures
            t == (Jin10Timestamp { date, clock: None }),
    {
        Jin10Timestamp { date, clock: None }
    }

    /// Strictly parses `YYYY-MM-DD` or `YYYY-MM-DDTHH:MM:SS`; a time zone offset,
    /// fractional seconds or a missing `T` are refused with [`Jin10ErrorKind::Invalid`].
    pub fn parse(input: &str) -> (r: Jin10Result<Jin10Timestamp>)
        ensures
            report(r) == Jin10Timestamp::parse_outcome(input.spec_bytes()),
    {
        let bytes = input.as_bytes();
        if bytes.len() == 10 {
            return match Date::parse(input) {
                Ok(date) => Ok(Jin10Timestamp::date_only(date)),
                Err(e) => Err(e),
            };
        }
        if bytes.len() != 19 || bytes[10] != 84u8 {
            return Err(
                Jin10Error::Invalid(String::from_str("时间戳须为 YYYY-MM-DD 或 YYYY-MM-DDTHH:MM:SS")),
            );
        }
        if bytes[13] != 58u8 || bytes[16] != 58u8 {
            return Err(Jin10Error::Invalid(String::from_str("时刻须为 HH:MM:SS")));
        }
        proof {
            assert(valid_utf8(bytes@));
            vstd::utf8::is_char_boundary_iff_not_is_continuation_byte(bytes@, 10);
        }
        let (head, _) = input.split_at(10);
        let date = match Date::parse(head) {
            Ok(date) => date,
            Err(e) => return Err(e),
        };
        let hour = match read_digits(bytes, 11, 13) {
            Some(v) => v,
            None => return Err(Jin10Error::Invalid(digits_error("时"))),
        };
        let minute = match read_digits(bytes, 14, 16) {
            Some(v) => v,
            None => return Err(Jin10Error::Invalid(digits_error("分"))),
        };
        let second = match read_digits(bytes, 17, 19) {
            Some(v) => v,
            None => return Err(Jin10Error::Invalid(digits_error("秒"))),
        };
        match Jin10Clock::new(hour as u8, minute as u8, second as u8) {
            Ok(clock) => Ok(Jin10Timestamp { date, clock: Some(clock) }),
            Err(e) => Err(e),
        }
    }

    /// Whether this timestamp comes strictly before `other` (the order that `<` uses).
    pub fn precedes(&self, other: &Jin10Timestamp) -> (b: bool)
        ensures
            b == timestamp_before(*self, *other),
    {
        let (a, c) = (self.date, other.date);
        if a.year != c.year {
            return a.year < c.year;
        }
        if a.month != c.month {
            return a.month < c.month;
        }
        if a.day != c.day {
            return a.day < c.day;
        }
        match (self.clock, other.clock) {
            (None, Some(_)) => true,
            (Some(x), Some(y)) => {
                if x.hour != y.hour {
                    x.hour < y.hour
                } else if x.minute != y.minute {
                    x.minute < y.minute
                } else {
                    x.second < y.second
                }
            },
            _ => false,
        }
    }
}

/// The timestamp order is a strict total order: irreflexive, transitive, and any
/// two different timestamps are ordered one way or the other.
pub proof fn lemma_timestamp_order(a: Jin10Timestamp, b: Jin10Timestamp, c: Jin10Timestamp)
    ensures
        !timestamp_before(a, a),
        timestamp_before(a, b) && timestamp_before(b, c) ==> timestamp_before(a, c),
        a != b ==> timestamp_before(a, b) || timestamp_before(b, a),
        timestamp_before(a, b) ==> !timestamp_before(b, a),
{
    if a != b {
        if a.date == b.date {
            match (a.clock, b.clock) {
                (Some(x), Some(y)) => {
                    assert(x != y);
                },
                _ => {},
            }
        }
    }
}

/// A date as one number: year, then month, then day, each in its own digit range.
pub open spec fn date_key(d: Date) -> int {
    d.year as int * 65536 + d.month as int * 256 + d.day as int
}

/// A time of day as one number: hour, then minute, then second.
pub open spec fn clock_key(c: Jin10Clock) -> int {
    c.hour as int * 65536 + c.minute as int * 256 + c.second as int
}

/// A timestamp as one number: the date first; on a date, no time of day comes
/// before every time of day.
pub open spec fn timestamp_key(t: Jin10Timestamp) -> int {
    date_key(t.date) * 16777217 + match t.clock {
        None => 0,
        Some(c) => 1 + clock_key(c),
    }
}

/// The time-of-day order is chronological: hour first, then minute, then second.
pub proof fn lemma_clock_order_is_chronological(x: Jin10Clock, y: Jin10Clock)
    ensures
        clock_before(x, y) <==> clock_key(x) < clock_key(y),
{
}

/// The timestamp order is chronological: it is the numeric order of the keys that
/// put year before month before day, then no time of day before any, then hour
/// before minute before second. So `10:05:00` comes after `09:31:05` on one day,
/// and any date comes after every time of the day before.
pub proof fn lemma_timestamp_order_is_chronological(a: Jin10Timestamp, b: Jin10Timestamp)
    ensures
        date_before(a.date, b.date) <==> date_key(a.date) < date_key(b.date),
        timestamp_before(a, b) <==> timestamp_key(a) < timestamp_key(b),
{
    if a.clock is Some && b.clock is Some {
        lemma_clock_order_is_chronological(a.clock->0, b.clock->0);
    }
    let ca: int = match a.clock {
        None => 0,
        Some(c) => 1 + clock_key(c),
    };
    let cb: int = match b.clock {
        None => 0,
        Some(c) => 1 + clock_key(c),
    };
    assert(0 <= ca <= 16777216 && 0 <= cb <= 16777216);
    if date_key(a.date) < date_key(b.date) {
        assert(date_key(a.date) * 16777217 + 16777217 <= date_key(b.date) * 16777217);
    } else if date_key(a.date) > date_key(b.date) {
        assert(date_key(b.date) * 16777217 + 16777217 <= date_key(a.date) * 16777217);
    }
}

/// A parsed timestamp is a real date and, when it has one, a real time of day; a
/// text of ten bytes (a date alone) never gets an invented time of day.
pub proof fn lemma_parsed_timestamp_is_sound(b: Seq<u8>)
    requires
        Jin10Timestamp::parse_outcome(b) is Ok,
    ensures
        Jin10Timestamp::parse_outcome(b)->Ok_0.date.well_formed(),
        Jin10Timestamp::parse_outcome(b)->Ok_0.clock matches Some(c) ==> c.well_formed(),
        b.len() == 10 ==> Jin10Timestamp::parse_outcome(b)->Ok_0.clock is None,
{
    if b.len() != 10 {
        super::lemma_parsed_date_is_well_formed(b.subrange(0, 10));
    } else {
        super::lemma_parsed_date_is_well_formed(b);
    }
}

/// Every failure to parse a timestamp is [`Jin10ErrorKind::Invalid`].
pub proof fn lemma_timestamp_errors_are_invalid(b: Seq<u8>)
    ensures
        Jin10Timestamp::parse_outcome(b) is Err ==> Jin10Timestamp::parse_outcome(b)->Err_0.0
            == Jin10ErrorKind::Invalid,
{
    super::lemma_date_errors_are_invalid(b);
    if b.len() >= 10 {
        super::lemma_date_errors_are_invalid(b.subrange(0, 10));
    }
}

/// Planned interface identifier (S01–S08).
#[non_exhaustive]
#[derive(Debug, Clone, Copy, PartialEq, Eq, Structural, Hash)]
pub enum InterfaceId {
    /// S01 flash news (WS/SSE with HTTP fallback).
    S01,
    /// S02 economic calendar.
    S02,
    /// S03 major events.
    S03,
    /// S04 central bank news.
    S04,
    /// S05 quote snapshot.
    S05,
    /// S06 treasury auctions / reverse repo.
    S06,
    /// S07 COT positions.
    S07,
    /// S08 ETF / inventory.
    S08,
}

/// The identifier text of a planned interface.
pub open spec fn interface_text(id: InterfaceId) -> Seq<char> {
    match id {
        InterfaceId::S01 => "S01"@,
        InterfaceId::S02 => "S02"@,
        InterfaceId::S03 => "S03"@,
        InterfaceId::S04 => "S04"@,
        InterfaceId::S05 => "S05"@,
        InterfaceId::S06 => "S06"@,
        InterfaceId::S07 => "S07"@,
        InterfaceId::S08 => "S08"@,
    }
}

/// Position of an interface in the planned table.
pub open spec fn interface_index(id: InterfaceId) -> int {
    match id {
        InterfaceId::S01 => 0,
        InterfaceId::S02 => 1,
        InterfaceId::S03 => 2,
        InterfaceId::S04 => 3,
        InterfaceId::S05 => 4,
        InterfaceId::S06 => 5,
        InterfaceId::S07 => 6,
        InterfaceId::S08 => 7,
    }
}

/// One planned interface: identifier, name, the source listing's transport text verbatim,
/// and the planned period. The period is planning only and no access contract
/// (see [`PLANNED_PERIODS_ARE_NOT_ACCESS_CONTRACT`]); the transport text implements nothing.
#[derive(Debug, Clone, Copy, PartialEq, Eq)]
pub struct Jin10InterfacePlan {
    /// Interface identifier.
    pub id: InterfaceId,
    /// Interface name given by the source listing.
    pub name: &'static str,
    /// The source listing's transport column, verbatim (a plan, not an implementation).
    pub declared_transport: &'static str,
    /// Planned period in seconds; `None` where the source listing gives no period in seconds.
    pub planned_period_secs: Option<u32>,
    /// The source listing's period text, for checking by hand.
    pub planned_period_note: &'static str,
}

/// The planned table entry of an interface: name, transport text, period in
/// seconds and period text, as the source listing lists them.
pub open spec fn planned(id: InterfaceId) -> (Seq<char>, Seq<char>, Option<u32>, Seq<char>) {
    match id {
        InterfaceId::S01 => ("快讯"@, "WS/SSE + HTTP"@, Some(5u32), "实时/5s"@),
        InterfaceId::S02 => ("经济日历"@, "HTTP"@, Some(60u32), "60s（窗 5s）"@),
        InterfaceId::S03 => ("财经大事"@, "HTTP"@, Some(300u32), "300s"@),
        InterfaceId::S04 => ("央行动态"@, "HTTP"@, Some(60u32), "60s"@),
        InterfaceId::S05 => ("行情快照"@, "HTTP"@, Some(3u32), "3s"@),
        InterfaceId::S06 => ("国债拍卖/逆回购"@, "HTTP"@, Some(3600u32), "3600s"@),
        InterfaceId::S07 => ("COT 持仓"@, "HTTP"@, None, "每周六"@),
        InterfaceId::S08 => ("ETF/库存"@, "HTTP"@, Some(86400u32), "86400s"@),
    }
}

impl Jin10InterfacePlan {
    /// The entry is the planned table's entry for its identifier.
    pub open spec fn is_entry_of(self, id: InterfaceId) -> bool {
        &&& self.id == id
        &&& (self.name@, self.declared_transport@, self.planned_period_secs, self.planned_period_note@)
            == planned(id)
    }
}

/// The S01–S08 planned interface table, in identifier order.
pub fn interface_plans() -> (t: [Jin10InterfacePlan; 8])
    ensures
        forall|i: int|
            0 <= i < 8 ==> interface_index(#[trigger] t@[i].id) == i && t@[i].is_entry_of(t@[i].id),
{
    [
        Jin10InterfacePlan {
            id: InterfaceId::S01,
            name: "快讯",
            declared_transport: "WS/SSE + HTTP",
            planned_period_secs: Some(5),
            planned_period_note: "实时/5s",
        },
        Jin10InterfacePlan {
            id: InterfaceId::S02,
            name: "经济日历",
            declared_transport: "HTTP",
            planned_period_secs: Some(60),
            planned_period_note: "60s（窗 5s）",
        },
        Jin10InterfacePlan {
            id: InterfaceId::S03,
            name: "财经大事",
            declared_transport: "HTTP",
            planned_period_secs: Some(300),
            planned_period_note: "300s",
        },
        Jin10InterfacePlan {
            id: InterfaceId::S04,
            name: "央行动态",
            declared_transport: "HTTP",
            planned_period_secs: Some(60),
            planned_period_note: "60s",
        },
        Jin10InterfacePlan {
            id: InterfaceId::S05,
            name: "行情快照",
            declared_transport: "HTTP",
            planned_period_secs: Some(3),
            planned_period_note: "3s",
        },
        Jin10InterfacePlan {
            id: InterfaceId::S06,
            name: "国债拍卖/逆回购",
            declared_transport: "HTTP",
            planned_period_secs: Some(3600),
            planned_period_note: "3600s",
        },
        Jin10InterfacePlan {
            id: InterfaceId::S07,
            name: "COT 持仓",
            declared_transport: "HTTP",
            planned_period_secs: None,
            planned_period_note: "每周六",
        },
        Jin10InterfacePlan {
            id: InterfaceId::S08,
            name: "ETF/库存",
            declared_transport: "HTTP",
            planned_period_secs: Some(86400),
            planned_period_note: "86400s",
        },
    ]
}

impl InterfaceId {
    /// The identifier text.
    pub fn as_str(self) -> (s: &'static str)
        ensures
            s@ == interface_text(self),
    {
        match self {
            InterfaceId::S01 => "S01",
            InterfaceId::S02 => "S02",
            InterfaceId::S03 => "S03",
            InterfaceId::S04 => "S04",
            InterfaceId::S05 => "S05",
            InterfaceId::S06 => "S06",
            InterfaceId::S07 => "S07",
            InterfaceId::S08 => "S08",
        }
    }

    /// The table entry of this interface (lookup by identifier in [`interface_plans`]).
    pub fn plan(self) -> (p: Jin10InterfacePlan)
        ensures
            p.is_entry_of(self),
    {
        let index: usize = match self {
            InterfaceId::S01 => 0,
            InterfaceId::S02 => 1,
            InterfaceId::S03 => 2,
            InterfaceId::S04 => 3,
            InterfaceId::S05 => 4,
            InterfaceId::S06 => 5,
            InterfaceId::S07 => 6,
            InterfaceId::S08 => 7,
        };
        let table = interface_plans();
        let p = table[index];
        assert(interface_index(p.id) == index);
        p
    }
}

/// Importance: only 1–5.
#[derive(Debug, Clone, Copy, PartialEq, Eq, PartialOrd, Ord, Hash)]
pub struct Jin10Importance(u8);

impl View for Jin10Importance {
    type V = u8;

    closed spec fn view(&self) -> u8 {
        self.0
    }
}

/// The detail text of an importance outside 1–5 (the value itself is not repeated).
pub open spec fn importance_detail() -> Seq<char> {
    "重要度须在 1–5"@
}

/// The importance holding `value` (meaningful for 1–5 only).
pub closed spec fn importance_of(value: u8) -> Jin10Importance {
    Jin10Importance(value)
}

/// The importance built from `value` holds `value`.
pub proof fn lemma_importance_of(value: u8)
    ensures
        importance_of(value)@ == value,
{
}

impl Jin10Importance {
    /// Every importance lies in 1–5.
    #[verifier::type_invariant]
    closed spec fn in_range(self) -> bool {
        1 <= self.0 <= 5
    }

    /// Builds and checks an importance.
    ///
    /// Fails with [`Jin10ErrorKind::Invalid`] outside 1–5.
    pub fn new(value: u8) -> (r: Jin10Result<Jin10Importance>)
        ensures
            r matches Ok(i) ==> i@ == value && i == importance_of(value),
            r is Ok <==> 1 <= value <= 5,
            r matches Err(e) ==> e@ == (Jin10ErrorKind::Invalid, importance_detail()),
    {
        if 1 <= value && value <= 5 {
            Ok(Jin10Importance(value))
        } else {
            Err(Jin10Error::Invalid(String::from_str("重要度须在 1–5")))
        }
    }

    /// The value, always within 1–5.
    pub fn get(self) -> (v: u8)
        ensures
            v == self@,
            1 <= v <= 5,
    {
        proof {
            use_type_invariant(&self);
        }
        self.0
    }
}

} // verus!
