//! Envelopes, the three payloads whose fields the source listing fixes, and their checks.
//!
//! Only flash news, calendar events and quote snapshots have fixed fields; the
//! payloads of the other five kinds are not modelled (no fields are invented).
use super::envelope::{kind_text, timestamp_before, DataKind, Jin10Importance, Jin10Timestamp, SOURCE_ID};
use super::number::{
    absent_or_finite, exponent_field, finite_bits, is_absent_or_finite, lemma_finite_by_exponent,
    Jin10Number,
};
use super::report;
use crate::error::{Jin10Error, Jin10ErrorKind, Jin10Result};
use crate::text::{blank, is_blank, same_text};
use vstd::prelude::*;

verus! {

/// Flash news payload.
#[derive(Debug, Clone, PartialEq)]
pub struct FlashNews {
    /// Importance 1–5.
    pub importance: Jin10Importance,
    /// Channel tags (may be empty).
    pub channels: Vec<String>,
    /// Body text.
    pub content: String,
    /// Whether this is a data flash (as opposed to a text-only one).
    pub is_data: bool,
}

/// Economic calendar payload.
///
/// `surprise_z` is a source field: it is carried as the source gives it and never computed.
#[derive(Debug, Clone, PartialEq)]
pub struct CalendarEvent {
    /// Country or region.
    pub country: String,
    /// Indicator name.
    pub indicator: String,
    /// Previous value.
    pub previous: Option<Jin10Number>,
    /// Consensus.
    pub consensus: Option<Jin10Number>,
    /// Actual value.
    pub actual: Option<Jin10Number>,
    /// Revised value.
    pub revised: Option<Jin10Number>,
    /// Surprise z given by the source (`None` when the source gives none).
    pub surprise_z: Option<Jin10Number>,
}

/// Quote snapshot payload.
#[derive(Debug, Clone, PartialEq)]
pub struct QuoteSnapshot {
    /// Instrument symbol.
    pub symbol: String,
    /// Price.
    pub price: Jin10Number,
    /// Change in percent, as the source gives it.
    pub change_pct: Jin10Number,
    /// Source timestamp.
    pub ts: Jin10Timestamp,
}

/// Envelope payload: the three kinds whose fields the source listing fixes.
#[non_exhaustive]
#[derive(Debug, Clone, PartialEq)]
pub enum Jin10Payload {
    /// Flash news.
    Flash(FlashNews),
    /// Economic calendar.
    Calendar(CalendarEvent),
    /// Quote snapshot.
    Quote(QuoteSnapshot),
}

/// The data kind of a payload.
pub open spec fn payload_kind(p: Jin10Payload) -> DataKind {
    match p {
        Jin10Payload::Flash(_) => DataKind::Flash,
        Jin10Payload::Calendar(_) => DataKind::Calendar,
        Jin10Payload::Quote(_) => DataKind::Quote,
    }
}

impl Jin10Payload {
    /// The data kind of the payload.
    pub fn kind(&self) -> (k: DataKind)
        ensures
            k == payload_kind(*self),
    {
        match self {
            Jin10Payload::Flash(_) => DataKind::Flash,
            Jin10Payload::Calendar(_) => DataKind::Calendar,
            Jin10Payload::Quote(_) => DataKind::Quote,
        }
    }
}

/// Unified envelope (the source listing's field set).
#[derive(Debug, Clone, PartialEq)]
pub struct Jin10Envelope<T> {
    /// Message identifier.
    pub msg_id: String,
    /// Source identifier; must equal [`SOURCE_ID`].
    pub source: String,
    /// Data kind.
    pub kind: DataKind,
    /// Event time given by the source.
    pub event_time: Jin10Timestamp,
    /// Collection time given by the source.
    pub collect_time: Jin10Timestamp,
    /// Payload.
    pub payload: T,
    /// Reference to the raw message (not a URL; never resolved here).
    pub raw_ref: Option<String>,
}

/// The five numeric calendar fields are each absent or finite.
pub open spec fn calendar_numbers_finite(e: CalendarEvent) -> bool {
    absent_or_finite(e.previous) && absent_or_finite(e.consensus) && absent_or_finite(e.actual)
        && absent_or_finite(e.revised) && absent_or_finite(e.surprise_z)
}

/// What checking a payload reports.
pub open spec fn payload_check(p: Jin10Payload) -> Result<(), (Jin10ErrorKind, Seq<char>)> {
    match p {
        Jin10Payload::Flash(news) => if blank(news.content@) {
            Err((Jin10ErrorKind::Missing, "content"@))
        } else {
            Ok(())
        },
        Jin10Payload::Calendar(event) => if blank(event.country@) {
            Err((Jin10ErrorKind::Missing, "country"@))
        } else if blank(event.indicator@) {
            Err((Jin10ErrorKind::Missing, "indicator"@))
        } else if !calendar_numbers_finite(event) {
            Err((Jin10ErrorKind::Invalid, "日历数值字段须为有限数值，缺失须保持 None"@))
        } else {
            Ok(())
        },
        Jin10Payload::Quote(quote) => if blank(quote.symbol@) {
            Err((Jin10ErrorKind::Missing, "symbol"@))
        } else if !(finite_bits(quote.price@) && finite_bits(quote.change_pct@)) {
            Err((Jin10ErrorKind::Invalid, "price 与 change_pct 须为有限数值"@))
        } else {
            Ok(())
        },
    }
}

/// The detail text of a source other than this one: it names the expected source
/// and repeats nothing of the source given.
pub open spec fn source_detail() -> Seq<char> {
    "source 须为 \"jin10\""@
}

/// The detail text of a payload whose kind differs from the declared one.
pub open spec fn kind_mismatch_detail(payload: DataKind, declared: DataKind) -> Seq<char> {
    "载荷类别 "@ + kind_text(payload) + " 与声明的 kind "@ + kind_text(declared) + " 不一致"@
}

/// What checking an envelope reports.
pub open spec fn envelope_check(e: Jin10Envelope<Jin10Payload>) -> Result<
    (),
    (Jin10ErrorKind, Seq<char>),
> {
    if blank(e.msg_id@) {
        Err((Jin10ErrorKind::Missing, "msg_id"@))
    } else if e.source@ != SOURCE_ID@ {
        Err((Jin10ErrorKind::SemanticallyRejected, source_detail()))
    } else if timestamp_before(e.collect_time, e.event_time) {
        Err((Jin10ErrorKind::Invalid, "collect_time 早于 event_time"@))
    } else if payload_kind(e.payload) != e.kind {
        Err(
            (
                Jin10ErrorKind::SemanticallyRejected,
                kind_mismatch_detail(payload_kind(e.payload), e.kind),
            ),
        )
    } else {
        payload_check(e.payload)
    }
}

/// Checks an envelope: identifier present, source is this one, collection not before
/// the event, payload of the declared kind, and the payload's own checks.
pub fn validate_envelope(envelope: &Jin10Envelope<Jin10Payload>) -> (r: Jin10Result<()>)
    ensures
        report(r) == envelope_check(*envelope),
{
    if is_blank(envelope.msg_id.as_str()) {
        return Err(Jin10Error::Missing(String::from_str("msg_id")));
    }
    if !same_text(envelope.source.as_str(), SOURCE_ID) {
        return Err(Jin10Error::SemanticallyRejected(String::from_str("source 须为 \"jin10\"")));
    }
    if envelope.collect_time.precedes(&envelope.event_time) {
        return Err(Jin10Error::Invalid(String::from_str("collect_time 早于 event_time")));
    }
    let payload_kind = envelope.payload.kind();
    if payload_kind != envelope.kind {
        let mut detail = String::from_str("载荷类别 ");
        detail.append(payload_kind.as_str());
        detail.append(" 与声明的 kind ");
        detail.append(envelope.kind.as_str());
        detail.append(" 不一致");
        return Err(Jin10Error::SemanticallyRejected(detail));
    }
    validate_payload(&envelope.payload)
}

/// Checks a payload's own constraints: required texts present, numbers finite.
pub fn validate_payload(payload: &Jin10Payload) -> (r: Jin10Result<()>)
    ensures
        report(r) == payload_check(*payload),
{
    match payload {
        Jin10Payload::Flash(news) => {
            if is_blank(news.content.as_str()) {
                return Err(Jin10Error::Missing(String::from_str("content")));
            }
        },
        Jin10Payload::Calendar(event) => {
            if is_blank(event.country.as_str()) {
                return Err(Jin10Error::Missing(String::from_str("country")));
            }
            if is_blank(event.indicator.as_str()) {
                return Err(Jin10Error::Missing(String::from_str("indicator")));
            }
            if !(is_absent_or_finite(event.previous) && is_absent_or_finite(event.consensus)
                && is_absent_or_finite(event.actual) && is_absent_or_finite(event.revised)
                && is_absent_or_finite(event.surprise_z)) {
                return Err(
                    Jin10Error::Invalid(String::from_str("日历数值字段须为有限数值，缺失须保持 None")),
                );
            }
        },
        Jin10Payload::Quote(quote) => {
            if is_blank(quote.symbol.as_str()) {
                return Err(Jin10Error::Missing(String::from_str("symbol")));
            }
            if !quote.price.is_finite() || !quote.change_pct.is_finite() {
                return Err(Jin10Error::Invalid(String::from_str("price 与 change_pct 须为有限数值")));
            }
        },
    }
    Ok(())
}

/// An envelope that passes [`validate_envelope`] has a non-blank identifier, this
/// source, a collection time not before its event time, a payload of the declared
/// kind, and a payload that passes [`validate_payload`].
pub proof fn lemma_valid_envelope(e: Jin10Envelope<Jin10Payload>)
    requires
        envelope_check(e) is Ok,
    ensures
        !blank(e.msg_id@),
        e.source@ == SOURCE_ID@,
        !timestamp_before(e.collect_time, e.event_time),
        payload_kind(e.payload) == e.kind,
        payload_check(e.payload) is Ok,
{
}


/// An optional number passes the checks exactly when it is absent or its exponent
/// field is not all ones, whatever its sign.
pub open spec fn absent_or_finite_exponent(a: Option<Jin10Number>) -> bool {
    match a {
        None => true,
        Some(x) => exponent_field(x@) != 0x7ff,
    }
}

/// What the payload check accepts, stated over the doubles' exponent fields: a flash
/// passes exactly when its content is not blank; a calendar event exactly when its
/// country and indicator are not blank and each of its five numbers is absent or
/// finite; a quote exactly when its symbol is not blank and its price and change are
/// finite. Negative finite numbers are accepted like positive ones.
pub proof fn lemma_payload_acceptance(p: Jin10Payload)
    ensures
        p matches Jin10Payload::Flash(f) ==> (payload_check(p) is Ok <==> !blank(f.content@)),
        p matches Jin10Payload::Calendar(e) ==> (payload_check(p) is Ok <==> (!blank(e.country@)
            && !blank(e.indicator@) && absent_or_finite_exponent(e.previous)
            && absent_or_finite_exponent(e.consensus) && absent_or_finite_exponent(e.actual)
            && absent_or_finite_exponent(e.revised) && absent_or_finite_exponent(e.surprise_z))),
        p matches Jin10Payload::Quote(q) ==> (payload_check(p) is Ok <==> (!blank(q.symbol@)
            && exponent_field(q.price@) != 0x7ff && exponent_field(q.change_pct@) != 0x7ff)),
{
    match p {
        Jin10Payload::Flash(_) => {},
        Jin10Payload::Calendar(e) => {
            lemma_optional_exponent(e.previous);
            lemma_optional_exponent(e.consensus);
            lemma_optional_exponent(e.actual);
            lemma_optional_exponent(e.revised);
            lemma_optional_exponent(e.surprise_z);
        },
        Jin10Payload::Quote(q) => {
            lemma_finite_by_exponent(q.price@);
            lemma_finite_by_exponent(q.change_pct@);
        },
    }
}

proof fn lemma_optional_exponent(a: Option<Jin10Number>)
    ensures
        absent_or_finite(a) == absent_or_finite_exponent(a),
{
    if let Some(x) = a {
        lemma_finite_by_exponent(x@);
    }
}

} // verus!
