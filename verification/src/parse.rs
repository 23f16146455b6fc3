//! Offline conversion of an envelope document into typed envelopes.
//!
//! The document's JSON text is decoded elsewhere into the plain `Raw*` values
//! below; everything that decides what becomes of them is here:
//!
//! 1. only explicitly marked synthetic samples are accepted (`_synthetic: true`
//!    and a non-blank `_note`);
//! 2. a duplicated `msg_id` rejects the whole document (no deduplication);
//! 3. each envelope's kind, timestamps, raw reference and payload are checked,
//!    and one failure fails the whole document (atomic);
//! 4. the five kinds whose payload fields the source listing does not fix are
//!    `NotApplicable`: no fields are invented for them.
use crate::error::{Jin10Error, Jin10ErrorKind, Jin10Result};
use crate::text::{blank, contains, contains_text, is_blank, same_text};
use crate::value::envelope::{
    importance_detail, importance_of, kind_outcome, kind_text, lemma_timestamp_errors_are_invalid,
    DataKind, Jin10Importance, Jin10Timestamp,
};
use crate::value::number::Jin10Number;
use crate::value::payload::{
    envelope_check, payload_kind, validate_envelope, CalendarEvent, FlashNews, Jin10Envelope, Jin10Payload,
    QuoteSnapshot,
};
use vstd::prelude::*;
use vstd::utf8::encode_utf8;

verus! {

/// Root object of an envelope document.
pub struct RawEnvelopeFile {
    /// The `_synthetic` marker, when present.
    pub synthetic: Option<bool>,
    /// The `_note` text, when present.
    pub note: Option<String>,
    /// The envelopes, in document order.
    pub envelopes: Vec<RawEnvelope>,
}

/// One envelope as the document writes it.
pub struct RawEnvelope {
    /// Message identifier.
    pub msg_id: String,
    /// Source identifier.
    pub source: String,
    /// Data kind identifier.
    pub kind: String,
    /// Event time text.
    pub event_time: String,
    /// Collection time text.
    pub collect_time: String,
    /// The payload.
    pub payload: RawPayload,
    /// Raw message reference, when present.
    pub raw_ref: Option<String>,
}

/// A payload decoded under each of the three fixed payload shapes; a shape is
/// `None` when the payload does not decode to it (an unknown field, a missing
/// required field or a value of the wrong type).
pub struct RawPayload {
    /// The payload as flash news.
    pub flash: Option<RawFlashNews>,
    /// The payload as a calendar event.
    pub calendar: Option<RawCalendarEvent>,
    /// The payload as a quote snapshot.
    pub quote: Option<RawQuoteSnapshot>,
}

/// Flash news as the document writes it.
pub struct RawFlashNews {
    /// Importance number (checked to 1–5 on conversion).
    pub importance: u8,
    /// Channel tags.
    pub channels: Vec<String>,
    /// Body text.
    pub content: String,
    /// Data flash marker.
    pub is_data: bool,
}

/// Calendar event as the document writes it.
pub struct RawCalendarEvent {
    /// Country or region.
    pub country: String,
    /// Indicator name.
    pub indicator: String,
    /// Previous value.
    pub previous: Option<Jin10Number>,
    /// Consensus.
    pub consensus: Option<Jin10Number>,
    /// Actual value.
    pub actual: Option<Jin10Number>,
    /// Revised value.
    pub revised: Option<Jin10Number>,
    /// Surprise z.
    pub surprise_z: Option<Jin10Number>,
}

/// Quote snapshot as the document writes it.
pub struct RawQuoteSnapshot {
    /// Instrument symbol.
    pub symbol: String,
    /// Price.
    pub price: Jin10Number,
    /// Change in percent.
    pub change_pct: Jin10Number,
    /// Timestamp text.
    pub ts: String,
}

/// What checking the synthetic marker reports.
pub open spec fn marker_check(synthetic: Option<bool>, note: Option<String>) -> Result<
    (),
    (Jin10ErrorKind, Seq<char>),
> {
    match synthetic {
        Some(false) => Err(
            (
                Jin10ErrorKind::SemanticallyRejected,
                "文件声明 _synthetic=false：本层只接受显式标注的合成样本"@,
            ),
        ),
        None => Err(
            (
                Jin10ErrorKind::SemanticallyRejected,
                "文件缺少 _synthetic 标注：本层只接受显式标注的合成样本"@,
            ),
        ),
        Some(true) => if note matches Some(n) && !blank(n@) {
            Ok(())
        } else {
            Err(
                (
                    Jin10ErrorKind::SemanticallyRejected,
                    "文件缺少 _note 说明：合成样本须自带可直接阅读的说明"@,
                ),
            )
        },
    }
}

/// Checks the explicit synthetic marker: `_synthetic` must be `true` and `_note` non-blank.
fn require_synthetic_marker(synthetic: Option<bool>, note: &Option<String>) -> (r: Jin10Result<()>)
    ensures
        crate::value::report(r) == marker_check(synthetic, *note),
{
    match synthetic {
        Some(true) => {},
        Some(false) => {
            return Err(
                Jin10Error::SemanticallyRejected(
                    String::from_str("文件声明 _synthetic=false：本层只接受显式标注的合成样本"),
                ),
            );
        },
        None => {
            return Err(
                Jin10Error::SemanticallyRejected(
                    String::from_str("文件缺少 _synthetic 标注：本层只接受显式标注的合成样本"),
                ),
            );
        },
    }
    let note_blank = match note {
        Some(n) => is_blank(n.as_str()),
        None => true,
    };
    if note_blank {
        return Err(
            Jin10Error::SemanticallyRejected(
                String::from_str("文件缺少 _note 说明：合成样本须自带可直接阅读的说明"),
            ),
        );
    }
    Ok(())
}

/// The detail text of a payload that does not have its kind's fixed shape; it
/// names the kind only and echoes none of the payload's content.
pub open spec fn structure_detail(kind: DataKind) -> Seq<char> {
    kind_text(kind) + " 载荷结构非法：存在未知字段、缺少必需字段或类型不符"@
}

/// The detail text of a kind whose payload fields the source listing does not fix.
pub open spec fn unfixed_detail(kind: DataKind) -> Seq<char> {
    kind_text(kind) + " 的载荷字段未被清单固定，离线解析不实现（不得编造字段）"@
}

/// A content-free structure error for a payload of `kind`.
fn payload_structure_error(kind: DataKind) -> (e: Jin10Error)
    ensures
        e@ == (Jin10ErrorKind::Invalid, structure_detail(kind)),
{
    let mut detail = String::from_str(kind.as_str());
    detail.append(" 载荷结构非法：存在未知字段、缺少必需字段或类型不符");
    Jin10Error::Invalid(detail)
}

/// What converting a raw payload under `kind` reports; on success, the payload it builds.
pub open spec fn payload_outcome(kind: DataKind, raw: RawPayload) -> Result<
    Jin10Payload,
    (Jin10ErrorKind, Seq<char>),
> {
    match kind {
        DataKind::Flash => match raw.flash {
            None => Err((Jin10ErrorKind::Invalid, structure_detail(kind))),
            Some(f) => if 1 <= f.importance <= 5 {
                Ok(
                    Jin10Payload::Flash(
                        FlashNews {
                            importance: importance_of(f.importance),
                            channels: f.channels,
                            content: f.content,
                            is_data: f.is_data,
                        },
                    ),
                )
            } else {
                Err((Jin10ErrorKind::Invalid, importance_detail()))
            },
        },
        DataKind::Calendar => match raw.calendar {
            None => Err((Jin10ErrorKind::Invalid, structure_detail(kind))),
            Some(c) => Ok(
                Jin10Payload::Calendar(
                    CalendarEvent {
                        country: c.country,
                        indicator: c.indicator,
                        previous: c.previous,
                        consensus: c.consensus,
                        actual: c.actual,
                        revised: c.revised,
                        surprise_z: c.surprise_z,
                    },
                ),
            ),
        },
        DataKind::Quote => match raw.quote {
            None => Err((Jin10ErrorKind::Invalid, structure_detail(kind))),
            Some(q) => match Jin10Timestamp::parse_outcome(encode_utf8(q.ts@)) {
                Err(e) => Err(e),
                Ok(ts) => Ok(
                    Jin10Payload::Quote(
                        QuoteSnapshot {
                            symbol: q.symbol,
                            price: q.price,
                            change_pct: q.change_pct,
                            ts,
                        },
                    ),
                ),
            },
        },
        _ => Err((Jin10ErrorKind::NotApplicable, unfixed_detail(kind))),
    }
}

/// Converts a raw payload under `kind`; the five kinds without fixed fields are
/// `NotApplicable`.
fn convert_payload(kind: DataKind, raw: RawPayload) -> (r: Jin10Result<Jin10Payload>)
    ensures
        crate::value::report(r) == payload_outcome(kind, raw),
{
    match kind {
        DataKind::Flash => match raw.flash {
            None => Err(payload_structure_error(kind)),
            Some(f) => {
                let importance = match Jin10Importance::new(f.importance) {
                    Ok(i) => i,
                    Err(e) => return Err(e),
                };
                Ok(
                    Jin10Payload::Flash(
                        FlashNews {
                            importance,
                            channels: f.channels,
                            content: f.content,
                            is_data: f.is_data,
                        },
                    ),
                )
            },
        },
        DataKind::Calendar => match raw.calendar {
            None => Err(payload_structure_error(kind)),
            Some(c) => Ok(
                Jin10Payload::Calendar(
                    CalendarEvent {
                        country: c.country,
                        indicator: c.indicator,
                        previous: c.previous,
                        consensus: c.consensus,
                        actual: c.actual,
                        revised: c.revised,
                        surprise_z: c.surprise_z,
                    },
                ),
            ),
        },
        DataKind::Quote => match raw.quote {
            None => Err(payload_structure_error(kind)),
            Some(q) => {
                let ts = match Jin10Timestamp::parse(q.ts.as_str()) {
                    Ok(ts) => ts,
                    Err(e) => return Err(e),
                };
                Ok(
                    Jin10Payload::Quote(
                        QuoteSnapshot {
                            symbol: q.symbol,
                            price: q.price,
                            change_pct: q.change_pct,
                            ts,
                        },
                    ),
                )
            },
        },
        _ => {
            let mut detail = String::from_str(kind.as_str());
            detail.append(" 的载荷字段未被清单固定，离线解析不实现（不得编造字段）");
            Err(Jin10Error::NotApplicable(detail))
        },
    }
}

/// The marker of a network address inside a text.
pub open spec fn url_marker() -> Seq<char> {
    seq![':', '/', '/']
}

/// What converting one raw envelope reports; on success, the envelope it builds.
/// Checks in order: kind, event time, collection time, raw reference (no `://`),
/// payload, then the envelope checks of [`validate_envelope`].
#[verifier::opaque]
pub open spec fn envelope_outcome(raw: RawEnvelope) -> Result<
    Jin10Envelope<Jin10Payload>,
    (Jin10ErrorKind, Seq<char>),
> {
    match kind_outcome(raw.kind@) {
        Err(e) => Err(e),
        Ok(kind) => match Jin10Timestamp::parse_outcome(encode_utf8(raw.event_time@)) {
            Err(e) => Err(e),
            Ok(event_time) => match Jin10Timestamp::parse_outcome(encode_utf8(raw.collect_time@)) {
                Err(e) => Err(e),
                Ok(collect_time) => if raw.raw_ref matches Some(r) && contains_text(r@, url_marker()) {
                    Err(
                        (
                            Jin10ErrorKind::SemanticallyRejected,
                            "raw_ref 须为原始报文引用，不得为 URL"@,
                        ),
                    )
                } else {
                    match payload_outcome(kind, raw.payload) {
                        Err(e) => Err(e),
                        Ok(payload) => {
                            let envelope = Jin10Envelope {
                                msg_id: raw.msg_id,
                                source: raw.source,
                                kind,
                                event_time,
                                collect_time,
                                payload,
                                raw_ref: raw.raw_ref,
                            };
                            match envelope_check(envelope) {
                                Ok(_) => Ok(envelope),
                                Err(e) => Err(e),
                            }
                        },
                    }
                },
            },
        },
    }
}

/// Converts one raw envelope.
fn convert_envelope(raw: RawEnvelope) -> (r: Jin10Result<Jin10Envelope<Jin10Payload>>)
    ensures
        crate::value::report(r) == envelope_outcome(raw),
        r matches Ok(e) ==> e.msg_id@ == raw.msg_id@,
{
    reveal(envelope_outcome);
    let kind = match DataKind::parse(raw.kind.as_str()) {
        Ok(k) => k,
        Err(e) => return Err(e),
    };
    let event_time = match Jin10Timestamp::parse(raw.event_time.as_str()) {
        Ok(t) => t,
        Err(e) => return Err(e),
    };
    let collect_time = match Jin10Timestamp::parse(raw.collect_time.as_str()) {
        Ok(t) => t,
        Err(e) => return Err(e),
    };
    let is_url = match &raw.raw_ref {
        Some(reference) => contains(reference.as_str(), "://"),
        None => false,
    };
    proof {
        reveal_strlit("://");
        assert("://"@ =~= url_marker());
    }
    if is_url {
        return Err(
            Jin10Error::SemanticallyRejected(String::from_str("raw_ref 须为原始报文引用，不得为 URL")),
        );
    }
    let payload = match convert_payload(kind, raw.payload) {
        Ok(p) => p,
        Err(e) => return Err(e),
    };
    let envelope = Jin10Envelope {
        msg_id: raw.msg_id,
        source: raw.source,
        kind,
        event_time,
        collect_time,
        payload,
        raw_ref: raw.raw_ref,
    };
    match validate_envelope(&envelope) {
        Ok(()) => Ok(envelope),
        Err(e) => Err(e),
    }
}

/// The detail text of a duplicated message identifier.
pub open spec fn duplicate_detail(msg_id: Seq<char>) -> Seq<char> {
    "msg_id 重复："@ + msg_id
}

/// Some envelope before position `n` has the same message identifier as the one at `n`.
pub open spec fn repeats_earlier(raws: Seq<RawEnvelope>, n: int) -> bool {
    exists|j: int| 0 <= j < n && #[trigger] raws[j].msg_id@ == raws[n].msg_id@
}

/// What converting the first `n` raw envelopes reports: the first failure in order
/// (a repeated message identifier, or a failing envelope), else every envelope built.
pub open spec fn prefix_outcome(raws: Seq<RawEnvelope>, n: nat) -> Result<
    Seq<Jin10Envelope<Jin10Payload>>,
    (Jin10ErrorKind, Seq<char>),
>
    decreases n,
{
    if n == 0 {
        Ok(seq![])
    } else {
        match prefix_outcome(raws, (n - 1) as nat) {
            Err(e) => Err(e),
            Ok(done) => if repeats_earlier(raws, n - 1) {
                Err((Jin10ErrorKind::SemanticallyRejected, duplicate_detail(raws[n - 1].msg_id@)))
            } else {
                match envelope_outcome(raws[n - 1]) {
                    Err(e) => Err(e),
                    Ok(env) => Ok(done.push(env)),
                }
            },
        }
    }
}

/// What converting a whole document reports: the synthetic marker first, then the
/// envelopes in order.
pub open spec fn document_outcome(raw: RawEnvelopeFile) -> Result<
    Seq<Jin10Envelope<Jin10Payload>>,
    (Jin10ErrorKind, Seq<char>),
> {
    match marker_check(raw.synthetic, raw.note) {
        Err(e) => Err(e),
        Ok(_) => prefix_outcome(raw.envelopes@, raw.envelopes@.len()),
    }
}

/// What a conversion of a document reports: the envelopes, or the error's class and text.
pub open spec fn document_report(r: Jin10Result<Vec<Jin10Envelope<Jin10Payload>>>) -> Result<
    Seq<Jin10Envelope<Jin10Payload>>,
    (Jin10ErrorKind, Seq<char>),
> {
    match r {
        Ok(v) => Ok(v@),
        Err(e) => Err(e@),
    }
}

/// Converts a decoded envelope document into typed envelopes, atomically: any
/// failure fails the whole document.
///
/// - a document not explicitly marked synthetic is `SemanticallyRejected`;
/// - a repeated `msg_id` is `SemanticallyRejected` (no deduplication);
/// - an envelope with an unknown kind, a malformed timestamp, an undecodable payload
///   or a failing envelope check fails with that error;
/// - a raw reference containing `://` is `SemanticallyRejected`;
/// - a kind whose payload fields are not fixed is `NotApplicable`.
pub fn convert_envelope_document(raw: RawEnvelopeFile) -> (r: Jin10Result<Vec<Jin10Envelope<Jin10Payload>>>)
    ensures
        document_report(r) == document_outcome(raw),
{
    match require_synthetic_marker(raw.synthetic, &raw.note) {
        Ok(()) => {},
        Err(e) => return Err(e),
    }
    let ghost raws = raw.envelopes@;
    assert(raws.len() <= usize::MAX) by {
        assert(raws.len() == raw.envelopes.len());
    }
    let mut rest = raw.envelopes;
    let mut parsed: Vec<Jin10Envelope<Jin10Payload>> = Vec::new();
    let mut i: usize = 0;
    while rest.len() > 0
        invariant
            document_outcome(raw) == prefix_outcome(raws, raws.len()),
            raws.len() <= usize::MAX,
            i <= raws.len(),
            rest@ == raws.subrange(i as int, raws.len() as int),
            prefix_outcome(raws, i as nat) == Ok::<_, (Jin10ErrorKind, Seq<char>)>(parsed@),
            parsed@.len() == i,
            forall|j: int| 0 <= j < i ==> (#[trigger] parsed@[j]).msg_id@ == raws[j].msg_id@,
        decreases rest.len(),
    {
        let envelope = rest.remove(0);
        assert(envelope == raws[i as int]);
        let seen = repeats_id(&parsed, envelope.msg_id.as_str());
        proof {
            if seen {
                let k = choose|k: int| 0 <= k < parsed@.len() && #[trigger] parsed@[k].msg_id@ == envelope.msg_id@;
                assert(raws[k].msg_id@ == raws[i as int].msg_id@);
            } else {
                assert forall|k: int| 0 <= k < i implies #[trigger] raws[k].msg_id@ != raws[i as int].msg_id@ by {
                    assert(parsed@[k].msg_id@ == raws[k].msg_id@);
                }
            }
        }
        proof {
            assert(prefix_outcome(raws, (i + 1) as nat) == match prefix_outcome(raws, i as nat) {
                Err(e) => Err(e),
                Ok(done) => if repeats_earlier(raws, i as int) {
                    Err((Jin10ErrorKind::SemanticallyRejected, duplicate_detail(raws[i as int].msg_id@)))
                } else {
                    match envelope_outcome(raws[i as int]) {
                        Err(e) => Err(e),
                        Ok(env) => Ok(done.push(env)),
                    }
                },
            });
        }
        if seen {
            let mut detail = String::from_str("msg_id 重复：");
            detail.append(envelope.msg_id.as_str());
            proof {
                lemma_failure_persists(raws, (i + 1) as nat, raws.len());
            }
            return Err(Jin10Error::SemanticallyRejected(detail));
        }
        let converted = match convert_envelope(envelope) {
            Ok(e) => e,
            Err(e) => {
                proof {
                    lemma_failure_persists(raws, (i + 1) as nat, raws.len());
                }
                return Err(e);
            },
        };
        parsed.push(converted);
        i = i + 1;
        proof {
            assert(rest@ =~= raws.subrange(i as int, raws.len() as int));
        }
    }
    proof {
        assert(i == raws.len());
    }
    Ok(parsed)
}

/// Whether some envelope of `parsed` has the message identifier `msg_id`.
fn repeats_id(parsed: &Vec<Jin10Envelope<Jin10Payload>>, msg_id: &str) -> (r: bool)
    ensures
        r == (exists|k: int| 0 <= k < parsed@.len() && #[trigger] parsed@[k].msg_id@ == msg_id@),
{
    let mut j: usize = 0;
    while j < parsed.len()
        invariant
            j <= parsed@.len(),
            forall|k: int| 0 <= k < j ==> #[trigger] parsed@[k].msg_id@ != msg_id@,
        decreases parsed.len() - j,
    {
        if same_text(parsed[j].msg_id.as_str(), msg_id) {
            return true;
        }
        j = j + 1;
    }
    false
}

/// Once a prefix fails, every longer prefix fails with the same report.
proof fn lemma_failure_persists(raws: Seq<RawEnvelope>, n: nat, m: nat)
    requires
        n <= m,
        prefix_outcome(raws, n) is Err,
    ensures
        prefix_outcome(raws, m) == prefix_outcome(raws, n),
    decreases m - n,
{
    if n < m {
        lemma_failure_persists(raws, n, (m - 1) as nat);
    }
}

/// A successful prefix holds, in order, the envelopes built from the raw ones, and
/// no raw envelope in it repeats an earlier message identifier.
proof fn lemma_prefix_success(raws: Seq<RawEnvelope>, n: nat)
    requires
        prefix_outcome(raws, n) is Ok,
    ensures
        prefix_outcome(raws, n)->Ok_0.len() == n,
        forall|i: int|
            0 <= i < n ==> envelope_outcome(#[trigger] raws[i]) == Ok::<_, (Jin10ErrorKind, Seq<char>)>(
                prefix_outcome(raws, n)->Ok_0[i],
            ) && !repeats_earlier(raws, i),
    decreases n,
{
    if n > 0 {
        lemma_prefix_success(raws, (n - 1) as nat);
    }
}

/// Converting one envelope: once its kind and both timestamps read, a raw
/// reference that holds `://` is `SemanticallyRejected`; and a converted envelope
/// passes [`validate_envelope`], keeps the raw message identifier, source and raw
/// reference, has the kind that the raw identifier names, holds no network
/// address, and holds the payload converted from the raw one under that kind (see
/// [`lemma_payload_conversion`]).
pub proof fn lemma_envelope_conversion(raw: RawEnvelope)
    ensures
        kind_outcome(raw.kind@) is Ok && Jin10Timestamp::parse_outcome(encode_utf8(raw.event_time@))
            is Ok && Jin10Timestamp::parse_outcome(encode_utf8(raw.collect_time@)) is Ok && (
        raw.raw_ref matches Some(r) && contains_text(r@, url_marker())) ==> envelope_outcome(raw)
            == Err::<Jin10Envelope<Jin10Payload>, _>(
            (Jin10ErrorKind::SemanticallyRejected, "raw_ref 须为原始报文引用，不得为 URL"@),
        ),
        envelope_outcome(raw) is Ok ==> {
            let e = envelope_outcome(raw)->Ok_0;
            &&& envelope_check(e) is Ok
            &&& e.msg_id@ == raw.msg_id@
            &&& e.source@ == raw.source@
            &&& e.raw_ref == raw.raw_ref
            &&& kind_text(e.kind) == raw.kind@
            &&& !(e.raw_ref matches Some(r) && contains_text(r@, url_marker()))
            &&& payload_outcome(e.kind, raw.payload) == Ok::<
                Jin10Payload,
                (Jin10ErrorKind, Seq<char>),
            >(e.payload)
        },
{
    reveal(envelope_outcome);
}

/// Converting one payload: a converted payload has the kind it was converted
/// under and carries every field of the raw shape of that kind into the field of
/// the same name (the importance by its value); the five kinds without fixed fields
/// are `NotApplicable` whatever the payload; for flash news, calendar events and
/// quotes every failure is `Invalid`.
pub proof fn lemma_payload_conversion(kind: DataKind, raw: RawPayload)
    ensures
        payload_outcome(kind, raw) is Ok ==> payload_kind(payload_outcome(kind, raw)->Ok_0) == kind,
        payload_outcome(kind, raw) matches Ok(Jin10Payload::Flash(f)) ==> {
            let r = raw.flash->0;
            &&& raw.flash is Some
            &&& f.importance@ == r.importance
            &&& f.channels@ == r.channels@
            &&& f.content@ == r.content@
            &&& f.is_data == r.is_data
        },
        payload_outcome(kind, raw) matches Ok(Jin10Payload::Calendar(e)) ==> {
            let r = raw.calendar->0;
            &&& raw.calendar is Some
            &&& e.country@ == r.country@
            &&& e.indicator@ == r.indicator@
            &&& e.previous == r.previous
            &&& e.consensus == r.consensus
            &&& e.actual == r.actual
            &&& e.revised == r.revised
            &&& e.surprise_z == r.surprise_z
        },
        payload_outcome(kind, raw) matches Ok(Jin10Payload::Quote(q)) ==> {
            let r = raw.quote->0;
            &&& raw.quote is Some
            &&& q.symbol@ == r.symbol@
            &&& q.price == r.price
            &&& q.change_pct == r.change_pct
            &&& Jin10Timestamp::parse_outcome(encode_utf8(r.ts@)) == Ok::<
                Jin10Timestamp,
                (Jin10ErrorKind, Seq<char>),
            >(q.ts)
        },
        !(kind == DataKind::Flash || kind == DataKind::Calendar || kind == DataKind::Quote)
            ==> payload_outcome(kind, raw) == Err::<Jin10Payload, _>(
            (Jin10ErrorKind::NotApplicable, unfixed_detail(kind)),
        ),
        (kind == DataKind::Flash || kind == DataKind::Calendar || kind == DataKind::Quote)
            && payload_outcome(kind, raw) is Err ==> payload_outcome(kind, raw)->Err_0.0
            == Jin10ErrorKind::Invalid,
{
    if kind == DataKind::Quote && raw.quote is Some {
        lemma_timestamp_errors_are_invalid(encode_utf8(raw.quote->0.ts@));
    }
    if kind == DataKind::Flash && raw.flash is Some {
        crate::value::envelope::lemma_importance_of(raw.flash->0.importance);
    }
}

/// A converted document is sound: it was explicitly marked synthetic with a
/// non-blank note, it keeps every envelope in order, every envelope passes
/// [`validate_envelope`] (so its payload has the declared kind), no two envelopes
/// share a message identifier, and no raw reference is a network address.
pub proof fn lemma_document_sound(raw: RawEnvelopeFile)
    requires
        document_outcome(raw) is Ok,
    ensures
        raw.synthetic == Some(true),
        raw.note matches Some(n) && !blank(n@),
        document_outcome(raw)->Ok_0.len() == raw.envelopes@.len(),
        forall|i: int|
            0 <= i < raw.envelopes@.len() ==> (#[trigger] document_outcome(raw)->Ok_0[i]).msg_id@
                == raw.envelopes@[i].msg_id@,
        forall|i: int|
            0 <= i < raw.envelopes@.len() ==> envelope_check(
                #[trigger] document_outcome(raw)->Ok_0[i],
            ) is Ok,
        forall|i: int, j: int|
            0 <= i < j < raw.envelopes@.len() ==> (#[trigger] document_outcome(raw)->Ok_0[i]).msg_id@
                != (#[trigger] document_outcome(raw)->Ok_0[j]).msg_id@,
        forall|i: int|
            0 <= i < raw.envelopes@.len() ==> !((#[trigger] document_outcome(raw)->Ok_0[i]).raw_ref matches Some(
                r,
            ) && contains_text(r@, url_marker())),
{
    let raws = raw.envelopes@;
    let n = raws.len();
    lemma_prefix_success(raws, n);
    let v = document_outcome(raw)->Ok_0;
    assert forall|i: int| 0 <= i < n implies (#[trigger] v[i]).msg_id@ == raws[i].msg_id@
        && envelope_check(v[i]) is Ok && !(v[i].raw_ref matches Some(r) && contains_text(
        r@,
        url_marker(),
    )) by {
        lemma_envelope_conversion(raws[i]);
    }
    assert forall|i: int, j: int| 0 <= i < j < n implies (#[trigger] v[i]).msg_id@ != (
    #[trigger] v[j]).msg_id@ by {
        lemma_envelope_conversion(raws[i]);
        lemma_envelope_conversion(raws[j]);
        assert(!repeats_earlier(raws, j));
        assert(raws[i].msg_id@ != raws[j].msg_id@);
    }
}

/// Conversion is atomic: one raw envelope that fails on its own, or one repeated
/// message identifier, fails the whole document.
pub proof fn lemma_document_atomic(raw: RawEnvelopeFile, k: int)
    requires
        0 <= k < raw.envelopes@.len(),
        envelope_outcome(raw.envelopes@[k]) is Err || repeats_earlier(raw.envelopes@, k),
    ensures
        document_outcome(raw) is Err,
{
    let raws = raw.envelopes@;
    if document_outcome(raw) is Ok {
        lemma_prefix_success(raws, raws.len());
        assert(envelope_outcome(raws[k]) is Ok);
    }
}

} // verus!
