//! Proposals of macro observations and the cross-source write guards.
//!
//! Two rules: a message may be proposed as a macro observation only when it
//! carries a verifiable indicator, a subject and a business period, and an
//! out-of-order arrival never overwrites an accepted fact; quotes never enter macro
//! observations, and auctions / reverse repo stay refused while their write
//! sovereignty is undecided. A proposal is not a write: nothing is stored here.
use super::envelope::{kind_text, DataKind};
use super::number::{absent_or_finite, is_absent_or_finite, same_optional, same_optional_number, Jin10Number};
use super::{report, Frequency, Jin10Unit, Period};
use crate::error::{Jin10Error, Jin10ErrorKind, Jin10Result};
use crate::text::{blank, is_blank};
use vstd::prelude::*;

verus! {

/// The registered write sovereignty of auctions / reverse repo: undecided, neither
/// side may claim authoritative writes.
pub const PENDING_WRITE_SOVEREIGNTY_NOTE: &'static str = "拍卖/RRP 与 treasuryx 重叠，写入主权 pending（未决）；双方均不得主张权威写入；争议由 Owner 另裁";

/// The write sovereignty registered for a data kind (a read-only conclusion).
#[non_exhaustive]
#[derive(Debug, Clone, Copy, PartialEq, Eq, Structural, Hash)]
pub enum Jin10WriteSovereignty {
    /// This library may propose writes to macro observations (with all three elements).
    Own,
    /// Undecided: overlaps the treasury library; this library keeps refusing.
    Pending,
    /// Not this domain: quotes belong to the market-data domain.
    Routed,
}

/// The sovereignty of each kind: quotes are routed elsewhere, auctions / reverse repo
/// are pending, every other kind is owned.
pub open spec fn sovereignty_of(kind: DataKind) -> Jin10WriteSovereignty {
    if kind == DataKind::Quote {
        Jin10WriteSovereignty::Routed
    } else if kind == DataKind::Treasury {
        Jin10WriteSovereignty::Pending
    } else {
        Jin10WriteSovereignty::Own
    }
}

/// Looks up the write sovereignty registered for a data kind.
pub fn write_sovereignty(kind: DataKind) -> (s: Jin10WriteSovereignty)
    ensures
        s == sovereignty_of(kind),
{
    if kind.is_quote() {
        Jin10WriteSovereignty::Routed
    } else if kind.overlaps_treasury_write() {
        Jin10WriteSovereignty::Pending
    } else {
        Jin10WriteSovereignty::Own
    }
}

/// Input of a macro mapping proposal. The three elements are optional precisely so
/// that their absence is a decidable outcome rather than a hidden default.
#[derive(Debug, Clone, PartialEq)]
pub struct Jin10MacroMappingRequest {
    /// Message identifier of the envelope (for tracing).
    pub msg_id: String,
    /// Data kind.
    pub kind: DataKind,
    /// Verifiable indicator.
    pub indicator: Option<String>,
    /// Subject (country / institution / instrument).
    pub subject: Option<String>,
    /// Business period.
    pub period: Option<Period>,
    /// Value; `None` when the source gives none (never silently 0).
    pub value: Option<Jin10Number>,
    /// Source unit.
    pub unit: Jin10Unit,
    /// Frequency.
    pub frequency: Frequency,
    /// Monotonic arrival number given by the collector (compared here, never made).
    pub arrival_seq: u64,
}

/// A proposed macro observation (not a write).
#[derive(Debug, Clone, PartialEq)]
pub struct Jin10MacroProposal {
    /// Source message identifier.
    pub msg_id: String,
    /// Verifiable indicator.
    pub indicator: String,
    /// Subject.
    pub subject: String,
    /// Business period.
    pub period: Period,
    /// Value; `None` when the source gives none.
    pub value: Option<Jin10Number>,
    /// Source unit.
    pub unit: Jin10Unit,
    /// Frequency.
    pub frequency: Frequency,
    /// Arrival number.
    pub arrival_seq: u64,
}

impl Jin10MacroProposal {
    /// Revision identifier. The source has no official vintage surface, so there is
    /// none, and none is faked.
    pub fn revision(&self) -> (r: Option<&str>)
        ensures
            r is None,
    {
        None
    }

    /// The proposal carries the request's fields unchanged.
    pub open spec fn carries(self, request: Jin10MacroMappingRequest) -> bool {
        &&& self.msg_id@ == request.msg_id@
        &&& request.indicator matches Some(i) && self.indicator@ == i@
        &&& request.subject matches Some(s) && self.subject@ == s@
        &&& request.period == Some(self.period)
        &&& self.value == request.value
        &&& self.unit == request.unit
        &&& self.frequency == request.frequency
        &&& self.arrival_seq == request.arrival_seq
    }
}

/// The detail text of a quote refused from macro observations.
pub open spec fn routed_detail(kind: DataKind) -> Seq<char> {
    kind_text(kind) + " 属行情域，默认不进宏观观测"@
}

/// The detail text of a kind whose write sovereignty is pending.
pub open spec fn pending_detail(kind: DataKind) -> Seq<char> {
    kind_text(kind) + "："@ + PENDING_WRITE_SOVEREIGNTY_NOTE@
}

/// The detail text of a missing mapping element.
pub open spec fn missing_detail(label: Seq<char>) -> Seq<char> {
    label + "（映射三要素之一）"@
}

/// The detail text of a blank mapping element.
pub open spec fn blank_detail(label: Seq<char>) -> Seq<char> {
    label + " 为空或全空白，不构成可验证要素"@
}

/// What proposing a request reports, in the order of the checks: cross-domain first
/// (quotes, then pending sovereignty), then completeness (a missing indicator,
/// subject or period before a blank indicator or subject), then the period's ranges
/// and the value's finiteness.
pub open spec fn proposal_check(r: Jin10MacroMappingRequest) -> Result<
    (),
    (Jin10ErrorKind, Seq<char>),
> {
    if sovereignty_of(r.kind) == Jin10WriteSovereignty::Routed {
        Err((Jin10ErrorKind::RoutedElsewhere, routed_detail(r.kind)))
    } else if sovereignty_of(r.kind) == Jin10WriteSovereignty::Pending {
        Err((Jin10ErrorKind::WriteAuthorityDenied, pending_detail(r.kind)))
    } else if r.indicator is None {
        Err((Jin10ErrorKind::Missing, missing_detail("indicator"@)))
    } else if r.subject is None {
        Err((Jin10ErrorKind::Missing, missing_detail("subject"@)))
    } else if r.period is None {
        Err((Jin10ErrorKind::Missing, "period（业务期间）"@))
    } else if blank(r.indicator->0@) {
        Err((Jin10ErrorKind::SemanticallyRejected, blank_detail("indicator"@)))
    } else if blank(r.subject->0@) {
        Err((Jin10ErrorKind::SemanticallyRejected, blank_detail("subject"@)))
    } else if r.period->0.check() is Err {
        r.period->0.check()
    } else if !absent_or_finite(r.value) {
        Err((Jin10ErrorKind::Invalid, "宏观映射值须为有限数值，缺失须保持 None"@))
    } else {
        Ok(())
    }
}

/// Proposes a mapping request as a macro observation.
///
/// Checks in order: quotes are [`Jin10ErrorKind::RoutedElsewhere`]; auctions /
/// reverse repo are [`Jin10ErrorKind::WriteAuthorityDenied`]; a missing element is
/// [`Jin10ErrorKind::Missing`]; a blank element is
/// [`Jin10ErrorKind::SemanticallyRejected`]; an illegal period or a non-finite value
/// is [`Jin10ErrorKind::Invalid`]. There is no partial acceptance.
pub fn propose_macro_mapping(request: &Jin10MacroMappingRequest) -> (r: Jin10Result<Jin10MacroProposal>)
    ensures
        r is Ok <==> proposal_check(*request) is Ok,
        r matches Err(e) ==> Err::<(), _>(e@) == proposal_check(*request),
        r matches Ok(p) ==> p.carries(*request),
{
    match write_sovereignty(request.kind) {
        Jin10WriteSovereignty::Routed => {
            let mut detail = String::from_str(request.kind.as_str());
            detail.append(" 属行情域，默认不进宏观观测");
            return Err(Jin10Error::RoutedElsewhere(detail));
        },
        Jin10WriteSovereignty::Pending => {
            let mut detail = String::from_str(request.kind.as_str());
            detail.append("：");
            detail.append(PENDING_WRITE_SOVEREIGNTY_NOTE);
            return Err(Jin10Error::WriteAuthorityDenied(detail));
        },
        Jin10WriteSovereignty::Own => {},
    }
    let indicator = match &request.indicator {
        Some(t) => t,
        None => return Err(Jin10Error::Missing(labelled("indicator", "（映射三要素之一）"))),
    };
    let subject = match &request.subject {
        Some(t) => t,
        None => return Err(Jin10Error::Missing(labelled("subject", "（映射三要素之一）"))),
    };
    let period = match request.period {
        Some(p) => p,
        None => return Err(Jin10Error::Missing(String::from_str("period（业务期间）"))),
    };
    if is_blank(indicator.as_str()) {
        return Err(
            Jin10Error::SemanticallyRejected(labelled("indicator", " 为空或全空白，不构成可验证要素")),
        );
    }
    if is_blank(subject.as_str()) {
        return Err(
            Jin10Error::SemanticallyRejected(labelled("subject", " 为空或全空白，不构成可验证要素")),
        );
    }
    match period.validate() {
        Ok(()) => {},
        Err(e) => return Err(e),
    }
    if !is_absent_or_finite(request.value) {
        return Err(Jin10Error::Invalid(String::from_str("宏观映射值须为有限数值，缺失须保持 None")));
    }
    Ok(
        Jin10MacroProposal {
            msg_id: request.msg_id.clone(),
            indicator: indicator.clone(),
            subject: subject.clone(),
            period,
            value: request.value,
            unit: request.unit,
            frequency: request.frequency,
            arrival_seq: request.arrival_seq,
        },
    )
}

/// The text `label` followed by `note`.
fn labelled(label: &str, note: &str) -> (s: String)
    ensures
        s@ == label@ + note@,
{
    let mut s = String::from_str(label);
    s.append(note);
    s
}

/// An accepted macro fact (a read-only snapshot for the ordering decision).
#[derive(Debug, Clone, PartialEq)]
pub struct Jin10AcceptedFact {
    /// Message identifier of the accepted fact.
    pub msg_id: String,
    /// Indicator.
    pub indicator: String,
    /// Subject.
    pub subject: String,
    /// Business period.
    pub period: Period,
    /// Value.
    pub value: Option<Jin10Number>,
    /// Arrival number of the fact.
    pub arrival_seq: u64,
}

impl Jin10MacroProposal {
    /// The proposal's period is well formed and its message identifier, indicator and
    /// subject are not blank.
    pub open spec fn intact(self) -> bool {
        &&& self.period.check() is Ok
        &&& !blank(self.msg_id@)
        &&& !blank(self.indicator@)
        &&& !blank(self.subject@)
    }
}

impl Jin10AcceptedFact {
    /// The fact's period is well formed and its message identifier, indicator and
    /// subject are not blank.
    pub open spec fn intact(self) -> bool {
        &&& self.period.check() is Ok
        &&& !blank(self.msg_id@)
        &&& !blank(self.indicator@)
        &&& !blank(self.subject@)
    }
}

/// Whether a period is well formed and the three identity texts are not blank.
fn identity_is_intact(period: &Period, msg_id: &str, indicator: &str, subject: &str) -> (b: bool)
    ensures
        b == (period.check() is Ok && !blank(msg_id@) && !blank(indicator@) && !blank(subject@)),
{
    period.validate().is_ok() && !is_blank(msg_id) && !is_blank(indicator) && !is_blank(subject)
}

/// Write decision (a decision, not a write).
#[non_exhaustive]
#[derive(Debug, Clone, PartialEq, Eq)]
pub enum Jin10WriteDecision {
    /// Refused: the candidate or the accepted fact holds a non-finite value, an
    /// illegal period, or a blank message identifier, indicator or subject.
    InvalidRejected,
    /// Accept as the new accepted fact.
    Accept,
    /// Refused: the candidate is older (out of order) and must not overwrite.
    StaleRejected {
        /// Message identifier of the accepted fact.
        existing_msg_id: String,
    },
    /// Idempotent: the same value arrived again; ignore.
    Duplicate,
    /// Same identity, different value: needs an explicit revision flow, never a silent overwrite.
    Conflict {
        /// Message identifier of the accepted fact.
        existing_msg_id: String,
    },
}

/// The content of a write decision, the kept message identifier by its characters.
pub enum WriteVerdict {
    /// Non-finite value, illegal period or blank identity field involved.
    InvalidRejected,
    /// Accept.
    Accept,
    /// Out of order; carries the accepted fact's message identifier.
    StaleRejected(Seq<char>),
    /// Idempotent repeat.
    Duplicate,
    /// Conflict; carries the accepted fact's message identifier.
    Conflict(Seq<char>),
}

impl View for Jin10WriteDecision {
    type V = WriteVerdict;

    open spec fn view(&self) -> WriteVerdict {
        match self {
            Jin10WriteDecision::InvalidRejected => WriteVerdict::InvalidRejected,
            Jin10WriteDecision::Accept => WriteVerdict::Accept,
            Jin10WriteDecision::StaleRejected { existing_msg_id } => WriteVerdict::StaleRejected(
                existing_msg_id@,
            ),
            Jin10WriteDecision::Duplicate => WriteVerdict::Duplicate,
            Jin10WriteDecision::Conflict { existing_msg_id } => WriteVerdict::Conflict(
                existing_msg_id@,
            ),
        }
    }
}

/// The ordering decision: a non-finite value, an illegal period or a blank identity
/// field on either side is refused before anything else; with no accepted fact the
/// candidate is accepted; an older candidate is stale; an equal value is a
/// duplicate; a different value is a conflict.
pub open spec fn write_verdict(existing: Option<Jin10AcceptedFact>, candidate: Jin10MacroProposal) -> WriteVerdict {
    if !absent_or_finite(candidate.value) || (existing matches Some(f) && !absent_or_finite(
        f.value,
    )) {
        WriteVerdict::InvalidRejected
    } else if !candidate.intact() || (existing matches Some(f) && !f.intact()) {
        WriteVerdict::InvalidRejected
    } else {
        match existing {
            None => WriteVerdict::Accept,
            Some(fact) => if candidate.arrival_seq < fact.arrival_seq {
                WriteVerdict::StaleRejected(fact.msg_id@)
            } else if same_optional(candidate.value, fact.value) {
                WriteVerdict::Duplicate
            } else {
                WriteVerdict::Conflict(fact.msg_id@)
            },
        }
    }
}

/// Decides what to do with a candidate, given the accepted fact of the same
/// identity (if any). A non-finite value, an illegal period or a blank identity
/// field on either side is refused first; out-of-order candidates never overwrite,
/// equal values are idempotent, and different values are conflicts, never silent
/// overwrites.
pub fn decide_macro_write(existing: Option<&Jin10AcceptedFact>, candidate: &Jin10MacroProposal) -> (d: Jin10WriteDecision)
    ensures
        d@ == write_verdict(
            match existing {
                Some(f) => Some(*f),
                None => None,
            },
            *candidate,
        ),
{
    let existing_ok = match existing {
        Some(fact) => is_absent_or_finite(fact.value),
        None => true,
    };
    if !is_absent_or_finite(candidate.value) || !existing_ok {
        return Jin10WriteDecision::InvalidRejected;
    }
    let existing_intact = match existing {
        Some(fact) => identity_is_intact(
            &fact.period,
            fact.msg_id.as_str(),
            fact.indicator.as_str(),
            fact.subject.as_str(),
        ),
        None => true,
    };
    let candidate_intact = identity_is_intact(
        &candidate.period,
        candidate.msg_id.as_str(),
        candidate.indicator.as_str(),
        candidate.subject.as_str(),
    );
    if !candidate_intact || !existing_intact {
        return Jin10WriteDecision::InvalidRejected;
    }
    let fact = match existing {
        Some(fact) => fact,
        None => return Jin10WriteDecision::Accept,
    };
    if candidate.arrival_seq < fact.arrival_seq {
        return Jin10WriteDecision::StaleRejected { existing_msg_id: fact.msg_id.clone() };
    }
    if same_optional_number(candidate.value, fact.value) {
        return Jin10WriteDecision::Duplicate;
    }
    Jin10WriteDecision::Conflict { existing_msg_id: fact.msg_id.clone() }
}

/// Quotes never enter macro observations, whatever else the request carries; and
/// auctions / reverse repo stay refused while their sovereignty is pending. The
/// cross-domain refusal comes before any completeness check.
pub proof fn lemma_cross_domain_refusals(request: Jin10MacroMappingRequest)
    ensures
        request.kind == DataKind::Quote ==> proposal_check(request) == Err::<(), _>(
            (Jin10ErrorKind::RoutedElsewhere, routed_detail(request.kind)),
        ),
        request.kind == DataKind::Treasury ==> proposal_check(request) == Err::<(), _>(
            (Jin10ErrorKind::WriteAuthorityDenied, pending_detail(request.kind)),
        ),
{
}

/// A request is proposed only when its kind is owned here and it carries all three
/// elements: a non-blank indicator, a non-blank subject and a well-formed period,
/// with a value that is absent or finite.
pub proof fn lemma_proposal_needs_all_elements(request: Jin10MacroMappingRequest)
    requires
        proposal_check(request) is Ok,
    ensures
        sovereignty_of(request.kind) == Jin10WriteSovereignty::Own,
        request.indicator matches Some(i) && !blank(i@),
        request.subject matches Some(s) && !blank(s@),
        request.period matches Some(p) && p.well_formed(),
        absent_or_finite(request.value),
{
    super::lemma_check_matches_well_formed(request.period->0);
}

/// With no accepted fact, a proposal that the mapping produced from a request with
/// a non-blank message identifier is accepted.
pub proof fn lemma_first_proposal_is_accepted(request: Jin10MacroMappingRequest, p: Jin10MacroProposal)
    requires
        proposal_check(request) is Ok,
        !blank(request.msg_id@),
        p.carries(request),
    ensures
        write_verdict(None, p) == WriteVerdict::Accept,
{
}

/// The ordering decision never overwrites silently: with an accepted fact there is
/// no `Accept`; an older candidate is stale; a candidate with the same value
/// (from the same or a later arrival) is a duplicate; a later candidate with another
/// value is a conflict naming the accepted fact.
pub proof fn lemma_no_silent_overwrite(fact: Jin10AcceptedFact, candidate: Jin10MacroProposal)
    requires
        absent_or_finite(fact.value),
        absent_or_finite(candidate.value),
        fact.intact(),
        candidate.intact(),
    ensures
        write_verdict(Some(fact), candidate) != WriteVerdict::Accept,
        candidate.arrival_seq < fact.arrival_seq ==> write_verdict(Some(fact), candidate)
            == WriteVerdict::StaleRejected(fact.msg_id@),
        candidate.arrival_seq >= fact.arrival_seq && same_optional(candidate.value, fact.value)
            ==> write_verdict(Some(fact), candidate) == WriteVerdict::Duplicate,
        candidate.arrival_seq >= fact.arrival_seq && !same_optional(candidate.value, fact.value)
            ==> write_verdict(Some(fact), candidate) == WriteVerdict::Conflict(fact.msg_id@),
{
}

/// A repeated arrival of the same proposal is idempotent: a fact that records the
/// proposal's own value and arrival number makes the proposal a duplicate.
pub proof fn lemma_repeat_is_duplicate(fact: Jin10AcceptedFact, candidate: Jin10MacroProposal)
    requires
        absent_or_finite(candidate.value),
        fact.intact(),
        candidate.intact(),
        fact.value == candidate.value,
        fact.arrival_seq == candidate.arrival_seq,
    ensures
        write_verdict(Some(fact), candidate) == WriteVerdict::Duplicate,
{
}

/// A non-finite value on either side is refused before any other decision.
pub proof fn lemma_non_finite_rejected_first(existing: Option<Jin10AcceptedFact>, candidate: Jin10MacroProposal)
    requires
        !absent_or_finite(candidate.value) || (existing matches Some(f) && !absent_or_finite(
            f.value,
        )),
    ensures
        write_verdict(existing, candidate) == WriteVerdict::InvalidRejected,
{
}

/// A candidate or accepted fact with an illegal period, or with a blank message
/// identifier, indicator or subject, is refused before any ordering decision.
pub proof fn lemma_broken_identity_rejected_first(existing: Option<Jin10AcceptedFact>, candidate: Jin10MacroProposal)
    requires
        !candidate.intact() || (existing matches Some(f) && !f.intact()),
    ensures
        write_verdict(existing, candidate) == WriteVerdict::InvalidRejected,
{
}


/// Only quotes are routed elsewhere and only auctions / reverse repo are pending:
/// every other kind is owned, so a request of such a kind with a non-blank
/// indicator and subject, a well-formed period and an absent-or-finite value is
/// proposed.
pub proof fn lemma_only_quote_and_treasury_refused(request: Jin10MacroMappingRequest)
    ensures
        sovereignty_of(DataKind::Quote) == Jin10WriteSovereignty::Routed,
        sovereignty_of(DataKind::Treasury) == Jin10WriteSovereignty::Pending,
        request.kind != DataKind::Quote && request.kind != DataKind::Treasury ==> sovereignty_of(
            request.kind,
        ) == Jin10WriteSovereignty::Own,
        ({
            &&& request.kind != DataKind::Quote
            &&& request.kind != DataKind::Treasury
            &&& request.indicator is Some && !blank(request.indicator->0@)
            &&& request.subject is Some && !blank(request.subject->0@)
            &&& request.period is Some && request.period->0.well_formed()
            &&& absent_or_finite(request.value)
        }) ==> proposal_check(request) is Ok,
{
    if request.period is Some {
        super::lemma_check_matches_well_formed(request.period->0);
    }
}

/// A later candidate whose value is present where the accepted fact has none, or
/// absent where the fact has one, is a conflict naming the fact: a value is never
/// silently added, dropped or treated as a repeat.
pub proof fn lemma_presence_change_is_conflict(fact: Jin10AcceptedFact, candidate: Jin10MacroProposal)
    requires
        absent_or_finite(fact.value),
        absent_or_finite(candidate.value),
        fact.intact(),
        candidate.intact(),
        candidate.arrival_seq >= fact.arrival_seq,
        candidate.value is Some != fact.value is Some,
    ensures
        write_verdict(Some(fact), candidate) == WriteVerdict::Conflict(fact.msg_id@),
{
    super::number::lemma_same_optional(candidate.value, fact.value);
}

} // verus!
