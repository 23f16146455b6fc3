//! Error classes and the error type of the library.
//!
//! Callers branch on [`Jin10ErrorKind`], never on message text. The layer has no
//! network, so only [`Jin10ErrorKind::Invariant`] is worth retrying.
use vstd::prelude::*;

verus! {

/// Error class: grouped by how the caller should react.
#[non_exhaustive]
#[derive(Debug, Clone, Copy, PartialEq, Eq, Structural, Hash)]
pub enum Jin10ErrorKind {
    /// The input's shape or value is illegal (fix the data; retrying is useless).
    Invalid,
    /// A required item is missing.
    Missing,
    /// The authorization decision did not pass (fail-closed).
    AuthorizationDenied,
    /// The product does not belong to this domain and was routed elsewhere.
    RoutedElsewhere,
    /// The write is beyond this library's authority (owned elsewhere or undecided).
    WriteAuthorityDenied,
    /// Parsable but semantically not accepted (such as a duplicated identity).
    SemanticallyRejected,
    /// A planned capability that is not implemented.
    NotApplicable,
    /// An internal invariant was broken (a bug in the library).
    Invariant,
}

/// Error of the library, carrying its class and a detail text.
#[non_exhaustive]
#[derive(Debug)]
pub enum Jin10Error {
    /// Illegal input.
    Invalid(String),
    /// Missing required item.
    Missing(String),
    /// Authorization denied.
    AuthorizationDenied(String),
    /// Not in this domain.
    RoutedElsewhere(String),
    /// Write beyond authority.
    WriteAuthorityDenied(String),
    /// Semantically rejected.
    SemanticallyRejected(String),
    /// Planned capability not implemented.
    NotApplicable(String),
    /// Invariant broken.
    Invariant(String),
}

/// Result alias of the library.
pub type Jin10Result<T> = Result<T, Jin10Error>;

impl View for Jin10Error {
    /// The class of the error and the characters of its detail text.
    type V = (Jin10ErrorKind, Seq<char>);

    open spec fn view(&self) -> (Jin10ErrorKind, Seq<char>) {
        match self {
            Jin10Error::Invalid(d) => (Jin10ErrorKind::Invalid, d@),
            Jin10Error::Missing(d) => (Jin10ErrorKind::Missing, d@),
            Jin10Error::AuthorizationDenied(d) => (Jin10ErrorKind::AuthorizationDenied, d@),
            Jin10Error::RoutedElsewhere(d) => (Jin10ErrorKind::RoutedElsewhere, d@),
            Jin10Error::WriteAuthorityDenied(d) => (Jin10ErrorKind::WriteAuthorityDenied, d@),
            Jin10Error::SemanticallyRejected(d) => (Jin10ErrorKind::SemanticallyRejected, d@),
            Jin10Error::NotApplicable(d) => (Jin10ErrorKind::NotApplicable, d@),
            Jin10Error::Invariant(d) => (Jin10ErrorKind::Invariant, d@),
        }
    }
}

/// The text that the display form of an error puts before its detail.
pub open spec fn kind_heading(kind: Jin10ErrorKind) -> Seq<char> {
    match kind {
        Jin10ErrorKind::Invalid => "输入非法："@,
        Jin10ErrorKind::Missing => "缺少必需项："@,
        Jin10ErrorKind::AuthorizationDenied => "授权判定未通过："@,
        Jin10ErrorKind::RoutedElsewhere => "不属于本域，已路由他处："@,
        Jin10ErrorKind::WriteAuthorityDenied => "越权写入被拒绝："@,
        Jin10ErrorKind::SemanticallyRejected => "语义不被接受："@,
        Jin10ErrorKind::NotApplicable => "规划能力尚未实现："@,
        Jin10ErrorKind::Invariant => "不变量被破坏："@,
    }
}

impl Jin10Error {
    /// Builds the error of class `kind` with the given detail text.
    pub fn from_parts(kind: Jin10ErrorKind, detail: String) -> (e: Jin10Error)
        ensures
            e@ == (kind, detail@),
    {
        match kind {
            Jin10ErrorKind::Invalid => Jin10Error::Invalid(detail),
            Jin10ErrorKind::Missing => Jin10Error::Missing(detail),
            Jin10ErrorKind::AuthorizationDenied => Jin10Error::AuthorizationDenied(detail),
            Jin10ErrorKind::RoutedElsewhere => Jin10Error::RoutedElsewhere(detail),
            Jin10ErrorKind::WriteAuthorityDenied => Jin10Error::WriteAuthorityDenied(detail),
            Jin10ErrorKind::SemanticallyRejected => Jin10Error::SemanticallyRejected(detail),
            Jin10ErrorKind::NotApplicable => Jin10Error::NotApplicable(detail),
            Jin10ErrorKind::Invariant => Jin10Error::Invariant(detail),
        }
    }

    /// The class of the error, for callers to branch on.
    pub fn kind(&self) -> (k: Jin10ErrorKind)
        ensures
            k == self@.0,
    {
        match self {
            Jin10Error::Invalid(_) => Jin10ErrorKind::Invalid,
            Jin10Error::Missing(_) => Jin10ErrorKind::Missing,
            Jin10Error::AuthorizationDenied(_) => Jin10ErrorKind::AuthorizationDenied,
            Jin10Error::RoutedElsewhere(_) => Jin10ErrorKind::RoutedElsewhere,
            Jin10Error::WriteAuthorityDenied(_) => Jin10ErrorKind::WriteAuthorityDenied,
            Jin10Error::SemanticallyRejected(_) => Jin10ErrorKind::SemanticallyRejected,
            Jin10Error::NotApplicable(_) => Jin10ErrorKind::NotApplicable,
            Jin10Error::Invariant(_) => Jin10ErrorKind::Invariant,
        }
    }

    /// Whether retrying could help. The layer has no network, so only
    /// [`Jin10ErrorKind::Invariant`] is retryable.
    pub fn is_retryable(&self) -> (r: bool)
        ensures
            r == (self@.0 == Jin10ErrorKind::Invariant),
    {
        match self.kind() {
            Jin10ErrorKind::Invariant => true,
            _ => false,
        }
    }

    /// The detail text of the error.
    pub fn detail(&self) -> (d: &str)
        ensures
            d@ == self@.1,
    {
        match self {
            Jin10Error::Invalid(d) => d.as_str(),
            Jin10Error::Missing(d) => d.as_str(),
            Jin10Error::AuthorizationDenied(d) => d.as_str(),
            Jin10Error::RoutedElsewhere(d) => d.as_str(),
            Jin10Error::WriteAuthorityDenied(d) => d.as_str(),
            Jin10Error::SemanticallyRejected(d) => d.as_str(),
            Jin10Error::NotApplicable(d) => d.as_str(),
            Jin10Error::Invariant(d) => d.as_str(),
        }
    }

    /// The display text of the error: a heading that names its class, then the detail.
    pub fn message(&self) -> (m: String)
        ensures
            m@ == kind_heading(self@.0) + self@.1,
    {
        let mut m = match self.kind() {
            Jin10ErrorKind::Invalid => String::from_str("输入非法："),
            Jin10ErrorKind::Missing => String::from_str("缺少必需项："),
            Jin10ErrorKind::AuthorizationDenied => String::from_str("授权判定未通过："),
            Jin10ErrorKind::RoutedElsewhere => String::from_str("不属于本域，已路由他处："),
            Jin10ErrorKind::WriteAuthorityDenied => String::from_str("越权写入被拒绝："),
            Jin10ErrorKind::SemanticallyRejected => String::from_str("语义不被接受："),
            Jin10ErrorKind::NotApplicable => String::from_str("规划能力尚未实现："),
            Jin10ErrorKind::Invariant => String::from_str("不变量被破坏："),
        };
        m.append(self.detail());
        m
    }
}

} // verus!
