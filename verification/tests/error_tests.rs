use jin10x::{Jin10Error, Jin10ErrorKind};

/// Every variant maps to its own kind.
#[test]
fn kind_maps_one_to_one() {
    let cases: [(Jin10Error, Jin10ErrorKind); 8] = [
        (Jin10Error::Invalid("i".to_owned()), Jin10ErrorKind::Invalid),
        (Jin10Error::Missing("m".to_owned()), Jin10ErrorKind::Missing),
        (
            Jin10Error::AuthorizationDenied("a".to_owned()),
            Jin10ErrorKind::AuthorizationDenied,
        ),
        (
            Jin10Error::RoutedElsewhere("r".to_owned()),
            Jin10ErrorKind::RoutedElsewhere,
        ),
        (
            Jin10Error::WriteAuthorityDenied("w".to_owned()),
            Jin10ErrorKind::WriteAuthorityDenied,
        ),
        (
            Jin10Error::SemanticallyRejected("s".to_owned()),
            Jin10ErrorKind::SemanticallyRejected,
        ),
        (
            Jin10Error::NotApplicable("n".to_owned()),
            Jin10ErrorKind::NotApplicable,
        ),
        (
            Jin10Error::Invariant("v".to_owned()),
            Jin10ErrorKind::Invariant,
        ),
    ];
    for (error, expected) in cases {
        assert_eq!(error.kind(), expected);
    }
}

/// Only `Invariant` is retryable (no network here).
#[test]
fn only_invariant_is_retryable() {
    let kinds = [
        Jin10ErrorKind::Invalid,
        Jin10ErrorKind::Missing,
        Jin10ErrorKind::AuthorizationDenied,
        Jin10ErrorKind::RoutedElsewhere,
        Jin10ErrorKind::WriteAuthorityDenied,
        Jin10ErrorKind::SemanticallyRejected,
        Jin10ErrorKind::NotApplicable,
    ];
    for kind in kinds {
        let error = Jin10Error::Invalid(format!("{kind:?}"));
        assert!(!error.is_retryable(), "{kind:?} 不应可重试");
    }
    assert!(Jin10Error::Invariant("内部不变量".to_owned()).is_retryable());
}

/// The display text is not empty and carries the class.
#[test]
fn display_is_not_empty() {
    let error = Jin10Error::RoutedElsewhere("曲线产品归 yieldx".to_owned());
    let text = error.message();
    assert!(!text.is_empty());
    assert!(text.contains("路由"));
    assert!(text.contains("yieldx"));
}

/// The display text does not echo credential-like content.
#[test]
fn display_does_not_leak_credentials() {
    let error = Jin10Error::SemanticallyRejected("字段 country 的取值非法".to_owned());
    let text = error.message();
    assert!(!text.contains("token="));
    assert!(!text.contains("password"));
    assert!(!text.contains("Authorization:"));
}

#[test]
fn error_kind_mapping_is_exact() {
    let cases: [(Jin10Error, Jin10ErrorKind); 8] = [
        (Jin10Error::Invalid("i".to_owned()), Jin10ErrorKind::Invalid),
        (Jin10Error::Missing("m".to_owned()), Jin10ErrorKind::Missing),
        (
            Jin10Error::AuthorizationDenied("a".to_owned()),
            Jin10ErrorKind::AuthorizationDenied,
        ),
        (
            Jin10Error::RoutedElsewhere("r".to_owned()),
            Jin10ErrorKind::RoutedElsewhere,
        ),
        (
            Jin10Error::WriteAuthorityDenied("w".to_owned()),
            Jin10ErrorKind::WriteAuthorityDenied,
        ),
        (
            Jin10Error::SemanticallyRejected("s".to_owned()),
            Jin10ErrorKind::SemanticallyRejected,
        ),
        (
            Jin10Error::NotApplicable("n".to_owned()),
            Jin10ErrorKind::NotApplicable,
        ),
        (
            Jin10Error::Invariant("v".to_owned()),
            Jin10ErrorKind::Invariant,
        ),
    ];
    for (error, expected) in cases {
        assert_eq!(error.kind(), expected);
    }
}

#[test]
fn only_invariant_is_retryable_at_the_boundary() {
    assert!(!Jin10Error::AuthorizationDenied("a".to_owned()).is_retryable());
    assert!(!Jin10Error::NotApplicable("n".to_owned()).is_retryable());
    assert!(Jin10Error::Invariant("v".to_owned()).is_retryable());
}

/// The display text is the class heading followed by the detail.
#[test]
fn message_is_heading_then_detail() {
    assert_eq!(
        Jin10Error::Invalid("x".to_owned()).message(),
        "输入非法：x"
    );
    assert_eq!(
        Jin10Error::RoutedElsewhere("曲线产品归 yieldx".to_owned()).message(),
        "不属于本域，已路由他处：曲线产品归 yieldx"
    );
    assert_eq!(
        Jin10Error::from_parts(Jin10ErrorKind::Missing, "msg_id".to_owned()).message(),
        "缺少必需项：msg_id"
    );
    let error = Jin10Error::from_parts(Jin10ErrorKind::NotApplicable, "d".to_owned());
    assert_eq!(error.kind(), Jin10ErrorKind::NotApplicable);
    assert_eq!(error.detail(), "d");
}
