use jin10x::{
    decide_macro_write, propose_macro_mapping, write_sovereignty, DataKind, Frequency,
    Jin10AcceptedFact, Jin10ErrorKind, Jin10MacroMappingRequest, Jin10MacroProposal, Jin10Number,
    Jin10Unit, Jin10WriteDecision, Jin10WriteSovereignty, Period, PENDING_WRITE_SOVEREIGNTY_NOTE,
};

fn num(value: f64) -> Jin10Number {
    Jin10Number::from_bits(value.to_bits())
}

fn request(kind: DataKind) -> Jin10MacroMappingRequest {
    Jin10MacroMappingRequest {
        msg_id: "m-1".to_owned(),
        kind,
        indicator: Some("CPI YoY".to_owned()),
        subject: Some("US".to_owned()),
        period: Some(Period::Month {
            year: 2026,
            month: 8,
        }),
        value: Some(num(3.1)),
        unit: Jin10Unit::Percent,
        frequency: Frequency::Monthly,
        arrival_seq: 10,
    }
}

fn proposal() -> Jin10MacroProposal {
    propose_macro_mapping(&request(DataKind::Calendar)).expect("三要素齐备")
}

#[test]
fn sovereignty_table_is_registered_as_read_only_decision() {
    assert_eq!(
        write_sovereignty(DataKind::Quote),
        Jin10WriteSovereignty::Routed
    );
    assert_eq!(
        write_sovereignty(DataKind::Treasury),
        Jin10WriteSovereignty::Pending
    );
    assert_eq!(
        write_sovereignty(DataKind::Calendar),
        Jin10WriteSovereignty::Own
    );
    assert!(PENDING_WRITE_SOVEREIGNTY_NOTE.contains("pending"));
}

#[test]
fn quote_is_routed_elsewhere_even_with_all_three_elements() {
    let error = propose_macro_mapping(&request(DataKind::Quote)).expect_err("Quote 应被拒绝");
    assert_eq!(error.kind(), Jin10ErrorKind::RoutedElsewhere);
}

#[test]
fn treasury_stays_denied_and_pending() {
    let error =
        propose_macro_mapping(&request(DataKind::Treasury)).expect_err("拍卖类应保持拒绝");
    assert_eq!(error.kind(), Jin10ErrorKind::WriteAuthorityDenied);
}

#[test]
fn missing_three_elements_are_reported_per_element() {
    let mut input = request(DataKind::Calendar);
    input.indicator = None;
    assert_eq!(
        propose_macro_mapping(&input)
            .expect_err("缺 indicator")
            .kind(),
        Jin10ErrorKind::Missing
    );
    input.indicator = Some("CPI YoY".to_owned());
    input.subject = None;
    assert_eq!(
        propose_macro_mapping(&input)
            .expect_err("缺 subject")
            .kind(),
        Jin10ErrorKind::Missing
    );
    input.subject = Some("US".to_owned());
    input.period = None;
    assert_eq!(
        propose_macro_mapping(&input).expect_err("缺 period").kind(),
        Jin10ErrorKind::Missing
    );
}

#[test]
fn blank_elements_are_semantically_rejected() {
    let mut input = request(DataKind::Calendar);
    input.subject = Some("   ".to_owned());
    assert_eq!(
        propose_macro_mapping(&input).expect_err("空白主体").kind(),
        Jin10ErrorKind::SemanticallyRejected
    );
}

#[test]
fn out_of_order_candidate_must_not_overwrite() {
    let candidate = proposal();
    let existing = Jin10AcceptedFact {
        msg_id: "m-0".to_owned(),
        indicator: candidate.indicator.clone(),
        subject: candidate.subject.clone(),
        period: candidate.period,
        value: Some(num(2.9)),
        arrival_seq: 11,
    };
    assert_eq!(
        decide_macro_write(Some(&existing), &candidate),
        Jin10WriteDecision::StaleRejected {
            existing_msg_id: "m-0".to_owned()
        }
    );
}

#[test]
fn newer_arrival_with_different_value_is_a_conflict_not_an_overwrite() {
    let candidate = proposal();
    let existing = Jin10AcceptedFact {
        msg_id: "m-0".to_owned(),
        indicator: candidate.indicator.clone(),
        subject: candidate.subject.clone(),
        period: candidate.period,
        value: Some(num(2.9)),
        arrival_seq: 9,
    };
    assert_eq!(
        decide_macro_write(Some(&existing), &candidate),
        Jin10WriteDecision::Conflict {
            existing_msg_id: "m-0".to_owned()
        }
    );
}

#[test]
fn identical_value_is_idempotent_and_no_fact_is_an_accept() {
    let candidate = proposal();
    assert_eq!(
        decide_macro_write(None, &candidate),
        Jin10WriteDecision::Accept
    );
    let same: Jin10MacroProposal = candidate.clone();
    let existing = Jin10AcceptedFact {
        msg_id: "m-0".to_owned(),
        indicator: candidate.indicator.clone(),
        subject: candidate.subject.clone(),
        period: candidate.period,
        value: same.value,
        arrival_seq: 9,
    };
    assert_eq!(
        decide_macro_write(Some(&existing), &candidate),
        Jin10WriteDecision::Duplicate
    );
}

#[test]
fn revision_surface_is_absent_and_not_faked() {
    let candidate = proposal();
    assert_eq!(candidate.revision(), None);
}

#[test]
fn propose_macro_mapping_rejects_quote() {
    assert_eq!(
        propose_macro_mapping(&request(DataKind::Quote))
            .expect_err("Quote 默认拒绝")
            .kind(),
        Jin10ErrorKind::RoutedElsewhere
    );
}

#[test]
fn decide_macro_write_rejects_stale_candidate() {
    let candidate = proposal();
    let existing = Jin10AcceptedFact {
        msg_id: "m-0".to_owned(),
        indicator: candidate.indicator.clone(),
        subject: candidate.subject.clone(),
        period: candidate.period,
        value: Some(num(2.9)),
        arrival_seq: candidate.arrival_seq + 1,
    };
    assert_eq!(
        decide_macro_write(Some(&existing), &candidate),
        Jin10WriteDecision::StaleRejected {
            existing_msg_id: "m-0".to_owned()
        }
    );
}

#[test]
fn write_sovereignty_registers_treasury_as_pending() {
    assert_eq!(
        write_sovereignty(DataKind::Treasury),
        Jin10WriteSovereignty::Pending
    );
    assert_eq!(
        write_sovereignty(DataKind::Quote),
        Jin10WriteSovereignty::Routed
    );
    assert_eq!(write_sovereignty(DataKind::Cot), Jin10WriteSovereignty::Own);
}

#[test]
fn revision_is_absent() {
    assert_eq!(proposal().revision(), None);
}

/// Boundary: a white-space-only subject is not provided.
#[test]
fn whitespace_only_subject_is_not_provided() {
    let request = jin10x::Jin10MacroMappingRequest {
        msg_id: "m-1".to_owned(),
        kind: DataKind::Calendar,
        indicator: Some("CPI YoY".to_owned()),
        subject: Some("\t \n".to_owned()),
        period: Some(Period::Month {
            year: 2026,
            month: 8,
        }),
        value: Some(num(3.1)),
        unit: Jin10Unit::Percent,
        frequency: Frequency::Monthly,
        arrival_seq: 1,
    };
    assert_eq!(
        propose_macro_mapping(&request)
            .expect_err("空白主体")
            .kind(),
        Jin10ErrorKind::SemanticallyRejected
    );
}

/// Boundary: the same value arriving with the same number is idempotent.
#[test]
fn identical_arrival_is_idempotent() {
    let request = jin10x::Jin10MacroMappingRequest {
        msg_id: "m-1".to_owned(),
        kind: DataKind::Calendar,
        indicator: Some("CPI YoY".to_owned()),
        subject: Some("US".to_owned()),
        period: Some(Period::Month {
            year: 2026,
            month: 8,
        }),
        value: Some(num(3.1)),
        unit: Jin10Unit::Percent,
        frequency: Frequency::Monthly,
        arrival_seq: 7,
    };
    let proposal = propose_macro_mapping(&request).expect("三要素齐备");
    let existing = Jin10AcceptedFact {
        msg_id: "m-0".to_owned(),
        indicator: proposal.indicator.clone(),
        subject: proposal.subject.clone(),
        period: proposal.period,
        value: proposal.value,
        arrival_seq: proposal.arrival_seq,
    };
    assert_eq!(
        decide_macro_write(Some(&existing), &proposal),
        Jin10WriteDecision::Duplicate
    );
}

/// The mapping entry refuses non-finite values and keeps finite extremes and `None`.
#[test]
fn macro_mapping_rejects_non_finite_values() {
    for value in [
        Some(f64::NAN),
        Some(f64::INFINITY),
        Some(f64::NEG_INFINITY),
        Some(f64::MAX),
        Some(-f64::MAX),
        None,
    ] {
        let request = jin10x::Jin10MacroMappingRequest {
            msg_id: "SYNTH_MSG".into(),
            kind: DataKind::Calendar,
            indicator: Some("SYNTH_INDICATOR".into()),
            subject: Some("SYNTH_SUBJECT".into()),
            period: Some(Period::Month {
                year: 2026,
                month: 1,
            }),
            value: value.map(num),
            unit: Jin10Unit::Unspecified,
            frequency: Frequency::Monthly,
            arrival_seq: 1,
        };
        let result = propose_macro_mapping(&request);
        if value.map_or(true, f64::is_finite) {
            assert!(result.is_ok());
        } else {
            assert_eq!(
                result.expect_err("非有限数必须拒绝").kind(),
                Jin10ErrorKind::Invalid
            );
        }
    }
}

/// Directly built proposals or facts cannot slip non-finite values past the decision.
#[test]
fn write_decision_rejects_non_finite_values_before_any_branch() {
    for value in [f64::NAN, f64::INFINITY, f64::NEG_INFINITY] {
        let mut candidate = jin10x::Jin10MacroProposal {
            msg_id: "SYNTH_MSG".into(),
            indicator: "SYNTH_INDICATOR".into(),
            subject: "SYNTH_SUBJECT".into(),
            period: Period::Year(2026),
            value: Some(num(value)),
            unit: Jin10Unit::Unspecified,
            frequency: Frequency::Annual,
            arrival_seq: 1,
        };
        assert_eq!(
            decide_macro_write(None, &candidate),
            Jin10WriteDecision::InvalidRejected
        );
        for seq in [0, 1, 2] {
            let mut existing = Jin10AcceptedFact {
                msg_id: "SYNTH_OLD".into(),
                indicator: candidate.indicator.clone(),
                subject: candidate.subject.clone(),
                period: candidate.period,
                value: Some(num(1.0)),
                arrival_seq: seq,
            };
            assert_eq!(
                decide_macro_write(Some(&existing), &candidate),
                Jin10WriteDecision::InvalidRejected
            );
            candidate.value = Some(num(1.0));
            existing.value = Some(num(value));
            assert_eq!(
                decide_macro_write(Some(&existing), &candidate),
                Jin10WriteDecision::InvalidRejected
            );
            candidate.value = Some(num(value));
        }
    }
}

/// Error details of the mapping, and the proposal carries the request's fields.
#[test]
fn mapping_details_and_carried_fields() {
    let error = propose_macro_mapping(&request(DataKind::Quote)).expect_err("Quote");
    assert_eq!(error.detail(), "Quote 属行情域，默认不进宏观观测");
    let error = propose_macro_mapping(&request(DataKind::Treasury)).expect_err("Treasury");
    assert_eq!(error.detail(), format!("Treasury：{PENDING_WRITE_SOVEREIGNTY_NOTE}"));
    let mut input = request(DataKind::Cot);
    input.indicator = None;
    let error = propose_macro_mapping(&input).expect_err("缺 indicator");
    assert_eq!(error.detail(), "indicator（映射三要素之一）");
    input.indicator = Some(" ".to_owned());
    let error = propose_macro_mapping(&input).expect_err("空白 indicator");
    assert_eq!(error.detail(), "indicator 为空或全空白，不构成可验证要素");
    input.indicator = Some("CPI YoY".to_owned());
    input.period = Some(Period::Month { year: 2026, month: 0 });
    let error = propose_macro_mapping(&input).expect_err("期间非法");
    assert_eq!(error.kind(), Jin10ErrorKind::Invalid);
    assert_eq!(error.detail(), "月须在 1–12");
    input.period = None;
    assert_eq!(
        propose_macro_mapping(&input).expect_err("缺期间").detail(),
        "period（业务期间）"
    );
    let p = proposal();
    assert_eq!(p.msg_id, "m-1");
    assert_eq!(p.indicator, "CPI YoY");
    assert_eq!(p.subject, "US");
    assert_eq!(p.period, Period::Month { year: 2026, month: 8 });
    assert_eq!(p.value.map(|n| f64::from_bits(n.to_bits())), Some(3.1));
    assert_eq!(p.unit, Jin10Unit::Percent);
    assert_eq!(p.frequency, Frequency::Monthly);
    assert_eq!(p.arrival_seq, 10);
}

/// Values compare as doubles: `+0` equals `-0` (duplicate), distinct values conflict.
#[test]
fn zero_signs_compare_equal() {
    let mut candidate = proposal();
    candidate.value = Some(num(0.0));
    let existing = Jin10AcceptedFact {
        msg_id: "m-0".to_owned(),
        indicator: candidate.indicator.clone(),
        subject: candidate.subject.clone(),
        period: candidate.period,
        value: Some(num(-0.0)),
        arrival_seq: 3,
    };
    assert_eq!(
        decide_macro_write(Some(&existing), &candidate),
        Jin10WriteDecision::Duplicate
    );
    candidate.value = None;
    assert_eq!(
        decide_macro_write(Some(&existing), &candidate),
        Jin10WriteDecision::Conflict { existing_msg_id: "m-0".to_owned() }
    );
    assert!(num(0.0) == num(-0.0));
    assert!(num(f64::NAN) != num(f64::NAN));
    assert!(num(1.5).is_finite() && !num(f64::INFINITY).is_finite());
}

/// Completeness is checked before blankness: a blank indicator with no period
/// reports the missing period.
#[test]
fn missing_element_is_reported_before_blank_one() {
    let mut input = request(DataKind::Calendar);
    input.indicator = Some("  ".to_owned());
    input.period = None;
    let error = propose_macro_mapping(&input).expect_err("缺 period");
    assert_eq!(error.kind(), Jin10ErrorKind::Missing);
    assert_eq!(error.detail(), "period（业务期间）");
    let mut input = request(DataKind::Calendar);
    input.indicator = Some("\u{3000}".to_owned());
    input.subject = None;
    let error = propose_macro_mapping(&input).expect_err("缺 subject");
    assert_eq!(error.detail(), "subject（映射三要素之一）");
    let mut input = request(DataKind::Calendar);
    input.subject = Some("\t\u{2003}".to_owned());
    let error = propose_macro_mapping(&input).expect_err("全空白 subject");
    assert_eq!(error.kind(), Jin10ErrorKind::SemanticallyRejected);
    assert_eq!(error.detail(), "subject 为空或全空白，不构成可验证要素");
}

fn intact_fact(candidate: &Jin10MacroProposal) -> Jin10AcceptedFact {
    Jin10AcceptedFact {
        msg_id: "m-0".to_owned(),
        indicator: candidate.indicator.clone(),
        subject: candidate.subject.clone(),
        period: candidate.period,
        value: candidate.value,
        arrival_seq: 1,
    }
}

/// The direct write decision refuses an illegal period or a blank identity field
/// on either side before any ordering decision.
#[test]
fn write_decision_rejects_broken_identity() {
    let good = proposal();
    assert_eq!(decide_macro_write(None, &good), Jin10WriteDecision::Accept);

    let mut bad = proposal();
    bad.period = Period::Month { year: 2026, month: 13 };
    assert_eq!(decide_macro_write(None, &bad), Jin10WriteDecision::InvalidRejected);
    let mut bad = proposal();
    bad.period = Period::Quarter { year: 2026, quarter: 5 };
    assert_eq!(decide_macro_write(None, &bad), Jin10WriteDecision::InvalidRejected);
    let mut bad = proposal();
    bad.msg_id = " ".to_owned();
    assert_eq!(decide_macro_write(None, &bad), Jin10WriteDecision::InvalidRejected);
    let mut bad = proposal();
    bad.indicator = String::new();
    assert_eq!(decide_macro_write(None, &bad), Jin10WriteDecision::InvalidRejected);
    let mut bad = proposal();
    bad.subject = "\n".to_owned();
    assert_eq!(decide_macro_write(None, &bad), Jin10WriteDecision::InvalidRejected);

    let mut fact = intact_fact(&good);
    assert_eq!(decide_macro_write(Some(&fact), &good), Jin10WriteDecision::Duplicate);
    fact.subject = "\u{a0}".to_owned();
    assert_eq!(
        decide_macro_write(Some(&fact), &good),
        Jin10WriteDecision::InvalidRejected
    );
    let mut fact = intact_fact(&good);
    fact.msg_id = String::new();
    assert_eq!(
        decide_macro_write(Some(&fact), &good),
        Jin10WriteDecision::InvalidRejected
    );
    let mut fact = intact_fact(&good);
    fact.arrival_seq = 99;
    fact.period = Period::Month { year: 2026, month: 0 };
    assert_eq!(
        decide_macro_write(Some(&fact), &good),
        Jin10WriteDecision::InvalidRejected
    );
}
