use jin10x::{
    validate_envelope, validate_payload, CalendarEvent, DataKind, FlashNews, Jin10Envelope,
    Jin10ErrorKind, Jin10Importance, Jin10Number, Jin10Payload, Jin10Timestamp, QuoteSnapshot,
    SOURCE_ID,
};

fn num(value: f64) -> Jin10Number {
    Jin10Number::from_bits(value.to_bits())
}

fn stamp(text: &str) -> Jin10Timestamp {
    Jin10Timestamp::parse(text).expect("测试时间戳合法")
}

fn quote(price: f64) -> Jin10Payload {
    Jin10Payload::Quote(QuoteSnapshot {
        symbol: "XAU".to_owned(),
        price: num(price),
        change_pct: num(0.1),
        ts: stamp("2026-09-18T09:32:01"),
    })
}

fn quote_payload() -> Jin10Payload {
    Jin10Payload::Quote(QuoteSnapshot {
        symbol: "XAU".to_owned(),
        price: num(2500.0),
        change_pct: num(0.42),
        ts: stamp("2026-09-18T09:32:01"),
    })
}

#[test]
fn envelope_requires_matching_source_and_kind() {
    let mut envelope = Jin10Envelope {
        msg_id: "m-1".to_owned(),
        source: SOURCE_ID.to_owned(),
        kind: DataKind::Quote,
        event_time: stamp("2026-09-18T09:32:01"),
        collect_time: stamp("2026-09-18T09:32:02"),
        payload: quote(2500.0),
        raw_ref: None,
    };
    assert!(validate_envelope(&envelope).is_ok());
    envelope.source = "other".to_owned();
    assert_eq!(
        validate_envelope(&envelope).expect_err("源不符").kind(),
        Jin10ErrorKind::SemanticallyRejected
    );
}

#[test]
fn envelope_rejects_time_travel_and_missing_id() {
    let mut envelope = Jin10Envelope {
        msg_id: String::new(),
        source: SOURCE_ID.to_owned(),
        kind: DataKind::Quote,
        event_time: stamp("2026-09-18T09:32:01"),
        collect_time: stamp("2026-09-18T09:32:02"),
        payload: quote(2500.0),
        raw_ref: None,
    };
    assert_eq!(
        validate_envelope(&envelope).expect_err("空 msg_id").kind(),
        Jin10ErrorKind::Missing
    );
    envelope.msg_id = "m-1".to_owned();
    envelope.collect_time = stamp("2026-09-18T09:32:00");
    assert_eq!(
        validate_envelope(&envelope)
            .expect_err("采集早于事件")
            .kind(),
        Jin10ErrorKind::Invalid
    );
}

#[test]
fn payload_requires_content_and_finite_numbers() {
    let empty = Jin10Payload::Flash(FlashNews {
        importance: Jin10Importance::new(1).expect("1–5"),
        channels: Vec::new(),
        content: "  ".to_owned(),
        is_data: false,
    });
    assert_eq!(
        validate_payload(&empty).expect_err("空正文").kind(),
        Jin10ErrorKind::Missing
    );
    assert_eq!(
        validate_payload(&quote(f64::NAN)).expect_err("NaN").kind(),
        Jin10ErrorKind::Invalid
    );
}

#[test]
fn validate_envelope_rejects_foreign_source() {
    let envelope = Jin10Envelope {
        msg_id: "m-1".to_owned(),
        source: "other".to_owned(),
        kind: DataKind::Quote,
        event_time: stamp("2026-09-18T09:32:01"),
        collect_time: stamp("2026-09-18T09:32:02"),
        payload: quote_payload(),
        raw_ref: None,
    };
    assert_eq!(
        validate_envelope(&envelope).expect_err("源不符").kind(),
        Jin10ErrorKind::SemanticallyRejected
    );
}

#[test]
fn validate_payload_rejects_non_finite_price() {
    let payload = Jin10Payload::Quote(QuoteSnapshot {
        symbol: "XAU".to_owned(),
        price: num(f64::NAN),
        change_pct: num(0.0),
        ts: stamp("2026-09-18T09:32:01"),
    });
    assert_eq!(
        validate_payload(&payload).expect_err("NaN").kind(),
        Jin10ErrorKind::Invalid
    );
    assert!(validate_payload(&quote_payload()).is_ok());
}

#[test]
fn payload_kind_matches_variant() {
    assert_eq!(quote_payload().kind(), DataKind::Quote);
    let flash = Jin10Payload::Flash(FlashNews {
        importance: Jin10Importance::new(3).expect("1–5 合法"),
        channels: Vec::new(),
        content: "合成".to_owned(),
        is_data: false,
    });
    assert_eq!(flash.kind(), DataKind::Flash);
}

/// Boundary: non-finite prices are never legal quote values.
#[test]
fn non_finite_prices_are_rejected() {
    for price in [f64::NAN, f64::INFINITY, f64::NEG_INFINITY] {
        let payload = Jin10Payload::Quote(QuoteSnapshot {
            symbol: "XAU".to_owned(),
            price: num(price),
            change_pct: num(0.0),
            ts: stamp("2026-09-18T09:32:01"),
        });
        assert_eq!(
            validate_payload(&payload).expect_err("非有限值").kind(),
            Jin10ErrorKind::Invalid
        );
    }
}

/// Each of the five optional calendar numbers refuses non-finite values and keeps
/// absent values and finite extremes.
#[test]
fn calendar_numeric_fields_reject_non_finite_values() {
    for field in 0..5 {
        for value in [
            f64::NAN,
            f64::INFINITY,
            f64::NEG_INFINITY,
            f64::MAX,
            -f64::MAX,
        ] {
            let mut fields: [Option<Jin10Number>; 5] = [None; 5];
            fields[field] = Some(num(value));
            let payload = Jin10Payload::Calendar(jin10x::CalendarEvent {
                country: "SYNTH_COUNTRY".into(),
                indicator: "SYNTH_INDICATOR".into(),
                previous: fields[0],
                consensus: fields[1],
                actual: fields[2],
                revised: fields[3],
                surprise_z: fields[4],
            });
            let result = validate_payload(&payload);
            if value.is_finite() {
                assert!(result.is_ok());
            } else {
                assert_eq!(
                    result.expect_err("非有限数必须拒绝").kind(),
                    Jin10ErrorKind::Invalid
                );
            }
        }
    }
}

/// Exact details of every envelope and payload refusal.
#[test]
fn envelope_and_payload_details() {
    let mut envelope = Jin10Envelope {
        msg_id: " \t".to_owned(),
        source: SOURCE_ID.to_owned(),
        kind: DataKind::Flash,
        event_time: stamp("2026-09-18T09:32:01"),
        collect_time: stamp("2026-09-18T09:32:01"),
        payload: quote_payload(),
        raw_ref: None,
    };
    assert_eq!(validate_envelope(&envelope).expect_err("空白标识").detail(), "msg_id");
    envelope.msg_id = "m-1".to_owned();
    envelope.source = "jin1O".to_owned();
    assert_eq!(
        validate_envelope(&envelope).expect_err("源不符").detail(),
        "source 须为 \"jin10\""
    );
    envelope.source = "jin10".to_owned();
    let error = validate_envelope(&envelope).expect_err("类别不一致");
    assert_eq!(error.kind(), Jin10ErrorKind::SemanticallyRejected);
    assert_eq!(error.detail(), "载荷类别 Quote 与声明的 kind Flash 不一致");
    envelope.kind = DataKind::Quote;
    assert!(validate_envelope(&envelope).is_ok(), "同刻合法");
    envelope.collect_time = stamp("2026-09-18");
    assert_eq!(
        validate_envelope(&envelope).expect_err("日期早于带时刻").detail(),
        "collect_time 早于 event_time"
    );
    let calendar = Jin10Payload::Calendar(CalendarEvent {
        country: "US".to_owned(),
        indicator: "".to_owned(),
        previous: None,
        consensus: None,
        actual: None,
        revised: None,
        surprise_z: None,
    });
    assert_eq!(validate_payload(&calendar).expect_err("缺指标").detail(), "indicator");
    let quote = Jin10Payload::Quote(QuoteSnapshot {
        symbol: "XAU".to_owned(),
        price: num(1.0),
        change_pct: num(f64::INFINITY),
        ts: stamp("2026-09-18"),
    });
    assert_eq!(
        validate_payload(&quote).expect_err("非有限").detail(),
        "price 与 change_pct 须为有限数值"
    );
}
