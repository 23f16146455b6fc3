use jin10x::{
    interface_plans, DataKind, Date, InterfaceId, Jin10Clock, Jin10ErrorKind, Jin10Importance,
    Jin10Timestamp,
};

fn date(text: &str) -> Date {
    Date::parse(text).expect("测试日期合法")
}

#[test]
fn data_kind_is_exactly_eight_and_round_trips() {
    let all = [
        DataKind::Flash,
        DataKind::Calendar,
        DataKind::BigEvent,
        DataKind::CentralBank,
        DataKind::Quote,
        DataKind::Treasury,
        DataKind::Cot,
        DataKind::EtfInventory,
    ];
    assert_eq!(all.len(), 8);
    for kind in all {
        assert_eq!(DataKind::parse(kind.as_str()).expect("可回读"), kind);
    }
    assert_eq!(
        DataKind::parse("flash").expect_err("大小写敏感").kind(),
        Jin10ErrorKind::Invalid
    );
}

#[test]
fn guard_predicates_are_exact() {
    assert!(DataKind::Quote.is_quote());
    assert!(!DataKind::Calendar.is_quote());
    assert!(DataKind::Treasury.overlaps_treasury_write());
    assert!(!DataKind::Cot.overlaps_treasury_write());
}

#[test]
fn clock_and_timestamp_are_strict() {
    assert!(Jin10Clock::new(23, 59, 59).is_ok());
    assert_eq!(
        Jin10Clock::new(24, 0, 0).expect_err("时越界").kind(),
        Jin10ErrorKind::Invalid
    );
    assert_eq!(
        Jin10Timestamp::parse("2026-09-18T09:31:05Z")
            .expect_err("带时区")
            .kind(),
        Jin10ErrorKind::Invalid
    );
}

#[test]
fn importance_is_closed_at_one_to_five() {
    for value in 1..=5u8 {
        assert_eq!(Jin10Importance::new(value).expect("1–5").get(), value);
    }
    assert!(Jin10Importance::new(0).is_err());
    assert!(Jin10Importance::new(6).is_err());
}

#[test]
fn interface_plan_lookup_matches_the_table() {
    assert_eq!(interface_plans().len(), 8);
    for plan in interface_plans() {
        assert_eq!(plan.id.plan(), plan);
    }
    assert_eq!(InterfaceId::S07.plan().planned_period_secs, None);
    assert_eq!(InterfaceId::S08.plan().planned_period_secs, Some(86400));
    assert_eq!(InterfaceId::S01.plan().declared_transport, "WS/SSE + HTTP");
}

#[test]
fn timestamp_is_only_expanded_when_the_source_gives_a_clock() {
    assert_eq!(
        Jin10Timestamp::parse("2026-09-18").expect("日粒度").clock,
        None
    );
    assert_eq!(
        Jin10Timestamp::date_only(Date::parse("2026-09-18").expect("日期")).clock,
        None
    );
}

#[test]
fn data_kind_round_trips() {
    let all = [
        DataKind::Flash,
        DataKind::Calendar,
        DataKind::BigEvent,
        DataKind::CentralBank,
        DataKind::Quote,
        DataKind::Treasury,
        DataKind::Cot,
        DataKind::EtfInventory,
    ];
    assert_eq!(all.len(), 8, "八类");
    for kind in all {
        assert_eq!(DataKind::parse(kind.as_str()).expect("可回读"), kind);
    }
}

#[test]
fn data_kind_parse_rejects_unknown() {
    for bad in ["FlashNews", "flash", "FLASH", ""] {
        assert_eq!(
            DataKind::parse(bad).expect_err(bad).kind(),
            Jin10ErrorKind::Invalid
        );
    }
}

#[test]
fn only_quote_is_quote() {
    for kind in [DataKind::Flash, DataKind::Calendar, DataKind::Cot] {
        assert!(!kind.is_quote(), "{kind:?} 不是行情类");
    }
    assert!(DataKind::Quote.is_quote());
}

#[test]
fn only_treasury_overlaps_write() {
    for kind in [DataKind::Calendar, DataKind::CentralBank, DataKind::Cot] {
        assert!(
            !kind.overlaps_treasury_write(),
            "{kind:?} 不与 treasury 重叠"
        );
    }
    assert!(DataKind::Treasury.overlaps_treasury_write());
}

#[test]
fn clock_new_rejects_hour_24() {
    assert_eq!(
        Jin10Clock::new(24, 0, 0).expect_err("时越界").kind(),
        Jin10ErrorKind::Invalid
    );
    assert!(Jin10Clock::new(23, 59, 59).is_ok());
}

#[test]
fn clock_validate_rejects_minute_60() {
    assert_eq!(
        Jin10Clock::new(1, 60, 0).expect_err("分越界").kind(),
        Jin10ErrorKind::Invalid
    );
    assert_eq!(
        Jin10Clock::new(1, 0, 60).expect_err("秒越界").kind(),
        Jin10ErrorKind::Invalid
    );
    assert!(Jin10Clock::new(1, 59, 59)
        .expect("合法时刻")
        .validate()
        .is_ok());
}

#[test]
fn timestamp_parse_rejects_timezone_suffix() {
    assert_eq!(
        Jin10Timestamp::parse("2026-09-18T09:31:05Z")
            .expect_err("带时区")
            .kind(),
        Jin10ErrorKind::Invalid
    );
    assert_eq!(
        Jin10Timestamp::parse("2026-09-1809:31:05")
            .expect_err("缺 T")
            .kind(),
        Jin10ErrorKind::Invalid
    );
}

#[test]
fn timestamp_date_only_has_no_clock() {
    let stamp = Jin10Timestamp::date_only(date("2026-09-18"));
    assert_eq!(stamp.clock, None, "不得补造时刻");
    assert_eq!(stamp.date, date("2026-09-18"));
}

#[test]
fn importance_rejects_zero() {
    assert_eq!(
        Jin10Importance::new(0).expect_err("0 越界").kind(),
        Jin10ErrorKind::Invalid
    );
    assert_eq!(
        Jin10Importance::new(6).expect_err("6 越界").kind(),
        Jin10ErrorKind::Invalid
    );
}

#[test]
fn importance_round_trips() {
    for value in 1..=5u8 {
        assert_eq!(Jin10Importance::new(value).expect("1–5 合法").get(), value);
    }
}

/// Boundary: importance outside 1–5 is refused (0, 6 and 255).
#[test]
fn importance_bounds_are_closed() {
    for value in [0u8, 6, 255] {
        assert_eq!(
            jin10x::Jin10Importance::new(value)
                .expect_err("越界")
                .kind(),
            Jin10ErrorKind::Invalid
        );
    }
    assert!(jin10x::Jin10Importance::new(1).is_ok());
    assert!(jin10x::Jin10Importance::new(5).is_ok());
}

#[test]
fn interface_plan_table_is_pinned() {
    let plans = interface_plans();
    assert_eq!(plans.len(), 8);
    assert_eq!(plans[0].id.as_str(), "S01");
    assert_eq!(plans[0].planned_period_secs, Some(5));
    assert_eq!(plans[4].id, InterfaceId::S05);
    assert_eq!(plans[4].planned_period_secs, Some(3));
    assert_eq!(plans[6].id, InterfaceId::S07);
    assert_eq!(plans[6].id.as_str(), "S07");
    assert_eq!(plans[6].planned_period_secs, None, "每周六无秒级周期");
    assert_eq!(plans[7].planned_period_secs, Some(86400));
    assert_eq!(plans[0].declared_transport, "WS/SSE + HTTP");
    assert_eq!(plans[1].declared_transport, "HTTP");
    assert_eq!(plans[7].name, "ETF/库存");
    for plan in plans {
        assert_eq!(plan.id.plan(), plan);
    }
    assert_eq!(InterfaceId::S05.plan().planned_period_secs, Some(3));
    assert_eq!(InterfaceId::S08.plan().planned_period_secs, Some(86400));
}

/// The planned table, entry by entry.
#[test]
fn planned_periods_and_notes() {
    let plans = interface_plans();
    let secs: Vec<Option<u32>> = plans.iter().map(|p| p.planned_period_secs).collect();
    assert_eq!(
        secs,
        vec![Some(5), Some(60), Some(300), Some(60), Some(3), Some(3600), None, Some(86400)]
    );
    assert_eq!(plans[0].name, "快讯");
    assert_eq!(plans[6].planned_period_note, "每周六");
    for plan in &plans[1..] {
        assert_eq!(plan.declared_transport, "HTTP");
    }
    assert!(jin10x::PLANNED_PERIODS_ARE_NOT_ACCESS_CONTRACT);
    assert_eq!(jin10x::SOURCE_ID, "jin10");
}

/// Timestamps: exact error details, clock kept when given, order as `<` orders.
#[test]
fn timestamp_details_and_order() {
    let stamp = Jin10Timestamp::parse("2026-09-18T09:31:05").expect("合法");
    assert_eq!(stamp.clock, Some(Jin10Clock { hour: 9, minute: 31, second: 5 }));
    assert_eq!(
        Jin10Timestamp::parse("2026-09-18T09-31-05").expect_err("分隔符").detail(),
        "时刻须为 HH:MM:SS"
    );
    assert_eq!(
        Jin10Timestamp::parse("2026-09-18T24:00:00").expect_err("时越界").detail(),
        "时须在 0–23"
    );
    assert_eq!(
        Jin10Timestamp::parse("2026-09-18T0a:00:00").expect_err("非数字").detail(),
        "时须为两位补零十进制数字"
    );
    assert_eq!(
        Jin10Timestamp::parse("2026/09/18T09:31:05").expect_err("日期").detail(),
        "日期须为严格 YYYY-MM-DD 形态"
    );
    assert_eq!(
        Jin10Timestamp::parse("2026-9-18T09:31:05").expect_err("形态").detail(),
        "时间戳须为 YYYY-MM-DD 或 YYYY-MM-DDTHH:MM:SS"
    );
    let stamps = [
        Jin10Timestamp::parse("2026-09-17T23:59:59").expect("合法"),
        Jin10Timestamp::parse("2026-09-18").expect("合法"),
        Jin10Timestamp::parse("2026-09-18T00:00:00").expect("合法"),
        Jin10Timestamp::parse("2026-09-18T09:31:05").expect("合法"),
        Jin10Timestamp::parse("2027-01-01").expect("合法"),
    ];
    for a in &stamps {
        for b in &stamps {
            assert_eq!(a.precedes(b), a < b);
        }
    }
}

/// The data kind error names the input exactly.
#[test]
fn data_kind_error_detail() {
    assert_eq!(
        DataKind::parse("flash").expect_err("小写").detail(),
        "数据类别不属于清单固定八类"
    );
    assert_eq!(
        Jin10Importance::new(9).expect_err("越界").detail(),
        "重要度须在 1–5"
    );
}
