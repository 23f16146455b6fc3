use jin10x::{Date, Frequency, Jin10ErrorKind, Jin10Unit, Period};

fn date(text: &str) -> Date {
    Date::parse(text).expect("测试日期合法")
}

#[test]
fn date_parse_is_strict_and_checks_the_calendar() {
    assert_eq!(Date::parse("2026-09-18").expect("合法").day, 18);
    for bad in ["2026-9-18", "2026/09/18", "2026-02-30"] {
        assert_eq!(
            Date::parse(bad).expect_err(bad).kind(),
            Jin10ErrorKind::Invalid
        );
    }
    assert!(Date::is_leap_year(2000) && !Date::is_leap_year(1900));
}

#[test]
fn period_and_frequency_are_typed_not_strings() {
    assert!(Period::Month {
        year: 2026,
        month: 12
    }
    .validate()
    .is_ok());
    assert!(Period::Quarter {
        year: 2026,
        quarter: 5
    }
    .validate()
    .is_err());
    for frequency in [Frequency::Daily, Frequency::Event, Frequency::Irregular] {
        assert_eq!(
            Frequency::parse(frequency.as_str()).expect("可回读"),
            frequency
        );
    }
}

#[test]
fn unit_has_exactly_the_two_declared_forms() {
    assert_ne!(Jin10Unit::Unspecified, Jin10Unit::Percent);
}

#[test]
fn date_parse_requires_iso_separator() {
    assert_eq!(date("2026-09-18").to_iso_text(), "2026-09-18");
    for bad in ["2026/09/18", "2026-9-18", "2026-09-18T00:00:00"] {
        assert_eq!(
            Date::parse(bad).expect_err(bad).kind(),
            Jin10ErrorKind::Invalid
        );
    }
}

#[test]
fn date_new_rejects_out_of_range_day() {
    assert_eq!(
        Date::new(2026, 4, 31).expect_err("四月无 31 日").kind(),
        Jin10ErrorKind::Invalid
    );
    assert!(Date::new(2026, 4, 30).is_ok());
}

#[test]
fn date_validate_handles_leap_february() {
    assert!(Date::new(2024, 2, 29).is_ok(), "闰年二月有 29 日");
    assert!(Date::new(2023, 2, 29).is_err(), "平年二月没有 29 日");
    assert_eq!(
        Date::parse("2026-02-30").expect_err("二月无 30 日").kind(),
        Jin10ErrorKind::Invalid
    );
}

#[test]
fn leap_year_follows_gregorian_rule() {
    assert!(Date::is_leap_year(2024));
    assert!(!Date::is_leap_year(1900), "百年不闰");
    assert!(Date::is_leap_year(2000), "四百年再闰");
    assert!(!Date::is_leap_year(2023));
}

#[test]
fn period_validate_rejects_bad_quarter() {
    for bad in [
        Period::Quarter {
            year: 2026,
            quarter: 5,
        },
        Period::Month {
            year: 2026,
            month: 13,
        },
    ] {
        assert_eq!(
            bad.validate().expect_err("越界").kind(),
            Jin10ErrorKind::Invalid
        );
    }
    assert!(Period::Year(2026).validate().is_ok());
    assert!(Period::Day(date("2026-09-18")).validate().is_ok());
    assert!(Period::Event {
        date: date("2026-09-18")
    }
    .validate()
    .is_ok());
}

#[test]
fn frequency_round_trips() {
    for frequency in [
        Frequency::Daily,
        Frequency::Weekly,
        Frequency::Monthly,
        Frequency::Quarterly,
        Frequency::Annual,
        Frequency::Event,
        Frequency::Irregular,
    ] {
        assert_eq!(
            Frequency::parse(frequency.as_str()).expect("可回读"),
            frequency
        );
    }
}

#[test]
fn frequency_parse_rejects_unknown() {
    assert_eq!(
        Frequency::parse("fortnightly")
            .expect_err("未知频率")
            .kind(),
        Jin10ErrorKind::NotApplicable
    );
}

/// Boundary: the leap rule is the Gregorian one, not "every fourth year".
#[test]
fn leap_year_edge_years() {
    assert!(Date::is_leap_year(2000), "400 年一闰");
    assert!(!Date::is_leap_year(1900), "100 年不闰");
    assert!(Date::new(2000, 2, 29).is_ok());
    assert_eq!(
        Date::new(1900, 2, 29).expect_err("1900 非闰年").kind(),
        Jin10ErrorKind::Invalid
    );
}

/// Error details name the offending value.
#[test]
fn date_errors_carry_exact_details() {
    let error = Date::new(2026, 13, 1).expect_err("月越界");
    assert_eq!(error.detail(), "月须在 1–12");
    let error = Date::new(2023, 2, 29).expect_err("日越界");
    assert_eq!(error.detail(), "日须在 1–28");
    let error = Date::parse("2026/09/18").expect_err("分隔符");
    assert_eq!(error.detail(), "日期须为严格 YYYY-MM-DD 形态");
    let error = Date::parse("20a6-09-18").expect_err("非数字");
    assert_eq!(error.detail(), "年须为两位补零十进制数字");
    let error = Date::parse("2026-0x-18").expect_err("非数字");
    assert_eq!(error.detail(), "月须为两位补零十进制数字");
    let error = Period::Quarter { year: 2026, quarter: 0 }.validate().expect_err("季越界");
    assert_eq!(error.detail(), "季须在 1–4");
    let error = Frequency::parse("hourly").expect_err("未知频率");
    assert_eq!(error.detail(), "频率不在契约的七个取值内");
}

/// Parsing ignores ASCII case for frequencies; the ISO text pads the year.
#[test]
fn frequency_case_and_iso_padding() {
    assert_eq!(Frequency::parse("MONTHLY").expect("大小写不敏感"), Frequency::Monthly);
    assert_eq!(Frequency::parse("Quarterly").expect("大小写不敏感"), Frequency::Quarterly);
    assert_eq!(Date::new(7, 1, 2).expect("合法").to_iso_text(), "0007-01-02");
    assert_eq!(Date::new(-5, 12, 31).expect("合法").to_iso_text(), "-005-12-31");
    assert_eq!(Date::new(12345, 3, 4).expect("合法").to_iso_text(), "12345-03-04");
    assert_eq!(
        Date::new(2000, 2, 29).expect("合法").to_iso_text(),
        format!("{:04}-{:02}-{:02}", 2000, 2, 29)
    );
}

/// Round trip on concrete dates: the ISO text parses back to the same date.
#[test]
fn iso_text_parses_back() {
    for (y, m, d) in [(2026, 9, 18), (2024, 2, 29), (1, 1, 1), (9999, 12, 31)] {
        let date = Date::new(y, m, d).expect("合法");
        assert_eq!(Date::parse(&date.to_iso_text()).expect("可回读"), date);
    }
}
