use zenoh_shell_core::errors::{Loc, OptionError};
use zenoh_shell_core::options::{
    parse_congestion, parse_consolidation, parse_locality, parse_priority, parse_target,
    parse_timestamp, parse_u8_dec, session_or_default, str_eq, timeout_nanos, CongestionMode,
    ConsolidationMode, Locality, QueryTarget,
};

fn loc() -> Loc {
    Loc { start: 3, end: 9 }
}

#[test]
fn priority_seven_is_accepted() {
    assert_eq!(parse_priority("7", loc()), Ok(7));
}

#[test]
fn priority_nine_is_a_range_error() {
    assert_eq!(
        parse_priority("9", loc()),
        Err(OptionError::PriorityOutOfRange(loc()))
    );
}

#[test]
fn priority_zero_and_plus_sign_parse() {
    assert_eq!(parse_priority("0", loc()), Ok(0));
    assert_eq!(parse_priority("+7", loc()), Ok(7));
}

#[test]
fn priority_garbage_is_not_a_number() {
    assert_eq!(
        parse_priority("abc", loc()),
        Err(OptionError::PriorityNotANumber(loc()))
    );
    assert_eq!(
        parse_priority("", loc()),
        Err(OptionError::PriorityNotANumber(loc()))
    );
    assert_eq!(
        parse_priority("-1", loc()),
        Err(OptionError::PriorityNotANumber(loc()))
    );
    assert_eq!(
        parse_priority("255", loc()),
        Err(OptionError::PriorityOutOfRange(loc()))
    );
    assert_eq!(
        parse_priority("999", loc()),
        Err(OptionError::PriorityNotANumber(loc()))
    );
    assert_eq!(
        parse_priority("99999999999999999999", loc()),
        Err(OptionError::PriorityNotANumber(loc()))
    );
}

#[test]
fn u8_decimal_parser_agrees_with_std() {
    for s in [
        "0", "7", "8", "255", "256", "007", "+0", "+", "", " 7", "7 ", "1e2", "-3", "٣", "255",
        "0255", "99999999999999999999",
    ] {
        assert_eq!(parse_u8_dec(s), s.parse::<u8>().ok(), "input {s:?}");
    }
}

#[test]
fn congestion_codes_map_to_drop_and_block() {
    assert_eq!(parse_congestion(0, loc()), Ok(CongestionMode::Drop));
    assert_eq!(parse_congestion(1, loc()), Ok(CongestionMode::Block));
}

#[test]
fn congestion_two_fails_validation() {
    assert_eq!(
        parse_congestion(2, loc()),
        Err(OptionError::InvalidCongestion(loc()))
    );
    assert_eq!(
        parse_congestion(-1, loc()),
        Err(OptionError::InvalidCongestion(loc()))
    );
}

#[test]
fn consolidation_accepts_exactly_its_literals() {
    assert_eq!(
        parse_consolidation("auto", loc()),
        Ok(ConsolidationMode::Auto)
    );
    assert_eq!(
        parse_consolidation("latest", loc()),
        Ok(ConsolidationMode::Latest)
    );
    assert_eq!(
        parse_consolidation("monotonic", loc()),
        Ok(ConsolidationMode::Monotonic)
    );
    assert_eq!(
        parse_consolidation("none", loc()),
        Ok(ConsolidationMode::NoConsolidation)
    );
    for bad in ["Auto", "LATEST", "", "newest", "none "] {
        assert_eq!(
            parse_consolidation(bad, loc()),
            Err(OptionError::InvalidConsolidation(loc())),
            "input {bad:?}"
        );
    }
}

#[test]
fn target_accepts_exactly_its_literals() {
    assert_eq!(parse_target("all", loc()), Ok(QueryTarget::All));
    assert_eq!(
        parse_target("all-complete", loc()),
        Ok(QueryTarget::AllComplete)
    );
    assert_eq!(
        parse_target("best-matching", loc()),
        Ok(QueryTarget::BestMatching)
    );
    for bad in ["All", "best", "allcomplete", ""] {
        assert_eq!(
            parse_target(bad, loc()),
            Err(OptionError::InvalidTarget(loc())),
            "input {bad:?}"
        );
    }
}

#[test]
fn locality_accepts_exactly_its_literals() {
    assert_eq!(parse_locality("any", loc()), Ok(Locality::Any));
    assert_eq!(parse_locality("remote", loc()), Ok(Locality::Remote));
    assert_eq!(
        parse_locality("session-local", loc()),
        Ok(Locality::SessionLocal)
    );
    for bad in ["Any", "local", "session_local", ""] {
        assert_eq!(
            parse_locality(bad, loc()),
            Err(OptionError::InvalidLocality(loc())),
            "input {bad:?}"
        );
    }
}

#[test]
fn timestamp_parses_rfc3339_with_id_suffix() {
    assert_eq!(
        parse_timestamp("2024-07-01T13:51:12.129693000Z/33", loc()),
        Ok(())
    );
}

#[test]
fn timestamp_accepts_the_last_representable_second() {
    assert_eq!(
        parse_timestamp("2106-02-07T06:28:15Z/33", loc()),
        Ok(())
    );
}

#[test]
fn timestamp_past_the_clock_era_is_rejected_not_aborted() {
    for s in [
        "2106-02-07T06:28:16Z/33",
        "2200-01-01T00:00:00Z/01",
        "9999-12-31T23:59:59Z/33",
    ] {
        match parse_timestamp(s, loc()) {
            Err(OptionError::InvalidTimestamp(l, diag)) => {
                assert_eq!(l, loc());
                assert!(diag.contains("32-bit"), "{diag}");
            }
            other => panic!("expected an era failure for {s:?}, got {other:?}"),
        }
    }
}

#[test]
fn timestamp_rejects_a_bad_identifier() {
    for s in [
        "2024-07-01T13:51:12Z/0abc",
        "2024-07-01T13:51:12Z/zz",
        "2024-07-01T13:51:12Z/",
    ] {
        match parse_timestamp(s, loc()) {
            Err(OptionError::InvalidTimestamp(l, diag)) => {
                assert_eq!(l, loc());
                assert!(diag.contains("Invalid ID"), "{diag}");
            }
            other => panic!("expected an identifier failure for {s:?}, got {other:?}"),
        }
    }
}

#[test]
fn timestamp_rejects_a_bad_time_part() {
    match parse_timestamp("2024-13-01T00:00:00Z/33", loc()) {
        Err(OptionError::InvalidTimestamp(_, diag)) => {
            assert!(!diag.is_empty());
        }
        other => panic!("expected a time failure, got {other:?}"),
    }
}

#[test]
fn timestamp_without_separator_names_the_missing_slash() {
    match parse_timestamp("2024-07-01T13:51:12.129693000Z", loc()) {
        Err(OptionError::InvalidTimestamp(_, diag)) => {
            assert!(diag.contains("missing '/'"), "{diag}");
        }
        other => panic!("expected a separator failure, got {other:?}"),
    }
}

#[test]
fn timestamp_rejects_malformed_input_with_location() {
    match parse_timestamp("not-a-time", loc()) {
        Err(OptionError::InvalidTimestamp(l, diag)) => {
            assert_eq!(l, loc());
            assert!(!diag.is_empty());
        }
        other => panic!("expected a timestamp failure, got {other:?}"),
    }
    assert!(parse_timestamp("2024-07-01T13:51:12.129693000Z", loc()).is_err());
}

#[test]
fn timeout_converts_nanoseconds_as_cast() {
    assert_eq!(timeout_nanos(1234), 1234);
    assert_eq!(timeout_nanos(0), 0);
    assert_eq!(timeout_nanos(-1), u64::MAX);
}

#[test]
fn session_defaults_to_the_default_literal() {
    assert_eq!(session_or_default(None), "default".to_string());
    assert_eq!(
        session_or_default(Some("mine".to_string())),
        "mine".to_string()
    );
}

#[test]
fn string_equality_is_by_contents() {
    assert!(str_eq("abc", "abc"));
    assert!(!str_eq("abc", "abd"));
    assert!(!str_eq("abc", "ab"));
    assert!(str_eq("", ""));
    assert!(str_eq("héllo", "héllo"));
    assert!(!str_eq("héllo", "hello"));
}
