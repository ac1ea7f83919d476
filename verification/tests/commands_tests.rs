use zenoh_shell_core::commands::{
    plan_reply, plan_reply_values, reply_outcome_value, resolve_delete, resolve_get, resolve_keyed,
    resolve_publication, resolve_put, resolve_queryable, resolve_scout, resolve_subscribe,
    select_config_source, ConfigSource, DeleteRaw, GetRaw, PublicationRaw, PutRaw, QueryableRaw,
    ReplyPlan, SetupError, SubscribeRaw,
};
use zenoh_shell_core::errors::{Loc, OptionError};
use zenoh_shell_core::options::{CongestionMode, ConsolidationMode, Locality, QueryTarget};
use zenoh_shell_core::value::Val;

fn loc() -> Loc {
    Loc { start: 1, end: 2 }
}

fn empty_publication() -> PublicationRaw {
    PublicationRaw {
        priority: None,
        congestion: None,
        reliable: None,
        express: None,
        attachment: None,
        timestamp: None,
        destination: None,
    }
}

#[test]
fn put_resolves_every_option() {
    let raw = PutRaw {
        session: Some("s1".to_string()),
        keyexpr: "demo/a".to_string(),
        payload: "hi".to_string(),
        encoding: Some("text/plain".to_string()),
        publication: PublicationRaw {
            priority: Some("7".to_string()),
            congestion: Some(1),
            reliable: Some(true),
            express: Some(false),
            attachment: Some("meta".to_string()),
            timestamp: Some("2024-07-01T13:51:12.129693000Z/33".to_string()),
            destination: Some("remote".to_string()),
        },
        loc: loc(),
    };
    let p = resolve_put(raw).unwrap();
    assert_eq!(p.session, "s1");
    assert_eq!(p.keyexpr, "demo/a");
    assert_eq!(p.payload, "hi");
    assert_eq!(p.encoding, Some("text/plain".to_string()));
    assert_eq!(p.opts.priority, Some(7));
    assert_eq!(p.opts.congestion, Some(CongestionMode::Block));
    assert_eq!(p.opts.reliable, Some(true));
    assert_eq!(p.opts.express, Some(false));
    assert_eq!(p.opts.attachment, Some(b"meta".to_vec()));
    assert_eq!(
        p.opts.timestamp,
        Some("2024-07-01T13:51:12.129693000Z/33".to_string())
    );
    assert_eq!(p.opts.destination, Some(Locality::Remote));
}

#[test]
fn put_with_no_options_uses_defaults() {
    let raw = PutRaw {
        session: None,
        keyexpr: "k".to_string(),
        payload: "v".to_string(),
        encoding: None,
        publication: empty_publication(),
        loc: loc(),
    };
    let p = resolve_put(raw).unwrap();
    assert_eq!(p.session, "default");
    assert_eq!(p.opts.priority, None);
    assert_eq!(p.opts.congestion, None);
    assert_eq!(p.opts.attachment, None);
    assert_eq!(p.opts.destination, None);
}

#[test]
fn publication_fails_fast_on_the_first_bad_option() {
    let raw = PublicationRaw {
        priority: Some("9".to_string()),
        congestion: Some(5),
        reliable: None,
        express: None,
        attachment: None,
        timestamp: Some("bad".to_string()),
        destination: Some("bad".to_string()),
    };
    assert_eq!(
        resolve_publication(raw, loc()),
        Err(OptionError::PriorityOutOfRange(loc()))
    );
    let raw = PublicationRaw {
        priority: None,
        congestion: Some(5),
        reliable: None,
        express: None,
        attachment: None,
        timestamp: Some("bad".to_string()),
        destination: None,
    };
    assert_eq!(
        resolve_publication(raw, loc()),
        Err(OptionError::InvalidCongestion(loc()))
    );
    let raw = PublicationRaw {
        priority: None,
        congestion: None,
        reliable: None,
        express: None,
        attachment: None,
        timestamp: Some("bad".to_string()),
        destination: Some("bad".to_string()),
    };
    match resolve_publication(raw, loc()) {
        Err(OptionError::InvalidTimestamp(l, _)) => assert_eq!(l, loc()),
        other => panic!("expected a timestamp failure, got {other:?}"),
    }
}

#[test]
fn delete_shares_the_publication_discipline() {
    let raw = DeleteRaw {
        session: None,
        keyexpr: "demo/x".to_string(),
        publication: PublicationRaw {
            priority: Some("2".to_string()),
            congestion: Some(0),
            reliable: None,
            express: Some(true),
            attachment: None,
            timestamp: None,
            destination: Some("session-local".to_string()),
        },
        loc: loc(),
    };
    let p = resolve_delete(raw).unwrap();
    assert_eq!(p.session, "default");
    assert_eq!(p.keyexpr, "demo/x");
    assert_eq!(p.opts.priority, Some(2));
    assert_eq!(p.opts.congestion, Some(CongestionMode::Drop));
    assert_eq!(p.opts.destination, Some(Locality::SessionLocal));
}

#[test]
fn subscribe_resolves_origin_or_fails_with_locality_error() {
    let p = resolve_subscribe(SubscribeRaw {
        session: None,
        keyexpr: "demo/**".to_string(),
        origin: Some("any".to_string()),
        loc: loc(),
    })
    .unwrap();
    assert_eq!(p.session, "default");
    assert_eq!(p.keyexpr, "demo/**");
    assert_eq!(p.origin, Some(Locality::Any));

    assert_eq!(
        resolve_subscribe(SubscribeRaw {
            session: None,
            keyexpr: "demo/**".to_string(),
            origin: Some("everywhere".to_string()),
            loc: loc(),
        }),
        Err(OptionError::InvalidLocality(loc()))
    );
}

#[test]
fn get_resolves_query_options_in_order() {
    let raw = GetRaw {
        session: None,
        keyexpr: "demo/**".to_string(),
        target: Some("all-complete".to_string()),
        consolidation: Some("latest".to_string()),
        timeout: Some(1_500_000_000),
        payload: Some("q".to_string()),
        encoding: None,
        attachment: Some("att".to_string()),
        destination: Some("any".to_string()),
        loc: loc(),
    };
    let p = resolve_get(raw).unwrap();
    assert_eq!(p.target, Some(QueryTarget::AllComplete));
    assert_eq!(p.consolidation, Some(ConsolidationMode::Latest));
    assert_eq!(p.timeout_ns, Some(1_500_000_000));
    assert_eq!(p.payload, Some("q".to_string()));
    assert_eq!(p.attachment, Some(b"att".to_vec()));
    assert_eq!(p.destination, Some(Locality::Any));

    let bad = GetRaw {
        session: None,
        keyexpr: "demo/**".to_string(),
        target: Some("everything".to_string()),
        consolidation: Some("broken".to_string()),
        timeout: None,
        payload: None,
        encoding: None,
        attachment: None,
        destination: Some("broken".to_string()),
        loc: loc(),
    };
    assert_eq!(resolve_get(bad), Err(OptionError::InvalidTarget(loc())));
}

#[test]
fn queryable_resolves_origin_and_completeness() {
    let p = resolve_queryable(QueryableRaw {
        session: Some("s".to_string()),
        keyexpr: "demo/q".to_string(),
        origin: Some("remote".to_string()),
        complete: Some(true),
        loc: loc(),
    })
    .unwrap();
    assert_eq!(p.session, "s");
    assert_eq!(p.origin, Some(Locality::Remote));
    assert_eq!(p.complete, Some(true));
}

#[test]
fn scout_and_keyed_commands_resolve_their_session() {
    assert_eq!(resolve_scout(None).session, "default");
    assert_eq!(resolve_scout(Some("s2".to_string())).session, "s2");
    let k = resolve_keyed(None, "alive/**".to_string());
    assert_eq!(k.session, "default");
    assert_eq!(k.keyexpr, "alive/**");
}

#[test]
fn config_source_selection_matches_the_decision_table() {
    assert_eq!(
        select_config_source(Some("/tmp/z.json5".to_string()), None, None),
        Ok(ConfigSource::FromFile("/tmp/z.json5".to_string()))
    );
    assert_eq!(
        select_config_source(None, Some(Val::Record(vec![])), None),
        Ok(ConfigSource::FromRecord(vec![]))
    );
    assert_eq!(
        select_config_source(None, Some(Val::Int(3)), None),
        Err(SetupError::ConfigNotARecord)
    );
    assert_eq!(
        select_config_source(None, None, Some("rt".to_string())),
        Ok(ConfigSource::FromRuntime("rt".to_string()))
    );
    assert_eq!(select_config_source(None, None, None), Ok(ConfigSource::Defaulted));
    assert_eq!(
        select_config_source(Some("f".to_string()), Some(Val::Record(vec![])), None),
        Err(SetupError::ConflictingConfig)
    );
    assert_eq!(
        select_config_source(Some("f".to_string()), None, Some("rt".to_string())),
        Err(SetupError::ConflictingConfig)
    );
}

#[test]
fn zero_handler_values_plan_zero_replies_and_a_nothing_outcome() {
    let plan = plan_reply(Ok(vec![]));
    assert_eq!(plan, ReplyPlan::SendValues(vec![]));
    assert_eq!(reply_outcome_value(&plan, None), Val::Nothing);
}

#[test]
fn handler_values_become_ordered_reply_payloads() {
    let plan = plan_reply(Ok(vec![
        Val::Text("a".to_string()),
        Val::Bytes(vec![1, 2]),
    ]));
    assert_eq!(
        plan,
        ReplyPlan::SendValues(vec![b"a".to_vec(), vec![1, 2]])
    );
    assert_eq!(reply_outcome_value(&plan, None), Val::Nothing);
}

#[test]
fn unconvertible_handler_value_stops_the_replies_in_band() {
    let plan = plan_reply_values(&vec![
        Val::Text("a".to_string()),
        Val::Int(3),
        Val::Text("never-sent".to_string()),
    ]);
    assert_eq!(
        plan,
        ReplyPlan::Partial {
            sent: vec![b"a".to_vec()],
            failed: 1,
        }
    );
    assert_eq!(
        reply_outcome_value(&plan, None),
        Val::Error("Value must be a String or Binary".to_string())
    );
}

#[test]
fn failing_handler_sends_exactly_one_error_reply() {
    let plan = plan_reply(Err("handler exploded".to_string()));
    assert_eq!(plan, ReplyPlan::SendError("handler exploded".to_string()));
    assert_eq!(reply_outcome_value(&plan, None), Val::Nothing);
}

#[test]
fn reply_send_failure_surfaces_as_in_band_error() {
    let plan = plan_reply(Ok(vec![Val::Text("a".to_string())]));
    assert_eq!(
        reply_outcome_value(&plan, Some("session closed".to_string())),
        Val::Error("session closed".to_string())
    );
}

#[test]
fn option_errors_render_their_titles_and_labels() {
    let e = OptionError::PriorityOutOfRange(loc());
    assert_eq!(e.title(), "Invalid priority");
    assert_eq!(e.label(), "Priority must be between 0-7");
    assert_eq!(e.location(), loc());
    let e = OptionError::InvalidCongestion(loc());
    assert_eq!(e.title(), "Invalid congestion control");
    assert_eq!(e.label(), "Must be 0 (drop) or 1 (block)");
    let e = OptionError::InvalidTimestamp(loc(), "why".to_string());
    assert_eq!(e.title(), "Invalid timestamp");
    assert_eq!(e.label(), "Failed to parse RFC3339 timestamp: why");
}
