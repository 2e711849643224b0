use otel_service::filter::ceiling_from_bound;
use otel_service::filter::LogFilter;
use otel_service::filter::Severity;

const ALL: [Severity; 5] =
    [Severity::Error, Severity::Warn, Severity::Info, Severity::Debug, Severity::Trace];

#[test]
fn default_threshold_is_info() {
    let filter = LogFilter::resolve(None);
    assert_eq!(filter.expression, "info");
    assert_eq!(filter.ceiling, Some(Severity::Info));
    assert!(filter.should_emit(Severity::Info));
    assert!(!filter.should_emit(Severity::Debug));
    assert!(filter.should_emit(Severity::Error));
    assert!(filter.should_emit(Severity::Warn));
    assert!(!filter.should_emit(Severity::Trace));
}

#[test]
fn fallback_is_the_info_filter() {
    let filter = LogFilter::fallback();
    assert_eq!(filter.expression, "info");
    assert_eq!(filter.ceiling, Some(Severity::Info));
}

#[test]
fn the_parser_agrees_on_the_fallback_expression() {
    let filter = LogFilter::resolve(Some("info"));
    assert_eq!(filter.expression, "info");
    assert_eq!(filter.ceiling, Some(Severity::Info));
}

#[test]
fn a_bare_severity_sets_the_ceiling() {
    let cases = [
        ("error", Severity::Error),
        ("warn", Severity::Warn),
        ("info", Severity::Info),
        ("debug", Severity::Debug),
        ("trace", Severity::Trace),
        ("DEBUG", Severity::Debug),
    ];
    for (text, top) in cases {
        let filter = LogFilter::resolve(Some(text));
        assert_eq!(filter.expression, text);
        assert_eq!(filter.ceiling, Some(top), "on {:?}", text);
    }
}

#[test]
fn off_lets_nothing_through() {
    let filter = LogFilter::resolve(Some("off"));
    assert_eq!(filter.expression, "off");
    assert_eq!(filter.ceiling, None);
    for level in ALL {
        assert!(!filter.should_emit(level));
    }
}

#[test]
fn the_most_verbose_directive_sets_the_ceiling() {
    let filter = LogFilter::resolve(Some("warn,my_crate=debug"));
    assert_eq!(filter.expression, "warn,my_crate=debug");
    assert_eq!(filter.ceiling, Some(Severity::Debug));
    assert!(filter.should_emit(Severity::Debug));
    assert!(!filter.should_emit(Severity::Trace));
}

#[test]
fn a_rejected_expression_falls_back_to_info() {
    for text in ["my_crate=loud", "a=b=c", "info,my_crate=loud"] {
        let filter = LogFilter::resolve(Some(text));
        assert_eq!(filter.expression, "info", "on {:?}", text);
        assert_eq!(filter.ceiling, Some(Severity::Info), "on {:?}", text);
        assert!(filter.should_emit(Severity::Info));
        assert!(!filter.should_emit(Severity::Debug));
    }
}

#[test]
fn decide_follows_the_verdict() {
    let kept = LogFilter::decide(Some("debug"), Some(4));
    assert_eq!(kept.expression, "debug");
    assert_eq!(kept.ceiling, Some(Severity::Debug));

    let silent = LogFilter::decide(Some("off"), Some(0));
    assert_eq!(silent.expression, "off");
    assert_eq!(silent.ceiling, None);

    let rejected = LogFilter::decide(Some("what"), None);
    assert_eq!(rejected.expression, "info");
    assert_eq!(rejected.ceiling, Some(Severity::Info));

    let unset = LogFilter::decide(None, None);
    assert_eq!(unset.expression, "info");
    assert_eq!(unset.ceiling, Some(Severity::Info));

    let stray = LogFilter::decide(None, Some(5));
    assert_eq!(stray.expression, "info");
    assert_eq!(stray.ceiling, Some(Severity::Info));
}

#[test]
fn ceiling_from_bound_covers_every_bound() {
    assert_eq!(ceiling_from_bound(0), None);
    assert_eq!(ceiling_from_bound(1), Some(Severity::Error));
    assert_eq!(ceiling_from_bound(2), Some(Severity::Warn));
    assert_eq!(ceiling_from_bound(3), Some(Severity::Info));
    assert_eq!(ceiling_from_bound(4), Some(Severity::Debug));
    assert_eq!(ceiling_from_bound(5), Some(Severity::Trace));
    assert_eq!(ceiling_from_bound(6), Some(Severity::Trace));
    assert_eq!(ceiling_from_bound(255), Some(Severity::Trace));
}

#[test]
fn verbosity_orders_the_severities() {
    assert_eq!(Severity::Error.verbosity(), 1);
    assert_eq!(Severity::Warn.verbosity(), 2);
    assert_eq!(Severity::Info.verbosity(), 3);
    assert_eq!(Severity::Debug.verbosity(), 4);
    assert_eq!(Severity::Trace.verbosity(), 5);
}

#[test]
fn should_emit_is_downward_closed() {
    for bound in 0..=5u8 {
        let filter = LogFilter { expression: String::new(), ceiling: ceiling_from_bound(bound) };
        for level in ALL {
            assert_eq!(filter.should_emit(level), level.verbosity() <= bound);
        }
    }
}

#[test]
fn text_outside_ascii_is_not_parsed_and_falls_back() {
    for text in ["caf\u{e9}=debug", "\u{a0}\u{e9}a=info", "d\u{e9}bug"] {
        let filter = LogFilter::resolve(Some(text));
        assert_eq!(filter.expression, "info", "on {:?}", text);
        assert_eq!(filter.ceiling, Some(Severity::Info), "on {:?}", text);
    }
}

#[test]
fn the_empty_expression_is_accepted_and_enables_nothing() {
    let filter = LogFilter::resolve(Some(""));
    assert_eq!(filter.expression, "");
    assert_eq!(filter.ceiling, None);
}

#[test]
fn a_target_without_a_level_is_as_verbose_as_can_be() {
    let filter = LogFilter::resolve(Some("my_crate"));
    assert_eq!(filter.expression, "my_crate");
    assert_eq!(filter.ceiling, Some(Severity::Trace));
}
