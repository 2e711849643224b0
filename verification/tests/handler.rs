use otel_service::filter::LogFilter;
use otel_service::filter::Severity;
use otel_service::handler::do_a_thing;

#[test]
fn handler_answers_with_the_fixed_body() {
    let run = do_a_thing();
    assert_eq!(run.status, 200);
    assert_eq!(run.body, "We did a thing!");
}

#[test]
fn handler_opens_one_span_and_logs_one_event() {
    let run = do_a_thing();
    assert_eq!(run.span_name, "i_just_did_a_thing");
    assert_eq!(run.span_level, Severity::Info);
    assert_eq!(run.events.len(), 1);
    assert_eq!(run.events[0].level, Severity::Info);
    assert_eq!(run.events[0].message, "I'm doing a thing!");
}

#[test]
fn handler_answers_alike_on_every_call() {
    let first = do_a_thing();
    for _ in 0..100 {
        let next = do_a_thing();
        assert_eq!(next.status, first.status);
        assert_eq!(next.body, first.body);
        assert_eq!(next.span_name, first.span_name);
        assert_eq!(next.events.len(), first.events.len());
        assert_eq!(next.events[0].message, first.events[0].message);
    }
}

#[test]
fn handler_is_observed_under_the_default_filter() {
    let filter = LogFilter::resolve(None);
    let run = do_a_thing();
    assert!(run.records_span(&filter));
    assert!(run.emits_event(&filter, 0));
    assert!(!run.emits_event(&filter, 1));
    assert!(!run.emits_event(&filter, usize::MAX));
}

#[test]
fn handler_is_silent_under_a_stricter_filter() {
    let filter = LogFilter::resolve(Some("warn"));
    let run = do_a_thing();
    assert!(!run.records_span(&filter));
    assert!(!run.emits_event(&filter, 0));
    assert_eq!(run.status, 200);
    assert_eq!(run.body, "We did a thing!");
}

#[test]
fn handler_is_observed_under_a_more_verbose_filter() {
    let filter = LogFilter::resolve(Some("trace"));
    let run = do_a_thing();
    assert!(run.records_span(&filter));
    assert!(run.emits_event(&filter, 0));
}
