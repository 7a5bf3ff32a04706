use stream_encoder::normalize;
use stream_encoder::normalize_optional;
use stream_encoder::resolve_production_failure;
use stream_encoder::DataGenReturn;
use stream_encoder::FailurePolicy;
use stream_encoder::Outcome;

#[test]
fn explicit_success_means_continue() {
    assert_eq!(normalize(DataGenReturn::Fallible(Ok(()))), Outcome::Continue);
}

#[test]
fn explicit_failure_means_stop_with_error() {
    let out = normalize(DataGenReturn::Fallible(Err(String::from("boom"))));
    assert_eq!(out, Outcome::Stop(Some(String::from("boom"))));
}

#[test]
fn presence_means_continue() {
    assert_eq!(normalize(DataGenReturn::Presence(Some(()))), Outcome::Continue);
}

#[test]
fn empty_optional_means_stop_without_error() {
    assert_eq!(normalize(DataGenReturn::Presence(None)), Outcome::Stop(None));
}

#[test]
fn no_return_value_means_continue() {
    assert_eq!(normalize(DataGenReturn::Unit), Outcome::Continue);
}

#[test]
fn absent_callback_means_continue() {
    assert_eq!(normalize_optional(None), Outcome::Continue);
    assert_eq!(
        normalize_optional(Some(DataGenReturn::Presence(None))),
        Outcome::Stop(None)
    );
}

#[test]
fn call_shape_adapters_build_the_matching_variant() {
    assert_eq!(
        DataGenReturn::from_result(Ok(())),
        DataGenReturn::Fallible(Ok(()))
    );
    assert_eq!(
        DataGenReturn::from_presence(None),
        DataGenReturn::Presence(None)
    );
    assert_eq!(DataGenReturn::from_unit(), DataGenReturn::Unit);
}

#[test]
fn log_and_continue_swallows_production_failures() {
    let out = resolve_production_failure(
        FailurePolicy::LogAndContinue,
        Outcome::Stop(Some(String::from("bad frame"))),
    );
    assert_eq!(out, Outcome::Continue);
}

#[test]
fn abort_keeps_production_failures() {
    let out = resolve_production_failure(
        FailurePolicy::Abort,
        Outcome::Stop(Some(String::from("bad frame"))),
    );
    assert_eq!(out, Outcome::Stop(Some(String::from("bad frame"))));
}

#[test]
fn policies_leave_normal_stops_and_continues_alone() {
    assert_eq!(
        resolve_production_failure(FailurePolicy::LogAndContinue, Outcome::Stop(None)),
        Outcome::Stop(None)
    );
    assert_eq!(
        resolve_production_failure(FailurePolicy::Abort, Outcome::Stop(None)),
        Outcome::Stop(None)
    );
    assert_eq!(
        resolve_production_failure(FailurePolicy::LogAndContinue, Outcome::Continue),
        Outcome::Continue
    );
    assert_eq!(
        resolve_production_failure(FailurePolicy::Abort, Outcome::Continue),
        Outcome::Continue
    );
}

#[test]
fn unwrap_accepts_every_success_shape() {
    DataGenReturn::Fallible(Ok(())).unwrap();
    DataGenReturn::Presence(Some(())).unwrap();
    DataGenReturn::Unit.unwrap();
}
