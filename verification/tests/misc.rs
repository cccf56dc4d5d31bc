use atb::logging::{json_toggle, location_line, LogLevel};
use atb::activity::{
    check_return_type, check_signature, ActivityFacts, ActivityKind, ActivitySignature, GenericArg,
    ParamShape, PathArgs, PathSegment, SignatureError, TypeShape,
};
use atb::activities::{
    resolution_payload, resolution_unit, ActivityResolution, ActivityRunError, ApiFailure,
    FailureError, FailureInfo, ResolutionStatus, TimeoutType,
};
use atb::safe_data::SafeData;
use atb::websockets::{ClientFrame, EventStreamSocket, Heartbeat, SocketAction};

type Resolution = ActivityResolution<Vec<u8>, Vec<Vec<u8>>, u64>;

fn failure(message: &str, info: Option<FailureInfo<Vec<Vec<u8>>>>, cause: Option<ApiFailure<Vec<Vec<u8>>>>) -> ApiFailure<Vec<Vec<u8>>> {
    ApiFailure { message: message.to_owned(), cause: cause.map(Box::new), failure_info: info }
}

#[test]
fn failures_are_classified_by_root_cause() {
    let root = failure("timed out", Some(FailureInfo::Timeout { timeout_type: 1 }), None);
    let outer = failure("activity failed", Some(FailureInfo::Activity), Some(root));
    match FailureError::from_api(outer) {
        FailureError::Timeout { message, timeout_type } => {
            assert_eq!(message, "timed out");
            assert_eq!(timeout_type, 1);
        }
        _ => panic!("expected a timeout"),
    }
    match FailureError::from_api(failure("?", None, None)) {
        FailureError::Unknown { message } => assert_eq!(message, "?"),
        _ => panic!("expected unknown"),
    }
    match FailureError::from_api(failure("app", Some(FailureInfo::Application { non_retryable: true }), None)) {
        FailureError::Application { non_retryable, .. } => assert!(non_retryable),
        _ => panic!("expected an application failure"),
    }
}

#[test]
fn resolutions() {
    let ok: Resolution = ActivityResolution { status: Some(ResolutionStatus::Completed { result: Some(vec![1]) }) };
    assert_eq!(resolution_payload(ok).ok(), Some(Some(vec![1])));
    let missing: Resolution = ActivityResolution { status: None };
    assert!(matches!(resolution_payload(missing), Err(ActivityRunError::MissingStatus)));
    let failed: Resolution = ActivityResolution { status: Some(ResolutionStatus::Failed { failure: None }) };
    assert!(matches!(
        resolution_payload(failed),
        Err(ActivityRunError::Malformed("Failure.status=Failed but missing Failure message"))
    ));
    let cancelled: Resolution = ActivityResolution {
        status: Some(ResolutionStatus::Cancelled {
            failure: Some(failure("stop", Some(FailureInfo::Canceled { details: Some(vec![vec![9]]) }), None)),
        }),
    };
    let err = resolution_payload(cancelled).unwrap_err();
    let (message, details) = err.cancellation_details().unwrap();
    assert_eq!(message, "stop");
    assert_eq!(details, &Some(vec![vec![9]]));
    assert!(err.timeout_info().is_none());
    let backoff: Resolution = ActivityResolution { status: Some(ResolutionStatus::Backoff { attempt: 3, backoff_duration: Some(10) }) };
    assert!(matches!(resolution_payload(backoff), Err(ActivityRunError::Backoff { attempt: 3, backoff_duration: Some(10) })));
    let empty: Resolution = ActivityResolution { status: Some(ResolutionStatus::Completed { result: None }) };
    assert!(resolution_unit(empty).is_ok());
}

#[test]
fn timeout_info_names_the_kind() {
    let timeout: Resolution = ActivityResolution {
        status: Some(ResolutionStatus::Failed {
            failure: Some(failure("late", Some(FailureInfo::Timeout { timeout_type: 4 }), None)),
        }),
    };
    let err = resolution_payload(timeout).unwrap_err();
    let (message, kind) = err.timeout_info().unwrap();
    assert_eq!(message, "late");
    assert_eq!(kind, TimeoutType::Heartbeat);
    assert_eq!(TimeoutType::from_raw(2), Some(TimeoutType::ScheduleToStart));
    assert_eq!(TimeoutType::from_raw(9), None);
}

#[test]
fn activity_kinds() {
    assert_eq!(ActivityKind::Remote.options_ty(), "temporalio_sdk::ActivityOptions");
    assert_eq!(ActivityKind::Local.options_ty(), "temporalio_sdk::LocalActivityOptions");
    assert_eq!(ActivityKind::Remote.ctx_method(), "activity");
    assert_eq!(ActivityKind::Local.ctx_method(), "local_activity");
}

#[test]
fn safe_data_wraps_a_value() {
    let d = SafeData::new(vec![1, 2]);
    assert_eq!(d.get(), &vec![1, 2]);
    let c = d.clone();
    assert_eq!(c.into_inner(), vec![1, 2]);
}

#[test]
fn heartbeat_keeps_and_drops_clients() {
    let mut socket = EventStreamSocket::new(1_000, 5_000, 30_000);
    assert_eq!(socket.hb_interval(), 5_000);
    assert_eq!(socket.hb(31_000), Heartbeat::Ping);
    assert_eq!(socket.hb(31_001), Heartbeat::Stop);
    assert_eq!(socket.hb(500), Heartbeat::Ping);
    assert!(matches!(socket.on_client_frame(ClientFrame::Pong, 31_000), SocketAction::Keep));
    assert_eq!(socket.hb(61_000), Heartbeat::Ping);
    assert!(matches!(socket.on_client_frame(ClientFrame::Other, 61_000), SocketAction::Stop));
    assert!(matches!(socket.on_event::<()>(Ok(vec![1, 2])), SocketAction::Send(b) if b == vec![1, 2]));
    assert!(matches!(socket.on_event(Err("gone")), SocketAction::Stop));
}

#[test]
fn failure_messages() {
    let e: FailureError<Vec<Vec<u8>>> = FailureError::from_api(failure("boom", Some(FailureInfo::Server), None));
    assert_eq!(e.message(), "server failure: boom");
    let e: FailureError<Vec<Vec<u8>>> = FailureError::Unknown { message: "x".to_owned() };
    assert_eq!(e.message(), "unknown failure kind: x");
}

fn path(ident: &str, args: PathArgs) -> TypeShape {
    TypeShape::Path { last: Some(PathSegment { ident: ident.to_owned(), args }) }
}

fn angle(args: Vec<GenericArg>) -> PathArgs {
    PathArgs::AngleBracketed(args)
}

/// `Result<ActExitValue<inner>, anyhow::Error>`
fn result_of(inner: TypeShape) -> TypeShape {
    path(
        "Result",
        angle(vec![
            GenericArg::Type(path("ActExitValue", angle(vec![GenericArg::Type(inner)])))
            , GenericArg::Type(path("Error", PathArgs::Bare)),
        ]),
    )
}

fn sig(is_async: bool, params: Vec<ParamShape>, return_type: Option<TypeShape>) -> ActivitySignature {
    ActivitySignature { is_async, params, return_type }
}

#[test]
fn activity_signatures_are_accepted() {
    let ctx = ParamShape::Typed { ident_pattern: true };
    let req = ParamShape::Typed { ident_pattern: false };
    assert_eq!(
        check_signature(&sig(true, vec![ctx], Some(result_of(TypeShape::Unit)))),
        Ok(ActivityFacts { takes_request: false, returns_unit: true })
    );
    assert_eq!(
        check_signature(&sig(true, vec![ctx, req], Some(result_of(path("String", PathArgs::Bare))))),
        Ok(ActivityFacts { takes_request: true, returns_unit: false })
    );
}

#[test]
fn activity_signatures_are_refused_in_order() {
    let ctx = ParamShape::Typed { ident_pattern: true };
    let pattern = ParamShape::Typed { ident_pattern: false };
    let recv = ParamShape::SelfReceiver;
    let ok = || Some(result_of(TypeShape::Unit));
    assert_eq!(check_signature(&sig(false, vec![], None)), Err(SignatureError::NotAsync));
    assert_eq!(check_signature(&sig(true, vec![], ok())), Err(SignatureError::MissingContext));
    assert_eq!(check_signature(&sig(true, vec![recv, ctx], ok())), Err(SignatureError::SelfReceiver));
    assert_eq!(check_signature(&sig(true, vec![pattern], ok())), Err(SignatureError::ContextNotIdentifier));
    assert_eq!(check_signature(&sig(true, vec![ctx, recv, ctx], ok())), Err(SignatureError::SelfReceiver));
    assert_eq!(check_signature(&sig(true, vec![ctx, ctx, ctx], ok())), Err(SignatureError::TooManyParams));
    assert_eq!(check_signature(&sig(true, vec![ctx], None)), Err(SignatureError::MissingReturnType));
    assert_eq!(
        check_signature(&sig(true, vec![ctx], Some(TypeShape::Other))),
        Err(SignatureError::NotResultLike)
    );
    assert_eq!(SignatureError::TooManyParams.message(), "#[activity] supports at most two parameters: (ctx) or (ctx, request)");
    assert_eq!(SignatureError::NotAsync.message(), "#[activity] functions must be async");
}

#[test]
fn activity_return_types_must_be_result_of_act_exit_value() {
    let unit_exit = || GenericArg::Type(path("ActExitValue", angle(vec![GenericArg::Type(TypeShape::Unit)])));
    assert_eq!(check_return_type(&TypeShape::Unit), Err(SignatureError::NotResultLike));
    assert_eq!(check_return_type(&TypeShape::Path { last: None }), Err(SignatureError::NotResultLike));
    assert_eq!(check_return_type(&path("Result", PathArgs::Bare)), Err(SignatureError::ResultLikeWithoutArgs));
    assert_eq!(check_return_type(&path("Result", PathArgs::Parenthesized)), Err(SignatureError::ResultLikeWithoutArgs));
    assert_eq!(check_return_type(&path("Result", angle(vec![]))), Err(SignatureError::MissingOkType));
    assert_eq!(check_return_type(&path("Result", angle(vec![GenericArg::Other]))), Err(SignatureError::OkNotAType));
    assert_eq!(
        check_return_type(&path("Result", angle(vec![unit_exit(), GenericArg::Other]))),
        Err(SignatureError::ErrNotAType)
    );
    assert_eq!(
        check_return_type(&path("ActivityResult", angle(vec![GenericArg::Type(path("String", PathArgs::Bare))]))),
        Err(SignatureError::NotActExitValue)
    );
    assert_eq!(
        check_return_type(&path("Result", angle(vec![GenericArg::Type(path("ActExitValue", PathArgs::Bare))]))),
        Err(SignatureError::ActExitValueWithoutInner)
    );
    assert_eq!(
        check_return_type(&path("Result", angle(vec![GenericArg::Type(path("ActExitValue", angle(vec![])))]))),
        Err(SignatureError::ActExitValueWithoutInner)
    );
    assert_eq!(
        check_return_type(&path("Result", angle(vec![GenericArg::Type(path("ActExitValue", angle(vec![GenericArg::Other])))]))),
        Err(SignatureError::ActExitValueInnerNotAType)
    );
    assert_eq!(check_return_type(&path("ActivityResult", angle(vec![unit_exit()]))), Ok(true));
    assert_eq!(
        SignatureError::NotActExitValue.message(),
        "#[activity2] requires Result<ActExitValue<_>, _> return type"
    );
}

#[test]
fn json_log_toggle_takes_one_or_true_in_any_case() {
    assert!(json_toggle("1"));
    assert!(json_toggle("true"));
    assert!(json_toggle("TRUE"));
    assert!(json_toggle("TrUe"));
    assert!(!json_toggle("0"));
    assert!(!json_toggle(""));
    assert!(!json_toggle("true "));
    assert!(!json_toggle("yes"));
    assert!(!json_toggle("11"));
}

#[test]
fn log_levels_and_locations_are_laid_out() {
    assert_eq!(LogLevel::Error.tag(), "ERR");
    assert_eq!(LogLevel::Warn.tag(), "WRN");
    assert_eq!(LogLevel::Trace.tag(), "TRC");
    assert_eq!(location_line(Some("app::db"), Some("src/db.rs"), Some(42)), "  app::db|src/db.rs:42");
    assert_eq!(location_line(None, None, None), "  UNKNOWN_MODULE|UNKNOWN_FILE:0");
}
