//! The outcome of a workflow activity as the workflow sees it: a resolution is either a
//! payload or a typed error, and a failure is classified by its root cause. The wire
//! types are modelled with the payload, payload-list and duration types left open, so
//! the values of any workflow SDK can be carried through.
use vstd::prelude::*;

verus! {

/// What kind of failure a failure record describes.
#[derive(Debug, Clone)]
pub enum FailureInfo<Ps> {
    Application { non_retryable: bool },
    Timeout { timeout_type: i32 },
    Canceled { details: Option<Ps> },
    Terminated,
    Server,
    ResetWorkflow,
    Activity,
    ChildWorkflowExecution,
    NexusOperationExecution,
    NexusHandler,
}

/// A failure record with its message, its kind and the failure that caused it.
#[derive(Debug)]
pub struct ApiFailure<Ps> {
    pub message: String,
    pub cause: Option<Box<ApiFailure<Ps>>>,
    pub failure_info: Option<FailureInfo<Ps>>,
}

/// A failure, classified by the kind of its root cause and carrying that cause's message.
#[derive(Debug, Clone)]
pub enum FailureError<Ps> {
    Application { message: String, non_retryable: bool },
    /// `timeout_type` is the raw enum value of the timeout kind.
    Timeout { message: String, timeout_type: i32 },
    Canceled { message: String, details: Option<Ps> },
    Terminated { message: String },
    Server { message: String },
    ResetWorkflow { message: String },
    Activity { message: String },
    ChildWorkflow { message: String },
    NexusOperation { message: String },
    NexusHandler { message: String },
    Unknown { message: String },
}

/// The message a failure is reported with.
pub open spec fn failure_message<Ps>(e: FailureError<Ps>) -> Seq<char> {
    match e {
        FailureError::Application { message, .. } => "application failure: "@ + message@,
        FailureError::Timeout { message, .. } => "timeout failure: "@ + message@,
        FailureError::Canceled { message, .. } => "canceled: "@ + message@,
        FailureError::Terminated { message } => "terminated: "@ + message@,
        FailureError::Server { message } => "server failure: "@ + message@,
        FailureError::ResetWorkflow { message } => "reset workflow failure: "@ + message@,
        FailureError::Activity { message } => "activity failure: "@ + message@,
        FailureError::ChildWorkflow { message } => "child workflow failure: "@ + message@,
        FailureError::NexusOperation { message } => "nexus operation failure: "@ + message@,
        FailureError::NexusHandler { message } => "nexus handler failure: "@ + message@,
        FailureError::Unknown { message } => "unknown failure kind: "@ + message@,
    }
}

impl<Ps> FailureError<Ps> {
    /// The message the failure is reported with.
    pub fn message(&self) -> (res: String)
        ensures
            res@ == failure_message(*self),
    {
        let (prefix, message) = match self {
            FailureError::Application { message, .. } => ("application failure: ", message),
            FailureError::Timeout { message, .. } => ("timeout failure: ", message),
            FailureError::Canceled { message, .. } => ("canceled: ", message),
            FailureError::Terminated { message } => ("terminated: ", message),
            FailureError::Server { message } => ("server failure: ", message),
            FailureError::ResetWorkflow { message } => ("reset workflow failure: ", message),
            FailureError::Activity { message } => ("activity failure: ", message),
            FailureError::ChildWorkflow { message } => ("child workflow failure: ", message),
            FailureError::NexusOperation { message } => ("nexus operation failure: ", message),
            FailureError::NexusHandler { message } => ("nexus handler failure: ", message),
            FailureError::Unknown { message } => ("unknown failure kind: ", message),
        };
        prefix.to_owned().concat(message.as_str())
    }
}

/// The innermost cause of a failure: follow the causes until one has none.
pub open spec fn root_cause<Ps>(f: ApiFailure<Ps>) -> ApiFailure<Ps>
    decreases f,
{
    match f.cause {
        Some(c) => root_cause(*c),
        None => f,
    }
}

/// The root cause of a failure is the end of its cause chain: it has no cause itself, a
/// failure without a cause is its own root cause, and a failure with a cause has the
/// root cause of that cause, however deep the chain goes.
pub proof fn law_root_cause_ends_chain<Ps>(f: ApiFailure<Ps>)
    ensures
        root_cause(f).cause is None,
        f.cause is None ==> root_cause(f) == f,
        f.cause matches Some(c) ==> root_cause(f) == root_cause(*c),
    decreases f,
{
    if let Some(c) = f.cause {
        law_root_cause_ends_chain(*c);
    }
}

/// The error a failure whose root cause is `leaf` stands for.
pub open spec fn classify<Ps>(leaf: ApiFailure<Ps>) -> FailureError<Ps> {
    let message = leaf.message;
    match leaf.failure_info {
        Some(FailureInfo::Application { non_retryable }) => FailureError::Application {
            message,
            non_retryable,
        },
        Some(FailureInfo::Timeout { timeout_type }) => FailureError::Timeout { message, timeout_type },
        Some(FailureInfo::Canceled { details }) => FailureError::Canceled { message, details },
        Some(FailureInfo::Terminated) => FailureError::Terminated { message },
        Some(FailureInfo::Server) => FailureError::Server { message },
        Some(FailureInfo::ResetWorkflow) => FailureError::ResetWorkflow { message },
        Some(FailureInfo::Activity) => FailureError::Activity { message },
        Some(FailureInfo::ChildWorkflowExecution) => FailureError::ChildWorkflow { message },
        Some(FailureInfo::NexusOperationExecution) => FailureError::NexusOperation { message },
        Some(FailureInfo::NexusHandler) => FailureError::NexusHandler { message },
        None => FailureError::Unknown { message },
    }
}

fn take_root_cause<Ps>(f: ApiFailure<Ps>) -> (res: ApiFailure<Ps>)
    ensures
        res == root_cause(f),
    decreases f,
{
    match f.cause {
        Some(c) => take_root_cause(*c),
        None => ApiFailure { message: f.message, cause: None, failure_info: f.failure_info },
    }
}

impl<Ps> FailureError<Ps> {
    /// Classifies a failure by its root cause.
    pub fn from_api(f: ApiFailure<Ps>) -> (res: Self)
        ensures
            res == classify(root_cause(f)),
    {
        let leaf = take_root_cause(f);
        let message = leaf.message;
        match leaf.failure_info {
            Some(FailureInfo::Application { non_retryable }) => FailureError::Application {
                message,
                non_retryable,
            },
            Some(FailureInfo::Timeout { timeout_type }) => FailureError::Timeout {
                message,
                timeout_type,
            },
            Some(FailureInfo::Canceled { details }) => FailureError::Canceled { message, details },
            Some(FailureInfo::Terminated) => FailureError::Terminated { message },
            Some(FailureInfo::Server) => FailureError::Server { message },
            Some(FailureInfo::ResetWorkflow) => FailureError::ResetWorkflow { message },
            Some(FailureInfo::Activity) => FailureError::Activity { message },
            Some(FailureInfo::ChildWorkflowExecution) => FailureError::ChildWorkflow { message },
            Some(FailureInfo::NexusOperationExecution) => FailureError::NexusOperation { message },
            Some(FailureInfo::NexusHandler) => FailureError::NexusHandler { message },
            None => FailureError::Unknown { message },
        }
    }
}

/// The status an activity resolved with; `Pl` is a payload, `Ps` a list of payloads
/// and `D` a duration.
#[derive(Debug)]
pub enum ResolutionStatus<Pl, Ps, D> {
    Completed { result: Option<Pl> },
    Failed { failure: Option<ApiFailure<Ps>> },
    Cancelled { failure: Option<ApiFailure<Ps>> },
    Backoff { attempt: u32, backoff_duration: Option<D> },
}

/// How an activity resolved.
#[derive(Debug)]
pub struct ActivityResolution<Pl, Ps, D> {
    pub status: Option<ResolutionStatus<Pl, Ps, D>>,
}

/// Why an activity gave no value.
#[derive(Debug, Clone)]
pub enum ActivityRunError<Ps, D> {
    MissingStatus,
    MissingPayload,
    Failure(FailureError<Ps>),
    Backoff { attempt: u32, backoff_duration: Option<D> },
    Malformed(&'static str),
}

/// The payload an activity resolution carries, or its error: a completed activity
/// gives its result, a failed or cancelled one the failure classified by its root
/// cause, and one asking for backoff its attempt and delay.
pub fn resolution_payload<Pl, Ps, D>(res: ActivityResolution<Pl, Ps, D>) -> (r: Result<
    Option<Pl>,
    ActivityRunError<Ps, D>,
>)
    ensures
        match res.status {
            None => r == Err::<Option<Pl>, ActivityRunError<Ps, D>>(ActivityRunError::MissingStatus),
            Some(ResolutionStatus::Completed { result }) => r == Ok::<
                Option<Pl>,
                ActivityRunError<Ps, D>,
            >(result),
            Some(ResolutionStatus::Failed { failure }) => match failure {
                None => r == Err::<Option<Pl>, ActivityRunError<Ps, D>>(
                    ActivityRunError::Malformed("Failure.status=Failed but missing Failure message"),
                ),
                Some(f) => r == Err::<Option<Pl>, ActivityRunError<Ps, D>>(
                    ActivityRunError::Failure(classify(root_cause(f))),
                ),
            },
            Some(ResolutionStatus::Cancelled { failure }) => match failure {
                None => r == Err::<Option<Pl>, ActivityRunError<Ps, D>>(
                    ActivityRunError::Malformed(
                        "Failure.status=Cancelled but missing Failure message",
                    ),
                ),
                Some(f) => r == Err::<Option<Pl>, ActivityRunError<Ps, D>>(
                    ActivityRunError::Failure(classify(root_cause(f))),
                ),
            },
            Some(ResolutionStatus::Backoff { attempt, backoff_duration }) => r == Err::<
                Option<Pl>,
                ActivityRunError<Ps, D>,
            >(ActivityRunError::Backoff { attempt, backoff_duration }),
        },
{
    let status = match res.status {
        Some(s) => s,
        None => return Err(ActivityRunError::MissingStatus),
    };
    match status {
        ResolutionStatus::Completed { result } => Ok(result),
        ResolutionStatus::Failed { failure } => match failure {
            Some(f) => Err(ActivityRunError::Failure(FailureError::from_api(f))),
            None => Err(
                ActivityRunError::Malformed("Failure.status=Failed but missing Failure message"),
            ),
        },
        ResolutionStatus::Cancelled { failure } => match failure {
            Some(f) => Err(ActivityRunError::Failure(FailureError::from_api(f))),
            None => Err(
                ActivityRunError::Malformed("Failure.status=Cancelled but missing Failure message"),
            ),
        },
        ResolutionStatus::Backoff { attempt, backoff_duration } => Err(
            ActivityRunError::Backoff { attempt, backoff_duration },
        ),
    }
}

/// For activities that return nothing: success whenever the activity completed, with or
/// without a payload.
pub fn resolution_unit<Pl, Ps, D>(res: ActivityResolution<Pl, Ps, D>) -> (r: Result<
    (),
    ActivityRunError<Ps, D>,
>)
    ensures
        (r is Ok) <==> (res.status matches Some(ResolutionStatus::Completed { .. })),
        r matches Err(e) ==> resolution_payload_error(res) == Some(e),
{
    match resolution_payload(res) {
        Ok(_) => Ok(()),
        Err(e) => Err(e),
    }
}

/// The error `resolution_payload` gives for `res`, if any.
pub open spec fn resolution_payload_error<Pl, Ps, D>(res: ActivityResolution<Pl, Ps, D>) -> Option<
    ActivityRunError<Ps, D>,
> {
    match res.status {
        None => Some(ActivityRunError::MissingStatus),
        Some(ResolutionStatus::Completed { .. }) => None,
        Some(ResolutionStatus::Failed { failure }) => match failure {
            None => Some(
                ActivityRunError::Malformed("Failure.status=Failed but missing Failure message"),
            ),
            Some(f) => Some(ActivityRunError::Failure(classify(root_cause(f)))),
        },
        Some(ResolutionStatus::Cancelled { failure }) => match failure {
            None => Some(
                ActivityRunError::Malformed("Failure.status=Cancelled but missing Failure message"),
            ),
            Some(f) => Some(ActivityRunError::Failure(classify(root_cause(f)))),
        },
        Some(ResolutionStatus::Backoff { attempt, backoff_duration }) => Some(
            ActivityRunError::Backoff { attempt, backoff_duration },
        ),
    }
}

/// The kinds of activity timeout.
#[derive(Clone, Copy, Debug, PartialEq, Eq, Structural)]
pub enum TimeoutType {
    Unspecified,
    StartToClose,
    ScheduleToStart,
    ScheduleToClose,
    Heartbeat,
}

/// The timeout kind a raw enum value stands for.
pub open spec fn timeout_type_of(raw: i32) -> Option<TimeoutType> {
    if raw == 0 {
        Some(TimeoutType::Unspecified)
    } else if raw == 1 {
        Some(TimeoutType::StartToClose)
    } else if raw == 2 {
        Some(TimeoutType::ScheduleToStart)
    } else if raw == 3 {
        Some(TimeoutType::ScheduleToClose)
    } else if raw == 4 {
        Some(TimeoutType::Heartbeat)
    } else {
        None
    }
}

impl TimeoutType {
    /// The timeout kind of a raw enum value, when it names one.
    pub fn from_raw(raw: i32) -> (res: Option<TimeoutType>)
        ensures
            res == timeout_type_of(raw),
    {
        if raw == 0 {
            Some(TimeoutType::Unspecified)
        } else if raw == 1 {
            Some(TimeoutType::StartToClose)
        } else if raw == 2 {
            Some(TimeoutType::ScheduleToStart)
        } else if raw == 3 {
            Some(TimeoutType::ScheduleToClose)
        } else if raw == 4 {
            Some(TimeoutType::Heartbeat)
        } else {
            None
        }
    }
}

impl<Ps, D> ActivityRunError<Ps, D> {
    /// For a timeout failure: its message and timeout kind.
    pub fn timeout_info(&self) -> (res: Option<(&String, TimeoutType)>)
        requires
            self matches ActivityRunError::Failure(FailureError::Timeout { timeout_type, .. })
                ==> timeout_type_of(*timeout_type) is Some,
        ensures
            match self {
                ActivityRunError::Failure(FailureError::Timeout { message, timeout_type }) => res
                    == Some((message, timeout_type_of(*timeout_type)->0)),
                _ => res is None,
            },
    {
        match self {
            ActivityRunError::Failure(FailureError::Timeout { timeout_type, message }) => {
                match TimeoutType::from_raw(*timeout_type) {
                    Some(t) => Some((message, t)),
                    None => None,
                }
            },
            _ => None,
        }
    }

    /// For a cancellation: its message and details.
    pub fn cancellation_details(&self) -> (res: Option<(&String, &Option<Ps>)>)
        ensures
            match self {
                ActivityRunError::Failure(FailureError::Canceled { message, details }) => res
                    == Some((message, details)),
                _ => res is None,
            },
    {
        match self {
            ActivityRunError::Failure(FailureError::Canceled { details, message }) => Some(
                (message, details),
            ),
            _ => None,
        }
    }
}

} // verus!
