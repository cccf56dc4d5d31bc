//! The two kinds of workflow activities, the names the activity code generator writes
//! for each, and the checks it makes of an activity function's signature.
use vstd::prelude::*;

use crate::text::str_eq;

verus! {

/// Whether an activity runs on a remote worker or locally in the workflow's worker.
#[derive(Clone, Copy, Debug, PartialEq, Eq, Structural)]
pub enum ActivityKind {
    Remote,
    Local,
}

impl ActivityKind {
    /// The path of the options type that schedules this kind of activity.
    pub fn options_ty(&self) -> (res: &'static str)
        ensures
            res@ == (match *self {
                ActivityKind::Remote => "temporalio_sdk::ActivityOptions"@,
                ActivityKind::Local => "temporalio_sdk::LocalActivityOptions"@,
            }),
    {
        match self {
            ActivityKind::Remote => "temporalio_sdk::ActivityOptions",
            ActivityKind::Local => "temporalio_sdk::LocalActivityOptions",
        }
    }

    /// The name of the workflow-context method that schedules this kind of activity.
    pub fn ctx_method(&self) -> (res: &'static str)
        ensures
            res@ == (match *self {
                ActivityKind::Remote => "activity"@,
                ActivityKind::Local => "local_activity"@,
            }),
    {
        match self {
            ActivityKind::Remote => "activity",
            ActivityKind::Local => "local_activity",
        }
    }
}

/// A parameter of an activity function, as the code generator sees it.
#[derive(Clone, Copy, Debug, PartialEq, Eq, Structural)]
pub enum ParamShape {
    /// `self`, `&self` or `&mut self`.
    SelfReceiver,
    /// A typed parameter; `ident_pattern` tells whether it binds a plain name.
    Typed { ident_pattern: bool },
}

/// A type as the code generator reads it: the unit type, a path type with the last
/// segment of its path (`None` for a path without segments), or another type.
#[derive(Debug)]
pub enum TypeShape {
    Unit,
    Path { last: Option<PathSegment> },
    Other,
}

/// The last segment of a type's path: its identifier and its arguments.
#[derive(Debug)]
pub struct PathSegment {
    pub ident: String,
    pub args: PathArgs,
}

/// The arguments of a path segment.
#[derive(Debug)]
pub enum PathArgs {
    /// No arguments.
    Bare,
    /// `(A, B) -> C`, as in `Fn` bounds.
    Parenthesized,
    /// `<A, B>`.
    AngleBracketed(Vec<GenericArg>),
}

/// An angle-bracketed argument: a type, or something else (a lifetime, a constant, an
/// associated-type binding or a constraint).
#[derive(Debug)]
pub enum GenericArg {
    Type(TypeShape),
    Other,
}

/// What the code generator reads of an activity function's signature.
#[derive(Debug)]
pub struct ActivitySignature {
    pub is_async: bool,
    pub params: Vec<ParamShape>,
    /// The declared return type, if any.
    pub return_type: Option<TypeShape>,
}

/// What the code generator writes an accepted activity for: whether it takes a request,
/// and whether the value it exits with is `()`.
#[derive(Clone, Copy, Debug, PartialEq, Eq, Structural)]
pub struct ActivityFacts {
    pub takes_request: bool,
    pub returns_unit: bool,
}

/// Why a function cannot be an activity.
#[derive(Clone, Copy, Debug, PartialEq, Eq, Structural)]
pub enum SignatureError {
    NotAsync,
    MissingContext,
    SelfReceiver,
    ContextNotIdentifier,
    TooManyParams,
    MissingReturnType,
    /// The return type is not a path type with a last segment.
    NotResultLike,
    /// The return type's last segment has no angle-bracketed arguments.
    ResultLikeWithoutArgs,
    /// The return type has no argument for its `Ok` type.
    MissingOkType,
    OkNotAType,
    ErrNotAType,
    /// The `Ok` type is not `ActExitValue<_>`.
    NotActExitValue,
    ActExitValueWithoutInner,
    ActExitValueInnerNotAType,
}

impl SignatureError {
    /// The message the code generator reports.
    pub fn message(&self) -> (res: &'static str)
        ensures
            res@ == (match *self {
                SignatureError::NotAsync => "#[activity] functions must be async"@,
                SignatureError::MissingContext => "#[activity] requires a context parameter"@,
                SignatureError::SelfReceiver => "#[activity] does not support methods with self receivers"@,
                SignatureError::ContextNotIdentifier => "#[activity] context parameter must be an identifier"@,
                SignatureError::TooManyParams => "#[activity] supports at most two parameters: (ctx) or (ctx, request)"@,
                SignatureError::MissingReturnType => "#[activity] functions must return a Result-like type (e.g. Result<T, E> or ActivityResult<T>)"@,
                SignatureError::NotResultLike => "expected Result-like return type (e.g. Result<T, E> or ActivityResult<T>)"@,
                SignatureError::ResultLikeWithoutArgs => "expected Result-like return type with generic arguments (e.g. Result<T, E> or ActivityResult<T>)"@,
                SignatureError::MissingOkType => "Result-like type requires an Ok type (e.g. Result<T, E> or ActivityResult<T>)"@,
                SignatureError::OkNotAType => "expected type for Ok variant of Result-like return type"@,
                SignatureError::ErrNotAType => "expected type for Err variant of Result-like return type"@,
                SignatureError::NotActExitValue => "#[activity2] requires Result<ActExitValue<_>, _> return type"@,
                SignatureError::ActExitValueWithoutInner => "ActExitValue must specify an inner type"@,
                SignatureError::ActExitValueInnerNotAType => "ActExitValue inner generic must be a type"@,
            }),
    {
        match self {
            SignatureError::NotAsync => "#[activity] functions must be async",
            SignatureError::MissingContext => "#[activity] requires a context parameter",
            SignatureError::SelfReceiver => "#[activity] does not support methods with self receivers",
            SignatureError::ContextNotIdentifier => "#[activity] context parameter must be an identifier",
            SignatureError::TooManyParams => "#[activity] supports at most two parameters: (ctx) or (ctx, request)",
            SignatureError::MissingReturnType => "#[activity] functions must return a Result-like type (e.g. Result<T, E> or ActivityResult<T>)",
            SignatureError::NotResultLike => "expected Result-like return type (e.g. Result<T, E> or ActivityResult<T>)",
            SignatureError::ResultLikeWithoutArgs => "expected Result-like return type with generic arguments (e.g. Result<T, E> or ActivityResult<T>)",
            SignatureError::MissingOkType => "Result-like type requires an Ok type (e.g. Result<T, E> or ActivityResult<T>)",
            SignatureError::OkNotAType => "expected type for Ok variant of Result-like return type",
            SignatureError::ErrNotAType => "expected type for Err variant of Result-like return type",
            SignatureError::NotActExitValue => "#[activity2] requires Result<ActExitValue<_>, _> return type",
            SignatureError::ActExitValueWithoutInner => "ActExitValue must specify an inner type",
            SignatureError::ActExitValueInnerNotAType => "ActExitValue inner generic must be a type",
        }
    }
}

/// The verdict on the `Ok` type of an activity's return type: it must be
/// `ActExitValue<T>` (by the last segment of its path) with a type `T`; `Ok` tells
/// whether `T` is `()`.
pub open spec fn exit_value_verdict(ok: TypeShape) -> Result<bool, SignatureError> {
    match ok {
        TypeShape::Path { last: Some(seg) } => if seg.ident@ == "ActExitValue"@ {
            match seg.args {
                PathArgs::AngleBracketed(args) => if args@.len() == 0 {
                    Err(SignatureError::ActExitValueWithoutInner)
                } else {
                    match args@[0] {
                        GenericArg::Type(inner) => Ok(inner is Unit),
                        GenericArg::Other => Err(SignatureError::ActExitValueInnerNotAType),
                    }
                },
                _ => Err(SignatureError::ActExitValueWithoutInner),
            }
        } else {
            Err(SignatureError::NotActExitValue)
        },
        _ => Err(SignatureError::NotActExitValue),
    }
}

/// The verdict on an activity's return type: it must be a Result-like path type whose
/// last segment has angle-bracketed arguments, the first a type (the `Ok` type) and the
/// second, if any, a type too; then the `Ok` type is judged. `Ok` tells whether the
/// activity exits with `()`.
pub open spec fn return_verdict(ty: TypeShape) -> Result<bool, SignatureError> {
    match ty {
        TypeShape::Path { last: Some(seg) } => match seg.args {
            PathArgs::AngleBracketed(args) => if args@.len() == 0 {
                Err(SignatureError::MissingOkType)
            } else {
                match args@[0] {
                    GenericArg::Type(ok) => if args@.len() >= 2 && args@[1] is Other {
                        Err(SignatureError::ErrNotAType)
                    } else {
                        exit_value_verdict(ok)
                    },
                    GenericArg::Other => Err(SignatureError::OkNotAType),
                }
            },
            _ => Err(SignatureError::ResultLikeWithoutArgs),
        },
        _ => Err(SignatureError::NotResultLike),
    }
}

/// The verdict on an activity signature, in the order the checks are made: it must be
/// async; its first parameter, the context, must exist, be typed and bind a name; a
/// second parameter, the request, must be typed; there is no third; and it must declare
/// a return type that `return_verdict` accepts.
pub open spec fn activity_verdict(sig: ActivitySignature) -> Result<ActivityFacts, SignatureError> {
    let params = sig.params@;
    if !sig.is_async {
        Err(SignatureError::NotAsync)
    } else if params.len() == 0 {
        Err(SignatureError::MissingContext)
    } else if params[0] is SelfReceiver {
        Err(SignatureError::SelfReceiver)
    } else if params[0] matches ParamShape::Typed { ident_pattern } && !ident_pattern {
        Err(SignatureError::ContextNotIdentifier)
    } else if params.len() >= 2 && params[1] is SelfReceiver {
        Err(SignatureError::SelfReceiver)
    } else if params.len() > 2 {
        Err(SignatureError::TooManyParams)
    } else {
        match sig.return_type {
            None => Err(SignatureError::MissingReturnType),
            Some(ty) => match return_verdict(ty) {
                Ok(unit) => Ok(ActivityFacts { takes_request: params.len() == 2, returns_unit: unit }),
                Err(e) => Err(e),
            },
        }
    }
}

/// Checks the `Ok` type of an activity's return type; `Ok` tells whether the activity
/// exits with `()`.
fn check_exit_value(ok: &TypeShape) -> (res: Result<bool, SignatureError>)
    ensures
        res == exit_value_verdict(*ok),
{
    proof {
        reveal_strlit("ActExitValue");
    }
    match ok {
        TypeShape::Path { last: Some(seg) } => {
            if !str_eq(seg.ident.as_str(), "ActExitValue") {
                return Err(SignatureError::NotActExitValue);
            }
            match &seg.args {
                PathArgs::AngleBracketed(args) => {
                    if args.len() == 0 {
                        Err(SignatureError::ActExitValueWithoutInner)
                    } else {
                        match &args[0] {
                            GenericArg::Type(inner) => Ok(matches!(inner, TypeShape::Unit)),
                            GenericArg::Other => Err(SignatureError::ActExitValueInnerNotAType),
                        }
                    }
                },
                _ => Err(SignatureError::ActExitValueWithoutInner),
            }
        },
        _ => Err(SignatureError::NotActExitValue),
    }
}

/// Checks an activity's return type; `Ok` tells whether the activity exits with `()`.
pub fn check_return_type(ty: &TypeShape) -> (res: Result<bool, SignatureError>)
    ensures
        res == return_verdict(*ty),
{
    match ty {
        TypeShape::Path { last: Some(seg) } => match &seg.args {
            PathArgs::AngleBracketed(args) => {
                if args.len() == 0 {
                    return Err(SignatureError::MissingOkType);
                }
                match &args[0] {
                    GenericArg::Type(ok) => {
                        if args.len() >= 2 {
                            if let GenericArg::Other = &args[1] {
                                return Err(SignatureError::ErrNotAType);
                            }
                        }
                        check_exit_value(ok)
                    },
                    GenericArg::Other => Err(SignatureError::OkNotAType),
                }
            },
            _ => Err(SignatureError::ResultLikeWithoutArgs),
        },
        _ => Err(SignatureError::NotResultLike),
    }
}

/// Checks an activity function's signature and says what the code generator writes
/// for it.
pub fn check_signature(sig: &ActivitySignature) -> (res: Result<ActivityFacts, SignatureError>)
    ensures
        res == activity_verdict(*sig),
{
    if !sig.is_async {
        return Err(SignatureError::NotAsync);
    }
    let n = sig.params.len();
    if n == 0 {
        return Err(SignatureError::MissingContext);
    }
    match sig.params[0] {
        ParamShape::SelfReceiver => return Err(SignatureError::SelfReceiver),
        ParamShape::Typed { ident_pattern } => {
            if !ident_pattern {
                return Err(SignatureError::ContextNotIdentifier);
            }
        },
    }
    if n >= 2 {
        if let ParamShape::SelfReceiver = sig.params[1] {
            return Err(SignatureError::SelfReceiver);
        }
    }
    if n > 2 {
        return Err(SignatureError::TooManyParams);
    }
    match &sig.return_type {
        None => Err(SignatureError::MissingReturnType),
        Some(ty) => match check_return_type(ty) {
            Ok(unit) => Ok(ActivityFacts { takes_request: n == 2, returns_unit: unit }),
            Err(e) => Err(e),
        },
    }
}

} // verus!
