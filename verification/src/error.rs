//! Errors surfaced by the API client, by request validation, and by a failed
//! saga run.

use vstd::prelude::*;
use crate::effects::SagaEffectLog;

verus! {

/// A failure of a call against the registration service.
///
/// A response with a non-200 status is `Unexpected`; a 200 response whose
/// service-level code is non-zero is `ServiceRefused`; a 200 response whose
/// body could not be read is `MalformedResponse`. A credential rejected twice
/// in a row on one logical call is `AuthenticationFailed`, and a request that
/// could not be sent at all is `Transport`.
#[derive(Debug)]
pub enum ApiError {
    Transport { detail: String },
    Unexpected { status: u16, body: String },
    ServiceRefused { code: i32 },
    MalformedResponse,
    AuthenticationFailed,
}

/// Which part of a project request was rejected by validation.
#[derive(PartialEq, Eq, Structural, Clone, Copy, Debug)]
pub enum ValidationIssue {
    InvalidName,
    EmptyDescription,
}

/// The forward steps of the saga, used to name the step a failure occurred
/// in.
#[derive(PartialEq, Eq, Structural, Clone, Copy, Debug)]
pub enum SagaStep {
    ValidateRequest,
    InspectDirectory,
    CreateDirectory,
    ConfirmCleanup,
    CleanDirectory,
    FetchTemplates,
    ChooseTemplate,
    CloneTemplate,
    RemoveTemplateRemote,
    CreateRemoteProject,
    RewireRemote,
    PushMaster,
    CreateDevBranch,
    PushDev,
    RegisterProject,
}

/// Why a saga run failed. A rejected
/// request is `Validation`; a decline or abort at a prompt is
/// `UserCancelled`; an empty catalog is `NoTemplatesAvailable`; a failure of
/// the version-control tool is `Vcc`; a failure of the registration service
/// is `Api` (a credential rejected twice arrives as
/// `Api { error: ApiError::AuthenticationFailed }`).
#[derive(Debug)]
pub enum FailureCause {
    Validation { issue: ValidationIssue },
    UserCancelled,
    NoTemplatesAvailable,
    Vcc { detail: String },
    Api { error: ApiError },
}

/// A failed saga run: the step that failed, why, and the effects that had
/// been committed when it did — exactly what compensation may act on.
#[derive(Debug)]
pub struct ScaffoldError {
    pub step: SagaStep,
    pub cause: FailureCause,
    pub effects: SagaEffectLog,
}

} // verus!
