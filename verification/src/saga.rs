//! The scaffolding saga: a strict forward pipeline of side-effecting steps
//! with a log-then-act discipline.
//!
//! The saga itself performs no outside work. It is a state machine driven by
//! the surrounding application: each `step` consumes the outcome of the
//! previous action and returns the next action to perform. Immediately after
//! an effectful step succeeds, its entry is appended to the effect log; a
//! failure at any step completes the run with an error that names the failed
//! step and carries exactly the effects committed so far. The saga performs
//! no compensation — that is the caller's decision, made from the returned
//! effect log (see `crate::effects::compensation_plan`).

use vstd::prelude::*;
use crate::catalog::{labels_match, template_labels};
use crate::effects::{first_remote_id, mentions_directory_created, Effect, EffectView,
    SagaEffectLog};
use crate::error::{FailureCause, SagaStep, ScaffoldError, ValidationIssue};
use crate::model::{clone_opt_string, clone_string_vec, ProjectRequest, RemoteProject,
    TemplateDescriptor};
use crate::validate::{validate_description, validate_project_name};

verus! {

/// Where the saga stands: which step's outcome it is waiting for.
#[derive(PartialEq, Eq, Structural, Clone, Copy, Debug)]
pub enum SagaPhase {
    AwaitingDirectoryStatus,
    AwaitingDirectoryCreation,
    AwaitingCleanupDecision,
    AwaitingCleanup,
    AwaitingTemplates,
    AwaitingTemplateChoice,
    AwaitingClone,
    AwaitingTemplateRemoteRemoval,
    AwaitingRemoteCreation,
    AwaitingRemoteRewire,
    AwaitingMasterPush,
    AwaitingDevBranch,
    AwaitingDevPush,
    AwaitingRegistration,
    Completed,
}

/// The step a failure in the given phase is attributed to.
pub open spec fn step_of(phase: SagaPhase) -> SagaStep {
    match phase {
        SagaPhase::AwaitingDirectoryStatus => SagaStep::InspectDirectory,
        SagaPhase::AwaitingDirectoryCreation => SagaStep::CreateDirectory,
        SagaPhase::AwaitingCleanupDecision => SagaStep::ConfirmCleanup,
        SagaPhase::AwaitingCleanup => SagaStep::CleanDirectory,
        SagaPhase::AwaitingTemplates => SagaStep::FetchTemplates,
        SagaPhase::AwaitingTemplateChoice => SagaStep::ChooseTemplate,
        SagaPhase::AwaitingClone => SagaStep::CloneTemplate,
        SagaPhase::AwaitingTemplateRemoteRemoval => SagaStep::RemoveTemplateRemote,
        SagaPhase::AwaitingRemoteCreation => SagaStep::CreateRemoteProject,
        SagaPhase::AwaitingRemoteRewire => SagaStep::RewireRemote,
        SagaPhase::AwaitingMasterPush => SagaStep::PushMaster,
        SagaPhase::AwaitingDevBranch => SagaStep::CreateDevBranch,
        SagaPhase::AwaitingDevPush => SagaStep::PushDev,
        SagaPhase::AwaitingRegistration => SagaStep::RegisterProject,
        SagaPhase::Completed => SagaStep::ValidateRequest,
    }
}

fn current_step(phase: SagaPhase) -> (s: SagaStep)
    ensures
        s == step_of(phase),
{
    match phase {
        SagaPhase::AwaitingDirectoryStatus => SagaStep::InspectDirectory,
        SagaPhase::AwaitingDirectoryCreation => SagaStep::CreateDirectory,
        SagaPhase::AwaitingCleanupDecision => SagaStep::ConfirmCleanup,
        SagaPhase::AwaitingCleanup => SagaStep::CleanDirectory,
        SagaPhase::AwaitingTemplates => SagaStep::FetchTemplates,
        SagaPhase::AwaitingTemplateChoice => SagaStep::ChooseTemplate,
        SagaPhase::AwaitingClone => SagaStep::CloneTemplate,
        SagaPhase::AwaitingTemplateRemoteRemoval => SagaStep::RemoveTemplateRemote,
        SagaPhase::AwaitingRemoteCreation => SagaStep::CreateRemoteProject,
        SagaPhase::AwaitingRemoteRewire => SagaStep::RewireRemote,
        SagaPhase::AwaitingMasterPush => SagaStep::PushMaster,
        SagaPhase::AwaitingDevBranch => SagaStep::CreateDevBranch,
        SagaPhase::AwaitingDevPush => SagaStep::PushDev,
        SagaPhase::AwaitingRegistration => SagaStep::RegisterProject,
        SagaPhase::Completed => SagaStep::ValidateRequest,
    }
}

/// What the outside world reported back to the saga.
pub enum SagaEvent {
    DirectoryMissing,
    DirectoryEmpty,
    DirectoryNonEmpty,
    DirectoryCreated,
    CleanupAccepted,
    CleanupDeclined,
    DirectoryCleaned,
    TemplatesFetched { templates: Vec<TemplateDescriptor> },
    TemplateChosen { index: usize },
    TemplateCloned,
    TemplateRemoteRemoved,
    RemoteProjectCreated { project: RemoteProject },
    RemoteRewired,
    BranchPushed,
    DevBranchCreated,
    ProjectRegistered,
    StepFailed { cause: FailureCause },
}

/// The request body for creating the remote project.
pub struct CreateProjectPayload {
    pub name: String,
    pub description: String,
}

/// The request body for registering the project's metadata.
pub struct RegistrationPayload {
    pub project_id: i32,
    pub name: String,
    pub description: String,
    pub build_cmd: Option<String>,
    pub dist: Option<String>,
    pub category: Option<String>,
    pub tags: Vec<String>,
    pub ssh_url: String,
    pub http_url: String,
    pub web_url: String,
}

/// The registration payload carries the request's metadata and the created
/// project's id and URLs, unchanged.
pub open spec fn registration_payload_ok(
    payload: RegistrationPayload,
    request: ProjectRequest,
    project: RemoteProject,
) -> bool {
    &&& payload.project_id == project.id
    &&& payload.name == request.name
    &&& payload.description == request.description
    &&& payload.build_cmd == request.build_cmd
    &&& payload.dist == request.dist
    &&& payload.category == request.category
    &&& payload.tags@ == request.tags@
    &&& payload.ssh_url == project.ssh_url
    &&& payload.http_url == project.http_url
    &&& payload.web_url == project.web_url
}

/// What the saga asks the outside world to do next.
pub enum SagaAction {
    CreateDirectory { path: String },
    PromptCleanup,
    CleanDirectory { path: String },
    FetchTemplates,
    PromptTemplateChoice { options: Vec<String> },
    CloneTemplate { source: String, dest: String },
    RemoveTemplateRemote,
    CreateRemoteProject { payload: CreateProjectPayload },
    RewireRemote { url: String },
    PushBranch { branch: String },
    CreateDevBranch { branch: String },
    RegisterProject { payload: RegistrationPayload },
    Succeed { project: RemoteProject },
    Abort { error: ScaffoldError },
}

/// Which events can answer the pending action of each phase. A step failure
/// can be reported in any phase that is still running.
pub open spec fn saga_event_fits(phase: SagaPhase, event: SagaEvent) -> bool {
    if event is StepFailed {
        phase != SagaPhase::Completed
    } else {
        match phase {
            SagaPhase::AwaitingDirectoryStatus => event is DirectoryMissing
                || event is DirectoryEmpty || event is DirectoryNonEmpty,
            SagaPhase::AwaitingDirectoryCreation => event is DirectoryCreated,
            SagaPhase::AwaitingCleanupDecision => event is CleanupAccepted
                || event is CleanupDeclined,
            SagaPhase::AwaitingCleanup => event is DirectoryCleaned,
            SagaPhase::AwaitingTemplates => event is TemplatesFetched,
            SagaPhase::AwaitingTemplateChoice => event is TemplateChosen,
            SagaPhase::AwaitingClone => event is TemplateCloned,
            SagaPhase::AwaitingTemplateRemoteRemoval => event is TemplateRemoteRemoved,
            SagaPhase::AwaitingRemoteCreation => event is RemoteProjectCreated,
            SagaPhase::AwaitingRemoteRewire => event is RemoteRewired,
            SagaPhase::AwaitingMasterPush => event is BranchPushed,
            SagaPhase::AwaitingDevBranch => event is DevBranchCreated,
            SagaPhase::AwaitingDevPush => event is BranchPushed,
            SagaPhase::AwaitingRegistration => event is ProjectRegistered,
            SagaPhase::Completed => false,
        }
    }
}

/// The log entry recording directory creation, present exactly when the saga
/// created the directory itself.
pub open spec fn dir_prefix(created: bool) -> Seq<EffectView> {
    if created {
        seq![EffectView::DirectoryCreated]
    } else {
        Seq::<EffectView>::empty()
    }
}

/// The effects that the completed earlier steps of the given phase have
/// committed, in commitment order. This is what the effect log must hold in
/// that phase.
pub open spec fn committed_effects_are(phase: SagaPhase, created: bool, project_id: i32) -> Seq<
    EffectView,
> {
    match phase {
        SagaPhase::AwaitingDirectoryStatus
        | SagaPhase::AwaitingDirectoryCreation
        | SagaPhase::AwaitingCleanupDecision
        | SagaPhase::AwaitingCleanup => Seq::<EffectView>::empty(),
        SagaPhase::AwaitingTemplates
        | SagaPhase::AwaitingTemplateChoice
        | SagaPhase::AwaitingClone => dir_prefix(created),
        SagaPhase::AwaitingTemplateRemoteRemoval
        | SagaPhase::AwaitingRemoteCreation => dir_prefix(created) + seq![
            EffectView::TemplateCloned,
        ],
        SagaPhase::AwaitingRemoteRewire
        | SagaPhase::AwaitingMasterPush => dir_prefix(created) + seq![
            EffectView::TemplateCloned,
            EffectView::RemoteCreated { id: project_id },
        ],
        SagaPhase::AwaitingDevBranch
        | SagaPhase::AwaitingDevPush => dir_prefix(created) + seq![
            EffectView::TemplateCloned,
            EffectView::RemoteCreated { id: project_id },
            EffectView::BranchPushed { branch: "master"@ },
        ],
        SagaPhase::AwaitingRegistration => dir_prefix(created) + seq![
            EffectView::TemplateCloned,
            EffectView::RemoteCreated { id: project_id },
            EffectView::BranchPushed { branch: "master"@ },
            EffectView::BranchPushed { branch: "dev"@ },
        ],
        SagaPhase::Completed => Seq::<EffectView>::empty(),
    }
}

/// One scaffolding run. The fields are read by the command layer; they are
/// only ever changed through `step`.
pub struct Saga {
    pub request: ProjectRequest,
    pub workspace: String,
    pub phase: SagaPhase,
    pub log: SagaEffectLog,
    pub created_directory: bool,
    pub templates: Vec<TemplateDescriptor>,
    pub project: Option<RemoteProject>,
}

/// The phases from which the created remote project is already known.
pub open spec fn needs_project(phase: SagaPhase) -> bool {
    ||| phase == SagaPhase::AwaitingRemoteRewire
    ||| phase == SagaPhase::AwaitingMasterPush
    ||| phase == SagaPhase::AwaitingDevBranch
    ||| phase == SagaPhase::AwaitingDevPush
    ||| phase == SagaPhase::AwaitingRegistration
}

/// The phases before any effect can have been committed.
pub open spec fn effect_free_phase(phase: SagaPhase) -> bool {
    ||| phase == SagaPhase::AwaitingDirectoryStatus
    ||| phase == SagaPhase::AwaitingDirectoryCreation
    ||| phase == SagaPhase::AwaitingCleanupDecision
    ||| phase == SagaPhase::AwaitingCleanup
}

impl Saga {
    /// The id of the created remote project, or 0 while none is known. Only
    /// consulted for phases where `needs_project` holds.
    pub open spec fn project_id_or_zero(&self) -> i32 {
        match self.project {
            Some(p) => p.id,
            None => 0,
        }
    }

    /// The saga's invariant. Besides well-formedness of the request it pins
    /// the log-then-act discipline: in every running phase the log holds
    /// exactly the effects of the completed earlier steps.
    pub open spec fn inv(&self) -> bool {
        &&& self.request.wf()
        &&& (needs_project(self.phase) ==> self.project is Some)
        &&& (effect_free_phase(self.phase) ==> self.created_directory == false)
        &&& (self.phase != SagaPhase::Completed ==> self.log@ == committed_effects_are(
            self.phase,
            self.created_directory,
            self.project_id_or_zero(),
        ))
    }

    /// Validates the request (step 1, pure) and starts a run bound to the
    /// given workspace path. Succeeds exactly on a well-formed request; a
    /// rejected request is reported at once, with an empty effect log and
    /// the offending part named.
    pub fn new(request: ProjectRequest, workspace: String) -> (r: Result<Saga, ScaffoldError>)
        ensures
            r is Ok <==> request.wf(),
            r matches Ok(s) ==> {
                &&& s.inv()
                &&& s.phase == SagaPhase::AwaitingDirectoryStatus
                &&& s.log@ == Seq::<EffectView>::empty()
                &&& s.request == request
                &&& s.workspace == workspace
                &&& s.created_directory == false
            },
            r matches Err(e) ==> {
                &&& e.step == SagaStep::ValidateRequest
                &&& e.effects@ == Seq::<EffectView>::empty()
                &&& e.cause matches FailureCause::Validation { issue }
                &&& (issue == ValidationIssue::InvalidName <==> !valid_name_of(request))
                &&& (issue == ValidationIssue::EmptyDescription <==> valid_name_of(request)
                    && request.description@.len() == 0)
            },
    {
        if !validate_project_name(request.name.as_str()) {
            return Err(ScaffoldError {
                step: SagaStep::ValidateRequest,
                cause: FailureCause::Validation { issue: ValidationIssue::InvalidName },
                effects: SagaEffectLog::new(),
            });
        }
        if !validate_description(request.description.as_str()) {
            return Err(ScaffoldError {
                step: SagaStep::ValidateRequest,
                cause: FailureCause::Validation { issue: ValidationIssue::EmptyDescription },
                effects: SagaEffectLog::new(),
            });
        }
        Ok(Saga {
            request,
            workspace,
            phase: SagaPhase::AwaitingDirectoryStatus,
            log: SagaEffectLog::new(),
            created_directory: false,
            templates: Vec::new(),
            project: None,
        })
    }

    /// Feeds one outcome to the saga and returns what to do next, exactly as
    /// `saga_step_post` describes.
    pub fn step(&mut self, event: SagaEvent) -> (action: SagaAction)
        requires
            old(self).inv(),
            saga_event_fits(old(self).phase, event),
            event matches SagaEvent::TemplateChosen { index } ==> index < old(
                self,
            ).templates@.len(),
            event matches SagaEvent::StepFailed { cause } ==> !(cause is Validation) && !(
            cause is NoTemplatesAvailable),
        ensures
            final(self).inv(),
            final(self).request == old(self).request,
            final(self).workspace == old(self).workspace,
            saga_step_post(*old(self), event, *final(self), action),
    {
        match event {
            SagaEvent::StepFailed { cause } => {
                let error = ScaffoldError {
                    step: current_step(self.phase),
                    cause,
                    effects: self.log.duplicate(),
                };
                self.phase = SagaPhase::Completed;
                SagaAction::Abort { error }
            },
            SagaEvent::DirectoryMissing => {
                self.phase = SagaPhase::AwaitingDirectoryCreation;
                SagaAction::CreateDirectory { path: self.workspace.clone() }
            },
            SagaEvent::DirectoryEmpty => {
                self.phase = SagaPhase::AwaitingTemplates;
                SagaAction::FetchTemplates
            },
            SagaEvent::DirectoryNonEmpty => {
                self.phase = SagaPhase::AwaitingCleanupDecision;
                SagaAction::PromptCleanup
            },
            SagaEvent::DirectoryCreated => {
                self.created_directory = true;
                self.log.append(Effect::DirectoryCreated);
                self.phase = SagaPhase::AwaitingTemplates;
                proof {
                    assert(self.log@ =~= committed_effects_are(
                        SagaPhase::AwaitingTemplates,
                        true,
                        self.project_id_or_zero(),
                    ));
                }
                SagaAction::FetchTemplates
            },
            SagaEvent::CleanupAccepted => {
                self.phase = SagaPhase::AwaitingCleanup;
                SagaAction::CleanDirectory { path: self.workspace.clone() }
            },
            SagaEvent::CleanupDeclined => {
                let error = ScaffoldError {
                    step: SagaStep::ConfirmCleanup,
                    cause: FailureCause::UserCancelled,
                    effects: self.log.duplicate(),
                };
                self.phase = SagaPhase::Completed;
                SagaAction::Abort { error }
            },
            SagaEvent::DirectoryCleaned => {
                self.phase = SagaPhase::AwaitingTemplates;
                SagaAction::FetchTemplates
            },
            SagaEvent::TemplatesFetched { templates } => {
                if templates.len() == 0 {
                    let error = ScaffoldError {
                        step: SagaStep::FetchTemplates,
                        cause: FailureCause::NoTemplatesAvailable,
                        effects: self.log.duplicate(),
                    };
                    self.phase = SagaPhase::Completed;
                    SagaAction::Abort { error }
                } else {
                    let options = template_labels(&templates);
                    self.templates = templates;
                    self.phase = SagaPhase::AwaitingTemplateChoice;
                    SagaAction::PromptTemplateChoice { options }
                }
            },
            SagaEvent::TemplateChosen { index } => {
                self.phase = SagaPhase::AwaitingClone;
                SagaAction::CloneTemplate {
                    source: self.templates[index].repo.clone(),
                    dest: self.workspace.clone(),
                }
            },
            SagaEvent::TemplateCloned => {
                self.log.append(Effect::TemplateCloned);
                self.phase = SagaPhase::AwaitingTemplateRemoteRemoval;
                proof {
                    assert(self.log@ =~= committed_effects_are(
                        self.phase,
                        self.created_directory,
                        self.project_id_or_zero(),
                    ));
                }
                SagaAction::RemoveTemplateRemote
            },
            SagaEvent::TemplateRemoteRemoved => {
                self.phase = SagaPhase::AwaitingRemoteCreation;
                SagaAction::CreateRemoteProject {
                    payload: CreateProjectPayload {
                        name: self.request.name.clone(),
                        description: self.request.description.clone(),
                    },
                }
            },
            SagaEvent::RemoteProjectCreated { project } => {
                let id = project.id;
                let url = project.ssh_url.clone();
                self.project = Some(project);
                self.log.append(Effect::RemoteCreated { id });
                self.phase = SagaPhase::AwaitingRemoteRewire;
                proof {
                    assert(self.log@ =~= committed_effects_are(
                        self.phase,
                        self.created_directory,
                        self.project_id_or_zero(),
                    ));
                }
                SagaAction::RewireRemote { url }
            },
            SagaEvent::RemoteRewired => {
                self.phase = SagaPhase::AwaitingMasterPush;
                SagaAction::PushBranch { branch: "master".to_owned() }
            },
            SagaEvent::BranchPushed => {
                if self.phase == SagaPhase::AwaitingMasterPush {
                    self.log.append(Effect::BranchPushed { branch: "master".to_owned() });
                    self.phase = SagaPhase::AwaitingDevBranch;
                    proof {
                        assert(self.log@ =~= committed_effects_are(
                            self.phase,
                            self.created_directory,
                            self.project_id_or_zero(),
                        ));
                    }
                    SagaAction::CreateDevBranch { branch: "dev".to_owned() }
                } else {
                    self.log.append(Effect::BranchPushed { branch: "dev".to_owned() });
                    self.phase = SagaPhase::AwaitingRegistration;
                    proof {
                        assert(self.log@ =~= committed_effects_are(
                            self.phase,
                            self.created_directory,
                            self.project_id_or_zero(),
                        ));
                    }
                    let payload = match &self.project {
                        Some(p) => RegistrationPayload {
                            project_id: p.id,
                            name: self.request.name.clone(),
                            description: self.request.description.clone(),
                            build_cmd: clone_opt_string(&self.request.build_cmd),
                            dist: clone_opt_string(&self.request.dist),
                            category: clone_opt_string(&self.request.category),
                            tags: clone_string_vec(&self.request.tags),
                            ssh_url: p.ssh_url.clone(),
                            http_url: p.http_url.clone(),
                            web_url: p.web_url.clone(),
                        },
                        None => vstd::pervasive::unreached(),
                    };
                    SagaAction::RegisterProject { payload }
                }
            },
            SagaEvent::DevBranchCreated => {
                self.phase = SagaPhase::AwaitingDevPush;
                SagaAction::PushBranch { branch: "dev".to_owned() }
            },
            SagaEvent::ProjectRegistered => {
                self.log.append(Effect::RemoteRegistered);
                self.phase = SagaPhase::Completed;
                let out = match &self.project {
                    Some(p) => p.duplicate(),
                    None => vstd::pervasive::unreached(),
                };
                SagaAction::Succeed { project: out }
            },
        }
    }
}

/// The request's name is valid.
pub open spec fn valid_name_of(request: ProjectRequest) -> bool {
    crate::validate::valid_project_name(request.name@)
}

/// The full transition table of the saga. Each arm pins the phase the event
/// answers, the new phase, exactly what the log gains (nothing, or the one
/// effect the step committed), and the action handed back.
pub open spec fn saga_step_post(
    pre: Saga,
    event: SagaEvent,
    post: Saga,
    action: SagaAction,
) -> bool {
    match event {
        SagaEvent::StepFailed { cause } => {
            &&& post.phase == SagaPhase::Completed
            &&& post.log@ == pre.log@
            &&& action matches SagaAction::Abort { error }
            &&& action->Abort_error.step == step_of(pre.phase)
            &&& action->Abort_error.cause == cause
            &&& action->Abort_error.effects@ == pre.log@
        },
        SagaEvent::DirectoryMissing => {
            &&& pre.phase == SagaPhase::AwaitingDirectoryStatus
            &&& post.phase == SagaPhase::AwaitingDirectoryCreation
            &&& post.log@ == pre.log@
            &&& post.created_directory == pre.created_directory
            &&& action matches SagaAction::CreateDirectory { path } && path == pre.workspace
        },
        SagaEvent::DirectoryEmpty => {
            &&& pre.phase == SagaPhase::AwaitingDirectoryStatus
            &&& post.phase == SagaPhase::AwaitingTemplates
            &&& post.log@ == pre.log@
            &&& post.created_directory == pre.created_directory
            &&& action == SagaAction::FetchTemplates
        },
        SagaEvent::DirectoryNonEmpty => {
            &&& pre.phase == SagaPhase::AwaitingDirectoryStatus
            &&& post.phase == SagaPhase::AwaitingCleanupDecision
            &&& post.log@ == pre.log@
            &&& post.created_directory == pre.created_directory
            &&& action == SagaAction::PromptCleanup
        },
        SagaEvent::DirectoryCreated => {
            &&& pre.phase == SagaPhase::AwaitingDirectoryCreation
            &&& post.phase == SagaPhase::AwaitingTemplates
            &&& post.log@ == pre.log@.push(EffectView::DirectoryCreated)
            &&& post.created_directory == true
            &&& action == SagaAction::FetchTemplates
        },
        SagaEvent::CleanupAccepted => {
            &&& pre.phase == SagaPhase::AwaitingCleanupDecision
            &&& post.phase == SagaPhase::AwaitingCleanup
            &&& post.log@ == pre.log@
            &&& action matches SagaAction::CleanDirectory { path } && path == pre.workspace
        },
        SagaEvent::CleanupDeclined => {
            &&& pre.phase == SagaPhase::AwaitingCleanupDecision
            &&& post.phase == SagaPhase::Completed
            &&& post.log@ == pre.log@
            &&& action matches SagaAction::Abort { error }
            &&& action->Abort_error.step == SagaStep::ConfirmCleanup
            &&& action->Abort_error.cause == FailureCause::UserCancelled
            &&& action->Abort_error.effects@ == pre.log@
        },
        SagaEvent::DirectoryCleaned => {
            &&& pre.phase == SagaPhase::AwaitingCleanup
            &&& post.phase == SagaPhase::AwaitingTemplates
            &&& post.log@ == pre.log@
            &&& post.created_directory == pre.created_directory
            &&& action == SagaAction::FetchTemplates
        },
        SagaEvent::TemplatesFetched { templates } => {
            &&& pre.phase == SagaPhase::AwaitingTemplates
            &&& post.log@ == pre.log@
            &&& post.created_directory == pre.created_directory
            &&& if templates@.len() == 0 {
                &&& post.phase == SagaPhase::Completed
                &&& action matches SagaAction::Abort { error }
                &&& action->Abort_error.step == SagaStep::FetchTemplates
                &&& action->Abort_error.cause == FailureCause::NoTemplatesAvailable
                &&& action->Abort_error.effects@ == pre.log@
            } else {
                &&& post.phase == SagaPhase::AwaitingTemplateChoice
                &&& post.templates == templates
                &&& action matches SagaAction::PromptTemplateChoice { options }
                &&& labels_match(action->PromptTemplateChoice_options@, templates@)
            }
        },
        SagaEvent::TemplateChosen { index } => {
            &&& pre.phase == SagaPhase::AwaitingTemplateChoice
            &&& post.phase == SagaPhase::AwaitingClone
            &&& post.log@ == pre.log@
            &&& post.created_directory == pre.created_directory
            &&& action matches SagaAction::CloneTemplate { source, dest } && source
                == pre.templates@[index as int].repo && dest == pre.workspace
        },
        SagaEvent::TemplateCloned => {
            &&& pre.phase == SagaPhase::AwaitingClone
            &&& post.phase == SagaPhase::AwaitingTemplateRemoteRemoval
            &&& post.log@ == pre.log@.push(EffectView::TemplateCloned)
            &&& post.created_directory == pre.created_directory
            &&& action == SagaAction::RemoveTemplateRemote
        },
        SagaEvent::TemplateRemoteRemoved => {
            &&& pre.phase == SagaPhase::AwaitingTemplateRemoteRemoval
            &&& post.phase == SagaPhase::AwaitingRemoteCreation
            &&& post.log@ == pre.log@
            &&& post.created_directory == pre.created_directory
            &&& action matches SagaAction::CreateRemoteProject { payload } && payload.name
                == pre.request.name && payload.description == pre.request.description
        },
        SagaEvent::RemoteProjectCreated { project } => {
            &&& pre.phase == SagaPhase::AwaitingRemoteCreation
            &&& post.phase == SagaPhase::AwaitingRemoteRewire
            &&& post.log@ == pre.log@.push(EffectView::RemoteCreated { id: project.id })
            &&& post.created_directory == pre.created_directory
            &&& post.project matches Some(p) && p == project
            &&& action matches SagaAction::RewireRemote { url } && url == project.ssh_url
        },
        SagaEvent::RemoteRewired => {
            &&& pre.phase == SagaPhase::AwaitingRemoteRewire
            &&& post.phase == SagaPhase::AwaitingMasterPush
            &&& post.log@ == pre.log@
            &&& post.created_directory == pre.created_directory
            &&& post.project == pre.project
            &&& action matches SagaAction::PushBranch { branch } && branch@ == "master"@
        },
        SagaEvent::BranchPushed => {
            if pre.phase == SagaPhase::AwaitingMasterPush {
                &&& post.phase == SagaPhase::AwaitingDevBranch
                &&& post.log@ == pre.log@.push(EffectView::BranchPushed { branch: "master"@ })
                &&& post.created_directory == pre.created_directory
                &&& post.project == pre.project
                &&& action matches SagaAction::CreateDevBranch { branch } && branch@ == "dev"@
            } else {
                &&& pre.phase == SagaPhase::AwaitingDevPush
                &&& post.phase == SagaPhase::AwaitingRegistration
                &&& post.log@ == pre.log@.push(EffectView::BranchPushed { branch: "dev"@ })
                &&& post.created_directory == pre.created_directory
                &&& post.project == pre.project
                &&& action matches SagaAction::RegisterProject { payload }
                &&& pre.project matches Some(p) && registration_payload_ok(
                    action->RegisterProject_payload,
                    pre.request,
                    p,
                )
            }
        },
        SagaEvent::DevBranchCreated => {
            &&& pre.phase == SagaPhase::AwaitingDevBranch
            &&& post.phase == SagaPhase::AwaitingDevPush
            &&& post.log@ == pre.log@
            &&& post.created_directory == pre.created_directory
            &&& post.project == pre.project
            &&& action matches SagaAction::PushBranch { branch } && branch@ == "dev"@
        },
        SagaEvent::ProjectRegistered => {
            &&& pre.phase == SagaPhase::AwaitingRegistration
            &&& post.phase == SagaPhase::Completed
            &&& post.log@ == pre.log@.push(EffectView::RemoteRegistered)
            &&& action matches SagaAction::Succeed { project }
            &&& pre.project matches Some(p) && action->Succeed_project == p
        },
    }
}

/// The log-then-act discipline, stated on its own: while the saga is
/// running, the effect log holds exactly the effects of the completed
/// earlier steps — never an effect of the pending step or of a later one.
/// Together with `saga_step_post` for `StepFailed`, a failure at any step
/// therefore reports exactly the effects of the steps before it.
pub proof fn lemma_log_holds_committed_effects(s: Saga)
    requires
        s.inv(),
        s.phase != SagaPhase::Completed,
    ensures
        s.log@ == committed_effects_are(s.phase, s.created_directory, s.project_id_or_zero()),
{
}

proof fn lemma_committed_log_eval(c: bool, id: i32)
    ensures
        first_remote_id(Seq::<EffectView>::empty()) is None,
        !mentions_directory_created(Seq::<EffectView>::empty()),
        mentions_directory_created(dir_prefix(c)) == c,
        first_remote_id(dir_prefix(c)) is None,
        mentions_directory_created(committed_effects_are(SagaPhase::AwaitingRemoteCreation, c, id))
            == c,
        first_remote_id(committed_effects_are(SagaPhase::AwaitingRemoteCreation, c, id)) is None,
        mentions_directory_created(committed_effects_are(SagaPhase::AwaitingMasterPush, c, id))
            == c,
        first_remote_id(committed_effects_are(SagaPhase::AwaitingMasterPush, c, id)) == Some(id),
        mentions_directory_created(committed_effects_are(SagaPhase::AwaitingDevPush, c, id)) == c,
        first_remote_id(committed_effects_are(SagaPhase::AwaitingDevPush, c, id)) == Some(id),
        mentions_directory_created(committed_effects_are(SagaPhase::AwaitingRegistration, c, id))
            == c,
        first_remote_id(committed_effects_are(SagaPhase::AwaitingRegistration, c, id)) == Some(
            id,
        ),
{
    let s0 = Seq::<EffectView>::empty();
    let s1 = dir_prefix(c);
    let s2 = s1.push(EffectView::TemplateCloned);
    let s3 = s2.push(EffectView::RemoteCreated { id });
    let s4 = s3.push(EffectView::BranchPushed { branch: "master"@ });
    let s5 = s4.push(EffectView::BranchPushed { branch: "dev"@ });
    assert(first_remote_id(s0) is None);
    assert(!mentions_directory_created(s0));
    if c {
        assert(s1 =~= s0.push(EffectView::DirectoryCreated));
        crate::effects::lemma_first_remote_id_push(s0, EffectView::DirectoryCreated);
        crate::effects::lemma_mentions_directory_created_push(s0, EffectView::DirectoryCreated);
    } else {
        assert(s1 =~= s0);
    }
    crate::effects::lemma_first_remote_id_push(s1, EffectView::TemplateCloned);
    crate::effects::lemma_mentions_directory_created_push(s1, EffectView::TemplateCloned);
    crate::effects::lemma_first_remote_id_push(s2, EffectView::RemoteCreated { id });
    crate::effects::lemma_mentions_directory_created_push(s2, EffectView::RemoteCreated { id });
    crate::effects::lemma_first_remote_id_push(s3, EffectView::BranchPushed { branch: "master"@ });
    crate::effects::lemma_mentions_directory_created_push(
        s3,
        EffectView::BranchPushed { branch: "master"@ },
    );
    crate::effects::lemma_first_remote_id_push(s4, EffectView::BranchPushed { branch: "dev"@ });
    crate::effects::lemma_mentions_directory_created_push(
        s4,
        EffectView::BranchPushed { branch: "dev"@ },
    );
    assert(committed_effects_are(SagaPhase::AwaitingRemoteCreation, c, id) =~= s2);
    assert(committed_effects_are(SagaPhase::AwaitingMasterPush, c, id) =~= s3);
    assert(committed_effects_are(SagaPhase::AwaitingDevPush, c, id) =~= s4);
    assert(committed_effects_are(SagaPhase::AwaitingRegistration, c, id) =~= s5);
}

/// What the effect log records mirrors the saga's own state: directory
/// creation is mentioned exactly when the saga created the directory, and a
/// remote-creation entry — with the created project's id — is present
/// exactly from the moment that step committed. Together with
/// `crate::effects::lemma_compensation_exact`, this pins the compensation
/// owed after a failure in any phase.
pub proof fn lemma_compensation_matches_saga(s: Saga)
    requires
        s.inv(),
        s.phase != SagaPhase::Completed,
    ensures
        mentions_directory_created(s.log@) == s.created_directory,
        first_remote_id(s.log@) == (if needs_project(s.phase) {
            Some(s.project_id_or_zero())
        } else {
            None::<i32>
        }),
{
    lemma_committed_log_eval(s.created_directory, s.project_id_or_zero());
    match s.phase {
        SagaPhase::AwaitingTemplateRemoteRemoval => {
            assert(s.log@ =~= committed_effects_are(
                SagaPhase::AwaitingRemoteCreation,
                s.created_directory,
                s.project_id_or_zero(),
            ));
        },
        SagaPhase::AwaitingRemoteRewire => {
            assert(s.log@ =~= committed_effects_are(
                SagaPhase::AwaitingMasterPush,
                s.created_directory,
                s.project_id_or_zero(),
            ));
        },
        SagaPhase::AwaitingDevBranch => {
            assert(s.log@ =~= committed_effects_are(
                SagaPhase::AwaitingDevPush,
                s.created_directory,
                s.project_id_or_zero(),
            ));
        },
        _ => {},
    }
}

/// The remote project's id is recorded in the effect log before any push is
/// attempted, so a mid-push failure still allows accurate remote
/// compensation.
pub proof fn lemma_remote_recorded_before_push(s: Saga)
    requires
        s.inv(),
        s.phase == SagaPhase::AwaitingMasterPush || s.phase == SagaPhase::AwaitingDevBranch
            || s.phase == SagaPhase::AwaitingDevPush || s.phase == SagaPhase::AwaitingRegistration,
    ensures
        s.project matches Some(p) && s.log@.contains(EffectView::RemoteCreated { id: p.id }),
{
    let idx: int = if s.created_directory {
        2
    } else {
        1
    };
    assert(s.log@[idx] == EffectView::RemoteCreated { id: s.project_id_or_zero() });
}

} // verus!
