use yoo::auth::{AuthAction, AuthEvent, AuthFlow, Credential};
use yoo::effects::{compensation_plan, Compensation, Effect};
use yoo::error::{FailureCause, SagaStep, ValidationIssue};
use yoo::model::{ProjectRequest, RemoteProject, TemplateDescriptor};
use yoo::saga::{Saga, SagaAction, SagaEvent, SagaPhase};
use yoo::service::ack_from_response;

fn request(name: &str) -> ProjectRequest {
    ProjectRequest {
        name: name.to_string(),
        description: "a demo project".to_string(),
        build_cmd: Some("yarn build".to_string()),
        dist: Some("build".to_string()),
        category: None,
        tags: Vec::new(),
    }
}

fn template() -> TemplateDescriptor {
    TemplateDescriptor {
        name: "starter".to_string(),
        repo: "ssh://git@host/templates/starter.git".to_string(),
        brief: "a starter".to_string(),
    }
}

fn remote_project(id: i32) -> RemoteProject {
    RemoteProject {
        id,
        ssh_url: "git@host:apps/my-app.git".to_string(),
        http_url: "http://host/apps/my-app.git".to_string(),
        web_url: "http://host/apps/my-app".to_string(),
    }
}

#[test]
fn rejects_invalid_name_before_any_effect() {
    let r = Saga::new(request("bad name"), "/work/bad name".to_string());
    let err = match r {
        Err(e) => e,
        Ok(_) => panic!("invalid name must be rejected"),
    };
    assert_eq!(err.step, SagaStep::ValidateRequest);
    assert!(matches!(
        err.cause,
        FailureCause::Validation { issue: ValidationIssue::InvalidName }
    ));
    assert!(err.effects.entries.is_empty());
}

#[test]
fn rejects_empty_description_before_any_effect() {
    let mut req = request("my-app");
    req.description = String::new();
    let r = Saga::new(req, "/work/my-app".to_string());
    let err = match r {
        Err(e) => e,
        Ok(_) => panic!("empty description must be rejected"),
    };
    assert!(matches!(
        err.cause,
        FailureCause::Validation { issue: ValidationIssue::EmptyDescription }
    ));
}

// Scenario: empty target directory, valid name `my-app`, one template
// available. The saga completes, both branches are pushed, and the
// registration call carries the request's name.
#[test]
fn full_run_in_empty_directory() {
    let mut saga = Saga::new(request("my-app"), "/work/my-app".to_string()).unwrap();

    let a = saga.step(SagaEvent::DirectoryEmpty);
    assert!(matches!(a, SagaAction::FetchTemplates));

    let a = saga.step(SagaEvent::TemplatesFetched { templates: vec![template()] });
    let options = match a {
        SagaAction::PromptTemplateChoice { options } => options,
        _ => panic!("expected a template prompt"),
    };
    assert_eq!(options, vec!["starter -- a starter".to_string()]);

    let a = saga.step(SagaEvent::TemplateChosen { index: 0 });
    assert!(matches!(
        a,
        SagaAction::CloneTemplate { ref source, ref dest }
            if source == "ssh://git@host/templates/starter.git" && dest == "/work/my-app"
    ));

    let a = saga.step(SagaEvent::TemplateCloned);
    assert!(matches!(a, SagaAction::RemoveTemplateRemote));

    let a = saga.step(SagaEvent::TemplateRemoteRemoved);
    assert!(matches!(
        a,
        SagaAction::CreateRemoteProject { ref payload }
            if payload.name == "my-app" && payload.description == "a demo project"
    ));

    let a = saga.step(SagaEvent::RemoteProjectCreated { project: remote_project(7) });
    assert!(matches!(
        a,
        SagaAction::RewireRemote { ref url } if url == "git@host:apps/my-app.git"
    ));

    let a = saga.step(SagaEvent::RemoteRewired);
    assert!(matches!(a, SagaAction::PushBranch { ref branch } if branch == "master"));

    let a = saga.step(SagaEvent::BranchPushed);
    assert!(matches!(a, SagaAction::CreateDevBranch { ref branch } if branch == "dev"));

    let a = saga.step(SagaEvent::DevBranchCreated);
    assert!(matches!(a, SagaAction::PushBranch { ref branch } if branch == "dev"));

    let a = saga.step(SagaEvent::BranchPushed);
    let payload = match a {
        SagaAction::RegisterProject { payload } => payload,
        _ => panic!("expected the registration call"),
    };
    assert_eq!(payload.name, "my-app");
    assert_eq!(payload.project_id, 7);
    assert_eq!(payload.ssh_url, "git@host:apps/my-app.git");
    assert_eq!(payload.build_cmd.as_deref(), Some("yarn build"));

    let a = saga.step(SagaEvent::ProjectRegistered);
    let project = match a {
        SagaAction::Succeed { project } => project,
        _ => panic!("expected success"),
    };
    assert_eq!(project.id, 7);
    assert_eq!(saga.phase, SagaPhase::Completed);

    assert_eq!(
        saga.log.entries,
        vec![
            Effect::TemplateCloned,
            Effect::RemoteCreated { id: 7 },
            Effect::BranchPushed { branch: "master".to_string() },
            Effect::BranchPushed { branch: "dev".to_string() },
            Effect::RemoteRegistered,
        ]
    );
}

// Scenario: target directory non-empty, user declines cleanup. The run ends
// as a user cancellation with zero effects recorded.
#[test]
fn declined_cleanup_cancels_with_no_effects() {
    let mut saga = Saga::new(request("my-app"), "/work/my-app".to_string()).unwrap();

    let a = saga.step(SagaEvent::DirectoryNonEmpty);
    assert!(matches!(a, SagaAction::PromptCleanup));

    let a = saga.step(SagaEvent::CleanupDeclined);
    let err = match a {
        SagaAction::Abort { error } => error,
        _ => panic!("expected an abort"),
    };
    assert_eq!(err.step, SagaStep::ConfirmCleanup);
    assert!(matches!(err.cause, FailureCause::UserCancelled));
    assert!(err.effects.entries.is_empty());
    assert!(saga.log.entries.is_empty());
    assert!(compensation_plan(&err.effects).is_empty());
}

#[test]
fn accepted_cleanup_clears_the_directory_and_continues() {
    let mut saga = Saga::new(request("my-app"), "/work/my-app".to_string()).unwrap();
    saga.step(SagaEvent::DirectoryNonEmpty);
    let a = saga.step(SagaEvent::CleanupAccepted);
    assert!(matches!(a, SagaAction::CleanDirectory { ref path } if path == "/work/my-app"));
    let a = saga.step(SagaEvent::DirectoryCleaned);
    assert!(matches!(a, SagaAction::FetchTemplates));
}

// Scenario: remote creation succeeds, the following push fails with a
// transport error. The log records the remote creation and nothing later;
// compensation deletes the remote project and removes the workspace the saga
// created.
#[test]
fn push_failure_after_remote_creation_compensates_both() {
    let mut saga = Saga::new(request("my-app"), "/work/my-app".to_string()).unwrap();

    let a = saga.step(SagaEvent::DirectoryMissing);
    assert!(matches!(a, SagaAction::CreateDirectory { ref path } if path == "/work/my-app"));
    saga.step(SagaEvent::DirectoryCreated);
    saga.step(SagaEvent::TemplatesFetched { templates: vec![template()] });
    saga.step(SagaEvent::TemplateChosen { index: 0 });
    saga.step(SagaEvent::TemplateCloned);
    saga.step(SagaEvent::TemplateRemoteRemoved);
    saga.step(SagaEvent::RemoteProjectCreated { project: remote_project(42) });
    saga.step(SagaEvent::RemoteRewired);

    let a = saga.step(SagaEvent::StepFailed {
        cause: FailureCause::Vcc { detail: "the remote end hung up".to_string() },
    });
    let err = match a {
        SagaAction::Abort { error } => error,
        _ => panic!("expected an abort"),
    };
    assert_eq!(err.step, SagaStep::PushMaster);
    assert!(matches!(
        err.cause,
        FailureCause::Vcc { ref detail } if detail == "the remote end hung up"
    ));
    assert_eq!(
        err.effects.entries,
        vec![
            Effect::DirectoryCreated,
            Effect::TemplateCloned,
            Effect::RemoteCreated { id: 42 },
        ]
    );

    let plan = compensation_plan(&err.effects);
    assert_eq!(
        plan,
        vec![
            Compensation::DeleteRemoteProject { id: 42 },
            Compensation::RemoveWorkspace,
        ]
    );
}

// When the directory already existed, a later failure compensates the remote
// project only: the user's own directory is not deleted.
#[test]
fn pre_existing_directory_is_not_removed_by_compensation() {
    let mut saga = Saga::new(request("my-app"), "/work/my-app".to_string()).unwrap();
    saga.step(SagaEvent::DirectoryEmpty);
    saga.step(SagaEvent::TemplatesFetched { templates: vec![template()] });
    saga.step(SagaEvent::TemplateChosen { index: 0 });
    saga.step(SagaEvent::TemplateCloned);
    saga.step(SagaEvent::TemplateRemoteRemoved);
    saga.step(SagaEvent::RemoteProjectCreated { project: remote_project(5) });

    let a = saga.step(SagaEvent::StepFailed {
        cause: FailureCause::Vcc { detail: "cannot set the remote".to_string() },
    });
    let err = match a {
        SagaAction::Abort { error } => error,
        _ => panic!("expected an abort"),
    };
    assert_eq!(err.step, SagaStep::RewireRemote);
    assert_eq!(
        err.effects.entries,
        vec![Effect::TemplateCloned, Effect::RemoteCreated { id: 5 }]
    );
    assert_eq!(
        compensation_plan(&err.effects),
        vec![Compensation::DeleteRemoteProject { id: 5 }]
    );
}

#[test]
fn empty_catalog_aborts_with_no_templates_available() {
    let mut saga = Saga::new(request("my-app"), "/work/my-app".to_string()).unwrap();
    saga.step(SagaEvent::DirectoryEmpty);
    let a = saga.step(SagaEvent::TemplatesFetched { templates: Vec::new() });
    let err = match a {
        SagaAction::Abort { error } => error,
        _ => panic!("expected an abort"),
    };
    assert_eq!(err.step, SagaStep::FetchTemplates);
    assert!(matches!(err.cause, FailureCause::NoTemplatesAvailable));
    assert!(err.effects.entries.is_empty());
}

// Scenario: the registration call is answered with 401 once. Exactly one
// re-login and one retried registration occur, and the saga completes
// normally.
#[test]
fn unauthorized_registration_retries_once_then_succeeds() {
    let mut saga = Saga::new(request("my-app"), "/work/my-app".to_string()).unwrap();
    saga.step(SagaEvent::DirectoryEmpty);
    saga.step(SagaEvent::TemplatesFetched { templates: vec![template()] });
    saga.step(SagaEvent::TemplateChosen { index: 0 });
    saga.step(SagaEvent::TemplateCloned);
    saga.step(SagaEvent::TemplateRemoteRemoved);
    saga.step(SagaEvent::RemoteProjectCreated { project: remote_project(9) });
    saga.step(SagaEvent::RemoteRewired);
    saga.step(SagaEvent::BranchPushed);
    saga.step(SagaEvent::DevBranchCreated);
    let a = saga.step(SagaEvent::BranchPushed);
    assert!(matches!(a, SagaAction::RegisterProject { .. }));

    // The authenticated registration call, with a stale cached credential.
    let mut flow = AuthFlow::new();
    let mut login_actions = 0;
    let a = flow.step(AuthEvent::CacheHit { authorization: "Bearer stale".to_string() });
    assert!(matches!(a, AuthAction::Send { persist: false, .. }));
    let a = flow.step(AuthEvent::ResponseReceived { status: 401, body: String::new() });
    if matches!(a, AuthAction::Login) {
        login_actions += 1;
    }
    let cred = Credential {
        token_type: "Bearer".to_string(),
        access_token: "renewed".to_string(),
    };
    let a = flow.step(AuthEvent::LoginSucceeded { credential: cred });
    assert!(matches!(
        a,
        AuthAction::Send { ref authorization, persist: true } if authorization == "Bearer renewed"
    ));
    let a = flow.step(AuthEvent::ResponseReceived {
        status: 200,
        body: "{\"code\":0}".to_string(),
    });
    assert!(matches!(a, AuthAction::Succeed { .. }));
    assert_eq!(login_actions, 1);
    assert_eq!(flow.relogins, 1);
    assert_eq!(flow.sends, 2);

    // The retried registration was acknowledged; the saga finishes cleanly.
    assert!(ack_from_response(Some(0)).is_ok());
    let a = saga.step(SagaEvent::ProjectRegistered);
    assert!(matches!(a, SagaAction::Succeed { ref project } if project.id == 9));
    assert_eq!(saga.phase, SagaPhase::Completed);
}
