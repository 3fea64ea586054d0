use yoo::catalog::{resolve_template, template_label, template_labels};
use yoo::error::ApiError;
use yoo::model::{RemoteProject, TemplateDescriptor};
use yoo::service::{
    ack_from_response, created_project_from_response, templates_from_response, ProjectPayload,
    TemplatesPayload,
};

fn descriptor(name: &str, repo: &str, brief: &str) -> TemplateDescriptor {
    TemplateDescriptor {
        name: name.to_string(),
        repo: repo.to_string(),
        brief: brief.to_string(),
    }
}

#[test]
fn label_joins_name_and_brief() {
    let t = descriptor("react-starter", "ssh://git@host/t.git", "a react skeleton");
    assert_eq!(template_label(&t), "react-starter -- a react skeleton");
}

#[test]
fn labels_come_in_catalog_order() {
    let ts = vec![descriptor("a", "r1", "one"), descriptor("b", "r2", "two")];
    let labels = template_labels(&ts);
    assert_eq!(labels, vec!["a -- one".to_string(), "b -- two".to_string()]);
}

#[test]
fn resolution_finds_the_chosen_template() {
    let ts = vec![descriptor("a", "r1", "one"), descriptor("b", "r2", "two")];
    assert_eq!(resolve_template(&ts, "b -- two"), Some(1));
    assert_eq!(resolve_template(&ts, "a -- one"), Some(0));
}

#[test]
fn resolution_fails_on_unknown_choice() {
    let ts = vec![descriptor("a", "r1", "one")];
    assert_eq!(resolve_template(&ts, "c -- three"), None);
    assert_eq!(resolve_template(&ts, ""), None);
}

#[test]
fn template_listing_success_returns_content() {
    let payload = TemplatesPayload {
        code: 0,
        content: vec![descriptor("a", "r1", "one")],
    };
    let r = templates_from_response(200, String::new(), Some(payload)).unwrap();
    assert_eq!(r.len(), 1);
    assert_eq!(r[0].name, "a");
}

#[test]
fn template_listing_fails_on_bad_status() {
    let r = templates_from_response(503, "unavailable".to_string(), None);
    assert!(matches!(
        r,
        Err(ApiError::Unexpected { status: 503, ref body }) if body == "unavailable"
    ));
}

#[test]
fn template_listing_fails_on_service_code() {
    let payload = TemplatesPayload { code: 2, content: vec![] };
    let r = templates_from_response(200, String::new(), Some(payload));
    assert!(matches!(r, Err(ApiError::ServiceRefused { code: 2 })));
}

#[test]
fn template_listing_fails_on_unparsable_body() {
    let r = templates_from_response(200, "garbage".to_string(), None);
    assert!(matches!(r, Err(ApiError::MalformedResponse)));
}

#[test]
fn created_project_is_returned_unchanged() {
    let project = RemoteProject {
        id: 12,
        ssh_url: "git@host:g/p.git".to_string(),
        http_url: "http://host/g/p.git".to_string(),
        web_url: "http://host/g/p".to_string(),
    };
    let r = created_project_from_response(Some(ProjectPayload { code: 0, project: Some(project) }))
        .unwrap();
    assert_eq!(r.id, 12);
    assert_eq!(r.ssh_url, "git@host:g/p.git");
}

#[test]
fn created_project_fails_on_service_code() {
    let r = created_project_from_response(Some(ProjectPayload { code: 9, project: None }));
    assert!(matches!(r, Err(ApiError::ServiceRefused { code: 9 })));
}

#[test]
fn created_project_fails_on_missing_record() {
    let r = created_project_from_response(None);
    assert!(matches!(r, Err(ApiError::MalformedResponse)));
    let r = created_project_from_response(Some(ProjectPayload { code: 0, project: None }));
    assert!(matches!(r, Err(ApiError::MalformedResponse)));
}

#[test]
fn acknowledgement_requires_code_zero() {
    assert!(ack_from_response(Some(0)).is_ok());
    assert!(matches!(
        ack_from_response(Some(5)),
        Err(ApiError::ServiceRefused { code: 5 })
    ));
    assert!(matches!(ack_from_response(None), Err(ApiError::MalformedResponse)));
}
