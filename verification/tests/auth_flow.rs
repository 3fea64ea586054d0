use yoo::auth::{login, AuthAction, AuthEvent, AuthFlow, AuthPayload, Credential};
use yoo::error::ApiError;

fn payload(code: i32, token_type: &str, access_token: &str) -> AuthPayload {
    AuthPayload {
        code,
        token_type: token_type.to_string(),
        access_token: access_token.to_string(),
    }
}

#[test]
fn login_issues_encoded_credential_on_success() {
    let r = login(200, String::new(), Some(payload(0, "Bearer", "abc123")));
    let cred = r.unwrap();
    assert_eq!(cred.encode(), "Bearer abc123");
}

#[test]
fn login_fails_on_non_200_status() {
    let r = login(401, "denied".to_string(), None);
    assert!(matches!(
        r,
        Err(ApiError::Unexpected { status: 401, ref body }) if body == "denied"
    ));
}

#[test]
fn login_fails_on_non_zero_service_code() {
    let r = login(200, String::new(), Some(payload(7, "Bearer", "abc")));
    assert!(matches!(r, Err(ApiError::ServiceRefused { code: 7 })));
}

#[test]
fn login_fails_on_unparsable_body() {
    let r = login(200, "not json".to_string(), None);
    assert!(matches!(r, Err(ApiError::MalformedResponse)));
}

#[test]
fn login_twice_with_same_credentials_is_idempotent() {
    let r1 = login(200, String::new(), Some(payload(0, "Bearer", "tok-1")));
    let r2 = login(200, String::new(), Some(payload(0, "Bearer", "tok-1")));
    let c1 = r1.unwrap();
    let c2 = r2.unwrap();
    assert_eq!(c1.encode(), "Bearer tok-1");
    assert_eq!(c2.encode(), "Bearer tok-1");
    assert_eq!(c1.encode(), c2.encode());
}

#[test]
fn expired_cached_token_causes_exactly_one_relogin() {
    let mut flow = AuthFlow::new();

    let a = flow.step(AuthEvent::CacheHit { authorization: "Bearer expired".to_string() });
    assert!(matches!(
        a,
        AuthAction::Send { ref authorization, persist: false } if authorization == "Bearer expired"
    ));

    let a = flow.step(AuthEvent::ResponseReceived { status: 401, body: String::new() });
    assert!(matches!(a, AuthAction::Login));
    assert_eq!(flow.relogins, 1);

    let fresh = Credential {
        token_type: "Bearer".to_string(),
        access_token: "fresh".to_string(),
    };
    let a = flow.step(AuthEvent::LoginSucceeded { credential: fresh });
    assert!(matches!(
        a,
        AuthAction::Send { ref authorization, persist: true } if authorization == "Bearer fresh"
    ));

    let a = flow.step(AuthEvent::ResponseReceived { status: 200, body: "ok".to_string() });
    assert!(matches!(a, AuthAction::Succeed { ref body } if body == "ok"));

    assert_eq!(flow.sends, 2);
    assert_eq!(flow.logins, 1);
    assert_eq!(flow.relogins, 1);
}

#[test]
fn second_rejection_is_fatal_authentication_failure() {
    let mut flow = AuthFlow::new();
    flow.step(AuthEvent::CacheHit { authorization: "Bearer bad".to_string() });
    let a = flow.step(AuthEvent::ResponseReceived { status: 400, body: String::new() });
    assert!(matches!(a, AuthAction::Login));
    let fresh = Credential {
        token_type: "Bearer".to_string(),
        access_token: "still-bad".to_string(),
    };
    flow.step(AuthEvent::LoginSucceeded { credential: fresh });
    let a = flow.step(AuthEvent::ResponseReceived { status: 401, body: String::new() });
    assert!(matches!(a, AuthAction::Fail { error: ApiError::AuthenticationFailed }));
    assert_eq!(flow.sends, 2);
    assert_eq!(flow.relogins, 1);
}

#[test]
fn cache_miss_logs_in_before_sending() {
    let mut flow = AuthFlow::new();
    let a = flow.step(AuthEvent::CacheMiss);
    assert!(matches!(a, AuthAction::Login));
    let cred = Credential {
        token_type: "Bearer".to_string(),
        access_token: "first".to_string(),
    };
    let a = flow.step(AuthEvent::LoginSucceeded { credential: cred });
    assert!(matches!(
        a,
        AuthAction::Send { ref authorization, persist: true } if authorization == "Bearer first"
    ));
    let a = flow.step(AuthEvent::ResponseReceived { status: 200, body: "{}".to_string() });
    assert!(matches!(a, AuthAction::Succeed { .. }));
    assert_eq!(flow.sends, 1);
    assert_eq!(flow.relogins, 0);
}

#[test]
fn failed_login_surfaces_its_error() {
    let mut flow = AuthFlow::new();
    flow.step(AuthEvent::CacheMiss);
    let a = flow.step(AuthEvent::LoginFailed {
        error: ApiError::ServiceRefused { code: 3 },
    });
    assert!(matches!(a, AuthAction::Fail { error: ApiError::ServiceRefused { code: 3 } }));
}

#[test]
fn unreachable_service_surfaces_transport_error() {
    let mut flow = AuthFlow::new();
    flow.step(AuthEvent::CacheHit { authorization: "Bearer x".to_string() });
    let a = flow.step(AuthEvent::SendFailed { detail: "connection refused".to_string() });
    assert!(matches!(
        a,
        AuthAction::Fail { error: ApiError::Transport { ref detail } } if detail == "connection refused"
    ));
}

#[test]
fn other_status_codes_are_unexpected_errors() {
    let mut flow = AuthFlow::new();
    flow.step(AuthEvent::CacheHit { authorization: "Bearer x".to_string() });
    let a = flow.step(AuthEvent::ResponseReceived { status: 500, body: "boom".to_string() });
    assert!(matches!(
        a,
        AuthAction::Fail { error: ApiError::Unexpected { status: 500, ref body } } if body == "boom"
    ));
}
