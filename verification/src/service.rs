//! Interpretation of the registration service's responses. The surrounding
//! application performs the HTTP exchange and hands in the status, the raw
//! body, and the parsed form of the body where parsing succeeded; these
//! functions decide, exactly, success or the error to surface.

use vstd::prelude::*;
use crate::error::ApiError;
use crate::model::{RemoteProject, TemplateDescriptor};

verus! {

/// The parsed body of the template-listing response.
pub struct TemplatesPayload {
    pub code: i32,
    pub content: Vec<TemplateDescriptor>,
}

/// The parsed body of the project-creation response: the service-level code
/// and, where present, the created project record.
pub struct ProjectPayload {
    pub code: i32,
    pub project: Option<RemoteProject>,
}

/// Exactly what `templates_from_response` returns for every input.
pub open spec fn templates_post(
    status: u16,
    body: String,
    payload: Option<TemplatesPayload>,
    r: Result<Vec<TemplateDescriptor>, ApiError>,
) -> bool {
    match r {
        Ok(v) => {
            &&& status == 200
            &&& payload matches Some(p) && p.code == 0 && v == p.content
        },
        Err(e) => match e {
            ApiError::Unexpected { status: st, body: b } => {
                &&& status != 200
                &&& st == status
                &&& b == body
            },
            ApiError::MalformedResponse => {
                &&& status == 200
                &&& payload is None
            },
            ApiError::ServiceRefused { code } => {
                &&& status == 200
                &&& payload matches Some(p) && p.code == code && code != 0
            },
            _ => false,
        },
    }
}

/// Interprets the template-listing response: the catalog's content on a 200
/// response with service code 0, the exact error otherwise. An empty catalog
/// is returned as an empty list; rejecting it is the saga's decision.
pub fn templates_from_response(
    status: u16,
    body: String,
    payload: Option<TemplatesPayload>,
) -> (r: Result<Vec<TemplateDescriptor>, ApiError>)
    ensures
        templates_post(status, body, payload, r),
{
    if status != 200 {
        return Err(ApiError::Unexpected { status, body });
    }
    match payload {
        None => Err(ApiError::MalformedResponse),
        Some(p) => {
            if p.code != 0 {
                Err(ApiError::ServiceRefused { code: p.code })
            } else {
                Ok(p.content)
            }
        },
    }
}

/// Exactly what `created_project_from_response` returns for every input.
pub open spec fn created_project_post(
    payload: Option<ProjectPayload>,
    r: Result<RemoteProject, ApiError>,
) -> bool {
    match r {
        Ok(created) => {
            &&& payload matches Some(p)
            &&& p.code == 0
            &&& p.project matches Some(q)
            &&& created == q
        },
        Err(e) => match e {
            ApiError::MalformedResponse => payload is None || (payload matches Some(p) && p.code
                == 0 && p.project is None),
            ApiError::ServiceRefused { code } => payload matches Some(p) && p.code == code
                && code != 0,
            _ => false,
        },
    }
}

/// Interprets the body of a successful (2xx) project-creation call: the
/// created project record on service code 0, the exact error otherwise.
pub fn created_project_from_response(payload: Option<ProjectPayload>) -> (r: Result<
    RemoteProject,
    ApiError,
>)
    ensures
        created_project_post(payload, r),
{
    match payload {
        None => Err(ApiError::MalformedResponse),
        Some(p) => {
            if p.code != 0 {
                Err(ApiError::ServiceRefused { code: p.code })
            } else {
                match p.project {
                    None => Err(ApiError::MalformedResponse),
                    Some(q) => Ok(q),
                }
            }
        },
    }
}

/// Interprets the body of a successful (2xx) registration or deletion call,
/// which carries only a service-level code: accepted exactly when the body
/// parsed and its code is 0.
pub fn ack_from_response(code: Option<i32>) -> (r: Result<(), ApiError>)
    ensures
        r is Ok <==> code == Some(0i32),
        r matches Err(e) ==> match e {
            ApiError::MalformedResponse => code is None,
            ApiError::ServiceRefused { code: c } => code matches Some(given) && given == c
                && c != 0,
            _ => false,
        },
{
    match code {
        None => Err(ApiError::MalformedResponse),
        Some(c) => {
            if c != 0 {
                Err(ApiError::ServiceRefused { code: c })
            } else {
                Ok(())
            }
        },
    }
}

} // verus!
