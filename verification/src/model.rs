//! The data the scaffolding saga works on: the user's request, the template
//! descriptors offered by the catalog, and the remote project record returned
//! by the registration service.

use vstd::prelude::*;
use crate::validate::{valid_description, valid_project_name};

verus! {

/// The user-supplied request, immutable once the saga starts.
pub struct ProjectRequest {
    pub name: String,
    pub description: String,
    pub build_cmd: Option<String>,
    pub dist: Option<String>,
    pub category: Option<String>,
    pub tags: Vec<String>,
}

impl ProjectRequest {
    /// The request is well-formed when the name matches the required pattern
    /// and the description is non-empty.
    pub open spec fn wf(&self) -> bool {
        valid_project_name(self.name@) && valid_description(self.description@)
    }
}

/// One template offered by the catalog: its name, where to clone it from,
/// and a human-readable brief.
pub struct TemplateDescriptor {
    pub name: String,
    pub repo: String,
    pub brief: String,
}

/// The mathematical content of a `TemplateDescriptor`.
pub struct TemplateDescriptorView {
    pub name: Seq<char>,
    pub repo: Seq<char>,
    pub brief: Seq<char>,
}

impl View for TemplateDescriptor {
    type V = TemplateDescriptorView;

    open spec fn view(&self) -> TemplateDescriptorView {
        TemplateDescriptorView { name: self.name@, repo: self.repo@, brief: self.brief@ }
    }
}

/// The record the registration service returns for a created project. The id
/// is the opaque handle later used for compensation.
pub struct RemoteProject {
    pub id: i32,
    pub ssh_url: String,
    pub http_url: String,
    pub web_url: String,
}

impl RemoteProject {
    /// A field-for-field copy.
    pub fn duplicate(&self) -> (r: RemoteProject)
        ensures
            r == *self,
    {
        RemoteProject {
            id: self.id,
            ssh_url: self.ssh_url.clone(),
            http_url: self.http_url.clone(),
            web_url: self.web_url.clone(),
        }
    }
}

/// A copy of an optional string, equal to the original.
pub fn clone_opt_string(o: &Option<String>) -> (r: Option<String>)
    ensures
        r == *o,
{
    match o {
        Some(s) => Some(s.clone()),
        None => None,
    }
}

/// A copy of a list of strings, equal to the original.
pub fn clone_string_vec(v: &Vec<String>) -> (r: Vec<String>)
    ensures
        r@ == v@,
{
    let mut r: Vec<String> = Vec::new();
    let mut i: usize = 0;
    while i < v.len()
        invariant
            0 <= i <= v@.len(),
            r@.len() == i,
            forall|j: int| 0 <= j < i ==> r@[j] == v@[j],
        decreases v@.len() - i,
    {
        r.push(v[i].clone());
        i += 1;
    }
    assert(r@ =~= v@);
    r
}

} // verus!
