//! The template catalog: the label shown for each template and the pure
//! resolution of the user's choice back to a descriptor.

use vstd::prelude::*;
use vstd::string::StringExecFns;
use crate::model::{TemplateDescriptor, TemplateDescriptorView};

verus! {

/// The label a template is offered under: `<name> -- <brief>`.
pub open spec fn label_of(t: TemplateDescriptorView) -> Seq<char> {
    t.name + " -- "@ + t.brief
}

/// Builds the label of one template.
pub fn template_label(t: &TemplateDescriptor) -> (r: String)
    ensures
        r@ == label_of(t@),
{
    let mut r = t.name.clone();
    r.append(" -- ");
    r.append(t.brief.as_str());
    r
}

/// The offered labels are the templates' labels, one each, in catalog order.
pub open spec fn labels_match(options: Seq<String>, templates: Seq<TemplateDescriptor>) -> bool {
    &&& options.len() == templates.len()
    &&& forall|i: int| 0 <= i < templates.len() ==> options[i]@ == label_of(#[trigger] templates[i]@)
}

/// Builds the list of labels to offer, one per template, in catalog order.
pub fn template_labels(templates: &Vec<TemplateDescriptor>) -> (r: Vec<String>)
    ensures
        labels_match(r@, templates@),
{
    let mut r: Vec<String> = Vec::new();
    let mut i: usize = 0;
    while i < templates.len()
        invariant
            0 <= i <= templates@.len(),
            r@.len() == i,
            forall|j: int| 0 <= j < i ==> r@[j]@ == label_of(#[trigger] templates@[j]@),
        decreases templates@.len() - i,
    {
        r.push(template_label(&templates[i]));
        i += 1;
    }
    r
}

/// Resolves the chosen label to a template: the first template whose label
/// equals the choice, or nothing when no label matches.
pub fn resolve_template(templates: &Vec<TemplateDescriptor>, choice: &str) -> (r: Option<usize>)
    ensures
        match r {
            Some(i) => {
                &&& i < templates@.len()
                &&& label_of(templates@[i as int]@) == choice@
                &&& forall|j: int| 0 <= j < i ==> label_of(#[trigger] templates@[j]@) != choice@
            },
            None => forall|j: int|
                0 <= j < templates@.len() ==> label_of(#[trigger] templates@[j]@) != choice@,
        },
{
    let wanted = choice.to_owned();
    let mut i: usize = 0;
    while i < templates.len()
        invariant
            0 <= i <= templates@.len(),
            wanted@ == choice@,
            forall|j: int| 0 <= j < i ==> label_of(#[trigger] templates@[j]@) != choice@,
        decreases templates@.len() - i,
    {
        let label = template_label(&templates[i]);
        if label == wanted {
            return Some(i);
        }
        i += 1;
    }
    None
}

} // verus!
