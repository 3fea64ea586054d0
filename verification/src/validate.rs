//! Validation of the user-supplied parts of a project request.
//!
//! A project name is accepted exactly when it matches
//! `^[A-Za-z0-9]+(-[A-Za-z0-9]+)*$`: one or more runs of ASCII letters and
//! digits, separated by single hyphens. Equivalently: the name is non-empty,
//! every character is a letter, a digit or `-`, it neither starts nor ends
//! with `-`, and no two hyphens are adjacent. A description is accepted
//! exactly when it is non-empty.

use vstd::prelude::*;
use vstd::string::StrSliceExecFns;

verus! {

/// The characters allowed in a project name besides the separating hyphens:
/// ASCII letters and digits.
pub open spec fn is_name_char(c: char) -> bool {
    ('a' <= c && c <= 'z') || ('A' <= c && c <= 'Z') || ('0' <= c && c <= '9')
}

/// What it means for a name to match `^[A-Za-z0-9]+(-[A-Za-z0-9]+)*$`.
pub open spec fn valid_project_name(s: Seq<char>) -> bool {
    &&& s.len() > 0
    &&& forall|i: int| 0 <= i < s.len() ==> is_name_char(#[trigger] s[i]) || s[i] == '-'
    &&& s[0] != '-'
    &&& s[s.len() - 1] != '-'
    &&& forall|i: int| 0 <= i && i + 1 < s.len() ==> !(#[trigger] s[i] == '-' && s[i + 1] == '-')
}

/// A project description must not be empty.
pub open spec fn valid_description(s: Seq<char>) -> bool {
    s.len() > 0
}

fn name_char(c: char) -> (r: bool)
    ensures
        r == is_name_char(c),
{
    ('a' <= c && c <= 'z') || ('A' <= c && c <= 'Z') || ('0' <= c && c <= '9')
}

/// Decides whether `name` matches the required pattern; accepts exactly the
/// names that `valid_project_name` describes.
pub fn validate_project_name(name: &str) -> (r: bool)
    ensures
        r == valid_project_name(name@),
{
    let n = name.unicode_len();
    if n == 0 {
        return false;
    }
    let mut i: usize = 0;
    let mut prev: char = 'a';
    while i < n
        invariant
            0 < n == name@.len(),
            0 <= i <= n,
            forall|j: int| 0 <= j < i ==> is_name_char(#[trigger] name@[j]) || name@[j] == '-',
            i > 0 ==> name@[0] != '-',
            forall|j: int|
                0 <= j && j + 1 < i ==> !(#[trigger] name@[j] == '-' && name@[j + 1] == '-'),
            i > 0 ==> prev == name@[i - 1],
        decreases n - i,
    {
        let c = name.get_char(i);
        if !name_char(c) && c != '-' {
            assert(!(is_name_char(name@[i as int]) || name@[i as int] == '-'));
            return false;
        }
        if c == '-' {
            if i == 0 {
                return false;
            }
            if prev == '-' {
                assert(name@[i - 1] == '-' && name@[i as int] == '-');
                return false;
            }
        }
        prev = c;
        i += 1;
    }
    if prev == '-' {
        assert(name@[n - 1] == '-');
        return false;
    }
    true
}

/// Decides whether a description is acceptable: it must be non-empty.
pub fn validate_description(description: &str) -> (r: bool)
    ensures
        r == valid_description(description@),
{
    !description.is_empty()
}

/// A name holding any character that is neither a letter, a digit nor a
/// hyphen — whitespace and all other punctuation included — is rejected.
pub proof fn lemma_forbidden_char_rejected(s: Seq<char>, i: int)
    requires
        0 <= i < s.len(),
        !is_name_char(s[i]),
        s[i] != '-',
    ensures
        !valid_project_name(s),
{
}

/// A name that starts or ends with a hyphen is rejected.
pub proof fn lemma_edge_hyphen_rejected(s: Seq<char>)
    requires
        s.len() > 0,
        s[0] == '-' || s[s.len() - 1] == '-',
    ensures
        !valid_project_name(s),
{
}

/// A name holding two adjacent hyphens is rejected.
pub proof fn lemma_double_hyphen_rejected(s: Seq<char>, i: int)
    requires
        0 <= i,
        i + 1 < s.len(),
        s[i] == '-',
        s[i + 1] == '-',
    ensures
        !valid_project_name(s),
{
}

} // verus!
