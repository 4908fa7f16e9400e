use vstd::prelude::*;

verus! {

/// One context field: a real value, or the marker that its source was unavailable.
#[derive(Clone, Debug, PartialEq, Eq)]
pub enum Field {
    Resolved(String),
    Unset,
}

impl Field {
    /// Fills an `Unset` field with a value the operator supplied; a resolved
    /// field is kept, and an absent or empty supplied value leaves it `Unset`.
    pub fn or_supplied(self, supplied: Option<String>) -> (r: Field)
        ensures
            self is Resolved ==> r == self,
            self is Unset && supplied is Some && supplied->0@.len() > 0 ==> r == Field::Resolved(
                supplied->0,
            ),
            self is Unset && !(supplied is Some && supplied->0@.len() > 0) ==> r is Unset,
    {
        match self {
            Field::Resolved(v) => Field::Resolved(v),
            Field::Unset => match supplied {
                Some(v) => {
                    if v.as_str().is_empty() {
                        Field::Unset
                    } else {
                        Field::Resolved(v)
                    }
                },
                None => Field::Unset,
            },
        }
    }
}

/// What the local checkout contributes to a pull request.
#[derive(Clone, Debug, PartialEq, Eq)]
pub struct RepositoryContext {
    pub remote_url: Field,
    pub source_branch: Field,
    pub target_branch: Field,
}

/// The failures of the workflow; local lookups never produce one.
#[derive(Clone, Copy, Debug, PartialEq, Eq, Structural)]
pub enum PrError {
    RemoteUnavailable,
    NotFound,
    MissingDefaultTeam,
    SelectionAborted,
    InvalidDraft,
}

/// A fully assembled pull request, ready to be submitted.
#[derive(Clone, Debug, PartialEq, Eq)]
pub struct PullRequestDraft {
    pub repository: String,
    pub source_branch: String,
    pub target_branch: String,
    pub title: String,
    pub description: String,
    pub required_reviewers: Vec<String>,
    pub optional_reviewers: Vec<String>,
}

} // verus!
