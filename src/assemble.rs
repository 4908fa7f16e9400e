use vstd::prelude::*;
use crate::model::{Field, PrError, PullRequestDraft, RepositoryContext};

verus! {

/// Whether some name of `names` reads the same as `x`.
pub open spec fn listed(names: Seq<String>, x: String) -> bool {
    exists|j: int| 0 <= j < names.len() && #[trigger] names[j]@ == x@
}

/// The names of `optional` that do not appear in `required`, in order.
pub open spec fn spec_without(optional: Seq<String>, required: Seq<String>) -> Seq<String>
    decreases optional.len(),
{
    if optional.len() == 0 {
        Seq::empty()
    } else {
        let rest = spec_without(optional.drop_last(), required);
        if listed(required, optional.last()) {
            rest
        } else {
            rest.push(optional.last())
        }
    }
}

/// The draft's invariant: no optional name reads like a required one.
pub open spec fn lists_disjoint(d: PullRequestDraft) -> bool {
    forall|i: int|
        0 <= i < d.optional_reviewers@.len() ==> !listed(
            d.required_reviewers@,
            #[trigger] d.optional_reviewers@[i],
        )
}

/// Whether the context still lacks a field that a draft needs.
pub open spec fn draft_incomplete(ctx: RepositoryContext, repo_name: String) -> bool {
    ||| repo_name@.len() == 0
    ||| ctx.source_branch is Unset
    ||| ctx.target_branch is Unset
}

fn is_listed(names: &Vec<String>, x: &String) -> (r: bool)
    ensures
        r == listed(names@, *x),
{
    let mut k: usize = 0;
    while k < names.len()
        invariant
            k <= names@.len(),
            forall|j: int| 0 <= j < k ==> names@[j]@ != x@,
        decreases names@.len() - k,
    {
        if names[k] == *x {
            assert(names@[k as int]@ == x@);
            return true;
        }
        k = k + 1;
    }
    false
}

/// The optional names that are not already required.
pub fn without_required(optional: &Vec<String>, required: &Vec<String>) -> (r: Vec<String>)
    ensures
        r@ == spec_without(optional@, required@),
{
    let mut kept: Vec<String> = Vec::new();
    let mut i: usize = 0;
    while i < optional.len()
        invariant
            i <= optional@.len(),
            kept@ == spec_without(optional@.subrange(0, i as int), required@),
        decreases optional@.len() - i,
    {
        assert(optional@.subrange(0, i as int + 1).drop_last() =~= optional@.subrange(0, i as int));
        if !is_listed(required, &optional[i]) {
            kept.push(optional[i].clone());
        }
        i = i + 1;
    }
    assert(optional@.subrange(0, optional@.len() as int) =~= optional@);
    kept
}

/// Combines a resolved context and the chosen members into a draft.
/// Fails with `InvalidDraft` exactly when the repository name is empty or
/// the source or target branch is still `Unset`; otherwise every supplied
/// value is taken as it is, and a name chosen both as required and as
/// optional stays only among the required names.
pub fn assemble(
    ctx: &RepositoryContext,
    repo_name: String,
    title: String,
    description: String,
    required: Vec<String>,
    optional: Vec<String>,
) -> (r: Result<PullRequestDraft, PrError>)
    ensures
        draft_incomplete(*ctx, repo_name) ==> r == Err::<PullRequestDraft, PrError>(
            PrError::InvalidDraft,
        ),
        !draft_incomplete(*ctx, repo_name) ==> r is Ok,
        r is Ok ==> {
            let d = r->Ok_0;
            &&& d.repository == repo_name
            &&& ctx.source_branch == Field::Resolved(d.source_branch)
            &&& ctx.target_branch == Field::Resolved(d.target_branch)
            &&& d.title == title
            &&& d.description == description
            &&& d.required_reviewers@ == required@
            &&& d.optional_reviewers@ == spec_without(optional@, required@)
            &&& lists_disjoint(d)
        },
{
    if repo_name.as_str().is_empty() {
        return Err(PrError::InvalidDraft);
    }
    let source_branch = match &ctx.source_branch {
        Field::Resolved(b) => b.clone(),
        Field::Unset => {
            return Err(PrError::InvalidDraft);
        },
    };
    let target_branch = match &ctx.target_branch {
        Field::Resolved(b) => b.clone(),
        Field::Unset => {
            return Err(PrError::InvalidDraft);
        },
    };
    let optional_reviewers = without_required(&optional, &required);
    proof {
        lemma_reviewers_disjoint(optional@, required@);
    }
    Ok(
        PullRequestDraft {
            repository: repo_name,
            source_branch,
            target_branch,
            title,
            description,
            required_reviewers: required,
            optional_reviewers,
        },
    )
}

/// In an assembled draft the required and optional lists are disjoint:
/// no optional name reads like a required one, every optional name
/// was chosen as optional, and every optional choice that is not required is
/// kept.
pub proof fn lemma_reviewers_disjoint(optional: Seq<String>, required: Seq<String>)
    ensures
        forall|i: int|
            0 <= i < spec_without(optional, required).len() ==> !listed(
                required,
                #[trigger] spec_without(optional, required)[i],
            ),
        forall|i: int|
            0 <= i < spec_without(optional, required).len() ==> listed(
                optional,
                #[trigger] spec_without(optional, required)[i],
            ),
        forall|i: int|
            0 <= i < optional.len() && !listed(required, #[trigger] optional[i]) ==> listed(
                spec_without(optional, required),
                optional[i],
            ),
    decreases optional.len(),
{
    if optional.len() > 0 {
        let prefix = optional.drop_last();
        let rest = spec_without(prefix, required);
        let out = spec_without(optional, required);
        lemma_reviewers_disjoint(prefix, required);
        assert forall|i: int| 0 <= i < out.len() implies listed(optional, #[trigger] out[i]) by {
            if i < rest.len() {
                assert(out[i] == rest[i]);
                assert(listed(prefix, rest[i]));
                let j = choose|j: int| 0 <= j < prefix.len() && #[trigger] prefix[j]@ == rest[i]@;
                assert(optional[j] == prefix[j]);
            } else {
                assert(out[i] == optional[optional.len() - 1]);
            }
        }
        assert forall|i: int|
            0 <= i < optional.len() && !listed(required, #[trigger] optional[i]) implies listed(
            out,
            optional[i],
        ) by {
            if i < optional.len() - 1 {
                assert(optional[i] == prefix[i]);
                let j = choose|j: int| 0 <= j < rest.len() && #[trigger] rest[j]@ == prefix[i]@;
                assert(out[j] == rest[j]);
            } else {
                assert(out[out.len() - 1] == optional[i]);
            }
        }
    }
}

} // verus!
