use vstd::prelude::*;
use git2::{Buf, Reference, Remote, Repository};
use crate::model::{Field, RepositoryContext};

verus! {

#[verifier::external_type_specification]
#[verifier::external_body]
pub struct ExRepository(Repository);

#[verifier::external_type_specification]
#[verifier::external_body]
pub struct ExRemote<'repo>(Remote<'repo>);

#[verifier::external_type_specification]
#[verifier::external_body]
pub struct ExBuf(Buf);

#[verifier::external_type_specification]
#[verifier::external_body]
pub struct ExReference<'repo>(Reference<'repo>);

/// What the checkout reports about its `origin` remote, once the remote is found.
#[derive(Clone, Debug, PartialEq, Eq)]
pub struct OriginLookup {
    /// The configured URL; `None` when it could not be read as text.
    /// An empty string means the remote has no URL.
    pub url: Option<String>,
    /// The remote's default branch; `None` when it is not known.
    pub default_branch: Option<String>,
}

/// What the checkout reports about its HEAD.
#[derive(Clone, Debug, PartialEq, Eq)]
pub enum HeadLookup {
    /// HEAD could not be resolved (an unborn branch, a broken repository).
    Unreadable,
    /// HEAD resolved to a reference.
    Ref { is_branch: bool, shorthand: Option<String> },
}

/// Everything the resolver reads from a local checkout, as plain values.
#[derive(Clone, Debug, PartialEq, Eq)]
pub struct LocalSnapshot {
    /// `None` when the checkout has no `origin` remote.
    pub origin: Option<OriginLookup>,
    pub head: HeadLookup,
}

/// The URL field for an `origin` lookup: resolved only when the remote
/// exists and has a non-empty URL.
pub open spec fn spec_url_field(origin: Option<OriginLookup>) -> Field {
    match origin {
        Some(o) => match o.url {
            Some(u) => if u@.len() > 0 { Field::Resolved(u) } else { Field::Unset },
            None => Field::Unset,
        },
        None => Field::Unset,
    }
}

/// The branch field for a HEAD lookup: the short name, only when HEAD is a
/// local branch.
pub open spec fn spec_head_field(head: HeadLookup) -> Field {
    match head {
        HeadLookup::Ref { is_branch, shorthand } => match shorthand {
            Some(n) => if is_branch { Field::Resolved(n) } else { Field::Unset },
            None => Field::Unset,
        },
        HeadLookup::Unreadable => Field::Unset,
    }
}

/// The default-branch field for an `origin` lookup.
pub open spec fn spec_default_branch_field(origin: Option<OriginLookup>) -> Field {
    match origin {
        Some(o) => match o.default_branch {
            Some(b) => Field::Resolved(b),
            None => Field::Unset,
        },
        None => Field::Unset,
    }
}

pub open spec fn spec_remote_url(local: Option<LocalSnapshot>) -> Field {
    match local {
        Some(s) => spec_url_field(s.origin),
        None => Field::Unset,
    }
}

pub open spec fn spec_source_branch(local: Option<LocalSnapshot>) -> Field {
    match local {
        Some(s) => spec_head_field(s.head),
        None => Field::Unset,
    }
}

pub open spec fn spec_target_branch(local: Option<LocalSnapshot>) -> Field {
    match local {
        Some(s) => spec_default_branch_field(s.origin),
        None => Field::Unset,
    }
}

/// The context that a snapshot (or its absence) resolves to.
pub open spec fn spec_resolve(local: Option<LocalSnapshot>) -> RepositoryContext {
    RepositoryContext {
        remote_url: spec_remote_url(local),
        source_branch: spec_source_branch(local),
        target_branch: spec_target_branch(local),
    }
}

/// Relies on git2's `Repository::find_remote`: looks up the remote called
/// `name`; any failure of the lookup gives `None`.
#[verifier::external_body]
fn find_remote<'a>(repo: &'a Repository, name: &str) -> (r: Option<Remote<'a>>) {
    repo.find_remote(name).ok()
}

/// Relies on git2's `Remote::url`: the remote's URL as text, `""` when it
/// has none, `None` when it is not valid UTF-8.
#[verifier::external_body]
fn remote_url(remote: &Remote) -> (r: Option<String>) {
    remote.url().ok().map(|u| u.to_owned())
}

/// Relies on git2's `Remote::default_branch`: the default branch that the
/// remote advertised, `None` when it is not known.
#[verifier::external_body]
fn remote_default_branch(remote: &Remote) -> (r: Option<Buf>) {
    remote.default_branch().ok()
}

/// Relies on git2's `Buf::as_str`: the buffer as text, `None` when it is not
/// valid UTF-8.
#[verifier::external_body]
fn buf_text(buf: &Buf) -> (r: Option<String>) {
    buf.as_str().ok().map(|s| s.to_owned())
}

/// Relies on git2's `Repository::head`: the reference HEAD resolves to.
#[verifier::external_body]
fn head_of(repo: &Repository) -> (r: Option<Reference<'_>>) {
    repo.head().ok()
}

/// Relies on git2's `Reference::is_branch`: whether the reference is a local branch.
#[verifier::external_body]
fn ref_is_branch(head: &Reference) -> (r: bool) {
    head.is_branch()
}

/// Relies on git2's `Reference::shorthand`: the human-readable short name,
/// `None` when it is not valid UTF-8.
#[verifier::external_body]
fn ref_shorthand(head: &Reference) -> (r: Option<String>) {
    head.shorthand().ok().map(|s| s.to_owned())
}

/// Reads what the checkout knows about its `origin` remote, the one whose
/// URL and default branch a pull request is opened against.
pub fn read_origin(repo: &Repository) -> (r: Option<OriginLookup>) {
    match find_remote(repo, "origin") {
        None => None,
        Some(remote) => {
            let url = remote_url(&remote);
            let default_branch = match remote_default_branch(&remote) {
                Some(buf) => buf_text(&buf),
                None => None,
            };
            Some(OriginLookup { url, default_branch })
        },
    }
}

/// Reads what the checkout knows about its HEAD.
pub fn read_head(repo: &Repository) -> (r: HeadLookup) {
    match head_of(repo) {
        None => HeadLookup::Unreadable,
        Some(head) => {
            let is_branch = ref_is_branch(&head);
            let shorthand = ref_shorthand(&head);
            HeadLookup::Ref { is_branch, shorthand }
        },
    }
}

/// Reads the whole snapshot that the resolver works from.
pub fn read_snapshot(repo: &Repository) -> (r: LocalSnapshot) {
    let origin = read_origin(repo);
    let head = read_head(repo);
    LocalSnapshot { origin, head }
}

/// The remote URL field of a snapshot.
pub fn remote_url_of(local: &Option<LocalSnapshot>) -> (r: Field)
    ensures
        r == spec_remote_url(*local),
{
    match local {
        Some(s) => match &s.origin {
            Some(o) => match &o.url {
                Some(u) => {
                    if !u.as_str().is_empty() {
                        Field::Resolved(u.clone())
                    } else {
                        Field::Unset
                    }
                },
                None => Field::Unset,
            },
            None => Field::Unset,
        },
        None => Field::Unset,
    }
}

/// The source branch field of a snapshot.
pub fn source_branch_of(local: &Option<LocalSnapshot>) -> (r: Field)
    ensures
        r == spec_source_branch(*local),
{
    match local {
        Some(s) => match &s.head {
            HeadLookup::Ref { is_branch, shorthand } => match shorthand {
                Some(n) => {
                    if *is_branch {
                        Field::Resolved(n.clone())
                    } else {
                        Field::Unset
                    }
                },
                None => Field::Unset,
            },
            HeadLookup::Unreadable => Field::Unset,
        },
        None => Field::Unset,
    }
}

/// The target branch field of a snapshot.
pub fn target_branch_of(local: &Option<LocalSnapshot>) -> (r: Field)
    ensures
        r == spec_target_branch(*local),
{
    match local {
        Some(s) => match &s.origin {
            Some(o) => match &o.default_branch {
                Some(b) => Field::Resolved(b.clone()),
                None => Field::Unset,
            },
            None => Field::Unset,
        },
        None => Field::Unset,
    }
}

/// Resolves a context from a snapshot; never fails, each field falling back
/// to `Unset` on its own.
pub fn resolve_snapshot(local: &Option<LocalSnapshot>) -> (r: RepositoryContext)
    ensures
        r == spec_resolve(*local),
{
    RepositoryContext {
        remote_url: remote_url_of(local),
        source_branch: source_branch_of(local),
        target_branch: target_branch_of(local),
    }
}

/// The remote URL of the checkout: `Unset` outside a repository, and
/// otherwise whatever the `origin` lookup gives.
pub fn get_local_repo(repository: &Option<Repository>) -> (r: Field)
    ensures
        repository is None ==> r is Unset,
        repository is Some ==> exists|o: Option<OriginLookup>| r == #[trigger] spec_url_field(o),
{
    match repository {
        None => Field::Unset,
        Some(repo) => {
            let origin = read_origin(repo);
            let local = Some(LocalSnapshot { origin, head: HeadLookup::Unreadable });
            remote_url_of(&local)
        },
    }
}

/// The source branch of the checkout: `Unset` outside a repository, and
/// otherwise whatever the HEAD lookup gives.
pub fn get_src_branch(repository: &Option<Repository>) -> (r: Field)
    ensures
        repository is None ==> r is Unset,
        repository is Some ==> exists|h: HeadLookup| r == #[trigger] spec_head_field(h),
{
    match repository {
        None => Field::Unset,
        Some(repo) => {
            let head = read_head(repo);
            let local = Some(LocalSnapshot { origin: None, head });
            source_branch_of(&local)
        },
    }
}

/// The target branch of the checkout: `Unset` outside a repository, and
/// otherwise whatever the `origin` lookup gives.
pub fn get_target_branch(repository: &Option<Repository>) -> (r: Field)
    ensures
        repository is None ==> r is Unset,
        repository is Some ==> exists|o: Option<OriginLookup>| r
            == #[trigger] spec_default_branch_field(o),
{
    match repository {
        None => Field::Unset,
        Some(repo) => {
            let origin = read_origin(repo);
            let local = Some(LocalSnapshot { origin, head: HeadLookup::Unreadable });
            target_branch_of(&local)
        },
    }
}

/// Resolves the context of an optional checkout. Never fails: outside a
/// repository every field is `Unset`, and inside one the context is what
/// some snapshot of it resolves to.
pub fn resolve(repository: &Option<Repository>) -> (r: RepositoryContext)
    ensures
        repository is None ==> r == spec_resolve(None),
        repository is Some ==> exists|s: LocalSnapshot| r == #[trigger] spec_resolve(Some(s)),
{
    match repository {
        None => resolve_snapshot(&None),
        Some(repo) => {
            let local = Some(read_snapshot(repo));
            resolve_snapshot(&local)
        },
    }
}

/// Whether the snapshot's HEAD is a local branch with a readable short name.
pub open spec fn on_named_branch(local: Option<LocalSnapshot>) -> bool {
    &&& local is Some
    &&& local->0.head is Ref
    &&& local->0.head->is_branch
    &&& local->0.head->shorthand is Some
}

/// Resolution never aborts: for every state of the checkout each field is
/// either a value taken from its own lookup or `Unset`. Without a checkout
/// all three are `Unset`; without an `origin` remote the URL and the target
/// branch are `Unset` while the source branch still comes from HEAD; with an
/// `origin` remote that has no URL only the URL is `Unset`; with a full
/// checkout all three are resolved.
pub proof fn lemma_resolve_degrades_per_field(local: Option<LocalSnapshot>)
    ensures
        local is None ==> spec_resolve(local) == (RepositoryContext {
            remote_url: Field::Unset,
            source_branch: Field::Unset,
            target_branch: Field::Unset,
        }),
        local is Some && local->0.origin is None ==> {
            &&& spec_resolve(local).remote_url is Unset
            &&& spec_resolve(local).target_branch is Unset
            &&& spec_resolve(local).source_branch == spec_head_field(local->0.head)
        },
        local is Some && local->0.origin is Some && local->0.origin->0.url is Some
            && local->0.origin->0.url->0@.len() == 0 ==> {
            &&& spec_resolve(local).remote_url is Unset
            &&& spec_resolve(local).target_branch == spec_default_branch_field(local->0.origin)
            &&& spec_resolve(local).source_branch == spec_head_field(local->0.head)
        },
        local is Some && local->0.origin is Some && local->0.origin->0.url is Some
            && local->0.origin->0.url->0@.len() > 0 && local->0.origin->0.default_branch is Some
            && on_named_branch(local) ==> spec_resolve(local) == (RepositoryContext {
            remote_url: Field::Resolved(local->0.origin->0.url->0),
            source_branch: Field::Resolved(local->0.head->shorthand->0),
            target_branch: Field::Resolved(local->0.origin->0.default_branch->0),
        }),
        spec_resolve(local).remote_url is Resolved ==> local is Some && local->0.origin is Some
            && local->0.origin->0.url == Some(spec_resolve(local).remote_url->0),
        spec_resolve(local).target_branch is Resolved ==> local is Some
            && local->0.origin is Some && local->0.origin->0.default_branch == Some(
            spec_resolve(local).target_branch->0,
        ),
{
}

/// The source branch is the short name of HEAD exactly when HEAD is a local
/// branch; on a detached HEAD, a tag checkout, or without a checkout it is
/// `Unset`.
pub proof fn lemma_source_branch_only_on_branch(local: Option<LocalSnapshot>)
    ensures
        on_named_branch(local) ==> spec_resolve(local).source_branch == Field::Resolved(
            local->0.head->shorthand->0,
        ),
        !on_named_branch(local) ==> spec_resolve(local).source_branch is Unset,
{
}

} // verus!
