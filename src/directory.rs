use vstd::prelude::*;
use crate::model::PrError;

verus! {

/// A repository of the remote project; only its name is used here.
#[derive(Clone, Debug, PartialEq, Eq)]
pub struct RemoteRepository {
    pub name: String,
}

/// A user record of the hosting service.
#[derive(Clone, Debug, PartialEq, Eq)]
pub struct Identity {
    pub unique_name: Option<String>,
}

/// One entry of a team's member list, which may lack an identity.
#[derive(Clone, Debug, PartialEq, Eq)]
pub struct MemberEntry {
    pub identity: Option<Identity>,
}

/// A project's reference to its default team.
#[derive(Clone, Debug, PartialEq, Eq)]
pub struct TeamRef {
    pub id: Option<String>,
}

/// HTTP status with which the service reports a missing project or team.
pub const STATUS_NOT_FOUND: u16 = 404;

/// The unique names of the members that carry an identity with a name, in
/// list order.
pub open spec fn spec_member_names(members: Seq<MemberEntry>) -> Seq<String>
    decreases members.len(),
{
    if members.len() == 0 {
        Seq::empty()
    } else {
        let rest = spec_member_names(members.drop_last());
        match members.last().identity {
            Some(id) => match id.unique_name {
                Some(n) => rest.push(n),
                None => rest,
            },
            None => rest,
        }
    }
}

/// The names of the repositories, in list order.
pub open spec fn spec_repository_names(repos: Seq<RemoteRepository>) -> Seq<String> {
    repos.map_values(|r: RemoteRepository| r.name)
}

/// Candidates for approval from a team's member list: entries without an
/// identity, or whose identity has no unique name, are dropped; the order of
/// the others is kept.
pub fn member_names(members: &Vec<MemberEntry>) -> (r: Vec<String>)
    ensures
        r@ == spec_member_names(members@),
{
    let mut names: Vec<String> = Vec::new();
    let mut i: usize = 0;
    while i < members.len()
        invariant
            i <= members@.len(),
            names@ == spec_member_names(members@.subrange(0, i as int)),
        decreases members@.len() - i,
    {
        assert(members@.subrange(0, i as int + 1).drop_last() =~= members@.subrange(0, i as int));
        match &members[i].identity {
            Some(id) => match &id.unique_name {
                Some(n) => names.push(n.clone()),
                None => {},
            },
            None => {},
        }
        i = i + 1;
    }
    assert(members@.subrange(0, members@.len() as int) =~= members@);
    names
}

/// The names of the project's repositories, in list order.
pub fn repository_names(repos: &Vec<RemoteRepository>) -> (r: Vec<String>)
    ensures
        r@ == spec_repository_names(repos@),
{
    let mut names: Vec<String> = Vec::new();
    let mut i: usize = 0;
    while i < repos.len()
        invariant
            i <= repos@.len(),
            names@ =~= spec_repository_names(repos@.subrange(0, i as int)),
        decreases repos@.len() - i,
    {
        names.push(repos[i].name.clone());
        i = i + 1;
        assert(names@ =~= spec_repository_names(repos@.subrange(0, i as int)));
    }
    assert(repos@.subrange(0, repos@.len() as int) =~= repos@);
    names
}

/// The id of a project's default team, or `MissingDefaultTeam` when the
/// project has none or the team carries no id.
pub fn default_team_id(default_team: &Option<TeamRef>) -> (r: Result<String, PrError>)
    ensures
        default_team is Some && default_team->0.id is Some ==> r == Ok::<String, PrError>(
            default_team->0.id->0,
        ),
        !(default_team is Some && default_team->0.id is Some) ==> r == Err::<String, PrError>(
            PrError::MissingDefaultTeam,
        ),
{
    match default_team {
        Some(team) => match &team.id {
            Some(id) => Ok(id.clone()),
            None => Err(PrError::MissingDefaultTeam),
        },
        None => Err(PrError::MissingDefaultTeam),
    }
}

/// The error for a failed call to the service: `NotFound` when it answered
/// with the not-found status, `RemoteUnavailable` for any other status and
/// for failures without one (transport, authentication).
pub fn classify_failure(status: Option<u16>) -> (r: PrError)
    ensures
        status == Some(STATUS_NOT_FOUND) ==> r == PrError::NotFound,
        status != Some(STATUS_NOT_FOUND) ==> r == PrError::RemoteUnavailable,
{
    match status {
        Some(code) => {
            if code == STATUS_NOT_FOUND {
                PrError::NotFound
            } else {
                PrError::RemoteUnavailable
            }
        },
        None => PrError::RemoteUnavailable,
    }
}

} // verus!
