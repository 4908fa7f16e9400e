use ado_pr::directory::{classify_failure, default_team_id, member_names, repository_names, Identity, MemberEntry, RemoteRepository, TeamRef};
use ado_pr::model::PrError;

fn member(name: Option<&str>) -> MemberEntry {
    MemberEntry { identity: name.map(|n| Identity { unique_name: Some(n.to_string()) }) }
}

#[test]
fn members_without_identity_are_dropped_in_order() {
    let members = vec![member(Some("A")), member(None), member(Some("B"))];
    assert_eq!(member_names(&members), vec!["A".to_string(), "B".to_string()]);
}

#[test]
fn identity_without_name_is_dropped() {
    let members = vec![
        member(Some("A")),
        MemberEntry { identity: Some(Identity { unique_name: None }) },
        member(Some("B")),
    ];
    assert_eq!(member_names(&members), vec!["A".to_string(), "B".to_string()]);
}

#[test]
fn empty_member_list_gives_no_names() {
    assert_eq!(member_names(&vec![]), Vec::<String>::new());
    assert_eq!(member_names(&vec![member(None), member(None)]), Vec::<String>::new());
}

#[test]
fn member_order_is_kept_as_returned() {
    let members = vec![member(Some("zed@x")), member(Some("amy@x")), member(None), member(Some("mo@x"))];
    assert_eq!(
        member_names(&members),
        vec!["zed@x".to_string(), "amy@x".to_string(), "mo@x".to_string()]
    );
}

#[test]
fn repository_names_are_projected_in_order() {
    let repos = vec![
        RemoteRepository { name: "ARES".to_string() },
        RemoteRepository { name: "tools".to_string() },
    ];
    assert_eq!(repository_names(&repos), vec!["ARES".to_string(), "tools".to_string()]);
}

#[test]
fn default_team_id_present() {
    let team = Some(TeamRef { id: Some("team-1".to_string()) });
    assert_eq!(default_team_id(&team), Ok("team-1".to_string()));
}

#[test]
fn missing_default_team_is_an_error() {
    assert_eq!(default_team_id(&None), Err(PrError::MissingDefaultTeam));
    assert_eq!(default_team_id(&Some(TeamRef { id: None })), Err(PrError::MissingDefaultTeam));
}

#[test]
fn failures_are_classified() {
    assert_eq!(classify_failure(Some(404)), PrError::NotFound);
    assert_eq!(classify_failure(Some(401)), PrError::RemoteUnavailable);
    assert_eq!(classify_failure(Some(500)), PrError::RemoteUnavailable);
    assert_eq!(classify_failure(None), PrError::RemoteUnavailable);
}
