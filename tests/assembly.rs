use ado_pr::assemble::{assemble, without_required};
use ado_pr::model::{Field, PrError, RepositoryContext};

fn s(x: &str) -> String {
    x.to_string()
}

fn names(xs: &[&str]) -> Vec<String> {
    xs.iter().map(|x| x.to_string()).collect()
}

fn ctx(src: Field, trg: Field) -> RepositoryContext {
    RepositoryContext { remote_url: Field::Resolved(s("u")), source_branch: src, target_branch: trg }
}

#[test]
fn name_in_both_stays_only_required() {
    let c = ctx(Field::Resolved(s("dev")), Field::Resolved(s("main")));
    let d = assemble(&c, s("repo"), s("t"), s("d"), names(&["a", "b"]), names(&["b", "c", "a"])).unwrap();
    assert_eq!(d.required_reviewers, names(&["a", "b"]));
    assert_eq!(d.optional_reviewers, names(&["c"]));
    assert!(d.optional_reviewers.iter().all(|o| !d.required_reviewers.contains(o)));
}

#[test]
fn without_required_filters_in_order() {
    assert_eq!(without_required(&names(&["x", "y", "z"]), &names(&["y"])), names(&["x", "z"]));
    assert_eq!(without_required(&names(&[]), &names(&["y"])), names(&[]));
    assert_eq!(without_required(&names(&["x"]), &names(&[])), names(&["x"]));
}

#[test]
fn empty_repo_name_is_invalid() {
    let c = ctx(Field::Resolved(s("dev")), Field::Resolved(s("main")));
    assert_eq!(assemble(&c, s(""), s("t"), s("d"), vec![], vec![]), Err(PrError::InvalidDraft));
}

#[test]
fn unset_source_branch_is_invalid() {
    let c = ctx(Field::Unset, Field::Resolved(s("main")));
    assert_eq!(assemble(&c, s("repo"), s("t"), s("d"), vec![], vec![]), Err(PrError::InvalidDraft));
}

#[test]
fn unset_target_branch_is_invalid() {
    let c = ctx(Field::Resolved(s("dev")), Field::Unset);
    assert_eq!(assemble(&c, s("repo"), s("t"), s("d"), vec![], vec![]), Err(PrError::InvalidDraft));
}

#[test]
fn complete_draft_takes_values_verbatim() {
    let c = RepositoryContext {
        remote_url: Field::Unset,
        source_branch: Field::Resolved(s("dev")),
        target_branch: Field::Resolved(s("main")),
    };
    let d = assemble(&c, s("repo"), s("Title"), s("Body text"), names(&["r"]), names(&["o"])).unwrap();
    assert_eq!(d.repository, "repo");
    assert_eq!(d.source_branch, "dev");
    assert_eq!(d.target_branch, "main");
    assert_eq!(d.title, "Title");
    assert_eq!(d.description, "Body text");
    assert_eq!(d.required_reviewers, names(&["r"]));
    assert_eq!(d.optional_reviewers, names(&["o"]));
}

#[test]
fn supplied_value_fills_only_unset_fields() {
    assert_eq!(Field::Unset.or_supplied(Some(s("main"))), Field::Resolved(s("main")));
    assert_eq!(Field::Unset.or_supplied(Some(s(""))), Field::Unset);
    assert_eq!(Field::Unset.or_supplied(None), Field::Unset);
    assert_eq!(Field::Resolved(s("dev")).or_supplied(Some(s("main"))), Field::Resolved(s("dev")));
}

#[test]
fn supplied_branches_make_a_draft_assemblable() {
    let c = RepositoryContext {
        remote_url: Field::Unset,
        source_branch: Field::Unset.or_supplied(Some(s("feature/x"))),
        target_branch: Field::Unset.or_supplied(Some(s("main"))),
    };
    let d = assemble(&c, s("ARES"), s("t"), s("d"), vec![], vec![]).unwrap();
    assert_eq!(d.source_branch, "feature/x");
    assert_eq!(d.target_branch, "main");
}
