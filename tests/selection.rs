use ado_pr::model::PrError;
use ado_pr::select::select;

fn names(xs: &[&str]) -> Vec<String> {
    xs.iter().map(|x| x.to_string()).collect()
}

#[test]
fn selection_keeps_candidate_order() {
    let candidates = names(&["alice@x", "bob@x", "carol@x"]);
    assert_eq!(select(&candidates, &Some(vec![2, 0])), Ok(names(&["alice@x", "carol@x"])));
}

#[test]
fn empty_selection_is_allowed() {
    let candidates = names(&["alice@x", "bob@x"]);
    assert_eq!(select(&candidates, &Some(vec![])), Ok(vec![]));
}

#[test]
fn out_of_range_marks_select_nothing() {
    let candidates = names(&["alice@x", "bob@x"]);
    assert_eq!(select(&candidates, &Some(vec![1, 7])), Ok(names(&["bob@x"])));
}

#[test]
fn aborted_selection_is_an_error() {
    let candidates = names(&["alice@x"]);
    assert_eq!(select(&candidates, &None), Err(PrError::SelectionAborted));
}

#[test]
fn selected_names_are_candidates() {
    let candidates = names(&["a", "b", "c", "d"]);
    let chosen = select(&candidates, &Some(vec![3, 1, 3])).unwrap();
    assert_eq!(chosen, names(&["b", "d"]));
    assert!(chosen.iter().all(|c| candidates.contains(c)));
}
