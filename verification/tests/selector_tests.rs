use repo_view::remotes::select_remote_name;

#[test]
fn origin_is_preferred() {
    let names = vec![
        Some(String::from("upstream")),
        Some(String::from("origin")),
        Some(String::from("fork")),
    ];
    assert_eq!(select_remote_name(&names), Some(String::from("origin")));
}

#[test]
fn first_named_remote_when_no_origin() {
    let names = vec![Some(String::from("upstream")), Some(String::from("fork"))];
    assert_eq!(select_remote_name(&names), Some(String::from("upstream")));
}

#[test]
fn zero_remotes_give_empty_selection() {
    let names: Vec<Option<String>> = Vec::new();
    assert_eq!(select_remote_name(&names), None);
}

#[test]
fn non_text_names_are_skipped() {
    let names = vec![None, Some(String::from("fork"))];
    assert_eq!(select_remote_name(&names), Some(String::from("fork")));
}

#[test]
fn only_non_text_names_give_empty_selection() {
    let names: Vec<Option<String>> = vec![None, None];
    assert_eq!(select_remote_name(&names), None);
}
