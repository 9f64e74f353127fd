use signwriter::list_container::{remove_requested, ListContainerState};

#[test]
fn submit_moves_text_into_list() {
    let mut state = ListContainerState::default();
    let mut items = vec!["http://localhost:2378".to_string()];
    state.text_mut().push_str("http://localhost:2379");
    state.submit(&mut items);
    assert_eq!(items, vec!["http://localhost:2378".to_string(), "http://localhost:2379".to_string()]);
    assert_eq!(state.text_mut().as_str(), "");
}

#[test]
fn submit_of_empty_text_adds_empty_item() {
    let mut state = ListContainerState::default();
    let mut items: Vec<String> = Vec::new();
    state.submit(&mut items);
    assert_eq!(items, vec![String::new()]);
}

#[test]
fn remove_requested_item() {
    let mut items = vec!["a".to_string(), "b".to_string(), "c".to_string()];
    remove_requested(&mut items, None);
    assert_eq!(items.len(), 3);
    remove_requested(&mut items, Some(1));
    assert_eq!(items, vec!["a".to_string(), "c".to_string()]);
}
