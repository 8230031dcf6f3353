use twofauth_client::ui_state::UiState;

#[test]
fn collapsing_is_remembered_once() {
    let mut state = UiState::default();
    assert!(!state.is_group_collapsed(3));
    state.set_group_collapsed(3, true);
    state.set_group_collapsed(3, true);
    assert!(state.is_group_collapsed(3));
    assert_eq!(state.collapsed_groups, vec![3]);
    state.set_group_collapsed(5, true);
    assert_eq!(state.collapsed_groups, vec![3, 5]);
}

#[test]
fn expanding_removes_every_entry_and_keeps_others() {
    let mut state = UiState { collapsed_groups: vec![1, 2, 1, 4], ungrouped_collapsed: true };
    state.set_group_collapsed(1, false);
    assert_eq!(state.collapsed_groups, vec![2, 4]);
    assert!(!state.is_group_collapsed(1));
    assert!(state.is_group_collapsed(2));
    assert!(state.ungrouped_collapsed);
}

#[test]
fn expand_undoes_collapse() {
    let mut state = UiState { collapsed_groups: vec![7, 8], ungrouped_collapsed: false };
    state.set_group_collapsed(9, true);
    state.set_group_collapsed(9, false);
    assert_eq!(state.collapsed_groups, vec![7, 8]);
}

#[test]
fn ungrouped_flag_and_toggles() {
    let mut state = UiState::default();
    state.set_ungrouped_collapsed(true);
    assert!(state.ungrouped_collapsed);
    assert!(state.initially_collapsed(None, true));
    assert!(!state.initially_collapsed(None, false));
    state.record_toggle(Some(4), false, true);
    assert!(state.initially_collapsed(Some(4), true));
    state.record_toggle(Some(4), true, false);
    assert!(state.is_group_collapsed(4));
    state.record_toggle(None, true, true);
    assert!(!state.ungrouped_collapsed);
}
