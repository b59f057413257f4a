use workctl::QueueState;

#[test]
fn state_starts_empty() {
    let state: QueueState<u8> = QueueState::new();
    assert_eq!(state.len(), 0);
    let state: QueueState<u8> = QueueState::with_capacity(1000);
    assert_eq!(state.len(), 0);
    let state: QueueState<u8> = QueueState::with_capacity(0);
    assert_eq!(state.len(), 0);
}

#[test]
fn state_push_counts_and_pull_takes_oldest() {
    let mut state: QueueState<char> = QueueState::new();
    assert_eq!(state.push('x'), 1);
    assert_eq!(state.push('y'), 2);
    assert_eq!(state.push('z'), 3);
    assert_eq!(state.len(), 3);
    assert_eq!(state.pull(), Some('x'));
    assert_eq!(state.len(), 2);
    assert_eq!(state.push('w'), 3);
    assert_eq!(state.pull(), Some('y'));
    assert_eq!(state.pull(), Some('z'));
    assert_eq!(state.pull(), Some('w'));
    assert_eq!(state.len(), 0);
}

#[test]
fn state_pull_on_empty_changes_nothing() {
    let mut state: QueueState<i32> = QueueState::new();
    assert_eq!(state.pull(), None);
    assert_eq!(state.len(), 0);
    assert_eq!(state.push(4), 1);
    assert_eq!(state.pull(), Some(4));
    assert_eq!(state.pull(), None);
    assert_eq!(state.pull(), None);
    assert_eq!(state.len(), 0);
}

#[test]
fn state_returns_many_items_in_push_order() {
    let mut state: QueueState<u32> = QueueState::with_capacity(4);
    for item in 0..500u32 {
        assert_eq!(state.push(item * 3), (item + 1) as usize);
    }
    for item in 0..500u32 {
        assert_eq!(state.pull(), Some(item * 3));
    }
    assert_eq!(state.pull(), None);
}
