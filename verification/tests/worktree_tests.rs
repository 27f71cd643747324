use agent_sessions::worktree::select_expired;

#[test]
fn select_expired_removes_all_stale() {
    // stamps 10 and 20 lie before the threshold 50
    let flags = select_expired(&vec![10, 60, 20, 70], 50, 10);
    assert_eq!(flags, vec![true, false, true, false]);
}

#[test]
fn select_expired_caps_the_rest_oldest_first() {
    // nothing is stale, but only two may remain
    let flags = select_expired(&vec![90, 60, 80, 70], 50, 2);
    assert_eq!(flags, vec![false, true, false, true]);
}

#[test]
fn select_expired_age_and_cap_together() {
    let flags = select_expired(&vec![10, 90, 60, 80], 50, 1);
    // 10 is stale; of the rest, 60 and 80 are older than 90
    assert_eq!(flags, vec![true, false, true, true]);
}

#[test]
fn select_expired_nothing_to_do() {
    let flags = select_expired(&vec![90, 80], 50, 5);
    assert_eq!(flags, vec![false, false]);
}

#[test]
fn select_expired_empty() {
    let flags = select_expired(&vec![], 50, 5);
    assert_eq!(flags, Vec::<bool>::new());
}
