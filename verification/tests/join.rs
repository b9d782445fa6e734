use mxdns::{join_all, JoinAll};

#[test]
fn results_keep_the_order_of_the_operations() {
    let ended = vec![(2usize, "c"), (0, "a"), (1, "b")];
    assert_eq!(join_all(3, ended), Some(vec!["a", "b", "c"]));
}

#[test]
fn slow_first_operation_stays_first() {
    let mut join: JoinAll<bool> = JoinAll::new(2);
    assert!(join.complete(1, true));
    assert!(!join.is_done());
    assert!(join.complete(0, false));
    assert!(join.is_done());
    assert_eq!(join.finish(), Some(vec![false, true]));
}

#[test]
fn nothing_to_join() {
    let ended: Vec<(usize, u8)> = Vec::new();
    assert_eq!(join_all(0, ended), Some(Vec::new()));
}

#[test]
fn a_missing_result_gives_nothing() {
    assert_eq!(join_all(3, vec![(0usize, 1u8), (2, 3)]), None);
    let mut join: JoinAll<u8> = JoinAll::new(2);
    assert_eq!(join.len(), 2);
    assert!(join.complete(0, 7));
    assert_eq!(join.finish(), None);
}

#[test]
fn a_result_out_of_place_gives_nothing() {
    assert_eq!(join_all(2, vec![(0usize, 1u8), (2, 3)]), None);
    assert_eq!(join_all(2, vec![(0usize, 1u8), (0, 3)]), None);
    assert_eq!(join_all(1, vec![(0usize, 1u8), (0, 3)]), None);
}

#[test]
fn a_taken_place_is_kept() {
    let mut join: JoinAll<u8> = JoinAll::new(1);
    assert!(join.complete(0, 1));
    assert!(!join.complete(0, 2));
    assert!(!join.complete(1, 2));
    assert_eq!(join.finish(), Some(vec![1]));
}
