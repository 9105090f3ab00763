use nexus_controller::logic_engine::{push_front_bounded, EXECUTION_HISTORY_LIMIT};

#[test]
fn newest_run_goes_first_and_history_is_cut() {
    let mut h: Vec<u32> = Vec::new();
    for i in 0..25 {
        push_front_bounded(&mut h, i, EXECUTION_HISTORY_LIMIT);
    }
    assert_eq!(h.len(), 20);
    assert_eq!(h[0], 24);
    assert_eq!(h[19], 5);
    let mut g = vec![1, 2];
    push_front_bounded(&mut g, 0, 0);
    assert!(g.is_empty());
}
