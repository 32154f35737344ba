use sparrow::explore::{ExplorationRun, InfeasiblePool};

fn keys(pool: &InfeasiblePool<&'static str>) -> Vec<u64> {
    (0..pool.len()).map(|i| pool.get(i).loss_key).collect()
}

#[test]
fn pool_keeps_losses_in_order() {
    let mut pool = InfeasiblePool::new();
    assert_eq!(pool.insert(5, "a"), 0);
    assert_eq!(pool.insert(2, "b"), 0);
    assert_eq!(pool.insert(9, "c"), 2);
    assert_eq!(pool.insert(5, "d"), 1);
    assert_eq!(keys(&pool), vec![2, 5, 5, 9]);
    assert_eq!(pool.get(1).solution, "d");
    assert_eq!(pool.get(2).solution, "a");
    pool.clear();
    assert_eq!(pool.len(), 0);
}

#[test]
fn run_stops_at_the_limit() {
    let mut run = ExplorationRun::new("start", Some(3));
    assert!(!run.record_infeasible("x", 30));
    assert!(!run.record_infeasible("y", 10));
    assert_eq!(*run.pool_solution(0), "y");
    assert!(run.record_infeasible("z", 10));
    assert_eq!(run.pool_len(), 3);
    assert_eq!(*run.pool_solution(0), "z");
    assert_eq!(*run.pool_solution(1), "y");
}

#[test]
fn feasible_layout_resets_the_failures() {
    let mut run = ExplorationRun::new("start", Some(2));
    assert!(!run.record_infeasible("x", 1));
    run.record_feasible("narrower", true);
    assert_eq!(run.pool_len(), 0);
    assert!(!run.record_infeasible("y", 1));
    run.record_feasible("same width", false);
    assert_eq!(*run.last_feasible(), "narrower");
    assert_eq!(run.into_feasible(), vec!["start", "narrower"]);
}

#[test]
fn no_limit_never_stops() {
    let mut run = ExplorationRun::new(0u32, None);
    for i in 0..100u64 {
        assert!(!run.record_infeasible(1, i % 7));
    }
    assert_eq!(run.pool_len(), 100);
    assert_eq!(*run.last_feasible(), 0);
}

#[test]
fn zero_limit_stops_at_once() {
    let mut run = ExplorationRun::new((), Some(0));
    assert!(run.record_infeasible((), 3));
}
