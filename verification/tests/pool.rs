use ws_tunnel::pool::{
    effective_limit, fill_pool, refill_delay, release_worker_slot, reserve_worker_slot,
    spawn_data_worker, workers_to_start, WorkerState,
};

#[test]
fn slots_are_numbered_and_limited() {
    let mut state = WorkerState::new();
    assert_eq!(reserve_worker_slot(&mut state, 2), Some(0));
    assert_eq!(reserve_worker_slot(&mut state, 2), Some(1));
    assert_eq!(reserve_worker_slot(&mut state, 2), None);
    assert_eq!(state.active_workers(), 2);
    assert_eq!(release_worker_slot(&mut state), 1);
    assert_eq!(reserve_worker_slot(&mut state, 2), Some(2));
    assert_eq!(state.active_workers(), 2);
}

#[test]
fn a_limit_of_zero_slots_grants_none() {
    let mut state = WorkerState::new();
    assert_eq!(reserve_worker_slot(&mut state, 0), None);
}

#[test]
fn the_setting_allows_at_least_one_worker() {
    assert_eq!(effective_limit(0), 1);
    assert_eq!(effective_limit(1), 1);
    assert_eq!(effective_limit(8), 8);
    let mut state = WorkerState::new();
    assert_eq!(spawn_data_worker(&mut state, 0), Some(0));
    assert_eq!(spawn_data_worker(&mut state, 0), None);
}

#[test]
fn the_pool_is_filled_and_refilled() {
    let mut state = WorkerState::new();
    assert_eq!(workers_to_start(&state, 3, 8), 3);
    assert_eq!(fill_pool(&mut state, 3, 8), vec![0, 1, 2]);
    assert_eq!(state.active_workers(), 3);
    assert_eq!(workers_to_start(&state, 3, 8), 0);
    assert_eq!(fill_pool(&mut state, 3, 8), Vec::<usize>::new());

    assert_eq!(release_worker_slot(&mut state), 2);
    assert_eq!(release_worker_slot(&mut state), 1);
    assert_eq!(workers_to_start(&state, 3, 8), 2);
    assert_eq!(fill_pool(&mut state, 3, 8), vec![3, 4]);
    assert_eq!(state.active_workers(), 3);
}

#[test]
fn the_limit_bounds_the_pool() {
    let mut state = WorkerState::new();
    assert_eq!(workers_to_start(&state, 8, 2), 2);
    assert_eq!(fill_pool(&mut state, 8, 2), vec![0, 1]);
    assert_eq!(spawn_data_worker(&mut state, 2), None);

    let mut state = WorkerState::new();
    assert_eq!(fill_pool(&mut state, 8, 0), vec![0]);
    assert_eq!(fill_pool(&mut WorkerState::new(), 0, 8), Vec::<usize>::new());
}

#[test]
fn workers_that_were_asked_for_count_for_the_pool() {
    let mut state = WorkerState::new();
    assert_eq!(fill_pool(&mut state, 2, 4), vec![0, 1]);
    assert_eq!(spawn_data_worker(&mut state, 4), Some(2));
    assert_eq!(release_worker_slot(&mut state), 2);
    assert_eq!(workers_to_start(&state, 2, 4), 0);
    assert_eq!(release_worker_slot(&mut state), 1);
    assert_eq!(fill_pool(&mut state, 2, 4), vec![3]);
}

#[test]
fn a_failed_worker_is_replaced_after_the_reconnect_delay() {
    assert_eq!(refill_delay(true, 3), 3);
    assert_eq!(refill_delay(false, 3), 0);
}
