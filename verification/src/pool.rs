//! The workers of a client: how many it keeps, and how many may run at once.

use vstd::prelude::*;

verus! {

/// The workers of a client: how many run, and which number the next one gets.
#[derive(Debug)]
pub struct WorkerState {
    next_worker_id: usize,
    active_workers: usize,
}

/// The workers of a client, as mathematical values.
pub struct WorkerStateView {
    pub next_worker_id: usize,
    pub active_workers: usize,
}

impl View for WorkerState {
    type V = WorkerStateView;

    closed spec fn view(&self) -> WorkerStateView {
        WorkerStateView {
            next_worker_id: self.next_worker_id,
            active_workers: self.active_workers,
        }
    }
}

/// The number after `id`, which starts again at zero after the largest.
pub open spec fn following(id: usize) -> usize {
    if id == usize::MAX {
        0
    } else {
        (id + 1) as usize
    }
}

/// The workers after one more was asked for, of which no more than `limit`
/// may run.
pub open spec fn reserved(workers: WorkerStateView, limit: usize) -> WorkerStateView {
    if workers.active_workers >= limit {
        workers
    } else {
        WorkerStateView {
            next_worker_id: following(workers.next_worker_id),
            active_workers: (workers.active_workers + 1) as usize,
        }
    }
}

/// How many workers may run at once: as many as is set, but at least one.
pub open spec fn worker_limit(max_total_workers: usize) -> usize {
    if max_total_workers == 0 {
        1
    } else {
        max_total_workers
    }
}

/// How many workers a client keeps: as many as the pool is large, but never
/// more than may run.
pub open spec fn kept(pool_size: usize, max_total_workers: usize) -> usize {
    if pool_size < worker_limit(max_total_workers) {
        pool_size
    } else {
        worker_limit(max_total_workers)
    }
}

/// How many workers are missing in the pool.
pub open spec fn missing(
    workers: WorkerStateView,
    pool_size: usize,
    max_total_workers: usize,
) -> usize {
    if workers.active_workers < kept(pool_size, max_total_workers) {
        (kept(pool_size, max_total_workers) - workers.active_workers) as usize
    } else {
        0
    }
}

/// The number that comes `n` places after `id`.
pub open spec fn number_after(id: usize, n: nat) -> usize
    decreases n,
{
    if n == 0 {
        id
    } else {
        following(number_after(id, (n - 1) as nat))
    }
}

/// The workers after `n` more of them were started.
pub open spec fn grown(workers: WorkerStateView, n: usize) -> WorkerStateView {
    WorkerStateView {
        next_worker_id: number_after(workers.next_worker_id, n as nat),
        active_workers: (workers.active_workers + n) as usize,
    }
}

/// The numbers of the next `n` workers.
pub open spec fn next_numbers(workers: WorkerStateView, n: usize) -> Seq<usize> {
    Seq::new(n as nat, |i: int| number_after(workers.next_worker_id, i as nat))
}

impl WorkerState {
    /// No worker runs.
    pub fn new() -> (state: WorkerState)
        ensures
            state@ == (WorkerStateView { next_worker_id: 0, active_workers: 0 }),
    {
        WorkerState { next_worker_id: 0, active_workers: 0 }
    }

    /// How many workers run.
    pub fn active_workers(&self) -> (active: usize)
        ensures
            active == self@.active_workers,
    {
        self.active_workers
    }
}

/// Takes the slot of one more worker, of which no more than
/// `max_total_workers` may run: its number, or nothing if all slots are taken.
pub fn reserve_worker_slot(state: &mut WorkerState, max_total_workers: usize) -> (id: Option<usize>)
    ensures
        final(state)@ == reserved(old(state)@, max_total_workers),
        id == if old(state)@.active_workers >= max_total_workers {
            None::<usize>
        } else {
            Some(old(state)@.next_worker_id)
        },
{
    if state.active_workers >= max_total_workers {
        return None;
    }
    let id: usize = state.next_worker_id;
    state.active_workers = state.active_workers + 1;
    state.next_worker_id = if id == usize::MAX {
        0
    } else {
        id + 1
    };
    Some(id)
}

/// How many workers may run at once under the setting `max_total_workers`.
pub fn effective_limit(max_total_workers: usize) -> (limit: usize)
    ensures
        limit == if max_total_workers >= 1 {
            max_total_workers
        } else {
            1
        },
        limit == worker_limit(max_total_workers),
{
    if max_total_workers == 0 {
        1
    } else {
        max_total_workers
    }
}

/// Takes the slot of one more worker under the setting `max_total_workers`.
pub fn spawn_data_worker(state: &mut WorkerState, max_total_workers: usize) -> (id: Option<usize>)
    ensures
        final(state)@ == reserved(old(state)@, worker_limit(max_total_workers)),
        id == if old(state)@.active_workers >= worker_limit(max_total_workers) {
            None::<usize>
        } else {
            Some(old(state)@.next_worker_id)
        },
{
    reserve_worker_slot(state, effective_limit(max_total_workers))
}

/// How many workers are to be started so that the client keeps its pool.
pub fn workers_to_start(state: &WorkerState, pool_size: usize, max_total_workers: usize) -> (n:
    usize)
    ensures
        n == if state@.active_workers < kept(pool_size, max_total_workers) {
            kept(pool_size, max_total_workers) - state@.active_workers
        } else {
            0
        },
{
    let limit: usize = effective_limit(max_total_workers);
    let target: usize = if pool_size < limit {
        pool_size
    } else {
        limit
    };
    if state.active_workers < target {
        target - state.active_workers
    } else {
        0
    }
}

/// Takes the slots of all workers that are missing in the pool: their
/// numbers, in order.
pub fn fill_pool(state: &mut WorkerState, pool_size: usize, max_total_workers: usize) -> (ids: Vec<
    usize,
>)
    ensures
        final(state)@ == grown(
            old(state)@,
            missing(old(state)@, pool_size, max_total_workers),
        ),
        ids@ == next_numbers(old(state)@, missing(old(state)@, pool_size, max_total_workers)),
{
    let n: usize = workers_to_start(state, pool_size, max_total_workers);
    let ghost before = state@;
    let limit: usize = effective_limit(max_total_workers);
    let mut ids: Vec<usize> = Vec::new();
    let mut i: usize = 0;
    while i < n
        invariant
            i <= n,
            n == missing(before, pool_size, max_total_workers),
            limit == worker_limit(max_total_workers),
            state@ == grown(before, i),
            ids@ == next_numbers(before, i),
        decreases n - i,
    {
        if let Some(id) = reserve_worker_slot(state, limit) {
            ids.push(id);
        }
        i += 1;
        assert(ids@ =~= next_numbers(before, i));
    }
    ids
}

/// The seconds to wait before the pool is filled after a worker stopped: none
/// after one that did its work, the reconnect delay after one that failed.
pub fn refill_delay(failed: bool, reconnect_delay_secs: u64) -> (secs: u64)
    ensures
        secs == if failed {
            reconnect_delay_secs
        } else {
            0
        },
{
    if failed {
        reconnect_delay_secs
    } else {
        0
    }
}

/// Gives back the slot of a worker that stopped. How many still run.
pub fn release_worker_slot(state: &mut WorkerState) -> (remaining: usize)
    requires
        old(state)@.active_workers > 0,
    ensures
        remaining == old(state)@.active_workers - 1,
        final(state)@ == (WorkerStateView { active_workers: remaining, ..old(state)@ }),
{
    state.active_workers = state.active_workers - 1;
    state.active_workers
}

/// What happens to the workers of a client.
pub enum PoolEvent {
    /// The pool is filled: the control connection was opened, or the end of
    /// workers is answered.
    Filled,
    /// One more is asked for.
    Wanted,
    /// One that runs stops.
    Stopped,
}

/// The workers after `events`, and the numbers of those that were started.
pub open spec fn pool_run(pool_size: usize, max_total_workers: usize, events: Seq<PoolEvent>) -> (
    WorkerStateView,
    Seq<usize>,
)
    decreases events.len(),
{
    if events.len() == 0 {
        (WorkerStateView { next_worker_id: 0, active_workers: 0 }, Seq::empty())
    } else {
        let (workers, started) = pool_run(pool_size, max_total_workers, events.drop_last());
        match events.last() {
            PoolEvent::Filled => {
                let n = missing(workers, pool_size, max_total_workers);
                (grown(workers, n), started + next_numbers(workers, n))
            },
            PoolEvent::Wanted => (
                reserved(workers, worker_limit(max_total_workers)),
                if workers.active_workers >= worker_limit(max_total_workers) {
                    started
                } else {
                    started.push(workers.next_worker_id)
                },
            ),
            PoolEvent::Stopped => if workers.active_workers == 0 {
                (workers, started)
            } else {
                (
                    WorkerStateView {
                        active_workers: (workers.active_workers - 1) as usize,
                        ..workers
                    },
                    started,
                )
            },
        }
    }
}

/// The pool was filled at least once.
pub open spec fn was_filled(events: Seq<PoolEvent>) -> bool {
    exists|i: int| 0 <= i < events.len() && #[trigger] events[i] is Filled
}

/// How many workers stopped since the pool was last filled.
pub open spec fn unanswered(events: Seq<PoolEvent>) -> nat
    decreases events.len(),
{
    if events.len() == 0 {
        0
    } else {
        match events.last() {
            PoolEvent::Filled => 0,
            PoolEvent::Wanted => unanswered(events.drop_last()),
            PoolEvent::Stopped => unanswered(events.drop_last()) + 1,
        }
    }
}

/// The client keeps its pool. Once its control connection was opened, no more
/// workers are missing than have stopped without an answer; so none is missing
/// right after the opening, nor after the answer to a worker's end, however
/// many workers were asked for in between.
pub proof fn law_pool_is_kept(
    pool_size: usize,
    max_total_workers: usize,
    events: Seq<PoolEvent>,
)
    ensures
        was_filled(events) ==> pool_run(pool_size, max_total_workers, events).0.active_workers
            + unanswered(events) >= kept(pool_size, max_total_workers),
        events.len() > 0 && events.last() is Filled ==> pool_run(
            pool_size,
            max_total_workers,
            events,
        ).0.active_workers >= kept(pool_size, max_total_workers),
    decreases events.len(),
{
    if events.len() > 0 {
        let earlier = events.drop_last();
        law_pool_is_kept(pool_size, max_total_workers, earlier);
        law_pool_keeps_its_limit(pool_size, max_total_workers, earlier);
        if was_filled(events) && events.last() !is Filled {
            let i = choose|i: int| 0 <= i < events.len() && #[trigger] events[i] is Filled;
            assert(earlier[i] is Filled);
        }
    }
}

/// Never more workers run than the setting allows, whatever is asked for and
/// whatever stops; and a worker that is asked for is started exactly where
/// fewer run.
pub proof fn law_pool_keeps_its_limit(
    pool_size: usize,
    max_total_workers: usize,
    events: Seq<PoolEvent>,
)
    ensures
        ({
            let (workers, started) = pool_run(pool_size, max_total_workers, events);
            let (_, then_started) = pool_run(
                pool_size,
                max_total_workers,
                events.push(PoolEvent::Wanted),
            );
            let limit = worker_limit(max_total_workers);
            &&& workers.active_workers <= limit
            &&& then_started.len() == started.len() + if workers.active_workers < limit {
                1int
            } else {
                0int
            }
        }),
    decreases events.len(),
{
    assert(events.push(PoolEvent::Wanted).drop_last() =~= events);
    if events.len() > 0 {
        law_pool_keeps_its_limit(pool_size, max_total_workers, events.drop_last());
    }
}

/// Workers are numbered from zero on in the order in which they start, so
/// that no two of them share a number (as long as the numbers last).
#[verifier::spinoff_prover]
pub proof fn law_workers_are_numbered_in_order(
    pool_size: usize,
    max_total_workers: usize,
    events: Seq<PoolEvent>,
)
    requires
        pool_run(pool_size, max_total_workers, events).1.len() <= usize::MAX,
    ensures
        ({
            let (workers, started) = pool_run(pool_size, max_total_workers, events);
            &&& forall|i: int| 0 <= i < started.len() ==> #[trigger] started[i] == i
            &&& workers.next_worker_id == started.len()
        }),
    decreases events.len(),
{
    if events.len() > 0 {
        law_workers_are_numbered_in_order(pool_size, max_total_workers, events.drop_last());
        let (workers, started) = pool_run(pool_size, max_total_workers, events.drop_last());
        if events.last() is Filled {
            let n = missing(workers, pool_size, max_total_workers);
            let (_, all) = pool_run(pool_size, max_total_workers, events);
            assert(all == started + next_numbers(workers, n));
            assert forall|i: int| 0 <= i < all.len() implies #[trigger] all[i] == i by {
                if i < started.len() {
                    assert(all[i] == started[i]);
                } else {
                    let past = (i - started.len()) as nat;
                    assert(all[i] == number_after(workers.next_worker_id, past));
                    lemma_number_after(workers.next_worker_id, past);
                }
            }
            lemma_number_after(workers.next_worker_id, n as nat);
        }
    }
}

/// Below the largest number, counting on adds.
proof fn lemma_number_after(id: usize, n: nat)
    requires
        id + n <= usize::MAX,
    ensures
        number_after(id, n) == id + n,
    decreases n,
{
    if n > 0 {
        lemma_number_after(id, (n - 1) as nat);
    }
}

/// A slot that is taken and given back leaves as many workers as before.
pub proof fn law_release_undoes_reserve(workers: WorkerStateView, limit: usize)
    requires
        workers.active_workers < limit,
    ensures
        reserved(workers, limit).active_workers - 1 == workers.active_workers,
{
}

/// As many workers may run at once as is set, but at least one.
pub proof fn law_limit_is_the_setting(max_total_workers: usize, limit: usize)
    requires
        call_ensures(effective_limit, (max_total_workers,), limit),
    ensures
        max_total_workers >= 1 ==> limit == max_total_workers,
        max_total_workers == 0 ==> limit == 1,
        limit == worker_limit(max_total_workers),
{
}

/// A worker that is asked for gets a slot exactly where fewer run than
/// `max_total_workers`: it gets the next number, one more runs, and the number
/// after it is next. Otherwise nothing changes.
pub proof fn law_slot_is_given_below_the_limit(
    state: &mut WorkerState,
    max_total_workers: usize,
    id: Option<usize>,
)
    requires
        call_ensures(reserve_worker_slot, (state, max_total_workers), id),
    ensures
        old(state)@.active_workers < max_total_workers ==> {
            &&& id == Some(old(state)@.next_worker_id)
            &&& final(state)@.active_workers == old(state)@.active_workers + 1
            &&& old(state)@.next_worker_id < usize::MAX ==> final(state)@.next_worker_id
                == old(state)@.next_worker_id + 1
            &&& old(state)@.next_worker_id == usize::MAX ==> final(state)@.next_worker_id == 0
        },
        old(state)@.active_workers >= max_total_workers ==> id is None && final(state)@ == old(
            state,
        )@,
{
}

/// A worker that is asked for is started whenever fewer than
/// `max_total_workers` run, or none does; otherwise nothing changes.
pub proof fn law_worker_is_started_below_the_setting(
    state: &mut WorkerState,
    max_total_workers: usize,
    id: Option<usize>,
)
    requires
        call_ensures(spawn_data_worker, (state, max_total_workers), id),
    ensures
        old(state)@.active_workers < max_total_workers || old(state)@.active_workers == 0 ==> {
            &&& id == Some(old(state)@.next_worker_id)
            &&& final(state)@.active_workers == old(state)@.active_workers + 1
            &&& old(state)@.next_worker_id < usize::MAX ==> final(state)@.next_worker_id
                == old(state)@.next_worker_id + 1
            &&& old(state)@.next_worker_id == usize::MAX ==> final(state)@.next_worker_id == 0
        },
        old(state)@.active_workers >= max_total_workers && old(state)@.active_workers > 0 ==> id
            is None && final(state)@ == old(state)@,
{
}

/// So many workers are missing as make the running ones up to the pool's size,
/// as far as the setting allows: starting them makes the pool whole or meets
/// the limit, and one fewer would do neither.
pub proof fn law_missing_workers_make_the_pool_whole(
    state: &WorkerState,
    pool_size: usize,
    max_total_workers: usize,
    n: usize,
)
    requires
        call_ensures(workers_to_start, (state, pool_size, max_total_workers), n),
    ensures
        ({
            let running = state@.active_workers + n;
            &&& n > 0 ==> running <= pool_size && (running <= max_total_workers || running == 1)
            &&& running >= pool_size || (running >= max_total_workers && running >= 1)
        }),
{
}

/// Filling the pool starts exactly the missing workers, which get the next
/// numbers in order: afterwards the pool is whole or the limit is met.
pub proof fn law_filling_makes_the_pool_whole(
    state: &mut WorkerState,
    pool_size: usize,
    max_total_workers: usize,
    ids: Vec<usize>,
)
    requires
        call_ensures(fill_pool, (state, pool_size, max_total_workers), ids),
    ensures
        ({
            let before = old(state)@.active_workers;
            let after = final(state)@.active_workers;
            &&& after == before + ids@.len()
            &&& ids@.len() > 0 ==> after <= pool_size && (after <= max_total_workers || after == 1)
            &&& after >= pool_size || (after >= max_total_workers && after >= 1)
            &&& old(state)@.next_worker_id + ids@.len() <= usize::MAX ==> {
                &&& forall|i: int|
                    0 <= i < ids@.len() ==> #[trigger] ids@[i] == old(state)@.next_worker_id + i
                &&& final(state)@.next_worker_id == old(state)@.next_worker_id + ids@.len()
            }
        }),
{
    let n = missing(old(state)@, pool_size, max_total_workers);
    assert(ids@.len() == n);
    if old(state)@.next_worker_id + ids@.len() <= usize::MAX {
        lemma_number_after(old(state)@.next_worker_id, n as nat);
        assert forall|i: int| 0 <= i < ids@.len() implies #[trigger] ids@[i] == old(
            state,
        )@.next_worker_id + i by {
            lemma_number_after(old(state)@.next_worker_id, i as nat);
        }
    }
}

/// A worker that stops leaves one fewer, and no number is given out again for
/// it; a client begins without workers, and its first one has number zero.
pub proof fn law_stopped_worker_frees_its_slot(
    state: &mut WorkerState,
    remaining: usize,
    first: WorkerState,
    active: usize,
)
    requires
        old(state)@.active_workers > 0,
        call_ensures(release_worker_slot, (state,), remaining),
        call_ensures(WorkerState::new, (), first),
        call_ensures(WorkerState::active_workers, (&first,), active),
    ensures
        final(state)@.active_workers == old(state)@.active_workers - 1,
        final(state)@.active_workers == remaining,
        final(state)@.next_worker_id == old(state)@.next_worker_id,
        active == 0,
        first@.next_worker_id == 0 && first@.active_workers == 0,
{
}

/// The end of a worker is answered at once, unless it failed: then after the
/// configured reconnect delay.
pub proof fn law_failure_waits_for_the_reconnect_delay(
    failed: bool,
    reconnect_delay_secs: u64,
    secs: u64,
)
    requires
        call_ensures(refill_delay, (failed, reconnect_delay_secs), secs),
    ensures
        failed ==> secs == reconnect_delay_secs,
        !failed ==> secs == 0,
{
}

} // verus!
