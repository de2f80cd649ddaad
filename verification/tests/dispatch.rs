use ws_tunnel::dispatch::{Dispatch, TryIdle, WaitIdle, LOST_QUEUE, WAIT_SECS};

type State = Dispatch<u32, char>;

#[test]
fn constants_are_as_operators_know_them() {
    assert_eq!(WAIT_SECS, 5);
    assert_eq!(LOST_QUEUE, "worker dispatcher lost its idle worker queue");
}

#[test]
fn each_outcome_has_its_successor() {
    assert!(matches!(State::received(Some(1)), Dispatch::TryIdle(1)));
    assert!(matches!(State::received(None), Dispatch::Finished));
    assert!(matches!(State::tried(1, TryIdle::Worker('a')), Dispatch::Assign(1, 'a')));
    assert!(matches!(State::tried(1, TryIdle::Empty), Dispatch::NotifyAndWait(1)));
    assert!(matches!(State::tried(1, TryIdle::Disconnected), Dispatch::Failed));
    assert!(matches!(State::assigned(Ok(())), Dispatch::Receive));
    assert!(matches!(State::assigned(Err(1)), Dispatch::TryIdle(1)));
    assert!(matches!(State::waited(1, WaitIdle::Worker('a')), Dispatch::Assign(1, 'a')));
    assert!(matches!(State::waited(1, WaitIdle::TimedOut), Dispatch::TryIdle(1)));
    assert!(matches!(State::waited(1, WaitIdle::Disconnected), Dispatch::Failed));
}

#[test]
fn connections_are_served_in_order_by_one_worker_each() {
    let mut arriving = vec![3u32, 2, 1];
    let mut idle = vec![None, Some('c'), Some('b'), Some('a')];
    let gone = 'b';
    let mut delivered = Vec::new();
    let mut waits = 0;
    let mut state: State = Dispatch::Receive;
    loop {
        state = match state {
            Dispatch::Receive => State::received(arriving.pop()),
            Dispatch::TryIdle(stream) => match idle.pop() {
                Some(Some(worker)) => State::tried(stream, TryIdle::Worker(worker)),
                _ => State::tried(stream, TryIdle::Empty),
            },
            Dispatch::Assign(stream, worker) => {
                if worker == gone {
                    State::assigned(Err(stream))
                } else {
                    delivered.push((stream, worker));
                    State::assigned(Ok(()))
                }
            }
            Dispatch::NotifyAndWait(stream) => {
                waits += 1;
                if waits == 1 {
                    State::waited(stream, WaitIdle::TimedOut)
                } else {
                    State::waited(stream, WaitIdle::Worker('d'))
                }
            }
            Dispatch::Finished => break,
            Dispatch::Failed => panic!("the queue is there"),
        };
    }
    assert_eq!(delivered, vec![(1, 'a'), (2, 'c'), (3, 'd')]);
    assert_eq!(waits, 2);
}
