use conn_pool::acquire::{AcquirePoll, GetConnection};
use conn_pool::disconnect::{DisconnectPool, DisconnectStatus};
use conn_pool::pool::PoolCore;
use conn_pool::queue::QUEUE_END_ID;

#[test]
fn first_disconnect_poll_requests_shutdown_and_spawns() {
    let mut core: PoolCore<u64, u64> = PoolCore::new(4);
    let d = DisconnectPool::new();
    let r = d.poll_step(&mut core, 1);
    assert!(r.spawn_recycler);
    assert!(matches!(r.status, DisconnectStatus::SendShutdown));
    assert!(core.close_requested);
    assert!(!core.closed);
    assert_eq!(core.exchange.waiting.len(), 1);
}

#[test]
fn recycler_is_spawned_exactly_once() {
    let mut core: PoolCore<u64, u64> = PoolCore::new(4);
    let d = DisconnectPool::new();
    let r1 = d.poll_step(&mut core, 1);
    let r2 = d.poll_step(&mut core, 2);
    assert!(r1.spawn_recycler);
    assert!(!r2.spawn_recycler);
}

#[test]
fn dead_recycler_resolves_the_disconnect_at_once() {
    let mut core: PoolCore<u64, u64> = PoolCore::new(4);
    let mut d = DisconnectPool::new();
    let r = d.poll_step(&mut core, 1);
    assert!(matches!(r.status, DisconnectStatus::SendShutdown));
    let done = d.note_sent(false);
    assert!(done);
}

#[test]
fn delivered_shutdown_signal_keeps_waiting_for_the_drain() {
    let mut core: PoolCore<u64, u64> = PoolCore::new(4);
    let mut d = DisconnectPool::new();
    let r1 = d.poll_step(&mut core, 1);
    assert!(matches!(r1.status, DisconnectStatus::SendShutdown));
    let done = d.note_sent(true);
    assert!(!done);
    let r2 = d.poll_step(&mut core, 2);
    assert!(matches!(r2.status, DisconnectStatus::Pending));
}

#[test]
fn drain_completes_only_when_nothing_is_outstanding() {
    let mut core: PoolCore<u64, u64> = PoolCore::new(4);
    core.exchange.put_idle(100);
    let g = GetConnection::new(&mut core);
    let conn = match g.poll_step(&mut core, 7) {
        AcquirePoll::Granted(c) => c,
        _ => panic!("expected a granted connection"),
    };
    let mut d = DisconnectPool::new();
    assert!(matches!(d.poll_step(&mut core, 1).status, DisconnectStatus::SendShutdown));
    let _ = d.note_sent(true);

    // One connection is still checked out: the drain check must not fire.
    let (done, drained, woken) = core.try_finish();
    assert!(!done);
    assert!(drained.is_empty());
    assert!(woken.is_empty());
    assert!(!core.closed);

    // The caller returns it; the pool is closing, so it is handed back to
    // be closed rather than pooled, and the drain check now completes.
    let (discard, woken) = core.returned(conn, true);
    assert_eq!(discard, Some(conn));
    assert!(woken.is_empty());
    let (done, drained, woken) = core.try_finish();
    assert!(done);
    assert!(core.closed);
    assert_eq!(core.exchange.outstanding, 0);
    assert!(drained.is_empty());
    // The disconnect's status listener is among the woken waiters.
    assert!(woken.iter().any(|e| e.id == QUEUE_END_ID));

    // The woken disconnect re-polls and resolves.
    assert!(matches!(d.poll_step(&mut core, 2).status, DisconnectStatus::Ready));
}

#[test]
fn drain_check_without_shutdown_request_does_nothing() {
    let mut core: PoolCore<u64, u64> = PoolCore::new(4);
    core.exchange.put_idle(100);
    let (done, drained, woken) = core.try_finish();
    assert!(!done);
    assert!(drained.is_empty());
    assert!(woken.is_empty());
    assert!(!core.closed);
    assert_eq!(core.exchange.idle.len(), 1);
}

#[test]
fn finishing_hands_back_idle_connections_for_closing() {
    let mut core: PoolCore<u64, u64> = PoolCore::new(4);
    core.exchange.put_idle(100);
    core.exchange.put_idle(200);
    let d = DisconnectPool::new();
    let _ = d.poll_step(&mut core, 1);
    let (done, drained, _woken) = core.try_finish();
    assert!(done);
    assert_eq!(drained, vec![100, 200]);
    assert_eq!(core.exchange.idle.len(), 0);
}

#[test]
fn disconnect_is_idempotent_once_closed() {
    let mut core: PoolCore<u64, u64> = PoolCore::new(4);
    let d1 = DisconnectPool::new();
    let _ = d1.poll_step(&mut core, 1);
    let (done, _, _) = core.try_finish();
    assert!(done);

    let outstanding = core.exchange.outstanding;
    let idle = core.exchange.idle.clone();
    let d2 = DisconnectPool::new();
    let d3 = DisconnectPool::new();
    assert!(matches!(d2.poll_step(&mut core, 2).status, DisconnectStatus::Ready));
    assert!(matches!(d3.poll_step(&mut core, 3).status, DisconnectStatus::Ready));
    assert!(core.closed);
    assert!(core.close_requested);
    assert_eq!(core.exchange.outstanding, outstanding);
    assert_eq!(core.exchange.idle, idle);
}

#[test]
fn reclaimed_connection_wakes_every_pending_acquire() {
    let mut core: PoolCore<u64, u64> = PoolCore::new(1);
    let g1 = GetConnection::new(&mut core);
    let conn = match g1.poll_step(&mut core, 7) {
        AcquirePoll::MustOpen => 500,
        _ => panic!("expected a capacity claim"),
    };
    // Three more acquires pile up behind the single slot.
    let g2 = GetConnection::new(&mut core);
    let g3 = GetConnection::new(&mut core);
    let g4 = GetConnection::new(&mut core);
    assert!(matches!(g2.poll_step(&mut core, 8), AcquirePoll::Pending));
    assert!(matches!(g3.poll_step(&mut core, 9), AcquirePoll::Pending));
    assert!(matches!(g4.poll_step(&mut core, 10), AcquirePoll::Pending));

    // The checked-out connection comes back valid: everyone is woken and
    // the connection sits idle again.
    let (discard, woken) = core.returned(conn, true);
    assert!(discard.is_none());
    assert_eq!(woken.len(), 3);
    let wakers: Vec<u64> = woken.iter().map(|e| e.waker).collect();
    assert_eq!(wakers, vec![8, 9, 10]);

    // The first woken waiter to re-poll gets that very connection.
    match g2.poll_step(&mut core, 11) {
        AcquirePoll::Granted(c) => assert_eq!(c, conn),
        _ => panic!("expected the reclaimed connection"),
    }
}

#[test]
fn invalid_connection_is_discarded_without_waking() {
    let mut core: PoolCore<u64, u64> = PoolCore::new(1);
    let g1 = GetConnection::new(&mut core);
    assert!(matches!(g1.poll_step(&mut core, 7), AcquirePoll::MustOpen));
    let g2 = GetConnection::new(&mut core);
    assert!(matches!(g2.poll_step(&mut core, 8), AcquirePoll::Pending));

    let (discard, woken) = core.returned(500, false);
    assert_eq!(discard, Some(500));
    assert!(woken.is_empty());
    assert_eq!(core.exchange.outstanding, 0);
    assert_eq!(core.exchange.idle.len(), 0);
}
