use conn_pool::acquire::{AcquirePoll, GetConnection};
use conn_pool::disconnect::DisconnectPool;
use conn_pool::error::Error;
use conn_pool::pool::PoolCore;

#[test]
fn idle_connection_is_granted_newest_first() {
    let mut core: PoolCore<u64, u64> = PoolCore::new(4);
    core.exchange.put_idle(100);
    core.exchange.put_idle(200);
    let g = GetConnection::new(&mut core);
    match g.poll_step(&mut core, 7) {
        AcquirePoll::Granted(c) => assert_eq!(c, 200),
        _ => panic!("expected a granted connection"),
    }
    assert_eq!(core.exchange.outstanding, 1);
    assert_eq!(core.exchange.idle.len(), 1);
}

#[test]
fn empty_pool_with_capacity_asks_to_open() {
    let mut core: PoolCore<u64, u64> = PoolCore::new(1);
    let g = GetConnection::new(&mut core);
    assert!(matches!(g.poll_step(&mut core, 7), AcquirePoll::MustOpen));
    assert_eq!(core.exchange.outstanding, 1);
}

#[test]
fn open_failure_releases_the_capacity_claim() {
    let mut core: PoolCore<u64, u64> = PoolCore::new(1);
    let g = GetConnection::new(&mut core);
    assert!(matches!(g.poll_step(&mut core, 7), AcquirePoll::MustOpen));
    let e = g.note_open_failed(&mut core);
    assert_eq!(e, Error::ConnectionFactory);
    assert_eq!(core.exchange.outstanding, 0);
}

#[test]
fn full_pool_registers_the_waker_and_waits() {
    let mut core: PoolCore<u64, u64> = PoolCore::new(1);
    let g1 = GetConnection::new(&mut core);
    assert!(matches!(g1.poll_step(&mut core, 7), AcquirePoll::MustOpen));
    let g2 = GetConnection::new(&mut core);
    assert!(matches!(g2.poll_step(&mut core, 8), AcquirePoll::Pending));
    assert_eq!(core.exchange.waiting.len(), 1);
}

#[test]
fn repolling_replaces_the_previous_registration() {
    let mut core: PoolCore<u64, u64> = PoolCore::new(1);
    let g1 = GetConnection::new(&mut core);
    assert!(matches!(g1.poll_step(&mut core, 7), AcquirePoll::MustOpen));
    let g2 = GetConnection::new(&mut core);
    assert!(matches!(g2.poll_step(&mut core, 8), AcquirePoll::Pending));
    assert!(matches!(g2.poll_step(&mut core, 9), AcquirePoll::Pending));
    assert_eq!(core.exchange.waiting.len(), 1);
}

#[test]
fn ids_are_assigned_monotonically() {
    let mut core: PoolCore<u64, u64> = PoolCore::new(1);
    let g1 = GetConnection::new(&mut core);
    let g2 = GetConnection::new(&mut core);
    assert_eq!(g1.id, 0);
    assert_eq!(g2.id, 1);
}

#[test]
fn cancelled_acquire_leaves_no_queue_entry() {
    let mut core: PoolCore<u64, u64> = PoolCore::new(1);
    let g1 = GetConnection::new(&mut core);
    assert!(matches!(g1.poll_step(&mut core, 7), AcquirePoll::MustOpen));
    let before = core.exchange.waiting.len();
    let g2 = GetConnection::new(&mut core);
    assert!(matches!(g2.poll_step(&mut core, 8), AcquirePoll::Pending));
    g2.cancel(&mut core);
    assert_eq!(core.exchange.waiting.len(), before);
}

#[test]
fn acquire_after_disconnect_fails_with_pool_closed() {
    let mut core: PoolCore<u64, u64> = PoolCore::new(4);
    core.exchange.put_idle(100);
    let d = DisconnectPool::new();
    let _ = d.poll_step(&mut core, 1);
    let g = GetConnection::new(&mut core);
    match g.poll_step(&mut core, 7) {
        AcquirePoll::Rejected(e) => assert_eq!(e, Error::PoolClosed),
        _ => panic!("expected rejection after disconnect"),
    }
}
