use universal_bot::bedrock::config::BedrockConfig;
use universal_bot::bedrock::error::BedrockError;
use universal_bot::bedrock::pool::{ClientPool, PoolHealthMonitor, PoolStats};

#[test]
fn test_pool_stats() {
    let stats = PoolStats {
        total_clients: 5,
        active_clients: 2,
        available_clients: 3,
        total_acquisitions: 10,
        total_releases: 8,
        total_wait_time_ms: 500,
        acquisition_timeouts: 1,
    };

    assert_eq!(stats.total_clients, 5);
    assert_eq!(stats.active_clients, 2);
    assert_eq!(stats.available_clients, 3);
}

fn pool_of(size: usize) -> ClientPool {
    match ClientPool::new(BedrockConfig::default().with_pool_size(size)) {
        Ok(pool) => pool,
        Err(e) => panic!("{}", e.to_string()),
    }
}

#[test]
fn pool_creation_follows_the_configuration() {
    let pool = pool_of(2);
    assert_eq!(pool.available(), 2);
    assert!(pool.is_healthy());
    assert_eq!(pool.config().pool_size, 2);
    let stats = pool.stats();
    assert_eq!(stats.total_clients, 2);
    assert_eq!(stats.available_clients, 2);
    assert_eq!(stats.active_clients, 0);
    assert_eq!(PoolStats::default().total_clients, 0);
    let refused = ClientPool::new(BedrockConfig::default().with_pool_size(0));
    assert!(matches!(refused, Err(BedrockError::Configuration(_))));
    let refused = ClientPool::new(BedrockConfig::default().with_pool_size(101));
    assert!(matches!(refused, Err(BedrockError::Configuration(_))));
}

#[test]
fn leases_go_round_the_clients_and_keep_the_balance() {
    let mut pool = pool_of(3);
    let a = pool.acquire(5).unwrap();
    let b = pool.try_acquire().unwrap();
    let c = pool.acquire(7).unwrap();
    assert_eq!((a.client(), b.client(), c.client()), (0, 1, 2));
    let s = pool.stats();
    assert_eq!(s.active_clients, 3);
    assert_eq!(s.available_clients, 0);
    assert_eq!(s.total_acquisitions, 3);
    assert_eq!(s.total_wait_time_ms, 12);
    assert!(!pool.is_healthy());
    // Beyond capacity nothing is granted.
    assert!(pool.try_acquire().is_none());
    assert_eq!(pool.stats(), s);
    assert!(matches!(pool.acquire(1), Err(BedrockError::PoolExhausted(_))));
    assert_eq!(pool.stats().acquisition_timeouts, 1);
    assert_eq!(pool.stats().total_wait_time_ms, 12);
    pool.release_client(b);
    let d = pool.try_acquire().unwrap();
    assert_eq!(d.client(), 0);
    pool.release_client(a);
    pool.release_client(c);
    pool.release_client(d);
    let s = pool.stats();
    assert_eq!(s.active_clients + s.available_clients, s.total_clients);
    assert_eq!(s.active_clients, 0);
    assert_eq!(s.available_clients, 3);
    assert_eq!(s.total_acquisitions, s.total_releases);
    assert!(pool.is_drained());
}

#[test]
fn a_pool_of_one_serves_one_caller_at_a_time() {
    let mut pool = pool_of(1);
    let first = pool.acquire(0).unwrap();
    // The second caller gets nothing until the first lease is back.
    assert!(pool.try_acquire().is_none());
    assert!(pool.try_acquire().is_none());
    pool.release_client(first);
    let second = pool.try_acquire();
    assert!(second.is_some());
    pool.release_client(second.unwrap());
    assert_eq!(pool.stats().total_acquisitions, 2);
    assert_eq!(pool.stats().total_releases, 2);
}

#[test]
fn a_closing_pool_grants_nothing_and_drains() {
    let mut pool = pool_of(2);
    let lease = pool.acquire(0).unwrap();
    assert!(!pool.is_closed());
    assert!(!pool.close());
    assert!(pool.is_closed());
    assert!(!pool.is_drained());
    assert!(pool.try_acquire().is_none());
    assert!(matches!(pool.acquire(0), Err(BedrockError::PoolExhausted(_))));
    assert_eq!(pool.stats().acquisition_timeouts, 0);
    pool.release_client(lease);
    assert!(pool.is_drained());
    assert!(pool.close());
}

#[test]
fn health_checks_flag_low_availability_and_timeouts() {
    let monitor = PoolHealthMonitor::new(1000);
    assert_eq!(monitor.check_interval_ms(), 1000);
    let mut stats = PoolStats {
        total_clients: 20,
        active_clients: 19,
        available_clients: 1,
        total_acquisitions: 19,
        total_releases: 0,
        total_wait_time_ms: 0,
        acquisition_timeouts: 0,
    };
    let h = monitor.check(&stats);
    assert!(h.low_availability);
    assert!(!h.has_timeouts);
    stats.available_clients = 2;
    stats.active_clients = 18;
    stats.acquisition_timeouts = 3;
    let h = monitor.check(&stats);
    assert!(!h.low_availability);
    assert!(h.has_timeouts);
}

#[test]
fn test_pool_creation() {
    let config = BedrockConfig::default().with_pool_size(2);
    let pool = ClientPool::new(config).ok().unwrap();
    assert_eq!(pool.available(), 2);
    assert!(pool.is_healthy());
}
