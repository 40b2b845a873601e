//! A bounded pool of upstream clients: leases, round-robin selection and the
//! statistics that account for every lease.

use vstd::prelude::*;
use vstd::string::*;
use crate::bedrock::config::BedrockConfig;
use crate::bedrock::error::BedrockError;

verus! {

/// Pool statistics
#[derive(Debug, Clone, Copy, PartialEq, Eq, Structural)]
pub struct PoolStats {
    /// Total number of clients in the pool
    pub total_clients: usize,
    /// Number of clients currently in use
    pub active_clients: usize,
    /// Number of clients available for use
    pub available_clients: usize,
    /// Total number of client acquisitions
    pub total_acquisitions: u64,
    /// Total number of client releases
    pub total_releases: u64,
    /// Total time spent waiting for clients (ms)
    pub total_wait_time_ms: u64,
    /// Number of timeouts waiting for clients
    pub acquisition_timeouts: u64,
}

impl PoolStats {
    /// Every client is either in use or available, and the clients in use are
    /// the leases that were granted and not yet returned.
    pub open spec fn balanced(self) -> bool {
        &&& self.active_clients + self.available_clients == self.total_clients
        &&& self.total_releases + self.active_clients == self.total_acquisitions
    }

    /// The statistics of a fresh pool of `size` clients.
    pub open spec fn fresh(size: usize) -> PoolStats {
        PoolStats {
            total_clients: size,
            active_clients: 0,
            available_clients: size,
            total_acquisitions: 0,
            total_releases: 0,
            total_wait_time_ms: 0,
            acquisition_timeouts: 0,
        }
    }

    /// The statistics after a lease was granted for which the caller waited
    /// `waited_ms`.
    pub open spec fn after_acquire(self, waited_ms: u64) -> PoolStats {
        PoolStats {
            active_clients: (self.active_clients + 1) as usize,
            available_clients: (self.available_clients - 1) as usize,
            total_acquisitions: (self.total_acquisitions + 1) as u64,
            total_wait_time_ms: (self.total_wait_time_ms + waited_ms) as u64,
            ..self
        }
    }

    /// The statistics after a lease was returned.
    pub open spec fn after_release(self) -> PoolStats {
        PoolStats {
            active_clients: (self.active_clients - 1) as usize,
            available_clients: (self.available_clients + 1) as usize,
            total_releases: (self.total_releases + 1) as u64,
            ..self
        }
    }

    /// The statistics after a caller gave up waiting for a lease.
    pub open spec fn after_timeout(self) -> PoolStats {
        PoolStats { acquisition_timeouts: (self.acquisition_timeouts + 1) as u64, ..self }
    }

    /// The client that the next lease is for: leases go round the clients in turn.
    pub open spec fn next_client(self) -> int {
        self.total_acquisitions as int % self.total_clients as int
    }
}

impl Default for PoolStats {
    fn default() -> (s: Self)
        ensures
            s == PoolStats::fresh(0),
    {
        PoolStats {
            total_clients: 0,
            active_clients: 0,
            available_clients: 0,
            total_acquisitions: 0,
            total_releases: 0,
            total_wait_time_ms: 0,
            acquisition_timeouts: 0,
        }
    }
}

/// Granting a lease while a client is available keeps the statistics balanced.
pub proof fn lemma_acquire_keeps_balance(s: PoolStats, waited_ms: u64)
    requires
        s.balanced(),
        s.available_clients > 0,
        s.total_acquisitions < u64::MAX,
        s.total_wait_time_ms + waited_ms <= u64::MAX,
    ensures
        s.after_acquire(waited_ms).balanced(),
        s.after_acquire(waited_ms).active_clients <= s.total_clients,
{
}

/// Returning a lease while one is out keeps the statistics balanced.
pub proof fn lemma_release_keeps_balance(s: PoolStats)
    requires
        s.balanced(),
        s.active_clients > 0,
    ensures
        s.after_release().balanced(),
{
}

/// Once every lease that was granted has been returned, no client is in use
/// and all of them are available.
pub proof fn lemma_settled_pool_is_full(s: PoolStats)
    requires
        s.balanced(),
        s.total_acquisitions == s.total_releases,
    ensures
        s.active_clients == 0,
        s.available_clients == s.total_clients,
{
}

/// Something that happens to a pool.
pub enum PoolOp {
    /// A lease is granted to a caller who waited this long
    Acquire {
        /// The wait in milliseconds
        waited_ms: u64,
    },
    /// A lease is returned
    Release,
}

impl PoolStats {
    /// Whether the operation can happen: a lease is granted only while a
    /// client is available, and returned only while one is out.
    pub open spec fn admits(self, op: PoolOp) -> bool {
        match op {
            PoolOp::Acquire { waited_ms } => self.available_clients > 0
                && self.total_acquisitions < u64::MAX && self.total_wait_time_ms + waited_ms
                <= u64::MAX,
            PoolOp::Release => self.active_clients > 0,
        }
    }

    /// The statistics after the operation.
    pub open spec fn after(self, op: PoolOp) -> PoolStats {
        match op {
            PoolOp::Acquire { waited_ms } => self.after_acquire(waited_ms),
            PoolOp::Release => self.after_release(),
        }
    }

    /// The statistics after the operations, one after another.
    pub open spec fn after_all(self, ops: Seq<PoolOp>) -> PoolStats
        decreases ops.len(),
    {
        if ops.len() == 0 {
            self
        } else {
            self.after_all(ops.drop_last()).after(ops.last())
        }
    }

    /// Whether the operations can happen one after another.
    pub open spec fn admits_all(self, ops: Seq<PoolOp>) -> bool
        decreases ops.len(),
    {
        ops.len() == 0 || (self.admits_all(ops.drop_last()) && self.after_all(
            ops.drop_last(),
        ).admits(ops.last()))
    }
}

/// Whatever leases are granted and returned, in whatever order: the
/// statistics stay balanced, the pool keeps its size, and the leases that are
/// out never exceed it. Once every lease is back, every client is available.
pub proof fn lemma_pool_invariant(s: PoolStats, ops: Seq<PoolOp>)
    requires
        s.balanced(),
        s.admits_all(ops),
    ensures
        s.after_all(ops).balanced(),
        s.after_all(ops).total_clients == s.total_clients,
        s.after_all(ops).active_clients <= s.total_clients,
        s.after_all(ops).total_acquisitions == s.after_all(ops).total_releases ==> s.after_all(
            ops,
        ).available_clients == s.total_clients,
    decreases ops.len(),
{
    if ops.len() > 0 {
        lemma_pool_invariant(s, ops.drop_last());
    }
}

/// A client borrowed from the pool: the position of the client that the lease
/// is for. A lease is made by the pool alone and is given back by value, so it
/// is returned at most once.
#[derive(Debug)]
pub struct PooledClient {
    client_index: usize,
}

impl PooledClient {
    /// The position of the leased client in the pool.
    pub closed spec fn spec_client(&self) -> usize {
        self.client_index
    }

    /// Get the position of the underlying client in the pool
    pub fn client(&self) -> (i: usize)
        ensures
            i == self.spec_client(),
    {
        self.client_index
    }
}

/// Connection pool for managing Bedrock clients: the ledger of a pool that is
/// used by one caller at a time.
#[derive(Debug)]
pub struct ClientPool {
    config: BedrockConfig,
    stats: PoolStats,
    closed: bool,
}

impl ClientPool {
    #[verifier::type_invariant]
    spec fn inv(self) -> bool {
        &&& self.stats.balanced()
        &&& self.stats.total_clients == self.config.pool_size
        &&& self.config.valid()
    }

    /// The statistics that the pool keeps.
    pub closed spec fn spec_stats(&self) -> PoolStats {
        self.stats
    }

    /// The configuration that the pool was made with.
    pub closed spec fn spec_config(&self) -> BedrockConfig {
        self.config
    }

    /// Whether closing has begun.
    pub closed spec fn spec_closed(&self) -> bool {
        self.closed
    }

    /// Whether a lease can be granted now.
    pub open spec fn can_grant(&self) -> bool {
        !self.spec_closed() && self.spec_stats().available_clients > 0
    }

    /// Create a new client pool. A configuration with an option out of range
    /// is refused.
    pub fn new(config: BedrockConfig) -> (r: Result<Self, BedrockError>)
        ensures
            r is Ok <==> config.valid(),
            r matches Ok(pool) ==> pool.spec_config() == config && pool.spec_stats()
                == PoolStats::fresh(config.pool_size) && !pool.spec_closed(),
            r matches Err(e) ==> e is Configuration,
    {
        match config.validate() {
            Err(e) => Err(e),
            Ok(()) => {
                let stats = PoolStats {
                    total_clients: config.pool_size,
                    active_clients: 0,
                    available_clients: config.pool_size,
                    total_acquisitions: 0,
                    total_releases: 0,
                    total_wait_time_ms: 0,
                    acquisition_timeouts: 0,
                };
                Ok(ClientPool { config, stats, closed: false })
            },
        }
    }

    /// Grant a lease and account for it.
    fn grant(&mut self, waited_ms: u64) -> (lease: PooledClient)
        requires
            old(self).can_grant(),
            old(self).spec_stats().total_acquisitions < u64::MAX,
            old(self).spec_stats().total_wait_time_ms + waited_ms <= u64::MAX,
        ensures
            lease.spec_client() == old(self).spec_stats().next_client(),
            lease.spec_client() < old(self).spec_stats().total_clients,
            final(self).spec_stats() == old(self).spec_stats().after_acquire(waited_ms),
            final(self).spec_config() == old(self).spec_config(),
            final(self).spec_closed() == old(self).spec_closed(),
    {
        proof {
            use_type_invariant(&*self);
        }
        let size = self.stats.total_clients;
        // Select a client (simple round-robin based on acquisition count)
        let client_index = (self.stats.total_acquisitions % (size as u64)) as usize;
        let stats = PoolStats {
            total_clients: self.stats.total_clients,
            active_clients: self.stats.active_clients + 1,
            available_clients: self.stats.available_clients - 1,
            total_acquisitions: self.stats.total_acquisitions + 1,
            total_releases: self.stats.total_releases,
            total_wait_time_ms: self.stats.total_wait_time_ms + waited_ms,
            acquisition_timeouts: self.stats.acquisition_timeouts,
        };
        self.stats = stats;
        PooledClient { client_index }
    }

    /// Acquire a client from the pool after having waited `waited_ms` for it.
    /// Where none is available the attempt counts as a timeout and fails with
    /// `PoolExhausted`, and so does every attempt once closing has begun.
    pub fn acquire(&mut self, waited_ms: u64) -> (r: Result<PooledClient, BedrockError>)
        requires
            old(self).spec_stats().total_acquisitions < u64::MAX,
            old(self).spec_stats().total_wait_time_ms + waited_ms <= u64::MAX,
            old(self).spec_stats().acquisition_timeouts < u64::MAX,
        ensures
            r is Ok <==> old(self).can_grant(),
            r matches Ok(lease) ==> lease.spec_client() == old(self).spec_stats().next_client()
                && lease.spec_client() < old(self).spec_stats().total_clients
                && final(self).spec_stats() == old(self).spec_stats().after_acquire(waited_ms),
            r matches Err(e) ==> e is PoolExhausted && e.spec_detail() == (if old(self).spec_closed() {
                "pool is closed"@
            } else {
                "no client available"@
            }) && final(self).spec_stats() == (if old(self).spec_closed() {
                old(self).spec_stats()
            } else {
                old(self).spec_stats().after_timeout()
            }),
            final(self).spec_config() == old(self).spec_config(),
            final(self).spec_closed() == old(self).spec_closed(),
            old(self).spec_stats().balanced(),
            final(self).spec_stats().balanced(),
    {
        proof {
            use_type_invariant(&*self);
        }
        if self.closed {
            return Err(BedrockError::PoolExhausted(String::from_str("pool is closed")));
        }
        if self.stats.available_clients == 0 {
            let stats = PoolStats {
                total_clients: self.stats.total_clients,
                active_clients: self.stats.active_clients,
                available_clients: self.stats.available_clients,
                total_acquisitions: self.stats.total_acquisitions,
                total_releases: self.stats.total_releases,
                total_wait_time_ms: self.stats.total_wait_time_ms,
                acquisition_timeouts: self.stats.acquisition_timeouts + 1,
            };
            self.stats = stats;
            return Err(BedrockError::PoolExhausted(String::from_str("no client available")));
        }
        Ok(self.grant(waited_ms))
    }

    /// Try to acquire a client without waiting. Nothing is added to the wait
    /// time, and a refusal changes nothing.
    pub fn try_acquire(&mut self) -> (r: Option<PooledClient>)
        requires
            old(self).spec_stats().total_acquisitions < u64::MAX,
        ensures
            r is Some <==> old(self).can_grant(),
            r matches Some(lease) ==> lease.spec_client() == old(self).spec_stats().next_client()
                && lease.spec_client() < old(self).spec_stats().total_clients
                && final(self).spec_stats() == old(self).spec_stats().after_acquire(0),
            r is None ==> final(self).spec_stats() == old(self).spec_stats(),
            final(self).spec_config() == old(self).spec_config(),
            final(self).spec_closed() == old(self).spec_closed(),
            old(self).spec_stats().balanced(),
            final(self).spec_stats().balanced(),
    {
        proof {
            use_type_invariant(&*self);
        }
        if self.closed || self.stats.available_clients == 0 {
            None
        } else {
            Some(self.grant(0))
        }
    }

    /// Return a lease to the pool.
    pub fn release_client(&mut self, lease: PooledClient)
        requires
            old(self).spec_stats().active_clients > 0,
        ensures
            final(self).spec_stats() == old(self).spec_stats().after_release(),
            final(self).spec_config() == old(self).spec_config(),
            final(self).spec_closed() == old(self).spec_closed(),
            old(self).spec_stats().balanced(),
            final(self).spec_stats().balanced(),
    {
        proof {
            use_type_invariant(&*self);
        }
        let stats = PoolStats {
            total_clients: self.stats.total_clients,
            active_clients: self.stats.active_clients - 1,
            available_clients: self.stats.available_clients + 1,
            total_acquisitions: self.stats.total_acquisitions,
            total_releases: self.stats.total_releases + 1,
            total_wait_time_ms: self.stats.total_wait_time_ms,
            acquisition_timeouts: self.stats.acquisition_timeouts,
        };
        self.stats = stats;
    }

    /// Get pool statistics. They are balanced at every moment, and the clients
    /// in use never exceed the size of the pool.
    pub fn stats(&self) -> (s: PoolStats)
        ensures
            s == self.spec_stats(),
            s.balanced(),
            s.active_clients <= s.total_clients,
            s.total_clients == self.spec_config().pool_size,
            1 <= s.total_clients <= 100,
    {
        proof {
            use_type_invariant(self);
        }
        self.stats
    }

    /// Get pool configuration
    pub fn config(&self) -> (c: &BedrockConfig)
        ensures
            *c == self.spec_config(),
            c.valid(),
    {
        proof {
            use_type_invariant(self);
        }
        &self.config
    }

    /// Get the number of available clients
    pub fn available(&self) -> (n: usize)
        ensures
            n == self.spec_stats().available_clients,
    {
        self.stats.available_clients
    }

    /// Check if the pool is healthy: at least one client is available
    pub fn is_healthy(&self) -> (b: bool)
        ensures
            b == (self.spec_stats().available_clients > 0),
    {
        self.available() > 0
    }

    /// Whether closing has begun.
    pub fn is_closed(&self) -> (b: bool)
        ensures
            b == self.spec_closed(),
    {
        self.closed
    }

    /// Whether every lease has been returned.
    pub fn is_drained(&self) -> (b: bool)
        ensures
            b == (self.spec_stats().active_clients == 0),
            b == (self.spec_stats().available_clients == self.spec_stats().total_clients),
    {
        proof {
            use_type_invariant(self);
        }
        self.stats.active_clients == 0
    }

    /// Begin closing the pool: from now on no lease is granted. Returns whether
    /// every lease has been returned already; where it has not, the caller
    /// waits until `is_drained` says so.
    pub fn close(&mut self) -> (drained: bool)
        ensures
            final(self).spec_closed(),
            final(self).spec_stats() == old(self).spec_stats(),
            final(self).spec_config() == old(self).spec_config(),
            drained == (old(self).spec_stats().active_clients == 0),
    {
        proof {
            use_type_invariant(&*self);
        }
        self.closed = true;
        self.stats.active_clients == 0
    }
}

/// What a health check found.
#[derive(Debug, Clone, Copy, PartialEq, Eq, Structural)]
pub struct PoolHealth {
    /// Fewer than a tenth of the clients are available
    pub low_availability: bool,
    /// Callers have given up waiting for a client
    pub has_timeouts: bool,
}

/// Pool health monitor
#[derive(Debug)]
pub struct PoolHealthMonitor {
    check_interval_ms: u64,
}

impl PoolHealthMonitor {
    /// The time between two checks, in milliseconds.
    pub closed spec fn spec_check_interval_ms(&self) -> u64 {
        self.check_interval_ms
    }

    /// What a check of the given statistics finds.
    pub open spec fn health_of(stats: PoolStats) -> PoolHealth {
        PoolHealth {
            low_availability: stats.available_clients * 10 < stats.total_clients,
            has_timeouts: stats.acquisition_timeouts > 0,
        }
    }

    /// Create a new health monitor
    pub fn new(check_interval_ms: u64) -> (m: Self)
        ensures
            m.spec_check_interval_ms() == check_interval_ms,
    {
        PoolHealthMonitor { check_interval_ms }
    }

    /// The time between two checks, in milliseconds.
    pub fn check_interval_ms(&self) -> (ms: u64)
        ensures
            ms == self.spec_check_interval_ms(),
    {
        self.check_interval_ms
    }

    /// Check the statistics of a pool once.
    pub fn check(&self, stats: &PoolStats) -> (h: PoolHealth)
        ensures
            h == Self::health_of(*stats),
    {
        PoolHealth {
            low_availability: (stats.available_clients as u128) * 10 < stats.total_clients as u128,
            has_timeouts: stats.acquisition_timeouts > 0,
        }
    }
}

} // verus!
