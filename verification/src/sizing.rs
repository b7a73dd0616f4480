//! How the logical processors of the machine are shared out among the HTTP
//! acceptors, the database workers and the token workers.

use vstd::prelude::*;

verus! {

/// The number of workers of each of the three pools.
#[derive(Clone, Copy, Debug, PartialEq, Eq, Structural)]
pub struct WorkerAllocation {
    pub server_workers: usize,
    pub db_workers: usize,
    pub auth_workers: usize,
}

/// A pool never has fewer than one worker.
pub open spec fn at_least_one(n: int) -> int {
    if n < 1 {
        1
    } else {
        n
    }
}

/// Half of the processors, rounded down, go to the HTTP layer.
pub open spec fn server_share(cpus: int) -> int {
    at_least_one(cpus / 2)
}

/// What the HTTP layer leaves for the two blocking pools.
pub open spec fn remaining_share(cpus: int) -> int {
    cpus - server_share(cpus)
}

/// Seven tenths of the remainder, rounded down, go to the database.
pub open spec fn db_share(cpus: int) -> int {
    at_least_one((remaining_share(cpus) * 7) / 10)
}

/// The token workers get what is left after the database.
pub open spec fn auth_share(cpus: int) -> int {
    at_least_one(remaining_share(cpus) - db_share(cpus))
}

/// The number of logical processors that `num_cpus::get` reports. Its
/// documentation promises a count of at least one and nothing else; the count
/// depends on the machine and on the limits set for the process.
#[verifier::external_body]
fn logical_cpus() -> (n: usize)
    ensures
        n >= 1,
{
    num_cpus::get()
}

impl WorkerAllocation {
    /// The split for a machine with `cpu_count` logical processors.
    pub fn for_cpu_count(cpu_count: usize) -> (w: WorkerAllocation)
        ensures
            w.server_workers == server_share(cpu_count as int),
            w.db_workers == db_share(cpu_count as int),
            w.auth_workers == auth_share(cpu_count as int),
            w.server_workers >= 1 && w.db_workers >= 1 && w.auth_workers >= 1,
            cpu_count >= 3 ==> w.server_workers + w.db_workers + w.auth_workers == cpu_count,
    {
        let half: usize = cpu_count / 2;
        let server: usize = if half < 1 { 1 } else { half };
        let remaining: usize = if cpu_count > server { cpu_count - server } else { 0 };
        let tens: usize = remaining / 10;
        let units: usize = remaining % 10;
        let seventy_percent: usize = tens * 7 + (units * 7) / 10;
        assert(seventy_percent == (remaining * 7) / 10);
        let db: usize = if seventy_percent < 1 { 1 } else { seventy_percent };
        let auth: usize = if remaining > db { remaining - db } else { 1 };
        WorkerAllocation { server_workers: server, db_workers: db, auth_workers: auth }
    }

    /// The split for the machine that the process runs on.
    pub fn detect() -> (w: WorkerAllocation)
        ensures
            exists|cpus: int| cpus >= 1 && #[trigger] w.matches_cpu_count(cpus),
    {
        let cpus: usize = logical_cpus();
        let w = WorkerAllocation::for_cpu_count(cpus);
        assert(w.matches_cpu_count(cpus as int));
        w
    }

    /// Whether this is the split for `cpus` logical processors.
    pub open spec fn matches_cpu_count(self, cpus: int) -> bool {
        &&& self.server_workers == server_share(cpus)
        &&& self.db_workers == db_share(cpus)
        &&& self.auth_workers == auth_share(cpus)
    }
}

} // verus!
