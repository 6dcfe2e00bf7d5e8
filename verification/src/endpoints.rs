//! Round-robin distribution of workers across server replicas.
//!
//! An endpoint table is the ordered list of server ports derived from a base
//! port and a replica count: replica `k` listens on `base_port + k`. Worker
//! `i` is assigned replica `i % replica_count`, so load spreads evenly.

use vstd::prelude::*;
use vstd::arithmetic::div_mod::lemma_small_mod;
use crate::decimal::dec_rep;
use crate::decimal::u64_to_string;

verus! {

/// The replica that worker `i` is assigned when `r` replicas exist.
pub open spec fn assigned_replica(i: nat, r: nat) -> nat
    recommends
        r >= 1,
{
    i % r
}

/// Some worker among the first `n` is assigned replica `k`.
pub open spec fn replica_covered(k: nat, n: nat, r: nat) -> bool {
    exists|i: nat| i < n && #[trigger] assigned_replica(i, r) == k
}

/// Assign worker `i` to one of `r` replicas by round robin.
pub fn assign_replica(i: usize, r: usize) -> (k: usize)
    requires
        r >= 1,
    ensures
        k == assigned_replica(i as nat, r as nat),
        k < r,
{
    i % r
}

/// Round robin reaches every replica exactly when there are at least as many
/// workers as replicas: with `n >= r` each replica `k` is taken by worker `k`
/// itself, and with `n < r` replica `n` is taken by nobody.
pub proof fn lemma_round_robin_covers(n: nat, r: nat)
    requires
        r >= 1,
    ensures
        (forall|k: nat| k < r ==> #[trigger] replica_covered(k, n, r)) <==> n >= r,
{
    if n >= r {
        assert forall|k: nat| k < r implies #[trigger] replica_covered(k, n, r) by {
            lemma_small_mod(k, r);
            assert(k < n && assigned_replica(k, r) == k);
        }
    } else {
        if forall|k: nat| k < r ==> #[trigger] replica_covered(k, n, r) {
            assert(replica_covered(n, n, r));
            let i = choose|i: nat| i < n && #[trigger] assigned_replica(i, r) == n;
            lemma_small_mod(i, r);
            assert(false);
        }
    }
}

/// The ordered list of server ports, one per replica, built once from a base
/// port and a replica count and immutable afterwards.
pub struct EndpointTable {
    pub ports: Vec<u16>,
}

impl EndpointTable {
    /// A table is well formed when it lists at least one replica.
    pub open spec fn wf(self) -> bool {
        self.ports@.len() >= 1
    }

    /// Build the table: replica `k` listens on `base_port + k`.
    pub fn build(base_port: u16, replica_count: usize) -> (t: EndpointTable)
        requires
            replica_count >= 1,
            base_port + replica_count - 1 <= u16::MAX,
        ensures
            t.wf(),
            t.ports@.len() == replica_count,
            forall|k: int| 0 <= k < replica_count ==> t.ports@[k] == base_port + k,
    {
        let mut ports: Vec<u16> = Vec::new();
        for k in 0..replica_count
            invariant
                ports@.len() == k,
                forall|j: int| 0 <= j < k ==> ports@[j] == base_port + j,
                base_port + replica_count - 1 <= u16::MAX,
        {
            ports.push(base_port + (k as u16));
        }
        EndpointTable { ports }
    }

    /// Build the table only when the configuration is sound: a replica count
    /// of zero (or a port range past the last port) is a configuration error,
    /// reported before any worker starts.
    pub fn try_build(base_port: u16, replica_count: usize) -> (t: Option<EndpointTable>)
        ensures
            t is Some <==> replica_count >= 1 && base_port + replica_count - 1 <= u16::MAX,
            t matches Some(table) ==> {
                &&& table.wf()
                &&& table.ports@.len() == replica_count
                &&& forall|k: int| 0 <= k < replica_count ==> table.ports@[k] == base_port + k
            },
    {
        if replica_count >= 1 && replica_count - 1 <= (u16::MAX - base_port) as usize {
            Some(EndpointTable::build(base_port, replica_count))
        } else {
            None
        }
    }

    /// The port worker `i` connects to: that of its round-robin replica.
    pub fn worker_port(&self, i: usize) -> (port: u16)
        requires
            self.wf(),
        ensures
            port == self.ports@[assigned_replica(i as nat, self.ports@.len() as nat) as int],
    {
        let k = assign_replica(i, self.ports.len());
        self.ports[k]
    }
}

/// The exact text of the URI for a host and port.
pub open spec fn endpoint_uri_of(host: Seq<char>, port: nat) -> Seq<char> {
    "http://"@ + host + ":"@ + dec_rep(port)
}

/// Render the URI a worker dials for a given host and port.
pub fn endpoint_uri(host: &str, port: u16) -> (uri: String)
    ensures
        uri@ == endpoint_uri_of(host@, port as nat),
{
    let mut uri = String::from_str("http://");
    uri.append(host);
    uri.append(":");
    uri.append(u64_to_string(port as u64).as_str());
    uri
}

} // verus!
