//! Hardware topology of the host and the placement of runtime workers on it.

use vstd::prelude::*;

verus! {

/// One NUMA node and its CPUs.
#[derive(Debug)]
pub struct NumaNodeTopology {
    pub node: i32,
    pub cpus: Vec<usize>,
}

/// One GPU and what lies near it.
#[derive(Debug)]
pub struct GpuTopology {
    pub ordinal: usize,
    pub pci_bus_id: Option<String>,
    pub uuid: Option<String>,
    pub numa_node: Option<i32>,
    pub local_cpus: Vec<usize>,
    pub nearest_nics: Vec<String>,
}

/// One network interface.
#[derive(Debug)]
pub struct NicTopology {
    pub name: String,
    pub pci_bus_id: Option<String>,
    pub numa_node: Option<i32>,
    pub local_cpus: Vec<usize>,
}

/// The devices found at runtime startup.
#[derive(Debug)]
pub struct RuntimeTopology {
    pub numa_nodes: Vec<NumaNodeTopology>,
    pub gpus: Vec<GpuTopology>,
    pub nics: Vec<NicTopology>,
    pub fallback_cpus: Vec<usize>,
}

/// Where one runtime worker was placed.
#[derive(Debug)]
pub struct WorkerPlacement {
    pub worker_id: usize,
    pub gpu_ordinal: usize,
    pub numa_node: Option<i32>,
    pub cpus: Vec<usize>,
    pub nics: Vec<String>,
    pub route_cost: u32,
}

/// Outcome of binding a worker's threads to CPUs.
#[derive(Debug)]
pub struct AffinityApplyResult {
    pub label: String,
    pub applied: bool,
    pub requested_cpus: Vec<usize>,
    pub applied_threads: usize,
    pub failed_threads: usize,
    pub reason: String,
}

/// Pages of the process by NUMA node.
#[derive(Debug)]
pub struct NumaMemoryStats {
    pub total_pages: u64,
    pub per_node_pages: Vec<(i32, u64)>,
}

/// Whether `node` is one of the given nodes.
pub open spec fn is_local_node(nodes: Seq<Option<i32>>, node: i32) -> bool {
    nodes.contains(Some(node))
}

/// Pages on the given nodes among the first `n` entries.
pub open spec fn local_pages(pages: Seq<(i32, u64)>, nodes: Seq<Option<i32>>, n: nat) -> nat
    decreases n,
{
    if n == 0 {
        0
    } else {
        local_pages(pages, nodes, (n - 1) as nat) + (if is_local_node(nodes, pages[n - 1].0) {
            pages[n - 1].1 as nat
        } else {
            0
        })
    }
}

fn contains_node(nodes: &[Option<i32>], node: i32) -> (found: bool)
    ensures
        found == is_local_node(nodes@, node),
{
    let mut i: usize = 0;
    while i < nodes.len()
        invariant
            i <= nodes@.len(),
            forall|j: int| 0 <= j < i ==> nodes@[j] != Some(node),
        decreases nodes@.len() - i,
    {
        if let Some(candidate) = nodes[i] {
            if candidate == node {
                assert(nodes@[i as int] == Some(node));
                return true;
            }
        }
        i = i + 1;
    }
    false
}

proof fn lemma_local_pages_grow(pages: Seq<(i32, u64)>, nodes: Seq<Option<i32>>, n: nat, m: nat)
    requires
        n <= m <= pages.len(),
    ensures
        local_pages(pages, nodes, n) <= local_pages(pages, nodes, m),
    decreases m,
{
    if n < m {
        lemma_local_pages_grow(pages, nodes, n, (m - 1) as nat);
    }
}

impl NumaMemoryStats {
    /// Pages on the given nodes.
    pub fn pages_on(&self, nodes: &[Option<i32>]) -> (pages: u64)
        requires
            local_pages(self.per_node_pages@, nodes@, self.per_node_pages@.len()) <= u64::MAX,
        ensures
            pages == local_pages(self.per_node_pages@, nodes@, self.per_node_pages@.len()),
    {
        let mut pages: u64 = 0;
        let mut i: usize = 0;
        while i < self.per_node_pages.len()
            invariant
                i <= self.per_node_pages@.len(),
                pages == local_pages(self.per_node_pages@, nodes@, i as nat),
                local_pages(self.per_node_pages@, nodes@, self.per_node_pages@.len()) <= u64::MAX,
            decreases self.per_node_pages@.len() - i,
        {
            proof {
                lemma_local_pages_grow(
                    self.per_node_pages@,
                    nodes@,
                    (i + 1) as nat,
                    self.per_node_pages@.len(),
                );
            }
            let entry: (i32, u64) = self.per_node_pages[i];
            if contains_node(nodes, entry.0) {
                pages = pages + entry.1;
            }
            i = i + 1;
        }
        pages
    }
}

/// Runtime placement and locality gauges.
#[derive(Debug)]
pub struct RuntimeTopologyMetrics {
    pub numa_nodes: u64,
    pub gpus: u64,
    pub nics: u64,
    pub worker_id: u64,
    pub worker_gpu_ordinal: u64,
    pub worker_numa_node: i64,
    pub worker_cpu_count: u64,
    pub worker_nic_count: u64,
    pub affinity_applied: bool,
    pub affinity_threads: u64,
    pub affinity_failed_threads: u64,
    pub affinity_reason: String,
    pub preprocess_groups: u64,
    pub preprocess_workers: u64,
    pub detokenizer_groups: u64,
    pub detokenizer_workers: u64,
    pub numastat_local_pages: u64,
    pub numastat_remote_pages: u64,
    pub numastat_total_pages: u64,
    pub numastat_nodes: Vec<(i32, u64)>,
    pub h2d_latency_last_us: u64,
    pub h2d_latency_max_us: u64,
    pub h2d_latency_count: u64,
    pub numa_route_local_total: u64,
    pub numa_route_cross_total: u64,
    pub numa_route_unknown_total: u64,
    pub numa_route_cost_last: u64,
    pub numa_migration_total: u64,
    pub numa_rebalance_total: u64,
}

/// Copies a list of page counts.
pub fn copy_pages(pages: &Vec<(i32, u64)>) -> (out: Vec<(i32, u64)>)
    ensures
        out@ == pages@,
{
    let mut out: Vec<(i32, u64)> = Vec::new();
    let mut i: usize = 0;
    while i < pages.len()
        invariant
            i <= pages@.len(),
            out@ == pages@.take(i as int),
        decreases pages@.len() - i,
    {
        out.push(pages[i]);
        i = i + 1;
        assert(out@ =~= pages@.take(i as int));
    }
    assert(pages@.take(i as int) =~= pages@);
    out
}

impl RuntimeTopologyMetrics {
    /// The same gauges: all fields agree.
    pub open spec fn agrees(self, other: RuntimeTopologyMetrics) -> bool {
        &&& self == (RuntimeTopologyMetrics {
            affinity_reason: self.affinity_reason,
            numastat_nodes: self.numastat_nodes,
            ..other
        })
        &&& self.affinity_reason@ == other.affinity_reason@
        &&& self.numastat_nodes@ == other.numastat_nodes@
    }

    /// All gauges at zero.
    pub open spec fn is_zero(self) -> bool {
        &&& self == (RuntimeTopologyMetrics {
            numa_nodes: 0,
            gpus: 0,
            nics: 0,
            worker_id: 0,
            worker_gpu_ordinal: 0,
            worker_numa_node: 0,
            worker_cpu_count: 0,
            worker_nic_count: 0,
            affinity_applied: false,
            affinity_threads: 0,
            affinity_failed_threads: 0,
            affinity_reason: self.affinity_reason,
            preprocess_groups: 0,
            preprocess_workers: 0,
            detokenizer_groups: 0,
            detokenizer_workers: 0,
            numastat_local_pages: 0,
            numastat_remote_pages: 0,
            numastat_total_pages: 0,
            numastat_nodes: self.numastat_nodes,
            h2d_latency_last_us: 0,
            h2d_latency_max_us: 0,
            h2d_latency_count: 0,
            numa_route_local_total: 0,
            numa_route_cross_total: 0,
            numa_route_unknown_total: 0,
            numa_route_cost_last: 0,
            numa_migration_total: 0,
            numa_rebalance_total: 0,
        })
        &&& self.affinity_reason@ == Seq::<char>::empty()
        &&& self.numastat_nodes@ == Seq::<(i32, u64)>::empty()
    }
}

impl Default for RuntimeTopologyMetrics {
    fn default() -> (m: RuntimeTopologyMetrics)
        ensures
            m.is_zero(),
    {
        RuntimeTopologyMetrics {
            numa_nodes: 0,
            gpus: 0,
            nics: 0,
            worker_id: 0,
            worker_gpu_ordinal: 0,
            worker_numa_node: 0,
            worker_cpu_count: 0,
            worker_nic_count: 0,
            affinity_applied: false,
            affinity_threads: 0,
            affinity_failed_threads: 0,
            affinity_reason: String::new(),
            preprocess_groups: 0,
            preprocess_workers: 0,
            detokenizer_groups: 0,
            detokenizer_workers: 0,
            numastat_local_pages: 0,
            numastat_remote_pages: 0,
            numastat_total_pages: 0,
            numastat_nodes: Vec::new(),
            h2d_latency_last_us: 0,
            h2d_latency_max_us: 0,
            h2d_latency_count: 0,
            numa_route_local_total: 0,
            numa_route_cross_total: 0,
            numa_route_unknown_total: 0,
            numa_route_cost_last: 0,
            numa_migration_total: 0,
            numa_rebalance_total: 0,
        }
    }
}

impl Clone for RuntimeTopologyMetrics {
    fn clone(&self) -> (m: RuntimeTopologyMetrics)
        ensures
            m.agrees(*self),
    {
        RuntimeTopologyMetrics {
            numa_nodes: self.numa_nodes,
            gpus: self.gpus,
            nics: self.nics,
            worker_id: self.worker_id,
            worker_gpu_ordinal: self.worker_gpu_ordinal,
            worker_numa_node: self.worker_numa_node,
            worker_cpu_count: self.worker_cpu_count,
            worker_nic_count: self.worker_nic_count,
            affinity_applied: self.affinity_applied,
            affinity_threads: self.affinity_threads,
            affinity_failed_threads: self.affinity_failed_threads,
            affinity_reason: self.affinity_reason.clone(),
            preprocess_groups: self.preprocess_groups,
            preprocess_workers: self.preprocess_workers,
            detokenizer_groups: self.detokenizer_groups,
            detokenizer_workers: self.detokenizer_workers,
            numastat_local_pages: self.numastat_local_pages,
            numastat_remote_pages: self.numastat_remote_pages,
            numastat_total_pages: self.numastat_total_pages,
            numastat_nodes: copy_pages(&self.numastat_nodes),
            h2d_latency_last_us: self.h2d_latency_last_us,
            h2d_latency_max_us: self.h2d_latency_max_us,
            h2d_latency_count: self.h2d_latency_count,
            numa_route_local_total: self.numa_route_local_total,
            numa_route_cross_total: self.numa_route_cross_total,
            numa_route_unknown_total: self.numa_route_unknown_total,
            numa_route_cost_last: self.numa_route_cost_last,
            numa_migration_total: self.numa_migration_total,
            numa_rebalance_total: self.numa_rebalance_total,
        }
    }
}

/// Pages are counted node by node: with nodes given twice or in another order the
/// same pages are counted, without nodes none, and a node's own pages exactly where
/// it is given.
pub proof fn law_pages_are_counted_by_node(
    pages: Seq<(i32, u64)>,
    nodes: Seq<Option<i32>>,
    others: Seq<Option<i32>>,
    n: nat,
)
    requires
        n <= pages.len(),
    ensures
        (forall|node: i32| nodes.contains(Some(node)) <==> others.contains(Some(node)))
            ==> local_pages(pages, nodes, n) == local_pages(pages, others, n),
        (forall|node: i32| !nodes.contains(Some(node))) ==> local_pages(pages, nodes, n) == 0,
        forall|i: int|
            0 <= i < n && nodes.contains(Some((#[trigger] pages[i]).0)) ==> local_pages(
                pages,
                nodes,
                n,
            ) >= pages[i].1,
        n > 0 ==> local_pages(pages, nodes, n) - local_pages(pages, nodes, (n - 1) as nat) == (
        if nodes.contains(Some(pages[n - 1].0)) {
            pages[n - 1].1 as int
        } else {
            0
        }),
    decreases n,
{
    if n > 0 {
        law_pages_are_counted_by_node(pages, nodes, others, (n - 1) as nat);
    }
}

/// Gauges at zero are zero one by one, and nothing is listed or said.
pub proof fn law_gauges_at_zero_are_zero(m: RuntimeTopologyMetrics)
    requires
        m.is_zero(),
    ensures
        m.numa_nodes == 0,
        m.gpus == 0,
        m.nics == 0,
        m.worker_id == 0,
        m.worker_gpu_ordinal == 0,
        m.worker_numa_node == 0,
        m.worker_cpu_count == 0,
        m.worker_nic_count == 0,
        m.affinity_threads == 0,
        m.affinity_failed_threads == 0,
        m.preprocess_groups == 0,
        m.preprocess_workers == 0,
        m.detokenizer_groups == 0,
        m.detokenizer_workers == 0,
        m.numastat_local_pages == 0,
        m.numastat_remote_pages == 0,
        m.numastat_total_pages == 0,
        m.h2d_latency_last_us == 0,
        m.h2d_latency_max_us == 0,
        m.h2d_latency_count == 0,
        m.numa_route_local_total == 0,
        m.numa_route_cross_total == 0,
        m.numa_route_unknown_total == 0,
        m.numa_route_cost_last == 0,
        m.numa_migration_total == 0,
        m.numa_rebalance_total == 0,
        !m.affinity_applied,
        m.affinity_reason@.len() == 0,
        m.numastat_nodes@.len() == 0,
{
}

} // verus!
