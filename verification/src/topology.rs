//! CPU topology: decomposing a linear vCPU index into
//! (socket, die, cluster, core, thread) coordinates, plus the online mask.

use vstd::prelude::*;

verus! {


/// The properties reported for one vcpu when the monitor asks where it
/// sits: this machine reports socket, core and thread, and no NUMA node.
#[derive(Copy, Clone, Debug, PartialEq, Eq, Structural)]
pub struct CpuInstanceProperties {
    /// NUMA node of the vcpu; never reported here.
    pub node_id: Option<i64>,
    /// Socket holding the vcpu.
    pub socket_id: Option<i64>,
    /// Core holding the vcpu.
    pub core_id: Option<i64>,
    /// Hardware thread of the vcpu.
    pub thread_id: Option<i64>,
}

/// Topology of the virtual CPUs of one machine.
pub struct CpuTopology {
    /// Number of vcpus in the machine.
    pub nrcpus: u8,
    /// Number of sockets in the machine.
    pub sockets: u8,
    /// Number of dies in one socket.
    pub dies: u8,
    /// Number of clusters in one die.
    pub clusters: u8,
    /// Number of cores in one cluster.
    pub cores: u8,
    /// Number of threads in one core.
    pub threads: u8,
    /// Highest number of vcpus the machine may ever have online.
    pub max_cpus: u8,
    /// One entry per possible vcpu: 1 when online, 0 when offline.
    pub online_mask: Vec<u8>,
}

impl CpuTopology {
    /// All dimensions positive and the online mask sized to `max_cpus`.
    pub open spec fn wf(&self) -> bool {
        &&& self.dies > 0
        &&& self.clusters > 0
        &&& self.cores > 0
        &&& self.threads > 0
        &&& self.online_mask@.len() == self.max_cpus as int
    }

    /// The socket coordinate of vcpu `i`.
    pub open spec fn spec_socket(&self, i: int) -> int {
        i / (self.dies * self.clusters * self.cores * self.threads) as int
    }

    /// The die coordinate of vcpu `i`.
    pub open spec fn spec_die(&self, i: int) -> int {
        (i / (self.clusters * self.cores * self.threads) as int) % self.dies as int
    }

    /// The cluster coordinate of vcpu `i`.
    pub open spec fn spec_cluster(&self, i: int) -> int {
        (i / (self.cores * self.threads) as int) % self.clusters as int
    }

    /// The core coordinate of vcpu `i`.
    pub open spec fn spec_core(&self, i: int) -> int {
        (i / self.threads as int) % self.cores as int
    }

    /// The thread coordinate of vcpu `i`.
    pub open spec fn spec_thread(&self, i: int) -> int {
        i % self.threads as int
    }

    /// Builds a topology whose first `nr_cpus` vcpus are online.
    pub fn new(
        nr_cpus: u8,
        nr_sockets: u8,
        nr_dies: u8,
        nr_clusters: u8,
        nr_cores: u8,
        nr_threads: u8,
        max_cpus: u8,
    ) -> (r: Self)
        requires
            nr_cpus <= max_cpus,
            nr_dies > 0,
            nr_clusters > 0,
            nr_cores > 0,
            nr_threads > 0,
        ensures
            r.wf(),
            r.nrcpus == nr_cpus,
            r.sockets == nr_sockets,
            r.dies == nr_dies,
            r.clusters == nr_clusters,
            r.cores == nr_cores,
            r.threads == nr_threads,
            r.max_cpus == max_cpus,
            r.online_mask@.len() == max_cpus as int,
            forall|i: int|
                0 <= i < max_cpus as int ==> r.online_mask@[i] == if i < nr_cpus as int {
                    1u8
                } else {
                    0u8
                },
    {
        let mut mask: Vec<u8> = Vec::new();
        let mut index: usize = 0;
        while index < max_cpus as usize
            invariant
                index <= max_cpus as int,
                mask@.len() == index as int,
                forall|i: int|
                    0 <= i < index as int ==> mask@[i] == if i < nr_cpus as int {
                        1u8
                    } else {
                        0u8
                    },
            decreases max_cpus as int - index as int,
        {
            if index < nr_cpus as usize {
                mask.push(1);
            } else {
                mask.push(0);
            }
            index += 1;
        }
        CpuTopology {
            nrcpus: nr_cpus,
            sockets: nr_sockets,
            dies: nr_dies,
            clusters: nr_clusters,
            cores: nr_cores,
            threads: nr_threads,
            max_cpus,
            online_mask: mask,
        }
    }

    /// Online mask of one vcpu: 1 when online, 0 when offline.
    pub fn get_mask(&self, vcpu_id: usize) -> (r: u8)
        requires
            vcpu_id < self.online_mask@.len(),
        ensures
            r == self.online_mask@[vcpu_id as int],
    {
        self.online_mask[vcpu_id]
    }

    /// The (socket, die, cluster, core, thread) coordinates of one vcpu.
    pub fn get_topo_item(&self, vcpu_id: usize) -> (r: (u8, u8, u8, u8, u8))
        requires
            self.wf(),
            vcpu_id <= u8::MAX,
            self.dies * self.clusters * self.cores * self.threads <= u8::MAX,
        ensures
            r.0 == self.spec_socket(vcpu_id as int),
            r.1 == self.spec_die(vcpu_id as int),
            r.2 == self.spec_cluster(vcpu_id as int),
            r.3 == self.spec_core(vcpu_id as int),
            r.4 == self.spec_thread(vcpu_id as int),
    {
        proof {
            lemma_dim_products(
                self.dies as int,
                self.clusters as int,
                self.cores as int,
                self.threads as int,
            );
        }
        let socketid: u8 = vcpu_id as u8 / (self.dies * self.clusters * self.cores * self.threads);
        let dieid: u8 = (vcpu_id as u8 / (self.clusters * self.cores * self.threads)) % self.dies;
        let clusterid: u8 = (vcpu_id as u8 / (self.cores * self.threads)) % self.clusters;
        let coreid: u8 = (vcpu_id as u8 / self.threads) % self.cores;
        let threadid: u8 = vcpu_id as u8 % self.threads;
        (socketid, dieid, clusterid, coreid, threadid)
    }

    /// The monitor-visible placement of one vcpu: its socket, core and
    /// thread coordinates.
    pub fn get_topo_instance_for_qmp(&self, cpu_index: usize) -> (r: CpuInstanceProperties)
        requires
            self.wf(),
            cpu_index <= u8::MAX,
            self.dies * self.clusters * self.cores * self.threads <= u8::MAX,
        ensures
            r.node_id is None,
            r.socket_id == Some(self.spec_socket(cpu_index as int) as i64),
            r.core_id == Some(self.spec_core(cpu_index as int) as i64),
            r.thread_id == Some(self.spec_thread(cpu_index as int) as i64),
    {
        let (socketid, _dieid, _clusterid, coreid, threadid) = self.get_topo_item(cpu_index);
        CpuInstanceProperties {
            node_id: None,
            socket_id: Some(socketid as i64),
            core_id: Some(coreid as i64),
            thread_id: Some(threadid as i64),
        }
    }
}

/// Every partial product of the dimensions is positive and bounded by the
/// full product.
proof fn lemma_dim_products(d: int, cl: int, co: int, t: int)
    requires
        d >= 1,
        cl >= 1,
        co >= 1,
        t >= 1,
    ensures
        1 <= t,
        1 <= co * t,
        1 <= (cl * co) * t,
        1 <= ((d * cl) * co) * t,
        d * cl <= ((d * cl) * co) * t,
        (d * cl) * co <= ((d * cl) * co) * t,
        cl * co <= ((d * cl) * co) * t,
        (cl * co) * t <= ((d * cl) * co) * t,
        co * t <= ((d * cl) * co) * t,
        (cl * co) * t == cl * (co * t),
        ((d * cl) * co) * t == d * (cl * (co * t)),
{
    assert((1 <= co * t && 1 <= (cl * co) * t && 1 <= ((d * cl) * co) * t && d * cl <= ((d * cl)
        * co) * t && (d * cl) * co <= ((d * cl) * co) * t && cl * co <= ((d * cl) * co) * t && (cl
        * co) * t <= ((d * cl) * co) * t && co * t <= ((d * cl) * co) * t && (cl * co) * t == cl * (
    co * t) && ((d * cl) * co) * t == d * (cl * (co * t)))) by (nonlinear_arith)
        requires
            d >= 1,
            cl >= 1,
            co >= 1,
            t >= 1,
    ;
}

/// A vcpu index can be rebuilt from its topology coordinates: the
/// decomposition performed by `get_topo_item` loses no information, so it is
/// injective on `[0, nrcpus)` and therefore a bijection onto its image.
pub proof fn lemma_topo_item_recompose(topo: CpuTopology, i: int)
    requires
        topo.wf(),
        0 <= i,
    ensures
        ((((topo.spec_socket(i) * topo.dies + topo.spec_die(i)) * topo.clusters + topo.spec_cluster(
            i,
        )) * topo.cores + topo.spec_core(i)) * topo.threads) + topo.spec_thread(i) == i,
{
    let d = topo.dies as int;
    let cl = topo.clusters as int;
    let co = topo.cores as int;
    let t = topo.threads as int;
    lemma_dim_products(d, cl, co, t);
    lemma_mixed_radix_digit(i, t, co);
    lemma_mixed_radix_digit(i, co * t, cl);
    lemma_mixed_radix_digit(i, cl * (co * t), d);
    let q1 = i / t;
    let q2 = i / (co * t);
    let q3 = i / (cl * (co * t));
    let q4 = i / (d * (cl * (co * t)));
    assert(topo.spec_core(i) == q1 % co);
    assert(topo.spec_cluster(i) == q2 % cl);
    assert(topo.spec_die(i) == q3 % d);
    assert(topo.spec_socket(i) == q4);
    vstd::arithmetic::div_mod::lemma_fundamental_div_mod(i, t);
    assert(t * (i / t) == (i / t) * t) by (nonlinear_arith);
    assert(i == q1 * t + i % t);
    assert(((((q4 * d + q3 % d) * cl + q2 % cl) * co + q1 % co) * t) + i % t == i)
        by (nonlinear_arith)
        requires
            i == q1 * t + i % t,
            q1 == q2 * co + q1 % co,
            q2 == q3 * cl + q2 % cl,
            q3 == q4 * d + q3 % d,
    ;
}

/// For a two-level radix step: the digit of `i` at weight `w` with radix `r`
/// relates the two quotients `i / w` and `i / (r * w)`.
proof fn lemma_mixed_radix_digit(i: int, w: int, r: int)
    requires
        0 <= i,
        w >= 1,
        r >= 1,
    ensures
        i / w == (i / (r * w)) * r + (i / w) % r,
        i / (r * w) == (i / w) / r,
{
    vstd::arithmetic::div_mod::lemma_div_denominator(i, w, r);
    assert(w * r == r * w) by (nonlinear_arith);
    vstd::arithmetic::div_mod::lemma_fundamental_div_mod(i / w, r);
    assert(r * ((i / w) / r) == ((i / w) / r) * r) by (nonlinear_arith);
}

/// Injectivity of the topology decomposition on equal dimensions: two vcpu
/// indices with the same coordinates are the same index.
pub proof fn lemma_topo_item_injective(topo: CpuTopology, i: int, j: int)
    requires
        topo.wf(),
        0 <= i,
        0 <= j,
        topo.spec_socket(i) == topo.spec_socket(j),
        topo.spec_die(i) == topo.spec_die(j),
        topo.spec_cluster(i) == topo.spec_cluster(j),
        topo.spec_core(i) == topo.spec_core(j),
        topo.spec_thread(i) == topo.spec_thread(j),
    ensures
        i == j,
{
    lemma_topo_item_recompose(topo, i);
    lemma_topo_item_recompose(topo, j);
}

} // verus!
