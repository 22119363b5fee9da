//! The GPU memory sub-allocator model: allocations with never-reused
//! identities, a byte budget drawn from the device pools, scoped map-writes
//! into host-visible memory, and release-exactly-once bookkeeping.

use vstd::prelude::*;

use crate::errors::AllocError;

verus! {

/// What a buffer allocation is bound for.
#[derive(Clone, Copy, PartialEq, Eq, Structural, Debug)]
pub enum BufferUsage {
    Vertex,
    Index,
}

/// The resource shape an allocation backs.
#[derive(Clone, Copy, PartialEq, Eq, Structural, Debug)]
pub enum AllocKind {
    Buffer(BufferUsage),
    Image,
}

/// Which memory pool an allocation is served from.
#[derive(Clone, Copy, PartialEq, Eq, Structural, Debug)]
pub enum Residency {
    /// GPU-optimal memory the CPU cannot map.
    DeviceLocal,
    /// CPU-mappable memory for sequential upload.
    HostVisible,
}

/// One allocation the allocator handed out. Its index in the record list is
/// its identity and is never reused.
pub struct AllocationRecord {
    /// Still owned by a client; cleared exactly once by `release`.
    pub live: bool,
    pub kind: AllocKind,
    pub residency: Residency,
    /// Byte length of the backing memory.
    pub size: usize,
    /// The bytes behind the mapping, kept only for host-visible memory.
    pub bytes: Vec<u8>,
    /// Whether a mapping is open right now; always closed between calls.
    pub mapped: bool,
}

/// The sub-allocator: every allocation it ever made, and how much of the
/// byte budget is in live use.
pub struct GpuAllocator {
    pub records: Vec<AllocationRecord>,
    /// Total bytes the device pools offer.
    pub budget: u64,
    /// Bytes held by live allocations.
    pub used: u64,
}

/// The bytes a record holds against the budget: its size while live.
pub open spec fn record_cost(r: AllocationRecord) -> int {
    if r.live {
        r.size as int
    } else {
        0
    }
}

/// Total bytes held by the live records.
pub open spec fn live_bytes(records: Seq<AllocationRecord>) -> int
    decreases records.len(),
{
    if records.len() == 0 {
        0
    } else {
        live_bytes(records.drop_last()) + record_cost(records.last())
    }
}

/// A record at rest: host-visible backing matches the allocation size, and
/// no mapping is open.
pub open spec fn record_wf(r: AllocationRecord) -> bool {
    &&& r.residency is HostVisible ==> r.bytes@.len() == r.size
    &&& !r.mapped
}

pub proof fn lemma_live_bytes_push(records: Seq<AllocationRecord>, r: AllocationRecord)
    ensures
        live_bytes(records.push(r)) == live_bytes(records) + record_cost(r),
{
    assert(records.push(r).drop_last() =~= records);
}

pub proof fn lemma_live_bytes_update(records: Seq<AllocationRecord>, i: int, r: AllocationRecord)
    requires
        0 <= i < records.len(),
    ensures
        live_bytes(records.update(i, r))
            == live_bytes(records) - record_cost(records[i]) + record_cost(r),
    decreases records.len(),
{
    if i == records.len() - 1 {
        assert(records.update(i, r).drop_last() =~= records.drop_last());
        assert(records.update(i, r).last() == r);
    } else {
        assert(records.update(i, r).drop_last() =~= records.drop_last().update(i, r));
        assert(records.update(i, r).last() == records.last());
        lemma_live_bytes_update(records.drop_last(), i, r);
    }
}

/// Every live record's cost is within the total, and the total is never
/// negative.
pub proof fn lemma_live_bytes_bounds(records: Seq<AllocationRecord>, i: int)
    requires
        0 <= i < records.len(),
    ensures
        live_bytes(records) >= 0,
        record_cost(records[i]) <= live_bytes(records),
    decreases records.len(),
{
    lemma_live_bytes_nonneg(records);
    if i == records.len() - 1 {
        lemma_live_bytes_nonneg(records.drop_last());
    } else {
        lemma_live_bytes_bounds(records.drop_last(), i);
        assert(records.drop_last()[i] == records[i]);
    }
}

pub proof fn lemma_live_bytes_nonneg(records: Seq<AllocationRecord>)
    ensures
        live_bytes(records) >= 0,
    decreases records.len(),
{
    if records.len() > 0 {
        lemma_live_bytes_nonneg(records.drop_last());
    }
}

/// The relation a scoped map-write leaves between allocator states: the one
/// record now backs exactly the written pattern, everything else — identity,
/// liveness, sizes, budget — is untouched, and the mapping is closed again.
pub open spec fn spec_map_write(
    pre: GpuAllocator,
    post: GpuAllocator,
    id: int,
    data: Seq<u8>,
) -> bool {
    &&& post.records@.len() == pre.records@.len()
    &&& forall|j: int|
        0 <= j < pre.records@.len() && j != id ==> post.records@[j] == pre.records@[j]
    &&& post.records@[id].bytes@ == data
    &&& post.records@[id].live == pre.records@[id].live
    &&& post.records@[id].kind == pre.records@[id].kind
    &&& post.records@[id].residency == pre.records@[id].residency
    &&& post.records@[id].size == pre.records@[id].size
    &&& !post.records@[id].mapped
    &&& post.used == pre.used
    &&& post.budget == pre.budget
}

/// Copies a byte vector element by element.
fn copy_bytes(data: &Vec<u8>) -> (r: Vec<u8>)
    ensures
        r@ == data@,
{
    let mut out: Vec<u8> = Vec::new();
    let mut i: usize = 0;
    while i < data.len()
        invariant
            i <= data@.len(),
            out@ == data@.subrange(0, i as int),
        decreases data@.len() - i,
    {
        out.push(data[i]);
        proof {
            assert(data@.subrange(0, i as int).push(data@[i as int])
                =~= data@.subrange(0, i as int + 1));
        }
        i = i + 1;
    }
    proof {
        assert(data@.subrange(0, data@.len() as int) =~= data@);
    }
    out
}

impl GpuAllocator {
    /// Allocator well-formedness: the live total matches the records, stays
    /// within budget, and every record is at rest.
    pub open spec fn wf(&self) -> bool {
        &&& self.used == live_bytes(self.records@)
        &&& self.used <= self.budget
        &&& forall|i: int|
            0 <= i < self.records@.len() ==> record_wf(#[trigger] self.records@[i])
    }

    /// Opens the allocator over device pools holding `budget` bytes.
    pub fn new(budget: u64) -> (a: GpuAllocator)
        ensures
            a.wf(),
            a.records@.len() == 0,
            a.budget == budget,
            a.used == 0,
    {
        GpuAllocator { records: Vec::new(), budget, used: 0 }
    }

    /// Serves an allocation from the pools chosen by the residency hint.
    ///
    /// The returned identity is the next record index and is never reused.
    /// Fails exactly when the request exceeds the bytes left in the budget;
    /// that exhaustion is fatal, since no eviction exists.
    pub fn allocate(&mut self, size: usize, kind: AllocKind, residency: Residency) -> (r: Result<
        usize,
        AllocError,
    >)
        requires
            old(self).wf(),
        ensures
            final(self).wf(),
            final(self).budget == old(self).budget,
            match r {
                Ok(id) => {
                    &&& size as u64 <= old(self).budget - old(self).used
                    &&& id == old(self).records@.len()
                    &&& final(self).records@.len() == old(self).records@.len() + 1
                    &&& forall|j: int|
                        0 <= j < old(self).records@.len()
                            ==> final(self).records@[j] == old(self).records@[j]
                    &&& final(self).records@[id as int].live
                    &&& final(self).records@[id as int].kind == kind
                    &&& final(self).records@[id as int].residency == residency
                    &&& final(self).records@[id as int].size == size
                    &&& (residency is HostVisible
                        ==> final(self).records@[id as int].bytes@.len() == size)
                    &&& !final(self).records@[id as int].mapped
                    &&& final(self).used == old(self).used + size
                },
                Err(e) => {
                    &&& e == AllocError::OutOfMemory
                    &&& size as u64 > old(self).budget - old(self).used
                    &&& final(self).records@ == old(self).records@
                    &&& final(self).used == old(self).used
                },
            },
    {
        if (size as u64) > self.budget - self.used {
            return Err(AllocError::OutOfMemory);
        }
        let mut backing: Vec<u8> = Vec::new();
        if matches!(residency, Residency::HostVisible) {
            let mut i: usize = 0;
            while i < size
                invariant
                    i <= size,
                    backing@.len() == i,
                decreases size - i,
            {
                backing.push(0);
                i = i + 1;
            }
        }
        let record = AllocationRecord {
            live: true,
            kind,
            residency,
            size,
            bytes: backing,
            mapped: false,
        };
        let id = self.records.len();
        proof {
            lemma_live_bytes_push(self.records@, record);
        }
        self.records.push(record);
        self.used = self.used + (size as u64);
        Ok(id)
    }

    /// Releases a live allocation back to the pools.
    ///
    /// Each allocation is released exactly once: releasing one that is not
    /// live is a programming error, ruled out by the precondition.
    pub fn release(&mut self, id: usize)
        requires
            old(self).wf(),
            id < old(self).records@.len(),
            old(self).records@[id as int].live,
        ensures
            final(self).wf(),
            final(self).budget == old(self).budget,
            final(self).records@.len() == old(self).records@.len(),
            forall|j: int|
                0 <= j < old(self).records@.len() && j != id
                    ==> final(self).records@[j] == old(self).records@[j],
            !final(self).records@[id as int].live,
            final(self).records@[id as int].kind == old(self).records@[id as int].kind,
            final(self).records@[id as int].size == old(self).records@[id as int].size,
            final(self).used == old(self).used - old(self).records@[id as int].size,
    {
        proof {
            lemma_live_bytes_bounds(self.records@, id as int);
        }
        let size = self.records[id].size;
        let rec = &mut self.records[id];
        rec.live = false;
        proof {
            lemma_live_bytes_update(old(self).records@, id as int, self.records@[id as int]);
        }
        self.used = self.used - (size as u64);
    }

    /// Writes a byte pattern into a host-visible allocation through a scoped
    /// mapping: map, copy, unmap, with the mapping closed again on exit.
    pub fn map_write(&mut self, id: usize, data: &Vec<u8>)
        requires
            old(self).wf(),
            id < old(self).records@.len(),
            old(self).records@[id as int].live,
            old(self).records@[id as int].residency is HostVisible,
            data@.len() == old(self).records@[id as int].size,
        ensures
            final(self).wf(),
            spec_map_write(*old(self), *final(self), id as int, data@),
            final(self).records@[id as int].live,
    {
        let staged = copy_bytes(data);
        let rec = &mut self.records[id];
        rec.mapped = true;
        rec.bytes = staged;
        rec.mapped = false;
        proof {
            lemma_live_bytes_update(old(self).records@, id as int, self.records@[id as int]);
        }
    }

    /// Reads the full contents of a host-visible allocation back out.
    pub fn read_back(&self, id: usize) -> (r: Vec<u8>)
        requires
            self.wf(),
            id < self.records@.len(),
            self.records@[id as int].live,
            self.records@[id as int].residency is HostVisible,
        ensures
            r@ == self.records@[id as int].bytes@,
    {
        let rec = &self.records[id];
        copy_bytes(&rec.bytes)
    }

    /// Bytes still unclaimed in the budget.
    pub fn remaining(&self) -> (r: u64)
        requires
            self.wf(),
        ensures
            r == self.budget - self.used,
    {
        self.budget - self.used
    }

    /// How many allocations were ever made.
    pub fn allocation_count(&self) -> (n: usize)
        ensures
            n == self.records@.len(),
    {
        self.records.len()
    }

    /// Whether an allocation is still owned by a client.
    pub fn is_live(&self, id: usize) -> (r: bool)
        requires
            id < self.records@.len(),
        ensures
            r == self.records@[id as int].live,
    {
        self.records[id].live
    }

    /// Every allocation has been released.
    pub open spec fn spec_all_released(&self) -> bool {
        forall|i: int| 0 <= i < self.records@.len() ==> !(#[trigger] self.records@[i]).live
    }

    /// Checks that every allocation has been released, as teardown demands.
    pub fn all_released(&self) -> (r: bool)
        ensures
            r == self.spec_all_released(),
    {
        let mut i: usize = 0;
        while i < self.records.len()
            invariant
                i <= self.records@.len(),
                forall|j: int| 0 <= j < i ==> !(#[trigger] self.records@[j]).live,
            decreases self.records@.len() - i,
        {
            if self.records[i].live {
                return false;
            }
            i = i + 1;
        }
        true
    }
}

/// Allocation round trip: after a scoped map-write of a pattern, the
/// allocation backs exactly that pattern, so a host-visible read returns
/// the identical bytes.
pub proof fn lemma_allocation_round_trip(
    pre: GpuAllocator,
    post: GpuAllocator,
    id: int,
    data: Seq<u8>,
)
    requires
        spec_map_write(pre, post, id, data),
    ensures
        post.records@[id].bytes@ == data,
{
}

} // verus!
