//! The resource allocator: interrupt lines and guest address ranges, handed
//! out by the allocators of the `vm_allocator` crate.
use crate::layout::{
    ACPI_MEM_SIZE, ACPI_MEM_START, IRQ_BASE, IRQ_MAX, MMIO_MEM_SIZE, MMIO_MEM_START,
};
use vm_allocator::{AddressAllocator, AllocPolicy, IdAllocator};
use vstd::prelude::*;
use vstd::set_lib::{lemma_int_range, set_int_range};

verus! {

/// `vm_allocator::IdAllocator`, carried opaquely; what it holds is named by
/// `managed_ids` and `allocated_ids`.
#[verifier::external_type_specification]
#[verifier::external_body]
pub struct ExIdAllocator(IdAllocator);

/// `vm_allocator::AddressAllocator`, carried opaquely; what it holds free is
/// named by `free_addresses`.
#[verifier::external_type_specification]
#[verifier::external_body]
pub struct ExAddressAllocator(AddressAllocator);

/// `vm_allocator::Error`, carried opaquely to the caller.
#[verifier::external_type_specification]
#[verifier::external_body]
pub struct ExAllocatorError(vm_allocator::Error);

/// `vm_allocator::AllocPolicy`, with its variants visible: first match,
/// last match, or an exact start address.
#[verifier::external_type_specification]
pub struct ExAllocPolicy(AllocPolicy);

/// The ids of its managed range that an id allocator has handed out and not
/// taken back: those for which `IdAllocator::is_allocated` holds.
pub uninterp spec fn allocated_ids(a: IdAllocator) -> Set<u32>;

/// The range of ids that an id allocator manages.
pub uninterp spec fn managed_ids(a: IdAllocator) -> Set<u32>;

/// The addresses of its managed space that an address allocator holds free.
pub uninterp spec fn free_addresses(a: AddressAllocator) -> Set<int>;

/// The free blocks of an address allocator: the inclusive bounds
/// `(start, end)` of the free nodes of its interval tree.
pub uninterp spec fn free_blocks(a: AddressAllocator) -> Set<(u64, u64)>;

/// `x` is a power of two.
pub open spec fn is_power_of_two(x: u64) -> bool {
    x != 0 && x & ((x - 1) as u64) == 0
}

/// `size` bytes from address `a` lie inside one block of `blocks`, and the
/// address one past them is representable.
pub open spec fn fits_at(blocks: Set<(u64, u64)>, a: int, size: u64) -> bool {
    &&& a + size <= u64::MAX
    &&& exists|b: (u64, u64)| #[trigger] blocks.contains(b) && b.0 <= a && a + size - 1 <= b.1
}

/// `size` bytes fit inside one block of `blocks` from `a`, a multiple of
/// `alignment`.
pub open spec fn aligned_fit(blocks: Set<(u64, u64)>, a: int, size: u64, alignment: u64) -> bool {
    a % alignment as int == 0 && fits_at(blocks, a, size)
}

/// Some multiple of `alignment` starts `size` bytes that fit inside one block.
pub open spec fn has_fit(blocks: Set<(u64, u64)>, size: u64, alignment: u64) -> bool {
    exists|a: int| aligned_fit(blocks, a, size, alignment)
}

/// `start` is the lowest multiple of `alignment` from which `size` bytes fit
/// inside one block.
pub open spec fn first_fit(blocks: Set<(u64, u64)>, start: u64, size: u64, alignment: u64) -> bool {
    forall|a: int| #[trigger] aligned_fit(blocks, a, size, alignment) ==> start <= a
}

/// `blocks` with `size` bytes from `start` taken out of its block `b`: `b`
/// gives way to what is left of it below and above the taken range.
pub open spec fn carve(blocks: Set<(u64, u64)>, b: (u64, u64), start: u64, size: u64) -> Set<(u64, u64)> {
    let below = if b.0 < start {
        set![(b.0, (start - 1) as u64)]
    } else {
        Set::empty()
    };
    let above = if start + size - 1 < b.1 {
        set![((start + size) as u64, b.1)]
    } else {
        Set::empty()
    };
    blocks.remove(b).union(below).union(above)
}

/// `after` is `before` with `size` bytes from `start` taken out of one of its
/// blocks.
pub open spec fn carved(before: Set<(u64, u64)>, after: Set<(u64, u64)>, start: u64, size: u64) -> bool {
    exists|b: (u64, u64)|
        #[trigger] before.contains(b) && b.0 <= start && start + size - 1 <= b.1 && after == carve(
            before,
            b,
            start,
            size,
        )
}

/// The ids `lo..=hi`.
pub open spec fn u32_range(lo: u32, hi: u32) -> Set<u32> {
    Set::new(|i: u32| lo <= i <= hi)
}

/// The ids of an id allocator that are still free.
pub open spec fn free_ids(a: IdAllocator) -> Set<u32> {
    managed_ids(a).difference(allocated_ids(a))
}

/// The addresses `start..start + size`.
pub open spec fn address_range(start: u64, size: u64) -> Set<int> {
    set_int_range(start as int, start + size)
}

/// Relies on `IdAllocator::new`: refuses a range whose end lies below its
/// base, and otherwise manages `range_base..=range_end` with nothing allocated.
#[verifier::external_body]
fn new_id_allocator(
    range_base: u32,
    range_end: u32,
) -> (r: Result<IdAllocator, vm_allocator::Error>)
    ensures
        r is Err <==> range_end < range_base,
        r matches Ok(a) ==> managed_ids(a) == u32_range(range_base, range_end) && allocated_ids(a)
            == Set::<u32>::empty(),
{
    IdAllocator::new(range_base, range_end)
}

/// Relies on `IdAllocator::allocate_id`: it hands out the smallest free id
/// (the first released one, else the next never handed out), and fails,
/// changing nothing, when every managed id is allocated.
#[verifier::external_body]
fn allocate_id(a: &mut IdAllocator) -> (r: Result<u32, vm_allocator::Error>)
    ensures
        managed_ids(*final(a)) == managed_ids(*old(a)),
        r is Err <==> free_ids(*old(a)) == Set::<u32>::empty(),
        r is Err ==> allocated_ids(*final(a)) == allocated_ids(*old(a)),
        r matches Ok(id) ==> free_ids(*old(a)).contains(id) && allocated_ids(*final(a))
            == allocated_ids(*old(a)).insert(id),
        r matches Ok(id) ==> forall|j: u32| #[trigger]
            free_ids(*old(a)).contains(j) ==> id <= j,
{
    a.allocate_id()
}

/// Relies on `IdAllocator::free_id`: it takes back an allocated id and
/// returns it, and fails, changing nothing, on any other id.
#[verifier::external_body]
fn free_id(a: &mut IdAllocator, id: u32) -> (r: Result<u32, vm_allocator::Error>)
    ensures
        managed_ids(*final(a)) == managed_ids(*old(a)),
        r is Ok <==> allocated_ids(*old(a)).contains(id),
        r matches Ok(x) ==> x == id && allocated_ids(*final(a)) == allocated_ids(*old(a)).remove(
            id,
        ),
        r is Err ==> allocated_ids(*final(a)) == allocated_ids(*old(a)),
{
    a.free_id(id)
}

/// Relies on `AddressAllocator::new`: it manages `base..base + size`, all
/// free, and fails when `size` is zero or the last address would pass
/// `u64::MAX`.
#[verifier::external_body]
fn new_address_allocator(base: u64, size: u64) -> (r: Result<AddressAllocator, vm_allocator::Error>)
    ensures
        r is Err <==> size == 0 || base + size - 1 > u64::MAX,
        r matches Ok(a) ==> free_addresses(a) == address_range(base, size),
        r matches Ok(a) ==> free_blocks(a) == set![(base, (base + size - 1) as u64)],
{
    AddressAllocator::new(base, size)
}

/// Relies on `AddressAllocator::allocate`, keeping the start of the range it
/// returns: the range has `size` bytes, starts at a multiple of `alignment`,
/// and the address one past its end is representable; with the first-match
/// or last-match policy it is carved out of a free node and is allocated
/// afterwards; with the exact-match policy it starts at the requested address.
/// The first-match policy walks the free nodes in address order and takes
/// the first whose aligned start leaves room, so it succeeds exactly when
/// some aligned range fits in one free node, and returns the lowest such
/// start. Every error is returned before the tree is changed.
#[verifier::external_body]
fn allocate_range(
    a: &mut AddressAllocator,
    size: u64,
    alignment: u64,
    policy: AllocPolicy,
) -> (r: Result<u64, vm_allocator::Error>)
    ensures
        size == 0 ==> r is Err,
        r matches Ok(start) ==> alignment > 0 && start as int % alignment as int == 0 && start
            + size <= u64::MAX,
        r matches Ok(start) ==> (policy matches AllocPolicy::ExactMatch(x) ==> start == x),
        r matches Ok(start) ==> (!(policy is ExactMatch) ==> address_range(start, size).subset_of(
            free_addresses(*old(a)),
        ) && free_addresses(*final(a)) == free_addresses(*old(a)).difference(
            address_range(start, size),
        )),
        r matches Ok(start) ==> (!(policy is ExactMatch) ==> carved(
            free_blocks(*old(a)),
            free_blocks(*final(a)),
            start,
            size,
        )),
        r is Err ==> free_addresses(*final(a)) == free_addresses(*old(a)) && free_blocks(*final(a))
            == free_blocks(*old(a)),
        policy is FirstMatch && size > 0 && is_power_of_two(alignment) && has_fit(
            free_blocks(*old(a)),
            size,
            alignment,
        ) ==> r is Ok,
        r matches Ok(start) ==> (policy is FirstMatch ==> first_fit(
            free_blocks(*old(a)),
            start,
            size,
            alignment,
        )),
{
    a.allocate(size, alignment, policy).map(|range| range.start())
}

/// `lo..=hi` holds `hi - lo + 1` ids.
pub proof fn lemma_u32_range_len(lo: u32, hi: u32)
    requires
        lo <= hi,
    ensures
        u32_range(lo, hi).finite(),
        u32_range(lo, hi).len() == hi - lo + 1,
    decreases hi - lo,
{
    if lo == hi {
        assert(u32_range(lo, hi) =~= Set::<u32>::empty().insert(lo));
    } else {
        lemma_u32_range_len(lo, (hi - 1) as u32);
        assert(u32_range(lo, hi) =~= u32_range(lo, (hi - 1) as u32).insert(hi));
    }
}

/// Every set of 32-bit ids is finite.
pub proof fn lemma_u32_set_finite(s: Set<u32>)
    ensures
        s.finite(),
{
    lemma_u32_range_len(0, u32::MAX);
    assert(s.subset_of(u32_range(0, u32::MAX)));
    vstd::set_lib::lemma_set_subset_finite(u32_range(0, u32::MAX), s);
}

/// A fresh allocator over the interrupt lines `base..=max` has all of them
/// free, `max - base + 1` lines; by the contract of `allocate_gsi`, a request
/// for that many or fewer then yields distinct lines of the range, and a
/// larger one fails and reserves nothing.
pub proof fn lemma_fresh_gsi_capacity(a: ResourceAllocator, base: u32, max: u32)
    requires
        base <= max,
        a.gsi_range() == u32_range(base, max),
        a.gsi_allocated() == Set::<u32>::empty(),
    ensures
        a.gsi_free() == u32_range(base, max),
        a.gsi_free().len() == max - base + 1,
{
    lemma_u32_range_len(base, max);
    assert(a.gsi_free() =~= u32_range(base, max));
}

/// Two allocations made one after the other never overlap: the second is
/// carved out of what the first left free.
pub proof fn lemma_sequential_allocations_disjoint(
    free: Set<int>,
    start1: u64,
    size1: u64,
    start2: u64,
    size2: u64,
)
    requires
        address_range(start1, size1).subset_of(free),
        address_range(start2, size2).subset_of(free.difference(address_range(start1, size1))),
    ensures
        address_range(start1, size1).disjoint(address_range(start2, size2)),
{
}

/// An allocation can only succeed when the free space holds at least `size`
/// addresses.
pub proof fn lemma_range_fits(free: Set<int>, start: u64, size: u64)
    requires
        free.finite(),
        address_range(start, size).subset_of(free),
    ensures
        size <= free.len(),
{
    lemma_int_range(start as int, start + size);
    vstd::set_lib::lemma_len_subset(address_range(start, size), free);
}

} // verus!

verus! {

/// Failures of interrupt line allocation.
#[derive(Debug)]
pub enum ResourceError {
    /// A request for no lines at all.
    InvalidCount,
    /// The underlying allocator refused the request.
    Allocator(vm_allocator::Error),
}

/// Allocates interrupt lines (GSIs) and guest address ranges: the MMIO
/// window for devices and the region that holds the ACPI tables. Every
/// allocation takes the allocator by `&mut`, so no two can be in flight at
/// once.
#[derive(Debug)]
pub struct ResourceAllocator {
    gsi_allocator: IdAllocator,
    mmio_memory: AddressAllocator,
    acpi_memory: AddressAllocator,
}

impl ResourceAllocator {
    /// The interrupt lines this allocator manages.
    pub closed spec fn gsi_range(&self) -> Set<u32> {
        managed_ids(self.gsi_allocator)
    }

    /// The interrupt lines currently handed out.
    pub closed spec fn gsi_allocated(&self) -> Set<u32> {
        allocated_ids(self.gsi_allocator)
    }

    /// The free addresses of the MMIO window.
    pub closed spec fn mmio_free(&self) -> Set<int> {
        free_addresses(self.mmio_memory)
    }

    /// The free addresses of the ACPI region.
    pub closed spec fn acpi_free(&self) -> Set<int> {
        free_addresses(self.acpi_memory)
    }

    /// The free blocks of the MMIO window.
    pub closed spec fn mmio_blocks(&self) -> Set<(u64, u64)> {
        free_blocks(self.mmio_memory)
    }

    /// The free blocks of the ACPI region.
    pub closed spec fn acpi_blocks(&self) -> Set<(u64, u64)> {
        free_blocks(self.acpi_memory)
    }

    /// The interrupt lines still free.
    pub open spec fn gsi_free(&self) -> Set<u32> {
        self.gsi_range().difference(self.gsi_allocated())
    }

    /// An allocator over the interrupt lines `irq_base..=irq_max`, the MMIO
    /// window `mmio_start..mmio_start + mmio_size` and the ACPI region
    /// `acpi_start..acpi_start + acpi_size`, with nothing allocated. Fails
    /// when a range is empty or passes the end of the address space.
    pub fn with_ranges(
        irq_base: u32,
        irq_max: u32,
        mmio_start: u64,
        mmio_size: u64,
        acpi_start: u64,
        acpi_size: u64,
    ) -> (r: Result<Self, vm_allocator::Error>)
        ensures
            r is Err <==> irq_max < irq_base || mmio_size == 0 || mmio_start + mmio_size - 1
                > u64::MAX || acpi_size == 0 || acpi_start + acpi_size - 1 > u64::MAX,
            r matches Ok(a) ==> a.gsi_range() == u32_range(irq_base, irq_max)
                && a.gsi_allocated() == Set::<u32>::empty() && a.mmio_free() == address_range(
                mmio_start,
                mmio_size,
            ) && a.acpi_free() == address_range(acpi_start, acpi_size),
            r matches Ok(a) ==> a.mmio_blocks() == set![(mmio_start, (mmio_start + mmio_size - 1) as u64)]
                && a.acpi_blocks() == set![(acpi_start, (acpi_start + acpi_size - 1) as u64)],
    {
        let gsi_allocator = match new_id_allocator(irq_base, irq_max) {
            Ok(a) => a,
            Err(e) => return Err(e),
        };
        let mmio_memory = match new_address_allocator(mmio_start, mmio_size) {
            Ok(a) => a,
            Err(e) => return Err(e),
        };
        let acpi_memory = match new_address_allocator(acpi_start, acpi_size) {
            Ok(a) => a,
            Err(e) => return Err(e),
        };
        Ok(ResourceAllocator { gsi_allocator, mmio_memory, acpi_memory })
    }

    /// The allocator of the x86_64 layout.
    pub fn new() -> (r: Result<Self, vm_allocator::Error>)
        ensures
            r matches Ok(a) && a.gsi_range() == u32_range(IRQ_BASE, IRQ_MAX)
                && a.gsi_allocated() == Set::<u32>::empty() && a.mmio_free() == address_range(
                MMIO_MEM_START,
                MMIO_MEM_SIZE,
            ) && a.acpi_free() == address_range(ACPI_MEM_START, ACPI_MEM_SIZE)
                && a.acpi_blocks() == set![(ACPI_MEM_START, (ACPI_MEM_START + ACPI_MEM_SIZE - 1) as u64)],
    {
        Self::with_ranges(IRQ_BASE, IRQ_MAX, MMIO_MEM_START, MMIO_MEM_SIZE, ACPI_MEM_START, ACPI_MEM_SIZE)
    }

    /// Allocates `gsi_count` interrupt lines, all or none: it succeeds
    /// exactly when at least one line is asked for and that many lines are
    /// free, and a failed request leaves the allocated lines as they were.
    pub fn allocate_gsi(&mut self, gsi_count: u32) -> (r: Result<Vec<u32>, ResourceError>)
        ensures
            final(self).gsi_range() == old(self).gsi_range(),
            final(self).mmio_free() == old(self).mmio_free(),
            final(self).acpi_free() == old(self).acpi_free(),
            final(self).mmio_blocks() == old(self).mmio_blocks(),
            final(self).acpi_blocks() == old(self).acpi_blocks(),
            r is Ok <==> 1 <= gsi_count <= old(self).gsi_free().len(),
            r matches Err(e) ==> (e is InvalidCount <==> gsi_count == 0),
            r is Err ==> final(self).gsi_allocated() == old(self).gsi_allocated(),
            r matches Ok(v) ==> v@.len() == gsi_count && v@.no_duplicates() && (forall|i: int|
                0 <= i < v@.len() ==> old(self).gsi_free().contains(#[trigger] v@[i]))
                && final(self).gsi_allocated() == old(self).gsi_allocated().union(v@.to_set()),
    {
        if gsi_count == 0 {
            return Err(ResourceError::InvalidCount);
        }
        proof {
            lemma_u32_set_finite(self.gsi_range());
        }
        let ghost old_allocated = self.gsi_allocated();
        let ghost old_free = self.gsi_free();
        let mut gsis: Vec<u32> = Vec::with_capacity(gsi_count as usize);
        let mut i: u32 = 0;
        while i < gsi_count
            invariant
                i <= gsi_count,
                gsis@.len() == i,
                gsis@.no_duplicates(),
                self.gsi_range() == old(self).gsi_range(),
                self.mmio_free() == old(self).mmio_free(),
                self.acpi_free() == old(self).acpi_free(),
                self.mmio_blocks() == old(self).mmio_blocks(),
                self.acpi_blocks() == old(self).acpi_blocks(),
                old_allocated == old(self).gsi_allocated(),
                old_free == old(self).gsi_free(),
                forall|k: int| 0 <= k < gsis@.len() ==> old_free.contains(#[trigger] gsis@[k]),
                self.gsi_allocated() == old_allocated.union(gsis@.to_set()),
                self.gsi_free() == old_free.difference(gsis@.to_set()),
                self.gsi_free().len() + i == old_free.len(),
            decreases gsi_count - i,
        {
            proof {
                lemma_u32_set_finite(self.gsi_range());
            }
            match allocate_id(&mut self.gsi_allocator) {
                Ok(gsi) => {
                    let ghost before = gsis@;
                    gsis.push(gsi);
                    proof {
                        before.lemma_push_to_set_commute(gsi);
                        assert(gsis@ == before.push(gsi));
                        assert(!before.contains(gsi));
                        assert(self.gsi_free() =~= old_free.difference(gsis@.to_set()));
                        assert(self.gsi_free() =~= old_free.difference(before.to_set()).remove(gsi));
                        lemma_u32_set_finite(old_free.difference(before.to_set()));
                        assert(self.gsi_allocated() =~= old_allocated.union(gsis@.to_set()));
                        assert forall|a: int, b: int|
                            0 <= a < gsis@.len() && 0 <= b < gsis@.len() && a != b implies gsis@[a]
                            != gsis@[b] by {
                            if b == gsis@.len() - 1 {
                                assert(before.contains(gsis@[a]) || a == b);
                            }
                            if a == gsis@.len() - 1 {
                                assert(before.contains(gsis@[b]) || a == b);
                            }
                        }
                    }
                    i = i + 1;
                },
                Err(err) => {
                    self.release_gsis(&gsis, Ghost(old_allocated));
                    return Err(ResourceError::Allocator(err));
                },
            }
        }
        Ok(gsis)
    }

    /// Takes back every line of `gsis`, which were allocated on top of `base`.
    fn release_gsis(&mut self, gsis: &Vec<u32>, base: Ghost<Set<u32>>)
        requires
            gsis@.no_duplicates(),
            old(self).gsi_allocated() == base@.union(gsis@.to_set()),
            forall|k: int| 0 <= k < gsis@.len() ==> !base@.contains(#[trigger] gsis@[k]),
        ensures
            final(self).gsi_allocated() == base@,
            final(self).gsi_range() == old(self).gsi_range(),
            final(self).mmio_free() == old(self).mmio_free(),
            final(self).acpi_free() == old(self).acpi_free(),
            final(self).mmio_blocks() == old(self).mmio_blocks(),
            final(self).acpi_blocks() == old(self).acpi_blocks(),
    {
        let mut j: usize = 0;
        assert(gsis@.subrange(0, gsis@.len() as int) =~= gsis@);
        while j < gsis.len()
            invariant
                j <= gsis@.len(),
                gsis@.no_duplicates(),
                forall|k: int| 0 <= k < gsis@.len() ==> !base@.contains(#[trigger] gsis@[k]),
                self.gsi_allocated() == base@.union(gsis@.subrange(j as int, gsis@.len() as int).to_set()),
                self.gsi_range() == old(self).gsi_range(),
                self.mmio_free() == old(self).mmio_free(),
                self.acpi_free() == old(self).acpi_free(),
                self.mmio_blocks() == old(self).mmio_blocks(),
                self.acpi_blocks() == old(self).acpi_blocks(),
            decreases gsis@.len() - j,
        {
            let gsi = gsis[j];
            let ghost rest = gsis@.subrange(j + 1 as int, gsis@.len() as int);
            proof {
                assert(gsis@.subrange(j as int, gsis@.len() as int) =~= seq![gsi] + rest);
                assert((seq![gsi] + rest).to_set() =~= rest.to_set().insert(gsi)) by {
                    assert forall|x: u32|
                        (seq![gsi] + rest).to_set().contains(x) <==> rest.to_set().insert(
                            gsi,
                        ).contains(x) by {
                        if rest.contains(x) {
                            let k = choose|k: int| 0 <= k < rest.len() && rest[k] == x;
                            assert((seq![gsi] + rest)[k + 1] == x);
                        }
                        if (seq![gsi] + rest).contains(x) && x != gsi {
                            let s = seq![gsi] + rest;
                            let k = choose|k: int| 0 <= k < s.len() && s[k] == x;
                            assert(rest[k - 1] == x);
                        }
                        if x == gsi {
                            assert((seq![gsi] + rest)[0] == x);
                        }
                    }
                }
                assert(!rest.contains(gsi)) by {
                    if rest.contains(gsi) {
                        let k = choose|k: int| 0 <= k < rest.len() && rest[k] == gsi;
                        assert(gsis@[j + 1 + k] == gsis@[j as int]);
                    }
                }
            }
            let released = free_id(&mut self.gsi_allocator, gsi);
            proof {
                assert(released is Ok);
                assert(self.gsi_allocated() =~= base@.union(rest.to_set()));
            }
            j = j + 1;
        }
        proof {
            assert(gsis@.subrange(gsis@.len() as int, gsis@.len() as int).to_set() =~= Set::<u32>::empty());
            assert(self.gsi_allocated() =~= base@);
        }
    }

    /// Returns the interrupt line `gsi` to the pool; fails, changing
    /// nothing, when it is not allocated.
    pub fn free_gsi(&mut self, gsi: u32) -> (r: Result<(), vm_allocator::Error>)
        ensures
            final(self).gsi_range() == old(self).gsi_range(),
            final(self).mmio_free() == old(self).mmio_free(),
            final(self).acpi_free() == old(self).acpi_free(),
            r is Ok <==> old(self).gsi_allocated().contains(gsi),
            final(self).mmio_blocks() == old(self).mmio_blocks(),
            final(self).acpi_blocks() == old(self).acpi_blocks(),
            r is Ok ==> final(self).gsi_allocated() == old(self).gsi_allocated().remove(gsi),
            r is Err ==> final(self).gsi_allocated() == old(self).gsi_allocated(),
    {
        match free_id(&mut self.gsi_allocator, gsi) {
            Ok(_) => Ok(()),
            Err(e) => Err(e),
        }
    }

    /// Allocates `size` bytes of the MMIO window at a multiple of
    /// `alignment` and returns the first address. With the first-match or
    /// last-match policy the range was free and is taken out of the free
    /// space; a request larger than the free space fails. With the
    /// first-match policy the range is the lowest aligned one that fits in a
    /// free block, and the request succeeds whenever one does. A failed
    /// request changes nothing.
    pub fn allocate_mmio_memory(
        &mut self,
        size: u64,
        alignment: u64,
        policy: AllocPolicy,
    ) -> (r: Result<u64, vm_allocator::Error>)
        ensures
            final(self).gsi_range() == old(self).gsi_range(),
            final(self).gsi_allocated() == old(self).gsi_allocated(),
            final(self).acpi_free() == old(self).acpi_free(),
            size == 0 ==> r is Err,
            r matches Ok(start) ==> start as int % alignment as int == 0,
            r matches Ok(start) ==> start + size <= u64::MAX,
            r matches Ok(start) ==> (policy matches AllocPolicy::ExactMatch(x) ==> start == x),
            r matches Ok(start) ==> (!(policy is ExactMatch) ==> address_range(start, size).subset_of(
                old(self).mmio_free(),
            )),
            r matches Ok(start) ==> (!(policy is ExactMatch) ==> final(self).mmio_free()
                == old(self).mmio_free().difference(address_range(start, size))),
            !(policy is ExactMatch) && old(self).mmio_free().finite()
                && size > old(self).mmio_free().len() ==> r is Err,
            r is Err ==> final(self).mmio_free() == old(self).mmio_free() && final(self).mmio_blocks()
                == old(self).mmio_blocks(),
            final(self).acpi_blocks() == old(self).acpi_blocks(),
            r matches Ok(start) ==> (!(policy is ExactMatch) ==> carved(
                old(self).mmio_blocks(),
                final(self).mmio_blocks(),
                start,
                size,
            )),
            policy is FirstMatch && size > 0 && is_power_of_two(alignment) && has_fit(
                old(self).mmio_blocks(),
                size,
                alignment,
            ) ==> r is Ok,
            r matches Ok(start) ==> (policy is FirstMatch ==> first_fit(
                old(self).mmio_blocks(),
                start,
                size,
                alignment,
            )),
    {
        let r = allocate_range(&mut self.mmio_memory, size, alignment, policy);
        proof {
            if r is Ok {
                if !(policy is ExactMatch) && old(self).mmio_free().finite() {
                    lemma_range_fits(old(self).mmio_free(), r->Ok_0, size);
                }
            }
        }
        r
    }

    /// Allocates `size` bytes of the ACPI region at a multiple of
    /// `alignment` and returns the first address, with the same guarantees
    /// as `allocate_mmio_memory`.
    pub fn allocate_acpi_memory(
        &mut self,
        size: u64,
        alignment: u64,
        policy: AllocPolicy,
    ) -> (r: Result<u64, vm_allocator::Error>)
        ensures
            final(self).gsi_range() == old(self).gsi_range(),
            final(self).gsi_allocated() == old(self).gsi_allocated(),
            final(self).mmio_free() == old(self).mmio_free(),
            size == 0 ==> r is Err,
            r matches Ok(start) ==> start as int % alignment as int == 0,
            r matches Ok(start) ==> start + size <= u64::MAX,
            r matches Ok(start) ==> (policy matches AllocPolicy::ExactMatch(x) ==> start == x),
            r matches Ok(start) ==> (!(policy is ExactMatch) ==> address_range(start, size).subset_of(
                old(self).acpi_free(),
            )),
            r matches Ok(start) ==> (!(policy is ExactMatch) ==> final(self).acpi_free()
                == old(self).acpi_free().difference(address_range(start, size))),
            !(policy is ExactMatch) && old(self).acpi_free().finite()
                && size > old(self).acpi_free().len() ==> r is Err,
            r is Err ==> final(self).acpi_free() == old(self).acpi_free() && final(self).acpi_blocks()
                == old(self).acpi_blocks(),
            final(self).mmio_blocks() == old(self).mmio_blocks(),
            r matches Ok(start) ==> (!(policy is ExactMatch) ==> carved(
                old(self).acpi_blocks(),
                final(self).acpi_blocks(),
                start,
                size,
            )),
            policy is FirstMatch && size > 0 && is_power_of_two(alignment) && has_fit(
                old(self).acpi_blocks(),
                size,
                alignment,
            ) ==> r is Ok,
            r matches Ok(start) ==> (policy is FirstMatch ==> first_fit(
                old(self).acpi_blocks(),
                start,
                size,
                alignment,
            )),
    {
        let r = allocate_range(&mut self.acpi_memory, size, alignment, policy);
        proof {
            if r is Ok {
                if !(policy is ExactMatch) && old(self).acpi_free().finite() {
                    lemma_range_fits(old(self).acpi_free(), r->Ok_0, size);
                }
            }
        }
        r
    }
}

} // verus!
