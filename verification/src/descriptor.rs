//! Page-aligned descriptors of contiguous memory regions.

use vstd::prelude::*;
use crate::params::{granule_aligned, KERNEL_GRANULE_SIZE};

verus! {

/// Kind tag of a virtual address range.
#[derive(Clone, Copy, Debug, PartialEq, Eq, Structural)]
pub struct Virtual;

/// Kind tag of a physical address range.
#[derive(Clone, Copy, Debug, PartialEq, Eq, Structural)]
pub struct Physical;

/// A contiguous run of pages in the address kind `Kind`: a granule-aligned
/// start address plus a positive page count.
///
/// Descriptors are derived through [`PageSliceDescriptor::from_addr`] and
/// the virtual-to-physical reinterpretation, never assembled ad hoc, so a
/// well-formed descriptor is aligned at both ends and non-empty.
#[derive(Clone, Copy, Debug, PartialEq, Eq, Structural)]
pub struct PageSliceDescriptor<Kind> {
    pub start: u64,
    pub num_pages: u64,
    pub kind: Kind,
}

impl<Kind> PageSliceDescriptor<Kind> {
    /// Well-formedness: the start address is granule-aligned, the slice is
    /// non-empty, and the exclusive end address fits in a machine word.
    pub open spec fn wf(self) -> bool {
        &&& granule_aligned(self.start)
        &&& self.num_pages > 0
        &&& self.start + self.num_pages * KERNEL_GRANULE_SIZE <= u64::MAX
    }

    /// The exclusive end address: one past the last byte of the slice.
    pub open spec fn spec_end_addr(self) -> int {
        self.start + self.num_pages * KERNEL_GRANULE_SIZE
    }

    /// Whether `addr` lies inside the half-open range of this slice.
    pub open spec fn spec_contains(self, addr: int) -> bool {
        self.start <= addr < self.spec_end_addr()
    }

    /// Construct a descriptor anchored at `start` spanning `num_pages` pages.
    pub fn from_addr(start: u64, num_pages: u64, kind: Kind) -> (r: Self)
        requires
            granule_aligned(start),
            num_pages > 0,
            start + num_pages * KERNEL_GRANULE_SIZE <= u64::MAX,
        ensures
            r.start == start,
            r.num_pages == num_pages,
            r.kind == kind,
            r.wf(),
    {
        PageSliceDescriptor { start, num_pages, kind }
    }

    /// The start address of the slice.
    pub fn start_addr(&self) -> (r: u64)
        ensures
            r == self.start,
    {
        self.start
    }

    /// The exclusive end address of the slice.
    pub fn end_addr(&self) -> (r: u64)
        requires
            self.wf(),
        ensures
            r == self.spec_end_addr(),
    {
        self.start + self.num_pages * KERNEL_GRANULE_SIZE
    }

    /// The inclusive end address: the last byte of the slice.
    pub fn end_addr_inclusive(&self) -> (r: u64)
        requires
            self.wf(),
        ensures
            r == self.spec_end_addr() - 1,
    {
        self.start + (self.num_pages * KERNEL_GRANULE_SIZE - 1)
    }

    /// Whether `addr` falls inside this slice's address range.
    pub fn contains(&self, addr: u64) -> (r: bool)
        requires
            self.wf(),
        ensures
            r == self.spec_contains(addr as int),
    {
        self.start <= addr && addr < self.end_addr()
    }
}

impl PageSliceDescriptor<Virtual> {
    /// Reinterpret a virtual page slice as the physical slice with the same
    /// numeric addresses. Lossless only while the kernel binary is still
    /// identity-mapped, i.e. during early boot before the MMU is enabled.
    pub fn into_physical(self) -> (r: PageSliceDescriptor<Physical>)
        ensures
            r == (PageSliceDescriptor::<Physical> {
                start: self.start,
                num_pages: self.num_pages,
                kind: Physical,
            }),
            self.wf() ==> r.wf(),
    {
        PageSliceDescriptor { start: self.start, num_pages: self.num_pages, kind: Physical }
    }
}

/// Two page slices are disjoint when their half-open address ranges share
/// no address.
pub open spec fn ranges_disjoint<K>(a: PageSliceDescriptor<K>, b: PageSliceDescriptor<K>) -> bool {
    a.spec_end_addr() <= b.start || b.spec_end_addr() <= a.start
}

/// Boundary test characterizes disjointness: for well-formed slices, neither
/// slice containing the other's start or inclusive-end address is the same
/// as the two address ranges being disjoint.
pub proof fn lemma_boundary_check_is_disjointness<K>(
    a: PageSliceDescriptor<K>,
    b: PageSliceDescriptor<K>,
)
    requires
        a.wf(),
        b.wf(),
    ensures
        (!a.spec_contains(b.start as int) && !a.spec_contains(b.spec_end_addr() - 1)
            && !b.spec_contains(a.start as int) && !b.spec_contains(a.spec_end_addr() - 1))
            <==> ranges_disjoint(a, b),
{
    assert(a.spec_end_addr() >= a.start + KERNEL_GRANULE_SIZE) by (nonlinear_arith)
        requires a.num_pages > 0
    ;
    assert(b.spec_end_addr() >= b.start + KERNEL_GRANULE_SIZE) by (nonlinear_arith)
        requires b.num_pages > 0
    ;
}

} // verus!
