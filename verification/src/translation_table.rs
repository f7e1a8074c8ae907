//! The kernel translation table: the record of the page mappings installed
//! during early boot.

use vstd::prelude::*;
use crate::attributes::AttributeFields;
use crate::descriptor::{PageSliceDescriptor, Physical, Virtual};
use crate::params::KERNEL_ADDR_SPACE_SIZE;

verus! {

/// Mapping failure reported by the translation-table engine. Carries the
/// human-readable label of the region whose mapping was rejected.
#[derive(Clone, Copy, Debug)]
pub struct MapError {
    pub region: &'static str,
}

/// One installed mapping: a virtual page slice bound to a physical page
/// slice under a set of attribute fields.
#[derive(Clone, Copy, Debug, PartialEq, Eq, Structural)]
pub struct MappingRecord {
    pub virt: PageSliceDescriptor<Virtual>,
    pub phys: PageSliceDescriptor<Physical>,
    pub attributes: AttributeFields,
}

/// A mapping record is well-formed when both slices are well-formed, they
/// span the same number of pages, and the virtual slice lies inside the
/// kernel's virtual address space.
pub open spec fn record_wf(rec: MappingRecord) -> bool {
    &&& rec.virt.wf()
    &&& rec.phys.wf()
    &&& rec.virt.num_pages == rec.phys.num_pages
    &&& rec.virt.spec_end_addr() <= KERNEL_ADDR_SPACE_SIZE
}

/// The kernel's translation table, covering the virtual address range
/// `[0, KERNEL_ADDR_SPACE_SIZE)`. A mapping request outside that range
/// exceeds the table's capacity and is rejected.
pub struct KernelTranslationTable {
    entries: Vec<MappingRecord>,
}

impl View for KernelTranslationTable {
    type V = Seq<MappingRecord>;

    closed spec fn view(&self) -> Seq<MappingRecord> {
        self.entries@
    }
}

impl KernelTranslationTable {
    /// Every recorded mapping is well-formed and lies inside the address
    /// space the table covers.
    pub open spec fn wf(&self) -> bool {
        forall|i: int| 0 <= i < self@.len() ==> record_wf(#[trigger] self@[i])
    }

    /// An empty table: no page is mapped yet.
    pub fn new() -> (t: Self)
        ensures
            t@ == Seq::<MappingRecord>::empty(),
            t.wf(),
    {
        KernelTranslationTable { entries: Vec::new() }
    }

    /// The number of installed mappings.
    pub fn num_entries(&self) -> (n: usize)
        ensures
            n == self@.len(),
    {
        self.entries.len()
    }

    /// The `i`-th installed mapping, in installation order.
    pub fn entry(&self, i: usize) -> (r: &MappingRecord)
        requires
            i < self@.len(),
        ensures
            *r == self@[i as int],
    {
        &self.entries[i]
    }

    /// Bind the virtual page slice to the physical page slice under the
    /// given attributes, labelling the request `name` for diagnostics.
    /// Rejects a slice that reaches past the covered address space.
    pub fn map_pages_at(
        &mut self,
        name: &'static str,
        virt: &PageSliceDescriptor<Virtual>,
        phys: &PageSliceDescriptor<Physical>,
        attr: &AttributeFields,
    ) -> (r: Result<(), MapError>)
        requires
            old(self).wf(),
            virt.wf(),
            phys.wf(),
            virt.num_pages == phys.num_pages,
        ensures
            final(self).wf(),
            r is Ok <==> virt.spec_end_addr() <= KERNEL_ADDR_SPACE_SIZE,
            r is Ok ==> final(self)@ == old(self)@.push(
                (MappingRecord { virt: *virt, phys: *phys, attributes: *attr }),
            ),
            r is Err ==> final(self)@ == old(self)@,
            r matches Err(e) ==> e.region@ == name@,
    {
        if virt.end_addr() <= KERNEL_ADDR_SPACE_SIZE {
            self.entries.push(MappingRecord { virt: *virt, phys: *phys, attributes: *attr });
            proof {
                assert forall|i: int| 0 <= i < self@.len() implies record_wf(#[trigger] self@[i]) by {
                    if i < self@.len() - 1 {
                        assert(self@[i] == old(self)@[i]);
                    }
                }
            }
            Ok(())
        } else {
            Err(MapError { region: name })
        }
    }
}

} // verus!
