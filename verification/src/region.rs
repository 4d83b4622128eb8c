//! The shared memory segment's contents, as the core sees them.
//!
//! The real segment is an OS-named mapping written with whole-record volatile
//! operations; the platform half of that lives with the embedding
//! application. The core works on this in-process image of the segment, and
//! every crossing of the process boundary goes through the three operations
//! below, each of which stands for one whole-record volatile access: nothing
//! in the core reads or writes the segment piecemeal.

use crate::record::{LinkedMem, RecModel};
use vstd::prelude::*;

verus! {

/// The contents of the mapped segment.
#[derive(Debug, PartialEq)]
pub struct Region {
    pub rec: LinkedMem,
}

impl View for Region {
    type V = RecModel;

    open spec fn view(&self) -> RecModel {
        self.rec@
    }
}

impl Region {
    pub open spec fn wf(self) -> bool {
        self.rec.wf()
    }

    /// A segment in the free state: all-zero, `ui_version == 0`.
    pub fn new_free() -> (r: Region)
        ensures
            r.wf(),
            r@ == RecModel::zeroed(),
    {
        Region { rec: LinkedMem::zeroed() }
    }

    /// One whole-record volatile read of the segment.
    pub fn read(&self) -> (r: &LinkedMem)
        ensures
            r@ == self@,
            r.wf() == self.wf(),
    {
        &self.rec
    }

    /// One whole-record volatile write of the segment.
    pub fn write(&mut self, rec: &LinkedMem)
        ensures
            final(self)@ == rec@,
            final(self).wf() == rec.wf(),
    {
        self.rec = rec.clone();
        proof {
            assert(self.rec@ =~= rec@);
        }
    }

    /// One whole-record volatile write of an all-zero record, marking the
    /// segment free for other writers.
    pub fn zero(&mut self)
        ensures
            final(self).wf(),
            final(self)@ == RecModel::zeroed(),
    {
        self.rec = LinkedMem::zeroed();
    }
}

} // verus!
