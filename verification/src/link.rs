//! The exclusive link: the fail-fast client that owns the segment for the
//! process's whole lifetime.

use crate::error::ErrorCode;
use crate::record::{ticked, with_context, with_identity, LinkedMem, Position, RecModel};
use crate::region::Region;
use vstd::prelude::*;

verus! {

/// An active link connection. Opening it requires the segment's mapping to
/// have been obtained; every update publishes the whole shadow record, and
/// closing zeroes the segment so that `ui_version == 0` marks it free.
///
/// The shadow-mutate-then-publish sequence is not internally atomic: a caller
/// sharing one link between threads must serialize all calls itself.
#[derive(Debug)]
pub struct MumbleLink {
    pub local: LinkedMem,
}

impl MumbleLink {
    /// Attempt to open the link with the given application name and
    /// description. `mapped` is the outcome of obtaining the OS mapping;
    /// opening fails exactly when the mapping could not be obtained (for
    /// instance because the audio application is not running), and surfaces
    /// that mapping error unchanged.
    pub fn new(name: &str, description: &str, mapped: Result<(), ErrorCode>) -> (r: Result<
        MumbleLink,
        ErrorCode,
    >)
        ensures
            mapped is Ok <==> r is Ok,
            r matches Ok(link) ==> link.local.wf() && link.local@ == RecModel::fresh(
                name@,
                description@,
            ),
            r matches Err(e) ==> mapped == Err::<(), ErrorCode>(e),
    {
        match mapped {
            Err(e) => Err(e),
            Ok(_) => Ok(MumbleLink { local: LinkedMem::new(name, description) }),
        }
    }

    /// Replace the context token in the shadow record: at most 256 bytes,
    /// silently truncated. Nothing is published until the next update.
    pub fn set_context(&mut self, context: &[u8])
        requires
            old(self).local.wf(),
        ensures
            final(self).local.wf(),
            final(self).local@ == with_context(old(self).local@, context@),
    {
        self.local.set_context(context);
    }

    /// Replace the identity text in the shadow record. Nothing is published
    /// until the next update.
    pub fn set_identity(&mut self, identity: &str)
        requires
            old(self).local.wf(),
        ensures
            final(self).local.wf(),
            final(self).local@ == with_identity(old(self).local@, identity@),
    {
        self.local.set_identity(identity);
    }

    /// One frame's update: advance the shadow's tick once (wrapping),
    /// overwrite both positions, then publish the whole shadow record to the
    /// segment with one volatile write.
    pub fn update(&mut self, avatar: Position, camera: Position, region: &mut Region)
        requires
            old(self).local.wf(),
        ensures
            final(self).local.wf(),
            final(self).local@ == ticked(old(self).local@, avatar, camera),
            final(region).wf(),
            final(region)@ == final(self).local@,
    {
        self.local.update(avatar, camera);
        region.write(&self.local);
    }

    /// Relinquish the segment: overwrite it with an all-zero record, so that
    /// any process observing `ui_version == 0` treats it as free. The shadow
    /// record is kept as it was. The embedding application calls this once,
    /// when the link is dropped.
    pub fn close(&mut self, region: &mut Region)
        ensures
            final(self).local@ == old(self).local@,
            final(self).local.wf() == old(self).local.wf(),
            final(region).wf(),
            final(region)@ == RecModel::zeroed(),
    {
        region.zero();
    }
}

} // verus!
