//! The shared link: a client that never fails to construct and instead runs a
//! cooperative, poll-based ownership-detection and reconnection state machine
//! over the segment, publishing only while it believes it holds exclusive use.

use crate::codec::decoded;
use crate::error::ErrorCode;
use crate::record::{ticked, with_context, with_identity, LinkedMem, Position, RecModel};
use crate::region::Region;
use vstd::prelude::*;

verus! {

/// The connection state of a shared link. `Closed` keeps the last open
/// failure; `InUse` keeps the owner's tick observed at the start of the
/// current staleness window; `Active` means this link holds the segment.
#[derive(Debug, Clone, Copy, PartialEq, Eq, Structural)]
pub enum Inner {
    Closed(ErrorCode),
    InUse(u32),
    Active,
}

/// What `status` reports: the last open failure, the other owner's published
/// name and description, or that this link holds the segment.
#[derive(Debug, PartialEq)]
pub enum Status {
    /// The link is closed, usually because the audio application is not
    /// running or the link was deactivated on purpose.
    Closed(ErrorCode),
    /// The segment is in use by another application.
    InUse {
        /// The name the other application published.
        name: String,
        /// The description the other application published.
        description: String,
    },
    /// This link holds the segment.
    Active,
}

/// The state a link lands in when it opens the segment: the mapping failure
/// if one occurred; otherwise `Active` if the live record marks the segment
/// free, or `InUse` with the live tick as the staleness baseline.
pub open spec fn open_state(mapped: Result<(), ErrorCode>, live_version: u32, live_tick: u32) -> Inner {
    match mapped {
        Result::Err(e) => Inner::Closed(e),
        Result::Ok(_) => if live_version != 0 {
            Inner::InUse(live_tick)
        } else {
            Inner::Active
        },
    }
}

/// One re-evaluation of the connection state, performed once per window of
/// 100 update calls. From `Closed` the link re-opens exactly as at
/// construction. From `InUse` it takes the segment over if the other owner
/// released it (`live_version == 0`) or its heartbeat did not advance over
/// the window (`live_tick` equals the baseline); otherwise it stays `InUse`
/// with the freshly observed tick as the next window's baseline. `Active` is
/// final until the link is deactivated.
pub open spec fn reevaluate(
    state: Inner,
    mapped: Result<(), ErrorCode>,
    live_version: u32,
    live_tick: u32,
) -> Inner {
    match state {
        Inner::Closed(_) => open_state(mapped, live_version, live_tick),
        Inner::InUse(baseline) => if live_version == 0 || live_tick == baseline {
            Inner::Active
        } else {
            Inner::InUse(live_tick)
        },
        Inner::Active => Inner::Active,
    }
}

/// The connection state after one whole update call whose shadow tick became
/// `new_tick`: re-evaluated when the tick reaches a multiple of 100,
/// unchanged otherwise.
pub open spec fn next_inner(
    state: Inner,
    new_tick: u32,
    mapped: Result<(), ErrorCode>,
    live_version: u32,
    live_tick: u32,
) -> Inner {
    if new_tick % 100 == 0 {
        reevaluate(state, mapped, live_version, live_tick)
    } else {
        state
    }
}

impl Inner {
    /// Open the segment: record a mapping failure as `Closed`, otherwise read
    /// the live record's version and tick once and classify the segment.
    pub fn open(mapped: Result<(), ErrorCode>, region: &Region) -> (r: Inner)
        ensures
            r == open_state(mapped, region@.ui_version, region@.ui_tick),
    {
        match mapped {
            Err(e) => Inner::Closed(e),
            Ok(_) => {
                let live = region.read();
                if live.ui_version != 0 {
                    Inner::InUse(live.ui_tick)
                } else {
                    Inner::Active
                }
            },
        }
    }
}

/// A weak link connection. Construction always succeeds; while another
/// writer owns the segment the link only watches its heartbeat, and it
/// publishes only while it believes the segment is its own.
///
/// As with the exclusive link, a caller sharing one instance between threads
/// must serialize all calls itself.
#[derive(Debug)]
pub struct SharedLink {
    pub inner: Inner,
    pub local: LinkedMem,
}

impl SharedLink {
    /// Open the link with the given application name and description.
    /// `mapped` is the outcome of obtaining the OS mapping and `region` the
    /// segment's current contents where it succeeded; a failure is folded
    /// into the `Closed` state, never surfaced as an error.
    pub fn new(name: &str, description: &str, mapped: Result<(), ErrorCode>, region: &Region) -> (r:
        SharedLink)
        ensures
            r.local.wf(),
            r.local@ == RecModel::fresh(name@, description@),
            r.inner == open_state(mapped, region@.ui_version, region@.ui_tick),
    {
        SharedLink { inner: Inner::open(mapped, region), local: LinkedMem::new(name, description) }
    }

    /// Replace the context token in the shadow record: at most 256 bytes,
    /// silently truncated. Nothing is published until the next update.
    pub fn set_context(&mut self, context: &[u8])
        requires
            old(self).local.wf(),
        ensures
            final(self).local.wf(),
            final(self).local@ == with_context(old(self).local@, context@),
            final(self).inner == old(self).inner,
    {
        self.local.set_context(context);
    }

    /// Replace the identity text in the shadow record. Nothing is published
    /// until the next update.
    pub fn set_identity(&mut self, identity: &str)
        requires
            old(self).local.wf(),
        ensures
            final(self).local.wf(),
            final(self).local@ == with_identity(old(self).local@, identity@),
            final(self).inner == old(self).inner,
    {
        self.local.set_identity(identity);
    }

    /// One frame's update. The shadow record is always mutated first: the
    /// tick advances once (wrapping) and both positions are overwritten.
    /// When the new tick reaches a multiple of 100 the connection state is
    /// re-evaluated against `mapped` and the live record. Finally, exactly
    /// when the resulting state is `Active`, the whole shadow record is
    /// published to the segment; otherwise the segment is left untouched.
    /// Returns whether it published.
    pub fn update(
        &mut self,
        avatar: Position,
        camera: Position,
        mapped: Result<(), ErrorCode>,
        region: &mut Region,
    ) -> (published: bool)
        requires
            old(self).local.wf(),
        ensures
            final(self).local.wf(),
            final(self).local@ == ticked(old(self).local@, avatar, camera),
            final(self).inner == next_inner(
                old(self).inner,
                final(self).local@.ui_tick,
                mapped,
                old(region)@.ui_version,
                old(region)@.ui_tick,
            ),
            published == (final(self).inner is Active),
            published ==> final(region)@ == final(self).local@ && final(region).wf(),
            !published ==> final(region)@ == old(region)@ && final(region).wf() == old(region).wf(),
    {
        self.local.update(avatar, camera);
        if self.local.ui_tick % 100 == 0 {
            self.inner = match self.inner {
                Inner::Closed(_) => Inner::open(mapped, region),
                Inner::InUse(baseline) => {
                    let live = region.read();
                    if live.ui_version == 0 || live.ui_tick == baseline {
                        Inner::Active
                    } else {
                        Inner::InUse(live.ui_tick)
                    }
                },
                Inner::Active => Inner::Active,
            };
        }
        match self.inner {
            Inner::Active => {
                region.write(&self.local);
                true
            },
            _ => false,
        }
    }

    /// Observe the link's status without touching the segment: the last open
    /// failure, the name and description the other owner published, or that
    /// the link is active. Takes the segment read-only, so it can never
    /// mutate it.
    pub fn status(&self, region: &Region) -> (r: Status)
        ensures
            self.inner matches Inner::Closed(e) ==> r == Status::Closed(e),
            self.inner is InUse ==> (r matches Status::InUse { name, description }
                && name@ == decoded(region@.name) && description@ == decoded(region@.description)),
            self.inner is Active ==> r is Active,
    {
        match self.inner {
            Inner::Closed(e) => Status::Closed(e),
            Inner::InUse(_) => {
                let live = region.read();
                Status::InUse {
                    name: crate::codec::read(live.name.as_slice()),
                    description: crate::codec::read(live.description.as_slice()),
                }
            },
            Inner::Active => Status::Active,
        }
    }

    /// Deactivate the link: if it holds the segment, zero it with one
    /// volatile write so another writer can claim it immediately, without
    /// waiting out a staleness window; in every case move to `Closed` with
    /// the manual-close error. The embedding application also calls this
    /// when the link is dropped.
    pub fn deactivate(&mut self, region: &mut Region)
        ensures
            final(self).inner == Inner::Closed(ErrorCode::ManuallyClosed),
            final(self).local@ == old(self).local@,
            final(self).local.wf() == old(self).local.wf(),
            old(self).inner is Active ==> final(region)@ == RecModel::zeroed() && final(region).wf(),
            !(old(self).inner is Active) ==> final(region)@ == old(region)@ && final(region).wf()
                == old(region).wf(),
    {
        if let Inner::Active = self.inner {
            region.zero();
        }
        self.inner = Inner::Closed(ErrorCode::ManuallyClosed);
    }
}

/// The connection state after a whole sequence of re-evaluation windows,
/// each observing one live `(version, tick)` pair.
pub open spec fn run_windows(
    state: Inner,
    mapped: Result<(), ErrorCode>,
    obs: Seq<(u32, u32)>,
) -> Inner
    decreases obs.len(),
{
    if obs.len() == 0 {
        state
    } else {
        run_windows(reevaluate(state, mapped, obs[0].0, obs[0].1), mapped, obs.skip(1))
    }
}

/// Law: while the link believes the segment is in use, a window whose live
/// record was released (`version == 0`) or whose heartbeat still equals the
/// baseline promotes the link to `Active`.
pub proof fn lemma_stalled_owner_is_taken_over(
    baseline: u32,
    mapped: Result<(), ErrorCode>,
    live_version: u32,
    live_tick: u32,
)
    requires
        live_version == 0 || live_tick == baseline,
    ensures
        reevaluate(Inner::InUse(baseline), mapped, live_version, live_tick) == Inner::Active,
{
}

/// Law: once a link is `Active`, no sequence of re-evaluation windows ever
/// demotes it; only `deactivate` leaves the state.
pub proof fn lemma_active_is_final(mapped: Result<(), ErrorCode>, obs: Seq<(u32, u32)>)
    ensures
        run_windows(Inner::Active, mapped, obs) == Inner::Active,
    decreases obs.len(),
{
    if obs.len() > 0 {
        lemma_active_is_final(mapped, obs.skip(1));
    }
}

/// Law: while another owner's heartbeat keeps advancing — every window shows
/// a claimed segment whose live tick differs from the window's baseline —
/// the link stays `InUse` through any number of windows, with the last
/// observed tick as its baseline, and so never publishes.
pub proof fn lemma_live_owner_keeps_segment(
    baseline: u32,
    mapped: Result<(), ErrorCode>,
    obs: Seq<(u32, u32)>,
)
    requires
        forall|k: int| 0 <= k < obs.len() ==> (#[trigger] obs[k]).0 != 0,
        obs.len() > 0 ==> obs[0].1 != baseline,
        forall|k: int| 1 <= k < obs.len() ==> (#[trigger] obs[k]).1 != obs[k - 1].1,
    ensures
        run_windows(Inner::InUse(baseline), mapped, obs) == Inner::InUse(
            if obs.len() == 0 {
                baseline
            } else {
                obs[obs.len() - 1].1
            },
        ),
    decreases obs.len(),
{
    if obs.len() > 0 {
        let rest = obs.skip(1);
        assert(reevaluate(Inner::InUse(baseline), mapped, obs[0].0, obs[0].1) == Inner::InUse(
            obs[0].1,
        ));
        assert forall|k: int| 0 <= k < rest.len() implies (#[trigger] rest[k]).0 != 0 by {
            assert(rest[k] == obs[k + 1]);
        }
        assert forall|k: int| 1 <= k < rest.len() implies (#[trigger] rest[k]).1 != rest[k - 1].1 by {
            assert(rest[k] == obs[k + 1]);
            assert(rest[k - 1] == obs[k]);
        }
        if rest.len() > 0 {
            assert(rest[0] == obs[1]);
            assert(obs[1].1 != obs[0].1);
        }
        lemma_live_owner_keeps_segment(obs[0].1, mapped, rest);
        if rest.len() > 0 {
            assert(rest[rest.len() - 1] == obs[obs.len() - 1]);
        }
    }
}

/// Law: a segment that a deactivated link zeroed reads as free, so the next
/// link that obtains the mapping opens straight into `Active`, without
/// waiting out a staleness window.
pub proof fn lemma_open_after_release(mapped: Result<(), ErrorCode>)
    requires
        mapped is Ok,
    ensures
        open_state(mapped, RecModel::zeroed().ui_version, RecModel::zeroed().ui_tick)
            == Inner::Active,
{
}

} // verus!
