//! The linked record: the fixed-layout structure published through the shared
//! memory segment, together with its in-process mutation rules.

use crate::codec;
use vstd::prelude::*;

verus! {

/// One three-component vector of the record. Each coordinate is held as the
/// raw 32-bit pattern of the protocol's single-precision value: the core
/// forwards coordinates verbatim and never interprets them numerically, so an
/// all-zero vector is exactly the protocol's all-zero sentinel.
#[derive(Copy, Clone, Debug, PartialEq, Eq, Structural)]
pub struct Vec3 {
    pub x: u32,
    pub y: u32,
    pub z: u32,
}

impl Vec3 {
    pub open spec fn zero_spec() -> Vec3 {
        Vec3 { x: 0, y: 0, z: 0 }
    }

    /// The all-zero vector.
    pub fn zero() -> (r: Vec3)
        ensures
            r == Vec3::zero_spec(),
    {
        Vec3 { x: 0, y: 0, z: 0 }
    }
}

/// A position in three-dimensional space: the location itself, a unit vector
/// out of the eyes, and a unit vector out of the top of the head. That
/// `front` and `top` are unit length and perpendicular is the caller's
/// responsibility; the core forwards them unchecked. An all-zero `position`
/// handed to an update is the protocol's sentinel for disabling positional
/// audio and is forwarded verbatim.
#[derive(Copy, Clone, Debug, PartialEq, Eq, Structural)]
pub struct Position {
    /// The character's position in space.
    pub position: Vec3,
    /// A unit vector pointing out of the character's eyes.
    pub front: Vec3,
    /// A unit vector pointing out of the top of the character's head.
    pub top: Vec3,
}

impl Position {
    pub open spec fn default_spec() -> Position {
        Position {
            position: Vec3 { x: 0, y: 0, z: 0 },
            front: (Vec3 { x: 0, y: 0, z: 0x3F80_0000 }),
            top: (Vec3 { x: 0, y: 0x3F80_0000, z: 0 }),
        }
    }

    pub open spec fn zero_spec() -> Position {
        Position { position: Vec3::zero_spec(), front: Vec3::zero_spec(), top: Vec3::zero_spec() }
    }

    /// The all-zero position: the protocol's "disable positional audio"
    /// sentinel.
    pub fn zero() -> (r: Position)
        ensures
            r == Position::zero_spec(),
    {
        Position { position: Vec3::zero(), front: Vec3::zero(), top: Vec3::zero() }
    }
}

impl Default for Position {
    /// At the origin, facing along positive z (pattern `0x3F80_0000` is the
    /// single-precision value one), with the top vector along positive y.
    fn default() -> (r: Position)
        ensures
            r == Position::default_spec(),
    {
        Position {
            position: Vec3 { x: 0, y: 0, z: 0 },
            front: Vec3 { x: 0, y: 0, z: 0x3F80_0000 },
            top: Vec3 { x: 0, y: 0x3F80_0000, z: 0 },
        }
    }
}

/// The mathematical value of a linked record: its scalar fields and the full
/// contents of its fixed buffers.
#[verifier::ext_equal]
pub ghost struct RecModel {
    pub ui_version: u32,
    pub ui_tick: u32,
    pub avatar: Position,
    pub name: Seq<u16>,
    pub camera: Position,
    pub identity: Seq<u16>,
    pub context_len: u32,
    pub context: Seq<u8>,
    pub description: Seq<u16>,
}

pub open spec fn zero_units(n: nat) -> Seq<u16> {
    Seq::new(n, |i: int| 0u16)
}

pub open spec fn zero_bytes(n: nat) -> Seq<u8> {
    Seq::new(n, |i: int| 0u8)
}

impl RecModel {
    /// The all-zero record: `ui_version == 0` marks the segment as free.
    pub open spec fn zeroed() -> RecModel {
        RecModel {
            ui_version: 0,
            ui_tick: 0,
            avatar: Position::zero_spec(),
            name: zero_units(256),
            camera: Position::zero_spec(),
            identity: zero_units(256),
            context_len: 0,
            context: zero_bytes(256),
            description: zero_units(2048),
        }
    }

    /// A freshly initialized shadow record: protocol version two, tick zero,
    /// default positions, the application name and description encoded into
    /// their buffers, and everything else zero.
    pub open spec fn fresh(name: Seq<char>, description: Seq<char>) -> RecModel {
        RecModel {
            ui_version: 2,
            ui_tick: 0,
            avatar: Position::default_spec(),
            name: codec::copied_wide(zero_units(256), name),
            camera: Position::default_spec(),
            identity: zero_units(256),
            context_len: 0,
            context: zero_bytes(256),
            description: codec::copied_wide(zero_units(2048), description),
        }
    }
}

/// The tick counter after one update: incremented by one, wrapping from the
/// maximum value back to zero.
pub open spec fn tick_inc(t: u32) -> u32 {
    if t == 0xFFFF_FFFFu32 {
        0u32
    } else {
        (t + 1) as u32
    }
}

/// The record after one update call: the tick advanced once, both positions
/// overwritten, everything else unchanged.
pub open spec fn ticked(m: RecModel, avatar: Position, camera: Position) -> RecModel {
    RecModel { ui_tick: tick_inc(m.ui_tick), avatar: avatar, camera: camera, ..m }
}

/// The record after the context token is replaced: at most 256 bytes copied,
/// the copied length recorded, everything else unchanged.
pub open spec fn with_context(m: RecModel, c: Seq<u8>) -> RecModel {
    let k: int = if c.len() < 256 {
        c.len() as int
    } else {
        256
    };
    RecModel { context_len: k as u32, context: c.take(k) + m.context.skip(k), ..m }
}

/// The record after the identity is replaced: the text encoded into the
/// identity buffer, everything else unchanged.
pub open spec fn with_identity(m: RecModel, s: Seq<char>) -> RecModel {
    RecModel { identity: codec::copied_wide(m.identity, s), ..m }
}

/// A vector of `n` copies of `x`.
fn filled<T: Copy>(x: T, n: usize) -> (r: Vec<T>)
    ensures
        r@ == Seq::new(n as nat, |i: int| x),
{
    let mut r: Vec<T> = Vec::new();
    let mut i: usize = 0;
    while i < n
        invariant
            i <= n,
            r@.len() == i,
            forall|k: int| 0 <= k < i ==> r@[k] == x,
        decreases n - i,
    {
        r.push(x);
        i = i + 1;
    }
    proof {
        assert(r@ =~= Seq::new(n as nat, |i: int| x));
    }
    r
}

/// A copy of a vector of plain values.
fn duplicate<T: Copy>(v: &Vec<T>) -> (r: Vec<T>)
    ensures
        r@ == v@,
{
    let mut r: Vec<T> = Vec::new();
    let mut i: usize = 0;
    while i < v.len()
        invariant
            i <= v@.len(),
            r@.len() == i,
            forall|k: int| 0 <= k < i ==> r@[k] == v@[k],
        decreases v@.len() - i,
    {
        r.push(v[i]);
        i = i + 1;
    }
    proof {
        assert(r@ =~= v@);
    }
    r
}

/// The in-process shadow copy of the linked record. The buffer lengths are
/// the protocol's fixed layout: 256 units for name and identity, 256 bytes of
/// context, 2048 units of description.
#[derive(Debug, PartialEq)]
pub struct LinkedMem {
    pub ui_version: u32,
    pub ui_tick: u32,
    pub avatar: Position,
    pub name: Vec<u16>,
    pub camera: Position,
    pub identity: Vec<u16>,
    pub context_len: u32,
    pub context: Vec<u8>,
    pub description: Vec<u16>,
}

impl View for LinkedMem {
    type V = RecModel;

    open spec fn view(&self) -> RecModel {
        RecModel {
            ui_version: self.ui_version,
            ui_tick: self.ui_tick,
            avatar: self.avatar,
            name: self.name@,
            camera: self.camera,
            identity: self.identity@,
            context_len: self.context_len,
            context: self.context@,
            description: self.description@,
        }
    }
}

impl Clone for LinkedMem {
    fn clone(&self) -> (r: Self)
        ensures
            r@ == self@,
    {
        let r = LinkedMem {
            ui_version: self.ui_version,
            ui_tick: self.ui_tick,
            avatar: self.avatar,
            name: duplicate(&self.name),
            camera: self.camera,
            identity: duplicate(&self.identity),
            context_len: self.context_len,
            context: duplicate(&self.context),
            description: duplicate(&self.description),
        };
        proof {
            assert(r@ =~= self@);
        }
        r
    }
}

impl LinkedMem {
    /// The record's fixed buffer layout.
    pub open spec fn wf(self) -> bool {
        &&& self.name@.len() == 256
        &&& self.identity@.len() == 256
        &&& self.context@.len() == 256
        &&& self.description@.len() == 2048
        &&& self.context_len <= 256
    }

    /// A fresh shadow record carrying the application name and description.
    pub fn new(name: &str, description: &str) -> (r: LinkedMem)
        ensures
            r.wf(),
            r@ == RecModel::fresh(name@, description@),
    {
        let mut r = LinkedMem {
            ui_version: 2,
            ui_tick: 0,
            avatar: Position::default(),
            name: filled(0u16, 256),
            camera: Position::default(),
            identity: filled(0u16, 256),
            context_len: 0,
            context: filled(0u8, 256),
            description: filled(0u16, 2048),
        };
        codec::copy(r.name.as_mut_slice(), name);
        codec::copy(r.description.as_mut_slice(), description);
        proof {
            assert(r@ =~= RecModel::fresh(name@, description@));
        }
        r
    }

    /// An all-zero record, as published to mark the segment free.
    pub fn zeroed() -> (r: LinkedMem)
        ensures
            r.wf(),
            r@ == RecModel::zeroed(),
    {
        let r = LinkedMem {
            ui_version: 0,
            ui_tick: 0,
            avatar: Position::zero(),
            name: filled(0u16, 256),
            camera: Position::zero(),
            identity: filled(0u16, 256),
            context_len: 0,
            context: filled(0u8, 256),
            description: filled(0u16, 2048),
        };
        proof {
            assert(r@ =~= RecModel::zeroed());
        }
        r
    }

    /// Replace the context token: copy at most 256 bytes and record how many
    /// were copied. Longer input is accepted and silently truncated.
    pub fn set_context(&mut self, context: &[u8])
        requires
            old(self).wf(),
        ensures
            final(self).wf(),
            final(self)@ == with_context(old(self)@, context@),
    {
        let len: usize = if context.len() < 256 {
            context.len()
        } else {
            256
        };
        let mut i: usize = 0;
        while i < len
            invariant
                len <= 256,
                len <= context@.len(),
                i <= len,
                self.context@.len() == 256,
                forall|k: int| 0 <= k < i ==> self.context@[k] == context@[k],
                forall|k: int| i <= k < 256 ==> self.context@[k] == old(self).context@[k],
                self.name@ == old(self).name@,
                self.identity@ == old(self).identity@,
                self.description@ == old(self).description@,
                self.ui_version == old(self).ui_version,
                self.ui_tick == old(self).ui_tick,
                self.avatar == old(self).avatar,
                self.camera == old(self).camera,
                self.context_len == old(self).context_len,
            decreases len - i,
        {
            let b: u8 = *vstd::slice::slice_index_get(context, i);
            self.context[i] = b;
            i = i + 1;
        }
        self.context_len = len as u32;
        proof {
            assert(self@ =~= with_context(old(self)@, context@));
        }
    }

    /// Replace the identity text: encoded into the identity buffer per the
    /// codec's truncate-and-terminate rules.
    pub fn set_identity(&mut self, identity: &str)
        requires
            old(self).wf(),
        ensures
            final(self).wf(),
            final(self)@ == with_identity(old(self)@, identity@),
    {
        codec::copy(self.identity.as_mut_slice(), identity);
        proof {
            assert(self@ =~= with_identity(old(self)@, identity@));
        }
    }

    /// One update step on the shadow: advance the tick once (wrapping) and
    /// overwrite the avatar and camera positions. The shared region is the
    /// owning link's responsibility, not this record's.
    pub fn update(&mut self, avatar: Position, camera: Position)
        requires
            old(self).wf(),
        ensures
            final(self).wf(),
            final(self)@ == ticked(old(self)@, avatar, camera),
    {
        self.ui_tick = if self.ui_tick == 0xFFFF_FFFFu32 {
            0
        } else {
            self.ui_tick + 1
        };
        self.avatar = avatar;
        self.camera = camera;
        proof {
            assert(self@ =~= ticked(old(self)@, avatar, camera));
        }
    }
}

} // verus!
