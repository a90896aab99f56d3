use vstd::prelude::*;

use crate::types::Cid;

verus! {

/// What the store records of a block.
pub struct Metadata {
    /// Explicit local retention requests.
    pub pins: u64,
    /// Stored blocks that reference this one.
    pub referers: u64,
    /// The blocks this one references, in order.
    pub refs: Vec<Cid>,
    /// Whether the block is advertised to the network.
    pub public: bool,
}

pub open spec fn pinned_spec(pins: u64) -> bool {
    pins > 0
}

pub open spec fn live_spec(pins: u64, referers: u64) -> bool {
    referers > 0 || pins > 0
}

impl Metadata {
    pub fn is_pinned(&self) -> (r: bool)
        ensures
            r == pinned_spec(self.pins),
    {
        self.pins > 0
    }

    pub fn is_live(&self) -> (r: bool)
        ensures
            r == live_spec(self.pins, self.referers),
    {
        self.referers > 0 || self.pins > 0
    }

    pub fn is_dead(&self) -> (r: bool)
        ensures
            r == !live_spec(self.pins, self.referers),
    {
        !self.is_live()
    }

    /// How many blocks this one references.
    pub fn children(&self) -> (r: usize)
        ensures
            r == self.refs@.len(),
    {
        self.refs.len()
    }
}

/// Which blocks a listing shows; with no flag set it shows all of them.
#[derive(Clone, Copy)]
pub struct ListFilter {
    pub pinned: bool,
    pub live: bool,
    pub dead: bool,
    pub all: bool,
}

impl ListFilter {
    pub open spec fn shows_spec(&self, pins: u64, referers: u64) -> bool {
        let all = self.all || (!self.pinned && !self.live && !self.dead);
        ||| all
        ||| self.pinned && pinned_spec(pins)
        ||| self.live && live_spec(pins, referers)
        ||| self.dead && !live_spec(pins, referers)
    }

    /// Whether a block with this metadata is listed.
    pub fn shows(&self, metadata: &Metadata) -> (r: bool)
        ensures
            r == self.shows_spec(metadata.pins, metadata.referers),
    {
        let all = self.all || (!self.pinned && !self.live && !self.dead);
        let live = metadata.is_live();
        all || self.pinned && metadata.is_pinned() || self.live && live || self.dead && !live
    }
}

} // verus!
