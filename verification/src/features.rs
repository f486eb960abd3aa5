//! The kinds of storage that a session can deal with, each of which depends
//! on tools of its own.
use vstd::prelude::*;

verus! {

/// A set of the kinds of storage.
#[derive(Clone, Copy, Debug, PartialEq, Eq, Structural)]
pub struct Features {
    /// Filesystems with subvolumes.
    pub btrfs: bool,
    /// Encrypted volumes.
    pub luks: bool,
    /// Pools and datasets.
    pub zfs: bool,
}

impl Features {
    /// No kind.
    pub fn empty() -> (out: Features)
        ensures
            out == (Features { btrfs: false, luks: false, zfs: false }),
    {
        Features { btrfs: false, luks: false, zfs: false }
    }

    /// Every kind.
    pub fn all() -> (out: Features)
        ensures
            out == (Features { btrfs: true, luks: true, zfs: true }),
    {
        Features { btrfs: true, luks: true, zfs: true }
    }

    /// The kinds of `self` and of `other` together.
    pub open spec fn union_of(self, other: Features) -> Features {
        Features {
            btrfs: self.btrfs || other.btrfs,
            luks: self.luks || other.luks,
            zfs: self.zfs || other.zfs,
        }
    }

    /// The kinds of `self` that are none of `other`.
    pub open spec fn difference_of(self, other: Features) -> Features {
        Features {
            btrfs: self.btrfs && !other.btrfs,
            luks: self.luks && !other.luks,
            zfs: self.zfs && !other.zfs,
        }
    }

    /// Whether every kind of `other` is one of `self`.
    pub open spec fn includes(self, other: Features) -> bool {
        &&& other.btrfs ==> self.btrfs
        &&& other.luks ==> self.luks
        &&& other.zfs ==> self.zfs
    }

    /// The kinds of `self` and of `other` together.
    pub fn union(self, other: Features) -> (out: Features)
        ensures
            out == self.union_of(other),
    {
        Features {
            btrfs: self.btrfs || other.btrfs,
            luks: self.luks || other.luks,
            zfs: self.zfs || other.zfs,
        }
    }

    /// The kinds of `self` that are none of `other`.
    pub fn difference(self, other: Features) -> (out: Features)
        ensures
            out == self.difference_of(other),
    {
        Features {
            btrfs: self.btrfs && !other.btrfs,
            luks: self.luks && !other.luks,
            zfs: self.zfs && !other.zfs,
        }
    }

    /// Whether every kind of `other` is one of `self`.
    pub fn contains(self, other: Features) -> (b: bool)
        ensures
            b == self.includes(other),
    {
        (!other.btrfs || self.btrfs) && (!other.luks || self.luks) && (!other.zfs || self.zfs)
    }

    /// Whether there is no kind in `self`.
    pub fn is_empty(self) -> (b: bool)
        ensures
            b == (self == (Features { btrfs: false, luks: false, zfs: false })),
    {
        !self.btrfs && !self.luks && !self.zfs
    }
}

} // verus!
