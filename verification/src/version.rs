//! Protocol versions and the slot display type ids that depend on them.

use vstd::prelude::*;

verus! {

/// A Minecraft release, ordered by its numbers: 1.21.4 precedes 26.1.
#[derive(Clone, Copy, Debug, PartialEq, Eq, Structural)]
pub struct MinecraftVersion {
    pub major: u32,
    pub minor: u32,
    pub patch: u32,
}

impl MinecraftVersion {
    /// Release 26.1, the first whose slot display registry has the three
    /// types inserted before `item` and `composite`.
    pub open spec fn spec_v26_1() -> MinecraftVersion {
        MinecraftVersion { major: 26, minor: 1, patch: 0 }
    }

    /// `self` is the release `other` or a later one.
    pub open spec fn spec_at_least(self, other: MinecraftVersion) -> bool {
        ||| self.major > other.major
        ||| self.major == other.major && self.minor > other.minor
        ||| self.major == other.major && self.minor == other.minor && self.patch >= other.patch
    }

    pub fn new(major: u32, minor: u32, patch: u32) -> (v: MinecraftVersion)
        ensures
            v == (MinecraftVersion { major, minor, patch }),
    {
        MinecraftVersion { major, minor, patch }
    }

    pub fn v26_1() -> (v: MinecraftVersion)
        ensures
            v == MinecraftVersion::spec_v26_1(),
    {
        MinecraftVersion { major: 26, minor: 1, patch: 0 }
    }

    pub fn at_least(&self, other: &MinecraftVersion) -> (b: bool)
        ensures
            b == self.spec_at_least(*other),
    {
        if self.major != other.major {
            self.major > other.major
        } else if self.minor != other.minor {
            self.minor > other.minor
        } else {
            self.patch >= other.patch
        }
    }
}

/// The slot display type id of a single item: 4 from 26.1 on, 2 before.
pub open spec fn spec_slot_display_item(version: MinecraftVersion) -> i32 {
    if version.spec_at_least(MinecraftVersion::spec_v26_1()) {
        4
    } else {
        2
    }
}

/// The slot display type id of a composite: 10 from 26.1 on, 7 before.
pub open spec fn spec_slot_display_composite(version: MinecraftVersion) -> i32 {
    if version.spec_at_least(MinecraftVersion::spec_v26_1()) {
        10
    } else {
        7
    }
}

pub fn slot_display_item(version: MinecraftVersion) -> (id: i32)
    ensures
        id == spec_slot_display_item(version),
{
    if version.at_least(&MinecraftVersion::v26_1()) {
        4
    } else {
        2
    }
}

pub fn slot_display_composite(version: MinecraftVersion) -> (id: i32)
    ensures
        id == spec_slot_display_composite(version),
{
    if version.at_least(&MinecraftVersion::v26_1()) {
        10
    } else {
        7
    }
}

} // verus!
