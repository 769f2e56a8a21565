//! Positions on the chain.

use vstd::prelude::*;
use vstd::std_specs::cmp::PartialEqSpecImpl;

verus! {

/// What a [`Point`] stands for: the origin, or a slot and the hash of the
/// block in it.
pub enum PointModel {
    Origin,
    Specific(u64, Seq<u8>),
}

impl PointModel {
    /// The slot of a specific point, 0 for the origin.
    pub open spec fn slot(self) -> u64 {
        match self {
            PointModel::Origin => 0,
            PointModel::Specific(slot, _) => slot,
        }
    }
}

/// A position on the chain.
#[derive(Debug)]
pub enum Point {
    Origin,
    Specific(u64, Vec<u8>),
}

impl View for Point {
    type V = PointModel;

    open spec fn view(&self) -> PointModel {
        match *self {
            Point::Origin => PointModel::Origin,
            Point::Specific(slot, hash) => PointModel::Specific(slot, hash@),
        }
    }
}

impl Point {
    /// The point of the block with this hash in this slot.
    pub fn new(slot: u64, hash: Vec<u8>) -> (p: Point)
        ensures
            p@ == PointModel::Specific(slot, hash@),
    {
        Point::Specific(slot, hash)
    }

    /// The slot of a specific point, 0 for the origin.
    pub fn slot_or_default(&self) -> (slot: u64)
        ensures
            slot == self@.slot(),
    {
        match self {
            Point::Origin => 0,
            Point::Specific(slot, _) => *slot,
        }
    }
}

impl Clone for Point {
    fn clone(&self) -> (p: Point)
        ensures
            p@ == self@,
    {
        match self {
            Point::Origin => Point::Origin,
            Point::Specific(slot, hash) => Point::Specific(*slot, hash.clone()),
        }
    }
}

impl PartialEq for Point {
    fn eq(&self, other: &Point) -> (r: bool) {
        match (self, other) {
            (Point::Origin, Point::Origin) => true,
            (Point::Specific(slot, hash), Point::Specific(other_slot, other_hash)) => {
                let hashes_same = *hash == *other_hash;
                assert(hashes_same == (hash@ == other_hash@)) by {
                    if hashes_same {
                        assert(hash@ =~= other_hash@);
                    }
                }
                let same = *slot == *other_slot && hashes_same;
                same
            },
            _ => false,
        }
    }
}

impl Eq for Point {

}

impl PartialEqSpecImpl for Point {
    open spec fn obeys_eq_spec() -> bool {
        true
    }

    open spec fn eq_spec(&self, other: &Point) -> bool {
        self@ == other@
    }
}

} // verus!
