//! Size classes of rocks.
use rand::rngs::ThreadRng;
use vstd::prelude::*;

use crate::draw::draw_below;

verus! {

/// The three size classes of a rock.
#[derive(Clone, Copy, Debug, PartialEq, Eq, Structural)]
pub enum AsteroidType {
    Small,
    Medium,
    Large,
}

/// Number of size classes.
pub const CLASS_COUNT: usize = 3;

/// The size multiplier of a class, in tenths: 0.3, 1.0 and 2.0.
pub open spec fn size_tenths_of(c: AsteroidType) -> nat {
    match c {
        AsteroidType::Small => 3,
        AsteroidType::Medium => 10,
        AsteroidType::Large => 20,
    }
}

/// The class a rock breaks into: a small rock breaks into nothing.
pub open spec fn degraded(c: AsteroidType) -> Option<AsteroidType> {
    match c {
        AsteroidType::Small => None,
        AsteroidType::Medium => Some(AsteroidType::Small),
        AsteroidType::Large => Some(AsteroidType::Medium),
    }
}

/// The classes in order of size, as a random draw indexes them.
pub open spec fn class_at(i: int) -> AsteroidType {
    if i == 0 {
        AsteroidType::Small
    } else if i == 1 {
        AsteroidType::Medium
    } else {
        AsteroidType::Large
    }
}

/// Least outline radius of a rock of size multiplier 1.
pub const RADIUS_MIN: u32 = 20;

/// Bound (exclusive) of the outline radius of a rock of size multiplier 1.
pub const RADIUS_MAX: u32 = 80;

impl AsteroidType {
    /// The size multiplier, in tenths.
    pub fn size_tenths(&self) -> (r: u32)
        ensures
            r == size_tenths_of(*self),
    {
        match self {
            AsteroidType::Small => 3,
            AsteroidType::Medium => 10,
            AsteroidType::Large => 20,
        }
    }

    /// The class one step smaller, if any.
    pub fn degrade(&self) -> (r: Option<AsteroidType>)
        ensures
            r == degraded(*self),
    {
        match self {
            AsteroidType::Small => None,
            AsteroidType::Medium => Some(AsteroidType::Small),
            AsteroidType::Large => Some(AsteroidType::Medium),
        }
    }

    /// The class with index `i`, smallest first.
    pub fn from_index(i: usize) -> (r: AsteroidType)
        requires
            i < CLASS_COUNT,
        ensures
            r == class_at(i as int),
    {
        if i == 0 {
            AsteroidType::Small
        } else if i == 1 {
            AsteroidType::Medium
        } else {
            AsteroidType::Large
        }
    }

    /// A class drawn uniformly at random.
    pub fn random(rng: &mut ThreadRng) -> (r: AsteroidType)
        ensures
            exists|i: int| 0 <= i < CLASS_COUNT && r == class_at(i),
    {
        let i = draw_below(rng, CLASS_COUNT);
        AsteroidType::from_index(i)
    }

    /// The range `[min, max)` of outline radii of a rock of this class, in
    /// tenths of a unit: the radius bounds scaled by the size multiplier.
    pub fn radius_range_tenths(&self) -> (r: (u32, u32))
        ensures
            r.0 == RADIUS_MIN * size_tenths_of(*self),
            r.1 == RADIUS_MAX * size_tenths_of(*self),
            r.0 < r.1,
    {
        let s = self.size_tenths();
        (RADIUS_MIN * s, RADIUS_MAX * s)
    }
}

} // verus!
