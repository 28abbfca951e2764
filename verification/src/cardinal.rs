//! The four cardinal directions, each read as a decision strategy.

use vstd::prelude::*;

verus! {

/// Cardinal directions as decision strategies in 2D space.
#[derive(Debug, Clone, Copy, PartialEq, Eq, Structural)]
pub enum Cardinal {
    North,
    South,
    East,
    West,
}

/// The direction that points the other way.
pub open spec fn spec_opposite(c: Cardinal) -> Cardinal {
    match c {
        Cardinal::North => Cardinal::South,
        Cardinal::South => Cardinal::North,
        Cardinal::East => Cardinal::West,
        Cardinal::West => Cardinal::East,
    }
}

/// The grid offset (east, north) of a cardinal direction: the components of its unit bearing.
pub open spec fn spec_offset(c: Cardinal) -> (int, int) {
    match c {
        Cardinal::North => (0, 1),
        Cardinal::South => (0, -1),
        Cardinal::East => (1, 0),
        Cardinal::West => (-1, 0),
    }
}

/// The display label of a cardinal direction.
pub open spec fn spec_label(c: Cardinal) -> Seq<char> {
    match c {
        Cardinal::North => "North"@,
        Cardinal::South => "South"@,
        Cardinal::East => "East"@,
        Cardinal::West => "West"@,
    }
}

/// The decision strategy that a cardinal direction stands for.
pub open spec fn spec_strategy(c: Cardinal) -> Seq<char> {
    match c {
        Cardinal::North => "Expand/Grow"@,
        Cardinal::South => "Consolidate/Reduce"@,
        Cardinal::East => "Explore/Innovate"@,
        Cardinal::West => "Retrench/Simplify"@,
    }
}

/// All cardinal directions, clockwise from North.
pub open spec fn spec_all() -> Seq<Cardinal> {
    seq![Cardinal::North, Cardinal::East, Cardinal::South, Cardinal::West]
}

impl Cardinal {
    /// The grid offset (east, north) of this direction; its bearing has these components.
    pub fn offset(&self) -> (r: (i8, i8))
        ensures
            r.0 == spec_offset(*self).0,
            r.1 == spec_offset(*self).1,
    {
        match self {
            Cardinal::North => (0, 1),
            Cardinal::South => (0, -1),
            Cardinal::East => (1, 0),
            Cardinal::West => (-1, 0),
        }
    }

    /// The direction that points the other way.
    pub fn opposite(&self) -> (r: Cardinal)
        ensures
            r == spec_opposite(*self),
    {
        match self {
            Cardinal::North => Cardinal::South,
            Cardinal::South => Cardinal::North,
            Cardinal::East => Cardinal::West,
            Cardinal::West => Cardinal::East,
        }
    }

    /// The display name of this direction.
    pub fn label(&self) -> (s: &str)
        ensures
            s@ == spec_label(*self),
    {
        match self {
            Cardinal::North => "North",
            Cardinal::South => "South",
            Cardinal::East => "East",
            Cardinal::West => "West",
        }
    }

    /// All four directions, clockwise from North.
    pub fn all() -> (v: Vec<Cardinal>)
        ensures
            v@ == spec_all(),
    {
        vec![Cardinal::North, Cardinal::East, Cardinal::South, Cardinal::West]
    }

    /// Interpret the cardinal as a decision strategy.
    pub fn strategy(&self) -> (s: &str)
        ensures
            s@ == spec_strategy(*self),
    {
        match self {
            Cardinal::North => "Expand/Grow",
            Cardinal::South => "Consolidate/Reduce",
            Cardinal::East => "Explore/Innovate",
            Cardinal::West => "Retrench/Simplify",
        }
    }
}

} // verus!

verus! {

/// Turning to the opposite direction twice leads back to the start, and the
/// opposite of a direction is never the direction itself.
pub proof fn lemma_opposite_involution(c: Cardinal)
    ensures
        spec_opposite(spec_opposite(c)) == c,
        spec_opposite(c) != c,
{
}

/// The opposite direction points exactly the other way: its offset is the negated offset.
pub proof fn lemma_opposite_negates_offset(c: Cardinal)
    ensures
        spec_offset(spec_opposite(c)).0 == -spec_offset(c).0,
        spec_offset(spec_opposite(c)).1 == -spec_offset(c).1,
{
}

/// Every cardinal bearing is a unit vector along one axis.
pub proof fn lemma_offset_is_unit(c: Cardinal)
    ensures
        spec_offset(c).0 * spec_offset(c).0 + spec_offset(c).1 * spec_offset(c).1 == 1,
        spec_offset(c).0 == 0 || spec_offset(c).1 == 0,
{
}

/// The list of all cardinal directions holds each of the four directions exactly once.
pub proof fn lemma_all_lists_each_once(c: Cardinal)
    ensures
        spec_all().len() == 4,
        spec_all().contains(c),
        forall|i: int, j: int|
            0 <= i < spec_all().len() && 0 <= j < spec_all().len() && i != j ==> spec_all()[i]
                != spec_all()[j],
{
    match c {
        Cardinal::North => assert(spec_all()[0] == c),
        Cardinal::East => assert(spec_all()[1] == c),
        Cardinal::South => assert(spec_all()[2] == c),
        Cardinal::West => assert(spec_all()[3] == c),
    }
}

/// Distinct cardinal directions carry distinct labels and distinct strategies.
pub proof fn lemma_labels_distinct(a: Cardinal, b: Cardinal)
    requires
        a != b,
    ensures
        spec_label(a) != spec_label(b),
        spec_strategy(a) != spec_strategy(b),
{
    reveal_strlit("North");
    reveal_strlit("South");
    reveal_strlit("East");
    reveal_strlit("West");
    reveal_strlit("Expand/Grow");
    reveal_strlit("Consolidate/Reduce");
    reveal_strlit("Explore/Innovate");
    reveal_strlit("Retrench/Simplify");
    assert("North"@[0] == 'N' && "South"@[0] == 'S' && "East"@[0] == 'E' && "West"@[0] == 'W');
    assert("Expand/Grow"@.len() == 11 && "Consolidate/Reduce"@.len() == 18);
    assert("Explore/Innovate"@.len() == 16 && "Retrench/Simplify"@.len() == 17);
}

} // verus!
