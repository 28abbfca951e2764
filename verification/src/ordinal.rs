//! The four ordinal (intermediate) directions, and the eight compass directions
//! that the cardinal and ordinal directions make together.

use vstd::prelude::*;
use crate::cardinal::{
    Cardinal, spec_all, spec_label as spec_cardinal_label, spec_offset as spec_cardinal_offset,
    spec_strategy as spec_cardinal_strategy,
};

verus! {

/// Ordinal (intermediate) directions.
#[derive(Debug, Clone, Copy, PartialEq, Eq, Structural)]
pub enum Ordinal {
    NorthEast,
    NorthWest,
    SouthEast,
    SouthWest,
}

/// The two cardinal directions that an ordinal direction lies between.
pub open spec fn spec_cardinals(o: Ordinal) -> (Cardinal, Cardinal) {
    match o {
        Ordinal::NorthEast => (Cardinal::North, Cardinal::East),
        Ordinal::NorthWest => (Cardinal::North, Cardinal::West),
        Ordinal::SouthEast => (Cardinal::South, Cardinal::East),
        Ordinal::SouthWest => (Cardinal::South, Cardinal::West),
    }
}

/// The grid offset (east, north) of an ordinal direction; its unit bearing is
/// this offset scaled by one over the square root of two.
pub open spec fn spec_ordinal_offset(o: Ordinal) -> (int, int) {
    match o {
        Ordinal::NorthEast => (1, 1),
        Ordinal::NorthWest => (-1, 1),
        Ordinal::SouthEast => (1, -1),
        Ordinal::SouthWest => (-1, -1),
    }
}

/// The short label of an ordinal direction.
pub open spec fn spec_ordinal_label(o: Ordinal) -> Seq<char> {
    match o {
        Ordinal::NorthEast => "NE"@,
        Ordinal::NorthWest => "NW"@,
        Ordinal::SouthEast => "SE"@,
        Ordinal::SouthWest => "SW"@,
    }
}

/// The decision strategy that an ordinal direction stands for.
pub open spec fn spec_ordinal_strategy(o: Ordinal) -> Seq<char> {
    match o {
        Ordinal::NorthEast => "Grow + Innovate"@,
        Ordinal::NorthWest => "Grow + Simplify"@,
        Ordinal::SouthEast => "Reduce + Innovate"@,
        Ordinal::SouthWest => "Reduce + Simplify"@,
    }
}

/// All ordinal directions, in the order that `Ordinal::all` gives them.
pub open spec fn spec_ordinal_all() -> Seq<Ordinal> {
    seq![Ordinal::NorthEast, Ordinal::NorthWest, Ordinal::SouthEast, Ordinal::SouthWest]
}

impl Ordinal {
    /// The grid offset (east, north) of this direction.
    pub fn offset(&self) -> (r: (i8, i8))
        ensures
            r.0 == spec_ordinal_offset(*self).0,
            r.1 == spec_ordinal_offset(*self).1,
    {
        match self {
            Ordinal::NorthEast => (1, 1),
            Ordinal::NorthWest => (-1, 1),
            Ordinal::SouthEast => (1, -1),
            Ordinal::SouthWest => (-1, -1),
        }
    }

    /// The two cardinal directions that this direction lies between.
    pub fn cardinals(&self) -> (r: (Cardinal, Cardinal))
        ensures
            r == spec_cardinals(*self),
    {
        match self {
            Ordinal::NorthEast => (Cardinal::North, Cardinal::East),
            Ordinal::NorthWest => (Cardinal::North, Cardinal::West),
            Ordinal::SouthEast => (Cardinal::South, Cardinal::East),
            Ordinal::SouthWest => (Cardinal::South, Cardinal::West),
        }
    }

    pub fn label(&self) -> (s: &str)
        ensures
            s@ == spec_ordinal_label(*self),
    {
        match self {
            Ordinal::NorthEast => "NE",
            Ordinal::NorthWest => "NW",
            Ordinal::SouthEast => "SE",
            Ordinal::SouthWest => "SW",
        }
    }

    /// All four ordinal directions.
    pub fn all() -> (v: Vec<Ordinal>)
        ensures
            v@ == spec_ordinal_all(),
    {
        vec![Ordinal::NorthEast, Ordinal::NorthWest, Ordinal::SouthEast, Ordinal::SouthWest]
    }

    /// Interpret the ordinal as a combined decision strategy.
    pub fn strategy(&self) -> (s: &str)
        ensures
            s@ == spec_ordinal_strategy(*self),
    {
        match self {
            Ordinal::NorthEast => "Grow + Innovate",
            Ordinal::NorthWest => "Grow + Simplify",
            Ordinal::SouthEast => "Reduce + Innovate",
            Ordinal::SouthWest => "Reduce + Simplify",
        }
    }
}

/// All 8 compass directions (cardinal + ordinal).
#[derive(Debug, Clone, Copy, PartialEq, Eq, Structural)]
pub enum CompassDirection {
    C(Cardinal),
    O(Ordinal),
}

/// The grid offset (east, north) of a compass direction.
pub open spec fn spec_compass_offset(d: CompassDirection) -> (int, int) {
    match d {
        CompassDirection::C(c) => spec_cardinal_offset(c),
        CompassDirection::O(o) => spec_ordinal_offset(o),
    }
}

/// The label of a compass direction: that of the cardinal or ordinal it wraps.
pub open spec fn spec_compass_label(d: CompassDirection) -> Seq<char> {
    match d {
        CompassDirection::C(c) => spec_cardinal_label(c),
        CompassDirection::O(o) => spec_ordinal_label(o),
    }
}

/// The eight compass directions: the cardinal ones in the order of `Cardinal::all`,
/// then the ordinal ones in the order of `Ordinal::all`.
pub open spec fn spec_all_8() -> Seq<CompassDirection> {
    spec_all().map_values(|c: Cardinal| CompassDirection::C(c)) + spec_ordinal_all().map_values(
        |o: Ordinal| CompassDirection::O(o),
    )
}

impl CompassDirection {
    /// The grid offset (east, north) of this direction.
    pub fn offset(&self) -> (r: (i8, i8))
        ensures
            r.0 == spec_compass_offset(*self).0,
            r.1 == spec_compass_offset(*self).1,
    {
        match self {
            CompassDirection::C(c) => c.offset(),
            CompassDirection::O(o) => o.offset(),
        }
    }

    /// The four cardinal directions, then the four ordinal ones.
    pub fn all_8() -> (v: Vec<CompassDirection>)
        ensures
            v@ == spec_all_8(),
    {
        let cardinals = Cardinal::all();
        let ordinals = Ordinal::all();
        let mut dirs: Vec<CompassDirection> = Vec::new();
        for i in 0..cardinals.len()
            invariant
                cardinals@ == spec_all(),
                dirs@ == cardinals@.take(i as int).map_values(|c: Cardinal| CompassDirection::C(c)),
        {
            dirs.push(CompassDirection::C(cardinals[i]));
            assert(cardinals@.take(i + 1) == cardinals@.take(i as int).push(cardinals@[i as int]));
        }
        assert(cardinals@.take(cardinals.len() as int) == cardinals@);
        let ghost head = dirs@;
        for j in 0..ordinals.len()
            invariant
                ordinals@ == spec_ordinal_all(),
                head == spec_all().map_values(|c: Cardinal| CompassDirection::C(c)),
                dirs@ == head + ordinals@.take(j as int).map_values(|o: Ordinal| CompassDirection::O(o)),
        {
            dirs.push(CompassDirection::O(ordinals[j]));
            assert(ordinals@.take(j + 1) == ordinals@.take(j as int).push(ordinals@[j as int]));
        }
        assert(ordinals@.take(ordinals.len() as int) == ordinals@);
        dirs
    }

    pub fn label(&self) -> (s: &str)
        ensures
            s@ == spec_compass_label(*self),
    {
        match self {
            CompassDirection::C(c) => c.label(),
            CompassDirection::O(o) => o.label(),
        }
    }
}

} // verus!

verus! {

/// An ordinal direction lies between one of North/South and one of East/West,
/// and its offset is the sum of the offsets of those two cardinal directions.
pub proof fn lemma_ordinal_between_cardinals(o: Ordinal)
    ensures
        spec_cardinals(o).0 == Cardinal::North || spec_cardinals(o).0 == Cardinal::South,
        spec_cardinals(o).1 == Cardinal::East || spec_cardinals(o).1 == Cardinal::West,
        spec_ordinal_offset(o).0 == spec_cardinal_offset(spec_cardinals(o).0).0
            + spec_cardinal_offset(spec_cardinals(o).1).0,
        spec_ordinal_offset(o).1 == spec_cardinal_offset(spec_cardinals(o).0).1
            + spec_cardinal_offset(spec_cardinals(o).1).1,
{
}

/// Distinct ordinal directions lie between distinct pairs of cardinal directions.
pub proof fn lemma_cardinals_injective(a: Ordinal, b: Ordinal)
    requires
        spec_cardinals(a) == spec_cardinals(b),
    ensures
        a == b,
{
}

/// The list of all ordinal directions holds each of the four exactly once.
pub proof fn lemma_ordinal_all_lists_each_once(o: Ordinal)
    ensures
        spec_ordinal_all().len() == 4,
        spec_ordinal_all().contains(o),
        forall|i: int, j: int|
            0 <= i < spec_ordinal_all().len() && 0 <= j < spec_ordinal_all().len() && i != j
                ==> spec_ordinal_all()[i] != spec_ordinal_all()[j],
{
    match o {
        Ordinal::NorthEast => assert(spec_ordinal_all()[0] == o),
        Ordinal::NorthWest => assert(spec_ordinal_all()[1] == o),
        Ordinal::SouthEast => assert(spec_ordinal_all()[2] == o),
        Ordinal::SouthWest => assert(spec_ordinal_all()[3] == o),
    }
}

/// The eight compass directions hold every cardinal and every ordinal direction exactly once.
pub proof fn lemma_all_8_lists_each_once(d: CompassDirection)
    ensures
        spec_all_8().len() == 8,
        spec_all_8().contains(d),
        forall|i: int, j: int|
            0 <= i < spec_all_8().len() && 0 <= j < spec_all_8().len() && i != j
                ==> spec_all_8()[i] != spec_all_8()[j],
{
    let s = spec_all_8();
    assert(s =~= seq![
        CompassDirection::C(Cardinal::North),
        CompassDirection::C(Cardinal::East),
        CompassDirection::C(Cardinal::South),
        CompassDirection::C(Cardinal::West),
        CompassDirection::O(Ordinal::NorthEast),
        CompassDirection::O(Ordinal::NorthWest),
        CompassDirection::O(Ordinal::SouthEast),
        CompassDirection::O(Ordinal::SouthWest),
    ]);
    match d {
        CompassDirection::C(Cardinal::North) => assert(s[0] == d),
        CompassDirection::C(Cardinal::East) => assert(s[1] == d),
        CompassDirection::C(Cardinal::South) => assert(s[2] == d),
        CompassDirection::C(Cardinal::West) => assert(s[3] == d),
        CompassDirection::O(Ordinal::NorthEast) => assert(s[4] == d),
        CompassDirection::O(Ordinal::NorthWest) => assert(s[5] == d),
        CompassDirection::O(Ordinal::SouthEast) => assert(s[6] == d),
        CompassDirection::O(Ordinal::SouthWest) => assert(s[7] == d),
    }
}

/// Cardinal offsets have squared length one and ordinal offsets squared length two,
/// so that scaling the ordinal ones by one over the square root of two makes every
/// compass bearing a unit vector.
pub proof fn lemma_compass_offset_length(d: CompassDirection)
    ensures
        spec_compass_offset(d).0 * spec_compass_offset(d).0 + spec_compass_offset(d).1
            * spec_compass_offset(d).1 == (if d is C { 1int } else { 2int }),
{
}

/// Distinct compass directions carry distinct labels.
pub proof fn lemma_compass_labels_distinct(a: CompassDirection, b: CompassDirection)
    requires
        a != b,
    ensures
        spec_compass_label(a) != spec_compass_label(b),
{
    reveal_strlit("North");
    reveal_strlit("South");
    reveal_strlit("East");
    reveal_strlit("West");
    reveal_strlit("NE");
    reveal_strlit("NW");
    reveal_strlit("SE");
    reveal_strlit("SW");
    assert("North"@.len() == 5 && "South"@.len() == 5 && "East"@.len() == 4 && "West"@.len() == 4);
    assert("North"@[0] == 'N' && "South"@[0] == 'S' && "East"@[0] == 'E' && "West"@[0] == 'W');
    assert("NE"@.len() == 2 && "NW"@.len() == 2 && "SE"@.len() == 2 && "SW"@.len() == 2);
    assert("NE"@[0] == 'N' && "NW"@[0] == 'N' && "SE"@[0] == 'S' && "SW"@[0] == 'S');
    assert("NE"@[1] == 'E' && "NW"@[1] == 'W' && "SE"@[1] == 'E' && "SW"@[1] == 'W');
}

/// Distinct ordinal directions stand for distinct strategies.
pub proof fn lemma_ordinal_strategies_distinct(a: Ordinal, b: Ordinal)
    requires
        a != b,
    ensures
        spec_ordinal_strategy(a) != spec_ordinal_strategy(b),
{
    reveal_strlit("Grow + Innovate");
    reveal_strlit("Grow + Simplify");
    reveal_strlit("Reduce + Innovate");
    reveal_strlit("Reduce + Simplify");
    assert("Grow + Innovate"@[0] == 'G' && "Grow + Simplify"@[0] == 'G');
    assert("Reduce + Innovate"@[0] == 'R' && "Reduce + Simplify"@[0] == 'R');
    assert("Grow + Innovate"@[7] == 'I' && "Grow + Simplify"@[7] == 'S');
    assert("Reduce + Innovate"@[9] == 'I' && "Reduce + Simplify"@[9] == 'S');
}

} // verus!

verus! {

/// A compass direction points the same way, and carries the same label, as the
/// cardinal or ordinal direction that it wraps.
pub proof fn lemma_compass_agrees_with_component(c: Cardinal, o: Ordinal)
    ensures
        spec_compass_offset(CompassDirection::C(c)) == spec_cardinal_offset(c),
        spec_compass_offset(CompassDirection::O(o)) == spec_ordinal_offset(o),
        spec_compass_label(CompassDirection::C(c)) == spec_cardinal_label(c),
        spec_compass_label(CompassDirection::O(o)) == spec_ordinal_label(o),
{
}

/// Each of the eight compass directions points the way its label names: north
/// exactly when the label starts with 'N', south exactly when it starts with
/// 'S', east exactly when it holds an 'E', and west exactly when it holds a 'W'.
pub proof fn lemma_offset_agrees_with_label(d: CompassDirection)
    ensures
        spec_compass_offset(d).1 > 0 <==> spec_compass_label(d)[0] == 'N',
        spec_compass_offset(d).1 < 0 <==> spec_compass_label(d)[0] == 'S',
        spec_compass_offset(d).0 > 0 <==> spec_compass_label(d).contains('E'),
        spec_compass_offset(d).0 < 0 <==> spec_compass_label(d).contains('W'),
{
    reveal_strlit("North");
    reveal_strlit("South");
    reveal_strlit("East");
    reveal_strlit("West");
    reveal_strlit("NE");
    reveal_strlit("NW");
    reveal_strlit("SE");
    reveal_strlit("SW");
    let l = spec_compass_label(d);
    match d {
        CompassDirection::C(Cardinal::North) => {
            assert(l =~= seq!['N', 'o', 'r', 't', 'h']);
        },
        CompassDirection::C(Cardinal::South) => {
            assert(l =~= seq!['S', 'o', 'u', 't', 'h']);
        },
        CompassDirection::C(Cardinal::East) => {
            assert(l =~= seq!['E', 'a', 's', 't']);
            assert(l[0] == 'E');
        },
        CompassDirection::C(Cardinal::West) => {
            assert(l =~= seq!['W', 'e', 's', 't']);
            assert(l[0] == 'W');
        },
        CompassDirection::O(Ordinal::NorthEast) => {
            assert(l =~= seq!['N', 'E']);
            assert(l[1] == 'E');
        },
        CompassDirection::O(Ordinal::NorthWest) => {
            assert(l =~= seq!['N', 'W']);
            assert(l[1] == 'W');
        },
        CompassDirection::O(Ordinal::SouthEast) => {
            assert(l =~= seq!['S', 'E']);
            assert(l[1] == 'E');
        },
        CompassDirection::O(Ordinal::SouthWest) => {
            assert(l =~= seq!['S', 'W']);
            assert(l[1] == 'W');
        },
    }
}

/// The label of an ordinal direction is the initials of the two cardinal
/// directions it lies between.
pub proof fn lemma_ordinal_label_is_initials(o: Ordinal)
    ensures
        spec_ordinal_label(o) == seq![
            spec_cardinal_label(spec_cardinals(o).0)[0],
            spec_cardinal_label(spec_cardinals(o).1)[0],
        ],
{
    reveal_strlit("North");
    reveal_strlit("South");
    reveal_strlit("East");
    reveal_strlit("West");
    reveal_strlit("NE");
    reveal_strlit("NW");
    reveal_strlit("SE");
    reveal_strlit("SW");
}

/// The strategy of an ordinal direction joins, with " + ", the aims of the two
/// cardinal strategies it lies between: the part of each after its '/'.
pub proof fn lemma_ordinal_strategy_joins_cardinal_aims(o: Ordinal)
    ensures
        exists|i: int, j: int|
            #![trigger spec_cardinal_strategy(spec_cardinals(o).0)[i], spec_cardinal_strategy(spec_cardinals(o).1)[j]]
            0 <= i < spec_cardinal_strategy(spec_cardinals(o).0).len() && 0 <= j
                < spec_cardinal_strategy(spec_cardinals(o).1).len()
                && spec_cardinal_strategy(spec_cardinals(o).0)[i] == '/'
                && spec_cardinal_strategy(spec_cardinals(o).1)[j] == '/'
                && spec_ordinal_strategy(o) == spec_cardinal_strategy(spec_cardinals(o).0).skip(i + 1)
                + " + "@ + spec_cardinal_strategy(spec_cardinals(o).1).skip(j + 1),
{
    reveal_strlit("Expand/Grow");
    reveal_strlit("Consolidate/Reduce");
    reveal_strlit("Explore/Innovate");
    reveal_strlit("Retrench/Simplify");
    reveal_strlit("Grow + Innovate");
    reveal_strlit("Grow + Simplify");
    reveal_strlit("Reduce + Innovate");
    reveal_strlit("Reduce + Simplify");
    reveal_strlit(" + ");
    let n = spec_cardinal_strategy(Cardinal::North);
    let s = spec_cardinal_strategy(Cardinal::South);
    let e = spec_cardinal_strategy(Cardinal::East);
    let w = spec_cardinal_strategy(Cardinal::West);
    assert(n[6] == '/' && s[11] == '/' && e[7] == '/' && w[8] == '/');
    match o {
        Ordinal::NorthEast => {
            let (i, j) = (6int, 7int);
            assert(spec_ordinal_strategy(o) =~= n.skip(i + 1) + " + "@ + e.skip(j + 1));
            assert(spec_cardinal_strategy(spec_cardinals(o).0)[i] == '/');
            assert(spec_cardinal_strategy(spec_cardinals(o).1)[j] == '/');
        },
        Ordinal::NorthWest => {
            let (i, j) = (6int, 8int);
            assert(spec_ordinal_strategy(o) =~= n.skip(i + 1) + " + "@ + w.skip(j + 1));
            assert(spec_cardinal_strategy(spec_cardinals(o).0)[i] == '/');
            assert(spec_cardinal_strategy(spec_cardinals(o).1)[j] == '/');
        },
        Ordinal::SouthEast => {
            let (i, j) = (11int, 7int);
            assert(spec_ordinal_strategy(o) =~= s.skip(i + 1) + " + "@ + e.skip(j + 1));
            assert(spec_cardinal_strategy(spec_cardinals(o).0)[i] == '/');
            assert(spec_cardinal_strategy(spec_cardinals(o).1)[j] == '/');
        },
        Ordinal::SouthWest => {
            let (i, j) = (11int, 8int);
            assert(spec_ordinal_strategy(o) =~= s.skip(i + 1) + " + "@ + w.skip(j + 1));
            assert(spec_cardinal_strategy(spec_cardinals(o).0)[i] == '/');
            assert(spec_cardinal_strategy(spec_cardinals(o).1)[j] == '/');
        },
    }
}

} // verus!
