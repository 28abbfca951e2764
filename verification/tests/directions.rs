use decision_compass::cardinal;
use decision_compass::ordinal;
use decision_compass::{Cardinal, CompassDirection, Ordinal};

// ---- cardinal ----

#[test]
fn test_cardinal_opposite() {
    assert_eq!(cardinal::Cardinal::North.opposite(), cardinal::Cardinal::South);
    assert_eq!(cardinal::Cardinal::East.opposite(), cardinal::Cardinal::West);
}

#[test]
fn test_cardinal_label() {
    assert_eq!(cardinal::Cardinal::North.label(), "North");
}

#[test]
fn test_cardinal_all() {
    assert_eq!(cardinal::Cardinal::all().len(), 4);
}

#[test]
fn test_cardinal_strategy() {
    let s = cardinal::Cardinal::North.strategy();
    assert_eq!(s, "Expand/Grow");
}

#[test]
fn cardinal_opposite_is_involution_and_differs() {
    for c in Cardinal::all() {
        assert_eq!(c.opposite().opposite(), c);
        assert_ne!(c.opposite(), c);
    }
    assert_eq!(Cardinal::South.opposite(), Cardinal::North);
    assert_eq!(Cardinal::West.opposite(), Cardinal::East);
}

#[test]
fn cardinal_all_order_and_labels() {
    assert_eq!(
        Cardinal::all(),
        vec![Cardinal::North, Cardinal::East, Cardinal::South, Cardinal::West]
    );
    let all = Cardinal::all();
    let labels: Vec<&str> = all.iter().map(|c| c.label()).collect();
    assert_eq!(labels, vec!["North", "East", "South", "West"]);
    let strategies: Vec<&str> = all.iter().map(|c| c.strategy()).collect();
    assert_eq!(
        strategies,
        vec!["Expand/Grow", "Explore/Innovate", "Consolidate/Reduce", "Retrench/Simplify"]
    );
}

#[test]
fn cardinal_offsets_are_unit_axes() {
    assert_eq!(Cardinal::North.offset(), (0, 1));
    assert_eq!(Cardinal::South.offset(), (0, -1));
    assert_eq!(Cardinal::East.offset(), (1, 0));
    assert_eq!(Cardinal::West.offset(), (-1, 0));
    for c in Cardinal::all() {
        let (x, y) = c.offset();
        let (ox, oy) = c.opposite().offset();
        assert_eq!((ox, oy), (-x, -y));
        assert_eq!(x * x + y * y, 1);
    }
}

// ---- ordinal ----

#[test]
fn test_ordinal_cardinals() {
    let (a, b) = ordinal::Ordinal::NorthEast.cardinals();
    assert_eq!(a, cardinal::Cardinal::North);
    assert_eq!(b, cardinal::Cardinal::East);
}

#[test]
fn test_ordinal_label() {
    assert_eq!(ordinal::Ordinal::SouthWest.label(), "SW");
}

#[test]
fn test_ordinal_all() {
    assert_eq!(ordinal::Ordinal::all().len(), 4);
}

#[test]
fn test_ordinal_strategy() {
    assert_eq!(ordinal::Ordinal::NorthEast.strategy(), "Grow + Innovate");
}

#[test]
fn ordinal_cardinals_and_offsets() {
    assert_eq!(Ordinal::NorthWest.cardinals(), (Cardinal::North, Cardinal::West));
    assert_eq!(Ordinal::SouthEast.cardinals(), (Cardinal::South, Cardinal::East));
    assert_eq!(Ordinal::SouthWest.cardinals(), (Cardinal::South, Cardinal::West));
    for o in Ordinal::all() {
        let (a, b) = o.cardinals();
        let (ax, ay) = a.offset();
        let (bx, by) = b.offset();
        assert_eq!(o.offset(), (ax + bx, ay + by));
    }
    assert_eq!(Ordinal::NorthEast.offset(), (1, 1));
    assert_eq!(Ordinal::SouthWest.offset(), (-1, -1));
}

#[test]
fn ordinal_all_labels_and_strategies() {
    assert_eq!(
        Ordinal::all(),
        vec![Ordinal::NorthEast, Ordinal::NorthWest, Ordinal::SouthEast, Ordinal::SouthWest]
    );
    let all = Ordinal::all();
    let labels: Vec<&str> = all.iter().map(|o| o.label()).collect();
    assert_eq!(labels, vec!["NE", "NW", "SE", "SW"]);
    assert_eq!(Ordinal::NorthWest.strategy(), "Grow + Simplify");
    assert_eq!(Ordinal::SouthEast.strategy(), "Reduce + Innovate");
    assert_eq!(Ordinal::SouthWest.strategy(), "Reduce + Simplify");
}

// ---- compass ----

#[test]
fn test_compass_direction_8() {
    assert_eq!(ordinal::CompassDirection::all_8().len(), 8);
}

#[test]
fn test_compass_label() {
    let dir = ordinal::CompassDirection::C(cardinal::Cardinal::North);
    assert_eq!(dir.label(), "North");
}

#[test]
fn compass_all_8_order_and_labels() {
    let all = CompassDirection::all_8();
    assert_eq!(
        all,
        vec![
            CompassDirection::C(Cardinal::North),
            CompassDirection::C(Cardinal::East),
            CompassDirection::C(Cardinal::South),
            CompassDirection::C(Cardinal::West),
            CompassDirection::O(Ordinal::NorthEast),
            CompassDirection::O(Ordinal::NorthWest),
            CompassDirection::O(Ordinal::SouthEast),
            CompassDirection::O(Ordinal::SouthWest),
        ]
    );
    let labels: Vec<&str> = all.iter().map(|d| d.label()).collect();
    assert_eq!(labels, vec!["North", "East", "South", "West", "NE", "NW", "SE", "SW"]);
    for (i, a) in labels.iter().enumerate() {
        for (j, b) in labels.iter().enumerate() {
            assert_eq!(i == j, a == b);
        }
    }
}

#[test]
fn compass_offsets_follow_components() {
    assert_eq!(CompassDirection::C(Cardinal::West).offset(), (-1, 0));
    assert_eq!(CompassDirection::O(Ordinal::NorthWest).offset(), (-1, 1));
    for d in CompassDirection::all_8() {
        let (x, y) = d.offset();
        let expected = match d {
            CompassDirection::C(_) => 1,
            CompassDirection::O(_) => 2,
        };
        assert_eq!(x * x + y * y, expected);
    }
}
