use decision_compass::navigation;
use decision_compass::{NavigationPlan, Waypoint};

fn distance(a: &[f64], b: &[f64]) -> f64 {
    a.iter().zip(b.iter()).map(|(x, y)| (x - y) * (x - y)).sum::<f64>().sqrt()
}

#[test]
fn test_waypoint_new() {
    let wp = navigation::Waypoint::new(vec![1.0, 0.0]);
    assert!(!wp.is_reached());
    assert!(wp.label.is_none());
}

#[test]
fn test_waypoint_reached() {
    let mut wp = navigation::Waypoint::new(vec![1.0, 0.0]);
    wp.mark_reached();
    assert!(wp.is_reached());
}

#[test]
fn test_navigation_plan_new() {
    let plan: NavigationPlan<Vec<f64>, f64> = navigation::NavigationPlan::new(0.1);
    assert!(plan.is_complete());
    assert_eq!(plan.waypoint_count(), 0);
}

#[test]
fn test_navigation_plan_waypoints() {
    let mut plan = navigation::NavigationPlan::new(0.1);
    plan.add_waypoint(navigation::Waypoint::new(vec![1.0]));
    plan.add_waypoint(navigation::Waypoint::new(vec![2.0]));
    assert_eq!(plan.waypoint_count(), 2);
    assert!(!plan.is_complete());
}

#[test]
fn test_navigation_plan_advance() {
    let mut plan = navigation::NavigationPlan::new(0.1);
    plan.add_waypoint(navigation::Waypoint::new(vec![1.0]));
    plan.advance();
    assert!(plan.is_complete());
    assert_eq!(plan.reached_count(), 1);
}

#[test]
fn test_interpolate_path() {
    let start = 0.0;
    let end = 10.0;
    let plan = navigation::NavigationPlan::interpolate_path(5, 0.1, |i, n| {
        let t = i as f64 / n as f64;
        vec![start * (1.0 - t) + end * t]
    });
    assert_eq!(plan.waypoint_count(), 5);
}

#[test]
fn test_navigation_update() {
    let mut plan = navigation::NavigationPlan::new(2.0);
    plan.add_waypoint(navigation::Waypoint::new(vec![1.0]));
    let pos = vec![0.5];
    let dev = plan.update(|target: &Vec<f64>, tolerance: &f64| {
        let d = distance(&pos, target);
        (d, d < *tolerance)
    });
    assert!(dev.is_some());
}

#[test]
fn waypoint_with_label_keeps_position_and_reached() {
    let mut wp = Waypoint::new(vec![3.0]);
    wp.mark_reached();
    let wp = wp.with_label("camp");
    assert_eq!(wp.label, Some("camp".to_string()));
    assert!(wp.is_reached());
    assert_eq!(wp.position, vec![3.0]);
}

#[test]
fn advance_past_the_end_changes_nothing() {
    let mut plan = NavigationPlan::new(0.5);
    plan.add_waypoint(Waypoint::new(1u32));
    plan.add_waypoint(Waypoint::new(2u32));
    assert_eq!(plan.current_target().map(|w| w.position), Some(1));
    assert!(plan.advance());
    assert_eq!(plan.current_target().map(|w| w.position), Some(2));
    assert!(plan.advance());
    assert!(plan.current_target().is_none());
    assert!(!plan.advance());
    assert_eq!(plan.current_index, 2);
    assert_eq!(plan.reached_count(), 2);
    assert!(plan.is_complete());
}

#[test]
fn reached_count_follows_index_for_fresh_waypoints() {
    let mut plan = NavigationPlan::new(0u8);
    for p in 0..5u32 {
        plan.add_waypoint(Waypoint::new(p));
    }
    for k in 0..7usize {
        assert_eq!(plan.reached_count(), plan.current_index);
        assert_eq!(plan.reached_count(), k.min(5));
        assert_eq!(plan.is_complete(), plan.reached_count() == plan.waypoint_count());
        let moved = plan.advance();
        assert_eq!(moved, k < 5);
    }
}

#[test]
fn reached_count_counts_reached_waypoints_added_reached() {
    let mut plan = NavigationPlan::new(());
    let mut w = Waypoint::new('a');
    w.mark_reached();
    plan.add_waypoint(w);
    plan.add_waypoint(Waypoint::new('b'));
    assert_eq!(plan.reached_count(), 1);
    assert_eq!(plan.current_index, 0);
    assert!(plan.advance());
    // The first waypoint was reached already: advancing reaches no new one.
    assert_eq!(plan.reached_count(), 1);
    assert!(plan.advance());
    assert_eq!(plan.reached_count(), 2);
}

#[test]
fn update_advances_only_when_measure_says_reached() {
    let mut plan = NavigationPlan::new(2.0);
    plan.add_waypoint(Waypoint::new(vec![10.0]));
    plan.add_waypoint(Waypoint::new(vec![20.0]));
    let far = plan.update(|t: &Vec<f64>, tol: &f64| {
        let d = distance(&[0.0], t);
        (d, d < *tol)
    });
    assert_eq!(far, Some(10.0));
    assert_eq!(plan.current_index, 0);
    assert_eq!(plan.reached_count(), 0);
    let near = plan.update(|t: &Vec<f64>, tol: &f64| {
        let d = distance(&[9.0], t);
        (d, d < *tol)
    });
    assert_eq!(near, Some(1.0));
    assert_eq!(plan.current_index, 1);
    assert!(plan.waypoints[0].reached);
    assert!(!plan.waypoints[1].reached);
    plan.advance();
    let done = plan.update(|_t: &Vec<f64>, _tol: &f64| (0.0, true));
    assert_eq!(done, None);
    assert_eq!(plan.current_index, 2);
}

#[test]
fn interpolate_path_places_waypoints_evenly() {
    let plan = NavigationPlan::interpolate_path(4, 0.25, |i, n| (i, n));
    assert_eq!(plan.waypoint_count(), 4);
    assert_eq!(plan.current_index, 0);
    assert_eq!(plan.tolerance, 0.25);
    let positions: Vec<(usize, usize)> = plan.waypoints.iter().map(|w| w.position).collect();
    assert_eq!(positions, vec![(1, 4), (2, 4), (3, 4), (4, 4)]);
    assert!(plan.waypoints.iter().all(|w| !w.reached && w.label.is_none()));
    let empty = NavigationPlan::interpolate_path(0, 0.25, |i, n| (i, n));
    assert!(empty.is_complete());
}
