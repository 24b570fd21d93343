use ferrostar::models::{CourseOverGround, GeographicCoordinates, RouteStep, UserLocation};
use ferrostar::navigation_controller::models::{Closest, StepAdvanceStatus, StepAdvanceStrategy};
use ferrostar::navigation_controller::utils::{
    advance_step, should_advance_to_next_step, snap_user_location_to_line,
};
use std::time::{Duration, SystemTime};

fn point(lng: i32, lat: i32) -> GeographicCoordinates {
    GeographicCoordinates { lng, lat }
}

fn fix_at(lng: i32, lat: i32, horizontal_accuracy: u64) -> UserLocation {
    UserLocation {
        coordinates: point(lng, lat),
        horizontal_accuracy,
        course_over_ground: Some(CourseOverGround::new(180, 10)),
        timestamp: SystemTime::UNIX_EPOCH + Duration::from_millis(1_699_000_000_123),
    }
}

fn named_step(name: &str, distance: u64, geometry: Vec<GeographicCoordinates>) -> RouteStep {
    RouteStep {
        geometry,
        distance,
        road_name: Some(name.to_string()),
        instruction: format!("Continue on {}", name),
        visual_instructions: vec![],
    }
}

const THRESHOLD: StepAdvanceStrategy =
    StepAdvanceStrategy::DistanceToEndOfStep { distance: 5_000, widen_by_accuracy: false };
const WIDENED: StepAdvanceStrategy =
    StepAdvanceStrategy::DistanceToEndOfStep { distance: 5_000, widen_by_accuracy: true };

#[test]
fn snapping_to_an_empty_line_returns_the_location() {
    let location = fix_at(5, 7, 3_000);
    let line = vec![];
    assert_eq!(snap_user_location_to_line(location, &line, Closest::Indeterminate), location);
    assert_eq!(
        snap_user_location_to_line(location, &line, Closest::SinglePoint(point(1, 1))),
        location
    );
}

#[test]
fn snapping_to_a_single_point_line_gives_that_point() {
    let line = vec![point(100, 200)];
    for location in [fix_at(5, 7, 3_000), fix_at(-900_000, 1_000_000, 0), fix_at(100, 200, 1)] {
        for closest in [
            Closest::Indeterminate,
            Closest::SinglePoint(point(1, 1)),
            Closest::Intersection(point(2, 2)),
        ] {
            let snapped = snap_user_location_to_line(location, &line, closest);
            assert_eq!(snapped.coordinates, point(100, 200));
            assert_eq!(snapped, UserLocation { coordinates: point(100, 200), ..location });
        }
    }
}

#[test]
fn snapping_takes_the_nearest_point_and_keeps_the_other_fields() {
    let location = fix_at(50, 30, 8_250);
    let line = vec![point(0, 0), point(100, 0)];
    let snapped = snap_user_location_to_line(location, &line, Closest::SinglePoint(point(50, 0)));
    assert_eq!(snapped.coordinates, point(50, 0));
    assert_eq!(snapped.horizontal_accuracy, 8_250);
    assert_eq!(snapped.course_over_ground, Some(CourseOverGround::new(180, 10)));
    assert_eq!(snapped.timestamp, location.timestamp);
    assert_ne!(snapped, location);
}

#[test]
fn snapping_a_location_on_the_line_gives_the_intersection() {
    let location = fix_at(40, 0, 2_000);
    let line = vec![point(0, 0), point(100, 0), point(100, 100)];
    let snapped = snap_user_location_to_line(location, &line, Closest::Intersection(point(40, 0)));
    assert_eq!(snapped, location);
    let moved = snap_user_location_to_line(location, &line, Closest::Intersection(point(41, 0)));
    assert_eq!(moved.coordinates, point(41, 0));
}

#[test]
fn snapping_without_a_nearest_point_returns_the_location() {
    let location = fix_at(40, 9, 2_000);
    let line = vec![point(3, 3), point(3, 3)];
    assert_eq!(snap_user_location_to_line(location, &line, Closest::Indeterminate), location);
}

#[test]
fn snapping_twice_gives_the_same_result() {
    let location = fix_at(12, 34, 5_600);
    let line = vec![point(0, 0), point(100, 0), point(100, 100)];
    let closest = Closest::SinglePoint(point(12, 0));
    let first = snap_user_location_to_line(location, &line, closest);
    let second = snap_user_location_to_line(location, &line, closest);
    assert_eq!(first, second);
    assert_eq!(snap_user_location_to_line(first, &line, Closest::Intersection(point(12, 0))), first);
}

#[test]
fn manual_strategy_never_advances() {
    let line = vec![point(0, 0), point(10, 0)];
    let location = fix_at(10, 0, 0);
    for remaining in [None, Some(0), Some(1), Some(u64::MAX)] {
        assert!(!should_advance_to_next_step(
            &line,
            None,
            &location,
            remaining,
            StepAdvanceStrategy::Manual
        ));
    }
}

#[test]
fn distance_strategy_advances_below_the_threshold() {
    let line = vec![point(0, 0), point(10, 0)];
    let location = fix_at(9, 0, 20_000);
    assert!(should_advance_to_next_step(&line, None, &location, Some(3_000), THRESHOLD));
    assert!(should_advance_to_next_step(&line, None, &location, Some(0), THRESHOLD));
    assert!(should_advance_to_next_step(&line, None, &location, Some(4_999), THRESHOLD));
    assert!(!should_advance_to_next_step(&line, None, &location, Some(5_000), THRESHOLD));
    assert!(!should_advance_to_next_step(&line, None, &location, Some(5_001), THRESHOLD));
    assert!(!should_advance_to_next_step(&line, None, &location, Some(u64::MAX), THRESHOLD));
}

#[test]
fn distance_strategy_widens_the_threshold_by_the_accuracy() {
    let line = vec![point(0, 0), point(10, 0)];
    let location = fix_at(9, 0, 20_000);
    assert!(should_advance_to_next_step(&line, None, &location, Some(5_000), WIDENED));
    assert!(should_advance_to_next_step(&line, None, &location, Some(24_999), WIDENED));
    assert!(!should_advance_to_next_step(&line, None, &location, Some(25_000), WIDENED));
    let exact = fix_at(9, 0, 0);
    assert!(should_advance_to_next_step(&line, None, &exact, Some(4_999), WIDENED));
    assert!(!should_advance_to_next_step(&line, None, &exact, Some(5_000), WIDENED));
}

#[test]
fn distance_strategy_does_not_overflow_at_the_largest_values() {
    let line = vec![point(0, 0)];
    let location = fix_at(0, 0, u64::MAX);
    let widest =
        StepAdvanceStrategy::DistanceToEndOfStep { distance: u64::MAX, widen_by_accuracy: true };
    assert!(should_advance_to_next_step(&line, None, &location, Some(u64::MAX), widest));
    let narrow =
        StepAdvanceStrategy::DistanceToEndOfStep { distance: u64::MAX, widen_by_accuracy: false };
    assert!(!should_advance_to_next_step(&line, None, &location, Some(u64::MAX), narrow));
    assert!(should_advance_to_next_step(&line, None, &location, Some(u64::MAX - 1), narrow));
    let zero = StepAdvanceStrategy::DistanceToEndOfStep { distance: 0, widen_by_accuracy: false };
    assert!(!should_advance_to_next_step(&line, None, &location, Some(0), zero));
}

#[test]
fn distance_strategy_needs_a_measured_distance_and_a_last_point() {
    let line = vec![point(0, 0), point(10, 0)];
    let location = fix_at(9, 0, 20_000);
    assert!(!should_advance_to_next_step(&line, None, &location, None, THRESHOLD));
    assert!(!should_advance_to_next_step(&line, None, &location, None, WIDENED));
    let empty = vec![];
    assert!(!should_advance_to_next_step(&empty, None, &location, Some(0), THRESHOLD));
    assert!(!should_advance_to_next_step(&empty, None, &location, Some(0), WIDENED));
}

#[test]
fn the_next_step_does_not_change_the_decision() {
    let line = vec![point(0, 0), point(10, 0)];
    let location = fix_at(9, 0, 0);
    let next = named_step("B", 50_000, vec![point(10, 0), point(10, 10)]);
    assert!(should_advance_to_next_step(&line, Some(&next), &location, Some(3_000), THRESHOLD));
    assert!(!should_advance_to_next_step(&line, Some(&next), &location, Some(6_000), THRESHOLD));
    assert!(!should_advance_to_next_step(
        &line,
        Some(&next),
        &location,
        Some(0),
        StepAdvanceStrategy::Manual
    ));
}

#[test]
fn advance_step_reports_the_new_head() {
    let a = named_step("A", 100_000, vec![point(0, 0), point(10, 0)]);
    let b = named_step("B", 50_000, vec![point(10, 0), point(10, 10)]);
    let c = named_step("C", 25_000, vec![point(10, 10)]);
    let mut steps = vec![a, b.clone(), c.clone()];
    let status = advance_step(&mut steps);
    assert_eq!(
        status,
        StepAdvanceStatus::Advanced { step: b.clone(), linestring: vec![point(10, 0), point(10, 10)] }
    );
    assert_eq!(steps, vec![b, c.clone()]);
    let status = advance_step(&mut steps);
    assert_eq!(status, StepAdvanceStatus::Advanced { step: c.clone(), linestring: vec![point(10, 10)] });
    assert_eq!(steps, vec![c]);
}

#[test]
fn advance_step_on_the_last_step_ends_the_route() {
    let mut steps = vec![named_step("A", 100_000, vec![point(0, 0), point(10, 0)])];
    assert_eq!(advance_step(&mut steps), StepAdvanceStatus::EndOfRoute);
    assert!(steps.is_empty());
}

#[test]
fn advance_step_on_no_steps_ends_the_route() {
    let mut steps: Vec<RouteStep> = vec![];
    assert_eq!(advance_step(&mut steps), StepAdvanceStatus::EndOfRoute);
    assert!(steps.is_empty());
}
