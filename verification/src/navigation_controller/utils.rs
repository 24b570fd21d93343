//! The three leaves of the controller: snapping, the step-advance policy and
//! the step-advance mechanics.
use vstd::prelude::*;
use crate::models::{GeographicCoordinates, RouteStep, RouteStepView, UserLocation, step_views};
use crate::navigation_controller::models::{
    Closest, StepAdvanceStatus, StepAdvanceStatusView, StepAdvanceStrategy,
};

verus! {

/// The location that `location` snaps to on the polyline `line`, where
/// `closest` is the point of `line` nearest to it as the geometry layer found it.
///
/// An empty polyline has no projection and leaves the location as it is; a
/// polyline of one point snaps every location to that point. Only the
/// coordinates ever change.
pub open spec fn snapped_location(
    location: UserLocation,
    line: Seq<GeographicCoordinates>,
    closest: Closest,
) -> UserLocation {
    if line.len() == 0 {
        location
    } else if line.len() == 1 {
        UserLocation { coordinates: line[0], ..location }
    } else {
        match closest {
            Closest::Intersection(point) => UserLocation { coordinates: point, ..location },
            Closest::SinglePoint(point) => UserLocation { coordinates: point, ..location },
            Closest::Indeterminate => location,
        }
    }
}

/// Snaps a user location to the closest point on a route line.
pub fn snap_user_location_to_line(
    location: UserLocation,
    line: &Vec<GeographicCoordinates>,
    closest: Closest,
) -> (snapped: UserLocation)
    ensures
        snapped == snapped_location(location, line@, closest),
{
    if line.len() == 0 {
        location
    } else if line.len() == 1 {
        UserLocation { coordinates: line[0], ..location }
    } else {
        match closest {
            Closest::Intersection(point) | Closest::SinglePoint(point) => UserLocation {
                coordinates: point,
                ..location
            },
            Closest::Indeterminate => location,
        }
    }
}

/// Snapping is idempotent: a location that was snapped stays where it is when
/// it is snapped again, be it with the same nearest point or, where it was
/// moved onto the polyline, with itself as the point that it lies on.
pub proof fn lemma_snapping_is_idempotent(
    location: UserLocation,
    line: Seq<GeographicCoordinates>,
    closest: Closest,
)
    ensures
        snapped_location(snapped_location(location, line, closest), line, closest)
            == snapped_location(location, line, closest),
        snapped_location(
            snapped_location(location, line, closest),
            line,
            Closest::Intersection(snapped_location(location, line, closest).coordinates),
        ) == snapped_location(location, line, closest),
{
}

/// The distance below which the traveler leaves the current step: the
/// threshold, widened by the accuracy of the fix where the strategy says so.
pub open spec fn advance_limit(distance: u64, widen_by_accuracy: bool, accuracy: u64) -> int {
    if widen_by_accuracy {
        distance + accuracy
    } else {
        distance as int
    }
}

/// Whether the traveler should leave the current step now.
///
/// The manual strategy never says so. The distance strategy says so when the
/// step's polyline has a last point and the distance that remains to it is
/// below the limit.
pub open spec fn should_advance(
    current_step_linestring: Seq<GeographicCoordinates>,
    next_route_step: Option<RouteStepView>,
    user_location: UserLocation,
    distance_to_step_end: Option<u64>,
    step_advance: StepAdvanceStrategy,
) -> bool {
    match step_advance {
        StepAdvanceStrategy::Manual => false,
        StepAdvanceStrategy::DistanceToEndOfStep { distance, widen_by_accuracy } => {
            &&& current_step_linestring.len() > 0
            &&& distance_to_step_end is Some
            &&& distance_to_step_end->0 < advance_limit(
                distance,
                widen_by_accuracy,
                user_location.horizontal_accuracy,
            )
        },
    }
}

/// Decides whether the traveler should leave the current step now.
pub fn should_advance_to_next_step(
    current_step_linestring: &Vec<GeographicCoordinates>,
    next_route_step: Option<&RouteStep>,
    user_location: &UserLocation,
    distance_to_step_end: Option<u64>,
    step_advance: StepAdvanceStrategy,
) -> (advance: bool)
    ensures
        advance == should_advance(
            current_step_linestring@,
            match next_route_step {
                Some(step) => Some(step@),
                None => None,
            },
            *user_location,
            distance_to_step_end,
            step_advance,
        ),
{
    match step_advance {
        StepAdvanceStrategy::Manual => false,
        StepAdvanceStrategy::DistanceToEndOfStep { distance, widen_by_accuracy } => {
            match distance_to_step_end {
                Some(remaining) => {
                    if current_step_linestring.len() == 0 {
                        false
                    } else if remaining < distance {
                        true
                    } else {
                        widen_by_accuracy && remaining - distance < user_location.horizontal_accuracy
                    }
                },
                None => false,
            }
        },
    }
}

/// A sequence without its head; an empty sequence stays as it is.
pub open spec fn without_head<T>(steps: Seq<T>) -> Seq<T> {
    if steps.len() == 0 {
        steps
    } else {
        steps.drop_first()
    }
}

/// The outcome of removing the head of `steps`.
pub open spec fn step_advance_status(steps: Seq<RouteStepView>) -> StepAdvanceStatusView {
    if steps.len() > 1 {
        StepAdvanceStatusView::Advanced { step: steps[1], linestring: steps[1].geometry }
    } else {
        StepAdvanceStatusView::EndOfRoute
    }
}

/// Removes the head of the remaining steps and reports the new head with its
/// polyline, or that the route has come to its end.
pub fn advance_step(remaining_steps: &mut Vec<RouteStep>) -> (status: StepAdvanceStatus)
    ensures
        status@ == step_advance_status(step_views(old(remaining_steps)@)),
        final(remaining_steps)@ == without_head(old(remaining_steps)@),
{
    if remaining_steps.len() == 0 {
        return StepAdvanceStatus::EndOfRoute;
    }
    remaining_steps.remove(0);
    assert(remaining_steps@ =~= old(remaining_steps)@.drop_first());
    if remaining_steps.len() == 0 {
        StepAdvanceStatus::EndOfRoute
    } else {
        let step = remaining_steps[0].clone();
        let linestring = remaining_steps[0].get_linestring();
        StepAdvanceStatus::Advanced { step, linestring }
    }
}

} // verus!
