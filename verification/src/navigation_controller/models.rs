//! Values exchanged with the navigation controller, and the state it keeps.
use vstd::prelude::*;
use crate::models::{GeographicCoordinates, RouteStep, RouteStepView, UserLocation};

verus! {

/// The outcome of looking for the point of a geometry that is nearest to a
/// given position, as a planar geometry layer reports it.
#[derive(Debug, Copy, Clone, PartialEq, Eq, Structural)]
pub enum Closest {
    /// The position lies on the geometry, at this point.
    Intersection(GeographicCoordinates),
    /// This point of the geometry is nearer to the position than any other.
    SinglePoint(GeographicCoordinates),
    /// No nearest point can be told (no segment, or none of positive length).
    Indeterminate,
}

/// What the geometry layer measured for one location fix against the polylines
/// that the controller currently holds.
#[derive(Debug, Copy, Clone, PartialEq, Eq, Structural)]
pub struct FixProjection {
    /// The point of the full-route polyline nearest to the fix.
    pub on_route: Closest,
    /// The distance, in millimetres, that remains along the current step's
    /// polyline from the projection of the fix on it to its last point; `None`
    /// where the polyline has no last point or nothing could be measured.
    pub distance_to_step_end: Option<u64>,
}

/// The policy that decides when the traveler leaves the current step.
#[derive(Debug, Copy, Clone, PartialEq, Eq, Structural)]
pub enum StepAdvanceStrategy {
    /// Never advances to the next step automatically.
    Manual,
    /// Advances when the distance that remains to the end of the step falls
    /// below a threshold.
    DistanceToEndOfStep {
        /// The threshold, in millimetres.
        distance: u64,
        /// Whether the horizontal accuracy of the fix is added to the threshold.
        widen_by_accuracy: bool,
    },
}

/// The controller's configuration, fixed when the controller is made.
#[derive(Debug, Copy, Clone, PartialEq, Eq, Structural)]
pub struct NavigationControllerConfig {
    pub step_advance: StepAdvanceStrategy,
}

/// The navigation state reported to the caller after each input.
#[derive(Debug, PartialEq)]
pub enum NavigationStateUpdate {
    Navigating {
        snapped_user_location: UserLocation,
        /// The waypoints that are still to be visited.
        remaining_waypoints: Vec<GeographicCoordinates>,
        /// The step that the traveler is on.
        current_step: RouteStep,
        /// The distance, in millimetres, that remains on the current step.
        current_step_remaining_distance: u64,
    },
    /// The trip is over; no further state will be produced.
    Arrived,
}

/// What a [NavigationStateUpdate] holds.
pub enum NavigationStateUpdateView {
    Navigating {
        snapped_user_location: UserLocation,
        remaining_waypoints: Seq<GeographicCoordinates>,
        current_step: RouteStepView,
        current_step_remaining_distance: u64,
    },
    Arrived,
}

impl View for NavigationStateUpdate {
    type V = NavigationStateUpdateView;

    open spec fn view(&self) -> NavigationStateUpdateView {
        match *self {
            NavigationStateUpdate::Navigating {
                snapped_user_location,
                remaining_waypoints,
                current_step,
                current_step_remaining_distance,
            } => NavigationStateUpdateView::Navigating {
                snapped_user_location,
                remaining_waypoints: remaining_waypoints@,
                current_step: current_step@,
                current_step_remaining_distance,
            },
            NavigationStateUpdate::Arrived => NavigationStateUpdateView::Arrived,
        }
    }
}

/// The outcome of removing the head of the remaining steps.
#[derive(Debug, PartialEq)]
pub enum StepAdvanceStatus {
    /// Another step follows.
    Advanced {
        /// The new head of the remaining steps.
        step: RouteStep,
        /// The polyline of that step.
        linestring: Vec<GeographicCoordinates>,
    },
    /// The removed step was the last one.
    EndOfRoute,
}

/// What a [StepAdvanceStatus] holds.
pub enum StepAdvanceStatusView {
    Advanced { step: RouteStepView, linestring: Seq<GeographicCoordinates> },
    EndOfRoute,
}

impl View for StepAdvanceStatus {
    type V = StepAdvanceStatusView;

    open spec fn view(&self) -> StepAdvanceStatusView {
        match *self {
            StepAdvanceStatus::Advanced { step, linestring } => StepAdvanceStatusView::Advanced {
                step: step@,
                linestring: linestring@,
            },
            StepAdvanceStatus::EndOfRoute => StepAdvanceStatusView::EndOfRoute,
        }
    }
}

} // verus!
