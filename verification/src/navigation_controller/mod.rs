//! The navigation controller: the single owner of a trip's state.
pub mod lifecycle;
pub mod models;
pub mod utils;

use vstd::prelude::*;
use crate::models::{GeographicCoordinates, Route, RouteStep, UserLocation, step_views};
use crate::navigation_controller::lifecycle::{NavigatingView, TripStateView};
use crate::navigation_controller::models::{
    Closest, FixProjection, NavigationControllerConfig, NavigationStateUpdate, StepAdvanceStatus,
};
use crate::navigation_controller::utils::{
    advance_step, should_advance_to_next_step, snap_user_location_to_line,
};

verus! {

/// The state of a trip, as the controller keeps it.
enum TripState {
    Navigating {
        last_user_location: UserLocation,
        snapped_user_location: UserLocation,
        route: Route,
        route_linestring: Vec<GeographicCoordinates>,
        remaining_waypoints: Vec<GeographicCoordinates>,
        remaining_steps: Vec<RouteStep>,
        current_step_linestring: Vec<GeographicCoordinates>,
    },
    Complete,
}

impl View for TripState {
    type V = TripStateView;

    closed spec fn view(&self) -> TripStateView {
        match *self {
            TripState::Navigating {
                last_user_location,
                snapped_user_location,
                route,
                route_linestring,
                remaining_waypoints,
                remaining_steps,
                current_step_linestring,
            } => TripStateView::Navigating(
                NavigatingView {
                    last_user_location,
                    snapped_user_location,
                    route: route@,
                    route_linestring: route_linestring@,
                    remaining_waypoints: remaining_waypoints@,
                    remaining_steps: step_views(remaining_steps@),
                    current_step_linestring: current_step_linestring@,
                },
            ),
            TripState::Complete => TripStateView::Complete,
        }
    }
}

/// Manages the navigation lifecycle of a single trip, updating its state based
/// on inputs like user location updates.
///
/// The controller comes into being when a route has been selected, and its
/// trip ends when the last step of the route has been left. It cannot be made
/// without a user location: waiting for a first fix is left to higher levels.
///
/// The controller does no geometry of its own. Its caller projects each fix
/// onto the polylines that the controller hands out, and passes what it found
/// along with the fix.
pub struct NavigationController {
    state: TripState,
    config: NavigationControllerConfig,
}

impl View for NavigationController {
    type V = TripStateView;

    closed spec fn view(&self) -> TripStateView {
        self.state@
    }
}

impl NavigationController {
    #[verifier::type_invariant]
    spec fn inv(self) -> bool {
        self.state@.consistent()
    }

    /// The configuration that the controller was made with.
    pub closed spec fn config(&self) -> NavigationControllerConfig {
        self.config
    }

    /// The polyline of the whole route, onto which location fixes are
    /// projected; `None` once the trip is over.
    pub fn route_linestring(&self) -> (linestring: Option<&Vec<GeographicCoordinates>>)
        ensures
            linestring is Some <==> self@ is Navigating,
            linestring is Some ==> linestring->0@ == self@->0.route_linestring,
    {
        match &self.state {
            TripState::Navigating { route_linestring, .. } => Some(route_linestring),
            TripState::Complete => None,
        }
    }

    /// The polyline of the current step, against which the distance to the
    /// end of the step is measured; `None` once the trip is over.
    pub fn current_step_linestring(&self) -> (linestring: Option<&Vec<GeographicCoordinates>>)
        ensures
            linestring is Some <==> self@ is Navigating,
            linestring is Some ==> linestring->0@ == self@->0.current_step_linestring,
    {
        match &self.state {
            TripState::Navigating { current_step_linestring, .. } => Some(current_step_linestring),
            TripState::Complete => None,
        }
    }

    /// Creates a new trip navigation controller given the user's last known
    /// location, a route, and the point of the route's geometry nearest to
    /// that location.
    ///
    /// A route without steps is a trip that is already over.
    pub fn new(
        last_user_location: UserLocation,
        route: Route,
        config: NavigationControllerConfig,
        on_route: Closest,
    ) -> (controller: Self)
        ensures
            controller@ == TripStateView::initial(last_user_location, route@, on_route),
            controller@.consistent(),
            controller.config() == config,
    {
        if route.steps.len() == 0 {
            return Self { state: TripState::Complete, config };
        }
        let remaining_waypoints = route.waypoints.clone();
        let remaining_steps = route.steps.clone();
        let route_linestring = route.geometry.clone();
        let current_step_linestring = remaining_steps[0].get_linestring();
        let snapped_user_location = snap_user_location_to_line(
            last_user_location,
            &route_linestring,
            on_route,
        );
        proof {
            assert(remaining_waypoints@ =~= route.waypoints@);
            assert(route_linestring@ =~= route.geometry@);
            assert(step_views(remaining_steps@) =~= step_views(route.steps@));
            assert(route@.steps.skip(0) =~= route@.steps);
        }
        Self {
            state: TripState::Navigating {
                last_user_location,
                snapped_user_location,
                route,
                route_linestring,
                remaining_waypoints,
                remaining_steps,
                current_step_linestring,
            },
            config,
        }
    }

    /// Advances navigation to the next step, whatever the strategy says.
    ///
    /// Depending on the advancement strategy, advancing may be automatic. For
    /// other cases it is desirable to advance manually (ex: walking in an
    /// urban tunnel). On a trip that is over this does nothing.
    pub fn advance_to_next_step(&mut self) -> (update: NavigationStateUpdate)
        ensures
            (final(self)@, update@) == old(self)@.advance_to_next_step(),
            final(self)@.consistent(),
            final(self).config() == old(self).config(),
    {
        proof {
            use_type_invariant(&*self);
        }
        let mut state = TripState::Complete;
        std::mem::swap(&mut state, &mut self.state);
        match state {
            TripState::Navigating {
                last_user_location,
                snapped_user_location,
                route,
                route_linestring,
                remaining_waypoints,
                mut remaining_steps,
                current_step_linestring,
            } => {
                let ghost before = step_views(remaining_steps@);
                match advance_step(&mut remaining_steps) {
                    StepAdvanceStatus::Advanced { step, linestring } => {
                        let waypoints = remaining_waypoints.clone();
                        let current_step_remaining_distance = step.distance;
                        proof {
                            assert(waypoints@ =~= remaining_waypoints@);
                            assert(step_views(remaining_steps@) =~= before.drop_first());
                            assert(before.drop_first() =~= route@.steps.skip(
                                route@.steps.len() - before.len() + 1,
                            ));
                        }
                        self.state = TripState::Navigating {
                            last_user_location,
                            snapped_user_location,
                            route,
                            route_linestring,
                            remaining_waypoints,
                            remaining_steps,
                            current_step_linestring: linestring,
                        };
                        NavigationStateUpdate::Navigating {
                            snapped_user_location,
                            remaining_waypoints: waypoints,
                            current_step: step,
                            current_step_remaining_distance,
                        }
                    },
                    StepAdvanceStatus::EndOfRoute => NavigationStateUpdate::Arrived,
                }
            },
            TripState::Complete => NavigationStateUpdate::Arrived,
        }
    }

    /// Updates the user's current location and updates the navigation state
    /// accordingly.
    ///
    /// `projection` is what the caller measured for `location` against
    /// [`Self::route_linestring`] and [`Self::current_step_linestring`] as they
    /// were before this call. The step-advance strategy is evaluated against
    /// the current step; where it fires, the step is left, and leaving the last
    /// step ends the trip. The distance that remains on the reported step is
    /// not worked out here and is reported as zero.
    pub fn update_user_location(
        &mut self,
        location: UserLocation,
        projection: FixProjection,
    ) -> (update: NavigationStateUpdate)
        ensures
            (final(self)@, update@) == old(self)@.update_user_location(
                old(self).config(),
                location,
                projection,
            ),
            final(self)@.consistent(),
            final(self).config() == old(self).config(),
    {
        proof {
            use_type_invariant(&*self);
        }
        let mut state = TripState::Complete;
        std::mem::swap(&mut state, &mut self.state);
        match state {
            TripState::Navigating {
                last_user_location: _,
                snapped_user_location: previous_snapped_user_location,
                route,
                route_linestring,
                remaining_waypoints,
                mut remaining_steps,
                current_step_linestring,
            } => {
                let ghost before = step_views(remaining_steps@);
                if remaining_steps.len() == 0 {
                    self.state = TripState::Navigating {
                        last_user_location: location,
                        snapped_user_location: previous_snapped_user_location,
                        route,
                        route_linestring,
                        remaining_waypoints,
                        remaining_steps,
                        current_step_linestring,
                    };
                    return NavigationStateUpdate::Arrived;
                }
                // Find the nearest point on the route line
                let snapped_user_location = snap_user_location_to_line(
                    location,
                    &route_linestring,
                    projection.on_route,
                );
                let waypoints = remaining_waypoints.clone();
                assert(waypoints@ =~= remaining_waypoints@);
                let next_route_step = if remaining_steps.len() > 1 {
                    Some(&remaining_steps[1])
                } else {
                    None
                };
                if should_advance_to_next_step(
                    &current_step_linestring,
                    next_route_step,
                    &location,
                    projection.distance_to_step_end,
                    self.config.step_advance,
                ) {
                    match advance_step(&mut remaining_steps) {
                        StepAdvanceStatus::Advanced { step, linestring } => {
                            proof {
                                assert(step_views(remaining_steps@) =~= before.drop_first());
                                assert(before.drop_first() =~= route@.steps.skip(
                                    route@.steps.len() - before.len() + 1,
                                ));
                            }
                            self.state = TripState::Navigating {
                                last_user_location: location,
                                snapped_user_location,
                                route,
                                route_linestring,
                                remaining_waypoints,
                                remaining_steps,
                                current_step_linestring: linestring,
                            };
                            NavigationStateUpdate::Navigating {
                                snapped_user_location,
                                remaining_waypoints: waypoints,
                                current_step: step,
                                current_step_remaining_distance: 0,
                            }
                        },
                        StepAdvanceStatus::EndOfRoute => NavigationStateUpdate::Arrived,
                    }
                } else {
                    let current_step = remaining_steps[0].clone();
                    self.state = TripState::Navigating {
                        last_user_location: location,
                        snapped_user_location,
                        route,
                        route_linestring,
                        remaining_waypoints,
                        remaining_steps,
                        current_step_linestring,
                    };
                    NavigationStateUpdate::Navigating {
                        snapped_user_location,
                        remaining_waypoints: waypoints,
                        current_step,
                        current_step_remaining_distance: 0,
                    }
                }
            },
            TripState::Complete => NavigationStateUpdate::Arrived,
        }
    }
}

} // verus!
