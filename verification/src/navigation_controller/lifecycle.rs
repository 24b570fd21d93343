//! The lifecycle of a trip as a state machine over mathematical values, and
//! what holds of every run of it.
use vstd::prelude::*;
use crate::models::{GeographicCoordinates, RouteStepView, RouteView, UserLocation};
use crate::navigation_controller::models::{
    Closest, FixProjection, NavigationControllerConfig, NavigationStateUpdateView,
};
use crate::navigation_controller::utils::{should_advance, snapped_location, without_head};

verus! {

/// The data of a trip that is under way.
pub struct NavigatingView {
    /// The last location fix, as it came in.
    pub last_user_location: UserLocation,
    /// The last location fix, snapped to the route.
    pub snapped_user_location: UserLocation,
    pub route: RouteView,
    /// The polyline of the whole route.
    pub route_linestring: Seq<GeographicCoordinates>,
    pub remaining_waypoints: Seq<GeographicCoordinates>,
    /// The steps still to travel; the head is the current step.
    pub remaining_steps: Seq<RouteStepView>,
    /// The polyline of the current step.
    pub current_step_linestring: Seq<GeographicCoordinates>,
}

/// The state of a trip: under way, or over.
pub enum TripStateView {
    Navigating(NavigatingView),
    Complete,
}

impl NavigatingView {
    /// The data of a trip under way fits together: there is a current step,
    /// the cached polylines are those of the current step and of the route,
    /// the waypoints are the route's, and the remaining steps are the last
    /// steps of the route.
    pub open spec fn consistent(self) -> bool {
        &&& 0 < self.remaining_steps.len() <= self.route.steps.len()
        &&& self.current_step_linestring == self.remaining_steps[0].geometry
        &&& self.route_linestring == self.route.geometry
        &&& self.remaining_waypoints == self.route.waypoints
        &&& self.remaining_steps == self.route.steps.skip(
            self.route.steps.len() - self.remaining_steps.len(),
        )
    }
}

impl TripStateView {
    /// The state in which a trip starts.
    pub open spec fn initial(
        last_user_location: UserLocation,
        route: RouteView,
        on_route: Closest,
    ) -> TripStateView {
        if route.steps.len() == 0 {
            TripStateView::Complete
        } else {
            TripStateView::Navigating(
                NavigatingView {
                    last_user_location,
                    snapped_user_location: snapped_location(
                        last_user_location,
                        route.geometry,
                        on_route,
                    ),
                    route,
                    route_linestring: route.geometry,
                    remaining_waypoints: route.waypoints,
                    remaining_steps: route.steps,
                    current_step_linestring: route.steps[0].geometry,
                },
            )
        }
    }

    /// Whether the data of the state fits together; a complete trip has none.
    pub open spec fn consistent(self) -> bool {
        match self {
            TripStateView::Navigating(trip) => trip.consistent(),
            TripStateView::Complete => true,
        }
    }

    /// Whether nothing is left to travel.
    pub open spec fn finished(self) -> bool {
        match self {
            TripStateView::Navigating(trip) => trip.remaining_steps.len() == 0,
            TripStateView::Complete => true,
        }
    }

    /// The steps still to travel.
    pub open spec fn remaining_steps(self) -> Seq<RouteStepView> {
        match self {
            TripStateView::Navigating(trip) => trip.remaining_steps,
            TripStateView::Complete => Seq::empty(),
        }
    }

    /// The state after the current step was left, and the update that reports it.
    pub open spec fn advance_to_next_step(self) -> (TripStateView, NavigationStateUpdateView) {
        match self {
            TripStateView::Navigating(trip) => {
                if trip.remaining_steps.len() > 1 {
                    let step = trip.remaining_steps[1];
                    (
                        TripStateView::Navigating(
                            NavigatingView {
                                remaining_steps: without_head(trip.remaining_steps),
                                current_step_linestring: step.geometry,
                                ..trip
                            },
                        ),
                        NavigationStateUpdateView::Navigating {
                            snapped_user_location: trip.snapped_user_location,
                            remaining_waypoints: trip.remaining_waypoints,
                            current_step: step,
                            current_step_remaining_distance: step.distance,
                        },
                    )
                } else {
                    (TripStateView::Complete, NavigationStateUpdateView::Arrived)
                }
            },
            TripStateView::Complete => (TripStateView::Complete, NavigationStateUpdateView::Arrived),
        }
    }

    /// The state after a location fix came in, and the update that reports it.
    pub open spec fn update_user_location(
        self,
        config: NavigationControllerConfig,
        location: UserLocation,
        projection: FixProjection,
    ) -> (TripStateView, NavigationStateUpdateView) {
        match self {
            TripStateView::Navigating(trip) => {
                if trip.remaining_steps.len() == 0 {
                    (
                        TripStateView::Navigating(
                            NavigatingView { last_user_location: location, ..trip },
                        ),
                        NavigationStateUpdateView::Arrived,
                    )
                } else {
                    let snapped = snapped_location(
                        location,
                        trip.route_linestring,
                        projection.on_route,
                    );
                    let next_step = if trip.remaining_steps.len() > 1 {
                        Some(trip.remaining_steps[1])
                    } else {
                        None
                    };
                    let located = NavigatingView {
                        last_user_location: location,
                        snapped_user_location: snapped,
                        ..trip
                    };
                    if !should_advance(
                        trip.current_step_linestring,
                        next_step,
                        location,
                        projection.distance_to_step_end,
                        config.step_advance,
                    ) {
                        (
                            TripStateView::Navigating(located),
                            NavigationStateUpdateView::Navigating {
                                snapped_user_location: snapped,
                                remaining_waypoints: trip.remaining_waypoints,
                                current_step: trip.remaining_steps[0],
                                current_step_remaining_distance: 0,
                            },
                        )
                    } else if trip.remaining_steps.len() > 1 {
                        (
                            TripStateView::Navigating(
                                NavigatingView {
                                    remaining_steps: without_head(trip.remaining_steps),
                                    current_step_linestring: trip.remaining_steps[1].geometry,
                                    ..located
                                },
                            ),
                            NavigationStateUpdateView::Navigating {
                                snapped_user_location: snapped,
                                remaining_waypoints: trip.remaining_waypoints,
                                current_step: trip.remaining_steps[1],
                                current_step_remaining_distance: 0,
                            },
                        )
                    } else {
                        (TripStateView::Complete, NavigationStateUpdateView::Arrived)
                    }
                }
            },
            TripStateView::Complete => (TripStateView::Complete, NavigationStateUpdateView::Arrived),
        }
    }

    /// The state after one call, and the update that the call reports.
    pub open spec fn call(
        self,
        config: NavigationControllerConfig,
        call: TripCall,
    ) -> (TripStateView, NavigationStateUpdateView) {
        match call {
            TripCall::AdvanceToNextStep => self.advance_to_next_step(),
            TripCall::UpdateUserLocation { location, projection } => self.update_user_location(
                config,
                location,
                projection,
            ),
        }
    }

    /// The state after a run of calls, made one after the other.
    pub open spec fn after(
        self,
        config: NavigationControllerConfig,
        calls: Seq<TripCall>,
    ) -> TripStateView
        decreases calls.len(),
    {
        if calls.len() == 0 {
            self
        } else {
            self.after(config, calls.drop_last()).call(config, calls.last()).0
        }
    }

    /// The update that the last call of a run reports.
    pub open spec fn reported(
        self,
        config: NavigationControllerConfig,
        calls: Seq<TripCall>,
    ) -> NavigationStateUpdateView
        recommends
            calls.len() > 0,
    {
        self.after(config, calls.drop_last()).call(config, calls.last()).1
    }
}

/// One call of the controller, with what is handed to it.
pub enum TripCall {
    AdvanceToNextStep,
    UpdateUserLocation { location: UserLocation, projection: FixProjection },
}

/// A run of `count` manual advances.
pub open spec fn advances(count: nat) -> Seq<TripCall> {
    Seq::new(count, |i: int| TripCall::AdvanceToNextStep)
}

/// A trip on a route with at least one step starts under way, on the route's
/// first step and with all its steps ahead; a trip on a route without steps
/// starts complete. Either way the data of the state fits together.
pub proof fn lemma_initial_state(
    last_user_location: UserLocation,
    route: RouteView,
    on_route: Closest,
)
    ensures
        TripStateView::initial(last_user_location, route, on_route).consistent(),
        route.steps.len() == 0 ==> TripStateView::initial(last_user_location, route, on_route)
            == TripStateView::Complete,
        route.steps.len() > 0 ==> {
            let state = TripStateView::initial(last_user_location, route, on_route);
            &&& state is Navigating
            &&& state.remaining_steps() == route.steps
            &&& state.remaining_steps()[0] == route.steps[0]
            &&& state->0.current_step_linestring == route.steps[0].geometry
        },
{
    assert(route.steps.skip(0) =~= route.steps);
}

/// A call keeps the data of the state together: after it the cached polyline
/// is still that of the head of the remaining steps. The remaining steps are
/// what they were, or what they were without their head.
pub proof fn lemma_call_keeps_consistency(
    state: TripStateView,
    config: NavigationControllerConfig,
    call: TripCall,
)
    ensures
        state.consistent() ==> state.call(config, call).0.consistent(),
        state.call(config, call).0.remaining_steps() == state.remaining_steps()
            || state.call(config, call).0.remaining_steps() == without_head(
            state.remaining_steps(),
        ),
{
    if let TripStateView::Navigating(trip) = state {
        let steps = trip.remaining_steps;
        if steps.len() == 1 {
            assert(without_head(steps) =~= Seq::<RouteStepView>::empty());
        }
        if steps.len() > 1 && state.consistent() {
            assert(without_head(steps) =~= trip.route.steps.skip(
                trip.route.steps.len() - steps.len() + 1,
            ));
        }
    } else {
        assert(without_head(state.remaining_steps()) =~= state.remaining_steps());
    }
}

/// Whatever calls are made, and in whatever order, the data of the state stays
/// together.
pub proof fn lemma_calls_keep_consistency(
    state: TripStateView,
    config: NavigationControllerConfig,
    calls: Seq<TripCall>,
)
    requires
        state.consistent(),
    ensures
        state.after(config, calls).consistent(),
    decreases calls.len(),
{
    if calls.len() > 0 {
        lemma_calls_keep_consistency(state, config, calls.drop_last());
        lemma_call_keeps_consistency(
            state.after(config, calls.drop_last()),
            config,
            calls.last(),
        );
    }
}

/// A call reports an arrival exactly when it leaves nothing to travel, and a
/// consistent state with nothing left to travel is complete.
pub proof fn lemma_arrived_iff_finished(
    state: TripStateView,
    config: NavigationControllerConfig,
    call: TripCall,
)
    ensures
        state.call(config, call).1 is Arrived <==> state.call(config, call).0.finished(),
        state.consistent() && state.finished() ==> state == TripStateView::Complete,
{
}

/// A trip with nothing left to travel stays so: every further call reports an
/// arrival, and none brings a step back.
pub proof fn lemma_finished_is_absorbing(
    state: TripStateView,
    config: NavigationControllerConfig,
    calls: Seq<TripCall>,
)
    requires
        state.finished(),
    ensures
        state.after(config, calls).finished(),
        state == TripStateView::Complete ==> state.after(config, calls) == TripStateView::Complete,
        calls.len() > 0 ==> state.reported(config, calls) is Arrived,
    decreases calls.len(),
{
    if calls.len() > 0 {
        lemma_finished_is_absorbing(state, config, calls.drop_last());
    }
}

/// Once a call has reported an arrival, no run of further calls reports
/// anything else.
pub proof fn lemma_arrived_is_final(
    state: TripStateView,
    config: NavigationControllerConfig,
    call: TripCall,
    calls: Seq<TripCall>,
)
    requires
        state.call(config, call).1 is Arrived,
        calls.len() > 0,
    ensures
        state.call(config, call).0.reported(config, calls) is Arrived,
{
    lemma_arrived_iff_finished(state, config, call);
    lemma_finished_is_absorbing(state.call(config, call).0, config, calls);
}

/// On a route without steps the trip starts complete, and every call reports
/// an arrival.
pub proof fn lemma_route_without_steps(
    last_user_location: UserLocation,
    route: RouteView,
    on_route: Closest,
    config: NavigationControllerConfig,
    calls: Seq<TripCall>,
)
    requires
        route.steps.len() == 0,
    ensures
        TripStateView::initial(last_user_location, route, on_route).after(config, calls)
            == TripStateView::Complete,
        calls.len() > 0 ==> TripStateView::initial(last_user_location, route, on_route).reported(
            config,
            calls,
        ) is Arrived,
{
    lemma_finished_is_absorbing(TripStateView::Complete, config, calls);
}

/// With `total` steps ahead, each of the first `total - 1` manual advances
/// reports the step that it moved to, with that step's full distance, and
/// leaves the steps behind it ahead; the advance number `total`, and no earlier
/// one, completes the trip and reports the arrival.
pub proof fn lemma_advancing_through_route(
    state: TripStateView,
    config: NavigationControllerConfig,
    count: nat,
)
    requires
        1 <= count <= state.remaining_steps().len(),
    ensures
        count < state.remaining_steps().len() ==> {
            let end = state.after(config, advances(count));
            &&& end is Navigating
            &&& end.remaining_steps() == state.remaining_steps().skip(count as int)
            &&& end->0.current_step_linestring == state.remaining_steps()[count as int].geometry
            &&& state.reported(config, advances(count)) == (
            NavigationStateUpdateView::Navigating {
                snapped_user_location: state->0.snapped_user_location,
                remaining_waypoints: state->0.remaining_waypoints,
                current_step: state.remaining_steps()[count as int],
                current_step_remaining_distance: state.remaining_steps()[count as int].distance,
            })
        },
        count == state.remaining_steps().len() ==> {
            &&& state.after(config, advances(count)) == TripStateView::Complete
            &&& state.reported(config, advances(count)) is Arrived
        },
    decreases count,
{
    let steps = state.remaining_steps();
    let before = state.after(config, advances((count - 1) as nat));
    assert(advances(count).drop_last() =~= advances((count - 1) as nat));
    assert(advances(count).last() == TripCall::AdvanceToNextStep);
    if count == 1 {
        assert(before == state);
        assert(steps.skip(0) =~= steps);
    } else {
        lemma_advancing_through_route(state, config, (count - 1) as nat);
    }
    assert(before is Navigating);
    assert(before.remaining_steps() == steps.skip(count - 1));
    if count < steps.len() {
        assert(without_head(steps.skip(count - 1)) =~= steps.skip(count as int));
    }
}

/// On a route of `total` steps, manual advances from the start of the trip
/// report the route's steps in order: advance number `count`, for `count`
/// below `total`, reports the step at index `count`, and advance number
/// `total`, and no earlier one, completes the trip and reports the arrival.
pub proof fn lemma_advancing_from_start(
    last_user_location: UserLocation,
    route: RouteView,
    on_route: Closest,
    config: NavigationControllerConfig,
    count: nat,
)
    requires
        1 <= count <= route.steps.len(),
    ensures
        count < route.steps.len() ==> {
            let start = TripStateView::initial(last_user_location, route, on_route);
            &&& start.after(config, advances(count)) is Navigating
            &&& start.after(config, advances(count)).remaining_steps() == route.steps.skip(
                count as int,
            )
            &&& start.reported(config, advances(count)) is Navigating
            &&& start.reported(config, advances(count))->current_step == route.steps[count as int]
            &&& start.reported(config, advances(count))->current_step_remaining_distance
                == route.steps[count as int].distance
        },
        count == route.steps.len() ==> {
            let start = TripStateView::initial(last_user_location, route, on_route);
            &&& start.after(config, advances(count)) == TripStateView::Complete
            &&& start.reported(config, advances(count)) is Arrived
        },
{
    lemma_initial_state(last_user_location, route, on_route);
    lemma_advancing_through_route(
        TripStateView::initial(last_user_location, route, on_route),
        config,
        count,
    );
}

/// Under the manual strategy location fixes never move the trip on: after any
/// run of them the same steps are ahead, and while a step is ahead each fix
/// reports the step that the trip was on before the run.
pub proof fn lemma_manual_never_advances(
    state: TripStateView,
    config: NavigationControllerConfig,
    calls: Seq<TripCall>,
)
    requires
        config.step_advance is Manual,
        forall|i: int| 0 <= i < calls.len() ==> calls[i] is UpdateUserLocation,
    ensures
        state.after(config, calls).remaining_steps() == state.remaining_steps(),
        state is Navigating ==> state.after(config, calls) is Navigating,
        state is Navigating ==> state.after(config, calls)->0.current_step_linestring
            == state->0.current_step_linestring,
        calls.len() > 0 && state.remaining_steps().len() > 0 ==> {
            &&& state.reported(config, calls) is Navigating
            &&& state.reported(config, calls)->current_step == state.remaining_steps()[0]
        },
    decreases calls.len(),
{
    if calls.len() > 0 {
        let earlier = calls.drop_last();
        assert forall|i: int| 0 <= i < earlier.len() implies earlier[i] is UpdateUserLocation by {
            assert(earlier[i] == calls[i]);
        }
        lemma_manual_never_advances(state, config, earlier);
        assert(calls.last() == calls[calls.len() - 1]);
    }
}

} // verus!
