//! The route data model: coordinates, location fixes, routes and their steps.
use vstd::prelude::*;
use std::time::SystemTime;

verus! {

/// `std::time::SystemTime`, carried through as an opaque value: nothing is
/// claimed about what a timestamp holds.
#[verifier::external_type_specification]
#[verifier::external_body]
pub struct ExSystemTime(SystemTime);

/// A longitude/latitude pair, each in units of 1e-7 degree.
#[derive(Clone, Copy, PartialEq, Eq, PartialOrd, Debug, Structural)]
pub struct GeographicCoordinates {
    pub lng: i32,
    pub lat: i32,
}

/// The direction in which the user/device is observed to be traveling.
#[derive(Clone, Copy, PartialEq, Eq, PartialOrd, Debug, Structural)]
pub struct CourseOverGround {
    /// The direction in which the user's device is traveling, measured in clockwise degrees from
    /// true north (N = 0, E = 90, S = 180, W = 270).
    pub degrees: u16,
    /// The accuracy of the course value, measured in degrees.
    pub accuracy: u16,
}

impl CourseOverGround {
    pub fn new(degrees: u16, accuracy: u16) -> (course: Self)
        ensures
            course.degrees == degrees,
            course.accuracy == accuracy,
    {
        Self { degrees, accuracy }
    }
}

/// The location of the user that is navigating.
///
/// In addition to coordinates, this includes estimated accuracy and course information,
/// which can influence navigation logic and UI.
#[derive(Clone, Copy, PartialEq, PartialOrd, Debug)]
pub struct UserLocation {
    pub coordinates: GeographicCoordinates,
    /// The estimated accuracy of the coordinate, in millimetres.
    pub horizontal_accuracy: u64,
    pub course_over_ground: Option<CourseOverGround>,
    pub timestamp: SystemTime,
}

/// Information describing the series of steps needed to travel between two or more points.
#[derive(Debug)]
pub struct Route {
    pub geometry: Vec<GeographicCoordinates>,
    /// The total route distance, in millimetres.
    pub distance: u64,
    /// The ordered list of waypoints to visit, including the starting point.
    /// Note that this is distinct from the *geometry* which includes all points visited.
    /// A waypoint represents a start/end point for a route leg.
    pub waypoints: Vec<GeographicCoordinates>,
    pub steps: Vec<RouteStep>,
}

/// A maneuver (such as a turn or merge) followed by travel of a certain distance until reaching
/// the next step.
#[derive(Debug, PartialEq)]
pub struct RouteStep {
    pub geometry: Vec<GeographicCoordinates>,
    /// The distance, in millimetres, to travel along the route after the maneuver to reach the
    /// next step.
    pub distance: u64,
    pub road_name: Option<String>,
    pub instruction: String,
    pub visual_instructions: Vec<VisualInstructions>,
}

#[derive(Debug, PartialEq)]
pub struct SpokenInstruction {
    /// Plain-text instruction which can be synthesized with a TTS engine.
    pub text: String,
    /// Speech Synthesis Markup Language, which should be preferred by clients capable of
    /// understanding it.
    pub ssml: Option<String>,
    /// How far (in millimetres) from the upcoming maneuver the instruction should start being
    /// spoken.
    pub trigger_distance_before_maneuver: u64,
}

/// Indicates the type of maneuver to perform.
///
/// Frequently used in conjunction with [ManeuverModifier].
#[derive(Debug, Copy, Clone, Eq, PartialEq, Structural)]
pub enum ManeuverType {
    Turn,
    NewName,
    Depart,
    Arrive,
    Merge,
    OnRamp,
    OffRamp,
    Fork,
    EndOfRoad,
    Continue,
    Roundabout,
    Rotary,
    RoundaboutTurn,
    Notification,
    ExitRoundabout,
    ExitRotary,
}

/// Specifies additional information about a [ManeuverType]
#[derive(Debug, Copy, Clone, Eq, PartialEq, Structural)]
pub enum ManeuverModifier {
    UTurn,
    SharpRight,
    Right,
    SlightRight,
    Straight,
    SlightLeft,
    Left,
    SharpLeft,
}

#[derive(Debug, Eq, PartialEq)]
pub struct VisualInstructionContent {
    pub text: String,
    pub maneuver_type: Option<ManeuverType>,
    pub maneuver_modifier: Option<ManeuverModifier>,
    pub roundabout_exit_degrees: Option<u16>,
}

#[derive(Debug, PartialEq)]
pub struct VisualInstructions {
    pub primary_content: VisualInstructionContent,
    pub secondary_content: Option<VisualInstructionContent>,
    /// How far (in millimetres) from the upcoming maneuver the instruction should start being
    /// displayed.
    pub trigger_distance_before_maneuver: u64,
}

/// What a [VisualInstructionContent] holds, with its text as a sequence of characters.
pub struct VisualInstructionContentView {
    pub text: Seq<char>,
    pub maneuver_type: Option<ManeuverType>,
    pub maneuver_modifier: Option<ManeuverModifier>,
    pub roundabout_exit_degrees: Option<u16>,
}

/// What a [VisualInstructions] holds.
pub struct VisualInstructionsView {
    pub primary_content: VisualInstructionContentView,
    pub secondary_content: Option<VisualInstructionContentView>,
    pub trigger_distance_before_maneuver: u64,
}

/// What a [RouteStep] holds.
pub struct RouteStepView {
    pub geometry: Seq<GeographicCoordinates>,
    pub distance: u64,
    pub road_name: Option<Seq<char>>,
    pub instruction: Seq<char>,
    pub visual_instructions: Seq<VisualInstructionsView>,
}

/// What a [Route] holds.
pub struct RouteView {
    pub geometry: Seq<GeographicCoordinates>,
    pub distance: u64,
    pub waypoints: Seq<GeographicCoordinates>,
    pub steps: Seq<RouteStepView>,
}

impl View for VisualInstructionContent {
    type V = VisualInstructionContentView;

    open spec fn view(&self) -> VisualInstructionContentView {
        VisualInstructionContentView {
            text: self.text@,
            maneuver_type: self.maneuver_type,
            maneuver_modifier: self.maneuver_modifier,
            roundabout_exit_degrees: self.roundabout_exit_degrees,
        }
    }
}

impl View for VisualInstructions {
    type V = VisualInstructionsView;

    open spec fn view(&self) -> VisualInstructionsView {
        VisualInstructionsView {
            primary_content: self.primary_content@,
            secondary_content: match self.secondary_content {
                Some(content) => Some(content@),
                None => None,
            },
            trigger_distance_before_maneuver: self.trigger_distance_before_maneuver,
        }
    }
}

impl View for RouteStep {
    type V = RouteStepView;

    open spec fn view(&self) -> RouteStepView {
        RouteStepView {
            geometry: self.geometry@,
            distance: self.distance,
            road_name: match self.road_name {
                Some(name) => Some(name@),
                None => None,
            },
            instruction: self.instruction@,
            visual_instructions: self.visual_instructions@.map_values(|v: VisualInstructions| v@),
        }
    }
}

impl View for Route {
    type V = RouteView;

    open spec fn view(&self) -> RouteView {
        RouteView {
            geometry: self.geometry@,
            distance: self.distance,
            waypoints: self.waypoints@,
            steps: step_views(self.steps@),
        }
    }
}

/// The steps of a sequence, each as what it holds.
pub open spec fn step_views(steps: Seq<RouteStep>) -> Seq<RouteStepView> {
    steps.map_values(|s: RouteStep| s@)
}

impl Clone for VisualInstructionContent {
    fn clone(&self) -> (copy: Self)
        ensures
            copy@ == self@,
    {
        VisualInstructionContent {
            text: self.text.clone(),
            maneuver_type: self.maneuver_type,
            maneuver_modifier: self.maneuver_modifier,
            roundabout_exit_degrees: self.roundabout_exit_degrees,
        }
    }
}

impl Clone for VisualInstructions {
    fn clone(&self) -> (copy: Self)
        ensures
            copy@ == self@,
    {
        VisualInstructions {
            primary_content: self.primary_content.clone(),
            secondary_content: match &self.secondary_content {
                Some(content) => Some(content.clone()),
                None => None,
            },
            trigger_distance_before_maneuver: self.trigger_distance_before_maneuver,
        }
    }
}

impl Clone for RouteStep {
    fn clone(&self) -> (copy: Self)
        ensures
            copy@ == self@,
    {
        let copy = RouteStep {
            geometry: self.geometry.clone(),
            distance: self.distance,
            road_name: self.road_name.clone(),
            instruction: self.instruction.clone(),
            visual_instructions: self.visual_instructions.clone(),
        };
        assert(copy.geometry@ =~= self.geometry@);
        assert(copy@.visual_instructions =~= self@.visual_instructions);
        copy
    }
}

impl RouteStep {
    /// The polyline of this step: its geometry, as a sequence of its own.
    pub fn get_linestring(&self) -> (linestring: Vec<GeographicCoordinates>)
        ensures
            linestring@ == self.geometry@,
    {
        let linestring = self.geometry.clone();
        assert(linestring@ =~= self.geometry@);
        linestring
    }
}

} // verus!
