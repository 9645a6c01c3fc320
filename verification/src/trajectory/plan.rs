//! The planner: waypoints in, a blended `movej`/`movel` chain out.
//!
//! The result is deliberately *commandable*: every waypoint carries a velocity and an
//! acceleration the controller will honour, and a blend radius that will not make it skip a
//! move. The speeds and the blends themselves are arithmetic; what is decided here is which
//! requests are planned, in what order and from which seed their waypoints are resolved, what
//! stops a plan, and what goes into the result.

use crate::double::{Double, ZERO};
use crate::text::{decimal, join3, number, strip_trailing, views, without_trailing};
use crate::trajectory::frames::{FrameConfig, PoseFrame};
use crate::trajectory::kinematics::{lengths_of, DhParameters};
use crate::trajectory::limits::{Limits, PlanScaling};
use crate::trajectory::path::{check_configuration, violation, ResolveError};
use crate::trajectory::timing::{Corner, Segment};
use vstd::prelude::*;

verus! {

/// How far the tool may stray from a corner when blending: 0.01 metres.
pub const DEFAULT_MAX_PATH_DEVIATION: u64 = 0x3F84_7AE1_47AE_147B;

/// Emitted waypoints beyond which a plan is refused.
///
/// Each waypoint becomes a move plus a validation line and a progress line, and the controller
/// parses the whole program before it moves. This is a legibility and start-up-latency ceiling,
/// not a protocol limit.
pub const MAX_WAYPOINTS: usize = 400;

/// Where a waypoint is, and in what space it was given.
#[derive(Clone, Copy, Debug)]
pub enum WaypointTarget {
    /// Joint angles, from the base to the wrist.
    Joints([Double; 6]),
    /// A tool pose, `[x, y, z, rx, ry, rz]` with a rotation vector.
    Pose { values: [Double; 6], frame: PoseFrame },
}

/// The frame of a pose that does not name one: what the driver looks poses up against.
pub fn default_pose_frame() -> (r: PoseFrame)
    ensures
        r == PoseFrame::UrdfBaseLink,
{
    PoseFrame::UrdfBaseLink
}

/// How the arm should travel *to* a waypoint.
///
/// Independent of how the target was specified: a joint-space target can still be reached along
/// a straight tool path, and a pose can still be reached by joint interpolation.
#[derive(Clone, Copy, PartialEq, Eq, Debug, Structural)]
pub enum Interpolation {
    /// `movej`: fastest, but the tool traces a curve.
    Joint,
    /// `movel`: the tool travels in a straight line.
    Linear,
}

impl Default for Interpolation {
    fn default() -> (r: Interpolation)
        ensures
            r == Interpolation::Joint,
    {
        Interpolation::Joint
    }
}

/// One waypoint as the caller specifies it.
#[derive(Clone, Copy, Debug)]
pub struct PlanWaypoint {
    pub target: WaypointTarget,
    /// Which inverse-kinematics branch to prefer. Without one, the branch nearest the previous
    /// waypoint is chosen, which is what keeps the wrist from flipping mid-path.
    pub preferred_joint_config: Option<[Double; 6]>,
    /// An upper bound on this corner's blend radius, in metres. The planner may choose less; it
    /// never chooses more.
    pub blend_radius: Option<Double>,
    pub interpolation: Interpolation,
}

/// A complete planning problem.
#[derive(Debug)]
pub struct PlanRequest {
    /// The robot's model, e.g. `"ur20"`.
    pub robot_model: String,
    /// Where the motion begins - normally the arm's current configuration.
    pub start: WaypointTarget,
    pub waypoints: Vec<PlanWaypoint>,
    pub scaling: PlanScaling,
    /// Overrides the estimated acceleration limits.
    pub acceleration_max: Option<[Double; 6]>,
    pub max_cartesian_speed: Double,
    pub max_path_deviation: Double,
    pub frame_config: FrameConfig,
}

/// One waypoint as the controller will receive it.
#[derive(Clone, Copy, Debug)]
pub struct PlannedWaypoint {
    pub joint_positions: [Double; 6],
    /// `movej`: leading-axis rad/s. `movel`: tool m/s.
    pub velocity: Double,
    /// `movej`: leading-axis rad/s^2. `movel`: tool m/s^2.
    pub acceleration: Double,
    /// Metres. Zero means "stop here".
    pub blend_radius: Double,
    pub use_linear_motion: bool,
    /// Which joint limited this segment's speed. Diagnostic only.
    pub limiting_joint: usize,
}

/// A planned trajectory, ready to store or to render.
#[derive(Debug)]
pub struct PlannedTrajectory {
    pub robot_model: String,
    pub start_joint_positions: [Double; 6],
    pub waypoints: Vec<PlannedWaypoint>,
    /// Seconds. An **estimate**: it sums rest-to-rest segment times, and a blended segment never
    /// comes to rest, so the real motion is faster.
    pub duration_estimate: Double,
    pub limits: Limits,
    /// Things worth telling the caller that did not stop the plan.
    pub warnings: Vec<String>,
}

/// Why a plan could not be produced.
#[derive(Debug)]
pub enum PlanError {
    UnknownModel(String),
    NoWaypoints,
    TooManyWaypoints { count: usize, max: usize },
    Resolve(ResolveError),
    /// A straight segment leaves the workspace, or crosses a branch flip, between two endpoints
    /// that are themselves fine.
    LinearSegmentNotFollowable { index: usize },
    /// Two adjacent waypoints are the same point.
    DegenerateSegment { index: usize },
}

/// What a [`PlanError`] says.
pub enum PlanFault {
    UnknownModel(Seq<char>),
    NoWaypoints,
    TooManyWaypoints { count: nat, max: nat },
    Resolve(ResolveError),
    LinearSegmentNotFollowable { index: nat },
    DegenerateSegment { index: nat },
}

impl View for PlanError {
    type V = PlanFault;

    open spec fn view(&self) -> PlanFault {
        match self {
            PlanError::UnknownModel(m) => PlanFault::UnknownModel(m@),
            PlanError::NoWaypoints => PlanFault::NoWaypoints,
            PlanError::TooManyWaypoints { count, max } => PlanFault::TooManyWaypoints {
                count: *count as nat,
                max: *max as nat,
            },
            PlanError::Resolve(e) => PlanFault::Resolve(*e),
            PlanError::LinearSegmentNotFollowable { index } => {
                PlanFault::LinearSegmentNotFollowable { index: *index as nat }
            },
            PlanError::DegenerateSegment { index } => {
                PlanFault::DegenerateSegment { index: *index as nat }
            },
        }
    }
}

impl PlanFault {
    /// What is said of the fault. `value`, `min` and `max` are the spellings of the numbers of a
    /// configuration outside its limits.
    pub open spec fn text(self, value: Seq<char>, min: Seq<char>, max: Seq<char>) -> Seq<char> {
        match self {
            PlanFault::UnknownModel(m) => "unknown robot model '"@ + m + "'"@,
            PlanFault::NoWaypoints => "a trajectory needs at least one waypoint"@,
            PlanFault::TooManyWaypoints { count, max } => decimal(count)
                + " waypoints exceeds the limit of "@ + decimal(max),
            PlanFault::Resolve(e) => e.text(value, min, max),
            PlanFault::LinearSegmentNotFollowable { index } => "the straight path to waypoint "@
                + decimal(index)
                + " leaves the workspace or requires a wrist flip; use joint interpolation or add an intermediate waypoint"@,
            PlanFault::DegenerateSegment { index } => "waypoint "@ + decimal(index)
                + " is the same configuration as the one before it"@,
        }
    }
}

impl PlanError {
    /// Say why there is no plan.
    pub fn message(&self, value: &str, min: &str, max: &str) -> (r: String)
        ensures
            r@ == self@.text(value@, min@, max@),
    {
        match self {
            PlanError::UnknownModel(m) => join3("unknown robot model '", m.as_str(), "'"),
            PlanError::NoWaypoints => "a trajectory needs at least one waypoint".to_owned(),
            PlanError::TooManyWaypoints { count, max } => join3(
                number(*count as u64).as_str(),
                " waypoints exceeds the limit of ",
                number(*max as u64).as_str(),
            ),
            PlanError::Resolve(e) => e.message(value, min, max),
            PlanError::LinearSegmentNotFollowable { index } => join3(
                "the straight path to waypoint ",
                number(*index as u64).as_str(),
                " leaves the workspace or requires a wrist flip; use joint interpolation or add an intermediate waypoint",
            ),
            PlanError::DegenerateSegment { index } => join3(
                "waypoint ",
                number(*index as u64).as_str(),
                " is the same configuration as the one before it",
            ),
        }
    }
}

/// Why a request is not planned at all; `None` where it is.
pub open spec fn refused(model: Seq<char>, count: nat) -> Option<PlanFault> {
    if lengths_of(model) is None {
        Some(PlanFault::UnknownModel(model))
    } else if count == 0 {
        Some(PlanFault::NoWaypoints)
    } else if count > MAX_WAYPOINTS {
        Some(PlanFault::TooManyWaypoints { count, max: MAX_WAYPOINTS as nat })
    } else {
        None
    }
}

/// Whether a request is found fit to be planned, with the lengths of its arm, or why not.
pub open spec fn is_checked_as(request: PlanRequest, r: Result<DhParameters, PlanError>) -> bool {
    match r {
        Ok(dh) => refused(request.robot_model@, request.waypoints@.len()) is None
            && lengths_of(request.robot_model@) == Some(dh),
        Err(e) => refused(request.robot_model@, request.waypoints@.len()) == Some(e@),
    }
}

/// Check that a request can be planned, and find the lengths of its arm.
pub fn check_request(request: &PlanRequest) -> (r: Result<DhParameters, PlanError>)
    ensures
        is_checked_as(*request, r),
{
    match DhParameters::for_model(request.robot_model.as_str()) {
        None => Err(PlanError::UnknownModel(request.robot_model.clone())),
        Some(dh) => if request.waypoints.len() == 0 {
            Err(PlanError::NoWaypoints)
        } else if request.waypoints.len() > MAX_WAYPOINTS {
            Err(PlanError::TooManyWaypoints { count: request.waypoints.len(), max: MAX_WAYPOINTS })
        } else {
            Ok(dh)
        },
    }
}

/// Where a model's URDF may be: in the tree that comes with the driver, and then in the
/// directory that was configured.
pub open spec fn urdf_places(model: Seq<char>, dir: Option<Seq<char>>) -> Seq<Seq<char>> {
    let first = "src/ur_description/urdf/"@ + model + ".urdf"@;
    match dir {
        None => seq![first],
        Some(d) => seq![first, without_trailing(d, '/') + "/urdf/"@ + model + ".urdf"@],
    }
}

/// The files to look for a model's limits in, in their order.
pub fn model_urdf_paths(model: &str, description_dir: Option<&str>) -> (r: Vec<String>)
    ensures
        views(r@) == urdf_places(
            model@,
            match description_dir {
                Some(d) => Some(d@),
                None => None,
            },
        ),
{
    let mut r: Vec<String> = Vec::new();
    r.push(join3("src/ur_description/urdf/", model, ".urdf"));
    if let Some(dir) = description_dir {
        let mut alt = strip_trailing(dir, '/');
        alt.append("/urdf/");
        alt.append(model);
        alt.append(".urdf");
        r.push(alt);
    }
    assert(views(r@) =~= urdf_places(
        model@,
        match description_dir {
            Some(d) => Some(d@),
            None => None,
        },
    ));
    r
}

/// The first of the limits that could be read.
pub open spec fn first_limits(tried: Seq<Result<Limits, String>>) -> Option<Limits>
    decreases tried.len(),
{
    if tried.len() == 0 {
        None
    } else {
        match tried[0] {
            Ok(limits) => Some(limits),
            Err(_) => first_limits(tried.drop_first()),
        }
    }
}

/// Whether those are the limits of a model, or it is said to be unknown.
pub open spec fn are_model_limits(
    model: Seq<char>,
    tried: Seq<Result<Limits, String>>,
    r: Result<Limits, PlanError>,
) -> bool {
    match r {
        Ok(limits) => first_limits(tried) == Some(limits),
        Err(e) => first_limits(tried) is None && e@ == PlanFault::UnknownModel(model),
    }
}

/// Limits for a model: the first that could be read.
pub fn model_limits(model: &str, tried: &Vec<Result<Limits, String>>) -> (r: Result<
    Limits,
    PlanError,
>)
    ensures
        are_model_limits(model@, tried@, r),
{
    let mut i: usize = 0;
    assert(tried@.skip(0) =~= tried@);
    while i < tried.len()
        invariant
            i <= tried.len(),
            first_limits(tried@.skip(i as int)) == first_limits(tried@),
        decreases tried.len() - i,
    {
        assert(tried@.skip(i as int).drop_first() =~= tried@.skip(i + 1));
        if let Ok(limits) = &tried[i] {
            return Ok(*limits);
        }
        i = i + 1;
    }
    Err(PlanError::UnknownModel(model.to_owned()))
}

/// Whether those are the limits to plan with.
pub open spec fn are_planning_limits(request: PlanRequest, limits: Limits, r: Limits) -> bool {
    r == match request.acceleration_max {
        Some(a) => (Limits { acceleration_max: a, ..limits }),
        None => limits,
    }
}

/// The limits to plan with, before scaling: the model's, with the accelerations the request
/// overrides.
pub fn planning_limits(request: &PlanRequest, limits: Limits) -> (r: Limits)
    ensures
        are_planning_limits(*request, limits, r),
{
    match request.acceleration_max {
        Some(a) => limits.with_acceleration(a),
        None => limits,
    }
}

/// The target that is resolved as number `k`: the start, and then the waypoints.
pub open spec fn target_at(request: PlanRequest, k: int) -> WaypointTarget {
    if k == 0 {
        request.start
    } else {
        request.waypoints@[k - 1].target
    }
}

/// The configuration that a pose target is solved near: the one the waypoint prefers, else that
/// of the waypoint before. The start has neither and is solved near zero.
pub open spec fn seed_at(request: PlanRequest, configs: Seq<[Double; 6]>, k: int) -> Seq<Double> {
    if k == 0 {
        Seq::new(6, |i: int| Double { bits: ZERO })
    } else {
        match request.waypoints@[k - 1].preferred_joint_config {
            Some(q) => q@,
            None => configs[k - 1]@,
        }
    }
}

/// What resolving the waypoints waits for.
#[derive(Debug)]
pub enum Need {
    /// A pose to be solved near the seed.
    Solve { values: [Double; 6], frame: PoseFrame, seed: [Double; 6], index: usize },
    /// Nothing: every waypoint is resolved.
    Done,
    /// A waypoint was given by a configuration outside the limits.
    Refused(ResolveError),
}

/// The configurations after resolving as many targets as need no solving.
pub open spec fn resolved(
    request: PlanRequest,
    limits: Limits,
    configs: Seq<[Double; 6]>,
) -> Seq<[Double; 6]>
    decreases request.waypoints@.len() + 1 - configs.len(),
{
    if configs.len() > request.waypoints@.len() {
        configs
    } else {
        match target_at(request, configs.len() as int) {
            WaypointTarget::Joints(q) => if violation(limits, q@, configs.len() as usize, 0)
                is None {
                resolved(request, limits, configs.push(q))
            } else {
                configs
            },
            WaypointTarget::Pose { .. } => configs,
        }
    }
}

/// Whether that is what resolving waits for once it has come to `configs`.
pub open spec fn waits_for(
    request: PlanRequest,
    limits: Limits,
    configs: Seq<[Double; 6]>,
    need: Need,
) -> bool {
    let k = configs.len() as int;
    if k > request.waypoints@.len() {
        need is Done
    } else {
        match target_at(request, k) {
            WaypointTarget::Joints(q) => need matches Need::Refused(e) && violation(
                limits,
                q@,
                k as usize,
                0,
            ) == Some(e),
            WaypointTarget::Pose { values, frame } => {
                &&& need matches Need::Solve { values: v, frame: f, seed: s, index: i }
                &&& v == values
                &&& f == frame
                &&& s@ == seed_at(request, configs, k)
                &&& i == k
            },
        }
    }
}

/// Resolve waypoints to joint space, up to the next one that has to be solved.
///
/// A target given by joint angles is taken as it is if it is inside the limits.
pub fn resolve_next(
    request: &PlanRequest,
    limits: &Limits,
    configs: &mut Vec<[Double; 6]>,
) -> (r: Need)
    requires
        old(configs)@.len() <= request.waypoints@.len() + 1,
    ensures
        final(configs)@ == resolved(*request, *limits, old(configs)@),
        waits_for(*request, *limits, final(configs)@, r),
{
    let ghost before = configs@;
    loop
        invariant
            before == old(configs)@,
            configs@.len() <= request.waypoints@.len() + 1,
            resolved(*request, *limits, configs@) == resolved(*request, *limits, before),
        decreases request.waypoints@.len() + 1 - configs@.len(),
    {
        let k: usize = configs.len();
        if k > request.waypoints.len() {
            return Need::Done;
        }
        let target = if k == 0 {
            request.start
        } else {
            request.waypoints[k - 1].target
        };
        match target {
            WaypointTarget::Joints(q) => {
                if let Err(e) = check_configuration(limits, &q, k) {
                    return Need::Refused(e);
                }
                configs.push(q);
            },
            WaypointTarget::Pose { values, frame } => {
                let zero = Double { bits: ZERO };
                let seed = if k == 0 {
                    [zero, zero, zero, zero, zero, zero]
                } else {
                    match request.waypoints[k - 1].preferred_joint_config {
                        Some(q) => q,
                        None => configs[k - 1],
                    }
                };
                assert(seed@ =~= seed_at(*request, configs@, k as int));
                return Need::Solve { values, frame, seed, index: k };
            },
        }
    }
}

/// The fault of the first segment that could not be timed.
pub open spec fn segment_fault(
    waypoints: Seq<PlanWaypoint>,
    segments: Seq<Option<Segment>>,
    i: int,
) -> Option<PlanFault>
    decreases segments.len() - i,
{
    if i < 0 || i >= segments.len() {
        None
    } else if segments[i] is Some {
        segment_fault(waypoints, segments, i + 1)
    } else if waypoints[i].interpolation == Interpolation::Linear {
        Some(PlanFault::LinearSegmentNotFollowable { index: (i + 1) as nat })
    } else {
        Some(PlanFault::DegenerateSegment { index: (i + 1) as nat })
    }
}

/// Waypoint `i` of the plan.
pub open spec fn planned_waypoint(
    waypoints: Seq<PlanWaypoint>,
    configs: Seq<[Double; 6]>,
    segments: Seq<Option<Segment>>,
    corners: Seq<Option<Corner>>,
    i: int,
) -> PlannedWaypoint {
    PlannedWaypoint {
        joint_positions: configs[i + 1],
        velocity: (segments[i]->0).speed.velocity,
        acceleration: (segments[i]->0).speed.acceleration,
        blend_radius: if i + 1 < waypoints.len() && corners[i] is Some {
            (corners[i]->0).blend
        } else {
            Double { bits: ZERO }
        },
        use_linear_motion: waypoints[i].interpolation == Interpolation::Linear,
        limiting_joint: (segments[i]->0).speed.limiting_joint,
    }
}

/// The warnings of the first `n` segments: that the tool does not travel along a straight one.
pub open spec fn segment_warnings(
    waypoints: Seq<PlanWaypoint>,
    segments: Seq<Option<Segment>>,
    n: nat,
) -> Seq<Seq<char>>
    decreases n,
{
    if n == 0 {
        Seq::empty()
    } else {
        let before = segment_warnings(waypoints, segments, (n - 1) as nat);
        if waypoints[n - 1].interpolation == Interpolation::Linear && (segments[n - 1]->0).still {
            before.push(
                "waypoint "@ + decimal(n)
                    + " asks for a straight move but the tool does not travel; only the orientation changes"@,
            )
        } else {
            before
        }
    }
}

/// The warnings of the first `n` corners: that a gentle one is not blended.
pub open spec fn corner_warnings(corners: Seq<Option<Corner>>, n: nat) -> Seq<Seq<char>>
    decreases n,
{
    if n == 0 {
        Seq::empty()
    } else {
        let before = corner_warnings(corners, (n - 1) as nat);
        match corners[n - 1] {
            Some(c) => if c.gentle && c.blend.equal(Double { bits: ZERO }) {
                before.push(
                    "waypoint "@ + decimal(n) + " cannot be blended, so the arm will stop there"@,
                )
            } else {
                before
            },
            None => before,
        }
    }
}

/// Whether every segment was timed and every corner measured, or a segment could not be timed.
pub open spec fn is_measured(
    n: nat,
    segments: Seq<Option<Segment>>,
    corners: Seq<Option<Corner>>,
) -> bool {
    &&& segments.len() <= n
    &&& (segments.len() == n && corners.len() == n - 1) || (segments.len() > 0
        && segments.last() is None)
}

/// Whether that is the plan that is put together, or why there is none.
pub open spec fn is_plan(
    request: PlanRequest,
    limits: Limits,
    configs: Seq<[Double; 6]>,
    segments: Seq<Option<Segment>>,
    corners: Seq<Option<Corner>>,
    duration_estimate: Double,
    r: Result<PlannedTrajectory, PlanError>,
) -> bool {
    let n = request.waypoints@.len();
    match r {
        Ok(t) => {
            &&& segment_fault(request.waypoints@, segments, 0) is None
            &&& t.robot_model@ == request.robot_model@
            &&& t.start_joint_positions == configs[0]
            &&& t.waypoints@ == Seq::new(
                n,
                |i: int|
                    planned_waypoint(request.waypoints@, configs, segments, corners, i),
            )
            &&& t.duration_estimate == duration_estimate
            &&& t.limits == limits
            &&& views(t.warnings@) == segment_warnings(request.waypoints@, segments, n)
                + corner_warnings(corners, (n - 1) as nat)
        },
        Err(e) => segment_fault(request.waypoints@, segments, 0) == Some(e@),
    }
}

/// Put a plan together from its resolved waypoints and what was measured of its segments and
/// corners.
///
/// The blend at a waypoint is a property of the *corner* there, so the last waypoint has none
/// and the motion ends at rest. The waypoints do **not** include the start: the arm is already
/// there.
pub fn assemble_plan(
    request: &PlanRequest,
    limits: Limits,
    configs: &Vec<[Double; 6]>,
    segments: &Vec<Option<Segment>>,
    corners: &Vec<Option<Corner>>,
    duration_estimate: Double,
) -> (r: Result<PlannedTrajectory, PlanError>)
    requires
        request.waypoints@.len() > 0,
        configs@.len() == request.waypoints@.len() + 1,
        is_measured(request.waypoints@.len(), segments@, corners@),
    ensures
        is_plan(*request, limits, configs@, segments@, corners@, duration_estimate, r),
{
    let ghost ways = request.waypoints@;
    let n: usize = request.waypoints.len();
    let mut i: usize = 0;
    while i < segments.len()
        invariant
            i <= segments@.len() <= n,
            n == ways.len(),
            ways == request.waypoints@,
            forall|j: int| 0 <= j < i ==> #[trigger] segments@[j] is Some,
            segment_fault(ways, segments@, 0) == segment_fault(ways, segments@, i as int),
        decreases segments@.len() - i,
    {
        if segments[i].is_none() {
            return Err(
                if request.waypoints[i].interpolation == Interpolation::Linear {
                    PlanError::LinearSegmentNotFollowable { index: i + 1 }
                } else {
                    PlanError::DegenerateSegment { index: i + 1 }
                },
            );
        }
        i = i + 1;
    }
    assert(segments@.len() == n && corners@.len() == n - 1);
    let mut warnings: Vec<String> = Vec::new();
    let mut waypoints: Vec<PlannedWaypoint> = Vec::new();
    i = 0;
    assert(views(warnings@) =~= segment_warnings(ways, segments@, 0));
    while i < n
        invariant
            i <= n,
            n == ways.len(),
            ways == request.waypoints@,
            configs@.len() == n + 1,
            segments@.len() == n,
            corners@.len() == n - 1,
            forall|j: int| 0 <= j < n ==> #[trigger] segments@[j] is Some,
            views(warnings@) == segment_warnings(ways, segments@, i as nat),
            waypoints@.len() == i,
            forall|j: int|
                0 <= j < i ==> #[trigger] waypoints@[j] == planned_waypoint(
                    ways,
                    configs@,
                    segments@,
                    corners@,
                    j,
                ),
        decreases n - i,
    {
        assert(segments@[i as int] is Some);
        let segment = segments[i].unwrap();
        let linear = request.waypoints[i].interpolation == Interpolation::Linear;
        if linear && segment.still {
            let w = join3(
                "waypoint ",
                number(i as u64 + 1).as_str(),
                " asks for a straight move but the tool does not travel; only the orientation changes",
            );
            let ghost before = views(warnings@);
            warnings.push(w);
            assert(views(warnings@) =~= before.push(w@));
        }
        let blend_radius = if i + 1 < n && corners[i].is_some() {
            corners[i].unwrap().blend
        } else {
            Double { bits: ZERO }
        };
        waypoints.push(
            PlannedWaypoint {
                joint_positions: configs[i + 1],
                velocity: segment.speed.velocity,
                acceleration: segment.speed.acceleration,
                blend_radius,
                use_linear_motion: linear,
                limiting_joint: segment.speed.limiting_joint,
            },
        );
        i = i + 1;
    }
    let ghost first = segment_warnings(ways, segments@, n as nat);
    i = 0;
    assert(views(warnings@) =~= first + corner_warnings(corners@, 0));
    while i < corners.len()
        invariant
            i <= corners@.len() < n,
            views(warnings@) == first + corner_warnings(corners@, i as nat),
        decreases corners@.len() - i,
    {
        if let Some(c) = corners[i] {
            if c.gentle && c.blend.equals(Double { bits: ZERO }) {
                let w = join3(
                    "waypoint ",
                    number(i as u64 + 1).as_str(),
                    " cannot be blended, so the arm will stop there",
                );
                let ghost before = views(warnings@);
                warnings.push(w);
                assert(views(warnings@) =~= before.push(w@));
                assert(before.push(w@) =~= first + corner_warnings(corners@, i as nat).push(w@));
            }
        }
        i = i + 1;
    }
    assert(waypoints@ =~= Seq::new(
        n as nat,
        |i: int| planned_waypoint(ways, configs@, segments@, corners@, i),
    ));
    Ok(
        PlannedTrajectory {
            robot_model: request.robot_model.clone(),
            start_joint_positions: configs[0],
            waypoints,
            duration_estimate,
            limits,
            warnings,
        },
    )
}

/// Resolving takes up every target that was given by joint angles as it was given, inside the
/// limits, and leaves what was resolved before alone.
pub proof fn given_configurations_are_kept(
    request: PlanRequest,
    limits: Limits,
    configs: Seq<[Double; 6]>,
)
    requires
        configs.len() <= request.waypoints@.len() + 1,
    ensures
        configs.len() <= resolved(request, limits, configs).len() <= request.waypoints@.len() + 1,
        forall|k: int|
            0 <= k < configs.len() ==> #[trigger] resolved(request, limits, configs)[k]
                == configs[k],
        forall|k: int|
            configs.len() <= k < resolved(request, limits, configs).len() ==> target_at(request, k)
                == WaypointTarget::Joints(#[trigger] resolved(request, limits, configs)[k])
                && violation(limits, resolved(request, limits, configs)[k]@, k as usize, 0)
                is None,
    decreases request.waypoints@.len() + 1 - configs.len(),
{
    if configs.len() <= request.waypoints@.len() {
        if let WaypointTarget::Joints(q) = target_at(request, configs.len() as int) {
            if violation(limits, q@, configs.len() as usize, 0) is None {
                let more = configs.push(q);
                given_configurations_are_kept(request, limits, more);
                let all = resolved(request, limits, configs);
                assert(all == resolved(request, limits, more));
                assert(all[configs.len() as int] == more[configs.len() as int]);
                assert forall|k: int| 0 <= k < configs.len() implies #[trigger] all[k]
                    == configs[k] by {
                    assert(resolved(request, limits, more)[k] == more[k]);
                }
            }
        }
    }
}

/// Every plan comes to an end: with every pose that is solved, fewer waypoints are left, and
/// when none is left there is one configuration for the start and one for each waypoint.
pub proof fn resolving_makes_progress(
    request: PlanRequest,
    limits: Limits,
    configs: Seq<[Double; 6]>,
    need: Need,
    solution: [Double; 6],
)
    requires
        configs.len() <= request.waypoints@.len() + 1,
        waits_for(request, limits, resolved(request, limits, configs), need),
    ensures
        need is Done ==> resolved(request, limits, configs).len() == request.waypoints@.len() + 1,
        need is Solve ==> configs.len() < resolved(request, limits, configs).push(solution).len()
            <= request.waypoints@.len() + 1,
{
    given_configurations_are_kept(request, limits, configs);
}

/// A plan has one waypoint for each that was asked for, reached at the configuration it was
/// resolved to and in the way that was asked for, and it ends at rest.
pub proof fn plans_follow_the_request(
    request: PlanRequest,
    configs: Seq<[Double; 6]>,
    segments: Seq<Option<Segment>>,
    corners: Seq<Option<Corner>>,
    trajectory: PlannedTrajectory,
)
    requires
        request.waypoints@.len() > 0,
        trajectory.waypoints@ == Seq::new(
            request.waypoints@.len(),
            |i: int| planned_waypoint(request.waypoints@, configs, segments, corners, i),
        ),
    ensures
        trajectory.waypoints@.len() == request.waypoints@.len(),
        trajectory.waypoints@.last().blend_radius.bits == ZERO,
        forall|i: int|
            0 <= i < request.waypoints@.len() ==> {
                &&& (#[trigger] trajectory.waypoints@[i]).joint_positions == configs[i + 1]
                &&& trajectory.waypoints@[i].use_linear_motion == (
                request.waypoints@[i].interpolation == Interpolation::Linear)
            },
{
}

} // verus!
