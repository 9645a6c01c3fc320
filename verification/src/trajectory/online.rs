//! The bridge between a motion request and the planner.

use crate::double::Double;
use crate::structs::{RobotCommand, Waypoint, WaypointView};
use crate::text::{decimal, join2, join3, number, same};
use crate::trajectory::emit::{emitted_all, to_waypoints};
use crate::trajectory::frames::{
    parse_pose_string, pose_fault, pose_parts, FrameConfig, PoseFrame,
};
use crate::trajectory::limits::PlanScaling;
use crate::trajectory::plan::{
    Interpolation, PlanRequest, PlanWaypoint, PlannedTrajectory, WaypointTarget,
    DEFAULT_MAX_PATH_DEVIATION,
};
use crate::trajectory::timing::DEFAULT_MAX_CARTESIAN_SPEED;
use vstd::prelude::*;

verus! {

/// The `command_type` that runs a planned trajectory. It names a template like every other.
pub const OPTIMAL_TRAJECTORY_COMMAND: &'static str = "optimal_trajectory";

/// How far a joint may be from a stored trajectory's start before it is refused: 0.05 rad.
///
/// A blended trajectory starting from the wrong place traces a different path, so this is a
/// correctness guard, not a convenience. Generous enough to tolerate the arm settling after a
/// previous move.
pub const START_TOLERANCE_RAD: u64 = 0x3FA9_9999_9999_999A;

/// Whether a command should go through the planner.
pub fn is_planner_command(command_type: &str) -> (r: bool)
    ensures
        r == (command_type@ == OPTIMAL_TRAJECTORY_COMMAND@),
{
    same(command_type, OPTIMAL_TRAJECTORY_COMMAND)
}

/// Where the waypoints of a planned command come from.
#[derive(Debug)]
pub enum Source {
    /// Plan now from the waypoints the request carries, starting from where the arm is.
    Request,
    /// Run the stored trajectory of that name.
    ///
    /// It is *not* planned again from the current position: it was planned from a specific
    /// start, and silently re-aiming it would change the path an operator reviewed.
    Stored(String),
}

/// Whether a command takes its waypoints from there.
pub open spec fn is_source_of(command: RobotCommand, r: Source) -> bool {
    match r {
        Source::Request => command@.trajectory_id == ""@,
        Source::Stored(name) => command@.trajectory_id != ""@ && name@
            == command@.trajectory_id,
    }
}

/// Where to take the waypoints of a command from: a trajectory name means a stored one.
pub fn source_of(command: &RobotCommand) -> (r: Source)
    ensures
        is_source_of(*command, r),
{
    if same(command.trajectory_id.as_str(), "") {
        Source::Request
    } else {
        Source::Stored(command.trajectory_id.clone())
    }
}

/// The payload a planned command runs with: none where it does not use one.
pub open spec fn payload_of(use_payload: bool, payload: Seq<char>) -> Seq<char> {
    if use_payload {
        payload
    } else {
        ""@
    }
}

/// The waypoints a planned command should actually execute.
pub fn waypoints_for_command(command: &RobotCommand, trajectory: &PlannedTrajectory) -> (r: Vec<
    Waypoint,
>)
    ensures
        r@.map_values(|w: Waypoint| w@) == emitted_all(
            trajectory.waypoints@,
            command@.tcp_in_faceplate,
            payload_of(command@.use_payload, command@.payload),
        ),
{
    to_waypoints(
        trajectory,
        command.tcp_in_faceplate.as_str(),
        if command.use_payload {
            command.payload.as_str()
        } else {
            ""
        },
    )
}

/// How far a joint is from where a trajectory begins, in radians, and how that is spelled.
#[derive(Debug)]
pub struct Apart {
    pub by: Double,
    pub spelled: String,
}

impl Apart {
    /// Whether the joint is further away than the tolerance.
    pub open spec fn too_far(self) -> bool {
        (Double { bits: START_TOLERANCE_RAD }).lt(self.by)
    }
}

/// What is said of the first joint from `i` on that is too far away.
pub open spec fn first_apart(apart: Seq<Apart>, i: int) -> Option<Seq<char>>
    decreases apart.len() - i,
{
    if i < 0 || i >= apart.len() {
        None
    } else if apart[i].too_far() {
        Some(
            "the arm is not at this trajectory's start: joint "@ + decimal(i as nat) + " is "@
                + apart[i].spelled@
                + " rad away (tolerance 0.05). Move there first, or re-plan."@,
        )
    } else {
        first_apart(apart, i + 1)
    }
}

/// Whether the arm is found to be where a stored trajectory starts, or what is said of it.
pub open spec fn is_start_checked(
    current_joints: Seq<Double>,
    apart: Seq<Apart>,
    r: Result<(), String>,
) -> bool {
    match r {
        Ok(_) => current_joints.len() >= 6 && first_apart(apart, 0) is None,
        Err(e) => if current_joints.len() < 6 {
            e@ == "no joint state available to check the trajectory's start against"@
        } else {
            first_apart(apart, 0) == Some(e@)
        },
    }
}

/// Check that the arm is where a stored trajectory begins.
///
/// `apart` holds how far each joint is from there. Without a joint state the trajectory is
/// refused: that is safer than assuming the arm is where the trajectory wants it.
pub fn check_start_matches(current_joints: &Vec<Double>, apart: &Vec<Apart>) -> (r: Result<
    (),
    String,
>)
    requires
        current_joints@.len() >= 6 ==> apart@.len() == 6,
    ensures
        is_start_checked(current_joints@, apart@, r),
{
    if current_joints.len() < 6 {
        return Err("no joint state available to check the trajectory's start against".to_owned());
    }
    let mut i: usize = 0;
    while i < apart.len()
        invariant
            i <= apart.len(),
            first_apart(apart@, 0) == first_apart(apart@, i as int),
            apart.len() == 6,
            current_joints@.len() >= 6,
        decreases apart.len() - i,
    {
        if (Double { bits: START_TOLERANCE_RAD }).less(apart[i].by) {
            let mut e = join3(
                "the arm is not at this trajectory's start: joint ",
                number(i as u64).as_str(),
                " is ",
            );
            e.append(apart[i].spelled.as_str());
            e.append(" rad away (tolerance 0.05). Move there first, or re-plan.");
            return Err(e);
        }
        i = i + 1;
    }
    Ok(())
}

/// A trajectory is started only with every joint within the tolerance of its start.
pub proof fn started_trajectories_begin_here(apart: Seq<Apart>, i: int)
    requires
        0 <= i,
        first_apart(apart, i) is None,
    ensures
        forall|j: int| i <= j < apart.len() ==> !(#[trigger] apart[j]).too_far(),
    decreases apart.len() - i,
{
    if i < apart.len() {
        started_trajectories_begin_here(apart, i + 1);
    }
}

/// What is wrong with a list that should hold six values.
pub open spec fn six_fault(count: nat, index: nat, field: Seq<char>) -> Option<Seq<char>> {
    if count == 6 {
        None
    } else {
        Some(
            "waypoint "@ + decimal(index) + ": "@ + field + " has "@ + decimal(count)
                + " values, expected 6"@,
        )
    }
}

fn to_six(v: &Vec<Double>, index: usize, field: &str) -> (r: Result<[Double; 6], String>)
    ensures
        match r {
            Ok(q) => six_fault(v@.len(), index as nat, field@) is None && q@ == v@,
            Err(e) => six_fault(v@.len(), index as nat, field@) == Some(e@),
        },
{
    if v.len() != 6 {
        let mut e = join3("waypoint ", number(index as u64).as_str(), ": ");
        e.append(field);
        e.append(" has ");
        e.append(number(v.len() as u64).as_str());
        e.append(" values, expected 6");
        return Err(e);
    }
    let q: [Double; 6] = [v[0], v[1], v[2], v[3], v[4], v[5]];
    assert(q@ =~= v@);
    Ok(q)
}

/// What is wrong with the target of a waypoint.
pub open spec fn target_fault(
    wp: WaypointView,
    read: Seq<Result<Double, String>>,
    index: nat,
) -> Option<Seq<char>> {
    if wp.use_joint_positions {
        six_fault(wp.joint_positions.len(), index, "joint_positions"@)
    } else {
        match pose_fault(wp.target_in_base, read) {
            Some(e) => Some("waypoint "@ + decimal(index) + ": "@ + e),
            None => None,
        }
    }
}

/// What is wrong with a waypoint of a command: with its target, and then with the configuration
/// it prefers.
pub open spec fn waypoint_fault(
    wp: WaypointView,
    read: Seq<Result<Double, String>>,
    index: nat,
) -> Option<Seq<char>> {
    if target_fault(wp, read, index) is Some {
        target_fault(wp, read, index)
    } else if wp.use_preferred_joint_config {
        six_fault(wp.preferred_joint_config.len(), index, "preferred_joint_config"@)
    } else {
        None
    }
}

/// The fault of the first waypoint from `i` on that has one.
pub open spec fn first_waypoint_fault(
    waypoints: Seq<WaypointView>,
    read: Seq<Vec<Result<Double, String>>>,
    i: int,
) -> Option<Seq<char>>
    decreases waypoints.len() - i,
{
    if i < 0 || i >= waypoints.len() {
        None
    } else if waypoint_fault(waypoints[i], read[i]@, i as nat) is Some {
        waypoint_fault(waypoints[i], read[i]@, i as nat)
    } else {
        first_waypoint_fault(waypoints, read, i + 1)
    }
}

/// Why a command cannot be planned; `None` where it can.
pub open spec fn command_fault(
    waypoints: Seq<WaypointView>,
    read: Seq<Vec<Result<Double, String>>>,
    joints: nat,
) -> Option<Seq<char>> {
    if waypoints.len() == 0 {
        Some("a planned trajectory needs at least one waypoint"@)
    } else if joints < 6 {
        Some("no joint state available to plan from"@)
    } else {
        first_waypoint_fault(waypoints, read, 0)
    }
}

/// Whether a target is that of a waypoint. A pose is taken against `base_link`, which is what it
/// was looked up against.
pub open spec fn targets(
    wp: WaypointView,
    read: Seq<Result<Double, String>>,
    target: WaypointTarget,
) -> bool {
    match target {
        WaypointTarget::Joints(q) => wp.use_joint_positions && q@ == wp.joint_positions,
        WaypointTarget::Pose { values, frame } => {
            &&& !wp.use_joint_positions
            &&& frame == PoseFrame::UrdfBaseLink
            &&& forall|i: int| 0 <= i < 6 ==> read[i] == Ok::<Double, String>(#[trigger] values@[i])
        },
    }
}

/// Whether a plan waypoint asks for what a waypoint of a command asks for.
pub open spec fn asks_for(
    wp: WaypointView,
    read: Seq<Result<Double, String>>,
    planned: PlanWaypoint,
) -> bool {
    &&& targets(wp, read, planned.target)
    &&& match planned.preferred_joint_config {
        Some(q) => wp.use_preferred_joint_config && q@ == wp.preferred_joint_config,
        None => !wp.use_preferred_joint_config,
    }
    &&& planned.blend_radius == (if wp.use_blend_radius {
        Some(wp.blend_radius)
    } else {
        None
    })
    &&& planned.interpolation == (if wp.use_linear_motion {
        Interpolation::Linear
    } else {
        Interpolation::Joint
    })
}

fn waypoint_target(wp: &Waypoint, read: &Vec<Result<Double, String>>, index: usize) -> (r: Result<
    WaypointTarget,
    String,
>)
    requires
        !wp.use_joint_positions ==> (pose_parts(wp.target_in_base@) matches Some(parts)
            ==> parts.len() == read.len()),
    ensures
        match r {
            Ok(target) => target_fault(wp@, read@, index as nat) is None && targets(
                wp@,
                read@,
                target,
            ),
            Err(e) => target_fault(wp@, read@, index as nat) == Some(e@),
        },
{
    if wp.use_joint_positions {
        match to_six(&wp.joint_positions, index, "joint_positions") {
            Ok(q) => Ok(WaypointTarget::Joints(q)),
            Err(e) => Err(e),
        }
    } else {
        match parse_pose_string(wp.target_in_base.as_str(), read) {
            Ok(values) => Ok(WaypointTarget::Pose { values, frame: PoseFrame::UrdfBaseLink }),
            Err(e) => Err(
                join2(
                    join3("waypoint ", number(index as u64).as_str(), ": ").as_str(),
                    e.as_str(),
                ),
            ),
        }
    }
}

/// Whether a planning problem is that of a command: from where the arm is, through the waypoints
/// that it asks for.
pub open spec fn is_request_of(
    request: PlanRequest,
    command: RobotCommand,
    current_joints: Seq<Double>,
    robot_model: Seq<char>,
    read: Seq<Vec<Result<Double, String>>>,
) -> bool {
    &&& request.robot_model@ == robot_model
    &&& request.start matches WaypointTarget::Joints(q) && q@ == current_joints.take(6)
    &&& request.waypoints@.len() == command@.waypoints.len()
    &&& forall|i: int|
        0 <= i < request.waypoints@.len() ==> asks_for(
            command@.waypoints[i],
            read[i]@,
            #[trigger] request.waypoints@[i],
        )
    &&& request.scaling.velocity == command@.global_velocity_scaling
    &&& request.scaling.acceleration == command@.global_acceleration_scaling
    &&& request.acceleration_max is None
    &&& request.max_cartesian_speed.bits == DEFAULT_MAX_CARTESIAN_SPEED
    &&& request.max_path_deviation.bits == DEFAULT_MAX_PATH_DEVIATION
    &&& request.frame_config.base_link_is_ur_base
}

/// Build a [`PlanRequest`] out of a command, from where the arm is.
///
/// `read` holds, for each waypoint, what reading the components of its target as numbers gave.
pub fn plan_from_command(
    command: &RobotCommand,
    current_joints: &Vec<Double>,
    robot_model: &str,
    read: &Vec<Vec<Result<Double, String>>>,
) -> (r: Result<PlanRequest, String>)
    requires
        read@.len() == command.waypoints@.len(),
        forall|i: int|
            0 <= i < read@.len() && !(#[trigger] command.waypoints@[i]).use_joint_positions ==> (
            pose_parts(command.waypoints@[i].target_in_base@) matches Some(parts) ==> parts.len()
                == read@[i]@.len()),
    ensures
        match r {
            Ok(request) => command_fault(command@.waypoints, read@, current_joints@.len()) is None
                && is_request_of(request, *command, current_joints@, robot_model@, read@),
            Err(e) => command_fault(command@.waypoints, read@, current_joints@.len()) == Some(e@),
        },
{
    if command.waypoints.len() == 0 {
        return Err("a planned trajectory needs at least one waypoint".to_owned());
    }
    if current_joints.len() < 6 {
        return Err("no joint state available to plan from".to_owned());
    }
    let start: [Double; 6] = [
        current_joints[0],
        current_joints[1],
        current_joints[2],
        current_joints[3],
        current_joints[4],
        current_joints[5],
    ];
    assert(start@ =~= current_joints@.take(6));
    let mut waypoints: Vec<PlanWaypoint> = Vec::new();
    let mut i: usize = 0;
    while i < command.waypoints.len()
        invariant
            i <= command.waypoints.len(),
            command.waypoints@.len() > 0,
            current_joints@.len() >= 6,
            read@.len() == command.waypoints@.len(),
            forall|i: int|
                0 <= i < read@.len() && !(#[trigger] command.waypoints@[i]).use_joint_positions
                    ==> (pose_parts(command.waypoints@[i].target_in_base@) matches Some(parts)
                    ==> parts.len() == read@[i]@.len()),
            first_waypoint_fault(command@.waypoints, read@, 0) == first_waypoint_fault(
                command@.waypoints,
                read@,
                i as int,
            ),
            waypoints.len() == i,
            forall|j: int|
                0 <= j < i ==> asks_for(
                    command@.waypoints[j],
                    read@[j]@,
                    #[trigger] waypoints@[j],
                ),
        decreases command.waypoints.len() - i,
    {
        let wp = &command.waypoints[i];
        assert(command@.waypoints[i as int] == wp@);
        let target = match waypoint_target(wp, &read[i], i) {
            Ok(target) => target,
            Err(e) => {
                return Err(e);
            },
        };
        let preferred_joint_config = if wp.use_preferred_joint_config {
            match to_six(&wp.preferred_joint_config, i, "preferred_joint_config") {
                Ok(q) => Some(q),
                Err(e) => {
                    return Err(e);
                },
            }
        } else {
            None
        };
        waypoints.push(
            PlanWaypoint {
                target,
                preferred_joint_config,
                blend_radius: if wp.use_blend_radius {
                    Some(wp.blend_radius)
                } else {
                    None
                },
                interpolation: if wp.use_linear_motion {
                    Interpolation::Linear
                } else {
                    Interpolation::Joint
                },
            },
        );
        i = i + 1;
    }
    Ok(
        PlanRequest {
            robot_model: robot_model.to_owned(),
            start: WaypointTarget::Joints(start),
            waypoints,
            scaling: PlanScaling {
                velocity: command.global_velocity_scaling,
                acceleration: command.global_acceleration_scaling,
            },
            acceleration_max: None,
            max_cartesian_speed: Double { bits: DEFAULT_MAX_CARTESIAN_SPEED },
            max_path_deviation: Double { bits: DEFAULT_MAX_PATH_DEVIATION },
            frame_config: FrameConfig::default(),
        },
    )
}

} // verus!
