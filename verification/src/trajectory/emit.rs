//! Turning a planned trajectory into the driver's own command types.
//!
//! # The double-scaling trap
//!
//! The planner bakes velocity and acceleration scaling into the speeds it emits. Some templates
//! *also* apply those fields, so passing them through would square the scaling and produce an
//! arm that crawls. Every emitted waypoint therefore sets both to zero, which is precisely the
//! value the templates read as "no scaling".

use crate::double::{Double, ZERO};
use crate::structs::{RobotCommand, RobotCommandView, Waypoint, WaypointView, IDENTITY_POSE};
use crate::trajectory::plan::{PlannedTrajectory, PlannedWaypoint};
use vstd::prelude::*;

verus! {

/// Six zeros.
pub open spec fn six_zeros() -> Seq<Double> {
    Seq::new(6, |i: int| Double { bits: ZERO })
}

fn zeros() -> (r: Vec<Double>)
    ensures
        r@ == six_zeros(),
{
    let zero = Double { bits: ZERO };
    let r = vec![zero, zero, zero, zero, zero, zero];
    assert(r@ =~= six_zeros());
    r
}

fn six(q: &[Double; 6]) -> (r: Vec<Double>)
    ensures
        r@ == q@,
{
    let r = vec![q[0], q[1], q[2], q[3], q[4], q[5]];
    assert(r@ =~= q@);
    r
}

/// One planned waypoint as a [`Waypoint`].
///
/// It is reached by its joint positions: the planner has solved every pose already, so the
/// controller never runs inverse kinematics for a planned trajectory. It never sets an execution
/// time, which would override speed and acceleration without bound. The target is not used then,
/// but it is referenced, so it is a well-formed pose literal.
pub open spec fn emitted(
    wp: PlannedWaypoint,
    tcp_in_faceplate: Seq<char>,
    payload: Seq<char>,
) -> WaypointView {
    let zero = Double { bits: ZERO };
    WaypointView {
        acceleration: wp.acceleration,
        velocity: wp.velocity,
        global_acceleration_scaling: zero,
        global_velocity_scaling: zero,
        use_execution_time: false,
        execution_time: zero,
        use_blend_radius: zero.lt(wp.blend_radius),
        blend_radius: wp.blend_radius,
        use_joint_positions: true,
        joint_positions: wp.joint_positions@,
        use_preferred_joint_config: false,
        preferred_joint_config: six_zeros(),
        use_payload: payload.len() > 0,
        payload,
        target_in_base: IDENTITY_POSE@,
        relative_pose: six_zeros(),
        tcp_in_faceplate,
        force_threshold: zero,
        use_linear_motion: wp.use_linear_motion,
    }
}

fn to_waypoint(wp: &PlannedWaypoint, tcp_in_faceplate: &str, payload: &str) -> (r: Waypoint)
    ensures
        r@ == emitted(*wp, tcp_in_faceplate@, payload@),
{
    let zero = Double { bits: ZERO };
    Waypoint {
        acceleration: wp.acceleration,
        velocity: wp.velocity,
        global_acceleration_scaling: zero,
        global_velocity_scaling: zero,
        use_execution_time: false,
        execution_time: zero,
        use_blend_radius: zero.less(wp.blend_radius),
        blend_radius: wp.blend_radius,
        use_joint_positions: true,
        joint_positions: six(&wp.joint_positions),
        use_preferred_joint_config: false,
        preferred_joint_config: zeros(),
        use_payload: !payload.is_empty(),
        payload: payload.to_owned(),
        target_in_base: IDENTITY_POSE.to_owned(),
        relative_pose: zeros(),
        tcp_in_faceplate: tcp_in_faceplate.to_owned(),
        force_threshold: zero,
        use_linear_motion: wp.use_linear_motion,
    }
}

/// The waypoints of a whole trajectory.
pub open spec fn emitted_all(
    waypoints: Seq<PlannedWaypoint>,
    tcp_in_faceplate: Seq<char>,
    payload: Seq<char>,
) -> Seq<WaypointView> {
    waypoints.map_values(|w: PlannedWaypoint| emitted(w, tcp_in_faceplate, payload))
}

/// Convert a whole trajectory into waypoints.
pub fn to_waypoints(trajectory: &PlannedTrajectory, tcp_in_faceplate: &str, payload: &str) -> (r:
    Vec<Waypoint>)
    ensures
        r@.map_values(|w: Waypoint| w@) == emitted_all(
            trajectory.waypoints@,
            tcp_in_faceplate@,
            payload@,
        ),
{
    let mut r: Vec<Waypoint> = Vec::new();
    let mut i: usize = 0;
    while i < trajectory.waypoints.len()
        invariant
            i <= trajectory.waypoints.len(),
            r.len() == i,
            forall|j: int|
                0 <= j < i ==> (#[trigger] r@[j])@ == emitted(
                    trajectory.waypoints@[j],
                    tcp_in_faceplate@,
                    payload@,
                ),
        decreases trajectory.waypoints.len() - i,
    {
        r.push(to_waypoint(&trajectory.waypoints[i], tcp_in_faceplate, payload));
        i = i + 1;
    }
    assert(r@.map_values(|w: Waypoint| w@) =~= emitted_all(
        trajectory.waypoints@,
        tcp_in_faceplate@,
        payload@,
    ));
    r
}

/// The command that runs a planned trajectory.
///
/// The command-level speeds are unused by a trajectory template, which reads them per waypoint.
/// They are those of the first segment rather than zero, so that anything logging the command
/// sees something meaningful.
pub open spec fn trajectory_command(
    start: Seq<Double>,
    planned: Seq<PlannedWaypoint>,
    command_type: Seq<char>,
    tcp_in_faceplate: Seq<char>,
    payload: Seq<char>,
    report_waypoint_progress: bool,
) -> RobotCommandView {
    let zero = Double { bits: ZERO };
    RobotCommandView {
        command_type,
        acceleration: if planned.len() > 0 {
            planned[0].acceleration
        } else {
            zero
        },
        velocity: if planned.len() > 0 {
            planned[0].velocity
        } else {
            zero
        },
        global_acceleration_scaling: zero,
        global_velocity_scaling: zero,
        use_execution_time: false,
        execution_time: zero,
        use_blend_radius: false,
        blend_radius: zero,
        use_joint_positions: true,
        joint_positions: start,
        use_preferred_joint_config: false,
        preferred_joint_config: six_zeros(),
        use_payload: payload.len() > 0,
        payload,
        target_in_base: IDENTITY_POSE@,
        relative_pose: six_zeros(),
        tcp_in_faceplate,
        force_threshold: zero,
        report_waypoint_progress,
        trajectory_id: Seq::empty(),
        waypoints: emitted_all(planned, tcp_in_faceplate, payload),
    }
}

/// Build a complete [`RobotCommand`] for a planned trajectory.
///
/// `command_type` selects the template, so it must name one.
pub fn to_robot_command(
    trajectory: &PlannedTrajectory,
    command_type: &str,
    tcp_in_faceplate: &str,
    payload: &str,
    report_waypoint_progress: bool,
) -> (r: RobotCommand)
    ensures
        r@ == trajectory_command(
            trajectory.start_joint_positions@,
            trajectory.waypoints@,
            command_type@,
            tcp_in_faceplate@,
            payload@,
            report_waypoint_progress,
        ),
{
    let zero = Double { bits: ZERO };
    let mut acceleration = zero;
    let mut velocity = zero;
    if trajectory.waypoints.len() > 0 {
        acceleration = trajectory.waypoints[0].acceleration;
        velocity = trajectory.waypoints[0].velocity;
    }
    let trajectory_id = String::new();
    assert(trajectory_id@ =~= Seq::empty());
    RobotCommand {
        command_type: command_type.to_owned(),
        acceleration,
        velocity,
        global_acceleration_scaling: zero,
        global_velocity_scaling: zero,
        use_execution_time: false,
        execution_time: zero,
        use_blend_radius: false,
        blend_radius: zero,
        use_joint_positions: true,
        joint_positions: six(&trajectory.start_joint_positions),
        use_preferred_joint_config: false,
        preferred_joint_config: zeros(),
        use_payload: !payload.is_empty(),
        payload: payload.to_owned(),
        target_in_base: IDENTITY_POSE.to_owned(),
        relative_pose: zeros(),
        tcp_in_faceplate: tcp_in_faceplate.to_owned(),
        force_threshold: zero,
        report_waypoint_progress,
        trajectory_id,
        waypoints: to_waypoints(trajectory, tcp_in_faceplate, payload),
    }
}

/// A planned trajectory is scaled once: whatever the planner chose, no emitted waypoint asks for
/// scaling. Nor does one ever set an execution time, or have the controller solve a pose.
pub proof fn emitted_waypoints_are_final(
    planned: Seq<PlannedWaypoint>,
    tcp_in_faceplate: Seq<char>,
    payload: Seq<char>,
    i: int,
)
    requires
        0 <= i < planned.len(),
    ensures
        emitted_all(planned, tcp_in_faceplate, payload).len() == planned.len(),
        ({
            let w = emitted_all(planned, tcp_in_faceplate, payload)[i];
            &&& w.velocity == planned[i].velocity
            &&& w.acceleration == planned[i].acceleration
            &&& w.global_velocity_scaling.bits == ZERO
            &&& w.global_acceleration_scaling.bits == ZERO
            &&& !w.use_execution_time
            &&& w.use_joint_positions
            &&& w.joint_positions == planned[i].joint_positions@
        }),
{
}

} // verus!
