//! What holds of planned trajectories from end to end: what was asked for is what is planned, and
//! what is planned is what the arm is told.

use crate::double::{Double, ZERO};
use crate::structs::{RobotCommand, Waypoint, WaypointView};
use crate::text::{decimal, has_prefix};
use crate::trajectory::emit::{emitted_all, trajectory_command};
use crate::trajectory::frames::{
    is_pose_of, literals_have_six_numbers, pose_fault, pose_parts, FrameConfig, PoseFrame,
};
use crate::trajectory::kinematics::{lengths_of, DhParameters};
use crate::trajectory::limits::Limits;
use crate::trajectory::online::{
    asks_for, command_fault, first_apart, first_waypoint_fault, is_request_of, is_source_of,
    is_start_checked,
    payload_of, Apart, Source, START_TOLERANCE_RAD,
};
use crate::trajectory::path::{given_configurations_are_judged_joint_by_joint, ResolveError};
use crate::trajectory::plan::{
    are_model_limits, are_planning_limits, corner_warnings, first_limits,
    given_configurations_are_kept, is_checked_as, is_measured, is_plan, planned_waypoint, refused,
    resolved, segment_fault, segment_warnings, waits_for, Interpolation, Need, PlanError, PlanFault,
    PlanRequest, PlanWaypoint, PlannedTrajectory, PlannedWaypoint, WaypointTarget,
};
use crate::trajectory::timing::{Corner, Segment};
use vstd::prelude::*;

verus! {

/// Whether a waypoint tells the arm what was planned, with that tool and that payload.
pub open spec fn carries_out(
    told: Waypoint,
    planned: PlannedWaypoint,
    tcp_in_faceplate: Seq<char>,
    payload: Seq<char>,
) -> bool {
    // It goes where it was planned to go, in the way that was planned.
    &&& told.use_joint_positions
    &&& told.joint_positions@ == planned.joint_positions@
    &&& told.use_linear_motion <==> planned.use_linear_motion
    // At the speed that was planned, and not at another: neither scaled nor timed.
    &&& told.velocity == planned.velocity
    &&& told.acceleration == planned.acceleration
    &&& told.global_velocity_scaling.bits == ZERO
    &&& told.global_acceleration_scaling.bits == ZERO
    &&& !told.use_execution_time
    // Round the corner that was planned, if there is any.
    &&& told.blend_radius == planned.blend_radius
    &&& told.use_blend_radius <==> (Double { bits: ZERO }).lt(planned.blend_radius)
    // With the tool and the payload it was given.
    &&& told.tcp_in_faceplate@ == tcp_in_faceplate
    &&& told.payload@ == payload
    &&& told.use_payload <==> payload.len() > 0
    // And nothing is left for the controller to choose.
    &&& !told.use_preferred_joint_config
    &&& told.force_threshold.bits == ZERO
}

/// The arm is told what was planned: waypoint by waypoint, as many as there are and in their
/// order. In particular it travels in a straight line to those waypoints, and to no others, that
/// were planned so.
pub proof fn the_arm_is_told_what_was_planned(
    planned: Seq<PlannedWaypoint>,
    tcp_in_faceplate: Seq<char>,
    payload: Seq<char>,
    told: Seq<Waypoint>,
)
    requires
        told.map_values(|w: Waypoint| w@) == emitted_all(planned, tcp_in_faceplate, payload),
    ensures
        told.len() == planned.len(),
        forall|i: int|
            0 <= i < planned.len() ==> carries_out(
                #[trigger] told[i],
                planned[i],
                tcp_in_faceplate,
                payload,
            ),
{
    let views = told.map_values(|w: Waypoint| w@);
    assert(told.len() == views.len());
    assert forall|i: int| 0 <= i < planned.len() implies carries_out(
        #[trigger] told[i],
        planned[i],
        tcp_in_faceplate,
        payload,
    ) by {
        assert(views[i] == told[i]@);
    }
}

/// The command of a stored trajectory runs that trajectory: by the template it names, from the
/// start of the plan, through every planned waypoint.
pub proof fn commands_run_their_trajectory(
    trajectory: PlannedTrajectory,
    command_type: Seq<char>,
    tcp_in_faceplate: Seq<char>,
    payload: Seq<char>,
    report_waypoint_progress: bool,
    command: RobotCommand,
)
    requires
        command@ == trajectory_command(
            trajectory.start_joint_positions@,
            trajectory.waypoints@,
            command_type,
            tcp_in_faceplate,
            payload,
            report_waypoint_progress,
        ),
    ensures
        command.command_type@ == command_type,
        command.joint_positions@ == trajectory.start_joint_positions@,
        command.use_joint_positions,
        command.tcp_in_faceplate@ == tcp_in_faceplate,
        command.payload@ == payload,
        command.use_payload <==> payload.len() > 0,
        command.report_waypoint_progress == report_waypoint_progress,
        command.trajectory_id@.len() == 0,
        !command.use_execution_time,
        !command.use_blend_radius,
        !command.use_preferred_joint_config,
        command.global_velocity_scaling.bits == ZERO,
        command.global_acceleration_scaling.bits == ZERO,
        trajectory.waypoints@.len() > 0 ==> command.velocity == trajectory.waypoints@[0].velocity
            && command.acceleration == trajectory.waypoints@[0].acceleration,
        command.waypoints@.len() == trajectory.waypoints@.len(),
        forall|i: int|
            0 <= i < trajectory.waypoints@.len() ==> carries_out(
                #[trigger] command.waypoints@[i],
                trajectory.waypoints@[i],
                tcp_in_faceplate,
                payload,
            ),
{
    the_arm_is_told_what_was_planned(
        trajectory.waypoints@,
        tcp_in_faceplate,
        payload,
        command.waypoints@,
    );
}

/// A command that plans on the fly keeps its own tool, and its payload where it has one to use.
pub proof fn planned_commands_keep_their_tool(
    command: RobotCommand,
    trajectory: PlannedTrajectory,
    told: Seq<Waypoint>,
    i: int,
)
    requires
        told.map_values(|w: Waypoint| w@) == emitted_all(
            trajectory.waypoints@,
            command@.tcp_in_faceplate,
            payload_of(command@.use_payload, command@.payload),
        ),
        0 <= i < trajectory.waypoints@.len(),
    ensures
        told[i].tcp_in_faceplate@ == command.tcp_in_faceplate@,
        told[i].use_payload <==> command.use_payload && command.payload@.len() > 0,
        told[i].use_payload ==> told[i].payload@ == command.payload@,
{
    reveal_strlit("");
    the_arm_is_told_what_was_planned(
        trajectory.waypoints@,
        command@.tcp_in_faceplate,
        payload_of(command@.use_payload, command@.payload),
        told,
    );
}

/// What a command asks of a waypoint is what the planner is asked: the same place, in the same
/// space, reached in the same way, with the same preference and no larger a blend.
pub proof fn commands_are_planned_as_asked(
    asked: Waypoint,
    read: Seq<Result<Double, String>>,
    planned: PlanWaypoint,
)
    requires
        asks_for(asked@, read, planned),
    ensures
        asked.use_linear_motion <==> planned.interpolation == Interpolation::Linear,
        asked.use_joint_positions <==> planned.target is Joints,
        planned.target matches WaypointTarget::Joints(q) ==> q@ == asked.joint_positions@,
        planned.target matches WaypointTarget::Pose { values, frame } ==> frame
            == PoseFrame::UrdfBaseLink && forall|k: int|
            0 <= k < 6 ==> read[k] == Ok::<Double, String>(#[trigger] values@[k]),
        asked.use_preferred_joint_config <==> planned.preferred_joint_config is Some,
        planned.preferred_joint_config matches Some(q) ==> q@ == asked.preferred_joint_config@,
        asked.use_blend_radius <==> planned.blend_radius is Some,
        planned.blend_radius matches Some(b) ==> b == asked.blend_radius,
{
}

/// A straight move that a command asks for is a straight move that the arm is told, all the way
/// through the planner, and a move that was not asked to be straight is not.
pub proof fn straight_moves_stay_straight(
    asked: RobotCommand,
    read: Seq<Vec<Result<Double, String>>>,
    request: PlanRequest,
    configs: Seq<[Double; 6]>,
    segments: Seq<Option<Segment>>,
    corners: Seq<Option<Corner>>,
    trajectory: PlannedTrajectory,
    told: Seq<Waypoint>,
    i: int,
)
    requires
        0 <= i < asked.waypoints@.len(),
        request.waypoints@.len() == asked.waypoints@.len(),
        forall|j: int|
            0 <= j < request.waypoints@.len() ==> asks_for(
                asked@.waypoints[j],
                read[j]@,
                #[trigger] request.waypoints@[j],
            ),
        trajectory.waypoints@ == Seq::new(
            request.waypoints@.len(),
            |j: int| planned_waypoint(request.waypoints@, configs, segments, corners, j),
        ),
        told.map_values(|w: Waypoint| w@) == emitted_all(
            trajectory.waypoints@,
            asked@.tcp_in_faceplate,
            payload_of(asked@.use_payload, asked@.payload),
        ),
    ensures
        told.len() == asked.waypoints@.len(),
        told[i].use_linear_motion <==> asked.waypoints@[i].use_linear_motion,
        told[i].joint_positions@ == configs[i + 1]@,
{
    assert(asked@.waypoints[i] == asked.waypoints@[i]@);
    assert(asks_for(asked@.waypoints[i], read[i]@, request.waypoints@[i]));
    commands_are_planned_as_asked(asked.waypoints@[i], read[i]@, request.waypoints@[i]);
    the_arm_is_told_what_was_planned(
        trajectory.waypoints@,
        asked@.tcp_in_faceplate,
        payload_of(asked@.use_payload, asked@.payload),
        told,
    );
    assert(trajectory.waypoints@[i] == planned_waypoint(
        request.waypoints@,
        configs,
        segments,
        corners,
        i,
    ));
}

/// Each planned waypoint carries what was measured of its own segment and of its own corner: the
/// speed and the ramp of the segment that leads to it, and the blend of the corner that is there.
/// The last has no corner and ends at rest.
pub proof fn plans_carry_their_measurements(
    request: PlanRequest,
    configs: Seq<[Double; 6]>,
    segments: Seq<Option<Segment>>,
    corners: Seq<Option<Corner>>,
    trajectory: PlannedTrajectory,
    i: int,
)
    requires
        0 <= i < request.waypoints@.len(),
        segments.len() == request.waypoints@.len(),
        corners.len() == request.waypoints@.len() - 1,
        trajectory.waypoints@ == Seq::new(
            request.waypoints@.len(),
            |j: int| planned_waypoint(request.waypoints@, configs, segments, corners, j),
        ),
    ensures
        trajectory.waypoints@[i].joint_positions == configs[i + 1],
        segments[i] matches Some(s) ==> {
            &&& trajectory.waypoints@[i].velocity == s.speed.velocity
            &&& trajectory.waypoints@[i].acceleration == s.speed.acceleration
            &&& trajectory.waypoints@[i].limiting_joint == s.speed.limiting_joint
        },
        i < corners.len() ==> match corners[i] {
            Some(c) => trajectory.waypoints@[i].blend_radius == c.blend,
            None => trajectory.waypoints@[i].blend_radius.bits == ZERO,
        },
        i == corners.len() ==> trajectory.waypoints@[i].blend_radius.bits == ZERO,
        request.waypoints@[i].interpolation is Linear <==>
            trajectory.waypoints@[i].use_linear_motion,
{
}

/// A plan fails on the first segment that could not be timed, and only then: a straight one
/// because it cannot be followed, another because it leads nowhere.
pub proof fn plans_fail_on_the_first_bad_segment(
    waypoints: Seq<PlanWaypoint>,
    segments: Seq<Option<Segment>>,
    from: int,
)
    requires
        0 <= from <= segments.len() <= waypoints.len(),
    ensures
        segment_fault(waypoints, segments, from) is None <==> (forall|i: int|
            from <= i < segments.len() ==> #[trigger] segments[i] is Some),
        segment_fault(waypoints, segments, from) matches Some(f) ==> exists|i: int|
            {
                &&& from <= i < segments.len()
                &&& (#[trigger] segments[i]) is None
                &&& forall|j: int| from <= j < i ==> #[trigger] segments[j] is Some
                &&& waypoints[i].interpolation is Linear ==> f
                    == (PlanFault::LinearSegmentNotFollowable { index: (i + 1) as nat })
                &&& waypoints[i].interpolation is Joint ==> f == (PlanFault::DegenerateSegment {
                    index: (i + 1) as nat,
                })
            },
    decreases segments.len() - from,
{
    if from < segments.len() {
        plans_fail_on_the_first_bad_segment(waypoints, segments, from + 1);
        if segments[from] is None {
            assert(segments[from] is None);
        }
    }
}

/// Poses are solved in their turn, and near what keeps the arm from flipping: the configuration
/// that the waypoint prefers where it prefers one, and otherwise the one before it. The start is
/// solved near zero.
pub proof fn poses_are_solved_near_the_last(
    request: PlanRequest,
    limits: Limits,
    configs: Seq<[Double; 6]>,
    values: [Double; 6],
    frame: PoseFrame,
    seed: [Double; 6],
    index: usize,
)
    requires
        waits_for(request, limits, configs, Need::Solve { values, frame, seed, index }),
    ensures
        index == configs.len() <= request.waypoints@.len(),
        index == 0 ==> request.start == (WaypointTarget::Pose { values, frame }) && forall|i: int|
            0 <= i < 6 ==> (#[trigger] seed@[i]).bits == ZERO,
        index > 0 ==> request.waypoints@[index - 1].target == (WaypointTarget::Pose {
            values,
            frame,
        }),
        index > 0 ==> match request.waypoints@[index - 1].preferred_joint_config {
            Some(q) => seed@ == q@,
            None => seed@ == configs.last()@,
        },
{
}

/// What is given by joint angles is taken as it is given, the start first and then the waypoints
/// in their order, as long as every joint is inside its limits.
pub proof fn given_angles_are_taken_in_order(
    request: PlanRequest,
    limits: Limits,
    configs: Seq<[Double; 6]>,
    k: int,
)
    requires
        configs.len() <= request.waypoints@.len() + 1,
        0 <= k < resolved(request, limits, configs).len(),
    ensures
        k < configs.len() ==> resolved(request, limits, configs)[k] == configs[k],
        k >= configs.len() && k == 0 ==> request.start == WaypointTarget::Joints(
            resolved(request, limits, configs)[k],
        ),
        k >= configs.len() && k > 0 ==> request.waypoints@[k - 1].target == WaypointTarget::Joints(
            resolved(request, limits, configs)[k],
        ),
        k >= configs.len() ==> forall|i: int|
            0 <= i < 6 ==> {
                &&& !(#[trigger] resolved(request, limits, configs)[k]@[i]).lt(
                    limits.position_min@[i],
                )
                &&& !limits.position_max@[i].lt(resolved(request, limits, configs)[k]@[i])
            },
{
    given_configurations_are_kept(request, limits, configs);
    let q = resolved(request, limits, configs)[k];
    given_configurations_are_judged_joint_by_joint(limits, q@, k as usize);
}

/// A plan is refused for a configuration only where one was given that is outside the limits; and
/// it is done only when the start and every waypoint have a configuration.
pub proof fn only_bad_angles_are_refused(
    request: PlanRequest,
    limits: Limits,
    configs: Seq<[Double; 6]>,
    need: Need,
)
    requires
        configs.len() <= request.waypoints@.len() + 1,
        waits_for(request, limits, configs, need),
    ensures
        need is Done <==> configs.len() == request.waypoints@.len() + 1,
        need matches Need::Refused(e) ==> (e matches
            ResolveError::GivenConfigurationOutsideLimits { index, joint, value, min, max } && index
            == configs.len() && joint < 6 && (value.lt(min) || max.lt(value)) && min
            == limits.position_min@[joint as int] && max == limits.position_max@[joint as int] && (
        index == 0 ==> (request.start matches WaypointTarget::Joints(q) && q@[joint as int]
            == value)) && (index > 0 ==> (request.waypoints@[index - 1].target matches
            WaypointTarget::Joints(q) && q@[joint as int] == value))),
{
    if configs.len() <= request.waypoints@.len() {
        assert(configs.len() <= request.waypoints.len());
        let target = if configs.len() == 0 {
            request.start
        } else {
            request.waypoints@[configs.len() - 1].target
        };
        if let WaypointTarget::Joints(q) = target {
            given_configurations_are_judged_joint_by_joint(
                limits,
                q@,
                configs.len() as usize,
            );
        }
    }
}

/// A request is planned exactly where its arm is known and it has between one and four hundred
/// waypoints, and what is wrong with it otherwise is said.
pub proof fn requests_are_refused_for_a_reason(model: Seq<char>, count: nat)
    ensures
        refused(model, count) is None <==> lengths_of(model) is Some && 1 <= count <= 400,
        lengths_of(model) is None ==> refused(model, count) == Some(
            PlanFault::UnknownModel(model),
        ),
        lengths_of(model) is Some && count == 0 ==> refused(model, count) == Some(
            PlanFault::NoWaypoints,
        ),
        lengths_of(model) is Some && count > 400 ==> refused(model, count) == Some(
            PlanFault::TooManyWaypoints { count, max: 400 },
        ),
{
}

/// What is said where a straight move does not move the tool.
pub open spec fn still_warning(i: int) -> Seq<char> {
    "waypoint "@ + decimal((i + 1) as nat)
        + " asks for a straight move but the tool does not travel; only the orientation changes"@
}

/// What is said where a corner that looks blendable is not.
pub open spec fn sharp_warning(i: int) -> Seq<char> {
    "waypoint "@ + decimal((i + 1) as nat) + " cannot be blended, so the arm will stop there"@
}

/// Whether waypoint `i` asks for a straight move on which the tool does not travel.
pub open spec fn is_still(
    waypoints: Seq<PlanWaypoint>,
    segments: Seq<Option<Segment>>,
    i: int,
) -> bool {
    waypoints[i].interpolation is Linear && (segments[i] matches Some(s) && s.still)
}

/// Whether a warning is that of one of the first `n` waypoints whose tool does not travel.
pub open spec fn is_of_a_still_move(
    waypoints: Seq<PlanWaypoint>,
    segments: Seq<Option<Segment>>,
    n: nat,
    warning: Seq<char>,
) -> bool {
    exists|i: int|
        0 <= i < n && #[trigger] is_still(waypoints, segments, i) && warning == still_warning(i)
}

/// The waypoints that are warned of are those that ask for a straight move without the tool
/// travelling, and no others.
pub proof fn still_moves_are_warned_of(
    waypoints: Seq<PlanWaypoint>,
    segments: Seq<Option<Segment>>,
    n: nat,
)
    requires
        n <= waypoints.len() == segments.len(),
        forall|i: int| 0 <= i < n ==> #[trigger] segments[i] is Some,
    ensures
        forall|i: int|
            0 <= i < n && #[trigger] is_still(waypoints, segments, i) ==> segment_warnings(
                waypoints,
                segments,
                n,
            ).contains(still_warning(i)),
        forall|k: int|
            0 <= k < segment_warnings(waypoints, segments, n).len() ==> is_of_a_still_move(
                waypoints,
                segments,
                n,
                #[trigger] segment_warnings(waypoints, segments, n)[k],
            ),
    decreases n,
{
    if n > 0 {
        let m = (n - 1) as nat;
        still_moves_are_warned_of(waypoints, segments, m);
        let before = segment_warnings(waypoints, segments, m);
        let all = segment_warnings(waypoints, segments, n);
        assert(segments[n - 1] is Some);
        assert forall|i: int| 0 <= i < n && #[trigger] is_still(
            waypoints,
            segments,
            i,
        ) implies all.contains(still_warning(i)) by {
            if i < m {
                let k = choose|k: int| 0 <= k < before.len() && before[k] == still_warning(i);
                assert(all[k] == before[k]);
            } else {
                assert(all[all.len() - 1] == still_warning(i));
            }
        }
        assert forall|k: int| 0 <= k < all.len() implies is_of_a_still_move(
            waypoints,
            segments,
            n,
            #[trigger] all[k],
        ) by {
            if k < before.len() {
                assert(before[k] == all[k]);
                let i = choose|i: int|
                    0 <= i < m && #[trigger] is_still(waypoints, segments, i) && before[k]
                        == still_warning(i);
                assert(is_still(waypoints, segments, i));
            } else {
                assert(is_still(waypoints, segments, n - 1));
                assert(all[k] == still_warning(n - 1));
            }
        }
    }
}

/// The corners that are warned of are those that are gentle and are not blended all the same, and
/// no others.
pub proof fn unblended_corners_are_warned_of(corners: Seq<Option<Corner>>, n: nat)
    requires
        n <= corners.len(),
    ensures
        forall|i: int|
            0 <= i < n && (#[trigger] corners[i] matches Some(c) && c.gentle && c.blend.equal(
                Double { bits: ZERO },
            )) ==> corner_warnings(corners, n).contains(sharp_warning(i)),
        forall|k: int|
            0 <= k < corner_warnings(corners, n).len() ==> exists|i: int|
                {
                    &&& 0 <= i < n
                    &&& #[trigger] corners[i] matches Some(c)
                    &&& c.gentle
                    &&& c.blend.equal(Double { bits: ZERO })
                    &&& #[trigger] corner_warnings(corners, n)[k] == sharp_warning(i)
                },
    decreases n,
{
    if n > 0 {
        let m = (n - 1) as nat;
        unblended_corners_are_warned_of(corners, m);
        let before = corner_warnings(corners, m);
        let all = corner_warnings(corners, n);
        assert forall|i: int|
            0 <= i < n && (#[trigger] corners[i] matches Some(c) && c.gentle && c.blend.equal(
                Double { bits: ZERO },
            )) implies all.contains(sharp_warning(i)) by {
            if i < m {
                let k = choose|k: int| 0 <= k < before.len() && before[k] == sharp_warning(i);
                assert(all[k] == before[k]);
            } else {
                assert(all[all.len() - 1] == sharp_warning(i));
            }
        }
        assert forall|k: int| 0 <= k < all.len() implies exists|i: int|
            {
                &&& 0 <= i < n
                &&& #[trigger] corners[i] matches Some(c)
                &&& c.gentle
                &&& c.blend.equal(Double { bits: ZERO })
                &&& #[trigger] all[k] == sharp_warning(i)
            } by {
            if k < before.len() {
                assert(before[k] == all[k]);
                let i = choose|i: int|
                    {
                        &&& 0 <= i < m
                        &&& #[trigger] corners[i] matches Some(c)
                        &&& c.gentle
                        &&& c.blend.equal(Double { bits: ZERO })
                        &&& before[k] == sharp_warning(i)
                    };
                assert(corners[i] is Some);
            } else {
                assert(corners[n - 1] is Some);
                assert(all[k] == sharp_warning(n - 1));
            }
        }
    }
}

/// A command is planned from where the arm is, with its own scaling and for the arm that is there,
/// and with nothing that it did not ask for.
pub proof fn planning_starts_where_the_arm_is(
    request: PlanRequest,
    command: RobotCommand,
    current_joints: Seq<Double>,
    robot_model: Seq<char>,
    read: Seq<Vec<Result<Double, String>>>,
)
    requires
        current_joints.len() >= 6,
        is_request_of(request, command, current_joints, robot_model, read),
    ensures
        request.start matches WaypointTarget::Joints(q) && forall|i: int|
            0 <= i < 6 ==> #[trigger] q@[i] == current_joints[i],
        request.robot_model@ == robot_model,
        request.waypoints@.len() == command.waypoints@.len(),
        request.scaling.velocity == command.global_velocity_scaling,
        request.scaling.acceleration == command.global_acceleration_scaling,
        request.acceleration_max is None,
        forall|i: int|
            0 <= i < command.waypoints@.len() ==> ((
            #[trigger] command.waypoints@[i]).use_linear_motion <==>
                request.waypoints@[i].interpolation is Linear),
{
    assert(command@.waypoints.len() == command.waypoints@.len());
    assert forall|i: int| 0 <= i < command.waypoints@.len() implies ((
    #[trigger] command.waypoints@[i]).use_linear_motion <==> request.waypoints@[i].interpolation
        is Linear) by {
        assert(command@.waypoints[i] == command.waypoints@[i]@);
        assert(asks_for(command@.waypoints[i], read[i]@, request.waypoints@[i]));
    }
}

/// Whether a joint is farther from the start of a trajectory than it may be.
pub open spec fn is_off(apart: Seq<Apart>, j: int) -> bool {
    (Double { bits: START_TOLERANCE_RAD }).lt(apart[j].by)
}

/// Whether `said` names joint `j`, and that is the first from `from` on that is off.
pub open spec fn names_the_first(apart: Seq<Apart>, from: int, said: Seq<char>, j: int) -> bool {
    &&& from <= j < apart.len()
    &&& is_off(apart, j)
    &&& forall|l: int| from <= l < j ==> !#[trigger] is_off(apart, l)
    &&& has_prefix(
        said,
        "the arm is not at this trajectory's start: joint "@ + decimal(j as nat) + " is "@
            + apart[j].spelled@,
    )
}

/// A stored trajectory is started only where every joint is within the tolerance of its start; and
/// where one is not, the first of them is named.
pub proof fn starts_are_checked_joint_by_joint(apart: Seq<Apart>, from: int)
    requires
        0 <= from <= apart.len(),
    ensures
        first_apart(apart, from) is None <==> (forall|j: int|
            from <= j < apart.len() ==> !#[trigger] is_off(apart, j)),
        first_apart(apart, from) matches Some(said) ==> exists|j: int| #[trigger]
            names_the_first(apart, from, said, j),
    decreases apart.len() - from,
{
    if from < apart.len() {
        assert(is_off(apart, from) == apart[from].too_far());
        if apart[from].too_far() {
            let said = first_apart(apart, from)->0;
            let head = "the arm is not at this trajectory's start: joint "@ + decimal(from as nat)
                + " is "@ + apart[from].spelled@;
            assert(said.take(head.len() as int) =~= head);
            assert(names_the_first(apart, from, said, from));
        } else {
            starts_are_checked_joint_by_joint(apart, from + 1);
            if let Some(said) = first_apart(apart, from) {
                let j = choose|j: int| #[trigger] names_the_first(apart, from + 1, said, j);
                assert(names_the_first(apart, from, said, j));
            }
        }
    }
}

/// A command is planned exactly where it has a waypoint, the arm's joints are known, and every
/// waypoint can be read: six joint values where it is given by them, a pose literal of six numbers
/// where it is not, and six values for a preferred configuration.
pub proof fn commands_are_planned_where_they_can_be_read(
    waypoints: Seq<WaypointView>,
    read: Seq<Vec<Result<Double, String>>>,
    joints: nat,
)
    requires
        read.len() == waypoints.len(),
    ensures
        command_fault(waypoints, read, joints) is None <==> {
            &&& waypoints.len() > 0
            &&& joints >= 6
            &&& forall|i: int|
                0 <= i < waypoints.len() ==> {
                    let w = #[trigger] waypoints[i];
                    &&& w.use_joint_positions ==> w.joint_positions.len() == 6
                    &&& !w.use_joint_positions ==> pose_fault(w.target_in_base, read[i]@) is None
                    &&& w.use_preferred_joint_config ==> w.preferred_joint_config.len() == 6
                }
        },
{
    lemma_waypoints_read(waypoints, read, 0);
}

proof fn lemma_waypoints_read(
    waypoints: Seq<WaypointView>,
    read: Seq<Vec<Result<Double, String>>>,
    from: int,
)
    requires
        read.len() == waypoints.len(),
        0 <= from <= waypoints.len(),
    ensures
        first_waypoint_fault(waypoints, read, from) is None <==> forall|i: int|
            from <= i < waypoints.len() ==> {
                let w = #[trigger] waypoints[i];
                &&& w.use_joint_positions ==> w.joint_positions.len() == 6
                &&& !w.use_joint_positions ==> pose_fault(w.target_in_base, read[i]@) is None
                &&& w.use_preferred_joint_config ==> w.preferred_joint_config.len() == 6
            },
    decreases waypoints.len() - from,
{
    if from < waypoints.len() {
        lemma_waypoints_read(waypoints, read, from + 1);
        let w = waypoints[from];
    }
}

/// A pose is taken as it is where it is given in the robot's own base frame, or where both base
/// frames are the same; otherwise it is turned.
pub proof fn poses_are_turned_where_the_frames_differ<P>(
    config: FrameConfig,
    frame: PoseFrame,
    pose: P,
    turned: P,
)
    ensures
        frame == PoseFrame::UrBase ==> config.from_frame(frame, pose, turned) == pose,
        config.base_link_is_ur_base ==> config.from_frame(frame, pose, turned) == pose,
        frame == PoseFrame::UrdfBaseLink && !config.base_link_is_ur_base ==> config.from_frame(
            frame,
            pose,
            turned,
        ) == turned,
{
}

/// A plan is that of its request: for its arm, from the configuration it starts in, through one
/// waypoint for each that was asked for, in the way it was asked for, at the speed of its segment
/// and with the blend of its corner. It keeps the limits it was planned in and its time.
pub proof fn plans_are_those_of_their_request(
    request: PlanRequest,
    limits: Limits,
    configs: Seq<[Double; 6]>,
    segments: Seq<Option<Segment>>,
    corners: Seq<Option<Corner>>,
    duration: Double,
    t: PlannedTrajectory,
    i: int,
)
    requires
        request.waypoints@.len() > 0,
        configs.len() == request.waypoints@.len() + 1,
        is_measured(request.waypoints@.len(), segments, corners),
        is_plan(request, limits, configs, segments, corners, duration, Ok(t)),
    ensures
        t.robot_model@ == request.robot_model@,
        t.start_joint_positions == configs[0],
        t.limits == limits,
        t.duration_estimate == duration,
        t.waypoints@.len() == request.waypoints@.len(),
        segments.len() == request.waypoints@.len(),
        0 <= i < request.waypoints@.len() ==> {
            &&& t.waypoints@[i].joint_positions == configs[i + 1]
            &&& t.waypoints@[i].use_linear_motion <==> request.waypoints@[i].interpolation is Linear
            &&& segments[i] matches Some(s)
            &&& t.waypoints@[i].velocity == s.speed.velocity
            &&& t.waypoints@[i].acceleration == s.speed.acceleration
            &&& t.waypoints@[i].limiting_joint == s.speed.limiting_joint
            &&& i < corners.len() ==> match corners[i] {
                Some(c) => t.waypoints@[i].blend_radius == c.blend,
                None => t.waypoints@[i].blend_radius.bits == ZERO,
            }
            &&& i == corners.len() ==> t.waypoints@[i].blend_radius.bits == ZERO
        },
{
    plans_fail_on_the_first_bad_segment(request.waypoints@, segments, 0);
    if 0 <= i < request.waypoints@.len() {
        assert(segments[i] is Some);
        plans_carry_their_measurements(request, configs, segments, corners, t, i);
    }
}

/// There is no plan exactly where a segment could not be timed, and the first of them is named.
pub proof fn plans_fail_for_a_segment(
    request: PlanRequest,
    limits: Limits,
    configs: Seq<[Double; 6]>,
    segments: Seq<Option<Segment>>,
    corners: Seq<Option<Corner>>,
    duration: Double,
    r: Result<PlannedTrajectory, PlanError>,
)
    requires
        request.waypoints@.len() > 0,
        is_measured(request.waypoints@.len(), segments, corners),
        is_plan(request, limits, configs, segments, corners, duration, r),
    ensures
        r is Ok <==> forall|i: int| 0 <= i < segments.len() ==> #[trigger] segments[i] is Some,
        r matches Err(e) ==> exists|i: int|
            {
                &&& 0 <= i < segments.len()
                &&& (#[trigger] segments[i]) is None
                &&& forall|j: int| 0 <= j < i ==> #[trigger] segments[j] is Some
                &&& request.waypoints@[i].interpolation is Linear ==> (e matches
                    PlanError::LinearSegmentNotFollowable { index } && index == i + 1)
                &&& request.waypoints@[i].interpolation is Joint ==> (e matches
                    PlanError::DegenerateSegment { index } && index == i + 1)
            },
{
    plans_fail_on_the_first_bad_segment(request.waypoints@, segments, 0);
}

/// A request is planned with the limits of its own model, the first that could be read, and with
/// the accelerations it asks for where it asks for any. No other limit is touched.
pub proof fn requests_are_planned_in_their_limits(
    request: PlanRequest,
    tried: Seq<Result<Limits, String>>,
    k: int,
    given: Limits,
    model: Seq<char>,
    r: Result<Limits, PlanError>,
    limits: Limits,
)
    requires
        are_model_limits(model, tried, r),
        are_planning_limits(request, given, limits),
    ensures
        (forall|i: int| 0 <= i < tried.len() ==> #[trigger] tried[i] is Err) <==> r is Err,
        r matches Err(e) ==> (e matches PlanError::UnknownModel(m) && m@ == model),
        0 <= k < tried.len() && (forall|i: int| 0 <= i < k ==> #[trigger] tried[i] is Err) && (
        tried[k] matches Ok(first) && r matches Ok(chosen)) ==> r->Ok_0 == tried[k]->Ok_0,
        limits.position_min == given.position_min,
        limits.position_max == given.position_max,
        limits.velocity_max == given.velocity_max,
        request.acceleration_max is None ==> limits.acceleration_max == given.acceleration_max,
        request.acceleration_max matches Some(a) ==> limits.acceleration_max == a,
{
    lemma_first_limits(tried, k);
}

proof fn lemma_first_limits(tried: Seq<Result<Limits, String>>, k: int)
    ensures
        (forall|i: int| 0 <= i < tried.len() ==> #[trigger] tried[i] is Err) <==> first_limits(
            tried,
        ) is None,
        0 <= k < tried.len() && (forall|i: int| 0 <= i < k ==> #[trigger] tried[i] is Err)
            && tried[k] is Ok ==> first_limits(tried) == Some(tried[k]->Ok_0),
    decreases tried.len(),
{
    if tried.len() > 0 {
        let rest = tried.drop_first();
        lemma_first_limits(rest, k - 1);
        if tried[0] is Err {
            if first_limits(tried) is None {
                assert forall|i: int| 0 <= i < tried.len() implies #[trigger] tried[i] is Err by {
                    if i > 0 {
                        assert(rest[i - 1] is Err);
                    }
                }
            } else if forall|i: int| 0 <= i < tried.len() ==> #[trigger] tried[i] is Err {
                assert forall|i: int| 0 <= i < rest.len() implies #[trigger] rest[i] is Err by {
                    assert(tried[i + 1] is Err);
                }
            }
            if 0 < k < tried.len() && (forall|i: int| 0 <= i < k ==> #[trigger] tried[i] is Err) {
                assert forall|i: int| 0 <= i < k - 1 implies #[trigger] rest[i] is Err by {
                    assert(tried[i + 1] is Err);
                }
                assert(rest[k - 1] == tried[k]);
            }
        } else if k > 0 {
            assert(tried[0] is Ok);
        }
    }
}

/// A request is fit to be planned exactly where its arm is known and it has between one and four
/// hundred waypoints; and the arm it is planned for is its own.
pub proof fn requests_are_checked(request: PlanRequest, r: Result<DhParameters, PlanError>)
    requires
        is_checked_as(request, r),
    ensures
        r is Ok <==> lengths_of(request.robot_model@) is Some && 1 <= request.waypoints@.len()
            <= 400,
        r matches Ok(dh) ==> lengths_of(request.robot_model@) == Some(dh),
        r matches Err(e) ==> {
            &&& lengths_of(request.robot_model@) is None ==> (e matches PlanError::UnknownModel(m)
                && m@ == request.robot_model@)
            &&& lengths_of(request.robot_model@) is Some && request.waypoints@.len() == 0 ==> e
                is NoWaypoints
            &&& lengths_of(request.robot_model@) is Some && request.waypoints@.len() > 400 ==> (
            e matches PlanError::TooManyWaypoints { count, max } && count
                == request.waypoints@.len() && max == 400)
        },
{
    requests_are_refused_for_a_reason(request.robot_model@, request.waypoints@.len());
}

/// A command that names a stored trajectory runs that one; a command that names none is planned
/// from its own waypoints.
pub proof fn named_trajectories_are_run(command: RobotCommand, source: Source)
    requires
        is_source_of(command, source),
    ensures
        command.trajectory_id@.len() == 0 <==> source is Request,
        source matches Source::Stored(name) ==> name@ == command.trajectory_id@,
{
    reveal_strlit("");
    assert(command.trajectory_id@.len() == 0 ==> command.trajectory_id@ =~= ""@);
}

/// A pose is read number by number, in the order in which they stand: it is one exactly where the
/// literal is a literal of six numbers.
pub proof fn poses_are_read_in_order(
    s: Seq<char>,
    read: Seq<Result<Double, String>>,
    r: Result<[Double; 6], String>,
    i: int,
)
    requires
        pose_parts(s) matches Some(parts) ==> parts.len() == read.len(),
        is_pose_of(s, read, r),
    ensures
        r is Ok <==> pose_parts(s) is Some && read.len() == 6 && forall|k: int|
            0 <= k < 6 ==> #[trigger] read[k] is Ok,
        r matches Ok(pose) ==> (0 <= i < 6 ==> read[i] == Ok::<Double, String>(pose@[i])),
{
    if pose_parts(s) is Some {
        literals_have_six_numbers(s, read);
    }
    if let Ok(pose) = r {
        if 0 <= i < 6 {
            assert(read[i] == Ok::<Double, String>(pose@[i]));
        }
    }
}

/// A stored trajectory is started exactly where the joints are known and each of them is within the
/// tolerance of its start.
pub proof fn stored_trajectories_start_where_the_arm_is(
    current_joints: Seq<Double>,
    apart: Seq<Apart>,
    r: Result<(), String>,
)
    requires
        current_joints.len() >= 6 ==> apart.len() == 6,
        is_start_checked(current_joints, apart, r),
    ensures
        r is Ok <==> current_joints.len() >= 6 && forall|j: int|
            0 <= j < apart.len() ==> !#[trigger] is_off(apart, j),
{
    starts_are_checked_joint_by_joint(apart, 0);
}

} // verus!
