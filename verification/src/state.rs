//! The keys a robot and a gripper have in Redis, with the values they start from.

use crate::sp_value::{key, key_of, keys_are_distinct, SpValue, SpView, State};
use crate::text::has_prefix;
use vstd::prelude::*;

verus! {

/// The keys of the motion and dashboard handshakes, and the failure counters.
pub open spec fn request_seeds(
    state: Map<Seq<char>, SpView>,
    owner: Seq<char>,
) -> Map<Seq<char>, SpView> {
    state
        .insert(key_of(owner, "request_trigger"@), SpView::Bool(Some(false)))
        .insert(key_of(owner, "request_state"@), SpView::Text(Some("initial"@)))
        .insert(key_of(owner, "request_cancel"@), SpView::Bool(Some(false)))
        .insert(key_of(owner, "request_result"@), SpView::Text(None))
        .insert(key_of(owner, "request_feedback"@), SpView::Text(None))
        .insert(key_of(owner, "dashboard_request_trigger"@), SpView::Bool(Some(false)))
        .insert(key_of(owner, "dashboard_request_state"@), SpView::Text(Some("initial"@)))
        .insert(key_of(owner, "dashboard_request_cancel"@), SpView::Bool(Some(false)))
        .insert(key_of(owner, "dashboard_command"@), SpView::Text(None))
        .insert(key_of(owner, "dashboard_command_arg"@), SpView::Text(None))
        .insert(key_of(owner, "dashboard_request_result"@), SpView::Text(None))
        .insert(key_of(owner, "total_fail_counter"@), SpView::Int64(Some(0i64)))
        .insert(key_of(owner, "subsequent_fail_counter"@), SpView::Int64(Some(0i64)))
}

/// The parameters of a motion request. All are unknown but for the waypoint reports, which are
/// on unless a caller turns them off.
pub open spec fn parameter_seeds(
    state: Map<Seq<char>, SpView>,
    owner: Seq<char>,
) -> Map<Seq<char>, SpView> {
    state
        .insert(key_of(owner, "command_type"@), SpView::Text(None))
        .insert(key_of(owner, "acceleration"@), SpView::Float64(None))
        .insert(key_of(owner, "velocity"@), SpView::Float64(None))
        .insert(key_of(owner, "global_acceleration_scaling"@), SpView::Float64(None))
        .insert(key_of(owner, "global_velocity_scaling"@), SpView::Float64(None))
        .insert(key_of(owner, "use_execution_time"@), SpView::Bool(None))
        .insert(key_of(owner, "execution_time"@), SpView::Float64(None))
        .insert(key_of(owner, "use_blend_radius"@), SpView::Bool(None))
        .insert(key_of(owner, "blend_radius"@), SpView::Float64(None))
        .insert(key_of(owner, "use_joint_positions"@), SpView::Bool(None))
        .insert(key_of(owner, "joint_positions"@), SpView::Array(None))
        .insert(key_of(owner, "joint_states"@), SpView::Array(None))
        .insert(key_of(owner, "use_preferred_joint_config"@), SpView::Bool(None))
        .insert(key_of(owner, "preferred_joint_config"@), SpView::Array(None))
        .insert(key_of(owner, "use_payload"@), SpView::Bool(None))
        .insert(key_of(owner, "payload"@), SpView::Text(None))
        .insert(key_of(owner, "baseframe_id"@), SpView::Text(None))
        .insert(key_of(owner, "faceplate_id"@), SpView::Text(None))
        .insert(key_of(owner, "goal_feature_id"@), SpView::Text(None))
        .insert(key_of(owner, "tcp_id"@), SpView::Text(None))
        .insert(key_of(owner, "root_frame_id"@), SpView::Text(None))
        .insert(key_of(owner, "cancel_current_goal"@), SpView::Bool(None))
        .insert(key_of(owner, "estimated_position"@), SpView::Text(None))
        .insert(key_of(owner, "force_threshold"@), SpView::Float64(None))
        .insert(key_of(owner, "force_feedback"@), SpView::Float64(None))
        .insert(key_of(owner, "use_relative_pose"@), SpView::Bool(None))
        .insert(key_of(owner, "relative_pose"@), SpView::Array(None))
        .insert(key_of(owner, "gripper_force"@), SpView::Float64(None))
        .insert(key_of(owner, "gripper_velocity"@), SpView::Float64(None))
        .insert(key_of(owner, "gripper_ref_pos_percentage"@), SpView::Int64(None))
        .insert(key_of(owner, "waypoints"@), SpView::Array(None))
        .insert(key_of(owner, "report_waypoint_progress"@), SpView::Bool(Some(true)))
}

/// The measured state, which the state publisher writes.
pub open spec fn measured_seeds(
    state: Map<Seq<char>, SpView>,
    owner: Seq<char>,
) -> Map<Seq<char>, SpView> {
    state
        .insert(key_of(owner, "safety_mode"@), SpView::Text(None))
        .insert(key_of(owner, "robot_mode"@), SpView::Text(None))
        .insert(key_of(owner, "program_state"@), SpView::Text(None))
        .insert(key_of(owner, "program_running"@), SpView::Bool(Some(false)))
        .insert(key_of(owner, "tcp_pose"@), SpView::Array(None))
        .insert(key_of(owner, "tcp_force"@), SpView::Array(None))
        .insert(key_of(owner, "speed_scaling"@), SpView::Float64(None))
        .insert(key_of(owner, "digital_inputs"@), SpView::Int64(None))
        .insert(key_of(owner, "digital_outputs"@), SpView::Int64(None))
        .insert(key_of(owner, "robot_connected"@), SpView::Bool(Some(false)))
        .insert(key_of(owner, "dashboard_connected"@), SpView::Bool(Some(false)))
        .insert(key_of(owner, "remote_control"@), SpView::Bool(Some(false)))
        .insert(key_of(owner, "operational_mode"@), SpView::Text(None))
        .insert(key_of(owner, "motion_paused"@), SpView::Bool(Some(false)))
        .insert(key_of(owner, "robot_model"@), SpView::Text(None))
        .insert(key_of(owner, "serial_number"@), SpView::Text(None))
        .insert(key_of(owner, "polyscope_version"@), SpView::Text(None))
}

/// Every key of a robot, with the value it starts from.
pub open spec fn robot_seeds(owner: Seq<char>) -> Map<Seq<char>, SpView> {
    measured_seeds(parameter_seeds(request_seeds(Map::empty(), owner), owner), owner)
}

/// The keys of a gripper.
pub open spec fn gripper_seeds(
    state: Map<Seq<char>, SpView>,
    owner: Seq<char>,
) -> Map<Seq<char>, SpView> {
    state
        .insert(key_of(owner, "request_trigger"@), SpView::Bool(Some(false)))
        .insert(key_of(owner, "request_state"@), SpView::Text(Some("initial"@)))
        .insert(key_of(owner, "command_type"@), SpView::Text(None))
        .insert(key_of(owner, "velocity"@), SpView::Float64(None))
        .insert(key_of(owner, "force"@), SpView::Float64(None))
        .insert(key_of(owner, "ref_pos_percentage"@), SpView::Int64(None))
}

fn seed_requests(state: &mut State, owner: &str)
    ensures
        final(state)@ == request_seeds(old(state)@, owner@),
{
    state.set(key(owner, "request_trigger").as_str(), SpValue::Bool(Some(false)));
    state.set(key(owner, "request_state").as_str(), SpValue::text("initial"));
    state.set(key(owner, "request_cancel").as_str(), SpValue::Bool(Some(false)));
    state.set(key(owner, "request_result").as_str(), SpValue::Text(None));
    state.set(key(owner, "request_feedback").as_str(), SpValue::Text(None));
    state.set(key(owner, "dashboard_request_trigger").as_str(), SpValue::Bool(Some(false)));
    state.set(key(owner, "dashboard_request_state").as_str(), SpValue::text("initial"));
    state.set(key(owner, "dashboard_request_cancel").as_str(), SpValue::Bool(Some(false)));
    state.set(key(owner, "dashboard_command").as_str(), SpValue::Text(None));
    state.set(key(owner, "dashboard_command_arg").as_str(), SpValue::Text(None));
    state.set(key(owner, "dashboard_request_result").as_str(), SpValue::Text(None));
    state.set(key(owner, "total_fail_counter").as_str(), SpValue::Int64(Some(0)));
    state.set(key(owner, "subsequent_fail_counter").as_str(), SpValue::Int64(Some(0)));
}

fn seed_parameters(state: &mut State, owner: &str)
    ensures
        final(state)@ == parameter_seeds(old(state)@, owner@),
{
    state.set(key(owner, "command_type").as_str(), SpValue::Text(None));
    state.set(key(owner, "acceleration").as_str(), SpValue::Float64(None));
    state.set(key(owner, "velocity").as_str(), SpValue::Float64(None));
    state.set(key(owner, "global_acceleration_scaling").as_str(), SpValue::Float64(None));
    state.set(key(owner, "global_velocity_scaling").as_str(), SpValue::Float64(None));
    state.set(key(owner, "use_execution_time").as_str(), SpValue::Bool(None));
    state.set(key(owner, "execution_time").as_str(), SpValue::Float64(None));
    state.set(key(owner, "use_blend_radius").as_str(), SpValue::Bool(None));
    state.set(key(owner, "blend_radius").as_str(), SpValue::Float64(None));
    state.set(key(owner, "use_joint_positions").as_str(), SpValue::Bool(None));
    state.set(key(owner, "joint_positions").as_str(), SpValue::Array(None));
    state.set(key(owner, "joint_states").as_str(), SpValue::Array(None));
    state.set(key(owner, "use_preferred_joint_config").as_str(), SpValue::Bool(None));
    state.set(key(owner, "preferred_joint_config").as_str(), SpValue::Array(None));
    state.set(key(owner, "use_payload").as_str(), SpValue::Bool(None));
    state.set(key(owner, "payload").as_str(), SpValue::Text(None));
    state.set(key(owner, "baseframe_id").as_str(), SpValue::Text(None));
    state.set(key(owner, "faceplate_id").as_str(), SpValue::Text(None));
    state.set(key(owner, "goal_feature_id").as_str(), SpValue::Text(None));
    state.set(key(owner, "tcp_id").as_str(), SpValue::Text(None));
    state.set(key(owner, "root_frame_id").as_str(), SpValue::Text(None));
    state.set(key(owner, "cancel_current_goal").as_str(), SpValue::Bool(None));
    state.set(key(owner, "estimated_position").as_str(), SpValue::Text(None));
    state.set(key(owner, "force_threshold").as_str(), SpValue::Float64(None));
    state.set(key(owner, "force_feedback").as_str(), SpValue::Float64(None));
    state.set(key(owner, "use_relative_pose").as_str(), SpValue::Bool(None));
    state.set(key(owner, "relative_pose").as_str(), SpValue::Array(None));
    state.set(key(owner, "gripper_force").as_str(), SpValue::Float64(None));
    state.set(key(owner, "gripper_velocity").as_str(), SpValue::Float64(None));
    state.set(key(owner, "gripper_ref_pos_percentage").as_str(), SpValue::Int64(None));
    state.set(key(owner, "waypoints").as_str(), SpValue::Array(None));
    state.set(key(owner, "report_waypoint_progress").as_str(), SpValue::Bool(Some(true)));
}

fn seed_measured(state: &mut State, owner: &str)
    ensures
        final(state)@ == measured_seeds(old(state)@, owner@),
{
    state.set(key(owner, "safety_mode").as_str(), SpValue::Text(None));
    state.set(key(owner, "robot_mode").as_str(), SpValue::Text(None));
    state.set(key(owner, "program_state").as_str(), SpValue::Text(None));
    state.set(key(owner, "program_running").as_str(), SpValue::Bool(Some(false)));
    state.set(key(owner, "tcp_pose").as_str(), SpValue::Array(None));
    state.set(key(owner, "tcp_force").as_str(), SpValue::Array(None));
    state.set(key(owner, "speed_scaling").as_str(), SpValue::Float64(None));
    state.set(key(owner, "digital_inputs").as_str(), SpValue::Int64(None));
    state.set(key(owner, "digital_outputs").as_str(), SpValue::Int64(None));
    state.set(key(owner, "robot_connected").as_str(), SpValue::Bool(Some(false)));
    state.set(key(owner, "dashboard_connected").as_str(), SpValue::Bool(Some(false)));
    state.set(key(owner, "remote_control").as_str(), SpValue::Bool(Some(false)));
    state.set(key(owner, "operational_mode").as_str(), SpValue::Text(None));
    state.set(key(owner, "motion_paused").as_str(), SpValue::Bool(Some(false)));
    state.set(key(owner, "robot_model").as_str(), SpValue::Text(None));
    state.set(key(owner, "serial_number").as_str(), SpValue::Text(None));
    state.set(key(owner, "polyscope_version").as_str(), SpValue::Text(None));
}

/// The keys of a robot, as they stand before the first request.
pub fn generate_robot_interface_state(robot_name: &str) -> (r: State)
    ensures
        r@ == robot_seeds(robot_name@),
{
    let mut state = State::new();
    seed_requests(&mut state, robot_name);
    seed_parameters(&mut state, robot_name);
    seed_measured(&mut state, robot_name);
    state
}

/// The keys of a gripper, as they stand before the first request.
pub fn generate_gripper_interface_state(gripper_id: &str) -> (r: State)
    ensures
        r@ == gripper_seeds(Map::empty(), gripper_id@),
{
    let mut state = State::new();
    state.set(key(gripper_id, "request_trigger").as_str(), SpValue::Bool(Some(false)));
    state.set(key(gripper_id, "request_state").as_str(), SpValue::text("initial"));
    state.set(key(gripper_id, "command_type").as_str(), SpValue::Text(None));
    state.set(key(gripper_id, "velocity").as_str(), SpValue::Float64(None));
    state.set(key(gripper_id, "force").as_str(), SpValue::Float64(None));
    state.set(key(gripper_id, "ref_pos_percentage").as_str(), SpValue::Int64(None));
    state
}

/// Every key of a robot, and of a gripper, begins with its name.
pub proof fn keys_carry_their_owners_name(owner: Seq<char>, k: Seq<char>)
    ensures
        robot_seeds(owner).dom().contains(k) ==> has_prefix(k, owner + "_"@),
        gripper_seeds(Map::empty(), owner).dom().contains(k) ==> has_prefix(k, owner + "_"@),
{
    assert forall|suffix: Seq<char>| has_prefix(#[trigger] key_of(owner, suffix), owner + "_"@) by {
        let p = owner + "_"@;
        assert(key_of(owner, suffix).take(p.len() as int) =~= p);
    }
}

/// A robot starts at rest: nothing is triggered or cancelled, no failure is counted, nothing is
/// connected or held, and its waypoints would be reported.
pub proof fn robots_start_at_rest(owner: Seq<char>)
    ensures
        robot_seeds(owner)[owner + "_"@ + "request_trigger"@] == SpView::Bool(Some(false)),
        robot_seeds(owner)[owner + "_"@ + "request_cancel"@] == SpView::Bool(Some(false)),
        robot_seeds(owner)[owner + "_"@ + "request_state"@] == SpView::Text(Some("initial"@)),
        robot_seeds(owner)[owner + "_"@ + "dashboard_request_trigger"@] == SpView::Bool(Some(false)),
        robot_seeds(owner)[owner + "_"@ + "dashboard_request_state"@] == SpView::Text(Some("initial"@)),
        robot_seeds(owner)[owner + "_"@ + "total_fail_counter"@] == SpView::Int64(Some(0i64)),
        robot_seeds(owner)[owner + "_"@ + "subsequent_fail_counter"@] == SpView::Int64(Some(0i64)),
        robot_seeds(owner)[owner + "_"@ + "report_waypoint_progress"@] == SpView::Bool(Some(true)),
        robot_seeds(owner)[owner + "_"@ + "robot_connected"@] == SpView::Bool(Some(false)),
        robot_seeds(owner)[owner + "_"@ + "dashboard_connected"@] == SpView::Bool(Some(false)),
        robot_seeds(owner)[owner + "_"@ + "remote_control"@] == SpView::Bool(Some(false)),
        robot_seeds(owner)[owner + "_"@ + "motion_paused"@] == SpView::Bool(Some(false)),
        robot_seeds(owner)[owner + "_"@ + "waypoints"@] == SpView::Array(None),
        robot_seeds(owner)[owner + "_"@ + "joint_positions"@] == SpView::Array(None),
{
    reveal_strlit("acceleration");
    reveal_strlit("baseframe_id");
    reveal_strlit("blend_radius");
    reveal_strlit("cancel_current_goal");
    reveal_strlit("command_type");
    reveal_strlit("dashboard_command");
    reveal_strlit("dashboard_command_arg");
    reveal_strlit("dashboard_connected");
    reveal_strlit("dashboard_request_cancel");
    reveal_strlit("dashboard_request_result");
    reveal_strlit("dashboard_request_state");
    reveal_strlit("dashboard_request_trigger");
    reveal_strlit("digital_inputs");
    reveal_strlit("digital_outputs");
    reveal_strlit("estimated_position");
    reveal_strlit("execution_time");
    reveal_strlit("faceplate_id");
    reveal_strlit("force_feedback");
    reveal_strlit("force_threshold");
    reveal_strlit("global_acceleration_scaling");
    reveal_strlit("global_velocity_scaling");
    reveal_strlit("goal_feature_id");
    reveal_strlit("gripper_force");
    reveal_strlit("gripper_ref_pos_percentage");
    reveal_strlit("gripper_velocity");
    reveal_strlit("joint_positions");
    reveal_strlit("joint_states");
    reveal_strlit("motion_paused");
    reveal_strlit("operational_mode");
    reveal_strlit("payload");
    reveal_strlit("polyscope_version");
    reveal_strlit("preferred_joint_config");
    reveal_strlit("program_running");
    reveal_strlit("program_state");
    reveal_strlit("relative_pose");
    reveal_strlit("remote_control");
    reveal_strlit("report_waypoint_progress");
    reveal_strlit("request_cancel");
    reveal_strlit("request_feedback");
    reveal_strlit("request_result");
    reveal_strlit("request_state");
    reveal_strlit("request_trigger");
    reveal_strlit("robot_connected");
    reveal_strlit("robot_mode");
    reveal_strlit("robot_model");
    reveal_strlit("root_frame_id");
    reveal_strlit("safety_mode");
    reveal_strlit("serial_number");
    reveal_strlit("speed_scaling");
    reveal_strlit("subsequent_fail_counter");
    reveal_strlit("tcp_force");
    reveal_strlit("tcp_id");
    reveal_strlit("tcp_pose");
    reveal_strlit("total_fail_counter");
    reveal_strlit("use_blend_radius");
    reveal_strlit("use_execution_time");
    reveal_strlit("use_joint_positions");
    reveal_strlit("use_payload");
    reveal_strlit("use_preferred_joint_config");
    reveal_strlit("use_relative_pose");
    reveal_strlit("velocity");
    reveal_strlit("waypoints");
    assert("acceleration"@.len() == 12);
    assert("baseframe_id"@.len() == 12);
    assert("blend_radius"@.len() == 12);
    assert("cancel_current_goal"@.len() == 19);
    assert("command_type"@.len() == 12);
    assert("dashboard_command"@.len() == 17);
    assert("dashboard_command_arg"@.len() == 21);
    assert("dashboard_connected"@.len() == 19);
    assert("dashboard_request_cancel"@.len() == 24);
    assert("dashboard_request_result"@.len() == 24);
    assert("dashboard_request_state"@.len() == 23);
    assert("dashboard_request_trigger"@.len() == 25);
    assert("digital_inputs"@.len() == 14);
    assert("digital_outputs"@.len() == 15);
    assert("estimated_position"@.len() == 18);
    assert("execution_time"@.len() == 14);
    assert("faceplate_id"@.len() == 12);
    assert("force_feedback"@.len() == 14);
    assert("force_threshold"@.len() == 15);
    assert("global_acceleration_scaling"@.len() == 27);
    assert("global_velocity_scaling"@.len() == 23);
    assert("goal_feature_id"@.len() == 15);
    assert("gripper_force"@.len() == 13);
    assert("gripper_ref_pos_percentage"@.len() == 26);
    assert("gripper_velocity"@.len() == 16);
    assert("joint_positions"@.len() == 15);
    assert("joint_states"@.len() == 12);
    assert("motion_paused"@.len() == 13);
    assert("operational_mode"@.len() == 16);
    assert("payload"@.len() == 7);
    assert("polyscope_version"@.len() == 17);
    assert("preferred_joint_config"@.len() == 22);
    assert("program_running"@.len() == 15);
    assert("program_state"@.len() == 13);
    assert("relative_pose"@.len() == 13);
    assert("remote_control"@.len() == 14);
    assert("report_waypoint_progress"@.len() == 24);
    assert("request_cancel"@.len() == 14);
    assert("request_feedback"@.len() == 16);
    assert("request_result"@.len() == 14);
    assert("request_state"@.len() == 13);
    assert("request_trigger"@.len() == 15);
    assert("robot_connected"@.len() == 15);
    assert("robot_mode"@.len() == 10);
    assert("robot_model"@.len() == 11);
    assert("root_frame_id"@.len() == 13);
    assert("safety_mode"@.len() == 11);
    assert("serial_number"@.len() == 13);
    assert("speed_scaling"@.len() == 13);
    assert("subsequent_fail_counter"@.len() == 23);
    assert("tcp_force"@.len() == 9);
    assert("tcp_id"@.len() == 6);
    assert("tcp_pose"@.len() == 8);
    assert("total_fail_counter"@.len() == 18);
    assert("use_blend_radius"@.len() == 16);
    assert("use_execution_time"@.len() == 18);
    assert("use_joint_positions"@.len() == 19);
    assert("use_payload"@.len() == 11);
    assert("use_preferred_joint_config"@.len() == 26);
    assert("use_relative_pose"@.len() == 17);
    assert("velocity"@.len() == 8);
    assert("waypoints"@.len() == 9);
    assert("acceleration"@[0] != "baseframe_id"@[0]);
    assert("acceleration"@[0] != "blend_radius"@[0]);
    assert("acceleration"@[0] != "command_type"@[0]);
    assert("acceleration"@[0] != "faceplate_id"@[0]);
    assert("acceleration"@[0] != "joint_states"@[0]);
    assert("baseframe_id"@[1] != "blend_radius"@[1]);
    assert("baseframe_id"@[0] != "command_type"@[0]);
    assert("baseframe_id"@[0] != "faceplate_id"@[0]);
    assert("baseframe_id"@[0] != "joint_states"@[0]);
    assert("blend_radius"@[0] != "command_type"@[0]);
    assert("blend_radius"@[0] != "faceplate_id"@[0]);
    assert("blend_radius"@[0] != "joint_states"@[0]);
    assert("cancel_current_goal"@[0] != "dashboard_connected"@[0]);
    assert("cancel_current_goal"@[0] != "use_joint_positions"@[0]);
    assert("command_type"@[0] != "faceplate_id"@[0]);
    assert("command_type"@[0] != "joint_states"@[0]);
    assert("dashboard_command"@[0] != "polyscope_version"@[0]);
    assert("dashboard_command"@[0] != "use_relative_pose"@[0]);
    assert("dashboard_connected"@[0] != "use_joint_positions"@[0]);
    assert("dashboard_request_cancel"@[18] != "dashboard_request_result"@[18]);
    assert("dashboard_request_cancel"@[0] != "report_waypoint_progress"@[0]);
    assert("dashboard_request_result"@[0] != "report_waypoint_progress"@[0]);
    assert("dashboard_request_state"@[0] != "global_velocity_scaling"@[0]);
    assert("dashboard_request_state"@[0] != "subsequent_fail_counter"@[0]);
    assert("digital_inputs"@[0] != "execution_time"@[0]);
    assert("digital_inputs"@[0] != "force_feedback"@[0]);
    assert("digital_inputs"@[0] != "remote_control"@[0]);
    assert("digital_inputs"@[0] != "request_cancel"@[0]);
    assert("digital_inputs"@[0] != "request_result"@[0]);
    assert("digital_outputs"@[0] != "force_threshold"@[0]);
    assert("digital_outputs"@[0] != "goal_feature_id"@[0]);
    assert("digital_outputs"@[0] != "joint_positions"@[0]);
    assert("digital_outputs"@[0] != "program_running"@[0]);
    assert("digital_outputs"@[0] != "request_trigger"@[0]);
    assert("digital_outputs"@[0] != "robot_connected"@[0]);
    assert("estimated_position"@[0] != "total_fail_counter"@[0]);
    assert("estimated_position"@[0] != "use_execution_time"@[0]);
    assert("execution_time"@[0] != "force_feedback"@[0]);
    assert("execution_time"@[0] != "remote_control"@[0]);
    assert("execution_time"@[0] != "request_cancel"@[0]);
    assert("execution_time"@[0] != "request_result"@[0]);
    assert("faceplate_id"@[0] != "joint_states"@[0]);
    assert("force_feedback"@[0] != "remote_control"@[0]);
    assert("force_feedback"@[0] != "request_cancel"@[0]);
    assert("force_feedback"@[0] != "request_result"@[0]);
    assert("force_threshold"@[0] != "goal_feature_id"@[0]);
    assert("force_threshold"@[0] != "joint_positions"@[0]);
    assert("force_threshold"@[0] != "program_running"@[0]);
    assert("force_threshold"@[0] != "request_trigger"@[0]);
    assert("force_threshold"@[0] != "robot_connected"@[0]);
    assert("global_velocity_scaling"@[0] != "subsequent_fail_counter"@[0]);
    assert("goal_feature_id"@[0] != "joint_positions"@[0]);
    assert("goal_feature_id"@[0] != "program_running"@[0]);
    assert("goal_feature_id"@[0] != "request_trigger"@[0]);
    assert("goal_feature_id"@[0] != "robot_connected"@[0]);
    assert("gripper_force"@[0] != "motion_paused"@[0]);
    assert("gripper_force"@[0] != "program_state"@[0]);
    assert("gripper_force"@[0] != "relative_pose"@[0]);
    assert("gripper_force"@[0] != "request_state"@[0]);
    assert("gripper_force"@[0] != "root_frame_id"@[0]);
    assert("gripper_force"@[0] != "serial_number"@[0]);
    assert("gripper_force"@[0] != "speed_scaling"@[0]);
    assert("gripper_ref_pos_percentage"@[0] != "use_preferred_joint_config"@[0]);
    assert("gripper_velocity"@[0] != "operational_mode"@[0]);
    assert("gripper_velocity"@[0] != "request_feedback"@[0]);
    assert("gripper_velocity"@[0] != "use_blend_radius"@[0]);
    assert("joint_positions"@[0] != "program_running"@[0]);
    assert("joint_positions"@[0] != "request_trigger"@[0]);
    assert("joint_positions"@[0] != "robot_connected"@[0]);
    assert("motion_paused"@[0] != "program_state"@[0]);
    assert("motion_paused"@[0] != "relative_pose"@[0]);
    assert("motion_paused"@[0] != "request_state"@[0]);
    assert("motion_paused"@[0] != "root_frame_id"@[0]);
    assert("motion_paused"@[0] != "serial_number"@[0]);
    assert("motion_paused"@[0] != "speed_scaling"@[0]);
    assert("operational_mode"@[0] != "request_feedback"@[0]);
    assert("operational_mode"@[0] != "use_blend_radius"@[0]);
    assert("polyscope_version"@[0] != "use_relative_pose"@[0]);
    assert("program_running"@[0] != "request_trigger"@[0]);
    assert("program_running"@[0] != "robot_connected"@[0]);
    assert("program_state"@[0] != "relative_pose"@[0]);
    assert("program_state"@[0] != "request_state"@[0]);
    assert("program_state"@[0] != "root_frame_id"@[0]);
    assert("program_state"@[0] != "serial_number"@[0]);
    assert("program_state"@[0] != "speed_scaling"@[0]);
    assert("relative_pose"@[2] != "request_state"@[2]);
    assert("relative_pose"@[1] != "root_frame_id"@[1]);
    assert("relative_pose"@[0] != "serial_number"@[0]);
    assert("relative_pose"@[0] != "speed_scaling"@[0]);
    assert("remote_control"@[2] != "request_cancel"@[2]);
    assert("remote_control"@[2] != "request_result"@[2]);
    assert("request_cancel"@[8] != "request_result"@[8]);
    assert("request_feedback"@[0] != "use_blend_radius"@[0]);
    assert("request_state"@[1] != "root_frame_id"@[1]);
    assert("request_state"@[0] != "serial_number"@[0]);
    assert("request_state"@[0] != "speed_scaling"@[0]);
    assert("request_trigger"@[1] != "robot_connected"@[1]);
    assert("robot_model"@[0] != "safety_mode"@[0]);
    assert("robot_model"@[0] != "use_payload"@[0]);
    assert("root_frame_id"@[0] != "serial_number"@[0]);
    assert("root_frame_id"@[0] != "speed_scaling"@[0]);
    assert("safety_mode"@[0] != "use_payload"@[0]);
    assert("serial_number"@[1] != "speed_scaling"@[1]);
    assert("tcp_force"@[0] != "waypoints"@[0]);
    assert("tcp_pose"@[0] != "velocity"@[0]);
    assert("total_fail_counter"@[0] != "use_execution_time"@[0]);
    assert forall|a: Seq<char>, b: Seq<char>| #[trigger] key_of(owner, a) == #[trigger] key_of(
        owner,
        b,
    ) implies a == b by {
        keys_are_distinct(owner, a, b);
    }
}

} // verus!
