//! What holds of what is published: each key carries its own measurement, whatever changed is
//! published, and the frames hang together as the arm does.

use crate::dashboard_line_laws::{robot_modes_by_their_number, safety_modes_by_their_number};
use crate::double::Double;
use crate::driver_state::DriverState;
use crate::request_laws::{is_entry, is_flag_in, is_text_in, under};
use crate::sp_value::{keys_are_distinct, SpValue, SpView, Write};
use crate::state_publisher::{
    arm_frames, frames_in, is_published_at, joints_differ, measures, owned_frames, publishes, says_joints, Drift,
    Frame, MeasuredState, FORCE_EPSILON, POSE_EPSILON, SCALING_EPSILON,
};
use crate::text::words;
use crate::visuals::{
    attribute, child_from, link_from, mesh_links, shows_mesh, visual_of, visuals_of, XmlNodeView,
};
use vstd::prelude::*;

verus! {

/// Whether some write puts `value` under `key`, and every write to `key` does.
pub open spec fn is_said(writes: Seq<Write>, key: Seq<char>, value: SpView) -> bool {
    &&& exists|i: int| 0 <= i < writes.len() && (#[trigger] writes[i]).key@ == key
    &&& forall|i: int|
        0 <= i < writes.len() && (#[trigger] writes[i]).key@ == key ==> writes[i].value@ == value
}

/// Whether some write puts these numbers under `key`, and every write to `key` does.
pub open spec fn are_said(writes: Seq<Write>, key: Seq<char>, numbers: Seq<Double>) -> bool {
    &&& exists|i: int| 0 <= i < writes.len() && (#[trigger] writes[i]).key@ == key
    &&& forall|i: int|
        0 <= i < writes.len() && (#[trigger] writes[i]).key@ == key ==> (writes[i].value@ matches
            SpView::Array(Some(a)) && a.len() == numbers.len() && forall|k: int|
            0 <= k < a.len() ==> (#[trigger] a[k])@ == SpView::Float64(Some(numbers[k])))
}

proof fn lemma_published_keys(
    writes: Seq<Write>,
    robot: Seq<char>,
    measured: MeasuredState,
    force_feedback: Double,
)
    requires
        publishes(writes, robot, measured, force_feedback),
    ensures
        forall|i: int|
            0 <= i < writes.len() && (#[trigger] writes[i]).key@ == under(robot, "safety_mode"@) ==> i == 0,
        forall|i: int|
            0 <= i < writes.len() && (#[trigger] writes[i]).key@ == under(robot, "robot_mode"@) ==> i == 1,
        forall|i: int|
            0 <= i < writes.len() && (#[trigger] writes[i]).key@ == under(robot, "program_state"@) ==> i == 2,
        forall|i: int|
            0 <= i < writes.len() && (#[trigger] writes[i]).key@ == under(robot, "program_running"@) ==> i == 3,
        forall|i: int|
            0 <= i < writes.len() && (#[trigger] writes[i]).key@ == under(robot, "tcp_pose"@) ==> i == 4,
        forall|i: int|
            0 <= i < writes.len() && (#[trigger] writes[i]).key@ == under(robot, "tcp_force"@) ==> i == 5,
        forall|i: int|
            0 <= i < writes.len() && (#[trigger] writes[i]).key@ == under(robot, "force_feedback"@) ==> i == 6,
        forall|i: int|
            0 <= i < writes.len() && (#[trigger] writes[i]).key@ == under(robot, "speed_scaling"@) ==> i == 7,
        forall|i: int|
            0 <= i < writes.len() && (#[trigger] writes[i]).key@ == under(robot, "digital_inputs"@) ==> i == 8,
        forall|i: int|
            0 <= i < writes.len() && (#[trigger] writes[i]).key@ == under(robot, "digital_outputs"@) ==> i == 9,
        forall|i: int|
            0 <= i < writes.len() && (#[trigger] writes[i]).key@ == under(robot, "robot_connected"@) ==> i == 10,
        forall|i: int|
            0 <= i < writes.len() && (#[trigger] writes[i]).key@ == under(robot, "dashboard_connected"@) ==> i == 11,
        forall|i: int|
            0 <= i < writes.len() && (#[trigger] writes[i]).key@ == under(robot, "remote_control"@) ==> i == 12,
{
    reveal_strlit("dashboard_connected");
    reveal_strlit("digital_inputs");
    reveal_strlit("digital_outputs");
    reveal_strlit("force_feedback");
    reveal_strlit("program_running");
    reveal_strlit("program_state");
    reveal_strlit("remote_control");
    reveal_strlit("robot_connected");
    reveal_strlit("robot_mode");
    reveal_strlit("safety_mode");
    reveal_strlit("speed_scaling");
    reveal_strlit("tcp_force");
    reveal_strlit("tcp_pose");
    assert("dashboard_connected"@.len() == 19);
    assert("digital_inputs"@.len() == 14);
    assert("digital_outputs"@.len() == 15);
    assert("force_feedback"@.len() == 14);
    assert("program_running"@.len() == 15);
    assert("program_state"@.len() == 13);
    assert("remote_control"@.len() == 14);
    assert("robot_connected"@.len() == 15);
    assert("robot_mode"@.len() == 10);
    assert("safety_mode"@.len() == 11);
    assert("speed_scaling"@.len() == 13);
    assert("tcp_force"@.len() == 9);
    assert("tcp_pose"@.len() == 8);
    assert("digital_inputs"@[0] != "force_feedback"@[0]);
    assert("digital_inputs"@[0] != "remote_control"@[0]);
    assert("digital_outputs"@[0] != "program_running"@[0]);
    assert("digital_outputs"@[0] != "robot_connected"@[0]);
    assert("force_feedback"@[0] != "remote_control"@[0]);
    assert("program_running"@[0] != "robot_connected"@[0]);
    assert("program_state"@[0] != "speed_scaling"@[0]);
    assert(writes[0].key@ == under(robot, "safety_mode"@));
    assert(writes[1].key@ == under(robot, "robot_mode"@));
    assert(writes[2].key@ == under(robot, "program_state"@));
    assert(writes[3].key@ == under(robot, "program_running"@));
    assert(writes[4].key@ == under(robot, "tcp_pose"@));
    assert(writes[5].key@ == under(robot, "tcp_force"@));
    assert(writes[6].key@ == under(robot, "force_feedback"@));
    assert(writes[7].key@ == under(robot, "speed_scaling"@));
    assert(writes[8].key@ == under(robot, "digital_inputs"@));
    assert(writes[9].key@ == under(robot, "digital_outputs"@));
    assert(writes[10].key@ == under(robot, "robot_connected"@));
    assert(writes[11].key@ == under(robot, "dashboard_connected"@));
    assert(writes[12].key@ == under(robot, "remote_control"@));
    keys_are_distinct(robot, "safety_mode"@, "robot_mode"@);
    keys_are_distinct(robot, "safety_mode"@, "program_state"@);
    keys_are_distinct(robot, "safety_mode"@, "program_running"@);
    keys_are_distinct(robot, "safety_mode"@, "tcp_pose"@);
    keys_are_distinct(robot, "safety_mode"@, "tcp_force"@);
    keys_are_distinct(robot, "safety_mode"@, "force_feedback"@);
    keys_are_distinct(robot, "safety_mode"@, "speed_scaling"@);
    keys_are_distinct(robot, "safety_mode"@, "digital_inputs"@);
    keys_are_distinct(robot, "safety_mode"@, "digital_outputs"@);
    keys_are_distinct(robot, "safety_mode"@, "robot_connected"@);
    keys_are_distinct(robot, "safety_mode"@, "dashboard_connected"@);
    keys_are_distinct(robot, "safety_mode"@, "remote_control"@);
    keys_are_distinct(robot, "robot_mode"@, "program_state"@);
    keys_are_distinct(robot, "robot_mode"@, "program_running"@);
    keys_are_distinct(robot, "robot_mode"@, "tcp_pose"@);
    keys_are_distinct(robot, "robot_mode"@, "tcp_force"@);
    keys_are_distinct(robot, "robot_mode"@, "force_feedback"@);
    keys_are_distinct(robot, "robot_mode"@, "speed_scaling"@);
    keys_are_distinct(robot, "robot_mode"@, "digital_inputs"@);
    keys_are_distinct(robot, "robot_mode"@, "digital_outputs"@);
    keys_are_distinct(robot, "robot_mode"@, "robot_connected"@);
    keys_are_distinct(robot, "robot_mode"@, "dashboard_connected"@);
    keys_are_distinct(robot, "robot_mode"@, "remote_control"@);
    keys_are_distinct(robot, "program_state"@, "program_running"@);
    keys_are_distinct(robot, "program_state"@, "tcp_pose"@);
    keys_are_distinct(robot, "program_state"@, "tcp_force"@);
    keys_are_distinct(robot, "program_state"@, "force_feedback"@);
    keys_are_distinct(robot, "program_state"@, "speed_scaling"@);
    keys_are_distinct(robot, "program_state"@, "digital_inputs"@);
    keys_are_distinct(robot, "program_state"@, "digital_outputs"@);
    keys_are_distinct(robot, "program_state"@, "robot_connected"@);
    keys_are_distinct(robot, "program_state"@, "dashboard_connected"@);
    keys_are_distinct(robot, "program_state"@, "remote_control"@);
    keys_are_distinct(robot, "program_running"@, "tcp_pose"@);
    keys_are_distinct(robot, "program_running"@, "tcp_force"@);
    keys_are_distinct(robot, "program_running"@, "force_feedback"@);
    keys_are_distinct(robot, "program_running"@, "speed_scaling"@);
    keys_are_distinct(robot, "program_running"@, "digital_inputs"@);
    keys_are_distinct(robot, "program_running"@, "digital_outputs"@);
    keys_are_distinct(robot, "program_running"@, "robot_connected"@);
    keys_are_distinct(robot, "program_running"@, "dashboard_connected"@);
    keys_are_distinct(robot, "program_running"@, "remote_control"@);
    keys_are_distinct(robot, "tcp_pose"@, "tcp_force"@);
    keys_are_distinct(robot, "tcp_pose"@, "force_feedback"@);
    keys_are_distinct(robot, "tcp_pose"@, "speed_scaling"@);
    keys_are_distinct(robot, "tcp_pose"@, "digital_inputs"@);
    keys_are_distinct(robot, "tcp_pose"@, "digital_outputs"@);
    keys_are_distinct(robot, "tcp_pose"@, "robot_connected"@);
    keys_are_distinct(robot, "tcp_pose"@, "dashboard_connected"@);
    keys_are_distinct(robot, "tcp_pose"@, "remote_control"@);
    keys_are_distinct(robot, "tcp_force"@, "force_feedback"@);
    keys_are_distinct(robot, "tcp_force"@, "speed_scaling"@);
    keys_are_distinct(robot, "tcp_force"@, "digital_inputs"@);
    keys_are_distinct(robot, "tcp_force"@, "digital_outputs"@);
    keys_are_distinct(robot, "tcp_force"@, "robot_connected"@);
    keys_are_distinct(robot, "tcp_force"@, "dashboard_connected"@);
    keys_are_distinct(robot, "tcp_force"@, "remote_control"@);
    keys_are_distinct(robot, "force_feedback"@, "speed_scaling"@);
    keys_are_distinct(robot, "force_feedback"@, "digital_inputs"@);
    keys_are_distinct(robot, "force_feedback"@, "digital_outputs"@);
    keys_are_distinct(robot, "force_feedback"@, "robot_connected"@);
    keys_are_distinct(robot, "force_feedback"@, "dashboard_connected"@);
    keys_are_distinct(robot, "force_feedback"@, "remote_control"@);
    keys_are_distinct(robot, "speed_scaling"@, "digital_inputs"@);
    keys_are_distinct(robot, "speed_scaling"@, "digital_outputs"@);
    keys_are_distinct(robot, "speed_scaling"@, "robot_connected"@);
    keys_are_distinct(robot, "speed_scaling"@, "dashboard_connected"@);
    keys_are_distinct(robot, "speed_scaling"@, "remote_control"@);
    keys_are_distinct(robot, "digital_inputs"@, "digital_outputs"@);
    keys_are_distinct(robot, "digital_inputs"@, "robot_connected"@);
    keys_are_distinct(robot, "digital_inputs"@, "dashboard_connected"@);
    keys_are_distinct(robot, "digital_inputs"@, "remote_control"@);
    keys_are_distinct(robot, "digital_outputs"@, "robot_connected"@);
    keys_are_distinct(robot, "digital_outputs"@, "dashboard_connected"@);
    keys_are_distinct(robot, "digital_outputs"@, "remote_control"@);
    keys_are_distinct(robot, "robot_connected"@, "dashboard_connected"@);
    keys_are_distinct(robot, "robot_connected"@, "remote_control"@);
    keys_are_distinct(robot, "dashboard_connected"@, "remote_control"@);
}

/// What is published of a robot is what the driver knows of it: under each key its own
/// measurement, and the modes in the controller's own words.
pub proof fn what_is_known_is_published<G, F, S>(
    driver: DriverState<G, F, S>,
    measured: MeasuredState,
    writes: Seq<Write>,
    robot: Seq<char>,
    force_feedback: Double,
)
    requires
        measures(measured, driver),
        publishes(writes, robot, measured, force_feedback),
    ensures
        is_said(writes, under(robot, "program_state"@), SpView::Text(Some(driver.program_state@))),
        is_said(writes, under(robot, "program_running"@), SpView::Bool(Some(driver.program_running))),
        is_said(writes, under(robot, "force_feedback"@), SpView::Float64(Some(force_feedback))),
        is_said(writes, under(robot, "speed_scaling"@), SpView::Float64(Some(driver.speed_scaling))),
        is_said(writes, under(robot, "digital_inputs"@), SpView::Int64(Some(driver.digital_inputs as i64))),
        is_said(writes, under(robot, "digital_outputs"@), SpView::Int64(Some(driver.digital_outputs as i64))),
        is_said(writes, under(robot, "robot_connected"@), SpView::Bool(Some(driver.connected))),
        is_said(writes, under(robot, "dashboard_connected"@), SpView::Bool(Some(driver.dashboard_connected))),
        is_said(writes, under(robot, "remote_control"@), SpView::Bool(Some(driver.remote_control))),
        are_said(writes, under(robot, "tcp_pose"@), driver.tcp_pose@),
        are_said(writes, under(robot, "tcp_force"@), driver.forces@),
        driver.safety_mode == 1 ==> is_said(
            writes,
            under(robot, "safety_mode"@),
            SpView::Text(Some("NORMAL"@)),
        ),
        driver.safety_mode == 2 ==> is_said(
            writes,
            under(robot, "safety_mode"@),
            SpView::Text(Some("REDUCED"@)),
        ),
        driver.safety_mode == 3 ==> is_said(
            writes,
            under(robot, "safety_mode"@),
            SpView::Text(Some("PROTECTIVE_STOP"@)),
        ),
        driver.safety_mode == 4 ==> is_said(
            writes,
            under(robot, "safety_mode"@),
            SpView::Text(Some("RECOVERY"@)),
        ),
        driver.safety_mode == 5 ==> is_said(
            writes,
            under(robot, "safety_mode"@),
            SpView::Text(Some("SAFEGUARD_STOP"@)),
        ),
        driver.safety_mode == 6 ==> is_said(
            writes,
            under(robot, "safety_mode"@),
            SpView::Text(Some("SYSTEM_EMERGENCY_STOP"@)),
        ),
        driver.safety_mode == 7 ==> is_said(
            writes,
            under(robot, "safety_mode"@),
            SpView::Text(Some("ROBOT_EMERGENCY_STOP"@)),
        ),
        driver.safety_mode == 8 ==> is_said(
            writes,
            under(robot, "safety_mode"@),
            SpView::Text(Some("VIOLATION"@)),
        ),
        driver.safety_mode == 9 ==> is_said(
            writes,
            under(robot, "safety_mode"@),
            SpView::Text(Some("FAULT"@)),
        ),
        driver.robot_mode == 7 ==> is_said(
            writes,
            under(robot, "robot_mode"@),
            SpView::Text(Some("RUNNING"@)),
        ),
        driver.robot_mode == 3 ==> is_said(
            writes,
            under(robot, "robot_mode"@),
            SpView::Text(Some("POWER_OFF"@)),
        ),
{
    lemma_published_keys(writes, robot, measured, force_feedback);
    safety_modes_by_their_number(driver.safety_mode);
    robot_modes_by_their_number(driver.robot_mode);
    assert(writes[0].key@ == under(robot, "safety_mode"@));
    assert(writes[1].key@ == under(robot, "robot_mode"@));
    assert(writes[2].key@ == under(robot, "program_state"@));
    assert(writes[3].key@ == under(robot, "program_running"@));
    assert(writes[4].key@ == under(robot, "tcp_pose"@));
    assert(writes[5].key@ == under(robot, "tcp_force"@));
    assert(writes[6].key@ == under(robot, "force_feedback"@));
    assert(writes[7].key@ == under(robot, "speed_scaling"@));
    assert(writes[8].key@ == under(robot, "digital_inputs"@));
    assert(writes[9].key@ == under(robot, "digital_outputs"@));
    assert(writes[10].key@ == under(robot, "robot_connected"@));
    assert(writes[11].key@ == under(robot, "dashboard_connected"@));
    assert(writes[12].key@ == under(robot, "remote_control"@));
}

/// Whatever changes is published: a mode, a state, a bit, a connection, or a measurement that
/// moved by more than its tolerance.
pub proof fn changes_are_published(now: MeasuredState, previous: MeasuredState, drift: Drift, i: int)
    ensures
        now.safety_mode != previous.safety_mode ==> now.is_news(Some(previous), drift),
        now.robot_mode != previous.robot_mode ==> now.is_news(Some(previous), drift),
        now.program_state@ != previous.program_state@ ==> now.is_news(Some(previous), drift),
        now.program_running != previous.program_running ==> now.is_news(Some(previous), drift),
        now.digital_inputs != previous.digital_inputs ==> now.is_news(Some(previous), drift),
        now.digital_outputs != previous.digital_outputs ==> now.is_news(Some(previous), drift),
        now.robot_connected != previous.robot_connected ==> now.is_news(Some(previous), drift),
        now.dashboard_connected != previous.dashboard_connected ==> now.is_news(
            Some(previous),
            drift,
        ),
        now.remote_control != previous.remote_control ==> now.is_news(Some(previous), drift),
        now.forces@.len() != previous.forces@.len() ==> now.is_news(Some(previous), drift),
        now.tcp_pose@.len() != previous.tcp_pose@.len() ==> now.is_news(Some(previous), drift),
        (Double { bits: SCALING_EPSILON }).lt(drift.speed_scaling) ==> now.is_news(
            Some(previous),
            drift,
        ),
        0 <= i < drift.forces@.len() && (Double { bits: FORCE_EPSILON }).lt(drift.forces@[i])
            ==> now.is_news(Some(previous), drift),
        0 <= i < drift.tcp_pose@.len() && (Double { bits: POSE_EPSILON }).lt(drift.tcp_pose@[i])
            ==> now.is_news(Some(previous), drift),
{
}

/// Every frame of the arm is given in one that comes before it, from the base to the tool, and
/// none is given twice.
pub proof fn frames_hang_together_as_the_arm_does(prefix: Seq<char>, i: int)
    requires
        0 <= i < owned_frames(prefix).len(),
    ensures
        owned_frames(prefix)[i].0 == prefix + "base_link"@ || exists|j: int|
            0 <= j < i && (#[trigger] owned_frames(prefix)[j]).1 == owned_frames(prefix)[i].0,
        owned_frames(prefix)[i].1 == prefix + "tool0"@ ==> owned_frames(prefix)[i].0 == prefix
            + "flange"@,
        owned_frames(prefix)[i].1 == prefix + "flange"@ ==> owned_frames(prefix)[i].0 == prefix
            + "wrist_3_link"@,
        owned_frames(prefix)[i].1 == prefix + "ft_frame"@ ==> owned_frames(prefix)[i].0 == prefix
            + "wrist_3_link"@,
        owned_frames(prefix)[i].1 == prefix + "wrist_3_link"@ ==> owned_frames(prefix)[i].0
            == prefix + "wrist_2_link"@,
        owned_frames(prefix)[i].1 == prefix + "wrist_2_link"@ ==> owned_frames(prefix)[i].0
            == prefix + "wrist_1_link"@,
        owned_frames(prefix)[i].1 == prefix + "wrist_1_link"@ ==> owned_frames(prefix)[i].0
            == prefix + "forearm_link"@,
        owned_frames(prefix)[i].1 == prefix + "forearm_link"@ ==> owned_frames(prefix)[i].0
            == prefix + "upper_arm_link"@,
        owned_frames(prefix)[i].1 == prefix + "upper_arm_link"@ ==> owned_frames(prefix)[i].0
            == prefix + "shoulder_link"@,
        owned_frames(prefix)[i].1 == prefix + "shoulder_link"@ ==> owned_frames(prefix)[i].0
            == prefix + "base_link_inertia"@,
{
    reveal_strlit("base_link");
    reveal_strlit("base_link_inertia");
    reveal_strlit("flange");
    reveal_strlit("forearm_link");
    reveal_strlit("ft_frame");
    reveal_strlit("shoulder_link");
    reveal_strlit("tool0");
    reveal_strlit("upper_arm_link");
    reveal_strlit("wrist_1_link");
    reveal_strlit("wrist_2_link");
    reveal_strlit("wrist_3_link");
    assert("base_link"@.len() == 9);
    assert("base_link_inertia"@.len() == 17);
    assert("flange"@.len() == 6);
    assert("forearm_link"@.len() == 12);
    assert("ft_frame"@.len() == 8);
    assert("shoulder_link"@.len() == 13);
    assert("tool0"@.len() == 5);
    assert("upper_arm_link"@.len() == 14);
    assert("wrist_1_link"@.len() == 12);
    assert("wrist_2_link"@.len() == 12);
    assert("wrist_3_link"@.len() == 12);
    assert("forearm_link"@[0] != "wrist_1_link"@[0]);
    assert("forearm_link"@[0] != "wrist_2_link"@[0]);
    assert("forearm_link"@[0] != "wrist_3_link"@[0]);
    assert("wrist_1_link"@[6] != "wrist_2_link"@[6]);
    assert("wrist_1_link"@[6] != "wrist_3_link"@[6]);
    assert("wrist_2_link"@[6] != "wrist_3_link"@[6]);
    let owned = owned_frames(prefix);
    assert(owned.len() == 10);
    assert forall|j: int| 0 <= j < 10 implies #[trigger] owned[j] == (
        prefix + arm_frames()[j].0,
        prefix + arm_frames()[j].1,
    ) by {}
    assert(owned[0] == (prefix + arm_frames()[0].0, prefix + arm_frames()[0].1));
    assert(owned[1] == (prefix + arm_frames()[1].0, prefix + arm_frames()[1].1));
    assert(owned[2] == (prefix + arm_frames()[2].0, prefix + arm_frames()[2].1));
    assert(owned[3] == (prefix + arm_frames()[3].0, prefix + arm_frames()[3].1));
    assert(owned[4] == (prefix + arm_frames()[4].0, prefix + arm_frames()[4].1));
    assert(owned[5] == (prefix + arm_frames()[5].0, prefix + arm_frames()[5].1));
    assert(owned[6] == (prefix + arm_frames()[6].0, prefix + arm_frames()[6].1));
    assert(owned[7] == (prefix + arm_frames()[7].0, prefix + arm_frames()[7].1));
    assert(owned[8] == (prefix + arm_frames()[8].0, prefix + arm_frames()[8].1));
    assert(owned[9] == (prefix + arm_frames()[9].0, prefix + arm_frames()[9].1));
    lemma_behind(prefix, "base_link"@, "base_link_inertia"@);
    lemma_behind(prefix, "base_link"@, "shoulder_link"@);
    lemma_behind(prefix, "base_link"@, "upper_arm_link"@);
    lemma_behind(prefix, "base_link"@, "forearm_link"@);
    lemma_behind(prefix, "base_link"@, "wrist_1_link"@);
    lemma_behind(prefix, "base_link"@, "wrist_2_link"@);
    lemma_behind(prefix, "base_link"@, "wrist_3_link"@);
    lemma_behind(prefix, "base_link"@, "flange"@);
    lemma_behind(prefix, "base_link"@, "ft_frame"@);
    lemma_behind(prefix, "base_link"@, "tool0"@);
    lemma_behind(prefix, "base_link_inertia"@, "shoulder_link"@);
    lemma_behind(prefix, "base_link_inertia"@, "upper_arm_link"@);
    lemma_behind(prefix, "base_link_inertia"@, "forearm_link"@);
    lemma_behind(prefix, "base_link_inertia"@, "wrist_1_link"@);
    lemma_behind(prefix, "base_link_inertia"@, "wrist_2_link"@);
    lemma_behind(prefix, "base_link_inertia"@, "wrist_3_link"@);
    lemma_behind(prefix, "base_link_inertia"@, "flange"@);
    lemma_behind(prefix, "base_link_inertia"@, "ft_frame"@);
    lemma_behind(prefix, "base_link_inertia"@, "tool0"@);
    lemma_behind(prefix, "shoulder_link"@, "upper_arm_link"@);
    lemma_behind(prefix, "shoulder_link"@, "forearm_link"@);
    lemma_behind(prefix, "shoulder_link"@, "wrist_1_link"@);
    lemma_behind(prefix, "shoulder_link"@, "wrist_2_link"@);
    lemma_behind(prefix, "shoulder_link"@, "wrist_3_link"@);
    lemma_behind(prefix, "shoulder_link"@, "flange"@);
    lemma_behind(prefix, "shoulder_link"@, "ft_frame"@);
    lemma_behind(prefix, "shoulder_link"@, "tool0"@);
    lemma_behind(prefix, "upper_arm_link"@, "forearm_link"@);
    lemma_behind(prefix, "upper_arm_link"@, "wrist_1_link"@);
    lemma_behind(prefix, "upper_arm_link"@, "wrist_2_link"@);
    lemma_behind(prefix, "upper_arm_link"@, "wrist_3_link"@);
    lemma_behind(prefix, "upper_arm_link"@, "flange"@);
    lemma_behind(prefix, "upper_arm_link"@, "ft_frame"@);
    lemma_behind(prefix, "upper_arm_link"@, "tool0"@);
    lemma_behind(prefix, "forearm_link"@, "wrist_1_link"@);
    lemma_behind(prefix, "forearm_link"@, "wrist_2_link"@);
    lemma_behind(prefix, "forearm_link"@, "wrist_3_link"@);
    lemma_behind(prefix, "forearm_link"@, "flange"@);
    lemma_behind(prefix, "forearm_link"@, "ft_frame"@);
    lemma_behind(prefix, "forearm_link"@, "tool0"@);
    lemma_behind(prefix, "wrist_1_link"@, "wrist_2_link"@);
    lemma_behind(prefix, "wrist_1_link"@, "wrist_3_link"@);
    lemma_behind(prefix, "wrist_1_link"@, "flange"@);
    lemma_behind(prefix, "wrist_1_link"@, "ft_frame"@);
    lemma_behind(prefix, "wrist_1_link"@, "tool0"@);
    lemma_behind(prefix, "wrist_2_link"@, "wrist_3_link"@);
    lemma_behind(prefix, "wrist_2_link"@, "flange"@);
    lemma_behind(prefix, "wrist_2_link"@, "ft_frame"@);
    lemma_behind(prefix, "wrist_2_link"@, "tool0"@);
    lemma_behind(prefix, "wrist_3_link"@, "flange"@);
    lemma_behind(prefix, "wrist_3_link"@, "ft_frame"@);
    lemma_behind(prefix, "wrist_3_link"@, "tool0"@);
    lemma_behind(prefix, "flange"@, "ft_frame"@);
    lemma_behind(prefix, "flange"@, "tool0"@);
    lemma_behind(prefix, "ft_frame"@, "tool0"@);
}

proof fn lemma_behind(prefix: Seq<char>, a: Seq<char>, b: Seq<char>)
    ensures
        prefix + a == prefix + b <==> a == b,
{
    assert((prefix + a).skip(prefix.len() as int) =~= a);
    assert((prefix + b).skip(prefix.len() as int) =~= b);
}

/// Whether a mesh of the arm is shown at its own link.
pub open spec fn is_mesh_of(link: Seq<char>, mesh: Seq<char>) -> bool {
    ||| link == "base_link_inertia"@ && mesh == "base.dae"@
    ||| link == "shoulder_link"@ && mesh == "shoulder.dae"@
    ||| link == "upper_arm_link"@ && mesh == "upperarm.dae"@
    ||| link == "forearm_link"@ && mesh == "forearm.dae"@
    ||| link == "wrist_1_link"@ && mesh == "wrist1.dae"@
    ||| link == "wrist_2_link"@ && mesh == "wrist2.dae"@
    ||| link == "wrist_3_link"@ && mesh == "wrist3.dae"@
}

/// Every mesh that is shown is that of its link, hangs off it, and is there only where the robot's
/// description has the link; and every link that has a mesh and is there is shown.
pub proof fn meshes_are_shown_at_their_links(
    nodes: Seq<XmlNodeView>,
    prefix: Seq<char>,
    n: nat,
)
    requires
        n <= mesh_links().len(),
    ensures
        forall|k: int|
            0 <= k < visuals_of(nodes, prefix, n).len() ==> is_link_shown(
                nodes,
                prefix,
                #[trigger] visuals_of(nodes, prefix, n)[k].parent,
                visuals_of(nodes, prefix, n)[k].child,
                visuals_of(nodes, prefix, n)[k].mesh_file,
            ),
        forall|i: int|
            0 <= i < n && link_from(nodes, (#[trigger] mesh_links()[i]).0, 0) is Some
                ==> has_parent(visuals_of(nodes, prefix, n), prefix + mesh_links()[i].0),
    decreases n,
{
    if n > 0 {
        let m = (n - 1) as nat;
        meshes_are_shown_at_their_links(nodes, prefix, m);
        let before = visuals_of(nodes, prefix, m);
        let all = visuals_of(nodes, prefix, n);
        let (link, mesh) = mesh_links()[n - 1];
        assert(is_mesh_of(link, mesh));
        assert forall|k: int| 0 <= k < all.len() implies is_link_shown(
            nodes,
            prefix,
            #[trigger] all[k].parent,
            all[k].child,
            all[k].mesh_file,
        ) by {
            if k < before.len() {
                assert(all[k] == before[k]);
                assert(is_link_shown(
                    nodes,
                    prefix,
                    before[k].parent,
                    before[k].child,
                    before[k].mesh_file,
                ));
            } else {
                assert(all[k].parent == prefix + link);
            }
        }
        assert forall|i: int|
            0 <= i < n && link_from(nodes, (#[trigger] mesh_links()[i]).0, 0)
                is Some implies has_parent(all, prefix + mesh_links()[i].0) by {
            if i < m {
                let k = choose|k: int|
                    0 <= k < before.len() && (#[trigger] before[k]).parent == prefix
                        + mesh_links()[i].0;
                assert(all[k] == before[k]);
            } else {
                assert(all[all.len() - 1].parent == prefix + link);
            }
        }
    }
}

/// Whether one of the visuals hangs off a frame.
pub open spec fn has_parent(
    visuals: Seq<crate::visuals::VisualView>,
    parent: Seq<char>,
) -> bool {
    exists|k: int| 0 <= k < visuals.len() && (#[trigger] visuals[k]).parent == parent
}

/// Whether a visual shows the mesh of a link that the robot's description has.
pub open spec fn is_link_shown(
    nodes: Seq<XmlNodeView>,
    prefix: Seq<char>,
    parent: Seq<char>,
    child: Seq<char>,
    mesh: Seq<char>,
) -> bool {
    exists|link: Seq<char>| #[trigger]
        is_mesh_of(link, mesh) && parent == prefix + link && child == prefix + (link
            + "_visual"@) && link_from(nodes, link, 0) is Some
}

/// A link is published as the frame of its own name, and only where the robot owns that frame; the
/// base is never published. The joints are published as they are, under their own key.
pub proof fn links_are_published_under_their_names(
    owned: Seq<Frame>,
    prefix: Seq<char>,
    link: Seq<char>,
    r: Option<usize>,
    robot: Seq<char>,
    joints: Seq<Double>,
    write: Write,
)
    requires
        is_published_at(owned, prefix, link, r),
        says_joints(robot, joints, write),
    ensures
        link == "base_link"@ ==> r is None,
        r matches Some(i) ==> i < owned.len() && owned[i as int].child@ == prefix + link,
        r is None && link != "base_link"@ ==> forall|i: int|
            0 <= i < owned.len() ==> (#[trigger] owned[i]).child@ != prefix + link,
        write.key@ == under(robot, "joint_states"@),
        write.value@ matches SpView::Array(Some(a)) && a.len() == joints.len() && forall|k: int|
            0 <= k < a.len() ==> (#[trigger] a[k])@ == SpView::Float64(Some(joints[k])),
{
    assert forall|i: int| 0 <= i < owned.len() implies frames_in(owned)[i].1 == (
    #[trigger] owned[i]).child@ by {}
    if r is None && link != "base_link"@ {
        assert forall|i: int| 0 <= i < owned.len() implies (#[trigger] owned[i]).child@ != prefix
            + link by {
            assert(frames_in(owned).len() == owned.len());
            assert(frames_in(owned)[i].1 != prefix + link);
        }
    }
}

/// A mesh is placed by the first origin of the first visual of its link: its position by one
/// attribute and its orientation by the other, each number a word of it.
pub proof fn meshes_are_placed_by_their_origin(
    nodes: Seq<XmlNodeView>,
    prefix: Seq<char>,
    link: Seq<char>,
    mesh: Seq<char>,
    at: int,
    visual: int,
    origin: int,
    text: Seq<char>,
)
    requires
        child_from(nodes, at as usize, "visual"@, 0) == Some(visual),
        child_from(nodes, visual as usize, "origin"@, 0) == Some(origin),
    ensures
        attribute(nodes[origin].attributes, "xyz"@) == Some(text) ==> visual_of(
            nodes,
            prefix,
            link,
            mesh,
            at,
        ).xyz == words(text),
        attribute(nodes[origin].attributes, "rpy"@) == Some(text) ==> visual_of(
            nodes,
            prefix,
            link,
            mesh,
            at,
        ).rpy == words(text),
{
}

/// A link is found by its tag and its name, and is the first that has them; a child by its parent
/// and its tag, likewise.
pub proof fn nodes_are_found_by_what_they_are(
    nodes: Seq<XmlNodeView>,
    name: Seq<char>,
    parent: usize,
    tag: Seq<char>,
    from: int,
    i: int,
)
    requires
        0 <= from <= nodes.len(),
    ensures
        link_from(nodes, name, from) matches Some(k) ==> from <= k < nodes.len() && nodes[k].tag
            == "link"@ && attribute(nodes[k].attributes, "name"@) == Some(name) && (from <= i < k
            ==> !(nodes[i].tag == "link"@ && attribute(nodes[i].attributes, "name"@) == Some(
            name,
        ))),
        link_from(nodes, name, from) is None && from <= i < nodes.len() ==> !(nodes[i].tag
            == "link"@ && attribute(nodes[i].attributes, "name"@) == Some(name)),
        child_from(nodes, parent, tag, from) matches Some(k) ==> from <= k < nodes.len()
            && nodes[k].parent == Some(parent) && nodes[k].tag == tag && (from <= i < k ==> !(
        nodes[i].parent == Some(parent) && nodes[i].tag == tag)),
        child_from(nodes, parent, tag, from) is None && from <= i < nodes.len() ==> !(
        nodes[i].parent == Some(parent) && nodes[i].tag == tag),
    decreases nodes.len() - from,
{
    if from < nodes.len() {
        nodes_are_found_by_what_they_are(nodes, name, parent, tag, from + 1, i);
    }
}

/// Joints are published again exactly where one of them moved, or where there are others.
pub proof fn moved_joints_are_published(last: Seq<Double>, joints: Seq<Double>, i: int)
    ensures
        joints_differ(None, joints),
        last.len() != joints.len() ==> joints_differ(Some(last), joints),
        last.len() == joints.len() && 0 <= i < joints.len() && (last[i].lt(joints[i])
            || joints[i].lt(last[i])) ==> joints_differ(Some(last), joints),
        last == joints && (forall|k: int| 0 <= k < joints.len() ==> !(#[trigger] joints[k]).is_nan())
            ==> !joints_differ(Some(last), joints),
{
    if last.len() == joints.len() && 0 <= i < joints.len() {
        assert(!last[i].equal(joints[i]) || last[i].equal(joints[i]));
    }
}

/// What is said of a mesh is said under its own key: its directory, its file, and that it is shown
/// in its own colours.
pub proof fn meshes_are_described_by_key(
    table: Seq<(SpValue, SpValue)>,
    path: Seq<char>,
    file: Seq<char>,
)
    requires
        shows_mesh(table, path, file),
    ensures
        is_text_in(table, "override_meshes_dir"@, path),
        is_text_in(table, "mesh_file"@, file),
        is_flag_in(table, "visualize_mesh"@, true),
        is_flag_in(table, "mesh_use_embedded_materials"@, true),
{
    reveal_strlit("override_meshes_dir");
    reveal_strlit("mesh_file");
    reveal_strlit("mesh_scale");
    reveal_strlit("visualize_mesh");
    reveal_strlit("mesh_a");
    reveal_strlit("mesh_r");
    reveal_strlit("mesh_g");
    reveal_strlit("mesh_b");
    reveal_strlit("mesh_use_embedded_materials");
    assert("override_meshes_dir"@.len() == 19 && "mesh_file"@.len() == 9 && "mesh_scale"@.len()
        == 10 && "visualize_mesh"@.len() == 14 && "mesh_a"@.len() == 6 && "mesh_r"@.len() == 6
        && "mesh_g"@.len() == 6 && "mesh_b"@.len() == 6
        && "mesh_use_embedded_materials"@.len() == 27);
    assert(is_entry(table, "override_meshes_dir"@, 0));
    assert(is_entry(table, "mesh_file"@, 1));
    assert(is_entry(table, "visualize_mesh"@, 3));
    assert(is_entry(table, "mesh_use_embedded_materials"@, 8));
}

} // verus!
