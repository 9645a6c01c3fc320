//! What holds of motion requests: a command says what its request said, key by key, and every
//! frame it needs is the one that was looked up for it.

use crate::command_server::{
    accepts, are_counters, array_readable, asked_lookups, begins_tick, cancel_asked, command_of, consumed, is_feedback, lookups_of, no_offset,
    parameters, readable, rejection_of, request_asked, request_keys_of, request_suffixes,
    safe_home, stands_at_initial, target_lookups, unreadable, unreadable_reason, waypoint_lookups,
    waypoint_tcp, wanting, Lookup, MotionRequest, MotionRequestView, Tick,
};
use crate::double::{encoded_int, Double};
use crate::driver_state::DriverState;
use crate::intake::{is_next, Intake, Step};
use crate::sp_value::{written, SpValue, SpView, Write};
use crate::structs::{
    described, field, is_complete, is_waypoint, waypoints_in, RobotCommand, WaypointRaw,
    WaypointRawView,
};
use crate::text::views;
use vstd::prelude::*;

verus! {

/// The key of a robot's parameter.
pub open spec fn under(robot: Seq<char>, name: Seq<char>) -> Seq<char> {
    robot + "_"@ + name
}

/// Whether `value` is the number under a key: zero where there is none.
pub open spec fn is_number_at(
    state: Map<Seq<char>, SpView>,
    key: Seq<char>,
    value: Double,
) -> bool {
    &&& state.dom().contains(key) && (state[key] matches SpView::Float64(Some(d))) ==> state[key]
        == SpView::Float64(Some(value))
    &&& !(state.dom().contains(key) && (state[key] matches SpView::Float64(Some(d))))
        ==> value.bits == 0
}

/// Whether `value` is the flag under a key: `default` where there is none.
pub open spec fn is_flag_at(
    state: Map<Seq<char>, SpView>,
    key: Seq<char>,
    default: bool,
    value: bool,
) -> bool {
    &&& state.dom().contains(key) && state[key] == SpView::Bool(Some(true)) ==> value
    &&& state.dom().contains(key) && state[key] == SpView::Bool(Some(false)) ==> !value
    &&& !(state.dom().contains(key) && (state[key] matches SpView::Bool(Some(b)))) ==> value
        == default
}

/// Whether `value` is the text under a key: `default` where there is none.
pub open spec fn is_text_at(
    state: Map<Seq<char>, SpView>,
    key: Seq<char>,
    default: Seq<char>,
    value: Seq<char>,
) -> bool {
    &&& state.dom().contains(key) && (state[key] matches SpView::Text(Some(s))) ==> state[key]
        == SpView::Text(Some(value))
    &&& !(state.dom().contains(key) && (state[key] matches SpView::Text(Some(s)))) ==> value
        == default
}

/// Whether `value` is the array of numbers under a key: `default` where there is none, and for
/// those of its elements that are no numbers.
pub open spec fn is_array_at(
    state: Map<Seq<char>, SpView>,
    key: Seq<char>,
    default: Seq<Double>,
    value: Seq<Double>,
) -> bool {
    &&& state.dom().contains(key) ==> (state[key] matches SpView::Array(Some(a)) ==> {
        &&& value.len() == a.len()
        &&& forall|i: int|
            0 <= i < a.len() ==> (#[trigger] a[i]@ matches SpView::Float64(Some(d)) ==> a[i]@
                == SpView::Float64(Some(value[i])))
        &&& forall|i: int|
            0 <= i < a.len() ==> (#[trigger] a[i]@ matches SpView::Float64(Some(d))) || value[i]
                == default[i]
    })
    &&& !(state.dom().contains(key) && (state[key] matches SpView::Array(Some(a)))) ==> value
        == default
}

/// A command says what its request said: each of its parameters is the value under the key of
/// that name and under no other, and the default of that parameter where nothing was written.
pub proof fn commands_say_what_was_asked(
    robot: Seq<char>,
    state: Map<Seq<char>, SpView>,
    request: MotionRequest,
    answers: Seq<Seq<char>>,
    command: RobotCommand,
)
    requires
        request@ == parameters(robot, state),
        request@.waypoints matches Some(raw) && command@ == command_of(request@, raw, answers),
    ensures
        is_number_at(state, under(robot, "acceleration"@), command.acceleration),
        is_number_at(state, under(robot, "velocity"@), command.velocity),
        is_number_at(state, under(robot, "global_acceleration_scaling"@), command.global_acceleration_scaling),
        is_number_at(state, under(robot, "global_velocity_scaling"@), command.global_velocity_scaling),
        is_number_at(state, under(robot, "execution_time"@), command.execution_time),
        is_number_at(state, under(robot, "blend_radius"@), command.blend_radius),
        is_number_at(state, under(robot, "force_threshold"@), command.force_threshold),
        is_flag_at(state, under(robot, "use_execution_time"@), false, command.use_execution_time),
        is_flag_at(state, under(robot, "use_blend_radius"@), false, command.use_blend_radius),
        is_flag_at(state, under(robot, "use_joint_positions"@), false, command.use_joint_positions),
        is_flag_at(state, under(robot, "use_preferred_joint_config"@), false, command.use_preferred_joint_config),
        is_flag_at(state, under(robot, "use_payload"@), false, command.use_payload),
        is_flag_at(
            state,
            under(robot, "report_waypoint_progress"@),
            true,
            command.report_waypoint_progress,
        ),
        is_array_at(
            state,
            under(robot, "joint_positions"@),
            safe_home(),
            command.joint_positions@,
        ),
        is_array_at(
            state,
            under(robot, "preferred_joint_config"@),
            safe_home(),
            command.preferred_joint_config@,
        ),
        is_array_at(
            state,
            under(robot, "relative_pose"@),
            no_offset(),
            command.relative_pose@,
        ),
        is_text_at(state, under(robot, "command_type"@), "UNKNOWN"@, command.command_type@),
        is_text_at(state, under(robot, "payload"@), "0,[0,0,0],[0,0,0,0,0,0]"@, command.payload@),
        is_text_at(state, under(robot, "trajectory_id"@), ""@, command.trajectory_id@),
{
}

/// The frames of a request are those under their own keys, and what only decides on lookups is
/// read likewise.
pub proof fn requests_name_their_frames(
    robot: Seq<char>,
    state: Map<Seq<char>, SpView>,
    request: MotionRequest,
)
    requires
        request@ == parameters(robot, state),
    ensures
        is_text_at(state, under(robot, "baseframe_id"@), "base_link"@, request.baseframe_id@),
        is_text_at(state, under(robot, "faceplate_id"@), "tool0"@, request.faceplate_id@),
        is_text_at(state, under(robot, "goal_feature_id"@), "UNKNOWN"@, request.goal_feature_id@),
        is_text_at(state, under(robot, "tcp_id"@), "UNKNOWN"@, request.tcp_id@),
        is_text_at(state, under(robot, "command_type"@), "UNKNOWN"@, request.command_type@),
        is_flag_at(state, under(robot, "use_relative_pose"@), false, request.use_relative_pose),
        is_flag_at(state, under(robot, "use_joint_positions"@), false, request.use_joint_positions),
{
}

/// Whether entry `k` of a table is the first under the text key `name`.
pub open spec fn is_entry(table: Seq<(SpValue, SpValue)>, name: Seq<char>, k: int) -> bool {
    &&& 0 <= k < table.len()
    &&& table[k].0@ == SpView::Text(Some(name))
    &&& forall|l: int| 0 <= l < k ==> (#[trigger] table[l]).0@ != SpView::Text(Some(name))
}

proof fn lemma_entry(table: Seq<(SpValue, SpValue)>, name: Seq<char>, k: int)
    requires
        is_entry(table, name, k),
    ensures
        field(table, name) == Some(table[k].1),
    decreases k,
{
    if k > 0 {
        assert(table[0].0@ != SpView::Text(Some(name)));
        let rest = table.drop_first();
        assert forall|l: int| 0 <= l < k - 1 implies (#[trigger] rest[l]).0@ != SpView::Text(
            Some(name),
        ) by {
            assert(rest[l] == table[l + 1]);
        }
        lemma_entry(rest, name, k - 1);
    }
}

proof fn lemma_field_has_entry(table: Seq<(SpValue, SpValue)>, name: Seq<char>)
    ensures
        field(table, name) is Some ==> exists|k: int| #[trigger] is_entry(table, name, k),
    decreases table.len(),
{
    if table.len() > 0 {
        if table[0].0@ == SpView::Text(Some(name)) {
            assert(is_entry(table, name, 0));
        } else if field(table, name) is Some {
            let rest = table.drop_first();
            lemma_field_has_entry(rest, name);
            let k = choose|k: int| #[trigger] is_entry(rest, name, k);
            assert forall|l: int| 0 <= l < k + 1 implies (#[trigger] table[l]).0@ != SpView::Text(
                Some(name),
            ) by {
                if l > 0 {
                    assert(rest[l - 1] == table[l]);
                }
            }
            assert(table[k + 1] == rest[k]);
            assert(is_entry(table, name, k + 1));
        }
    }
}

/// Whether `value` is the number that an entry holds; a whole number counts as the nearest one.
pub open spec fn is_number_in(
    table: Seq<(SpValue, SpValue)>,
    name: Seq<char>,
    value: Double,
) -> bool {
    exists|k: int|
        {
            &&& #[trigger] is_entry(table, name, k)
            &&& match table[k].1@ {
                SpView::Float64(Some(d)) => value == d,
                SpView::Int64(Some(n)) => value.bits == encoded_int(n as int) as u64,
                _ => false,
            }
        }
}

/// Whether `value` is the flag that an entry holds.
pub open spec fn is_flag_in(table: Seq<(SpValue, SpValue)>, name: Seq<char>, value: bool) -> bool {
    exists|k: int|
        #[trigger] is_entry(table, name, k) && table[k].1@ == SpView::Bool(Some(value))
}

/// Whether `value` is the text that an entry holds.
pub open spec fn is_text_in(
    table: Seq<(SpValue, SpValue)>,
    name: Seq<char>,
    value: Seq<char>,
) -> bool {
    exists|k: int|
        #[trigger] is_entry(table, name, k) && table[k].1@ == SpView::Text(Some(value))
}

/// Whether `value` is the array of numbers that an entry holds.
pub open spec fn is_array_in(
    table: Seq<(SpValue, SpValue)>,
    name: Seq<char>,
    value: Seq<Double>,
) -> bool {
    exists|k: int|
        {
            &&& #[trigger] is_entry(table, name, k)
            &&& table[k].1@ matches SpView::Array(Some(a))
            &&& a.len() == value.len()
            &&& forall|i: int|
                0 <= i < a.len() ==> match (#[trigger] a[i])@ {
                    SpView::Float64(Some(d)) => value[i] == d,
                    SpView::Int64(Some(n)) => value[i].bits == encoded_int(n as int) as u64,
                    _ => false,
                }
        }
}

/// A waypoint is what its table says, field by field: each is the entry of its own name, and a
/// table that lacks one of them describes no waypoint. Only the straight line is optional, and
/// the goal frame where there is no use for it.
pub proof fn waypoints_are_read_field_by_field(
    items: Seq<SpValue>,
    raw: Seq<WaypointRaw>,
    i: int,
    table: Seq<(SpValue, SpValue)>,
)
    requires
        waypoints_in(Some(SpView::Array(Some(items)))) == Some(
            raw.map_values(|x: WaypointRaw| x@),
        ),
        0 <= i < items.len(),
        items[i]@ == SpView::Table(Some(table)),
    ensures
        raw.len() == items.len(),
        is_number_in(table, "acceleration"@, raw[i].acceleration),
        is_number_in(table, "velocity"@, raw[i].velocity),
        is_number_in(table, "global_acceleration_scaling"@, raw[i].global_acceleration_scaling),
        is_number_in(table, "global_velocity_scaling"@, raw[i].global_velocity_scaling),
        is_number_in(table, "execution_time"@, raw[i].execution_time),
        is_number_in(table, "blend_radius"@, raw[i].blend_radius),
        is_number_in(table, "force_threshold"@, raw[i].force_threshold),
        is_flag_in(table, "use_execution_time"@, raw[i].use_execution_time),
        is_flag_in(table, "use_blend_radius"@, raw[i].use_blend_radius),
        is_flag_in(table, "use_joint_positions"@, raw[i].use_joint_positions),
        is_flag_in(table, "use_preferred_joint_config"@, raw[i].use_preferred_joint_config),
        is_flag_in(table, "use_relative_pose"@, raw[i].use_relative_pose),
        is_flag_in(table, "use_payload"@, raw[i].use_payload),
        is_text_in(table, "payload"@, raw[i].payload@),
        is_text_in(table, "baseframe_id"@, raw[i].baseframe_id@),
        is_text_in(table, "faceplate_id"@, raw[i].faceplate_id@),
        is_text_in(table, "tcp_id"@, raw[i].tcp_id@),
        is_text_in(table, "root_frame_id"@, raw[i].root_frame_id@),
        is_array_in(table, "joint_positions"@, raw[i].joint_positions@),
        is_array_in(table, "preferred_joint_config"@, raw[i].preferred_joint_config@),
        is_array_in(table, "relative_pose"@, raw[i].relative_pose@),
        raw[i].use_joint_positions ==> raw[i].goal_feature_id@.len() == 0,
        !raw[i].use_joint_positions ==> is_text_in(
            table,
            "goal_feature_id"@,
            raw[i].goal_feature_id@,
        ),
        raw[i].use_linear_motion <==> is_flag_in(table, "use_linear_motion"@, true),
{
    let views = raw.map_values(|x: WaypointRaw| x@);
    assert(views.len() == raw.len());
    assert(is_waypoint(items[i]));
    assert(views[i] == raw[i]@);
    assert(raw[i]@ == described(table));
    assert(is_complete(table));
    assert forall|name: Seq<char>, k: int| #[trigger] is_entry(table, name, k) implies field(
        table,
        name,
    ) == Some(table[k].1) by {
        lemma_entry(table, name, k);
    }
    lemma_field_has_entry(table, "acceleration"@);
    lemma_field_has_entry(table, "velocity"@);
    lemma_field_has_entry(table, "global_acceleration_scaling"@);
    lemma_field_has_entry(table, "global_velocity_scaling"@);
    lemma_field_has_entry(table, "execution_time"@);
    lemma_field_has_entry(table, "blend_radius"@);
    lemma_field_has_entry(table, "force_threshold"@);
    lemma_field_has_entry(table, "use_execution_time"@);
    lemma_field_has_entry(table, "use_blend_radius"@);
    lemma_field_has_entry(table, "use_joint_positions"@);
    lemma_field_has_entry(table, "use_preferred_joint_config"@);
    lemma_field_has_entry(table, "use_relative_pose"@);
    lemma_field_has_entry(table, "use_payload"@);
    lemma_field_has_entry(table, "payload"@);
    lemma_field_has_entry(table, "baseframe_id"@);
    lemma_field_has_entry(table, "faceplate_id"@);
    lemma_field_has_entry(table, "tcp_id"@);
    lemma_field_has_entry(table, "root_frame_id"@);
    lemma_field_has_entry(table, "joint_positions"@);
    lemma_field_has_entry(table, "preferred_joint_config"@);
    lemma_field_has_entry(table, "relative_pose"@);
    lemma_field_has_entry(table, "goal_feature_id"@);
    lemma_field_has_entry(table, "use_linear_motion"@);
}

/// The waypoints of a command are those of its request, as many and in their order, with every
/// parameter they were given.
pub proof fn waypoints_keep_their_parameters(
    request: MotionRequest,
    raw: Vec<WaypointRaw>,
    answers: Seq<Seq<char>>,
    command: RobotCommand,
    i: int,
)
    requires
        request.waypoints == Some(raw),
        command@ == command_of(
            request@,
            raw@.map_values(|x: WaypointRaw| x@),
            answers,
        ),
        0 <= i < raw@.len(),
    ensures
        command.waypoints@.len() == raw@.len(),
        command.waypoints@[i].acceleration == raw@[i].acceleration,
        command.waypoints@[i].velocity == raw@[i].velocity,
        command.waypoints@[i].global_acceleration_scaling == raw@[i].global_acceleration_scaling,
        command.waypoints@[i].global_velocity_scaling == raw@[i].global_velocity_scaling,
        command.waypoints@[i].execution_time == raw@[i].execution_time,
        command.waypoints@[i].blend_radius == raw@[i].blend_radius,
        command.waypoints@[i].force_threshold == raw@[i].force_threshold,
        command.waypoints@[i].use_execution_time == raw@[i].use_execution_time,
        command.waypoints@[i].use_blend_radius == raw@[i].use_blend_radius,
        command.waypoints@[i].use_joint_positions == raw@[i].use_joint_positions,
        command.waypoints@[i].use_preferred_joint_config == raw@[i].use_preferred_joint_config,
        command.waypoints@[i].use_payload == raw@[i].use_payload,
        command.waypoints@[i].joint_positions@ == raw@[i].joint_positions@,
        command.waypoints@[i].preferred_joint_config@ == raw@[i].preferred_joint_config@,
        command.waypoints@[i].relative_pose@ == raw@[i].relative_pose@,
        command.waypoints@[i].payload@ == raw@[i].payload@,
        command.waypoints@[i].use_linear_motion == raw@[i].use_linear_motion,
{
    let all = raw@.map_values(|x: WaypointRaw| x@);
    assert(all[i] == raw@[i]@);
    assert(command@.waypoints.len() == command.waypoints@.len());
    assert(command@.waypoints[i] == command.waypoints@[i]@);
}

/// Whether the target of a request is a frame to look up: not where it moves to joint positions
/// or by an offset, and not for the commands that have no target of their own.
pub open spec fn has_target_frame(request: MotionRequest) -> bool {
    !(request.use_joint_positions || request.use_relative_pose || request.command_type@
        == "trajectory_unsafe_move_j"@ || request.command_type@ == "lock_rsp"@
        || request.command_type@ == "unlock_rsp"@)
}

/// Whether lookup `k` asks where `child` is, seen from `parent`.
pub open spec fn looks_up(
    lookups: Seq<Lookup>,
    k: int,
    parent: Seq<char>,
    child: Seq<char>,
) -> bool {
    0 <= k < lookups.len() && lookups[k].parent@ == parent && lookups[k].child@ == child
}

proof fn lemma_lookups_of_waypoints(
    request: MotionRequestView,
    raw: Seq<WaypointRawView>,
    answers: Seq<Seq<char>>,
    first: nat,
    tcp: Seq<char>,
    n: nat,
)
    requires
        n <= raw.len(),
    ensures
        waypoint_lookups(request, raw, n).len() == 2 * wanting(raw, n),
        forall|i: int|
            0 <= i < n && !(#[trigger] raw[i]).use_joint_positions && !raw[i].use_relative_pose
                ==> {
                let k = 2 * wanting(raw, i as nat) as int;
                &&& k + 1 < waypoint_lookups(request, raw, n).len()
                &&& waypoint_lookups(request, raw, n)[k] == (
                    request.baseframe_id,
                    raw[i].goal_feature_id,
                    true,
                )
                &&& waypoint_lookups(request, raw, n)[k + 1] == (
                    request.faceplate_id,
                    request.tcp_id,
                    false,
                )
            },
        waypoint_tcp(raw, answers, first, tcp, n) == (if wanting(raw, n) > 0 {
            answers[first + 2 * wanting(raw, n) - 1]
        } else {
            tcp
        }),
        wanting(raw, n) > 0 ==> waypoint_lookups(request, raw, n).last() == (
            request.faceplate_id,
            request.tcp_id,
            false,
        ),
    decreases n,
{
    if n > 0 {
        lemma_lookups_of_waypoints(request, raw, answers, first, tcp, (n - 1) as nat);
    }
}

/// Every frame that a command needs is the one that was looked up for it: the target of the
/// request and of each waypoint in the base frame, and the tool in the faceplate. What needs no
/// lookup stays at the origin.
pub proof fn targets_are_what_was_looked_up(
    request: MotionRequest,
    raw: Vec<WaypointRaw>,
    lookups: Seq<Lookup>,
    answers: Seq<Seq<char>>,
    command: RobotCommand,
    i: int,
)
    requires
        request.waypoints == Some(raw),
        asked_lookups(lookups) == lookups_of(request@),
        answers.len() == lookups.len(),
        command@ == command_of(
            request@,
            raw@.map_values(|x: WaypointRaw| x@),
            answers,
        ),
    ensures
        has_target_frame(request) ==> {
            &&& looks_up(lookups, 0, request.baseframe_id@, request.goal_feature_id@)
            &&& looks_up(lookups, 1, request.faceplate_id@, request.tcp_id@)
            &&& command.target_in_base@ == answers[0]
        },
        !has_target_frame(request) ==> command.target_in_base@ == "p[0,0,0,0,0,0]"@,
        lookups.len() == 0 ==> command.tcp_in_faceplate@ == "p[0,0,0,0,0,0]"@,
        lookups.len() > 0 ==> looks_up(
            lookups,
            lookups.len() - 1,
            request.faceplate_id@,
            request.tcp_id@,
        ) && command.tcp_in_faceplate@ == answers.last(),
        0 <= i < raw@.len() ==> {
            if raw@[i].use_joint_positions || raw@[i].use_relative_pose {
                command.waypoints@[i].target_in_base@ == "p[0,0,0,0,0,0]"@
            } else {
                exists|k: int|
                    {
                        &&& #[trigger] looks_up(
                            lookups,
                            k,
                            request.baseframe_id@,
                            raw@[i].goal_feature_id@,
                        )
                        &&& looks_up(lookups, k + 1, request.faceplate_id@, request.tcp_id@)
                        &&& command.waypoints@[i].target_in_base@ == answers[k]
                        &&& command.waypoints@[i].tcp_in_faceplate@ == answers[k + 1]
                    }
            }
        },
{
    let all = raw@.map_values(|x: WaypointRaw| x@);
    let first = target_lookups(request@).len();
    let tcp = if has_target_frame(request) {
        answers[1]
    } else {
        "p[0,0,0,0,0,0]"@
    };
    let asked = asked_lookups(lookups);
    assert(asked.len() == lookups.len());
    assert(request@.waypoints == Some(all));
    let theirs = waypoint_lookups(request@, all, all.len());
    assert(asked =~= target_lookups(request@) + theirs);
    lemma_lookups_of_waypoints(request@, all, answers, first, tcp, all.len());
    assert forall|k: int| 0 <= k < lookups.len() implies #[trigger] asked[k] == lookups[k]@ by {}
    if has_target_frame(request) {
        assert(asked[0] == target_lookups(request@)[0]);
        assert(asked[1] == target_lookups(request@)[1]);
    }
    if lookups.len() > 0 {
        let last = lookups.len() - 1;
        assert(asked[last] == lookups[last]@);
        if theirs.len() > 0 {
            assert(asked[last] == theirs.last());
        }
    }
    if 0 <= i < raw@.len() {
        assert(all[i] == raw@[i]@);
        assert(command@.waypoints.len() == command.waypoints@.len());
        assert(command@.waypoints[i] == command.waypoints@[i]@);
        if !(raw@[i].use_joint_positions || raw@[i].use_relative_pose) {
            let k = first + 2 * wanting(all, i as nat) as int;
            assert(asked[k] == theirs[k - first]);
            assert(asked[k + 1] == theirs[k + 1 - first]);
            assert(asked[k] == lookups[k]@);
            assert(asked[k + 1] == lookups[k + 1]@);
            assert(looks_up(
                lookups,
                k,
                request.baseframe_id@,
                raw@[i].goal_feature_id@,
            ));
        }
    }
}

/// Nothing else is looked up: two transforms for the target where it is a frame, and two for each
/// waypoint that moves to one.
pub proof fn nothing_else_is_looked_up(
    request: MotionRequest,
    raw: Vec<WaypointRaw>,
    lookups: Seq<Lookup>,
)
    requires
        request.waypoints == Some(raw),
        asked_lookups(lookups) == lookups_of(request@),
        forall|i: int|
            0 <= i < raw@.len() ==> (#[trigger] raw@[i]).use_joint_positions
                || raw@[i].use_relative_pose,
    ensures
        lookups.len() == (if has_target_frame(request) {
            2nat
        } else {
            0nat
        }),
{
    let all = raw@.map_values(|x: WaypointRaw| x@);
    assert(request@.waypoints == Some(all));
    lemma_none_wanting(all, all.len(), raw@);
    lemma_lookups_of_waypoints(request@, all, Seq::empty(), 0, Seq::empty(), all.len());
    assert(asked_lookups(lookups).len() == lookups.len());
}

proof fn lemma_none_wanting(all: Seq<WaypointRawView>, n: nat, raw: Seq<WaypointRaw>)
    requires
        n <= all.len(),
        all == raw.map_values(|x: WaypointRaw| x@),
        forall|i: int|
            0 <= i < raw.len() ==> (#[trigger] raw[i]).use_joint_positions
                || raw[i].use_relative_pose,
    ensures
        wanting(all, n) == 0,
    decreases n,
{
    if n > 0 {
        assert(all[n - 1] == raw[n - 1]@);
        lemma_none_wanting(all, (n - 1) as nat, raw);
    }
}

/// A goal starts exactly where the robot is connected and can be dialled back, nobody holds it,
/// its safety mode on the wire is 1 (normal) or 2 (reduced), and no goal is live.
pub proof fn goals_start_only_on_a_free_robot<G, F, S>(
    driver: DriverState<G, F, S>,
    has_address: bool,
)
    ensures
        rejection_of(driver, has_address) is None <==> {
            &&& has_address
            &&& driver.connected
            &&& !driver.motion_paused
            &&& (driver.safety_mode == 1 || driver.safety_mode == 2)
            &&& driver.goal_id is None
            &&& !driver.reissuing
        },
        !driver.connected || !has_address ==> rejection_of(driver, has_address) == Some(
            "not connected to the robot"@,
        ),
        driver.connected && has_address && driver.motion_paused ==> rejection_of(
            driver,
            has_address,
        ) == Some("motion is paused"@),
        driver.connected && has_address && !driver.motion_paused && driver.safety_mode == 3
            ==> rejection_of(driver, has_address) == Some(
            "robot safety mode is "@ + "PROTECTIVE_STOP"@,
        ),
        driver.connected && has_address && !driver.motion_paused && driver.safety_mode == 7
            ==> rejection_of(driver, has_address) == Some(
            "robot safety mode is "@ + "ROBOT_EMERGENCY_STOP"@,
        ),
        driver.connected && has_address && !driver.motion_paused && (driver.safety_mode == 1
            || driver.safety_mode == 2) && (driver.goal_id is Some || driver.reissuing)
            ==> rejection_of(driver, has_address) == Some("a goal is already running"@),
{
}

/// Whether a flag is raised.
pub open spec fn is_raised(state: Map<Seq<char>, SpView>, key: Seq<char>) -> bool {
    state.dom().contains(key) && state[key] == SpView::Bool(Some(true))
}

/// A tick acts on the flags that are raised and takes each of them down, and no other: the cancel
/// first, then the trigger. A request is picked up only at `initial`.
pub proof fn raised_flags_are_taken_down(robot: Seq<char>, state: Map<Seq<char>, SpView>)
    ensures
        cancel_asked(robot, state) <==> is_raised(state, under(robot, "request_cancel"@)),
        request_asked(robot, state) <==> is_raised(state, under(robot, "request_trigger"@)),
        stands_at_initial(robot, state) ==> {
            let key = under(robot, "request_state"@);
            state.dom().contains(key) && state[key] == SpView::Text(Some("initial"@))
        },
        ({
            let key = under(robot, "request_state"@);
            state.dom().contains(key) && state[key] == SpView::Text(Some("initial"@))
        }) ==> stands_at_initial(robot, state),
        ({
            let cancel = under(robot, "request_cancel"@);
            let trigger = under(robot, "request_trigger"@);
            let down = SpView::Bool(Some(false));
            &&& is_raised(state, cancel) && is_raised(state, trigger) ==> consumed(robot, state)
                == seq![(cancel, down), (trigger, down)]
            &&& is_raised(state, cancel) && !is_raised(state, trigger) ==> consumed(robot, state)
                == seq![(cancel, down)]
            &&& !is_raised(state, cancel) && is_raised(state, trigger) ==> consumed(robot, state)
                == seq![(trigger, down)]
            &&& !is_raised(state, cancel) && !is_raised(state, trigger) ==> consumed(
                robot,
                state,
            ).len() == 0
        }),
{
    reveal_strlit("UNKNOWN");
    reveal_strlit("initial");
    assert("UNKNOWN"@[0] != "initial"@[0]);
    let cancel = under(robot, "request_cancel"@);
    let trigger = under(robot, "request_trigger"@);
    let down = SpView::Bool(Some(false));
    if is_raised(state, cancel) && is_raised(state, trigger) {
        assert(consumed(robot, state) =~= seq![(cancel, down), (trigger, down)]);
    } else if is_raised(state, cancel) {
        assert(consumed(robot, state) =~= seq![(cancel, down)]);
    } else if is_raised(state, trigger) {
        assert(consumed(robot, state) =~= seq![(trigger, down)]);
    }
}

/// Whether `name` is a parameter that every request has to write.
pub open spec fn is_parameter(name: Seq<char>) -> bool {
    ||| name == "request_trigger"@
    ||| name == "request_state"@
    ||| name == "request_result"@
    ||| name == "request_cancel"@
    ||| name == "request_feedback"@
    ||| name == "command_type"@
    ||| name == "acceleration"@
    ||| name == "velocity"@
    ||| name == "global_acceleration_scaling"@
    ||| name == "global_velocity_scaling"@
    ||| name == "use_execution_time"@
    ||| name == "execution_time"@
    ||| name == "use_blend_radius"@
    ||| name == "blend_radius"@
    ||| name == "use_joint_positions"@
    ||| name == "joint_positions"@
    ||| name == "use_preferred_joint_config"@
    ||| name == "preferred_joint_config"@
    ||| name == "use_payload"@
    ||| name == "payload"@
    ||| name == "baseframe_id"@
    ||| name == "faceplate_id"@
    ||| name == "goal_feature_id"@
    ||| name == "tcp_id"@
    ||| name == "root_frame_id"@
    ||| name == "force_threshold"@
    ||| name == "use_relative_pose"@
    ||| name == "relative_pose"@
    ||| name == "force_feedback"@
    ||| name == "report_waypoint_progress"@
    ||| name == "waypoints"@
}

/// A request that is read lacks nothing: every parameter is there, and the arrays hold numbers
/// wherever nothing can stand in for them. And a request that lacks nothing, and that names a
/// template, is read.
pub proof fn requests_that_are_read_are_whole(
    robot: Seq<char>,
    state: Map<Seq<char>, SpView>,
    known: bool,
)
    ensures
        unreadable_reason(robot, state, known) is None <==> {
            &&& known
            &&& forall|name: Seq<char>| #[trigger]
                is_parameter(name) ==> state.dom().contains(under(robot, name))
            &&& array_readable(state[under(robot, "joint_positions"@)])
            &&& array_readable(state[under(robot, "preferred_joint_config"@)])
            &&& array_readable(state[under(robot, "relative_pose"@)])
        },
{
    let keys = request_keys_of(robot);
    lemma_read_or_not(robot, state, keys);
    assert(keys.len() == request_suffixes().len());
    assert forall|i: int| 0 <= i < keys.len() implies #[trigger] keys[i] == under(
        robot,
        request_suffixes()[i],
    ) && is_parameter(request_suffixes()[i]) by {}
    assert(request_suffixes()[0] == "request_trigger"@ && keys[0] == under(robot, "request_trigger"@));
    assert(request_suffixes()[1] == "request_state"@ && keys[1] == under(robot, "request_state"@));
    assert(request_suffixes()[2] == "request_result"@ && keys[2] == under(robot, "request_result"@));
    assert(request_suffixes()[3] == "request_cancel"@ && keys[3] == under(robot, "request_cancel"@));
    assert(request_suffixes()[4] == "request_feedback"@ && keys[4] == under(robot, "request_feedback"@));
    assert(request_suffixes()[5] == "command_type"@ && keys[5] == under(robot, "command_type"@));
    assert(request_suffixes()[6] == "acceleration"@ && keys[6] == under(robot, "acceleration"@));
    assert(request_suffixes()[7] == "velocity"@ && keys[7] == under(robot, "velocity"@));
    assert(request_suffixes()[8] == "global_acceleration_scaling"@ && keys[8] == under(robot, "global_acceleration_scaling"@));
    assert(request_suffixes()[9] == "global_velocity_scaling"@ && keys[9] == under(robot, "global_velocity_scaling"@));
    assert(request_suffixes()[10] == "use_execution_time"@ && keys[10] == under(robot, "use_execution_time"@));
    assert(request_suffixes()[11] == "execution_time"@ && keys[11] == under(robot, "execution_time"@));
    assert(request_suffixes()[12] == "use_blend_radius"@ && keys[12] == under(robot, "use_blend_radius"@));
    assert(request_suffixes()[13] == "blend_radius"@ && keys[13] == under(robot, "blend_radius"@));
    assert(request_suffixes()[14] == "use_joint_positions"@ && keys[14] == under(robot, "use_joint_positions"@));
    assert(request_suffixes()[15] == "joint_positions"@ && keys[15] == under(robot, "joint_positions"@));
    assert(request_suffixes()[16] == "use_preferred_joint_config"@ && keys[16] == under(robot, "use_preferred_joint_config"@));
    assert(request_suffixes()[17] == "preferred_joint_config"@ && keys[17] == under(robot, "preferred_joint_config"@));
    assert(request_suffixes()[18] == "use_payload"@ && keys[18] == under(robot, "use_payload"@));
    assert(request_suffixes()[19] == "payload"@ && keys[19] == under(robot, "payload"@));
    assert(request_suffixes()[20] == "baseframe_id"@ && keys[20] == under(robot, "baseframe_id"@));
    assert(request_suffixes()[21] == "faceplate_id"@ && keys[21] == under(robot, "faceplate_id"@));
    assert(request_suffixes()[22] == "goal_feature_id"@ && keys[22] == under(robot, "goal_feature_id"@));
    assert(request_suffixes()[23] == "tcp_id"@ && keys[23] == under(robot, "tcp_id"@));
    assert(request_suffixes()[24] == "root_frame_id"@ && keys[24] == under(robot, "root_frame_id"@));
    assert(request_suffixes()[25] == "force_threshold"@ && keys[25] == under(robot, "force_threshold"@));
    assert(request_suffixes()[26] == "use_relative_pose"@ && keys[26] == under(robot, "use_relative_pose"@));
    assert(request_suffixes()[27] == "relative_pose"@ && keys[27] == under(robot, "relative_pose"@));
    assert(request_suffixes()[28] == "force_feedback"@ && keys[28] == under(robot, "force_feedback"@));
    assert(request_suffixes()[29] == "report_waypoint_progress"@ && keys[29] == under(robot, "report_waypoint_progress"@));
    assert(request_suffixes()[30] == "waypoints"@ && keys[30] == under(robot, "waypoints"@));
    if unreadable(robot, state, keys).len() == 0 {
        assert forall|i: int| 0 <= i < keys.len() implies readable(
            robot,
            state,
            #[trigger] keys[i],
        ) by {}
        assert(readable(robot, state, keys[15]));
        assert(readable(robot, state, keys[17]));
        assert(readable(robot, state, keys[27]));
        assert forall|name: Seq<char>| #[trigger] is_parameter(name) implies state.dom().contains(
            under(robot, name),
        ) by {
            lemma_parameter_has_key(robot, name);
            let i = choose|i: int| 0 <= i < keys.len() && #[trigger] keys[i] == under(robot, name);
            assert(readable(robot, state, keys[i]));
        }
    } else {
        let i = choose|i: int|
            0 <= i < keys.len() && !readable(robot, state, #[trigger] keys[i]);
        assert(is_parameter(request_suffixes()[i]));
        assert(keys[i] == under(robot, request_suffixes()[i]));
    }
}

proof fn lemma_parameter_has_key(robot: Seq<char>, name: Seq<char>)
    requires
        is_parameter(name),
    ensures
        exists|i: int|
            0 <= i < request_keys_of(robot).len() && #[trigger] request_keys_of(robot)[i] == under(
                robot,
                name,
            ),
{
    let keys = request_keys_of(robot);
    assert(keys[0] == under(robot, "request_trigger"@));
    assert(keys[1] == under(robot, "request_state"@));
    assert(keys[2] == under(robot, "request_result"@));
    assert(keys[3] == under(robot, "request_cancel"@));
    assert(keys[4] == under(robot, "request_feedback"@));
    assert(keys[5] == under(robot, "command_type"@));
    assert(keys[6] == under(robot, "acceleration"@));
    assert(keys[7] == under(robot, "velocity"@));
    assert(keys[8] == under(robot, "global_acceleration_scaling"@));
    assert(keys[9] == under(robot, "global_velocity_scaling"@));
    assert(keys[10] == under(robot, "use_execution_time"@));
    assert(keys[11] == under(robot, "execution_time"@));
    assert(keys[12] == under(robot, "use_blend_radius"@));
    assert(keys[13] == under(robot, "blend_radius"@));
    assert(keys[14] == under(robot, "use_joint_positions"@));
    assert(keys[15] == under(robot, "joint_positions"@));
    assert(keys[16] == under(robot, "use_preferred_joint_config"@));
    assert(keys[17] == under(robot, "preferred_joint_config"@));
    assert(keys[18] == under(robot, "use_payload"@));
    assert(keys[19] == under(robot, "payload"@));
    assert(keys[20] == under(robot, "baseframe_id"@));
    assert(keys[21] == under(robot, "faceplate_id"@));
    assert(keys[22] == under(robot, "goal_feature_id"@));
    assert(keys[23] == under(robot, "tcp_id"@));
    assert(keys[24] == under(robot, "root_frame_id"@));
    assert(keys[25] == under(robot, "force_threshold"@));
    assert(keys[26] == under(robot, "use_relative_pose"@));
    assert(keys[27] == under(robot, "relative_pose"@));
    assert(keys[28] == under(robot, "force_feedback"@));
    assert(keys[29] == under(robot, "report_waypoint_progress"@));
    assert(keys[30] == under(robot, "waypoints"@));
}

proof fn lemma_read_or_not(robot: Seq<char>, state: Map<Seq<char>, SpView>, keys: Seq<Seq<char>>)
    ensures
        unreadable(robot, state, keys).len() == 0 <==> forall|i: int|
            0 <= i < keys.len() ==> readable(robot, state, #[trigger] keys[i]),
    decreases keys.len(),
{
    if keys.len() > 0 {
        let rest = keys.drop_last();
        lemma_read_or_not(robot, state, rest);
        if unreadable(robot, state, keys).len() == 0 {
            assert forall|i: int| 0 <= i < keys.len() implies readable(
                robot,
                state,
                #[trigger] keys[i],
            ) by {
                if i < rest.len() {
                    assert(rest[i] == keys[i]);
                }
            }
        } else if unreadable(robot, state, rest).len() == 0 {
            assert(keys[keys.len() - 1] == keys.last());
        } else {
            let i = choose|i: int|
                0 <= i < rest.len() && !readable(robot, state, #[trigger] rest[i]);
            assert(keys[i] == rest[i]);
        }
    }
}

/// A tick hands out the running goal's cancel where a cancel is raised, once, and has a request to
/// read exactly where one is triggered at `initial`. It leaves the rest of the driver alone.
pub proof fn ticks_act_on_raised_flags<G, F, S>(
    robot: Seq<char>,
    state: Map<Seq<char>, SpView>,
    before: DriverState<G, F, S>,
    r: Tick<S>,
    after: DriverState<G, F, S>,
)
    requires
        begins_tick(robot, state, before, r, after),
    ensures
        is_raised(state, under(robot, "request_cancel"@)) ==> r.cancel == before.cancel_sender
            && after.cancel_sender is None,
        !is_raised(state, under(robot, "request_cancel"@)) ==> r.cancel is None
            && after.cancel_sender == before.cancel_sender,
        r.has_request <==> is_raised(state, under(robot, "request_trigger"@))
            && state.dom().contains(under(robot, "request_state"@)) && state[under(
            robot,
            "request_state"@,
        )] == SpView::Text(Some("initial"@)),
        r.writes@.len() == (if is_raised(state, under(robot, "request_cancel"@)) {
            1int
        } else {
            0int
        }) + (if is_raised(state, under(robot, "request_trigger"@)) {
            1int
        } else {
            0int
        }),
        after.goal_id == before.goal_id,
        after.goal_sender == before.goal_sender,
        after.resume_sender == before.resume_sender,
        after.motion_paused == before.motion_paused,
{
    raised_flags_are_taken_down(robot, state);
    assert(written(r.writes@).len() == r.writes@.len());
}

/// A goal that is taken in can be cancelled and resumed by its own senders, is the command it was,
/// and has reached nothing yet; and its request is said to execute.
pub proof fn accepted_goals_execute<G, F, S>(
    robot: Seq<char>,
    before: DriverState<G, F, S>,
    command: RobotCommand,
    cancel_sender: S,
    resume_sender: S,
    r: Write,
    after: DriverState<G, F, S>,
)
    requires
        accepts(robot, before, command, cancel_sender, resume_sender, r, after),
    ensures
        r.key@ == under(robot, "request_state"@),
        r.value@ == SpView::Text(Some("executing"@)),
        after.cancel_sender == Some(cancel_sender),
        after.resume_sender == Some(resume_sender),
        after.waypoints_completed == 0,
        after.active_command matches Some(c) && c.command_type@ == command.command_type@
            && c.joint_positions@ == command.joint_positions@ && c.target_in_base@
            == command.target_in_base@ && c.waypoints@.len() == command.waypoints@.len(),
        after.goal_id == before.goal_id,
        after.goal_sender == before.goal_sender,
        after.motion_paused == before.motion_paused,
{
    if let Some(c) = after.active_command {
        assert(c@.waypoints.len() == c.waypoints@.len());
        assert(command@.waypoints.len() == command.waypoints@.len());
    }
}

/// The failure counters are those under their own keys, the total first.
pub proof fn counters_are_read_off_their_keys(
    robot: Seq<char>,
    counters: Map<Seq<char>, SpView>,
    r: (i64, i64),
    n: i64,
)
    requires
        are_counters(robot, counters, r),
    ensures
        counters.dom().contains(under(robot, "total_fail_counter"@)) && counters[under(
            robot,
            "total_fail_counter"@,
        )] == SpView::Int64(Some(n)) ==> r.0 == n,
        counters.dom().contains(under(robot, "subsequent_fail_counter"@)) && counters[under(
            robot,
            "subsequent_fail_counter"@,
        )] == SpView::Int64(Some(n)) ==> r.1 == n,
        !counters.dom().contains(under(robot, "total_fail_counter"@)) ==> r.0 == 0,
        !counters.dom().contains(under(robot, "subsequent_fail_counter"@)) ==> r.1 == 0,
{
}

/// A request is looked up, frame by frame in their order, before anything else; then it is planned
/// where it asks for the planner, rendered where it does not, and failed where its waypoints do not
/// decode. What is planned or rendered is the command that its request asked for.
pub proof fn requests_are_taken_in_step_by_step(
    robot: Seq<char>,
    state: Map<Seq<char>, SpView>,
    intake: Intake,
    request: MotionRequest,
    step: Step,
)
    requires
        intake.request() == request@,
        request@ == parameters(robot, state),
        is_next(intake, step),
    ensures
        intake.answered().len() < lookups_of(request@).len() ==> step is LookUp,
        step matches Step::LookUp { parent, child } ==> intake.answered().len() < lookups_of(
            request@,
        ).len() && lookups_of(request@)[intake.answered().len() as int].0 == parent@ && lookups_of(
            request@,
        )[intake.answered().len() as int].1 == child@,
        intake.answered().len() >= lookups_of(request@).len() ==> {
            &&& request.waypoints is None <==> step is Fail
            &&& request.waypoints is Some && request.command_type@ == "optimal_trajectory"@ <==>
                step is Plan
            &&& request.waypoints is Some && request.command_type@ != "optimal_trajectory"@ <==>
                step is Render
        },
        step matches Step::Plan(command) ==> is_array_at(
            state,
            under(robot, "joint_positions"@),
            safe_home(),
            command.joint_positions@,
        ) && is_text_at(
            state,
            under(robot, "command_type"@),
            "UNKNOWN"@,
            command.command_type@,
        ) && is_number_at(state, under(robot, "velocity"@), command.velocity),
        step matches Step::Render(command) ==> is_array_at(
            state,
            under(robot, "joint_positions"@),
            safe_home(),
            command.joint_positions@,
        ) && is_text_at(
            state,
            under(robot, "command_type"@),
            "UNKNOWN"@,
            command.command_type@,
        ) && is_number_at(state, under(robot, "velocity"@), command.velocity),
{
    match step {
        Step::Plan(command) => {
            commands_say_what_was_asked(robot, state, request, intake.answered(), command);
        },
        Step::Render(command) => {
            commands_say_what_was_asked(robot, state, request, intake.answered(), command);
        },
        _ => {},
    }
}

/// What a script says on its way is published as it was said, under the key for feedback.
pub proof fn feedback_is_published_as_it_was_said(robot: Seq<char>, line: Seq<char>, write: Write)
    requires
        is_feedback(robot, line, write),
    ensures
        write.key@ == under(robot, "request_feedback"@),
        write.value@ == SpView::Text(Some(line)),
{
}

/// An array can be read as joint values exactly where a default could take the place of whatever in
/// it is no number: among the first six. What is no array is read as its default.
pub proof fn arrays_are_read_where_defaults_suffice(value: SpView)
    ensures
        value matches SpView::Array(Some(a)) ==> (array_readable(value) <==> forall|i: int|
            0 <= i < a.len() && !((#[trigger] a[i])@ matches SpView::Float64(Some(d))) ==> i < 6),
        !(value matches SpView::Array(Some(a))) ==> array_readable(value),
{
}

} // verus!
