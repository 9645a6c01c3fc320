//! The dashboard interface: from the `{robot}_dashboard_*` keys to a command, and from its
//! reply back to the keys.
//!
//! Mirrors the handshake of a motion request: write `{robot}_dashboard_command` (and
//! `{robot}_dashboard_command_arg` when the command takes one), then raise
//! `{robot}_dashboard_request_trigger`. `{robot}_dashboard_request_state` walks
//! `initial -> executing -> succeeded | failed`, and `{robot}_dashboard_request_result` carries
//! the controller's reply.

use crate::command_server::request_suffixes;
use crate::dashboard_line_laws::{
    is_spelled_out, lines_are_spelled_after_their_names, spaced,
};
use crate::dashboard_types::{command_name, DashboardCommand, DashboardReply};
use crate::sp_value::{
    bool_at, key, key_of, keys_are_distinct, state_bool_or, state_string_or, text_at, written, SpValue, SpView, State,
    Write,
};
use crate::text::{same, trimmed, views};
use vstd::prelude::*;

verus! {

/// Poll period for the dashboard request keys, in milliseconds.
///
/// Deliberately much slower than the motion loop: dashboard commands are operator-scale
/// events, not a control signal.
pub const DASHBOARD_POLL_INTERVAL_MS: u64 = 50;

/// Ceiling on one dashboard command, including a reconnect underneath, in milliseconds.
pub const DASHBOARD_COMMAND_TIMEOUT_MS: u64 = 10000;

/// The one key an idle tick reads.
pub fn trigger_key(robot: &str) -> (r: String)
    ensures
        r@ == key_of(robot@, "dashboard_request_trigger"@),
{
    key(robot, "dashboard_request_trigger")
}

/// The keys of a dashboard request.
pub fn dashboard_request_keys(robot: &str) -> (r: Vec<String>)
    ensures
        views(r@) == seq![
            key_of(robot@, "dashboard_request_trigger"@),
            key_of(robot@, "dashboard_request_state"@),
            key_of(robot@, "dashboard_command"@),
            key_of(robot@, "dashboard_command_arg"@),
        ],
{
    let mut r: Vec<String> = Vec::new();
    r.push(key(robot, "dashboard_request_trigger"));
    r.push(key(robot, "dashboard_request_state"));
    r.push(key(robot, "dashboard_command"));
    r.push(key(robot, "dashboard_command_arg"));
    assert(views(r@) =~= seq![
        key_of(robot@, "dashboard_request_trigger"@),
        key_of(robot@, "dashboard_request_state"@),
        key_of(robot@, "dashboard_command"@),
        key_of(robot@, "dashboard_command_arg"@),
    ]);
    r
}

/// Whether a dashboard request is triggered.
pub fn is_triggered(robot: &str, flags: &State) -> (r: bool)
    ensures
        r == bool_at(flags@, key_of(robot@, "dashboard_request_trigger"@), false),
{
    state_bool_or(flags, key(robot, "dashboard_request_trigger").as_str(), false)
}

/// Consume the edge, so a command cannot be run twice if the work outlasts a tick.
pub fn consume_trigger(robot: &str) -> (r: Write)
    ensures
        r@ == (key_of(robot@, "dashboard_request_trigger"@), SpView::Bool(Some(false))),
{
    Write { key: key(robot, "dashboard_request_trigger"), value: SpValue::Bool(Some(false)) }
}

/// Whether a dashboard request stands at `initial`, which is where it has to be picked up.
pub open spec fn at_initial(robot: Seq<char>, state: Map<Seq<char>, SpView>) -> bool {
    text_at(state, key_of(robot, "dashboard_request_state"@), "UNKNOWN"@) == "initial"@
}

/// The name of the command a request asks for, as it is compared: trimmed and in lower case.
pub open spec fn asked_name(robot: Seq<char>, state: Map<Seq<char>, SpView>) -> Seq<char> {
    command_name(text_at(state, key_of(robot, "dashboard_command"@), "UNKNOWN"@))
}

/// The argument of a request, trimmed.
pub open spec fn asked_arg(robot: Seq<char>, state: Map<Seq<char>, SpView>) -> Seq<char> {
    trimmed(text_at(state, key_of(robot, "dashboard_command_arg"@), ""@))
}

/// Whether a dashboard request is read as that: not at all, as a command, or as a refusal.
pub open spec fn is_read_as(
    robot: Seq<char>,
    state: Map<Seq<char>, SpView>,
    r: Option<Result<DashboardCommand, String>>,
) -> bool {
    match r {
        None => !at_initial(robot, state),
        Some(Ok(command)) => {
            &&& at_initial(robot, state)
            &&& DashboardCommand::refusal(
                asked_name(robot, state),
                asked_arg(robot, state),
            ) is None
            &&& command.asked_by(asked_name(robot, state), asked_arg(robot, state))
        },
        Some(Err(reason)) => {
            &&& at_initial(robot, state)
            &&& DashboardCommand::refusal(
                asked_name(robot, state),
                asked_arg(robot, state),
            ) == Some(reason@)
        },
    }
}

/// What a triggered request asks for. `None` where it does not stand at `initial` and is left
/// alone; `Err` where it asks for no command, with the reason to report.
pub fn read_command(robot: &str, state: &State) -> (r: Option<Result<DashboardCommand, String>>)
    ensures
        is_read_as(robot@, state@, r),
{
    let stage = state_string_or(state, key(robot, "dashboard_request_state").as_str(), "UNKNOWN");
    if !same(stage.as_str(), "initial") {
        return None;
    }
    let name = state_string_or(state, key(robot, "dashboard_command").as_str(), "UNKNOWN");
    let arg = state_string_or(state, key(robot, "dashboard_command_arg").as_str(), "");
    Some(DashboardCommand::parse(name.as_str(), arg.as_str()))
}

/// Tell the caller that the request executes.
pub fn executing(robot: &str) -> (r: Write)
    ensures
        r@ == (key_of(robot@, "dashboard_request_state"@), SpView::Text(Some("executing"@))),
{
    Write { key: key(robot, "dashboard_request_state"), value: SpValue::text("executing") }
}

/// What became of a command that was handed to the dashboard connection.
#[derive(Debug)]
pub enum Answer {
    /// The connection replied.
    Reply(DashboardReply),
    /// The request asks for no command.
    Refused(String),
    /// There is no connection to hand it to.
    NotRunning,
    /// The connection went away with the command.
    Dropped,
    /// No reply came in time.
    TimedOut,
}

impl Answer {
    /// Whether the command took effect.
    pub open spec fn success(self) -> bool {
        self matches Answer::Reply(reply) && reply.success
    }

    /// What the caller is told.
    pub open spec fn text(self) -> Seq<char> {
        match self {
            Answer::Reply(reply) => reply.response@,
            Answer::Refused(reason) => reason@,
            Answer::NotRunning => "dashboard task is not running"@,
            Answer::Dropped => "dashboard task dropped the request"@,
            Answer::TimedOut => "timed out waiting for the controller"@,
        }
    }
}

/// The result and the terminal state of a dashboard request.
pub open spec fn finish_writes(robot: Seq<char>, success: bool, text: Seq<char>) -> Seq<
    (Seq<char>, SpView),
> {
    seq![
        (key_of(robot, "dashboard_request_result"@), SpView::Text(Some(text))),
        (
            key_of(robot, "dashboard_request_state"@),
            SpView::Text(
                Some(
                    if success {
                        "succeeded"@
                    } else {
                        "failed"@
                    },
                ),
            ),
        ),
    ]
}

/// Write the result and the terminal state of a dashboard request.
pub fn finish(robot: &str, answer: Answer) -> (r: Vec<Write>)
    ensures
        written(r@) == finish_writes(robot@, answer.success(), answer.text()),
{
    let (success, text) = match answer {
        Answer::Reply(reply) => (reply.success, reply.response),
        Answer::Refused(reason) => (false, reason),
        Answer::NotRunning => (false, "dashboard task is not running".to_owned()),
        Answer::Dropped => (false, "dashboard task dropped the request".to_owned()),
        Answer::TimedOut => (false, "timed out waiting for the controller".to_owned()),
    };
    let mut r: Vec<Write> = Vec::new();
    r.push(Write { key: key(robot, "dashboard_request_result"), value: SpValue::text(text.as_str()) });
    let state = if success {
        SpValue::text("succeeded")
    } else {
        SpValue::text("failed")
    };
    r.push(Write { key: key(robot, "dashboard_request_state"), value: state });
    assert(written(r@) =~= finish_writes(robot@, answer.success(), answer.text()));
    r
}

/// Whatever became of a command, the request ends at `succeeded` or at `failed`, and at
/// `succeeded` only where the controller's reply was a success.
pub proof fn dashboard_requests_end(robot: Seq<char>, answer: Answer)
    ensures
        ({
            let w = finish_writes(robot, answer.success(), answer.text());
            let last = w.last();
            &&& last.0 == key_of(robot, "dashboard_request_state"@)
            &&& last.1 == SpView::Text(
                Some(
                    if answer.success() {
                        "succeeded"@
                    } else {
                        "failed"@
                    },
                ),
            )
            &&& answer.success() ==> answer is Reply
        }),
{
}

/// The suffixes of the keys of a dashboard request and of its answer.
pub open spec fn dashboard_suffixes() -> Seq<Seq<char>> {
    seq![
        "dashboard_request_trigger"@,
        "dashboard_request_state"@,
        "dashboard_command"@,
        "dashboard_command_arg"@,
        "dashboard_request_result"@,
    ]
}

/// Dashboard requests have keys of their own: none of them is a key of a motion request, so
/// neither handshake can disturb the other.
pub proof fn dashboard_keys_are_their_own(robot: Seq<char>, i: int, j: int)
    requires
        0 <= i < request_suffixes().len(),
        0 <= j < dashboard_suffixes().len(),
    ensures
        key_of(robot, request_suffixes()[i]) != key_of(robot, dashboard_suffixes()[j]),
{
    reveal_strlit("dashboard_request_trigger");
    reveal_strlit("dashboard_request_state");
    reveal_strlit("dashboard_command");
    reveal_strlit("dashboard_command_arg");
    reveal_strlit("dashboard_request_result");
    reveal_strlit("request_trigger");
    reveal_strlit("request_state");
    reveal_strlit("request_result");
    reveal_strlit("request_cancel");
    reveal_strlit("request_feedback");
    reveal_strlit("command_type");
    reveal_strlit("acceleration");
    reveal_strlit("velocity");
    reveal_strlit("global_acceleration_scaling");
    reveal_strlit("global_velocity_scaling");
    reveal_strlit("use_execution_time");
    reveal_strlit("execution_time");
    reveal_strlit("use_blend_radius");
    reveal_strlit("blend_radius");
    reveal_strlit("use_joint_positions");
    reveal_strlit("joint_positions");
    reveal_strlit("use_preferred_joint_config");
    reveal_strlit("preferred_joint_config");
    reveal_strlit("use_payload");
    reveal_strlit("payload");
    reveal_strlit("baseframe_id");
    reveal_strlit("faceplate_id");
    reveal_strlit("goal_feature_id");
    reveal_strlit("tcp_id");
    reveal_strlit("root_frame_id");
    reveal_strlit("force_threshold");
    reveal_strlit("use_relative_pose");
    reveal_strlit("relative_pose");
    reveal_strlit("force_feedback");
    reveal_strlit("report_waypoint_progress");
    reveal_strlit("waypoints");
    assert(dashboard_suffixes()[j][0] == 'd');
    assert(request_suffixes()[i][0] != 'd');
    keys_are_distinct(robot, request_suffixes()[i], dashboard_suffixes()[j]);
}

/// A dashboard request is read off its own keys: the command off the one, the argument off the
/// other, and only where its state is `initial`. What they hold is what is asked for, without the
/// white space around it and whatever the letters of the command.
pub proof fn dashboard_requests_are_read_off_their_keys(
    robot: Seq<char>,
    state: Map<Seq<char>, SpView>,
    name: Seq<char>,
    arg: Seq<char>,
)
    ensures
        at_initial(robot, state) <==> {
            let key = robot + "_"@ + "dashboard_request_state"@;
            state.dom().contains(key) && state[key] == SpView::Text(Some("initial"@))
        },
        ({
            let key = robot + "_"@ + "dashboard_command"@;
            state.dom().contains(key) && state[key] == SpView::Text(Some(name))
        }) ==> asked_name(robot, state) == command_name(name),
        ({
            let key = robot + "_"@ + "dashboard_command_arg"@;
            state.dom().contains(key) && state[key] == SpView::Text(Some(arg))
        }) ==> asked_arg(robot, state) == trimmed(arg),
        !state.dom().contains(robot + "_"@ + "dashboard_command_arg"@) ==> asked_arg(
            robot,
            state,
        ).len() == 0,
{
    reveal_strlit("UNKNOWN");
    reveal_strlit("initial");
    reveal_strlit("");
    assert("UNKNOWN"@[0] != "initial"@[0]);
}

/// What a dashboard request ends with is what became of its command: what the controller said
/// where it replied, and why it was never asked otherwise. It succeeded exactly where the
/// controller's reply did.
pub proof fn dashboard_results_are_what_was_said(robot: Seq<char>, answer: Answer)
    ensures
        ({
            let w = finish_writes(robot, answer.success(), answer.text());
            &&& w.len() == 2
            &&& w[0].0 == robot + "_"@ + "dashboard_request_result"@
            &&& w[1].0 == robot + "_"@ + "dashboard_request_state"@
            &&& match answer {
                Answer::Reply(reply) => {
                    &&& w[0].1 == SpView::Text(Some(reply.response@))
                    &&& reply.success ==> w[1].1 == SpView::Text(Some("succeeded"@))
                    &&& !reply.success ==> w[1].1 == SpView::Text(Some("failed"@))
                },
                Answer::Refused(reason) => w[0].1 == SpView::Text(Some(reason@)) && w[1].1
                    == SpView::Text(Some("failed"@)),
                _ => w[1].1 == SpView::Text(Some("failed"@)),
            }
        }),
{
}

/// A dashboard request is read only at `initial`; and then as the command that its keys name, or as
/// a refusal. What it is read as is what its line spells.
pub proof fn dashboard_requests_are_carried_out_as_asked(
    robot: Seq<char>,
    state: Map<Seq<char>, SpView>,
    r: Option<Result<DashboardCommand, String>>,
    name: Seq<char>,
)
    requires
        is_read_as(robot, state, r),
        state.dom().contains(robot + "_"@ + "dashboard_command"@),
        state[robot + "_"@ + "dashboard_command"@] == SpView::Text(Some(name)),
        is_spelled_out(command_name(name)),
    ensures
        r is Some <==> at_initial(robot, state),
        r matches Some(Ok(command)) ==> command.line() == spaced(command_name(name)),
        r matches Some(Err(reason)) ==> DashboardCommand::refusal(
            command_name(name),
            asked_arg(robot, state),
        ) == Some(reason@),
{
    dashboard_requests_are_read_off_their_keys(robot, state, name, Seq::empty());
    if let Some(Ok(command)) = r {
        lines_are_spelled_after_their_names(
            command,
            command_name(name),
            asked_arg(robot, state),
        );
    }
}

} // verus!
