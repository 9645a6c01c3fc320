//! The client side of the Dashboard Server: what is said on the socket, and what the replies
//! mean for the driver.
//!
//! Most commands are one line out and one line back. Three take more than one round trip -
//! pausing, resuming, and clearing a protective stop - and are carried through by a
//! [`Conversation`].

use crate::dashboard_types::{
    DashboardCommand, DashboardIdentity, DashboardReply, DashboardStatus, DashboardValue,
    OperationalMode, ProgramState, SafetyMode,
};
use crate::driver_state::{safety_mode_name, DriverState};
use crate::text::{
    contains, contains_text, decimal, has_prefix, join2, join3, number, trim, trimmed,
};
use vstd::prelude::*;

verus! {

/// How long the controller gets to send its greeting, in milliseconds.
///
/// Every *command* takes its own deadline from [`DashboardCommand::reply_timeout`] instead.
pub const GREETING_TIMEOUT_MS: u64 = 2000;

/// How often the idle socket is exercised to notice a dead connection and to
/// refresh the status the realtime stream cannot supply, in milliseconds.
pub const KEEPALIVE_MS: u64 = 2000;

/// Pause between a dropped dashboard socket and the next connect attempt, in milliseconds.
pub const RECONNECT_DELAY_MS: u64 = 1000;

/// PolyScope refuses to release a protective stop while the robot is still settling. This is
/// the documented minimum wait after the stop is raised, in milliseconds.
pub const PROTECTIVE_STOP_SETTLE_MS: u64 = 500;

/// How long to wait for the safety mode to actually return to normal after the controller
/// accepts `unlock protective stop`, in milliseconds.
pub const PROTECTIVE_STOP_RELEASE_TIMEOUT_MS: u64 = 3000;

/// Gap between looks at the safety mode while a protective stop releases, in milliseconds.
pub const RELEASE_POLL_INTERVAL_MS: u64 = 50;

/// How long to wait for the program state to read `PAUSED` after `pause`, in milliseconds.
pub const PAUSE_CONFIRM_TIMEOUT_MS: u64 = 1000;

/// How long to wait for a program to be running again after `play`, in milliseconds.
///
/// Short on purpose: when `play` cannot resume an injected script it does not fail slowly, it
/// simply never starts one, and every millisecond spent here is a millisecond the robot stays
/// still before the re-issue fallback takes over.
pub const RESUME_CONFIRM_TIMEOUT_MS: u64 = 500;

/// Gap between polls while confirming a pause or a resume, in milliseconds.
pub const CONFIRM_POLL_INTERVAL_MS: u64 = 100;

/// What reading a line off the socket came to.
#[derive(Debug)]
pub enum LineRead {
    /// The other side closed the connection.
    Closed,
    /// A line, its end included.
    Line(String),
    /// The socket failed.
    Failed(String),
    /// Nothing came in time.
    TimedOut,
}

/// What the banner of a Dashboard Server says.
pub open spec fn is_greeting(line: Seq<char>) -> bool {
    contains_text(trimmed(line), "Universal Robots Dashboard Server"@)
}

/// Whether a connection is greeted, or why it is given up.
pub open spec fn is_greeted(read: LineRead, r: Result<String, String>) -> bool {
    match read {
        LineRead::Closed => r matches Err(e) && e@ == "connection closed before greeting"@,
        LineRead::Line(line) => if is_greeting(line@) {
            r matches Ok(greeting) && greeting@ == trimmed(line@)
        } else {
            r matches Err(e) && e@ == "unexpected greeting: "@ + trimmed(line@)
        },
        LineRead::Failed(error) => r matches Err(e) && e@ == error@,
        LineRead::TimedOut => r matches Err(e) && e@ == "timed out waiting for greeting"@,
    }
}

/// Validate the banner the dashboard server sends on connect.
pub fn check_greeting(read: LineRead) -> (r: Result<String, String>)
    ensures
        is_greeted(read, r),
{
    match read {
        LineRead::Closed => Err("connection closed before greeting".to_owned()),
        LineRead::Line(line) => {
            let greeting = trim(line.as_str());
            if contains(greeting.as_str(), "Universal Robots Dashboard Server") {
                Ok(greeting)
            } else {
                Err(join2("unexpected greeting: ", greeting.as_str()))
            }
        },
        LineRead::Failed(error) => Err(error),
        LineRead::TimedOut => Err("timed out waiting for greeting".to_owned()),
    }
}

/// Whether that is what goes out on the socket for a command.
pub open spec fn is_line_of(command: DashboardCommand, r: Seq<char>) -> bool {
    r == command.line() + "\n"@
}

/// What goes out on the socket for a command.
pub fn command_line(command: &DashboardCommand) -> (r: String)
    ensures
        is_line_of(*command, r@),
{
    join2(command.wire().as_str(), "\n")
}

/// Whether `reply` is what the controller's answer `line` to `command` amounts to.
///
/// A query has no fixed reply to match against - the reply is the answer. An action took
/// effect where its acknowledgement stands in the reply.
pub open spec fn is_reply(command: DashboardCommand, line: Seq<char>, reply: DashboardReply) -> bool {
    &&& reply.response@ == trimmed(line)
    &&& command.answered(trimmed(line), reply.value)
    &&& reply.success == (match command.acknowledgement() {
        None => true,
        Some(expected) => contains_text(trimmed(line), expected),
    })
}

/// Match the controller's answer to a command.
///
/// `success: false` means the controller answered but refused the command - a normal outcome
/// (wrong mode, not in remote control) that must not drop the connection.
pub fn reply_to(command: &DashboardCommand, line: &str) -> (r: DashboardReply)
    ensures
        is_reply(*command, line@, r),
{
    let response = trim(line);
    let value = command.parse_reply(response.as_str());
    match command.expect() {
        None => DashboardReply::ok(response.as_str()).with_value(value),
        Some(expected) => {
            let success = contains(response.as_str(), expected);
            DashboardReply { success, response, value }
        },
    }
}

/// What a controller that does not answer a command in time is reported as.
pub open spec fn timeout_message(command: DashboardCommand) -> Seq<char> {
    "timed out after "@ + decimal(command.seconds_to_answer() as nat)
        + "s waiting for reply to '"@ + command.line() + "'"@
}

/// What comes of waiting for the reply to a command.
pub open spec fn is_received(
    command: DashboardCommand,
    read: LineRead,
    r: Result<DashboardReply, String>,
) -> bool {
    match read {
        LineRead::Closed => r matches Err(e) && e@ == "connection closed by controller"@,
        LineRead::Line(line) => r matches Ok(reply) && is_reply(command, line@, reply),
        LineRead::Failed(error) => r matches Err(e) && e@ == error@,
        LineRead::TimedOut => r matches Err(e) && e@ == timeout_message(command),
    }
}

/// Read the answer to a command. `Err` means the socket is unusable and has to be reconnected.
pub fn receive_reply(command: &DashboardCommand, read: LineRead) -> (r: Result<
    DashboardReply,
    String,
>)
    ensures
        is_received(*command, read, r),
{
    match read {
        LineRead::Closed => Err("connection closed by controller".to_owned()),
        LineRead::Line(line) => Ok(reply_to(command, line.as_str())),
        LineRead::Failed(error) => Err(error),
        LineRead::TimedOut => {
            let mut e = join3(
                "timed out after ",
                number(command.reply_seconds()).as_str(),
                "s waiting for reply to '",
            );
            e.append(command.wire().as_str());
            e.append("'");
            Err(e)
        },
    }
}

/// Whether those are the questions a status is made of, in their order.
pub open spec fn are_status_queries(r: Seq<DashboardCommand>) -> bool {
    r == seq![
        DashboardCommand::IsInRemoteControl,
        DashboardCommand::ProgramState,
        DashboardCommand::IsProgramRunning,
        DashboardCommand::GetOperationalMode,
    ]
}

/// The queries whose replies make up a [`DashboardStatus`], in the order [`status_from`] takes
/// them.
pub fn status_queries() -> (r: [DashboardCommand; 4])
    ensures
        are_status_queries(r@),
{
    let r = [
        DashboardCommand::IsInRemoteControl,
        DashboardCommand::ProgramState,
        DashboardCommand::IsProgramRunning,
        DashboardCommand::GetOperationalMode,
    ];
    assert(r@ =~= seq![
        DashboardCommand::IsInRemoteControl,
        DashboardCommand::ProgramState,
        DashboardCommand::IsProgramRunning,
        DashboardCommand::GetOperationalMode,
    ]);
    r
}

/// The flag a reply carries; one without a flag counts as `false`.
pub open spec fn flag_in(reply: DashboardReply) -> bool {
    reply.value == Some(DashboardValue::Flag(true))
}

/// The program state a reply carries; one without a program state counts as unknown.
pub open spec fn program_state_in(reply: DashboardReply) -> ProgramState {
    match reply.value {
        Some(DashboardValue::ProgramState { state, .. }) => state,
        _ => ProgramState::Unknown,
    }
}

fn read_flag(reply: &DashboardReply) -> (r: bool)
    ensures
        r == flag_in(*reply),
{
    match &reply.value {
        Some(v) => match v.as_flag() {
            Some(b) => b,
            None => false,
        },
        None => false,
    }
}

/// Read the program state, discarding anything that is not a program state.
pub fn program_state(reply: &DashboardReply) -> (r: ProgramState)
    ensures
        r == program_state_in(*reply),
{
    match &reply.value {
        Some(DashboardValue::ProgramState { state, .. }) => *state,
        _ => ProgramState::Unknown,
    }
}

/// Whether a status is what the replies to its four questions say.
pub open spec fn is_status(
    remote: DashboardReply,
    state: DashboardReply,
    running: DashboardReply,
    operational: DashboardReply,
    r: DashboardStatus,
) -> bool {
    &&& r.remote_control == flag_in(remote)
    &&& r.program_state == program_state_in(state)
    &&& r.program_name == (match state.value {
        Some(DashboardValue::ProgramState { program, .. }) => program,
        _ => None,
    })
    &&& r.program_running == flag_in(running)
    &&& r.operational_mode == (match operational.value {
        Some(DashboardValue::OperationalMode(mode)) => mode,
        _ => OperationalMode::Unknown,
    })
}

/// The status that the replies to [`status_queries`] report.
pub fn status_from(
    remote: DashboardReply,
    state: DashboardReply,
    running: DashboardReply,
    operational: DashboardReply,
) -> (r: DashboardStatus)
    ensures
        is_status(remote, state, running, operational, r),
{
    let remote_control = read_flag(&remote);
    let program_running = read_flag(&running);
    let (program_state, program_name) = match state.value {
        Some(DashboardValue::ProgramState { state, program }) => (state, program),
        _ => (ProgramState::Unknown, None),
    };
    let operational_mode = match operational.value {
        Some(DashboardValue::OperationalMode(mode)) => mode,
        _ => OperationalMode::Unknown,
    };
    DashboardStatus {
        remote_control,
        program_state,
        program_name,
        program_running,
        operational_mode,
    }
}

/// Whether those are the questions an identity is made of, in their order.
pub open spec fn are_identity_queries(r: Seq<DashboardCommand>) -> bool {
    r == seq![
        DashboardCommand::GetRobotModel,
        DashboardCommand::GetSerialNumber,
        DashboardCommand::PolyscopeVersion,
    ]
}

/// The queries whose replies make up a [`DashboardIdentity`], in the order [`identity_from`]
/// takes them.
///
/// `PolyscopeVersion` rather than `version`: the latter is PolyScope 5.13.0 and later only,
/// and this has to work on every controller the driver supports.
pub fn identity_queries() -> (r: [DashboardCommand; 3])
    ensures
        are_identity_queries(r@),
{
    let r = [
        DashboardCommand::GetRobotModel,
        DashboardCommand::GetSerialNumber,
        DashboardCommand::PolyscopeVersion,
    ];
    assert(r@ =~= seq![
        DashboardCommand::GetRobotModel,
        DashboardCommand::GetSerialNumber,
        DashboardCommand::PolyscopeVersion,
    ]);
    r
}

/// Whether an identity is what the replies to its three questions say.
pub open spec fn is_identity(
    model: DashboardReply,
    serial: DashboardReply,
    version: DashboardReply,
    r: DashboardIdentity,
) -> bool {
    &&& r.robot_model == model.response
    &&& r.serial_number == serial.response
    &&& r.polyscope_version == version.response
}

/// The identity that the replies to [`identity_queries`] report.
pub fn identity_from(
    model: DashboardReply,
    serial: DashboardReply,
    version: DashboardReply,
) -> (r: DashboardIdentity)
    ensures
        is_identity(model, serial, version, r),
{
    DashboardIdentity {
        robot_model: model.response,
        serial_number: serial.response,
        polyscope_version: version.response,
    }
}

/// What the dashboard connection makes of the driver state.
pub open spec fn is_up<G, F, S>(
    before: DriverState<G, F, S>,
    identity: DashboardIdentity,
    after: DriverState<G, F, S>,
) -> bool {
    after == (DriverState {
        identity: Some(identity),
        dashboard_connected: true,
        ..before
    })
}

/// The controller has said who it is: the connection is up.
pub fn connection_up<G, F, S>(driver: &mut DriverState<G, F, S>, identity: DashboardIdentity)
    ensures
        is_up(*old(driver), identity, *final(driver)),
{
    driver.identity = Some(identity);
    driver.dashboard_connected = true;
}

/// What losing the dashboard connection makes of the driver state.
pub open spec fn is_down<G, F, S>(
    before: DriverState<G, F, S>,
    after: DriverState<G, F, S>,
) -> bool {
    after == (DriverState {
        dashboard_connected: false,
        remote_control: false,
        identity: None,
        ..before
    })
}

/// The connection is gone, and with it what only the dashboard can say of the controller.
pub fn connection_down<G, F, S>(driver: &mut DriverState<G, F, S>)
    ensures
        is_down(*old(driver), *final(driver)),
{
    driver.dashboard_connected = false;
    driver.remote_control = false;
    driver.identity = None;
}

/// What a status makes of the driver state.
pub open spec fn shows_status<G, F, S>(
    before: DriverState<G, F, S>,
    status: DashboardStatus,
    after: DriverState<G, F, S>,
) -> bool {
    &&& after.remote_control == status.remote_control
    &&& after.program_state@ == status.program_state.name()
    &&& after.program_running == status.program_running
    &&& after.operational_mode@ == status.operational_mode.name()
    &&& after == (DriverState {
        remote_control: after.remote_control,
        program_state: after.program_state,
        program_running: after.program_running,
        operational_mode: after.operational_mode,
        ..before
    })
}

/// Take in what the keepalive polled.
pub fn apply_status<G, F, S>(driver: &mut DriverState<G, F, S>, status: &DashboardStatus)
    ensures
        shows_status(*old(driver), *status, *final(driver)),
{
    driver.remote_control = status.remote_control;
    driver.program_state = status.program_state.as_str().to_owned();
    driver.program_running = status.program_running;
    driver.operational_mode = status.operational_mode.as_str().to_owned();
}

/// What is added to a refusal that Local control explains.
pub open spec fn annotation(
    command: DashboardCommand,
    reply: DashboardReply,
    remote_control: bool,
) -> Seq<char> {
    if !reply.success && command.remote_only() && !remote_control {
        " (robot is in Local control)"@
    } else {
        Seq::empty()
    }
}

/// Whether a reply is another with its refusal explained.
pub open spec fn is_annotated(
    command: DashboardCommand,
    reply: DashboardReply,
    remote_control: bool,
    r: DashboardReply,
) -> bool {
    &&& r.success == reply.success
    &&& r.value == reply.value
    &&& r.response@ == reply.response@ + annotation(command, reply, remote_control)
}

/// Explain a refusal.
///
/// Local control is the single most common reason a dashboard action is refused, and "Failed
/// to execute: play" does not say so. The refusal is annotated rather than foreseen: the
/// controller's own verdict stays the one being reported.
pub fn annotate(
    command: &DashboardCommand,
    reply: DashboardReply,
    remote_control: bool,
) -> (r: DashboardReply)
    ensures
        is_annotated(*command, reply, remote_control, r),
{
    let ghost said = reply.response@;
    let mut r = reply;
    if !r.success && command.requires_remote_control() && !remote_control {
        r.response.append(" (robot is in Local control)");
    } else {
        assert(said + Seq::<char>::empty() =~= said);
    }
    r
}

/// The reply to a command that the socket failed under, or that there is no socket for. The
/// caller is waiting for a reply, so it gets this one before the connection is given up or while
/// it is being made.
pub fn socket_error_reply(error: &str) -> (r: DashboardReply)
    ensures
        !r.success,
        r.response@ == "dashboard socket error: "@ + error@,
        r.value is None,
{
    DashboardReply::fail(join2("dashboard socket error: ", error).as_str())
}

/// A command under way.
#[derive(Debug)]
pub enum Conversation {
    /// A command that takes one round trip.
    Single,
    /// `pause` is out.
    Pausing,
    /// The pause was acknowledged, and the program state is asked for.
    ConfirmingPause,
    /// The program does not read as paused yet; wait before asking again.
    AwaitingPause,
    /// `play` is out. `live` says whether there was a goal to re-issue.
    Playing { live: bool },
    /// The `play` was acknowledged with `play`, and whether a program runs is asked for.
    AskingRunning { live: bool, play: String },
    /// A program runs, and its state is asked for.
    AskingState { live: bool, play: String },
    /// Nothing plays yet; wait before asking again.
    AwaitingPlay { live: bool, play: String },
    /// `play` did not resume the script; the live goal is being told to re-issue itself.
    Signalling,
    /// The safety popup is being closed. There may be none.
    ClosingPopup,
    /// The robot settles.
    Settling,
    /// `unlock protective stop` is out.
    Unlocking,
    /// The unlock was acknowledged; wait before looking at the safety mode again.
    AwaitingRelease,
}

/// What a conversation needs next.
#[derive(Debug)]
pub enum Turn {
    /// Send this command and hand in its reply. `deadline_ms` starts a deadline.
    Send { command: DashboardCommand, deadline_ms: Option<u64> },
    /// Wait this long. `deadline_ms` starts a deadline.
    Wait { ms: u64, deadline_ms: Option<u64> },
    /// Signal the live goal to re-issue itself.
    Signal,
    /// This is the reply.
    Done(DashboardReply),
}

/// Whether `turn` is a failure with this text.
pub open spec fn fails(turn: Turn, text: Seq<char>) -> bool {
    turn matches Turn::Done(reply) && !reply.success && reply.response@ == text && reply.value
        is None
}

/// Whether `turn` is a success with this text.
pub open spec fn succeeds(turn: Turn, text: Seq<char>) -> bool {
    turn matches Turn::Done(reply) && reply.success && reply.response@ == text && reply.value
        is None
}

/// The safety modes that a released protective stop leaves the robot in.
pub open spec fn is_released(safety_mode: i32) -> bool {
    safety_mode == 1 || safety_mode == 2
}

fn fail_with(text: String) -> (r: Turn)
    ensures
        fails(r, text@),
{
    Turn::Done(DashboardReply::fail(text.as_str()))
}

fn succeed_with(text: String) -> (r: Turn)
    ensures
        succeeds(r, text@),
{
    Turn::Done(DashboardReply::ok(text.as_str()))
}

/// How a command begins, by where the driver stands.
pub open spec fn begins<G, F, S>(
    command: DashboardCommand,
    driver: DriverState<G, F, S>,
    conversation: Conversation,
    turn: Turn,
) -> bool {
    match command {
        DashboardCommand::Pause => conversation is Pausing && turn == (Turn::Send {
            command: DashboardCommand::Pause,
            deadline_ms: None,
        }),
        DashboardCommand::Resume => if driver.motion_paused {
            conversation == (Conversation::Playing { live: driver.resume_sender is Some }) && turn == (
            Turn::Send { command: DashboardCommand::Play, deadline_ms: None })
        } else {
            conversation is Single && fails(turn, "motion is not paused"@)
        },
        DashboardCommand::UnlockProtectiveStop => if driver.safety_mode == 3 {
            conversation is ClosingPopup && turn == (Turn::Send {
                command: DashboardCommand::CloseSafetyPopup,
                deadline_ms: None,
            })
        } else {
            conversation is Single && fails(
                turn,
                "not in a protective stop, safety mode is "@ + SafetyMode::encoded(
                    driver.safety_mode,
                ).name(),
            )
        },
        _ => conversation is Single && turn == (Turn::Send { command, deadline_ms: None }),
    }
}

/// Start on a command.
pub fn begin<G, F, S>(command: DashboardCommand, driver: &DriverState<G, F, S>) -> (r: (
    Conversation,
    Turn,
))
    ensures
        begins(command, *driver, r.0, r.1),
{
    match command {
        DashboardCommand::Pause => (
            Conversation::Pausing,
            Turn::Send { command: DashboardCommand::Pause, deadline_ms: None },
        ),
        DashboardCommand::Resume => {
            if !driver.motion_paused {
                return (Conversation::Single, fail_with("motion is not paused".to_owned()));
            }
            (
                Conversation::Playing { live: driver.resume_sender.is_some() },
                Turn::Send { command: DashboardCommand::Play, deadline_ms: None },
            )
        },
        DashboardCommand::UnlockProtectiveStop => {
            if driver.safety_mode != 3 {
                return (
                    Conversation::Single,
                    fail_with(
                        join2(
                            "not in a protective stop, safety mode is ",
                            safety_mode_name(driver.safety_mode),
                        ),
                    ),
                );
            }
            // Best effort: there may be no popup to close, and "no popup" is not a failure.
            (
                Conversation::ClosingPopup,
                Turn::Send { command: DashboardCommand::CloseSafetyPopup, deadline_ms: None },
            )
        },
        other => (Conversation::Single, Turn::Send { command: other, deadline_ms: None }),
    }
}

/// What follows once `play` has turned out not to resume the script: the live goal is told to
/// re-issue itself, where there is one. The latch is cleared either way.
pub open spec fn falls_back<G, F, S>(
    live: bool,
    play: Seq<char>,
    after: Conversation,
    turn: Turn,
    before_driver: DriverState<G, F, S>,
    driver: DriverState<G, F, S>,
) -> bool {
    &&& driver == (DriverState { motion_paused: false, ..before_driver })
    &&& if live {
        after is Signalling && turn is Signal
    } else {
        after is Single && fails(
            turn,
            "play did not resume a program and no goal is live ("@ + play + ")"@,
        )
    }
}

fn fall_back<G, F, S>(live: bool, play: &str, driver: &mut DriverState<G, F, S>) -> (r: (
    Conversation,
    Turn,
))
    ensures
        falls_back(live, play@, r.0, r.1, *old(driver), *final(driver)),
{
    // Leaving the latch set on a failed resume would park the driver rejecting every motion
    // request with "motion is paused" and no way back except a restart.
    driver.motion_paused = false;
    if live {
        (Conversation::Signalling, Turn::Signal)
    } else {
        (
            Conversation::Single,
            fail_with(
                join3("play did not resume a program and no goal is live (", play, ")"),
            ),
        )
    }
}

/// What a look at the safety mode says while a protective stop releases.
pub open spec fn looks(after: Conversation, turn: Turn, safety_mode: i32, late: bool, deadline_ms: Option<u64>) -> bool {
    if is_released(safety_mode) {
        after is Single && succeeds(turn, SafetyMode::encoded(safety_mode).name())
    } else if late {
        after is Single && fails(
            turn,
            "unlock acknowledged but safety mode is still "@ + SafetyMode::encoded(
                safety_mode,
            ).name(),
        )
    } else {
        after is AwaitingRelease && turn == (Turn::Wait { ms: RELEASE_POLL_INTERVAL_MS, deadline_ms })
    }
}

fn look(safety_mode: i32, late: bool, deadline_ms: Option<u64>) -> (r: (Conversation, Turn))
    ensures
        looks(r.0, r.1, safety_mode, late, deadline_ms),
{
    if safety_mode == 1 || safety_mode == 2 {
        (Conversation::Single, succeed_with(safety_mode_name(safety_mode).to_owned()))
    } else if late {
        (
            Conversation::Single,
            fail_with(
                join2(
                    "unlock acknowledged but safety mode is still ",
                    safety_mode_name(safety_mode),
                ),
            ),
        )
    } else {
        (
            Conversation::AwaitingRelease,
            Turn::Wait { ms: RELEASE_POLL_INTERVAL_MS, deadline_ms },
        )
    }
}

/// Whether a conversation waits for a reply.
pub open spec fn awaits_reply(conversation: Conversation) -> bool {
    conversation is Single || conversation is Pausing || conversation is ConfirmingPause
        || conversation is Playing || conversation is AskingRunning || conversation is AskingState
        || conversation is ClosingPopup || conversation is Unlocking
}

/// Whether a conversation waits for time to pass.
pub open spec fn awaits_time(conversation: Conversation) -> bool {
    conversation is AwaitingPause || conversation is AwaitingPlay || conversation is Settling
        || conversation is AwaitingRelease
}

/// What a reply makes of a conversation: `after` and `turn` are what follows, and `driver` is
/// what the driver state becomes. `late` says whether the deadline that was started last has
/// passed.
pub open spec fn follows<G, F, S>(
    conversation: Conversation,
    reply: DashboardReply,
    late: bool,
    before: DriverState<G, F, S>,
    after: Conversation,
    turn: Turn,
    driver: DriverState<G, F, S>,
) -> bool {
    match conversation {
        Conversation::Single => {
            &&& after is Single && turn == Turn::Done(reply)
            &&& driver == before
        },
        Conversation::Pausing => {
            &&& driver == before
            &&& if reply.success {
                after is ConfirmingPause && turn == (Turn::Send {
                    command: DashboardCommand::ProgramState,
                    deadline_ms: Some(PAUSE_CONFIRM_TIMEOUT_MS),
                })
            } else {
                after is Single && turn == Turn::Done(reply)
            }
        },
        Conversation::ConfirmingPause => if program_state_in(reply) == ProgramState::Paused {
            &&& after is Single && succeeds(turn, "PAUSED"@)
            &&& driver == (DriverState { motion_paused: true, ..before })
        } else if late {
            &&& after is Single && succeeds(
                turn,
                "pause acknowledged but the program state is "@ + program_state_in(
                    reply,
                ).name(),
            )
            &&& driver == (DriverState { motion_paused: true, ..before })
        } else {
            &&& after is AwaitingPause && turn == (Turn::Wait {
                ms: CONFIRM_POLL_INTERVAL_MS,
                deadline_ms: None,
            })
            &&& driver == before
        },
        Conversation::Playing { live } => if reply.success {
            &&& after == (Conversation::AskingRunning { live, play: reply.response })
            &&& turn == (Turn::Send {
                command: DashboardCommand::IsProgramRunning,
                deadline_ms: Some(RESUME_CONFIRM_TIMEOUT_MS),
            })
            &&& driver == before
        } else {
            falls_back(live, reply.response@, after, turn, before, driver)
        },
        Conversation::AskingRunning { live, play } => if flag_in(reply) {
            &&& after == (Conversation::AskingState { live, play })
            &&& turn == (Turn::Send { command: DashboardCommand::ProgramState, deadline_ms: None })
            &&& driver == before
        } else if late {
            falls_back(live, play@, after, turn, before, driver)
        } else {
            &&& after == (Conversation::AwaitingPlay { live, play })
            &&& turn == (Turn::Wait { ms: CONFIRM_POLL_INTERVAL_MS, deadline_ms: None })
            &&& driver == before
        },
        Conversation::AskingState { live, play } => if program_state_in(reply)
            == ProgramState::Playing {
            &&& after is Single && succeeds(turn, "resumed"@)
            &&& driver == (DriverState { motion_paused: false, ..before })
        } else if late {
            falls_back(live, play@, after, turn, before, driver)
        } else {
            &&& after == (Conversation::AwaitingPlay { live, play })
            &&& turn == (Turn::Wait { ms: CONFIRM_POLL_INTERVAL_MS, deadline_ms: None })
            &&& driver == before
        },
        Conversation::ClosingPopup => {
            &&& after is Settling && turn == (Turn::Wait {
                ms: PROTECTIVE_STOP_SETTLE_MS,
                deadline_ms: None,
            })
            &&& driver == before
        },
        Conversation::Unlocking => {
            &&& driver == before
            &&& if reply.success {
                looks(
                    after,
                    turn,
                    before.safety_mode,
                    false,
                    Some(PROTECTIVE_STOP_RELEASE_TIMEOUT_MS),
                )
            } else {
                after is Single && fails(
                    turn,
                    "controller refused to unlock: "@ + reply.response@,
                )
            }
        },
        _ => true,
    }
}

/// Take in the reply to the command that was sent last. `late` says whether the deadline that
/// was started last has passed.
pub fn on_reply<G, F, S>(
    conversation: Conversation,
    reply: DashboardReply,
    late: bool,
    driver: &mut DriverState<G, F, S>,
) -> (r: (Conversation, Turn))
    requires
        awaits_reply(conversation),
    ensures
        follows(conversation, reply, late, *old(driver), r.0, r.1, *final(driver)),
{
    match conversation {
        Conversation::Pausing => {
            if !reply.success {
                return (Conversation::Single, Turn::Done(reply));
            }
            (
                Conversation::ConfirmingPause,
                Turn::Send {
                    command: DashboardCommand::ProgramState,
                    deadline_ms: Some(PAUSE_CONFIRM_TIMEOUT_MS),
                },
            )
        },
        Conversation::ConfirmingPause => {
            let state = program_state(&reply);
            if state == ProgramState::Paused {
                driver.motion_paused = true;
                return (
                    Conversation::Single,
                    succeed_with(ProgramState::Paused.as_str().to_owned()),
                );
            }
            if late {
                // The controller accepted `pause` but never reported `PAUSED`. Latch anyway:
                // the acknowledgement is the controller's own word that it is decelerating,
                // and leaving the latch off would let a new move start into a robot that is
                // coming to a stop.
                driver.motion_paused = true;
                return (
                    Conversation::Single,
                    succeed_with(
                        join2("pause acknowledged but the program state is ", state.as_str()),
                    ),
                );
            }
            (
                Conversation::AwaitingPause,
                Turn::Wait { ms: CONFIRM_POLL_INTERVAL_MS, deadline_ms: None },
            )
        },
        Conversation::Playing { live } => {
            // A refused `play` still goes on to the fallback rather than ending here:
            // refusing to resume an injected script is exactly the case the fallback exists
            // for.
            if !reply.success {
                return fall_back(live, reply.response.as_str(), driver);
            }
            (
                Conversation::AskingRunning { live, play: reply.response },
                Turn::Send {
                    command: DashboardCommand::IsProgramRunning,
                    deadline_ms: Some(RESUME_CONFIRM_TIMEOUT_MS),
                },
            )
        },
        Conversation::AskingRunning { live, play } => {
            if read_flag(&reply) {
                return (
                    Conversation::AskingState { live, play },
                    Turn::Send { command: DashboardCommand::ProgramState, deadline_ms: None },
                );
            }
            if late {
                return fall_back(live, play.as_str(), driver);
            }
            (
                Conversation::AwaitingPlay { live, play },
                Turn::Wait { ms: CONFIRM_POLL_INTERVAL_MS, deadline_ms: None },
            )
        },
        Conversation::AskingState { live, play } => {
            if program_state(&reply) == ProgramState::Playing {
                driver.motion_paused = false;
                return (Conversation::Single, succeed_with("resumed".to_owned()));
            }
            if late {
                return fall_back(live, play.as_str(), driver);
            }
            (
                Conversation::AwaitingPlay { live, play },
                Turn::Wait { ms: CONFIRM_POLL_INTERVAL_MS, deadline_ms: None },
            )
        },
        Conversation::ClosingPopup => (
            Conversation::Settling,
            Turn::Wait { ms: PROTECTIVE_STOP_SETTLE_MS, deadline_ms: None },
        ),
        Conversation::Unlocking => {
            if !reply.success {
                return (
                    Conversation::Single,
                    fail_with(
                        join2("controller refused to unlock: ", reply.response.as_str()),
                    ),
                );
            }
            look(driver.safety_mode, false, Some(PROTECTIVE_STOP_RELEASE_TIMEOUT_MS))
        },
        _ => (Conversation::Single, Turn::Done(reply)),
    }
}

/// How a conversation goes on after a wait.
pub open spec fn goes_on<G, F, S>(
    conversation: Conversation,
    late: bool,
    driver: DriverState<G, F, S>,
    after: Conversation,
    turn: Turn,
) -> bool {
    match conversation {
        Conversation::AwaitingPause => after is ConfirmingPause && turn == (Turn::Send {
            command: DashboardCommand::ProgramState,
            deadline_ms: None,
        }),
        Conversation::AwaitingPlay { live, play } => after == (Conversation::AskingRunning {
            live,
            play,
        }) && turn == (Turn::Send {
            command: DashboardCommand::IsProgramRunning,
            deadline_ms: None,
        }),
        Conversation::Settling => after is Unlocking && turn == (Turn::Send {
            command: DashboardCommand::UnlockProtectiveStop,
            deadline_ms: None,
        }),
        Conversation::AwaitingRelease => looks(after, turn, driver.safety_mode, late, None),
        _ => true,
    }
}

/// Take in that the wait that was asked for is over. `late` says whether the deadline that was
/// started last has passed.
///
/// The safety mode that a release is confirmed against is the one off the realtime stream: the
/// controller answers "Protective stop releasing" before it has actually released, and can
/// still fail if whatever caused the stop is still present.
pub fn on_waited<G, F, S>(
    conversation: Conversation,
    late: bool,
    driver: &DriverState<G, F, S>,
) -> (r: (Conversation, Turn))
    requires
        awaits_time(conversation),
    ensures
        goes_on(conversation, late, *driver, r.0, r.1),
{
    match conversation {
        Conversation::AwaitingPlay { live, play } => (
            Conversation::AskingRunning { live, play },
            Turn::Send { command: DashboardCommand::IsProgramRunning, deadline_ms: None },
        ),
        Conversation::Settling => (
            Conversation::Unlocking,
            Turn::Send { command: DashboardCommand::UnlockProtectiveStop, deadline_ms: None },
        ),
        Conversation::AwaitingRelease => look(driver.safety_mode, late, None),
        _ => (
            Conversation::ConfirmingPause,
            Turn::Send { command: DashboardCommand::ProgramState, deadline_ms: None },
        ),
    }
}

/// What is said once the goal was told to re-issue itself, or could not be.
pub open spec fn is_signalled(signalled: Result<(), String>, r: DashboardReply) -> bool {
    &&& r.value is None
    &&& match signalled {
        Ok(_) => r.success && r.response@ == "play did not resume, re-issuing the goal"@,
        Err(error) => !r.success && r.response@
            == "play did not resume a program and the goal could not be signalled: "@ + error@,
    }
}

/// Take in how signalling the live goal went.
pub fn on_signalled(signalled: Result<(), String>) -> (r: DashboardReply)
    ensures
        is_signalled(signalled, r),
{
    match signalled {
        Ok(_) => DashboardReply::ok("play did not resume, re-issuing the goal"),
        Err(error) => DashboardReply::fail(
            join2(
                "play did not resume a program and the goal could not be signalled: ",
                error.as_str(),
            ).as_str(),
        ),
    }
}

/// A pause that the controller acknowledged ends with the latch set, and the reply is a
/// success.
pub proof fn acknowledged_pause_latches<G, F, S>(
    reply: DashboardReply,
    late: bool,
    before: DriverState<G, F, S>,
    after: Conversation,
    turn: Turn,
    driver: DriverState<G, F, S>,
)
    requires
        follows(Conversation::ConfirmingPause, reply, late, before, after, turn, driver),
        turn is Done,
    ensures
        driver.motion_paused,
        turn->Done_0.success,
{
}

/// However a resume ends once `play` was sent, the latch is off: nothing parks the driver in a
/// hold that no one can release.
pub proof fn resume_releases_the_latch<G, F, S>(
    conversation: Conversation,
    reply: DashboardReply,
    late: bool,
    before: DriverState<G, F, S>,
    after: Conversation,
    turn: Turn,
    driver: DriverState<G, F, S>,
)
    requires
        follows(conversation, reply, late, before, after, turn, driver),
        conversation is Playing || conversation is AskingRunning || conversation is AskingState,
        turn is Done || turn is Signal,
    ensures
        !driver.motion_paused,
{
}

/// A conversation changes nothing of the driver but the latch of a pause.
pub proof fn conversations_touch_only_the_latch<G, F, S>(
    conversation: Conversation,
    reply: DashboardReply,
    late: bool,
    before: DriverState<G, F, S>,
    after: Conversation,
    turn: Turn,
    driver: DriverState<G, F, S>,
)
    requires
        awaits_reply(conversation),
        follows(conversation, reply, late, before, after, turn, driver),
    ensures
        driver == (DriverState { motion_paused: driver.motion_paused, ..before }),
{
}

/// A confirmation that is late asks no more: it ends, or hands the goal its signal.
pub proof fn late_confirmations_end<G, F, S>(
    conversation: Conversation,
    reply: DashboardReply,
    before: DriverState<G, F, S>,
    after: Conversation,
    turn: Turn,
    driver: DriverState<G, F, S>,
)
    requires
        follows(conversation, reply, true, before, after, turn, driver),
        conversation is ConfirmingPause || conversation is AskingState,
    ensures
        turn is Done || turn is Signal,
{
}

/// A protective stop is reported as cleared only with the robot in a mode in which goals are
/// admitted.
pub proof fn cleared_stop_admits_goals(
    after: Conversation,
    turn: Turn,
    safety_mode: i32,
    late: bool,
    deadline_ms: Option<u64>,
)
    requires
        looks(after, turn, safety_mode, late, deadline_ms),
        turn matches Turn::Done(reply) && reply.success,
    ensures
        SafetyMode::encoded(safety_mode).admits(),
{
}

/// Annotating a refusal keeps what the controller said, word for word, before the explanation;
/// a success is left alone.
pub proof fn annotation_keeps_the_verdict(
    command: DashboardCommand,
    reply: DashboardReply,
    remote_control: bool,
)
    ensures
        has_prefix(
            reply.response@ + annotation(command, reply, remote_control),
            reply.response@,
        ),
        reply.success ==> reply.response@ + annotation(command, reply, remote_control)
            == reply.response@,
{
    let said = reply.response@;
    let more = annotation(command, reply, remote_control);
    assert((said + more).take(said.len() as int) =~= said);
    if reply.success {
        assert(said + more =~= said);
    }
}

/// A command begins with its own line on the socket. Only a `resume` begins with `play`, and only
/// where motion is paused; and only an unlock begins by closing the popup, and only in a
/// protective stop. Where they cannot begin they fail, with nothing sent.
pub proof fn commands_begin_with_their_own_line<G, F, S>(
    command: DashboardCommand,
    driver: DriverState<G, F, S>,
    conversation: Conversation,
    turn: Turn,
)
    requires
        begins(command, driver, conversation, turn),
    ensures
        turn is Send || turn is Done,
        turn matches Turn::Send { command: sent, .. } ==> {
            &&& !(command is Resume) && !(command is UnlockProtectiveStop) ==> sent == command
                && sent.line() == command.line()
            &&& command is Resume ==> driver.motion_paused && sent.line() == "play"@
            &&& command is UnlockProtectiveStop ==> driver.safety_mode == 3 && sent.line()
                == "close safety popup"@
        },
        turn matches Turn::Done(reply) ==> {
            &&& !reply.success
            &&& command is Resume && !driver.motion_paused || command is UnlockProtectiveStop
                && driver.safety_mode != 3
        },
        command is Resume && driver.motion_paused ==> turn is Send,
        command is UnlockProtectiveStop && driver.safety_mode == 3 ==> turn is Send,
        conversation is Playing ==> command is Resume && (conversation->Playing_live <==>
            driver.resume_sender is Some),
        command is Pause <==> conversation is Pausing,
{
}

/// What is asked while a conversation waits is whether what was sent took effect: the program
/// state after a pause, whether a program runs after a play. An unlock is sent only once the popup
/// is closed and the robot has settled.
pub proof fn waits_end_in_the_next_question<G, F, S>(
    conversation: Conversation,
    late: bool,
    driver: DriverState<G, F, S>,
    after: Conversation,
    turn: Turn,
)
    requires
        awaits_time(conversation),
        goes_on(conversation, late, driver, after, turn),
    ensures
        conversation is AwaitingPause ==> (turn matches Turn::Send { command, .. }
            && command.line() == "programState"@) && after is ConfirmingPause,
        conversation is AwaitingPlay ==> (turn matches Turn::Send { command, .. }
            && command.line() == "running"@) && after is AskingRunning,
        conversation is Settling ==> (turn matches Turn::Send { command, .. } && command.line()
            == "unlock protective stop"@) && after is Unlocking,
        conversation is AwaitingRelease && (driver.safety_mode == 1 || driver.safety_mode == 2)
            ==> (turn matches Turn::Done(reply) && reply.success),
        conversation is AwaitingRelease && driver.safety_mode != 1 && driver.safety_mode != 2
            && late ==> (turn matches Turn::Done(reply) && !reply.success),
        conversation is AwaitingRelease && driver.safety_mode != 1 && driver.safety_mode != 2
            && !late ==> turn is Wait,
{
}

/// Motion is held exactly where a pause was acknowledged, and released exactly where a resume has
/// come to an end: no other reply touches the latch.
pub proof fn the_latch_follows_the_controller<G, F, S>(
    conversation: Conversation,
    reply: DashboardReply,
    late: bool,
    before: DriverState<G, F, S>,
    after: Conversation,
    turn: Turn,
    driver: DriverState<G, F, S>,
)
    requires
        awaits_reply(conversation),
        follows(conversation, reply, late, before, after, turn, driver),
    ensures
        driver.motion_paused && !before.motion_paused ==> conversation is ConfirmingPause && turn
            is Done,
        !driver.motion_paused && before.motion_paused ==> (conversation is Playing || conversation
            is AskingRunning || conversation is AskingState) && (turn is Done || turn is Signal),
        conversation is Pausing && !reply.success ==> turn == Turn::Done(reply) && driver == before,
        conversation is Pausing && reply.success ==> (turn matches Turn::Send { command, .. }
            && command.line() == "programState"@),
        conversation is Single ==> turn == Turn::Done(reply) && driver == before,
        conversation is Unlocking && !reply.success ==> (turn matches Turn::Done(said)
            && !said.success),
        conversation is Playing && !reply.success && conversation->Playing_live ==> turn is Signal,
        conversation is Playing && reply.success ==> (turn matches Turn::Send { command, .. }
            && command.line() == "running"@),
        conversation is ClosingPopup ==> turn is Wait && after is Settling,
{
}

/// A resume reports success only where the controller says that a program plays.
pub proof fn resumed_means_playing<G, F, S>(
    conversation: Conversation,
    reply: DashboardReply,
    late: bool,
    before: DriverState<G, F, S>,
    after: Conversation,
    turn: Turn,
    driver: DriverState<G, F, S>,
)
    requires
        conversation is Playing || conversation is AskingRunning || conversation is AskingState,
        follows(conversation, reply, late, before, after, turn, driver),
        turn matches Turn::Done(said) && said.success,
    ensures
        conversation is AskingState,
        reply.value matches Some(DashboardValue::ProgramState { state, .. }) && state
            == ProgramState::Playing,
{
}

/// An action took effect exactly where the controller's reply holds its acknowledgement; a
/// question always succeeds, and its reply is the answer.
pub proof fn replies_are_judged_by_their_words(
    command: DashboardCommand,
    line: Seq<char>,
    reply: DashboardReply,
)
    requires
        is_reply(command, line, reply),
    ensures
        reply.response@ == trimmed(line),
        command.acknowledgement() is None ==> reply.success,
        command is PowerOn ==> (reply.success <==> contains_text(trimmed(line), "Powering on"@)),
        command is PowerOff ==> (reply.success <==> contains_text(trimmed(line), "Powering off"@)),
        command is Stop ==> (reply.success <==> contains_text(trimmed(line), "Stopped"@)),
        command is Pause ==> (reply.success <==> contains_text(trimmed(line), "Pausing program"@)),
        command is Play ==> (reply.success <==> contains_text(trimmed(line), "Starting program"@)),
        command is UnlockProtectiveStop ==> (reply.success <==> contains_text(
            trimmed(line),
            "Protective stop releasing"@,
        )),
{
}

/// A refusal is explained by Local control exactly where it can be the reason: the command needs
/// Remote Control and the robot is not in it.
pub proof fn only_refusals_are_explained(
    command: DashboardCommand,
    reply: DashboardReply,
    remote_control: bool,
)
    ensures
        annotation(command, reply, remote_control).len() > 0 <==> !reply.success
            && command.remote_only() && !remote_control,
        !reply.success && command.remote_only() && !remote_control ==> annotation(
            command,
            reply,
            remote_control,
        ) == " (robot is in Local control)"@,
{
    reveal_strlit(" (robot is in Local control)");
}

/// What is polled is shown as it was answered: Remote Control, whether a program runs, its state and
/// the operational mode, each by the reply to its own question and in the controller's own words.
pub proof fn polled_answers_are_shown<G, F, S>(
    remote: DashboardReply,
    state: DashboardReply,
    running: DashboardReply,
    operational: DashboardReply,
    status: DashboardStatus,
    before: DriverState<G, F, S>,
    after: DriverState<G, F, S>,
)
    requires
        is_status(remote, state, running, operational, status),
        shows_status(before, status, after),
    ensures
        after.remote_control <==> remote.value == Some(DashboardValue::Flag(true)),
        after.program_running <==> running.value == Some(DashboardValue::Flag(true)),
        state.value matches Some(DashboardValue::ProgramState { state: s, .. }) ==> {
            &&& s is Paused ==> after.program_state@ == "PAUSED"@
            &&& s is Playing ==> after.program_state@ == "PLAYING"@
            &&& s is Stopped ==> after.program_state@ == "STOPPED"@
        },
        operational.value == Some(DashboardValue::OperationalMode(OperationalMode::Manual))
            ==> after.operational_mode@ == "MANUAL"@,
        operational.value == Some(DashboardValue::OperationalMode(OperationalMode::Automatic))
            ==> after.operational_mode@ == "AUTOMATIC"@,
        after.connected == before.connected,
        after.dashboard_connected == before.dashboard_connected,
        after.motion_paused == before.motion_paused,
        after.goal_id == before.goal_id,
        after.safety_mode == before.safety_mode,
{
}

/// A connection is used only behind the dashboard server's greeting, and a command has a reply only
/// where a line came.
pub proof fn connections_answer_in_lines(
    read: LineRead,
    greeted: Result<String, String>,
    command: DashboardCommand,
    received: Result<DashboardReply, String>,
)
    requires
        is_greeted(read, greeted),
        is_received(command, read, received),
    ensures
        greeted is Ok <==> (read matches LineRead::Line(line) && contains_text(
            trimmed(line@),
            "Universal Robots Dashboard Server"@,
        )),
        received is Ok <==> read is Line,
        (received matches Ok(reply) && read matches LineRead::Line(line)) ==> (
        received->Ok_0).response@ == trimmed(read->Line_0@),
{
}

/// Telling the goal to re-issue itself is a success exactly where it could be told.
pub proof fn signals_are_reported(signalled: Result<(), String>, reply: DashboardReply)
    requires
        is_signalled(signalled, reply),
    ensures
        reply.success <==> signalled is Ok,
{
}

/// Who the controller is, is what it said to each of the three questions.
pub proof fn identities_are_what_was_said(
    model: DashboardReply,
    serial: DashboardReply,
    version: DashboardReply,
    identity: DashboardIdentity,
)
    requires
        is_identity(model, serial, version, identity),
    ensures
        identity.robot_model@ == model.response@,
        identity.serial_number@ == serial.response@,
        identity.polyscope_version@ == version.response@,
{
}

/// Explaining a refusal changes neither the verdict nor the value, and leaves a success as it is.
pub proof fn explanations_change_no_verdict(
    command: DashboardCommand,
    reply: DashboardReply,
    remote_control: bool,
    r: DashboardReply,
)
    requires
        is_annotated(command, reply, remote_control, r),
    ensures
        r.success == reply.success,
        r.value == reply.value,
        reply.success || remote_control ==> r.response@ == reply.response@,
        has_prefix(r.response@, reply.response@),
{
    annotation_keeps_the_verdict(command, reply, remote_control);
    assert(reply.response@ + Seq::<char>::empty() =~= reply.response@);
}

/// While the dashboard connection is up the controller is known; with it goes what only it could
/// say of Remote Control. Nothing else of the driver changes.
pub proof fn the_dashboard_comes_and_goes<G, F, S>(
    before: DriverState<G, F, S>,
    identity: DashboardIdentity,
    up: DriverState<G, F, S>,
    down: DriverState<G, F, S>,
)
    requires
        is_up(before, identity, up),
        is_down(up, down),
    ensures
        up.dashboard_connected && up.identity == Some(identity),
        !down.dashboard_connected && !down.remote_control && down.identity is None,
        up.connected == before.connected && down.connected == before.connected,
        up.remote_control == before.remote_control,
        up.goal_id == before.goal_id && down.goal_id == before.goal_id,
        up.motion_paused == before.motion_paused && down.motion_paused == before.motion_paused,
        up.safety_mode == before.safety_mode && down.safety_mode == before.safety_mode,
{
}

/// How long a conversation gives the controller: half a second to settle before an unlock and three
/// for the stop to be released, a second for a pause to take and half of one for a resume. It looks
/// again every tenth of a second, and at the safety mode twice as often.
pub proof fn conversations_give_the_controller_time<G, F, S>(
    conversation: Conversation,
    reply: DashboardReply,
    late: bool,
    before: DriverState<G, F, S>,
    after: Conversation,
    turn: Turn,
    driver: DriverState<G, F, S>,
)
    requires
        awaits_reply(conversation),
        follows(conversation, reply, late, before, after, turn, driver),
    ensures
        conversation is ClosingPopup ==> (turn matches Turn::Wait { ms, .. } && ms == 500),
        conversation is Unlocking ==> (turn matches Turn::Wait { ms, deadline_ms } ==> ms == 50
            && deadline_ms == Some(3000u64)),
        conversation is Pausing ==> (turn matches Turn::Send { deadline_ms, .. } ==> deadline_ms
            == Some(1000u64)),
        conversation is Playing ==> (turn matches Turn::Send { deadline_ms, .. } ==> deadline_ms
            == Some(500u64)),
        conversation is ConfirmingPause || conversation is AskingRunning || conversation
            is AskingState ==> (turn matches Turn::Wait { ms, .. } ==> ms == 100),
{
}

/// A status is asked for in the order in which its answers are taken: Remote Control, the state of
/// the program, whether one runs, the operational mode. So is an identity: the model, the serial
/// number, the version.
pub proof fn questions_are_asked_in_the_order_of_their_answers(
    status: Seq<DashboardCommand>,
    identity: Seq<DashboardCommand>,
)
    requires
        are_status_queries(status),
        are_identity_queries(identity),
    ensures
        status.len() == 4,
        status[0].line() == "is in remote control"@,
        status[1].line() == "programState"@,
        status[2].line() == "running"@,
        status[3].line() == "get operational mode"@,
        identity.len() == 3,
        identity[0].line() == "get robot model"@,
        identity[1].line() == "get serial number"@,
        identity[2].line() == "PolyscopeVersion"@,
{
}

/// A command goes out as one line: its own, and the end of it.
pub proof fn commands_go_out_as_one_line(command: DashboardCommand, sent: Seq<char>)
    requires
        is_line_of(command, sent),
    ensures
        sent.len() == command.line().len() + 1,
        sent.last() == '\n',
        sent.drop_last() == command.line(),
{
    reveal_strlit("\n");
    assert(sent.drop_last() =~= command.line());
}

} // verus!
