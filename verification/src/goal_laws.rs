//! What holds of a goal over its whole life: what ends it, and as what it ends.

use crate::command_server::rejection_of;
use crate::double::{big_endian, encoded_int, integers_survive, Double};
use crate::driver_state::DriverState;
use crate::handle_request::{
    becomes_live, is_aborted, is_drained, is_rendered, judged, outcome_writes, remaining, resumes,
    steps, Event, Goal, GoalPhase, ResultType,
};
use crate::number_laws::{bytes_count_from_the_left, numbers_read_back};
use crate::realtime_reader::{is_body_length, takes_in, RT_FRAME_SIZE};
use crate::request_laws::under;
use crate::script::program_names_its_host;
use crate::socket_server::{
    closed, closes, dials_back, hears, is_handshake, reported_index, ScriptLine,
};
use crate::sp_value::SpView;
use crate::structs::RobotCommand;
use crate::text::{
    contains_text, decimal, has_prefix, has_suffix, is_digit, trimmed, unsigned_digits,
};
use vstd::prelude::*;

verus! {

/// A frame whose safety mode is 3, or 5 to 9, ends the goal that runs: its sender is handed out to
/// be settled, and nothing is left live under its id. No other frame ends anything.
pub proof fn frames_end_goals_by_their_number<G, F, S>(
    before: DriverState<G, F, S>,
    frame: Seq<u8>,
    after: DriverState<G, F, S>,
    settled: Option<G>,
)
    requires
        takes_in(before, frame, after, settled),
    ensures
        after.safety_mode == 3 || 5 <= after.safety_mode <= 9 ==> {
            &&& settled == before.goal_sender
            &&& after.goal_sender is None
            &&& after.feedback_sender is None
            &&& after.goal_id is None
        },
        !(after.safety_mode == 3 || 5 <= after.safety_mode <= 9) ==> {
            &&& settled is None
            &&& after.goal_sender == before.goal_sender
            &&& after.feedback_sender == before.feedback_sender
            &&& after.goal_id == before.goal_id
        },
        after.cancel_sender == before.cancel_sender,
        after.resume_sender == before.resume_sender,
        after.active_command == before.active_command,
        after.reissuing == before.reissuing,
{
}

/// The number that eight bytes of a packet hold.
pub open spec fn eight_at(packet: Seq<u8>, offset: int) -> Double {
    Double { bits: big_endian(packet.subrange(offset, offset + 8)) as u64 }
}

/// What is read off a frame stands where the packet layout has it. The frame is the packet without
/// the four bytes of its length.
pub proof fn frames_are_read_by_the_packet_layout<G, F, S>(
    before: DriverState<G, F, S>,
    packet: Seq<u8>,
    after: DriverState<G, F, S>,
    settled: Option<G>,
    i: int,
)
    requires
        packet.len() == 1220,
        takes_in(before, packet.skip(4), after, settled),
        0 <= i < 6,
    ensures
        after.joint_values@.len() == 6,
        after.joint_speeds@.len() == 6,
        after.tcp_pose@.len() == 6,
        after.forces@.len() == 6,
        after.joint_values@[i] == eight_at(packet, 252 + 8 * i),
        after.joint_speeds@[i] == eight_at(packet, 300 + 8 * i),
        after.tcp_pose@[i] == eight_at(packet, 444 + 8 * i),
        after.forces@[i] == eight_at(packet, 540 + 8 * i),
        after.speed_scaling == eight_at(packet, 940),
{
    let frame = packet.skip(4);
    assert forall|at: int| 0 <= at && at + 8 <= frame.len() implies #[trigger] frame.subrange(
        at,
        at + 8,
    ) == packet.subrange(at + 4, at + 4 + 8) by {
        assert(frame.subrange(at, at + 8) =~= packet.subrange(at + 4, at + 4 + 8));
    }
    assert(frame.subrange(248 + 8 * i, 248 + 8 * i + 8) == packet.subrange(
        252 + 8 * i,
        252 + 8 * i + 8,
    ));
    assert(frame.subrange(296 + 8 * i, 296 + 8 * i + 8) == packet.subrange(
        300 + 8 * i,
        300 + 8 * i + 8,
    ));
    assert(frame.subrange(440 + 8 * i, 440 + 8 * i + 8) == packet.subrange(
        444 + 8 * i,
        444 + 8 * i + 8,
    ));
    assert(frame.subrange(536 + 8 * i, 536 + 8 * i + 8) == packet.subrange(
        540 + 8 * i,
        540 + 8 * i + 8,
    ));
    assert(frame.subrange(936, 944) == packet.subrange(940, 948));
}

/// The modes and the bits of a packet are whole numbers, and are taken as the numbers they are.
pub proof fn numbers_off_the_wire_are_kept<G, F, S>(
    before: DriverState<G, F, S>,
    packet: Seq<u8>,
    after: DriverState<G, F, S>,
    settled: Option<G>,
    n: int,
)
    requires
        packet.len() == 1220,
        takes_in(before, packet.skip(4), after, settled),
    ensures
        i32::MIN <= n <= i32::MAX && eight_at(packet, 812).bits == encoded_int(n)
            ==> after.safety_mode == n,
        i32::MIN <= n <= i32::MAX && eight_at(packet, 756).bits == encoded_int(n)
            ==> after.robot_mode == n,
        i32::MIN <= n <= i32::MAX && eight_at(packet, 1052).bits == encoded_int(n)
            ==> after.program_state_raw == n,
        0 <= n <= u32::MAX && eight_at(packet, 684).bits == encoded_int(n) ==> after.digital_inputs
            == n,
        0 <= n <= u32::MAX && eight_at(packet, 1044).bits == encoded_int(n)
            ==> after.digital_outputs == n,
{
    let frame = packet.skip(4);
    assert(frame.subrange(808, 816) =~= packet.subrange(812, 820));
    assert(frame.subrange(752, 760) =~= packet.subrange(756, 764));
    assert(frame.subrange(1048, 1056) =~= packet.subrange(1052, 1060));
    assert(frame.subrange(680, 688) =~= packet.subrange(684, 692));
    assert(frame.subrange(1040, 1048) =~= packet.subrange(1044, 1052));
    if i32::MIN <= n <= u32::MAX {
        assert forall|d: Double| d.bits == encoded_int(n) implies !d.is_nan() && (d.is_negative()
            <==> n < 0) && #[trigger] d.whole() == (if n < 0 {
            -n
        } else {
            n
        }) by {
            integers_survive(n, d);
        }
        let a = eight_at(packet, 812).whole();
        let b = eight_at(packet, 756).whole();
        let c = eight_at(packet, 1052).whole();
        let d = eight_at(packet, 684).whole();
        let e = eight_at(packet, 1044).whole();
    }
}

/// Only the script's own word makes a goal succeed, only an answered stop makes it cancelled, and
/// whatever goes wrong on the way makes it fail. Nothing happens to a goal that is over.
pub proof fn goals_end_by_what_happened(before: GoalPhase, event: Event, after: GoalPhase)
    requires
        steps(before, event, after),
    ensures
        !(before is Finished),
        (after matches GoalPhase::Finished(ResultType::Succeeded, _)) <==> event == Event::Verdict(
            Some(true),
        ),
        (after matches GoalPhase::Finished(ResultType::Canceled, _)) <==> event
            == Event::StopAnswered(true),
        event == Event::Verdict(Some(false)) || event == Event::Verdict(None) || event
            == Event::Handshake(false) || event == Event::StopAnswered(false) || event
            == Event::Rendered(false) || event is ConnectFailed || event is WriteFailed
            ==> is_aborted(after),
        event is Connected || event is Written || event == Event::Handshake(true) || event
            is FeedbackClosed || event is Cancel || event == Event::Rendered(true) || event
            is ScriptStopped || event is Drained ==> !(after is Finished),
{
}

/// A goal runs only once its script has completed the handshake, and a stop is sent only to one
/// that runs.
pub proof fn goals_run_behind_the_handshake(before: GoalPhase, event: Event, after: GoalPhase)
    requires
        steps(before, event, after),
    ensures
        after is Running ==> event == Event::Handshake(true) || before is Running,
        after is Handshaking ==> before is Writing,
        after is Writing ==> before is Connecting,
        after is Cancelling ==> before is Running && event is Cancel,
        after is Rendering ==> before is Running && event is Resume,
        after is Connecting ==> before is Draining,
{
}

/// A request ends as its script said: `succeeded` where the script reported success, and `failed`
/// wherever it did not, with nothing that says otherwise.
pub proof fn requests_end_as_the_script_said(
    robot: Seq<char>,
    phase: GoalPhase,
    verdict: Option<bool>,
    counters: Option<(i64, i64)>,
    i: int,
)
    requires
        judged(phase, verdict),
        counters matches Some((total, subsequent)) ==> total < i64::MAX && subsequent < i64::MAX,
        0 <= i < outcome_writes(
            robot,
            phase->Finished_0,
            phase->Finished_1@,
            counters,
        ).len(),
    ensures
        ({
            let w = outcome_writes(robot, phase->Finished_0, phase->Finished_1@, counters);
            let state = under(robot, "request_state"@);
            let said = SpView::Text(
                Some(
                    if verdict == Some(true) {
                        "succeeded"@
                    } else {
                        "failed"@
                    },
                ),
            );
            &&& w.contains((state, said))
            &&& w[i].0 == state ==> w[i].1 == said
        }),
{
    let w = outcome_writes(robot, phase->Finished_0, phase->Finished_1@, counters);
    let state = under(robot, "request_state"@);
    lemma_keys_apart(robot);
    if verdict == Some(true) {
        assert(w[1].0 == state);
    } else {
        assert(w.last().0 == state);
        assert(w[w.len() - 1] == w.last());
    }
}

/// A failed request counts, in both counters; a request that does not fail starts the run of
/// failures anew and leaves the total alone. A cancelled request has not failed.
pub proof fn failures_are_counted(
    robot: Seq<char>,
    kind: ResultType,
    message: Seq<char>,
    total: i64,
    subsequent: i64,
    i: int,
)
    requires
        total < i64::MAX,
        subsequent < i64::MAX,
        0 <= i < outcome_writes(robot, kind, message, Some((total, subsequent))).len(),
    ensures
        ({
            let w = outcome_writes(robot, kind, message, Some((total, subsequent)));
            let total_key = under(robot, "total_fail_counter"@);
            let run_key = under(robot, "subsequent_fail_counter"@);
            let result_key = under(robot, "request_result"@);
            &&& w.contains((result_key, SpView::Text(Some(message))))
            &&& w[i].0 == total_key ==> kind is Aborted && w[i].1 == SpView::Int64(
                Some((total + 1) as i64),
            )
            &&& w[i].0 == run_key ==> w[i].1 == SpView::Int64(
                Some(
                    if kind is Aborted {
                        (subsequent + 1) as i64
                    } else {
                        0i64
                    },
                ),
            )
            &&& kind is Aborted ==> w.contains((total_key, SpView::Int64(Some((total + 1) as i64))))
            &&& exists|k: int| 0 <= k < w.len() && (#[trigger] w[k]).0 == run_key
        }),
{
    let w = outcome_writes(robot, kind, message, Some((total, subsequent)));
    lemma_keys_apart(robot);
    if kind is Aborted {
        assert(w[0].0 == under(robot, "total_fail_counter"@));
        assert(w[1].0 == under(robot, "subsequent_fail_counter"@));
        assert(w[2].0 == under(robot, "request_result"@));
    } else {
        assert(w[0].0 == under(robot, "request_result"@));
        assert(w[2].0 == under(robot, "subsequent_fail_counter"@));
    }
}

proof fn lemma_keys_apart(robot: Seq<char>)
    ensures
        under(robot, "request_state"@) != under(robot, "request_result"@),
        under(robot, "request_state"@) != under(robot, "total_fail_counter"@),
        under(robot, "request_state"@) != under(robot, "subsequent_fail_counter"@),
        under(robot, "request_result"@) != under(robot, "total_fail_counter"@),
        under(robot, "request_result"@) != under(robot, "subsequent_fail_counter"@),
        under(robot, "total_fail_counter"@) != under(robot, "subsequent_fail_counter"@),
{
    reveal_strlit("_");
    reveal_strlit("request_state");
    reveal_strlit("request_result");
    reveal_strlit("total_fail_counter");
    reveal_strlit("subsequent_fail_counter");
    let n = robot.len();
    assert(under(robot, "request_state"@).len() == n + 14);
    assert(under(robot, "request_result"@).len() == n + 15);
    assert(under(robot, "total_fail_counter"@).len() == n + 19);
    assert(under(robot, "subsequent_fail_counter"@).len() == n + 24);
}

/// A resumed motion goes on where it was paused: it keeps every parameter of its command, and all
/// the waypoints that were not reached, in their order. It is refused exactly where it moves by an
/// offset, or where nothing is left of it.
pub proof fn resumed_motions_go_on(
    command: RobotCommand,
    completed: nat,
    rest: RobotCommand,
    i: int,
)
    ensures
        remaining(command@, completed) is Ok <==> !has_suffix(command.command_type@, "_relative"@)
            && (command.waypoints@.len() == 0 || completed < command.waypoints@.len()),
        remaining(command@, completed) == Ok::<_, Seq<char>>(rest@) ==> {
            &&& rest.command_type@ == command.command_type@
            &&& rest.velocity == command.velocity
            &&& rest.acceleration == command.acceleration
            &&& rest.use_joint_positions == command.use_joint_positions
            &&& rest.joint_positions@ == command.joint_positions@
            &&& rest.target_in_base@ == command.target_in_base@
            &&& rest.tcp_in_faceplate@ == command.tcp_in_faceplate@
            &&& rest.payload@ == command.payload@
            &&& rest.report_waypoint_progress == command.report_waypoint_progress
            &&& command.waypoints@.len() == 0 ==> rest.waypoints@.len() == 0
            &&& command.waypoints@.len() > 0 ==> rest.waypoints@.len() + completed
                == command.waypoints@.len()
            &&& command.waypoints@.len() > 0 && 0 <= i < rest.waypoints@.len() ==> {
                &&& rest.waypoints@[i].joint_positions@
                    == command.waypoints@[i + completed].joint_positions@
                &&& rest.waypoints@[i].target_in_base@
                    == command.waypoints@[i + completed].target_in_base@
                &&& rest.waypoints@[i].use_linear_motion
                    == command.waypoints@[i + completed].use_linear_motion
                &&& rest.waypoints@[i].use_joint_positions
                    == command.waypoints@[i + completed].use_joint_positions
                &&& rest.waypoints@[i].velocity == command.waypoints@[i + completed].velocity
                &&& rest.waypoints@[i].acceleration
                    == command.waypoints@[i + completed].acceleration
                &&& rest.waypoints@[i].blend_radius
                    == command.waypoints@[i + completed].blend_radius
            }
        },
{
    assert(command@.waypoints.len() == command.waypoints@.len());
    assert(rest@.waypoints.len() == rest.waypoints@.len());
    if command.waypoints@.len() > 0 && 0 <= i < rest.waypoints@.len() && remaining(
        command@,
        completed,
    ) == Ok::<_, Seq<char>>(rest@) {
        assert(rest@.waypoints[i] == rest.waypoints@[i]@);
        assert(rest@.waypoints[i] == command@.waypoints[i + completed]);
        assert(command@.waypoints[i + completed] == command.waypoints@[i + completed]@);
    }
}

/// The script decides its goal: `ok` settles it as a success and `error` as a failure, once; and
/// no other line settles anything.
pub proof fn scripts_decide_their_goal<G, F, S>(
    before: DriverState<G, F, S>,
    line: Seq<char>,
    r: ScriptLine<G>,
    after: DriverState<G, F, S>,
)
    requires
        hears(before, line, r, after),
    ensures
        line == "ok"@ ==> r == (ScriptLine::Verdict { goal: before.goal_sender, success: true })
            && after.goal_sender is None,
        line == "error"@ ==> r == (ScriptLine::Verdict {
            goal: before.goal_sender,
            success: false,
        }) && after.goal_sender is None,
        line != "ok"@ && line != "error"@ ==> !(r is Verdict) && after.goal_sender
            == before.goal_sender,
        after.goal_id == before.goal_id,
        after.feedback_sender == before.feedback_sender,
        after.waypoints_completed != before.waypoints_completed ==> r is Progress,
{
    reveal_strlit("ok");
    reveal_strlit("error");
    assert("ok"@.len() == 2);
}

/// A script that reports the waypoint with some index has reached that many waypoints and one
/// more, whatever it had reached before.
pub proof fn progress_is_counted<G, F, S>(
    before: DriverState<G, F, S>,
    n: nat,
    r: ScriptLine<G>,
    after: DriverState<G, F, S>,
)
    requires
        n < usize::MAX,
        hears(before, "waypoint_reached "@ + decimal(n), r, after),
    ensures
        r is Progress,
        after == (DriverState { waypoints_completed: (n + 1) as usize, ..before }),
{
    let head = "waypoint_reached "@;
    reveal_strlit("waypoint_reached ");
    reveal_strlit("ok");
    reveal_strlit("error");
    numbers_read_back(n, usize::MAX as nat);
    let d = decimal(n);
    assert(head.len() == 17 && "ok"@.len() == 2 && "error"@.len() == 5);
    assert((head + d).take(head.len() as int) =~= head);
    assert((head + d).skip(head.len() as int) =~= d);
    assert(is_digit(d[0]) && is_digit(d[d.len() - 1]));
    assert(trimmed(d) == d);
    assert(unsigned_digits(d) == d);
    assert(has_prefix(head + d, head));
    assert(reported_index(head + d) == Some(n));
}

/// Once a script's socket has closed nothing of it is left: a new goal is admitted wherever the
/// robot is otherwise free for it and no script is about to take over.
pub proof fn closed_scripts_make_room<G, F, S>(driver: DriverState<G, F, S>, has_address: bool)
    requires
        has_address,
        driver.connected,
        !driver.motion_paused,
        driver.safety_mode == 1 || driver.safety_mode == 2,
        !driver.reissuing,
    ensures
        rejection_of(closed(driver), has_address) is None,
        closed(driver).goal_sender is None,
        closed(driver).feedback_sender is None,
        closed(driver).cancel_sender == driver.cancel_sender,
        closed(driver).active_command == driver.active_command,
{
}

/// A driver that is free admits a goal wherever the robot is in a mode to run one.
pub proof fn free_drivers_admit_goals<G, F, S>(driver: DriverState<G, F, S>)
    requires
        driver.is_free(),
        driver.connected,
        driver.safety_mode == 1 || driver.safety_mode == 2,
    ensures
        rejection_of(driver, true) is None,
        driver.goal_sender is None,
        driver.cancel_sender is None,
        driver.resume_sender is None,
        driver.handshake_sender is None,
        driver.feedback_sender is None,
        driver.active_command is None,
        driver.waypoints_completed == 0,
{
}

/// A goal goes live under its own id, with its own channels: what its script will answer is for it
/// and for no other. The program that goes out runs its own script and dials back to the address
/// it was given.
pub proof fn goals_go_live_under_their_own_id<G, F, S>(
    before: Goal,
    before_driver: DriverState<G, F, S>,
    host: Seq<char>,
    port: u16,
    goal_sender: G,
    handshake_sender: G,
    feedback_sender: F,
    after: Goal,
    driver: DriverState<G, F, S>,
)
    requires
        becomes_live(
            before,
            before_driver,
            host,
            port,
            goal_sender,
            handshake_sender,
            feedback_sender,
            after,
            driver,
        ),
    ensures
        driver.goal_id matches Some(id) && id@ == before.uuid@,
        driver.goal_sender == Some(goal_sender),
        driver.handshake_sender == Some(handshake_sender),
        driver.feedback_sender == Some(feedback_sender),
        driver.cancel_sender == before_driver.cancel_sender,
        driver.resume_sender == before_driver.resume_sender,
        driver.active_command == before_driver.active_command,
        driver.waypoints_completed == before_driver.waypoints_completed,
        driver.motion_paused == before_driver.motion_paused,
        rejection_of(driver, true) is Some,
        after.uuid == before.uuid,
        after.phase matches GoalPhase::Writing(text) && contains_text(
            text@,
            "    socket_open(\""@ + host + "\", "@ + decimal(port as nat)
                + ", \"ur_driver_socket\")"@,
        ),
{
    program_names_its_host(before.script@, host, port);
}

/// The script that dials back is the one that a goal waits for: it is handed the goal's id and its
/// handshake, once. A connection that no goal waits for changes nothing.
pub proof fn scripts_dial_back_to_their_goal<G, F, S>(
    before: DriverState<G, F, S>,
    r: Option<(String, G)>,
    after: DriverState<G, F, S>,
)
    requires
        dials_back(before, r, after),
    ensures
        r is Some <==> before.goal_id is Some && before.handshake_sender is Some
            && before.feedback_sender is Some,
        r matches Some((id, handshake)) ==> before.handshake_sender == Some(handshake)
            && after.handshake_sender is None && (before.goal_id matches Some(goal) && goal@
            == id@),
        r is None ==> after == before,
        after.goal_id == before.goal_id,
        after.goal_sender == before.goal_sender,
        after.feedback_sender == before.feedback_sender,
{
}

/// A resumed goal is still the same goal: through rendering, stopping and connecting anew it keeps
/// its id, and from the moment that it is to be re-issued no other goal is admitted. What runs then
/// is what was rendered of what was left.
pub proof fn resumed_goals_stay_the_same<G, F, S>(
    before: Goal,
    driver: DriverState<G, F, S>,
    rendering: Goal,
    script: Result<String, String>,
    stopping: Goal,
    reissuing: DriverState<G, F, S>,
)
    requires
        resumes(before, driver, rendering),
        rendering.phase is Rendering,
        is_rendered(rendering, driver, script, stopping, reissuing),
    ensures
        stopping.uuid == before.uuid,
        script is Ok ==> (stopping.phase matches GoalPhase::Stopping(rest, text) && rest
            == rendering.phase->Rendering_0 && script == Ok::<String, String>(text)),
        script is Ok ==> rejection_of(reissuing, true) is Some && reissuing.reissuing,
        script is Err ==> is_aborted(stopping.phase) && reissuing == driver,
        rendering.phase matches GoalPhase::Rendering(rest) && remaining(
            before.command@,
            driver.waypoints_completed as nat,
        ) == Ok::<_, Seq<char>>(rest@),
{
}

/// A motion that cannot be resumed fails with the reason.
pub proof fn motions_that_cannot_be_resumed_fail<G, F, S>(
    before: Goal,
    driver: DriverState<G, F, S>,
    after: Goal,
)
    requires
        resumes(before, driver, after),
    ensures
        has_suffix(before.command.command_type@, "_relative"@) ==> is_aborted(after.phase),
        before.command.waypoints@.len() > 0 && driver.waypoints_completed
            >= before.command.waypoints@.len() ==> is_aborted(after.phase),
        !has_suffix(before.command.command_type@, "_relative"@)
            && before.command.waypoints@.len() == 0 ==> after.phase is Rendering,
{
    assert(before.command@.waypoints.len() == before.command.waypoints@.len());
}

/// The goal that is connected anew is the rest of the motion, with nothing of it reached yet.
pub proof fn reissued_goals_start_on_the_rest<G, F, S>(
    before: Goal,
    before_driver: DriverState<G, F, S>,
    after: Goal,
    driver: DriverState<G, F, S>,
)
    requires
        before.phase is Draining,
        is_drained(before, before_driver, after, driver),
    ensures
        after.uuid == before.uuid,
        after.phase is Connecting,
        before.phase matches GoalPhase::Draining(rest, script) && after.command == rest
            && after.script == script,
        driver.waypoints_completed == 0,
        driver.active_command matches Some(c) && c.command_type@ == after.command.command_type@
            && c.waypoints@.len() == after.command.waypoints@.len(),
        driver.goal_id == before_driver.goal_id,
        driver.reissuing == before_driver.reissuing,
        driver.cancel_sender == before_driver.cancel_sender,
{
    if let Some(c) = driver.active_command {
        assert(c@.waypoints.len() == c.waypoints@.len());
        assert(after.command@.waypoints.len() == after.command.waypoints@.len());
    }
}

/// A frame's length counts its own four bytes; one that leaves nothing, or too much, is no frame. The
/// frame whose layout is known is 1220 bytes long.
pub proof fn frame_lengths_count_themselves(size_bytes: Seq<u8>, r: Result<usize, String>)
    requires
        size_bytes.len() == 4,
        is_body_length(size_bytes, r),
    ensures
        ({
            let size = 0x100_0000 * size_bytes[0] + 0x1_0000 * size_bytes[1] + 0x100
                * size_bytes[2] + size_bytes[3];
            &&& r is Ok <==> 4 < size <= 8192
            &&& r matches Ok(n) ==> n == size - 4
        }),
        RT_FRAME_SIZE == 1220,
{
    assert(size_bytes.subrange(0, 4) =~= size_bytes);
    bytes_count_from_the_left(size_bytes);
}

/// A script is believed to be a goal's own exactly where it answers with the goal's id.
pub proof fn handshakes_are_answered_with_the_id(goal_id: Seq<char>, line: Option<&str>, r: bool)
    requires
        is_handshake(goal_id, line, r),
    ensures
        r ==> line is Some && (line->0)@ == goal_id,
        line is None ==> !r,
        line is Some && (line->0)@ == goal_id ==> r,
{
}

/// A script that goes without a word leaves its goal to be settled, once, and nothing live; what
/// the goal is resumed from stays.
pub proof fn closed_scripts_leave_their_goal_to_be_settled<G, F, S>(
    before: DriverState<G, F, S>,
    r: Option<G>,
    after: DriverState<G, F, S>,
)
    requires
        closes(before, r, after),
    ensures
        r == before.goal_sender,
        after.goal_sender is None,
        after.feedback_sender is None,
        after.goal_id is None,
        after.active_command == before.active_command,
        after.waypoints_completed == before.waypoints_completed,
        after.reissuing == before.reissuing,
        after.cancel_sender == before.cancel_sender,
        after.motion_paused == before.motion_paused,
{
}

/// A packet that reports a protective stop, a safeguard stop, an emergency stop of either kind, a
/// violation or a fault - 3, or 5 to 9 at offset 812 - ends the goal that runs, whatever the rest of
/// it says: the goal is handed out to be settled, and a new one is refused while the stop lasts.
pub proof fn stops_off_the_wire_end_the_goal<G, F, S>(
    before: DriverState<G, F, S>,
    packet: Seq<u8>,
    after: DriverState<G, F, S>,
    settled: Option<G>,
    n: int,
)
    requires
        packet.len() == 1220,
        takes_in(before, packet.skip(4), after, settled),
        eight_at(packet, 812).bits == encoded_int(n),
        n == 3 || 5 <= n <= 9,
    ensures
        settled == before.goal_sender,
        after.goal_sender is None,
        after.goal_id is None,
        after.feedback_sender is None,
        rejection_of(after, true) is Some,
{
    numbers_off_the_wire_are_kept(before, packet, after, settled, n);
    frames_end_goals_by_their_number(before, packet.skip(4), after, settled);
}

} // verus!
