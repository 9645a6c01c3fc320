//! One motion goal, from its first script to a terminal state.
//!
//! A goal can outlive the script that is executing it: when a dashboard `play` does not resume
//! an injected script, the goal re-renders the remainder of its motion and sends it as a
//! second script under the *same* goal id and the same request. From the caller's side the
//! request just keeps executing and then succeeds.
//!
//! [`Goal`] holds where a goal stands; each method below takes in one thing that happened and
//! moves the goal on. What has to be done next can be read off [`Goal::phase`].

use crate::command_server::{
    fail_request, failure_writes, is_feedback, publish_script_feedback, publish_script_result, result_writes,
};
use crate::driver_state::DriverState;
use crate::script::{generate_ur_script, program};
use crate::sp_value::{key, key_of, keys_are_distinct, written, SpValue, SpView, Write};
use crate::structs::{RobotCommand, RobotCommandView, ScriptRequest, Waypoint};
use crate::text::{decimal, ends_with, has_suffix, join2, join3, number};
use vstd::prelude::*;

verus! {

/// How long the script gets to dial back and complete the handshake, in milliseconds.
pub const HANDSHAKE_TIMEOUT_MS: u64 = 5000;

/// How long to wait for a killed script's verdict before re-issuing, in milliseconds.
///
/// The verdict has to be consumed on the *old* goal channel: the script's socket closing
/// sends `false`, and if the new channels are already installed that `false` fails the
/// resumed goal instead of the dead one.
pub const REISSUE_DRAIN_TIMEOUT_MS: u64 = 2000;

/// How a goal ended.
#[derive(Clone, Copy, PartialEq, Eq, Debug, Structural)]
pub enum ResultType {
    Aborted,
    Canceled,
    Succeeded,
}

/// Where a goal stands.
#[derive(Debug)]
pub enum GoalPhase {
    /// Connect to the realtime port.
    Connecting,
    /// Write this program to the connection.
    Writing(String),
    /// Wait for the script to dial back.
    Handshaking,
    /// Wait for the script's verdict, a cancel or a resume; and for feedback, while its
    /// channel is open.
    Running { feedback_open: bool },
    /// A stop is under way; wait for its reply or for the script's verdict.
    Cancelling,
    /// Render the remaining motion.
    Rendering(RobotCommand),
    /// Kill the paused script; the remaining motion and its script are ready.
    Stopping(RobotCommand, String),
    /// Wait for the killed script's verdict.
    Draining(RobotCommand, String),
    /// The goal is over.
    Finished(ResultType, String),
}

/// A goal, and the command and script that carry it out.
#[derive(Debug)]
pub struct Goal {
    pub uuid: String,
    pub script: String,
    pub command: RobotCommand,
    pub phase: GoalPhase,
}

/// The message of a goal that its script did not bring to an end.
pub open spec fn aborted_message() -> Seq<char> {
    "aborted before reaching the goal"@
}

/// What can happen to a goal.
pub enum Event {
    /// The realtime port could not be reached.
    ConnectFailed,
    /// The realtime port is connected.
    Connected,
    /// The program could not be written.
    WriteFailed,
    /// The program is written.
    Written,
    /// The handshake came to an end, completed or not.
    Handshake(bool),
    /// No more feedback will come.
    FeedbackClosed,
    /// The script reported, or never will.
    Verdict(Option<bool>),
    /// A cancel was asked for.
    Cancel,
    /// The stop was answered, or not.
    StopAnswered(bool),
    /// A resume was asked for.
    Resume,
    /// The remaining motion was rendered, or could not be.
    Rendered(bool),
    /// The paused script was told to stop.
    ScriptStopped,
    /// The paused script is gone.
    Drained,
}

/// Whether a goal is over, and failed.
pub open spec fn is_aborted(phase: GoalPhase) -> bool {
    phase matches GoalPhase::Finished(ResultType::Aborted, _)
}

/// Where a goal goes from where it stands, by what happens to it.
pub open spec fn steps(before: GoalPhase, event: Event, after: GoalPhase) -> bool {
    match event {
        Event::ConnectFailed => before is Connecting && is_aborted(after),
        Event::Connected => before is Connecting && after is Writing,
        Event::WriteFailed => before is Writing && is_aborted(after),
        Event::Written => before is Writing && after is Handshaking,
        Event::Handshake(completed) => before is Handshaking && if completed {
            after == (GoalPhase::Running { feedback_open: true })
        } else {
            is_aborted(after)
        },
        Event::FeedbackClosed => before is Running && after == (GoalPhase::Running {
            feedback_open: false,
        }),
        Event::Verdict(verdict) => (before is Running || before is Cancelling) && judged(
            after,
            verdict,
        ),
        Event::Cancel => before is Running && after is Cancelling,
        Event::StopAnswered(answered) => before is Cancelling && if answered {
            after matches GoalPhase::Finished(ResultType::Canceled, _)
        } else {
            is_aborted(after)
        },
        Event::Resume => before is Running && (after is Rendering || is_aborted(after)),
        Event::Rendered(rendered) => before is Rendering && if rendered {
            after is Stopping
        } else {
            is_aborted(after)
        },
        Event::ScriptStopped => before is Stopping && after is Draining,
        Event::Drained => before is Draining && after is Connecting,
    }
}

/// What a script's verdict makes of its goal: only `true` is a success. `None` is a verdict
/// that never came.
pub open spec fn judged(phase: GoalPhase, verdict: Option<bool>) -> bool {
    match verdict {
        Some(true) => phase matches GoalPhase::Finished(ResultType::Succeeded, m) && m@
            == "succeeded"@,
        _ => phase matches GoalPhase::Finished(ResultType::Aborted, m) && m@ == aborted_message(),
    }
}

/// The part of a command still left to run after `completed` waypoints, or why there is none.
pub open spec fn remaining(command: RobotCommandView, completed: nat) -> Result<
    RobotCommandView,
    Seq<char>,
> {
    if has_suffix(command.command_type, "_relative"@) {
        Err(
            "cannot resume '"@ + command.command_type
                + "': re-issuing a relative-pose move would apply the offset a second time from the paused pose. Cancel and submit a new request instead"@,
        )
    } else if command.waypoints.len() == 0 {
        Ok(command)
    } else if completed >= command.waypoints.len() {
        Err(
            "cannot resume '"@ + command.command_type + "': all "@ + decimal(
                command.waypoints.len(),
            ) + " waypoints were already reached"@,
        )
    } else {
        Ok(RobotCommandView { waypoints: command.waypoints.skip(completed as int), ..command })
    }
}

/// The part of a command still left to run after `completed` waypoints.
///
/// `Err` carries a reason meant for `request_result`: refusing to resume is better
/// than resuming into the wrong motion.
pub fn remaining_command(command: &RobotCommand, completed: usize) -> (r: Result<
    RobotCommand,
    String,
>)
    ensures
        match r {
            Ok(rest) => remaining(command@, completed as nat) == Ok::<_, Seq<char>>(rest@),
            Err(reason) => remaining(command@, completed as nat) == Err::<RobotCommandView, _>(
                reason@,
            ),
        },
{
    // A relative move applies its offset to the TCP pose *at the time the script
    // runs*. Re-issuing it from the paused pose would travel the full offset a
    // second time, so the robot would end up past its goal.
    if ends_with(command.command_type.as_str(), "_relative") {
        return Err(
            join3(
                "cannot resume '",
                command.command_type.as_str(),
                "': re-issuing a relative-pose move would apply the offset a second time from the paused pose. Cancel and submit a new request instead",
            ),
        );
    }
    let all = Ghost(command@.waypoints);
    assert(all@.len() == command.waypoints@.len());
    // A single move to an absolute target in the base frame is correct to re-send
    // verbatim: the script recomputes inverse kinematics from wherever the robot now is.
    if command.waypoints.len() == 0 {
        return Ok(command.copy());
    }
    if completed >= command.waypoints.len() {
        let mut reason = join3("cannot resume '", command.command_type.as_str(), "': all ");
        reason.append(number(command.waypoints.len() as u64).as_str());
        reason.append(" waypoints were already reached");
        return Err(reason);
    }
    let mut rest = command.copy();
    let mut waypoints: Vec<Waypoint> = Vec::new();
    let mut i: usize = completed;
    while i < command.waypoints.len()
        invariant
            completed <= i <= command.waypoints.len(),
            waypoints.len() == i - completed,
            forall|j: int|
                0 <= j < waypoints.len() ==> (#[trigger] waypoints@[j])@ == command.waypoints@[j
                    + completed]@,
        decreases command.waypoints.len() - i,
    {
        waypoints.push(command.waypoints[i].copy());
        i = i + 1;
    }
    rest.waypoints = waypoints;
    assert(rest@.waypoints =~= all@.skip(completed as int));
    Ok(rest)
}

/// What connecting makes of a goal and of the driver state.
pub open spec fn becomes_live<G, F, S>(
    before: Goal,
    before_driver: DriverState<G, F, S>,
    host_address: Seq<char>,
    port: u16,
    goal_sender: G,
    handshake_sender: G,
    feedback_sender: F,
    after: Goal,
    driver: DriverState<G, F, S>,
) -> bool {
    &&& steps(before.phase, Event::Connected, after.phase)
    &&& after.same_motion(before)
    &&& after.phase matches GoalPhase::Writing(text) && text@ == program(
        before.script@,
        host_address,
        port,
    )
    &&& driver.goal_id matches Some(id) && id@ == before.uuid@
    &&& driver.goal_sender == Some(goal_sender)
    &&& driver.handshake_sender == Some(handshake_sender)
    &&& driver.feedback_sender == Some(feedback_sender)
    &&& !driver.reissuing
    &&& driver == (DriverState {
        goal_id: driver.goal_id,
        goal_sender: driver.goal_sender,
        handshake_sender: driver.handshake_sender,
        feedback_sender: driver.feedback_sender,
        reissuing: driver.reissuing,
        ..before_driver
    })
}

/// What a resume makes of a goal.
pub open spec fn resumes<G, F, S>(before: Goal, driver: DriverState<G, F, S>, after: Goal) -> bool {
    &&& steps(before.phase, Event::Resume, after.phase)
    &&& after.same_motion(before)
    &&& match remaining(before.command@, driver.waypoints_completed as nat) {
        Ok(rest) => after.phase matches GoalPhase::Rendering(c) && c@ == rest,
        Err(reason) => after.phase matches GoalPhase::Finished(
            ResultType::Aborted,
            m,
        ) && m@ == reason,
    }
}

/// What rendering the remaining motion makes of a goal and of the driver state.
pub open spec fn is_rendered<G, F, S>(
    before: Goal,
    before_driver: DriverState<G, F, S>,
    script: Result<String, String>,
    after: Goal,
    driver: DriverState<G, F, S>,
) -> bool {
    &&& steps(before.phase, Event::Rendered(script is Ok), after.phase)
    &&& after.same_motion(before)
    &&& match script {
        Ok(text) => {
            &&& after.phase == GoalPhase::Stopping(before.phase->Rendering_0, text)
            &&& driver == (DriverState { reissuing: true, ..before_driver })
        },
        Err(error) => {
            &&& after.phase matches GoalPhase::Finished(ResultType::Aborted, m) && m@
                == "could not re-render the remaining motion: "@ + error@
            &&& driver == before_driver
        },
    }
}

/// What the end of the paused script makes of a goal and of the driver state.
pub open spec fn is_drained<G, F, S>(
    before: Goal,
    before_driver: DriverState<G, F, S>,
    after: Goal,
    driver: DriverState<G, F, S>,
) -> bool {
    &&& steps(before.phase, Event::Drained, after.phase)
    &&& after.phase is Connecting
    &&& after.uuid == before.uuid
    &&& after.command == before.phase->Draining_0
    &&& after.script == before.phase->Draining_1
    &&& driver.active_command matches Some(c) && c@ == after.command@
    &&& driver.waypoints_completed == 0
    &&& driver == (DriverState {
        active_command: driver.active_command,
        waypoints_completed: driver.waypoints_completed,
        ..before_driver
    })
}

impl Goal {
    /// A goal that has been accepted.
    pub fn new(request: ScriptRequest) -> (r: Goal)
        ensures
            r.uuid == request.uuid,
            r.script == request.script,
            r.command == request.command,
            r.phase is Connecting,
    {
        Goal {
            uuid: request.uuid,
            script: request.script,
            command: request.command,
            phase: GoalPhase::Connecting,
        }
    }

    /// Whether two goals are the same but for where they stand.
    pub open spec fn same_motion(self, other: Goal) -> bool {
        self.uuid == other.uuid && self.script == other.script && self.command == other.command
    }

    /// The realtime port could not be reached.
    pub fn connect_failed(&mut self, error: &str)
        requires
            old(self).phase is Connecting,
        ensures
            steps(old(self).phase, Event::ConnectFailed, final(self).phase),
            final(self).same_motion(*old(self)),
            final(self).phase matches GoalPhase::Finished(ResultType::Aborted, m) && m@
                == "could not connect to the realtime port for writing: "@ + error@,
    {
        self.phase = GoalPhase::Finished(
            ResultType::Aborted,
            join2("could not connect to the realtime port for writing: ", error),
        );
    }

    /// The realtime port is connected: the goal becomes the live one, with the channels its
    /// script will answer on, and its program is ready to be written.
    ///
    /// `host_address` and `port` are where the program dials back to.
    pub fn connected<G, F, S>(
        &mut self,
        driver: &mut DriverState<G, F, S>,
        host_address: &str,
        port: u16,
        goal_sender: G,
        handshake_sender: G,
        feedback_sender: F,
    )
        requires
            old(self).phase is Connecting,
        ensures
            becomes_live(
                *old(self),
                *old(driver),
                host_address@,
                port,
                goal_sender,
                handshake_sender,
                feedback_sender,
                *final(self),
                *final(driver),
            ),
    {
        let text = generate_ur_script(self.script.as_str(), host_address, port);
        driver.goal_id = Some(self.uuid.clone());
        driver.goal_sender = Some(goal_sender);
        driver.handshake_sender = Some(handshake_sender);
        driver.feedback_sender = Some(feedback_sender);
        // `goal_id` is the guard again from here on.
        driver.reissuing = false;
        self.phase = GoalPhase::Writing(text);
    }

    /// The program could not be written.
    pub fn write_failed(&mut self, error: &str)
        requires
            old(self).phase is Writing,
        ensures
            steps(old(self).phase, Event::WriteFailed, final(self).phase),
            final(self).same_motion(*old(self)),
            final(self).phase matches GoalPhase::Finished(ResultType::Aborted, m) && m@
                == "could not write the script to the robot: "@ + error@,
    {
        self.phase = GoalPhase::Finished(
            ResultType::Aborted,
            join2("could not write the script to the robot: ", error),
        );
    }

    /// The program is on its way to the robot.
    pub fn written(&mut self)
        requires
            old(self).phase is Writing,
        ensures
            steps(old(self).phase, Event::Written, final(self).phase),
            final(self).same_motion(*old(self)),
            final(self).phase is Handshaking,
    {
        self.phase = GoalPhase::Handshaking;
    }

    /// The handshake came to an end: `completed` where the script answered with the goal id
    /// in time.
    pub fn handshake(&mut self, completed: bool)
        requires
            old(self).phase is Handshaking,
        ensures
            steps(old(self).phase, Event::Handshake(completed), final(self).phase),
            final(self).same_motion(*old(self)),
            completed ==> final(self).phase == (GoalPhase::Running { feedback_open: true }),
            !completed ==> (final(self).phase matches GoalPhase::Finished(ResultType::Aborted, m)
                && m@ == "the script never completed the handshake"@),
    {
        if completed {
            self.phase = GoalPhase::Running { feedback_open: true };
        } else {
            self.phase = GoalPhase::Finished(
                ResultType::Aborted,
                "the script never completed the handshake".to_owned(),
            );
        }
    }

    /// The running script sent a feedback line, which is published.
    pub fn feedback(&self, robot: &str, line: &str) -> (r: Write)
        requires
            self.phase is Running,
        ensures
            is_feedback(robot@, line@, r),
    {
        publish_script_feedback(robot, line)
    }

    /// No more feedback will come. (A closed channel would answer at once and forever.)
    pub fn feedback_closed(&mut self)
        requires
            old(self).phase is Running,
        ensures
            steps(old(self).phase, Event::FeedbackClosed, final(self).phase),
            final(self).same_motion(*old(self)),
            final(self).phase == (GoalPhase::Running { feedback_open: false }),
    {
        self.phase = GoalPhase::Running { feedback_open: false };
    }

    /// The script reported: `true` for its "ok" line, `false` for "error" or for its socket
    /// closing without a result. `None` is a verdict that will never come.
    ///
    /// The move can finish while a stop is still in flight, so this may come then too.
    pub fn verdict(&mut self, verdict: Option<bool>)
        requires
            old(self).phase is Running || old(self).phase is Cancelling,
        ensures
            steps(old(self).phase, Event::Verdict(verdict), final(self).phase),
            final(self).same_motion(*old(self)),
            judged(final(self).phase, verdict),
    {
        self.phase = match verdict {
            Some(true) => GoalPhase::Finished(ResultType::Succeeded, "succeeded".to_owned()),
            _ => GoalPhase::Finished(
                ResultType::Aborted,
                "aborted before reaching the goal".to_owned(),
            ),
        };
    }

    /// A cancel was asked for: the script is to be stopped.
    pub fn cancel(&mut self)
        requires
            old(self).phase is Running,
        ensures
            steps(old(self).phase, Event::Cancel, final(self).phase),
            final(self).same_motion(*old(self)),
            final(self).phase is Cancelling,
    {
        self.phase = GoalPhase::Cancelling;
    }

    /// The stop of a cancelled goal was answered, or will never be. In the latter case the
    /// script may still be running, so that is an abort rather than a clean cancel.
    pub fn stop_answered(&mut self, answered: bool)
        requires
            old(self).phase is Cancelling,
        ensures
            steps(old(self).phase, Event::StopAnswered(answered), final(self).phase),
            final(self).same_motion(*old(self)),
            answered ==> (final(self).phase matches GoalPhase::Finished(ResultType::Canceled, m)
                && m@ == "cancelled"@),
            !answered ==> (final(self).phase matches GoalPhase::Finished(ResultType::Aborted, m)
                && m@ == aborted_message()),
    {
        if answered {
            self.phase = GoalPhase::Finished(ResultType::Canceled, "cancelled".to_owned());
        } else {
            self.phase = GoalPhase::Finished(
                ResultType::Aborted,
                "aborted before reaching the goal".to_owned(),
            );
        }
    }

    /// The paused script has to be replaced.
    ///
    /// What is left to run is decided *before* touching the robot, so an unresumable command
    /// is reported without first killing its script for nothing.
    pub fn resume<G, F, S>(&mut self, driver: &DriverState<G, F, S>)
        requires
            old(self).phase is Running,
        ensures
            resumes(*old(self), *driver, *final(self)),
    {
        self.phase = match remaining_command(&self.command, driver.waypoints_completed) {
            Ok(rest) => GoalPhase::Rendering(rest),
            Err(reason) => GoalPhase::Finished(ResultType::Aborted, reason),
        };
    }

    /// The remaining motion was rendered, or could not be.
    ///
    /// The goal is claimed across the gap that follows: the killed script's socket closing
    /// clears `goal_id`, and without the claim a request arriving in between would be
    /// admitted on top of the resume.
    pub fn rendered<G, F, S>(
        &mut self,
        driver: &mut DriverState<G, F, S>,
        script: Result<String, String>,
    )
        requires
            old(self).phase is Rendering,
        ensures
            is_rendered(*old(self), *old(driver), script, *final(self), *final(driver)),
    {
        let mut phase = GoalPhase::Connecting;
        std::mem::swap(&mut phase, &mut self.phase);
        match phase {
            GoalPhase::Rendering(rest) => match script {
                Ok(text) => {
                    driver.reissuing = true;
                    self.phase = GoalPhase::Stopping(rest, text);
                },
                Err(error) => {
                    self.phase = GoalPhase::Finished(
                        ResultType::Aborted,
                        join2("could not re-render the remaining motion: ", error.as_str()),
                    );
                },
            },
            _ => {},
        }
    }

    /// The stop for the paused script was sent, and answered or given up on.
    pub fn script_stopped(&mut self)
        requires
            old(self).phase is Stopping,
        ensures
            steps(old(self).phase, Event::ScriptStopped, final(self).phase),
            final(self).same_motion(*old(self)),
            final(self).phase == GoalPhase::Draining(
                old(self).phase->Stopping_0,
                old(self).phase->Stopping_1,
            ),
    {
        let mut phase = GoalPhase::Connecting;
        std::mem::swap(&mut phase, &mut self.phase);
        match phase {
            GoalPhase::Stopping(rest, text) => {
                self.phase = GoalPhase::Draining(rest, text);
            },
            _ => {},
        }
    }

    /// The killed script's verdict was consumed, or did not come in time: the goal starts over
    /// with what is left of its motion.
    pub fn drained<G, F, S>(&mut self, driver: &mut DriverState<G, F, S>)
        requires
            old(self).phase is Draining,
        ensures
            is_drained(*old(self), *old(driver), *final(self), *final(driver)),
    {
        let mut phase = GoalPhase::Connecting;
        std::mem::swap(&mut phase, &mut self.phase);
        match phase {
            GoalPhase::Draining(rest, text) => {
                driver.waypoints_completed = 0;
                driver.active_command = Some(rest.copy());
                self.command = rest;
                self.script = text;
            },
            _ => {},
        }
    }

    /// What a finished goal writes. `counters` are the failure counters, total first, where
    /// they could be read; only a goal that was aborted needs them.
    pub fn outcome(&self, robot: &str, counters: Option<(i64, i64)>) -> (r: Vec<Write>)
        requires
            self.phase is Finished,
            counters matches Some((total, subsequent)) ==> total < i64::MAX && subsequent
                < i64::MAX,
        ensures
            written(r@) == outcome_writes(
                robot@,
                self.phase->Finished_0,
                self.phase->Finished_1@,
                counters,
            ),
    {
        match &self.phase {
            GoalPhase::Finished(kind, message) => {
                if *kind == ResultType::Aborted {
                    // An execution failure goes through the same door as a refusal, so both
                    // land in `request_result` the same way and both move the counters.
                    fail_request(robot, message.as_str(), counters)
                } else {
                    let mut r = publish_script_result(robot, message.as_str(), true);
                    let before = Ghost(written(r@));
                    r.push(
                        Write {
                            key: key(robot, "request_state"),
                            value: SpValue::text("succeeded"),
                        },
                    );
                    // A successful run clears the consecutive-failure streak. The total
                    // counter is cumulative and is never reset.
                    r.push(
                        Write {
                            key: key(robot, "subsequent_fail_counter"),
                            value: SpValue::Int64(Some(0)),
                        },
                    );
                    assert(written(r@) =~= outcome_writes(robot@, *kind, message@, counters));
                    r
                }
            },
            _ => Vec::new(),
        }
    }
}

/// What a goal writes when it ends.
pub open spec fn outcome_writes(
    robot: Seq<char>,
    kind: ResultType,
    message: Seq<char>,
    counters: Option<(i64, i64)>,
) -> Seq<(Seq<char>, SpView)> {
    if kind == ResultType::Aborted {
        failure_writes(robot, message, counters)
    } else {
        result_writes(robot, message, true).push(
            (key_of(robot, "request_state"@), SpView::Text(Some("succeeded"@))),
        ).push((key_of(robot, "subsequent_fail_counter"@), SpView::Int64(Some(0i64))))
    }
}

/// Let go of everything a finished goal held.
///
/// The hold of a `pause` cannot outlive the goal it was holding: leaving it set would have
/// every later request rejected because "motion is paused".
pub fn release<G, F, S>(driver: &mut DriverState<G, F, S>)
    ensures
        final(driver).is_free(),
        final(driver).same_robot(*old(driver)),
{
    driver.goal_id = None;
    driver.goal_sender = None;
    driver.handshake_sender = None;
    driver.feedback_sender = None;
    driver.cancel_sender = None;
    driver.resume_sender = None;
    driver.active_command = None;
    driver.waypoints_completed = 0;
    driver.reissuing = false;
    driver.motion_paused = false;
}

/// A finished goal always writes a terminal state and its message: `failed` where it was
/// aborted, and `succeeded` otherwise.
pub proof fn outcome_is_terminal(
    robot: Seq<char>,
    kind: ResultType,
    message: Seq<char>,
    counters: Option<(i64, i64)>,
)
    ensures
        ({
            let w = outcome_writes(robot, kind, message, counters);
            let state = if kind == ResultType::Aborted {
                "failed"@
            } else {
                "succeeded"@
            };
            &&& w.contains((key_of(robot, "request_state"@), SpView::Text(Some(state))))
            &&& w.contains((key_of(robot, "request_result"@), SpView::Text(Some(message))))
        }),
{
    let w = outcome_writes(robot, kind, message, counters);
    if kind == ResultType::Aborted {
        let n = w.len();
        assert(w[n - 1] == (key_of(robot, "request_state"@), SpView::Text(Some("failed"@))));
        assert(w[n - 2] == (key_of(robot, "request_result"@), SpView::Text(Some(message))));
    } else {
        assert(w[1] == (key_of(robot, "request_state"@), SpView::Text(Some("succeeded"@))));
        assert(w[0] == (key_of(robot, "request_result"@), SpView::Text(Some(message))));
    }
}

/// A success resets the consecutive failures and leaves the total alone; a failure adds one to
/// each.
pub proof fn counters_follow_the_outcome(
    robot: Seq<char>,
    kind: ResultType,
    message: Seq<char>,
    total: i64,
    subsequent: i64,
)
    requires
        total < i64::MAX,
        subsequent < i64::MAX,
    ensures
        ({
            let w = outcome_writes(robot, kind, message, Some((total, subsequent)));
            let total_key = key_of(robot, "total_fail_counter"@);
            let subsequent_key = key_of(robot, "subsequent_fail_counter"@);
            if kind == ResultType::Aborted {
                &&& w.contains((total_key, SpView::Int64(Some((total + 1) as i64))))
                &&& w.contains((subsequent_key, SpView::Int64(Some((subsequent + 1) as i64))))
            } else {
                &&& w.contains((subsequent_key, SpView::Int64(Some(0i64))))
                &&& forall|i: int| 0 <= i < w.len() ==> (#[trigger] w[i]).0 != total_key
            }
        }),
{
    let w = outcome_writes(robot, kind, message, Some((total, subsequent)));
    let total_key = key_of(robot, "total_fail_counter"@);
    if kind == ResultType::Aborted {
        assert(w[0] == (total_key, SpView::Int64(Some((total + 1) as i64))));
        assert(w[1] == (
            key_of(robot, "subsequent_fail_counter"@),
            SpView::Int64(Some((subsequent + 1) as i64)),
        ));
    } else {
        reveal_strlit("total_fail_counter");
        reveal_strlit("request_result");
        reveal_strlit("request_state");
        reveal_strlit("subsequent_fail_counter");
        assert("total_fail_counter"@.len() == 18);
        assert("request_result"@.len() == 14);
        assert("request_state"@.len() == 13);
        assert("subsequent_fail_counter"@.len() == 23);
        keys_are_distinct(robot, "total_fail_counter"@, "request_result"@);
        keys_are_distinct(robot, "total_fail_counter"@, "request_state"@);
        keys_are_distinct(robot, "total_fail_counter"@, "subsequent_fail_counter"@);
        assert(w[2] == (
            key_of(robot, "subsequent_fail_counter"@),
            SpView::Int64(Some(0i64)),
        ));
        assert(w.len() == 3);
    }
}

/// A script that was killed fails its goal, whichever way the verdict is lost.
pub proof fn killed_script_fails_its_goal(phase: GoalPhase, verdict: Option<bool>)
    requires
        judged(phase, verdict),
        verdict != Some(true),
    ensures
        phase matches GoalPhase::Finished(ResultType::Aborted, _),
{
}

/// A resumed command runs exactly the waypoints that were not reached yet, and is otherwise
/// the same command; a relative move is never resumed.
pub proof fn resume_drops_what_was_reached(command: RobotCommandView, completed: nat)
    ensures
        has_suffix(command.command_type, "_relative"@) ==> remaining(command, completed) is Err,
        remaining(command, completed) matches Ok(rest) ==> {
            &&& rest == (RobotCommandView { waypoints: rest.waypoints, ..command })
            &&& command.waypoints.len() > 0 ==> rest.waypoints.len() == command.waypoints.len()
                - completed && rest.waypoints.len() > 0
            &&& command.waypoints.len() > 0 ==> forall|i: int|
                0 <= i < rest.waypoints.len() ==> #[trigger] rest.waypoints[i]
                    == command.waypoints[i + completed]
        },
{
}

} // verus!
