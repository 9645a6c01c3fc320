//! The socket a running script dials back on: the handshake, and the lines it sends.

use crate::driver_state::DriverState;
use crate::text::{has_prefix, parse_unsigned, same, starts_with, strip_prefix, trim, trimmed, unsigned_value};
use vstd::prelude::*;

verus! {

/// Prefix of the progress lines the trajectory templates send.
pub const WAYPOINT_REACHED_PREFIX: &'static str = "waypoint_reached ";

/// What the caller of a goal is told once its script has dialled back.
pub const HANDSHAKE_COMPLETE: &'static str = "Handshake complete, script should be running.";

/// What a connection to the driver's socket makes of the driver state: the goal that waits for it,
/// where one does.
pub open spec fn dials_back<G, F, S>(
    before: DriverState<G, F, S>,
    r: Option<(String, G)>,
    after: DriverState<G, F, S>,
) -> bool {
    match r {
        Some((id, handshake)) => {
            &&& before.goal_id matches Some(goal) && goal@ == id@
            &&& before.handshake_sender == Some(handshake)
            &&& before.feedback_sender is Some
            &&& after == (DriverState { handshake_sender: None, ..before })
        },
        None => {
            &&& before.handshake_sender is None || before.goal_id is None || before.feedback_sender
                is None
            &&& after == before
        },
    }
}

/// A script has dialled in. Where a goal waits for one, its id and the sender that settles its
/// handshake are handed out; otherwise the connection is to be dropped.
pub fn connected<G, F, S>(driver: &mut DriverState<G, F, S>) -> (r: Option<(String, G)>)
    ensures
        dials_back(*old(driver), r, *final(driver)),
{
    if driver.handshake_sender.is_none() || driver.goal_id.is_none()
        || driver.feedback_sender.is_none() {
        return None;
    }
    let id = match &driver.goal_id {
        Some(goal) => goal.clone(),
        None => {
            return None;
        },
    };
    match driver.handshake_sender.take() {
        Some(handshake) => Some((id, handshake)),
        None => None,
    }
}

/// Whether a script answered the handshake of a goal.
pub open spec fn is_handshake(goal_id: Seq<char>, line: Option<&str>, r: bool) -> bool {
    r == (line matches Some(l) && l@ == goal_id)
}

/// Whether the script answered the handshake with the goal id it was sent. `None` is a line
/// that did not come, or could not be read.
pub fn handshake_matches(goal_id: &str, line: Option<&str>) -> (r: bool)
    ensures
        is_handshake(goal_id@, line, r),
{
    match line {
        Some(l) => same(l, goal_id),
        None => false,
    }
}

/// The waypoint a progress line reports; `None` where `line` is no such line, or its index
/// cannot be read.
pub open spec fn reported_index(line: Seq<char>) -> Option<nat> {
    if has_prefix(line, WAYPOINT_REACHED_PREFIX@) {
        unsigned_value(
            trimmed(line.skip(WAYPOINT_REACHED_PREFIX@.len() as int)),
            usize::MAX as nat,
        )
    } else {
        None
    }
}

/// The waypoint a progress line reports.
pub fn waypoint_index(line: &str) -> (r: Option<usize>)
    ensures
        match r {
            Some(i) => reported_index(line@) == Some(i as nat),
            None => reported_index(line@) is None,
        },
{
    match strip_prefix(line, WAYPOINT_REACHED_PREFIX) {
        Some(rest) => match parse_unsigned(trim(rest.as_str()).as_str(), usize::MAX as u64) {
            Some(i) => Some(i as usize),
            None => None,
        },
        None => None,
    }
}

/// What a line off the script's socket comes to.
#[derive(Debug)]
pub enum ScriptLine<G> {
    /// The script has ended: settle its goal with this verdict, where that has not happened
    /// yet.
    Verdict { goal: Option<G>, success: bool },
    /// A waypoint was reached.
    Progress,
    /// A progress line without a readable index.
    UnreadableProgress,
    /// Anything else is feedback for the caller.
    Feedback,
}

/// What a line off the script's socket makes of the driver state, and what it comes to.
pub open spec fn hears<G, F, S>(
    before: DriverState<G, F, S>,
    line: Seq<char>,
    r: ScriptLine<G>,
    after: DriverState<G, F, S>,
) -> bool {
    if line == "ok"@ || line == "error"@ {
        &&& r == (ScriptLine::Verdict {
            goal: before.goal_sender,
            success: line == "ok"@,
        })
        &&& after == (DriverState { goal_sender: None, ..before })
    } else if has_prefix(line, WAYPOINT_REACHED_PREFIX@) {
        match reported_index(line) {
            Some(i) => {
                &&& r is Progress
                &&& after == (DriverState {
                    waypoints_completed: (i + 1) as usize,
                    ..before
                })
            },
            None => r is UnreadableProgress && after == before,
        }
    } else {
        r is Feedback && after == before
    }
}

/// Take in a line off the script's socket.
///
/// With blending a progress line fires as the controller hands over to the next move rather
/// than at a full stop, which is exactly the boundary a resume wants. The script reports the
/// index it reached, so the count of finished waypoints is one higher.
pub fn on_line<G, F, S>(driver: &mut DriverState<G, F, S>, line: &str) -> (r: ScriptLine<G>)
    requires
        reported_index(line@) != Some(usize::MAX as nat),
    ensures
        hears(*old(driver), line@, r, *final(driver)),
{
    if same(line, "ok") {
        return ScriptLine::Verdict { goal: driver.goal_sender.take(), success: true };
    }
    if same(line, "error") {
        assert("ok"@ != "error"@) by {
            reveal_strlit("ok");
            reveal_strlit("error");
            assert("ok"@.len() == 2);
        }
        return ScriptLine::Verdict { goal: driver.goal_sender.take(), success: false };
    }
    if starts_with(line, WAYPOINT_REACHED_PREFIX) {
        return match waypoint_index(line) {
            Some(i) => {
                driver.waypoints_completed = i + 1;
                ScriptLine::Progress
            },
            None => ScriptLine::UnreadableProgress,
        };
    }
    ScriptLine::Feedback
}

/// The driver state once the script's socket has closed.
pub open spec fn closed<G, F, S>(driver: DriverState<G, F, S>) -> DriverState<G, F, S> {
    DriverState { goal_sender: None, feedback_sender: None, goal_id: None, ..driver }
}

/// What the end of a script's socket makes of the driver state: the goal to settle, where there is
/// one.
pub open spec fn closes<G, F, S>(
    before: DriverState<G, F, S>,
    r: Option<G>,
    after: DriverState<G, F, S>,
) -> bool {
    &&& r == before.goal_sender
    &&& after == closed(before)
}

/// The script's socket has closed. Where its goal is not settled yet, it is to be settled with
/// `false`.
///
/// A socket that closes without an "ok" or "error" line means the script ended without
/// reporting - it was killed by a dashboard `stop`, or the program was aborted on the pendant.
/// Settling the goal here is what makes `stop` usable: leaving it open would have every later
/// request rejected because "a goal is already running".
pub fn on_close<G, F, S>(driver: &mut DriverState<G, F, S>) -> (r: Option<G>)
    ensures
        closes(*old(driver), r, *final(driver)),
{
    let goal = driver.goal_sender.take();
    driver.feedback_sender = None;
    driver.goal_id = None;
    goal
}

/// A script that was killed leaves the driver free for new work, unless its goal is about to go
/// on with another script.
pub proof fn closed_script_frees_the_driver<G, F, S>(before: DriverState<G, F, S>)
    ensures
        closed(before).is_busy() <==> before.reissuing,
        closed(before).goal_sender is None,
        closed(before).same_robot(before),
{
}

} // verus!
