//! What the tasks of the driver share: the measured state, and the goal that runs.
//!
//! The senders by which a task is signalled are handles of the program around this library,
//! so their types are parameters: `G` answers a goal or a handshake once, `F` carries
//! feedback lines, and `S` carries bare signals.

use crate::dashboard_types::{DashboardIdentity, RobotMode, SafetyMode};
use crate::double::Double;
use crate::structs::RobotCommand;
use vstd::prelude::*;

verus! {

#[derive(Debug)]
pub struct DriverState<G, F, S> {
    pub running: bool,
    /// The realtime stream is up.
    pub connected: bool,
    /// The dashboard socket is up.
    pub dashboard_connected: bool,
    /// The controller reports it is in Remote Control. Refreshed by the dashboard
    /// keepalive; dashboard commands like `play` and `brake release` are refused by
    /// PolyScope when this is false.
    pub remote_control: bool,
    pub goal_id: Option<String>,
    pub goal_sender: Option<G>,
    pub handshake_sender: Option<G>,
    pub feedback_sender: Option<F>,
    /// UR *safety* mode, realtime packet offset 812. See [`safety_mode_name`].
    pub safety_mode: i32,
    /// UR *robot* mode, realtime packet offset 756. See [`robot_mode_name`].
    pub robot_mode: i32,
    /// Raw realtime packet offset 1052, kept for diagnostics only.
    ///
    /// UR documents this as "Program state", but it does not carry the
    /// stopped/playing/paused enum the dashboard reports. Nothing should branch on it -
    /// use `program_state` below, which comes from the dashboard and is authoritative.
    pub program_state_raw: i32,
    /// Program state as the dashboard reports it, e.g. "STOPPED", "PLAYING",
    /// "PAUSED". Refreshed by the dashboard keepalive.
    pub program_state: String,
    /// Whether the controller reports a program as running. Dashboard-sourced.
    pub program_running: bool,
    /// PolyScope operational mode as the dashboard reports it: "MANUAL",
    /// "AUTOMATIC", or "NONE" when no mode password is set. Dashboard-sourced;
    /// the realtime stream does not carry it.
    pub operational_mode: String,
    pub joint_values: Vec<Double>,
    pub joint_speeds: Vec<Double>,
    /// Actual TCP pose as [x, y, z, rx, ry, rz], realtime packet offset 444.
    pub tcp_pose: Vec<Double>,
    /// Active speed scaling (0.0 - 1.0), realtime packet offset 940.
    pub speed_scaling: Double,
    pub digital_inputs: u32,
    pub digital_outputs: u32,
    pub forces: Vec<Double>,
    pub cancel_sender: Option<S>,
    /// The robot is being held by a dashboard `pause`.
    ///
    /// Set once the controller acknowledges the pause, cleared on resume and on goal
    /// teardown. While it is true new motion requests are rejected: accepting a move on a
    /// robot an operator has deliberately held would be a surprise.
    pub motion_paused: bool,
    /// The command behind the live goal, retained so a resume can re-render it.
    pub active_command: Option<RobotCommand>,
    /// How many trajectory waypoints the running script has reported reaching.
    ///
    /// A resume drops this many waypoints so the robot continues forward instead of
    /// driving back through the path it already covered.
    pub waypoints_completed: usize,
    /// A goal is between the script that was paused and the one that will finish it.
    ///
    /// `goal_id` is cleared as soon as the killed script's socket closes, which would
    /// otherwise leave a window where admission control sees no live goal and lets a new
    /// request in on top of the resume.
    pub reissuing: bool,
    /// Mirrors `cancel_sender`: signals the live goal to re-issue itself, which is
    /// the fallback when a dashboard `play` does not resume an injected script.
    pub resume_sender: Option<S>,
    /// Fixed controller facts, read once per dashboard connection.
    pub identity: Option<DashboardIdentity>,
}

impl<G, F, S> DriverState<G, F, S> {
    /// Whether a goal is live: its script runs, or is about to be replaced.
    pub open spec fn is_busy(self) -> bool {
        self.goal_id is Some || self.reissuing
    }

    /// Whether nothing of a goal is left.
    pub open spec fn is_free(self) -> bool {
        &&& self.goal_id is None
        &&& self.goal_sender is None
        &&& self.handshake_sender is None
        &&& self.feedback_sender is None
        &&& self.cancel_sender is None
        &&& self.resume_sender is None
        &&& self.active_command is None
        &&& self.waypoints_completed == 0
        &&& !self.reissuing
        &&& !self.motion_paused
    }

    /// Whether `other` differs from this state at most in what belongs to the goal that runs.
    pub open spec fn same_robot(self, other: Self) -> bool {
        &&& self.running == other.running
        &&& self.connected == other.connected
        &&& self.dashboard_connected == other.dashboard_connected
        &&& self.remote_control == other.remote_control
        &&& self.safety_mode == other.safety_mode
        &&& self.robot_mode == other.robot_mode
        &&& self.program_state_raw == other.program_state_raw
        &&& self.program_state == other.program_state
        &&& self.program_running == other.program_running
        &&& self.operational_mode == other.operational_mode
        &&& self.joint_values == other.joint_values
        &&& self.joint_speeds == other.joint_speeds
        &&& self.tcp_pose == other.tcp_pose
        &&& self.speed_scaling == other.speed_scaling
        &&& self.digital_inputs == other.digital_inputs
        &&& self.digital_outputs == other.digital_outputs
        &&& self.forces == other.forces
        &&& self.identity == other.identity
    }

    /// The state of a driver that has not reached its robot yet.
    pub fn new() -> (r: Self)
        ensures
            r.is_free(),
            r.running,
            !r.connected,
            !r.dashboard_connected,
            !r.remote_control,
            r.safety_mode == 0,
            r.robot_mode == 0,
            r.program_state_raw == 0,
            r.program_state@ == "UNKNOWN"@,
            !r.program_running,
            r.operational_mode@ == "UNKNOWN"@,
            r.joint_values@.len() == 0,
            r.joint_speeds@.len() == 0,
            r.tcp_pose@.len() == 0,
            r.speed_scaling.bits == 0,
            r.digital_inputs == 0,
            r.digital_outputs == 0,
            r.forces@.len() == 0,
            r.identity is None,
    {
        DriverState {
            running: true,
            connected: false,
            dashboard_connected: false,
            remote_control: false,
            goal_id: None,
            goal_sender: None,
            handshake_sender: None,
            feedback_sender: None,
            safety_mode: 0,
            robot_mode: 0,
            program_state_raw: 0,
            program_state: "UNKNOWN".to_owned(),
            program_running: false,
            operational_mode: "UNKNOWN".to_owned(),
            joint_values: Vec::new(),
            joint_speeds: Vec::new(),
            tcp_pose: Vec::new(),
            speed_scaling: Double { bits: 0 },
            digital_inputs: 0,
            digital_outputs: 0,
            forces: Vec::new(),
            cancel_sender: None,
            motion_paused: false,
            active_command: None,
            waypoints_completed: 0,
            reissuing: false,
            resume_sender: None,
            identity: None,
        }
    }
}

/// UR safety mode (realtime packet offset 812), as a name.
pub fn safety_mode_name(mode: i32) -> (r: &'static str)
    ensures
        r@ == SafetyMode::encoded(mode).name(),
{
    SafetyMode::from_rt(mode).as_str()
}

/// UR robot mode (realtime packet offset 756), as a name.
pub fn robot_mode_name(mode: i32) -> (r: &'static str)
    ensures
        r@ == RobotMode::encoded(mode).name(),
{
    RobotMode::from_rt(mode).as_str()
}

/// Safety modes in which an in-flight goal can no longer complete.
///
/// Deliberately excludes `REDUCED`, which is a normal operating mode: the robot slows
/// down inside a reduced-speed zone but keeps running.
pub fn safety_mode_aborts_goal(mode: i32) -> (r: bool)
    ensures
        r == SafetyMode::encoded(mode).stops(),
{
    SafetyMode::from_rt(mode).aborts_goal()
}

/// Safety modes in which a new motion request may be accepted.
pub fn safety_mode_accepts_goal(mode: i32) -> (r: bool)
    ensures
        r == SafetyMode::encoded(mode).admits(),
{
    SafetyMode::from_rt(mode).accepts_goal()
}

} // verus!
