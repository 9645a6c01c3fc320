//! The realtime stream: length-prefixed frames of big-endian doubles, read into the driver
//! state.

use crate::dashboard_types::SafetyMode;
use crate::double::{big_endian, read_double, read_u32, Double};
use crate::driver_state::{safety_mode_aborts_goal, DriverState};
use crate::text::{decimal, join2, number};
use vstd::prelude::*;

verus! {

/// Size of the frame this parser understands. The field offsets below are only valid for this
/// layout.
pub const RT_FRAME_SIZE: usize = 1220;

/// Upper bound on a frame length before it is treated as a desynced stream rather than a real
/// message. Generous next to [`RT_FRAME_SIZE`] so a newer controller sending a longer frame is
/// skipped rather than rejected outright.
pub const RT_MAX_FRAME_SIZE: usize = 8192;

/// How long the controller gets to send the length of a frame, and then its body, in
/// milliseconds.
pub const RT_READ_TIMEOUT_MS: u64 = 1000;

/// The length that the four bytes before a frame announce, themselves included.
pub open spec fn announced(size_bytes: Seq<u8>) -> nat {
    big_endian(size_bytes.subrange(0, 4))
}

/// How many bytes follow the length of a frame, or what is wrong with it.
pub open spec fn is_body_length(size_bytes: Seq<u8>, r: Result<usize, String>) -> bool {
    match r {
        Ok(n) => 4 < announced(size_bytes) <= RT_MAX_FRAME_SIZE && n == announced(
            size_bytes,
        ) - 4,
        Err(e) => !(4 < announced(size_bytes) <= RT_MAX_FRAME_SIZE) && e@
            == "implausible frame length: "@ + decimal(announced(size_bytes)),
    }
}

/// How many bytes follow the length of a frame. A length that makes no sense means that the
/// stream has lost its sync, and the socket has to be reconnected.
pub fn body_length(size_bytes: &Vec<u8>) -> (r: Result<usize, String>)
    requires
        size_bytes.len() == 4,
    ensures
        is_body_length(size_bytes@, r),
{
    let size: usize = read_u32(size_bytes, 0) as usize;
    if size <= 4 || size > RT_MAX_FRAME_SIZE {
        return Err(join2("implausible frame length: ", number(size as u64).as_str()));
    }
    Ok(size - 4)
}

/// Whether a body of this length has the layout that [`apply_frame`] reads. One that has not
/// is skipped, which keeps the stream in sync, unlike reconnecting.
pub fn is_understood(length: usize) -> (r: bool)
    ensures
        r == (length + 4 == RT_FRAME_SIZE),
{
    length == RT_FRAME_SIZE - 4
}

/// The double at `at` in a frame.
pub open spec fn double_in(frame: Seq<u8>, at: int) -> Double {
    Double { bits: big_endian(frame.subrange(at, at + 8)) as u64 }
}

/// The six doubles from `at` on in a frame.
pub open spec fn six_in(frame: Seq<u8>, at: int) -> Seq<Double> {
    Seq::new(6, |i: int| double_in(frame, at + 8 * i))
}

fn read_six(frame: &Vec<u8>, at: usize) -> (r: Vec<Double>)
    requires
        at + 48 <= frame.len(),
    ensures
        r@ == six_in(frame@, at as int),
{
    let mut r: Vec<Double> = Vec::new();
    let mut i: usize = 0;
    while i < 6
        invariant
            i <= 6,
            at + 48 <= frame.len(),
            r.len() == i,
            forall|j: int| 0 <= j < i ==> #[trigger] r@[j] == double_in(frame@, at + 8 * j),
        decreases 6 - i,
    {
        r.push(read_double(frame, at + 8 * i));
        i = i + 1;
    }
    assert(r@ =~= six_in(frame@, at as int));
    r
}

/// What a frame says of the robot. Offsets are into the body, which is the documented packet
/// without its four length bytes, so each is the packet offset minus 4.
pub open spec fn shows<G, F, S>(driver: DriverState<G, F, S>, frame: Seq<u8>) -> bool {
    &&& driver.joint_values@ == six_in(frame, 248)
    &&& driver.joint_speeds@ == six_in(frame, 296)
    &&& driver.tcp_pose@ == six_in(frame, 440)
    &&& driver.forces@ == six_in(frame, 536)
    &&& driver.digital_inputs == double_in(frame, 680).clamped(0, u32::MAX as int)
    &&& driver.robot_mode == double_in(frame, 752).clamped(i32::MIN as int, i32::MAX as int)
    &&& driver.safety_mode == safety_mode_in(frame)
    &&& driver.speed_scaling == double_in(frame, 936)
    &&& driver.digital_outputs == double_in(frame, 1040).clamped(0, u32::MAX as int)
    &&& driver.program_state_raw == double_in(frame, 1048).clamped(
        i32::MIN as int,
        i32::MAX as int,
    )
}

/// The safety mode a frame reports.
pub open spec fn safety_mode_in(frame: Seq<u8>) -> int {
    double_in(frame, 808).clamped(i32::MIN as int, i32::MAX as int)
}

/// Whether a frame reports a safety stop.
pub open spec fn is_stop(frame: Seq<u8>) -> bool {
    SafetyMode::encoded(safety_mode_in(frame) as i32).stops()
}

/// What a frame makes of the driver state: `settled` is the sender of the goal that a safety
/// stop ends.
pub open spec fn takes_in<G, F, S>(
    before: DriverState<G, F, S>,
    frame: Seq<u8>,
    after: DriverState<G, F, S>,
    settled: Option<G>,
) -> bool {
    &&& shows(after, frame)
    &&& if is_stop(frame) {
        &&& settled == before.goal_sender
        &&& after.goal_sender is None
        &&& after.feedback_sender is None
        &&& after.goal_id is None
    } else {
        &&& settled is None
        &&& after.goal_sender == before.goal_sender
        &&& after.feedback_sender == before.feedback_sender
        &&& after.goal_id == before.goal_id
    }
    &&& after == (DriverState {
        joint_values: after.joint_values,
        joint_speeds: after.joint_speeds,
        tcp_pose: after.tcp_pose,
        forces: after.forces,
        digital_inputs: after.digital_inputs,
        robot_mode: after.robot_mode,
        safety_mode: after.safety_mode,
        speed_scaling: after.speed_scaling,
        digital_outputs: after.digital_outputs,
        program_state_raw: after.program_state_raw,
        goal_sender: after.goal_sender,
        feedback_sender: after.feedback_sender,
        goal_id: after.goal_id,
        ..before
    })
}

/// Read a frame into the driver state.
///
/// A safety stop means the script cannot finish, so an active goal is to be settled with
/// `false`: its sender is handed out, where it has not been settled yet. `REDUCED` is no such
/// stop: it is a normal operating mode inside a reduced-speed zone.
pub fn apply_frame<G, F, S>(driver: &mut DriverState<G, F, S>, frame: &Vec<u8>) -> (r: Option<G>)
    requires
        frame.len() + 4 == RT_FRAME_SIZE,
    ensures
        takes_in(*old(driver), frame@, *final(driver), r),
{
    let safety_mode = read_double(frame, 808).to_i32();
    driver.joint_values = read_six(frame, 248);
    driver.joint_speeds = read_six(frame, 296);
    driver.tcp_pose = read_six(frame, 440);
    driver.forces = read_six(frame, 536);
    driver.digital_inputs = read_double(frame, 680).to_u32();
    driver.robot_mode = read_double(frame, 752).to_i32();
    driver.safety_mode = safety_mode;
    driver.speed_scaling = read_double(frame, 936);
    driver.digital_outputs = read_double(frame, 1040).to_u32();
    driver.program_state_raw = read_double(frame, 1048).to_i32();
    if safety_mode_aborts_goal(safety_mode) {
        let goal = driver.goal_sender.take();
        driver.feedback_sender = None;
        driver.goal_id = None;
        goal
    } else {
        None
    }
}

/// The realtime stream is up.
pub fn stream_up<G, F, S>(driver: &mut DriverState<G, F, S>)
    ensures
        *final(driver) == (DriverState { connected: true, ..*old(driver) }),
{
    driver.connected = true;
}

/// The realtime stream is gone, and has to be connected again.
pub fn stream_down<G, F, S>(driver: &mut DriverState<G, F, S>)
    ensures
        *final(driver) == (DriverState { connected: false, ..*old(driver) }),
{
    driver.connected = false;
}

/// A frame that reports a safety stop ends the goal that runs: its sender is handed out to be
/// settled, and nothing is left live under its id. A mode in which goals are admitted - and
/// `REDUCED` is one - ends nothing.
pub proof fn safety_stops_end_goals<G, F, S>(
    before: DriverState<G, F, S>,
    frame: Seq<u8>,
    after: DriverState<G, F, S>,
    settled: Option<G>,
)
    requires
        takes_in(before, frame, after, settled),
    ensures
        SafetyMode::encoded(after.safety_mode).stops() ==> settled == before.goal_sender
            && after.goal_sender is None && after.goal_id is None,
        SafetyMode::encoded(after.safety_mode).admits() ==> settled is None && after.goal_sender
            == before.goal_sender && after.goal_id == before.goal_id,
{
}

/// What only the dashboard can say is left to it: no frame changes the program state, whether a
/// program runs, Remote Control or the operational mode.
pub proof fn frames_leave_the_dashboards_word_alone<G, F, S>(
    before: DriverState<G, F, S>,
    frame: Seq<u8>,
    after: DriverState<G, F, S>,
    settled: Option<G>,
)
    requires
        takes_in(before, frame, after, settled),
    ensures
        after.program_state == before.program_state,
        after.program_running == before.program_running,
        after.remote_control == before.remote_control,
        after.operational_mode == before.operational_mode,
        after.motion_paused == before.motion_paused,
{
}

} // verus!
