//! The typed contract for the UR Dashboard Server on port 29999.
//!
//! Three groups of types live here:
//!
//! * [`DashboardCommand`] - everything the driver can *send*, with the wire spelling,
//!   the reply substring that means success, and how long the controller gets to
//!   answer.
//! * [`DashboardValue`] and the mode enums - everything a query can *return*,
//!   parsed out of the reply line instead of handed on as a bare `String`.
//! * [`DashboardStatus`] and [`DashboardIdentity`] - what the connection *polls*:
//!   the former every keepalive tick, the latter once per connection.

use crate::text::{
    chars_of, find_last, join2, join3, last_pos, lowercased, same, split_words, string_of,
    to_lower, to_upper, trim, trimmed, uppercased, views, word_end, word_len, words,
};
use std::time::Duration;
use vstd::prelude::*;

verus! {

/// The reply without a `"Label: "` prefix: what stands behind its last colon, trimmed.
pub open spec fn payload(response: Seq<char>) -> Seq<char> {
    trimmed(response.skip(last_pos(response, ':') + 1))
}

/// Strip a `"Label: value"` prefix if the controller sent one.
///
/// `robotmode` answers `"Robotmode: RUNNING"` and `running` answers
/// `"Program running: true"`, but `get operational mode` answers a bare
/// `"MANUAL"`. Splitting on the last colon covers both without a per-command rule.
pub fn payload_of(response: &str) -> (r: String)
    ensures
        r@ == payload(response@),
{
    let cs = chars_of(response);
    match find_last(&cs, ':') {
        Some(i) => {
            let tail = string_of(&cs, i + 1, cs.len());
            assert(tail@ =~= response@.skip(i + 1));
            trim(tail.as_str())
        },
        None => {
            assert(response@.skip(0) =~= response@);
            trim(response)
        },
    }
}

/// The flag that a reply line answers: whether its first word is `true`, in any case.
pub open spec fn flag(response: Seq<char>) -> bool {
    let w = words(payload(response));
    w.len() > 0 && lowercased(w[0]) == "true"@
}

/// Parse a `"true"`/`"false"` answer, tolerating a label prefix and a trailing
/// program name (`isProgramSaved` answers `"true <program.name>"`).
pub fn parse_flag(response: &str) -> (r: bool)
    ensures
        r == flag(response@),
{
    let w = split_words(payload_of(response).as_str());
    proof {
        assert(views(w@) == words(payload(response@)));
        assert(views(w@).len() == w@.len());
    }
    if w.len() == 0 {
        return false;
    }
    assert(views(w@)[0] == w@[0]@);
    same(to_lower(w[0].as_str()).as_str(), "true")
}

/// UR *robot* mode: the power/boot state of the arm.
///
/// Reported both by the dashboard `robotmode` query and by realtime packet offset
/// 756, hence [`RobotMode::from_rt`].
#[derive(Clone, Copy, PartialEq, Eq, Debug, Structural)]
pub enum RobotMode {
    NoController,
    Disconnected,
    ConfirmSafety,
    Booting,
    PowerOff,
    PowerOn,
    Idle,
    Backdrive,
    Running,
    UpdatingFirmware,
    Unknown,
}

impl RobotMode {
    /// The controller's spelling of the mode.
    pub open spec fn name(self) -> Seq<char> {
        match self {
            RobotMode::NoController => "NO_CONTROLLER"@,
            RobotMode::Disconnected => "DISCONNECTED"@,
            RobotMode::ConfirmSafety => "CONFIRM_SAFETY"@,
            RobotMode::Booting => "BOOTING"@,
            RobotMode::PowerOff => "POWER_OFF"@,
            RobotMode::PowerOn => "POWER_ON"@,
            RobotMode::Idle => "IDLE"@,
            RobotMode::Backdrive => "BACKDRIVE"@,
            RobotMode::Running => "RUNNING"@,
            RobotMode::UpdatingFirmware => "UPDATING_FIRMWARE"@,
            RobotMode::Unknown => "UNKNOWN"@,
        }
    }

    /// The mode that a spelling names; one that names none is `Unknown`.
    pub open spec fn named(s: Seq<char>) -> RobotMode {
        if s == "NO_CONTROLLER"@ {
            RobotMode::NoController
        } else if s == "DISCONNECTED"@ {
            RobotMode::Disconnected
        } else if s == "CONFIRM_SAFETY"@ {
            RobotMode::ConfirmSafety
        } else if s == "BOOTING"@ {
            RobotMode::Booting
        } else if s == "POWER_OFF"@ {
            RobotMode::PowerOff
        } else if s == "POWER_ON"@ {
            RobotMode::PowerOn
        } else if s == "IDLE"@ {
            RobotMode::Idle
        } else if s == "BACKDRIVE"@ {
            RobotMode::Backdrive
        } else if s == "RUNNING"@ {
            RobotMode::Running
        } else if s == "UPDATING_FIRMWARE"@ {
            RobotMode::UpdatingFirmware
        } else {
            RobotMode::Unknown
        }
    }

    /// The mode that a reply line reports.
    pub open spec fn reported(response: Seq<char>) -> RobotMode {
        RobotMode::named(uppercased(payload(response)))
    }

    /// The mode that realtime packet offset 756 encodes as `mode`.
    pub open spec fn encoded(mode: i32) -> RobotMode {
        if mode == -1 {
            RobotMode::NoController
        } else if mode == 0 {
            RobotMode::Disconnected
        } else if mode == 1 {
            RobotMode::ConfirmSafety
        } else if mode == 2 {
            RobotMode::Booting
        } else if mode == 3 {
            RobotMode::PowerOff
        } else if mode == 4 {
            RobotMode::PowerOn
        } else if mode == 5 {
            RobotMode::Idle
        } else if mode == 6 {
            RobotMode::Backdrive
        } else if mode == 7 {
            RobotMode::Running
        } else if mode == 8 {
            RobotMode::UpdatingFirmware
        } else {
            RobotMode::Unknown
        }
    }

    pub fn as_str(&self) -> (r: &'static str)
        ensures
            r@ == self.name(),
    {
        match self {
            RobotMode::NoController => "NO_CONTROLLER",
            RobotMode::Disconnected => "DISCONNECTED",
            RobotMode::ConfirmSafety => "CONFIRM_SAFETY",
            RobotMode::Booting => "BOOTING",
            RobotMode::PowerOff => "POWER_OFF",
            RobotMode::PowerOn => "POWER_ON",
            RobotMode::Idle => "IDLE",
            RobotMode::Backdrive => "BACKDRIVE",
            RobotMode::Running => "RUNNING",
            RobotMode::UpdatingFirmware => "UPDATING_FIRMWARE",
            RobotMode::Unknown => "UNKNOWN",
        }
    }

    /// Decode realtime packet offset 756.
    pub fn from_rt(mode: i32) -> (r: Self)
        ensures
            r == RobotMode::encoded(mode),
    {
        match mode {
            -1 => RobotMode::NoController,
            0 => RobotMode::Disconnected,
            1 => RobotMode::ConfirmSafety,
            2 => RobotMode::Booting,
            3 => RobotMode::PowerOff,
            4 => RobotMode::PowerOn,
            5 => RobotMode::Idle,
            6 => RobotMode::Backdrive,
            7 => RobotMode::Running,
            8 => RobotMode::UpdatingFirmware,
            _ => RobotMode::Unknown,
        }
    }

    /// Parse a reply, with or without its label prefix.
    pub fn parse(response: &str) -> (r: Self)
        ensures
            r == RobotMode::reported(response@),
    {
        let shouted = to_upper(payload_of(response).as_str());
        if same(&shouted, "NO_CONTROLLER") {
            RobotMode::NoController
        } else if same(&shouted, "DISCONNECTED") {
            RobotMode::Disconnected
        } else if same(&shouted, "CONFIRM_SAFETY") {
            RobotMode::ConfirmSafety
        } else if same(&shouted, "BOOTING") {
            RobotMode::Booting
        } else if same(&shouted, "POWER_OFF") {
            RobotMode::PowerOff
        } else if same(&shouted, "POWER_ON") {
            RobotMode::PowerOn
        } else if same(&shouted, "IDLE") {
            RobotMode::Idle
        } else if same(&shouted, "BACKDRIVE") {
            RobotMode::Backdrive
        } else if same(&shouted, "RUNNING") {
            RobotMode::Running
        } else if same(&shouted, "UPDATING_FIRMWARE") {
            RobotMode::UpdatingFirmware
        } else {
            RobotMode::Unknown
        }
    }
}

/// UR *safety* mode.
///
/// Reported by realtime packet offset 812 and by the deprecated dashboard
/// `safetymode` query. [`SafetyStatus`] is the finer-grained dashboard-only
/// version of the same idea.
#[derive(Clone, Copy, PartialEq, Eq, Debug, Structural)]
pub enum SafetyMode {
    Normal,
    Reduced,
    ProtectiveStop,
    Recovery,
    SafeguardStop,
    SystemEmergencyStop,
    RobotEmergencyStop,
    Violation,
    Fault,
    Unknown,
}

impl SafetyMode {
    /// The controller's spelling of the mode.
    pub open spec fn name(self) -> Seq<char> {
        match self {
            SafetyMode::Normal => "NORMAL"@,
            SafetyMode::Reduced => "REDUCED"@,
            SafetyMode::ProtectiveStop => "PROTECTIVE_STOP"@,
            SafetyMode::Recovery => "RECOVERY"@,
            SafetyMode::SafeguardStop => "SAFEGUARD_STOP"@,
            SafetyMode::SystemEmergencyStop => "SYSTEM_EMERGENCY_STOP"@,
            SafetyMode::RobotEmergencyStop => "ROBOT_EMERGENCY_STOP"@,
            SafetyMode::Violation => "VIOLATION"@,
            SafetyMode::Fault => "FAULT"@,
            SafetyMode::Unknown => "UNKNOWN"@,
        }
    }

    /// The mode that a spelling names; one that names none is `Unknown`.
    pub open spec fn named(s: Seq<char>) -> SafetyMode {
        if s == "NORMAL"@ {
            SafetyMode::Normal
        } else if s == "REDUCED"@ {
            SafetyMode::Reduced
        } else if s == "PROTECTIVE_STOP"@ {
            SafetyMode::ProtectiveStop
        } else if s == "RECOVERY"@ {
            SafetyMode::Recovery
        } else if s == "SAFEGUARD_STOP"@ {
            SafetyMode::SafeguardStop
        } else if s == "SYSTEM_EMERGENCY_STOP"@ {
            SafetyMode::SystemEmergencyStop
        } else if s == "ROBOT_EMERGENCY_STOP"@ {
            SafetyMode::RobotEmergencyStop
        } else if s == "VIOLATION"@ {
            SafetyMode::Violation
        } else if s == "FAULT"@ {
            SafetyMode::Fault
        } else {
            SafetyMode::Unknown
        }
    }

    /// The mode that a reply line reports.
    pub open spec fn reported(response: Seq<char>) -> SafetyMode {
        SafetyMode::named(uppercased(payload(response)))
    }

    /// The mode that realtime packet offset 812 encodes as `mode`.
    pub open spec fn encoded(mode: i32) -> SafetyMode {
        if mode == 1 {
            SafetyMode::Normal
        } else if mode == 2 {
            SafetyMode::Reduced
        } else if mode == 3 {
            SafetyMode::ProtectiveStop
        } else if mode == 4 {
            SafetyMode::Recovery
        } else if mode == 5 {
            SafetyMode::SafeguardStop
        } else if mode == 6 {
            SafetyMode::SystemEmergencyStop
        } else if mode == 7 {
            SafetyMode::RobotEmergencyStop
        } else if mode == 8 {
            SafetyMode::Violation
        } else if mode == 9 {
            SafetyMode::Fault
        } else {
            SafetyMode::Unknown
        }
    }

    pub fn as_str(&self) -> (r: &'static str)
        ensures
            r@ == self.name(),
    {
        match self {
            SafetyMode::Normal => "NORMAL",
            SafetyMode::Reduced => "REDUCED",
            SafetyMode::ProtectiveStop => "PROTECTIVE_STOP",
            SafetyMode::Recovery => "RECOVERY",
            SafetyMode::SafeguardStop => "SAFEGUARD_STOP",
            SafetyMode::SystemEmergencyStop => "SYSTEM_EMERGENCY_STOP",
            SafetyMode::RobotEmergencyStop => "ROBOT_EMERGENCY_STOP",
            SafetyMode::Violation => "VIOLATION",
            SafetyMode::Fault => "FAULT",
            SafetyMode::Unknown => "UNKNOWN",
        }
    }

    /// Decode realtime packet offset 812.
    pub fn from_rt(mode: i32) -> (r: Self)
        ensures
            r == SafetyMode::encoded(mode),
    {
        match mode {
            1 => SafetyMode::Normal,
            2 => SafetyMode::Reduced,
            3 => SafetyMode::ProtectiveStop,
            4 => SafetyMode::Recovery,
            5 => SafetyMode::SafeguardStop,
            6 => SafetyMode::SystemEmergencyStop,
            7 => SafetyMode::RobotEmergencyStop,
            8 => SafetyMode::Violation,
            9 => SafetyMode::Fault,
            _ => SafetyMode::Unknown,
        }
    }

    /// Parse a reply, with or without its label prefix.
    pub fn parse(response: &str) -> (r: Self)
        ensures
            r == SafetyMode::reported(response@),
    {
        let shouted = to_upper(payload_of(response).as_str());
        if same(&shouted, "NORMAL") {
            SafetyMode::Normal
        } else if same(&shouted, "REDUCED") {
            SafetyMode::Reduced
        } else if same(&shouted, "PROTECTIVE_STOP") {
            SafetyMode::ProtectiveStop
        } else if same(&shouted, "RECOVERY") {
            SafetyMode::Recovery
        } else if same(&shouted, "SAFEGUARD_STOP") {
            SafetyMode::SafeguardStop
        } else if same(&shouted, "SYSTEM_EMERGENCY_STOP") {
            SafetyMode::SystemEmergencyStop
        } else if same(&shouted, "ROBOT_EMERGENCY_STOP") {
            SafetyMode::RobotEmergencyStop
        } else if same(&shouted, "VIOLATION") {
            SafetyMode::Violation
        } else if same(&shouted, "FAULT") {
            SafetyMode::Fault
        } else {
            SafetyMode::Unknown
        }
    }

    /// Whether an in-flight goal can no longer complete in this mode.
    pub open spec fn stops(self) -> bool {
        self == SafetyMode::ProtectiveStop || self == SafetyMode::SafeguardStop || self
            == SafetyMode::SystemEmergencyStop || self == SafetyMode::RobotEmergencyStop || self
            == SafetyMode::Violation || self == SafetyMode::Fault
    }

    /// Whether a new motion request may be accepted in this mode.
    pub open spec fn admits(self) -> bool {
        self == SafetyMode::Normal || self == SafetyMode::Reduced
    }

    /// Whether an in-flight goal can no longer complete in this mode.
    ///
    /// Deliberately excludes `Reduced`, which is a normal operating mode: the robot
    /// slows down inside a reduced-speed zone but keeps running.
    pub fn aborts_goal(&self) -> (r: bool)
        ensures
            r == self.stops(),
    {
        matches!(
            self,
            SafetyMode::ProtectiveStop
                | SafetyMode::SafeguardStop
                | SafetyMode::SystemEmergencyStop
                | SafetyMode::RobotEmergencyStop
                | SafetyMode::Violation
                | SafetyMode::Fault
        )
    }

    /// Whether a new motion request may be accepted in this mode.
    pub fn accepts_goal(&self) -> (r: bool)
        ensures
            r == self.admits(),
    {
        matches!(self, SafetyMode::Normal | SafetyMode::Reduced)
    }
}

/// The dashboard `safetystatus` answer.
///
/// Strictly more detailed than [`SafetyMode`]: it distinguishes which kind of
/// safeguard stop is active. Dashboard-only - the realtime stream has no
/// equivalent field.
#[derive(Clone, Copy, PartialEq, Eq, Debug, Structural)]
pub enum SafetyStatus {
    Normal,
    Reduced,
    ProtectiveStop,
    Recovery,
    SafeguardStop,
    SystemEmergencyStop,
    RobotEmergencyStop,
    Violation,
    Fault,
    AutomaticModeSafeguardStop,
    SystemThreePositionEnablingStop,
    Unknown,
}

impl SafetyStatus {
    /// The controller's spelling of the mode.
    pub open spec fn name(self) -> Seq<char> {
        match self {
            SafetyStatus::Normal => "NORMAL"@,
            SafetyStatus::Reduced => "REDUCED"@,
            SafetyStatus::ProtectiveStop => "PROTECTIVE_STOP"@,
            SafetyStatus::Recovery => "RECOVERY"@,
            SafetyStatus::SafeguardStop => "SAFEGUARD_STOP"@,
            SafetyStatus::SystemEmergencyStop => "SYSTEM_EMERGENCY_STOP"@,
            SafetyStatus::RobotEmergencyStop => "ROBOT_EMERGENCY_STOP"@,
            SafetyStatus::Violation => "VIOLATION"@,
            SafetyStatus::Fault => "FAULT"@,
            SafetyStatus::AutomaticModeSafeguardStop => "AUTOMATIC_MODE_SAFEGUARD_STOP"@,
            SafetyStatus::SystemThreePositionEnablingStop => "SYSTEM_THREE_POSITION_ENABLING_STOP"@,
            SafetyStatus::Unknown => "UNKNOWN"@,
        }
    }

    /// The mode that a spelling names; one that names none is `Unknown`.
    pub open spec fn named(s: Seq<char>) -> SafetyStatus {
        if s == "NORMAL"@ {
            SafetyStatus::Normal
        } else if s == "REDUCED"@ {
            SafetyStatus::Reduced
        } else if s == "PROTECTIVE_STOP"@ {
            SafetyStatus::ProtectiveStop
        } else if s == "RECOVERY"@ {
            SafetyStatus::Recovery
        } else if s == "SAFEGUARD_STOP"@ {
            SafetyStatus::SafeguardStop
        } else if s == "SYSTEM_EMERGENCY_STOP"@ {
            SafetyStatus::SystemEmergencyStop
        } else if s == "ROBOT_EMERGENCY_STOP"@ {
            SafetyStatus::RobotEmergencyStop
        } else if s == "VIOLATION"@ {
            SafetyStatus::Violation
        } else if s == "FAULT"@ {
            SafetyStatus::Fault
        } else if s == "AUTOMATIC_MODE_SAFEGUARD_STOP"@ {
            SafetyStatus::AutomaticModeSafeguardStop
        } else if s == "SYSTEM_THREE_POSITION_ENABLING_STOP"@ {
            SafetyStatus::SystemThreePositionEnablingStop
        } else {
            SafetyStatus::Unknown
        }
    }

    /// The mode that a reply line reports.
    pub open spec fn reported(response: Seq<char>) -> SafetyStatus {
        SafetyStatus::named(uppercased(payload(response)))
    }

    pub fn as_str(&self) -> (r: &'static str)
        ensures
            r@ == self.name(),
    {
        match self {
            SafetyStatus::Normal => "NORMAL",
            SafetyStatus::Reduced => "REDUCED",
            SafetyStatus::ProtectiveStop => "PROTECTIVE_STOP",
            SafetyStatus::Recovery => "RECOVERY",
            SafetyStatus::SafeguardStop => "SAFEGUARD_STOP",
            SafetyStatus::SystemEmergencyStop => "SYSTEM_EMERGENCY_STOP",
            SafetyStatus::RobotEmergencyStop => "ROBOT_EMERGENCY_STOP",
            SafetyStatus::Violation => "VIOLATION",
            SafetyStatus::Fault => "FAULT",
            SafetyStatus::AutomaticModeSafeguardStop => "AUTOMATIC_MODE_SAFEGUARD_STOP",
            SafetyStatus::SystemThreePositionEnablingStop => "SYSTEM_THREE_POSITION_ENABLING_STOP",
            SafetyStatus::Unknown => "UNKNOWN",
        }
    }

    /// Parse a reply, with or without its label prefix.
    pub fn parse(response: &str) -> (r: Self)
        ensures
            r == SafetyStatus::reported(response@),
    {
        let shouted = to_upper(payload_of(response).as_str());
        if same(&shouted, "NORMAL") {
            SafetyStatus::Normal
        } else if same(&shouted, "REDUCED") {
            SafetyStatus::Reduced
        } else if same(&shouted, "PROTECTIVE_STOP") {
            SafetyStatus::ProtectiveStop
        } else if same(&shouted, "RECOVERY") {
            SafetyStatus::Recovery
        } else if same(&shouted, "SAFEGUARD_STOP") {
            SafetyStatus::SafeguardStop
        } else if same(&shouted, "SYSTEM_EMERGENCY_STOP") {
            SafetyStatus::SystemEmergencyStop
        } else if same(&shouted, "ROBOT_EMERGENCY_STOP") {
            SafetyStatus::RobotEmergencyStop
        } else if same(&shouted, "VIOLATION") {
            SafetyStatus::Violation
        } else if same(&shouted, "FAULT") {
            SafetyStatus::Fault
        } else if same(&shouted, "AUTOMATIC_MODE_SAFEGUARD_STOP") {
            SafetyStatus::AutomaticModeSafeguardStop
        } else if same(&shouted, "SYSTEM_THREE_POSITION_ENABLING_STOP") {
            SafetyStatus::SystemThreePositionEnablingStop
        } else {
            SafetyStatus::Unknown
        }
    }
}

/// PolyScope operational mode, from `get operational mode`.
///
/// `Unset` (spelled `NONE`) is the answer when no mode password has been set in Settings, not an
/// error - it means the mode is simply not in use on this robot.
#[derive(Clone, Copy, PartialEq, Eq, Debug, Structural)]
pub enum OperationalMode {
    Manual,
    Automatic,
    Unset,
    Unknown,
}

impl OperationalMode {
    /// The controller's spelling of the mode.
    pub open spec fn name(self) -> Seq<char> {
        match self {
            OperationalMode::Manual => "MANUAL"@,
            OperationalMode::Automatic => "AUTOMATIC"@,
            OperationalMode::Unset => "NONE"@,
            OperationalMode::Unknown => "UNKNOWN"@,
        }
    }

    /// The mode that a spelling names; one that names none is `Unknown`.
    pub open spec fn named(s: Seq<char>) -> OperationalMode {
        if s == "MANUAL"@ {
            OperationalMode::Manual
        } else if s == "AUTOMATIC"@ {
            OperationalMode::Automatic
        } else if s == "NONE"@ {
            OperationalMode::Unset
        } else {
            OperationalMode::Unknown
        }
    }

    /// The mode that a reply line reports.
    pub open spec fn reported(response: Seq<char>) -> OperationalMode {
        OperationalMode::named(uppercased(payload(response)))
    }

    pub fn as_str(&self) -> (r: &'static str)
        ensures
            r@ == self.name(),
    {
        match self {
            OperationalMode::Manual => "MANUAL",
            OperationalMode::Automatic => "AUTOMATIC",
            OperationalMode::Unset => "NONE",
            OperationalMode::Unknown => "UNKNOWN",
        }
    }

    /// Parse a reply, with or without its label prefix.
    pub fn parse(response: &str) -> (r: Self)
        ensures
            r == OperationalMode::reported(response@),
    {
        let shouted = to_upper(payload_of(response).as_str());
        if same(&shouted, "MANUAL") {
            OperationalMode::Manual
        } else if same(&shouted, "AUTOMATIC") {
            OperationalMode::Automatic
        } else if same(&shouted, "NONE") {
            OperationalMode::Unset
        } else {
            OperationalMode::Unknown
        }
    }

    /// The spelling `set operational mode` expects, where there is one.
    pub open spec fn setting(self) -> Option<Seq<char>> {
        match self {
            OperationalMode::Manual => Some("manual"@),
            OperationalMode::Automatic => Some("automatic"@),
            OperationalMode::Unset => None,
            OperationalMode::Unknown => None,
        }
    }

    /// The spelling `set operational mode` expects. `Unset`/`Unknown` have none -
    /// clearing the mode is `clear operational mode`, a separate command.
    pub fn wire(&self) -> (r: Option<&'static str>)
        ensures
            r is Some <==> self.setting() is Some,
            r matches Some(w) ==> self.setting() == Some(w@),
    {
        match self {
            OperationalMode::Manual => Some("manual"),
            OperationalMode::Automatic => Some("automatic"),
            OperationalMode::Unset | OperationalMode::Unknown => None,
        }
    }
}

/// State of the *loaded pendant program*, from the dashboard `programState` query.
///
/// Note this tracks the program loaded on the pendant, not a script this driver
/// injected over port 30003 - those keep `programState` at `STOPPED` while running.
/// `pause` and `play` do act on an injected script, so `Paused` is still the signal
/// that a pause took effect.
#[derive(Clone, Copy, PartialEq, Eq, Debug, Structural)]
pub enum ProgramState {
    Stopped,
    Playing,
    Paused,
    Unknown,
}

/// The text of an optional string.
pub open spec fn opt_text(s: Option<String>) -> Option<Seq<char>> {
    match s {
        Some(t) => Some(t@),
        None => None,
    }
}

impl ProgramState {
    /// The controller's spelling of the state.
    pub open spec fn name(self) -> Seq<char> {
        match self {
            ProgramState::Stopped => "STOPPED"@,
            ProgramState::Playing => "PLAYING"@,
            ProgramState::Paused => "PAUSED"@,
            ProgramState::Unknown => "UNKNOWN"@,
        }
    }

    /// The state that a spelling names; one that names none is `Unknown`.
    pub open spec fn named(s: Seq<char>) -> ProgramState {
        if s == "STOPPED"@ {
            ProgramState::Stopped
        } else if s == "PLAYING"@ {
            ProgramState::Playing
        } else if s == "PAUSED"@ {
            ProgramState::Paused
        } else {
            ProgramState::Unknown
        }
    }

    /// The state that a reply line reports: its first word, in any case.
    pub open spec fn reported(response: Seq<char>) -> ProgramState {
        let t = trimmed(response);
        ProgramState::named(uppercased(t.take(word_len(t) as int)))
    }

    /// The program name that a reply line carries behind its first word, if any.
    pub open spec fn program(response: Seq<char>) -> Option<Seq<char>> {
        let t = trimmed(response);
        let rest = trimmed(t.skip(word_len(t) as int));
        if rest.len() > 0 {
            Some(rest)
        } else {
            None
        }
    }

    pub fn as_str(&self) -> (r: &'static str)
        ensures
            r@ == self.name(),
    {
        match self {
            ProgramState::Stopped => "STOPPED",
            ProgramState::Playing => "PLAYING",
            ProgramState::Paused => "PAUSED",
            ProgramState::Unknown => "UNKNOWN",
        }
    }

    /// Split a `"STOPPED <program name>"` reply into the state and the name.
    pub fn parse(response: &str) -> (r: (Self, Option<String>))
        ensures
            r.0 == ProgramState::reported(response@),
            opt_text(r.1) == ProgramState::program(response@),
    {
        let line = trim(response);
        let cs = chars_of(line.as_str());
        assert(cs@.skip(0) =~= cs@);
        let end = word_end(&cs, 0);
        let word = string_of(&cs, 0, end);
        let tail = string_of(&cs, end, cs.len());
        assert(word@ =~= line@.take(end as int));
        assert(tail@ =~= line@.skip(end as int));
        let shouted = to_upper(word.as_str());
        let state = if same(&shouted, "STOPPED") {
            ProgramState::Stopped
        } else if same(&shouted, "PLAYING") {
            ProgramState::Playing
        } else if same(&shouted, "PAUSED") {
            ProgramState::Paused
        } else {
            ProgramState::Unknown
        };
        let program = trim(tail.as_str());
        if program.as_str().is_empty() {
            (state, None)
        } else {
            (state, Some(program))
        }
    }
}

/// Which flight report `generate flight report` should produce.
#[derive(Clone, Copy, PartialEq, Eq, Debug, Structural)]
pub enum FlightReportType {
    Controller,
    Software,
    System,
}

impl FlightReportType {
    /// The spelling of the report type on the wire.
    pub open spec fn spelling(self) -> Seq<char> {
        match self {
            FlightReportType::Controller => "controller"@,
            FlightReportType::Software => "software"@,
            FlightReportType::System => "system"@,
        }
    }

    /// The report type that an argument names; the default is `system`.
    pub open spec fn named(arg: Seq<char>) -> FlightReportType {
        if lowercased(trimmed(arg)) == "controller"@ {
            FlightReportType::Controller
        } else if lowercased(trimmed(arg)) == "software"@ {
            FlightReportType::Software
        } else {
            FlightReportType::System
        }
    }

    pub fn wire(&self) -> (r: &'static str)
        ensures
            r@ == self.spelling(),
    {
        match self {
            FlightReportType::Controller => "controller",
            FlightReportType::Software => "software",
            FlightReportType::System => "system",
        }
    }

    /// The manual makes `system` the default when no type is given.
    pub fn parse(arg: &str) -> (r: Self)
        ensures
            r == FlightReportType::named(arg@),
    {
        let lowered = to_lower(trim(arg).as_str());
        if same(&lowered, "controller") {
            FlightReportType::Controller
        } else if same(&lowered, "software") {
            FlightReportType::Software
        } else {
            FlightReportType::System
        }
    }
}

/// How long the controller gets to answer a query or an instant action, in seconds.
const QUERY_TIMEOUT: u64 = 2;

/// Actions that move the robot, the brakes or the safety system. These are
/// acknowledged quickly but not instantly, and a 2 s ceiling was tight enough to
/// drop the socket on a busy controller.
const ACTION_TIMEOUT: u64 = 5;

/// `load` and `load installation` do not answer until the program *and* its
/// installation have finished loading.
const LOAD_TIMEOUT: u64 = 30;

/// The manual: "Command can take few minutes to complete."
const FLIGHT_REPORT_TIMEOUT: u64 = 300;

/// The manual: "Command can take up to 10 minutes to complete."
const SUPPORT_FILE_TIMEOUT: u64 = 600;

/// The result of `Duration::from_secs`: a duration of that many whole seconds.
pub uninterp spec fn duration_of_seconds(seconds: u64) -> Duration;

/// `Duration::from_secs` makes a duration out of a number of whole seconds.
pub assume_specification[ Duration::from_secs ](secs: u64) -> (d: Duration)
    ensures
        d == duration_of_seconds(secs),
;

/// The result of `str::to_lowercase`: every character in its Unicode lower case.
pub uninterp spec fn unicode_lowercase(s: Seq<char>) -> Seq<char>;

/// `str::to_lowercase` maps by the Unicode lower case; on a string of ASCII characters that
/// is the ASCII lower case.
pub assume_specification[ str::to_lowercase ](s: &str) -> (r: String)
    ensures
        r@ == unicode_lowercase(s@),
        (forall|i: int| 0 <= i < s@.len() ==> (#[trigger] s@[i] as u32) < 128) ==> r@ == lowercased(
            s@,
        ),
;

/// Whether every character of `s` is an ASCII character.
pub open spec fn is_ascii_text(s: Seq<char>) -> bool {
    forall|i: int| 0 <= i < s.len() ==> (#[trigger] s[i] as u32) < 128
}

/// `s` in lower case: the ASCII lower case where it holds nothing else, and the Unicode one
/// otherwise.
pub open spec fn folded(s: Seq<char>) -> Seq<char> {
    if is_ascii_text(s) {
        lowercased(s)
    } else {
        unicode_lowercase(s)
    }
}

/// A command name as it is compared: trimmed and in lower case.
pub open spec fn command_name(name: Seq<char>) -> Seq<char> {
    folded(trimmed(name))
}

/// Everything the driver can ask the UR Dashboard Server to do.
///
/// One variant per command of the server, except `quit`: it closes the connection this
/// driver keeps open for the life of the process, so it is deliberately not exposed.
///
/// Query variants - the ones whose [`DashboardCommand::expect`] is `None` - return
/// the controller's reply as the payload of [`DashboardReply`], typed into
/// [`DashboardValue`] where there is something to type.
#[derive(Clone, PartialEq, Debug)]
pub enum DashboardCommand {
    // Program control
    Stop,
    Pause,
    /// The bare `play` primitive.
    Play,
    /// `play`, sequenced: confirmed against the program state, and falling back to
    /// re-issuing the live goal when `play` does not resume an injected script.
    Resume,
    // Power
    PowerOn,
    PowerOff,
    BrakeRelease,
    // Safety recovery
    UnlockProtectiveStop,
    CloseSafetyPopup,
    ClosePopup,
    RestartSafety,
    // Program / installation
    Load(String),
    LoadInstallation(String),
    // Operational mode
    SetOperationalMode(OperationalMode),
    GetOperationalMode,
    ClearOperationalMode,
    // Queries
    RobotMode,
    SafetyStatus,
    /// Deprecated by UR in favour of `safetystatus`, which distinguishes the kinds
    /// of safeguard stop. Kept because it is what realtime offset 812 reports, so
    /// it is the query that cross-checks the realtime stream.
    SafetyMode,
    ProgramState,
    IsProgramRunning,
    IsProgramSaved,
    IsInRemoteControl,
    GetLoadedProgram,
    GetRobotModel,
    GetSerialNumber,
    PolyscopeVersion,
    /// PolyScope 5.13.0 and later only; older controllers answer with an error.
    Version,
    // Diagnostics
    GenerateFlightReport(FlightReportType),
    GenerateSupportFile(String),
    // Misc
    Popup(String),
    AddToLog(String),
    Shutdown,
}

impl DashboardCommand {
    /// Whether a request that names `name`, with the argument `arg`, asks for this command.
    ///
    /// `name` is in lower case and neither has white space at its ends.
    pub open spec fn asked_by(self, name: Seq<char>, arg: Seq<char>) -> bool {
        match self {
            DashboardCommand::Stop => name == "stop"@,
            DashboardCommand::Pause => name == "pause"@,
            DashboardCommand::Play => name == "play"@,
            DashboardCommand::Resume => name == "resume"@,
            DashboardCommand::PowerOn => name == "power_on"@,
            DashboardCommand::PowerOff => name == "power_off"@,
            DashboardCommand::BrakeRelease => name == "brake_release"@,
            DashboardCommand::UnlockProtectiveStop => name == "unlock_protective_stop"@ || name == "reset_protective_stop"@,
            DashboardCommand::CloseSafetyPopup => name == "close_safety_popup"@,
            DashboardCommand::ClosePopup => name == "close_popup"@,
            DashboardCommand::RestartSafety => name == "restart_safety"@,
            DashboardCommand::Load(text) => name == "load"@ && text@ == arg && arg.len() > 0,
            DashboardCommand::LoadInstallation(text) => name == "load_installation"@ && text@ == arg && arg.len() > 0,
            DashboardCommand::SetOperationalMode(mode) => name == "set_operational_mode"@ && mode == OperationalMode::reported(arg) && mode.setting() is Some,
            DashboardCommand::GetOperationalMode => name == "get_operational_mode"@,
            DashboardCommand::ClearOperationalMode => name == "clear_operational_mode"@,
            DashboardCommand::RobotMode => name == "robot_mode"@,
            DashboardCommand::SafetyStatus => name == "safety_status"@,
            DashboardCommand::SafetyMode => name == "safety_mode"@,
            DashboardCommand::ProgramState => name == "program_state"@,
            DashboardCommand::IsProgramRunning => name == "is_program_running"@,
            DashboardCommand::IsProgramSaved => name == "is_program_saved"@,
            DashboardCommand::IsInRemoteControl => name == "is_in_remote_control"@,
            DashboardCommand::GetLoadedProgram => name == "get_loaded_program"@,
            DashboardCommand::GetRobotModel => name == "get_robot_model"@,
            DashboardCommand::GetSerialNumber => name == "get_serial_number"@,
            DashboardCommand::PolyscopeVersion => name == "polyscope_version"@,
            DashboardCommand::Version => name == "version"@,
            DashboardCommand::GenerateFlightReport(kind) => name == "generate_flight_report"@ && kind == FlightReportType::named(arg),
            DashboardCommand::GenerateSupportFile(text) => name == "generate_support_file"@ && text@ == arg && arg.len() > 0,
            DashboardCommand::Popup(text) => name == "popup"@ && text@ == arg,
            DashboardCommand::AddToLog(text) => name == "add_to_log"@ && text@ == arg,
            DashboardCommand::Shutdown => name == "shutdown"@,
        }
    }

    /// Whether `name` names a command that takes no argument, or that takes any.
    pub open spec fn takes_any_argument(name: Seq<char>) -> bool {
        ||| name == "stop"@
        ||| name == "pause"@
        ||| name == "play"@
        ||| name == "resume"@
        ||| name == "power_on"@
        ||| name == "power_off"@
        ||| name == "brake_release"@
        ||| name == "unlock_protective_stop"@
        ||| name == "reset_protective_stop"@
        ||| name == "close_safety_popup"@
        ||| name == "close_popup"@
        ||| name == "restart_safety"@
        ||| name == "get_operational_mode"@
        ||| name == "clear_operational_mode"@
        ||| name == "robot_mode"@
        ||| name == "safety_status"@
        ||| name == "safety_mode"@
        ||| name == "program_state"@
        ||| name == "is_program_running"@
        ||| name == "is_program_saved"@
        ||| name == "is_in_remote_control"@
        ||| name == "get_loaded_program"@
        ||| name == "get_robot_model"@
        ||| name == "get_serial_number"@
        ||| name == "polyscope_version"@
        ||| name == "version"@
        ||| name == "generate_flight_report"@
        ||| name == "popup"@
        ||| name == "add_to_log"@
        ||| name == "shutdown"@
    }

    /// What the argument of a command that cannot do without one stands for.
    pub open spec fn argument_wanted(name: Seq<char>) -> Option<Seq<char>> {
        if name == "load"@ {
            Some("a program filename"@)
        } else if name == "load_installation"@ {
            Some("an installation filename"@)
        } else if name == "generate_support_file"@ {
            Some("a directory inside the programs directory"@)
        } else {
            None
        }
    }

    /// Why a request that names `name`, with the argument `arg`, is refused; `None` where it
    /// is not.
    pub open spec fn refusal(name: Seq<char>, arg: Seq<char>) -> Option<Seq<char>> {
        if DashboardCommand::argument_wanted(name) is Some {
            if arg.len() > 0 {
                None
            } else {
                Some(
                    "'"@ + name + "' needs an argument: "@ + DashboardCommand::argument_wanted(
                        name,
                    )->0,
                )
            }
        } else if name == "set_operational_mode"@ {
            if OperationalMode::reported(arg).setting() is Some {
                None
            } else {
                Some(
                    "'set_operational_mode' needs 'manual' or 'automatic', got '"@ + arg + "'"@,
                )
            }
        } else if DashboardCommand::takes_any_argument(name) {
            None
        } else {
            Some("unknown dashboard command '"@ + name + "'"@)
        }
    }

    /// Whether a request that names `name`, with the argument `arg`, comes out as `r`: a command
    /// that it asks for, or the reason why it is refused.
    pub open spec fn parses_to(name: Seq<char>, arg: Seq<char>, r: Result<Self, String>) -> bool {
        match r {
            Ok(c) => DashboardCommand::refusal(command_name(name), trimmed(arg)) is None
                && c.asked_by(command_name(name), trimmed(arg)),
            Err(e) => DashboardCommand::refusal(command_name(name), trimmed(arg)) == Some(e@),
        }
    }

    /// The line that goes out on the socket for this command, without the newline.
    pub open spec fn line(self) -> Seq<char> {
        match self {
            DashboardCommand::Stop => "stop"@,
            DashboardCommand::Pause => "pause"@,
            DashboardCommand::Play => "play"@,
            DashboardCommand::Resume => "play"@,
            DashboardCommand::PowerOn => "power on"@,
            DashboardCommand::PowerOff => "power off"@,
            DashboardCommand::BrakeRelease => "brake release"@,
            DashboardCommand::UnlockProtectiveStop => "unlock protective stop"@,
            DashboardCommand::CloseSafetyPopup => "close safety popup"@,
            DashboardCommand::ClosePopup => "close popup"@,
            DashboardCommand::RestartSafety => "restart safety"@,
            DashboardCommand::Load(text) => "load "@ + text@,
            DashboardCommand::LoadInstallation(text) => "load installation "@ + text@,
            DashboardCommand::SetOperationalMode(mode) => "set operational mode "@ + (if mode.setting() is Some {
                mode.setting()->0
            } else {
                "manual"@
            }),
            DashboardCommand::GetOperationalMode => "get operational mode"@,
            DashboardCommand::ClearOperationalMode => "clear operational mode"@,
            DashboardCommand::RobotMode => "robotmode"@,
            DashboardCommand::SafetyStatus => "safetystatus"@,
            DashboardCommand::SafetyMode => "safetymode"@,
            DashboardCommand::ProgramState => "programState"@,
            DashboardCommand::IsProgramRunning => "running"@,
            DashboardCommand::IsProgramSaved => "isProgramSaved"@,
            DashboardCommand::IsInRemoteControl => "is in remote control"@,
            DashboardCommand::GetLoadedProgram => "get loaded program"@,
            DashboardCommand::GetRobotModel => "get robot model"@,
            DashboardCommand::GetSerialNumber => "get serial number"@,
            DashboardCommand::PolyscopeVersion => "PolyscopeVersion"@,
            DashboardCommand::Version => "version"@,
            DashboardCommand::GenerateFlightReport(kind) => "generate flight report "@ + kind.spelling(),
            DashboardCommand::GenerateSupportFile(text) => "generate support file "@ + text@,
            DashboardCommand::Popup(text) => "popup "@ + text@,
            DashboardCommand::AddToLog(text) => "addToLog "@ + text@,
            DashboardCommand::Shutdown => "shutdown"@,
        }
    }

    /// The substring of the reply that means the command took effect; `None` for a query.
    pub open spec fn acknowledgement(self) -> Option<Seq<char>> {
        match self {
            DashboardCommand::Stop => Some("Stopped"@),
            DashboardCommand::Pause => Some("Pausing program"@),
            DashboardCommand::Play => Some("Starting program"@),
            DashboardCommand::Resume => Some("Starting program"@),
            DashboardCommand::PowerOn => Some("Powering on"@),
            DashboardCommand::PowerOff => Some("Powering off"@),
            DashboardCommand::BrakeRelease => Some("Brake releasing"@),
            DashboardCommand::UnlockProtectiveStop => Some("Protective stop releasing"@),
            DashboardCommand::CloseSafetyPopup => Some("closing safety popup"@),
            DashboardCommand::ClosePopup => Some("closing popup"@),
            DashboardCommand::RestartSafety => Some("Restarting safety"@),
            DashboardCommand::Load(_) => Some("Loading program"@),
            DashboardCommand::LoadInstallation(_) => Some("Loading installation"@),
            DashboardCommand::SetOperationalMode(_) => Some("Setting operational mode"@),
            DashboardCommand::GetOperationalMode => None,
            DashboardCommand::ClearOperationalMode => Some("no longer controlled by Dashboard Server"@),
            DashboardCommand::RobotMode => None,
            DashboardCommand::SafetyStatus => None,
            DashboardCommand::SafetyMode => None,
            DashboardCommand::ProgramState => None,
            DashboardCommand::IsProgramRunning => None,
            DashboardCommand::IsProgramSaved => None,
            DashboardCommand::IsInRemoteControl => None,
            DashboardCommand::GetLoadedProgram => None,
            DashboardCommand::GetRobotModel => None,
            DashboardCommand::GetSerialNumber => None,
            DashboardCommand::PolyscopeVersion => None,
            DashboardCommand::Version => None,
            DashboardCommand::GenerateFlightReport(_) => None,
            DashboardCommand::GenerateSupportFile(_) => Some("Completed successfully"@),
            DashboardCommand::Popup(_) => Some("showing popup"@),
            DashboardCommand::AddToLog(_) => Some("Added log message"@),
            DashboardCommand::Shutdown => Some("Shutting down"@),
        }
    }

    /// How many seconds the controller gets to answer this command.
    pub open spec fn seconds_to_answer(self) -> u64 {
        match self {
            DashboardCommand::Load(_) => 30,
            DashboardCommand::LoadInstallation(_) => 30,
            DashboardCommand::GenerateFlightReport(_) => 300,
            DashboardCommand::GenerateSupportFile(_) => 600,
            DashboardCommand::Stop => 5,
            DashboardCommand::Pause => 5,
            DashboardCommand::Play => 5,
            DashboardCommand::Resume => 5,
            DashboardCommand::PowerOn => 5,
            DashboardCommand::PowerOff => 5,
            DashboardCommand::BrakeRelease => 5,
            DashboardCommand::UnlockProtectiveStop => 5,
            DashboardCommand::RestartSafety => 5,
            DashboardCommand::SetOperationalMode(_) => 5,
            DashboardCommand::ClearOperationalMode => 5,
            DashboardCommand::Shutdown => 5,
            _ => 2,
        }
    }

    /// Whether the controller carries out this command in Remote Control only.
    pub open spec fn remote_only(self) -> bool {
        ||| self is Stop
        ||| self is Pause
        ||| self is Play
        ||| self is Resume
        ||| self is PowerOn
        ||| self is PowerOff
        ||| self is BrakeRelease
        ||| self is UnlockProtectiveStop
        ||| self is CloseSafetyPopup
        ||| self is RestartSafety
        ||| self is Load
        ||| self is LoadInstallation
    }

    /// Whether `value` is what the reply line `response` to this command means.
    pub open spec fn answered(self, response: Seq<char>, value: Option<DashboardValue>) -> bool {
        match self {
            DashboardCommand::RobotMode => value == Some(
                DashboardValue::RobotMode(RobotMode::reported(response)),
            ),
            DashboardCommand::SafetyMode => value == Some(
                DashboardValue::SafetyMode(SafetyMode::reported(response)),
            ),
            DashboardCommand::SafetyStatus => value == Some(
                DashboardValue::SafetyStatus(SafetyStatus::reported(response)),
            ),
            DashboardCommand::GetOperationalMode => value == Some(
                DashboardValue::OperationalMode(OperationalMode::reported(response)),
            ),
            DashboardCommand::ProgramState => value matches Some(
                DashboardValue::ProgramState { state, program },
            ) && state == ProgramState::reported(response) && opt_text(program)
                == ProgramState::program(response),
            DashboardCommand::IsProgramRunning => value == Some(
                DashboardValue::Flag(flag(response)),
            ),
            DashboardCommand::IsProgramSaved => value == Some(
                DashboardValue::Flag(flag(response)),
            ),
            DashboardCommand::IsInRemoteControl => value == Some(
                DashboardValue::Flag(flag(response)),
            ),
            DashboardCommand::GetLoadedProgram => value matches Some(DashboardValue::Text(text))
                && text@ == payload(response),
            DashboardCommand::GetRobotModel => value matches Some(DashboardValue::Text(text))
                && text@ == trimmed(response),
            DashboardCommand::GetSerialNumber => value matches Some(DashboardValue::Text(text))
                && text@ == trimmed(response),
            DashboardCommand::PolyscopeVersion => value matches Some(DashboardValue::Text(text))
                && text@ == trimmed(response),
            DashboardCommand::Version => value matches Some(DashboardValue::Text(text)) && text@
                == trimmed(response),
            _ => value is None,
        }
    }

    /// Map the string written to `{robot}_dashboard_command` onto a command.
    ///
    /// `arg` comes from `{robot}_dashboard_command_arg` and is ignored by the
    /// variants that do not take one. `Err` carries a message meant for
    /// `{robot}_dashboard_request_result`, so a bad argument is diagnosable from
    /// Redis rather than reported as an unknown command.
    pub fn parse(name: &str, arg: &str) -> (r: Result<Self, String>)
        ensures
            DashboardCommand::parses_to(name@, arg@, r),
    {
        DashboardCommand::from_name(trim(name).as_str().to_lowercase().as_str(), trim(arg).as_str())
    }

    /// Map a command name, already trimmed and in lower case, and its trimmed argument onto
    /// a command.
    pub fn from_name(name: &str, arg: &str) -> (r: Result<Self, String>)
        ensures
            match r {
                Ok(c) => DashboardCommand::refusal(name@, arg@) is None && c.asked_by(name@, arg@),
                Err(e) => DashboardCommand::refusal(name@, arg@) == Some(e@),
            },
    {
        if let Some(what) = DashboardCommand::wanted(name) {
            if arg.is_empty() {
                let mut e = join3("'", name, "' needs an argument: ");
                e.append(what);
                return Err(e);
            }
            return if same(name, "load") {
                Ok(DashboardCommand::Load(arg.to_owned()))
            } else if same(name, "load_installation") {
                Ok(DashboardCommand::LoadInstallation(arg.to_owned()))
            } else {
                Ok(DashboardCommand::GenerateSupportFile(arg.to_owned()))
            };
        }
        if same(name, "set_operational_mode") {
            let mode = OperationalMode::parse(arg);
            return if mode.wire().is_none() {
                Err(
                    join3(
                        "'set_operational_mode' needs 'manual' or 'automatic', got '",
                        arg,
                        "'",
                    ),
                )
            } else {
                Ok(DashboardCommand::SetOperationalMode(mode))
            };
        }
        match DashboardCommand::without_demands(name, arg) {
            Some(c) => Ok(c),
            None => Err(join3("unknown dashboard command '", name, "'")),
        }
    }

    /// What argument the command `name` cannot do without.
    fn wanted(name: &str) -> (r: Option<&'static str>)
        ensures
            r is Some <==> DashboardCommand::argument_wanted(name@) is Some,
            r matches Some(w) ==> DashboardCommand::argument_wanted(name@) == Some(w@),
    {
        if same(name, "load") {
            Some("a program filename")
        } else if same(name, "load_installation") {
            Some("an installation filename")
        } else if same(name, "generate_support_file") {
            Some("a directory inside the programs directory")
        } else {
            None
        }
    }

    /// The command `name`, where it is one that any argument will do for.
    fn without_demands(name: &str, arg: &str) -> (r: Option<Self>)
        ensures
            r is Some <==> DashboardCommand::takes_any_argument(name@),
            r matches Some(c) ==> c.asked_by(name@, arg@),
    {
        if same(name, "stop") {
            Some(DashboardCommand::Stop)
        } else if same(name, "pause") {
            Some(DashboardCommand::Pause)
        } else if same(name, "play") {
            Some(DashboardCommand::Play)
        } else if same(name, "resume") {
            Some(DashboardCommand::Resume)
        } else if same(name, "power_on") {
            Some(DashboardCommand::PowerOn)
        } else if same(name, "power_off") {
            Some(DashboardCommand::PowerOff)
        } else if same(name, "brake_release") {
            Some(DashboardCommand::BrakeRelease)
        } else if same(name, "unlock_protective_stop") || same(name, "reset_protective_stop") {
            Some(DashboardCommand::UnlockProtectiveStop)
        } else if same(name, "close_safety_popup") {
            Some(DashboardCommand::CloseSafetyPopup)
        } else if same(name, "close_popup") {
            Some(DashboardCommand::ClosePopup)
        } else if same(name, "restart_safety") {
            Some(DashboardCommand::RestartSafety)
        } else if same(name, "get_operational_mode") {
            Some(DashboardCommand::GetOperationalMode)
        } else if same(name, "clear_operational_mode") {
            Some(DashboardCommand::ClearOperationalMode)
        } else if same(name, "robot_mode") {
            Some(DashboardCommand::RobotMode)
        } else if same(name, "safety_status") {
            Some(DashboardCommand::SafetyStatus)
        } else if same(name, "safety_mode") {
            Some(DashboardCommand::SafetyMode)
        } else if same(name, "program_state") {
            Some(DashboardCommand::ProgramState)
        } else if same(name, "is_program_running") {
            Some(DashboardCommand::IsProgramRunning)
        } else if same(name, "is_program_saved") {
            Some(DashboardCommand::IsProgramSaved)
        } else if same(name, "is_in_remote_control") {
            Some(DashboardCommand::IsInRemoteControl)
        } else if same(name, "get_loaded_program") {
            Some(DashboardCommand::GetLoadedProgram)
        } else if same(name, "get_robot_model") {
            Some(DashboardCommand::GetRobotModel)
        } else if same(name, "get_serial_number") {
            Some(DashboardCommand::GetSerialNumber)
        } else if same(name, "polyscope_version") {
            Some(DashboardCommand::PolyscopeVersion)
        } else if same(name, "version") {
            Some(DashboardCommand::Version)
        } else if same(name, "generate_flight_report") {
            Some(DashboardCommand::GenerateFlightReport(FlightReportType::parse(arg)))
        } else if same(name, "popup") {
            Some(DashboardCommand::Popup(arg.to_owned()))
        } else if same(name, "add_to_log") {
            Some(DashboardCommand::AddToLog(arg.to_owned()))
        } else if same(name, "shutdown") {
            Some(DashboardCommand::Shutdown)
        } else {
            None
        }
    }

    /// The line to write on the socket, without the trailing newline.
    pub fn wire(&self) -> (r: String)
        ensures
            r@ == self.line(),
    {
        match self {
            DashboardCommand::Stop => "stop".to_string(),
            DashboardCommand::Pause => "pause".to_string(),
            DashboardCommand::Play => "play".to_string(),
            DashboardCommand::Resume => "play".to_string(),
            DashboardCommand::PowerOn => "power on".to_string(),
            DashboardCommand::PowerOff => "power off".to_string(),
            DashboardCommand::BrakeRelease => "brake release".to_string(),
            DashboardCommand::UnlockProtectiveStop => "unlock protective stop".to_string(),
            DashboardCommand::CloseSafetyPopup => "close safety popup".to_string(),
            DashboardCommand::ClosePopup => "close popup".to_string(),
            DashboardCommand::RestartSafety => "restart safety".to_string(),
            DashboardCommand::Load(text) => join2("load ", text.as_str()),
            DashboardCommand::LoadInstallation(text) => join2("load installation ", text.as_str()),
            // `parse` refuses any mode without a wire spelling, so the fallback is not
            // reached through it.
            DashboardCommand::SetOperationalMode(mode) => match mode.wire() {
                Some(spelling) => join2("set operational mode ", spelling),
                None => join2("set operational mode ", "manual"),
            },
            DashboardCommand::GetOperationalMode => "get operational mode".to_string(),
            DashboardCommand::ClearOperationalMode => "clear operational mode".to_string(),
            DashboardCommand::RobotMode => "robotmode".to_string(),
            DashboardCommand::SafetyStatus => "safetystatus".to_string(),
            DashboardCommand::SafetyMode => "safetymode".to_string(),
            DashboardCommand::ProgramState => "programState".to_string(),
            DashboardCommand::IsProgramRunning => "running".to_string(),
            DashboardCommand::IsProgramSaved => "isProgramSaved".to_string(),
            DashboardCommand::IsInRemoteControl => "is in remote control".to_string(),
            DashboardCommand::GetLoadedProgram => "get loaded program".to_string(),
            DashboardCommand::GetRobotModel => "get robot model".to_string(),
            DashboardCommand::GetSerialNumber => "get serial number".to_string(),
            DashboardCommand::PolyscopeVersion => "PolyscopeVersion".to_string(),
            DashboardCommand::Version => "version".to_string(),
            DashboardCommand::GenerateFlightReport(kind) => join2("generate flight report ", kind.wire()),
            DashboardCommand::GenerateSupportFile(text) => join2("generate support file ", text.as_str()),
            DashboardCommand::Popup(text) => join2("popup ", text.as_str()),
            DashboardCommand::AddToLog(text) => join2("addToLog ", text.as_str()),
            DashboardCommand::Shutdown => "shutdown".to_string(),
        }
    }

    /// Substring of the reply that means the command took effect.
    ///
    /// `None` marks a query: there is no fixed reply to match, so any reply at all
    /// is a success and the reply itself is the answer.
    pub fn expect(&self) -> (r: Option<&'static str>)
        ensures
            r is Some <==> self.acknowledgement() is Some,
            r matches Some(a) ==> self.acknowledgement() == Some(a@),
    {
        match self {
            DashboardCommand::Stop => Some("Stopped"),
            DashboardCommand::Pause => Some("Pausing program"),
            DashboardCommand::Play => Some("Starting program"),
            DashboardCommand::Resume => Some("Starting program"),
            DashboardCommand::PowerOn => Some("Powering on"),
            DashboardCommand::PowerOff => Some("Powering off"),
            DashboardCommand::BrakeRelease => Some("Brake releasing"),
            DashboardCommand::UnlockProtectiveStop => Some("Protective stop releasing"),
            DashboardCommand::CloseSafetyPopup => Some("closing safety popup"),
            DashboardCommand::ClosePopup => Some("closing popup"),
            DashboardCommand::RestartSafety => Some("Restarting safety"),
            DashboardCommand::Load(_) => Some("Loading program"),
            DashboardCommand::LoadInstallation(_) => Some("Loading installation"),
            DashboardCommand::SetOperationalMode(_) => Some("Setting operational mode"),
            DashboardCommand::GetOperationalMode => None,
            DashboardCommand::ClearOperationalMode => Some("no longer controlled by Dashboard Server"),
            DashboardCommand::RobotMode => None,
            DashboardCommand::SafetyStatus => None,
            DashboardCommand::SafetyMode => None,
            DashboardCommand::ProgramState => None,
            DashboardCommand::IsProgramRunning => None,
            DashboardCommand::IsProgramSaved => None,
            DashboardCommand::IsInRemoteControl => None,
            DashboardCommand::GetLoadedProgram => None,
            DashboardCommand::GetRobotModel => None,
            DashboardCommand::GetSerialNumber => None,
            DashboardCommand::PolyscopeVersion => None,
            DashboardCommand::Version => None,
            DashboardCommand::GenerateFlightReport(_) => None,
            DashboardCommand::GenerateSupportFile(_) => Some("Completed successfully"),
            DashboardCommand::Popup(_) => Some("showing popup"),
            DashboardCommand::AddToLog(_) => Some("Added log message"),
            DashboardCommand::Shutdown => Some("Shutting down"),
        }
    }

    /// How long the controller gets to answer this command, in seconds.
    ///
    /// A single flat timeout for every command is wrong in both directions: 2 s
    /// drops the socket on a `load`, and 10 minutes would hide a dead controller
    /// behind a `robotmode` query.
    pub fn reply_seconds(&self) -> (r: u64)
        ensures
            r == self.seconds_to_answer(),
    {
        match self {
            DashboardCommand::Load(_)
            | DashboardCommand::LoadInstallation(_) => LOAD_TIMEOUT,
            DashboardCommand::GenerateFlightReport(_) => FLIGHT_REPORT_TIMEOUT,
            DashboardCommand::GenerateSupportFile(_) => SUPPORT_FILE_TIMEOUT,
            DashboardCommand::Stop
            | DashboardCommand::Pause
            | DashboardCommand::Play
            | DashboardCommand::Resume
            | DashboardCommand::PowerOn
            | DashboardCommand::PowerOff
            | DashboardCommand::BrakeRelease
            | DashboardCommand::UnlockProtectiveStop
            | DashboardCommand::RestartSafety
            | DashboardCommand::SetOperationalMode(_)
            | DashboardCommand::ClearOperationalMode
            | DashboardCommand::Shutdown => ACTION_TIMEOUT,
            _ => QUERY_TIMEOUT,
        }
    }

    /// How long the controller gets to answer this command.
    pub fn reply_timeout(&self) -> (r: Duration)
        ensures
            r == duration_of_seconds(self.seconds_to_answer()),
    {
        Duration::from_secs(self.reply_seconds())
    }

    /// Whether the manual marks this command "Only Remote Control".
    ///
    /// Used to *annotate* a refusal, not to pre-reject one: the controller's own
    /// "Failed to execute: <command>" is the truthful answer, and this only explains
    /// why. Pre-rejecting would also block these commands on a robot where the
    /// Remote Control feature is simply not enabled, which is a different problem
    /// with a different fix.
    pub fn requires_remote_control(&self) -> (r: bool)
        ensures
            r == self.remote_only(),
    {
        matches!(
            self,
            DashboardCommand::Stop
                | DashboardCommand::Pause
                | DashboardCommand::Play
                | DashboardCommand::Resume
                | DashboardCommand::PowerOn
                | DashboardCommand::PowerOff
                | DashboardCommand::BrakeRelease
                | DashboardCommand::UnlockProtectiveStop
                | DashboardCommand::CloseSafetyPopup
                | DashboardCommand::RestartSafety
                | DashboardCommand::Load(_)
                | DashboardCommand::LoadInstallation(_)
        )
    }

    /// Type the controller's reply, for the commands whose reply carries a value.
    ///
    /// `None` means there is nothing to type - an action's acknowledgement, or a
    /// free-form answer like a flight report id.
    pub fn parse_reply(&self, response: &str) -> (r: Option<DashboardValue>)
        ensures
            self.answered(response@, r),
    {
        match self {
            DashboardCommand::RobotMode => {
                Some(DashboardValue::RobotMode(RobotMode::parse(response)))
            },
            DashboardCommand::SafetyMode => {
                Some(DashboardValue::SafetyMode(SafetyMode::parse(response)))
            },
            DashboardCommand::SafetyStatus => {
                Some(DashboardValue::SafetyStatus(SafetyStatus::parse(response)))
            },
            DashboardCommand::ProgramState => {
                let (state, program) = ProgramState::parse(response);
                Some(DashboardValue::ProgramState { state, program })
            },
            DashboardCommand::GetOperationalMode => Some(
                DashboardValue::OperationalMode(OperationalMode::parse(response)),
            ),
            DashboardCommand::IsProgramRunning
            | DashboardCommand::IsProgramSaved
            | DashboardCommand::IsInRemoteControl => {
                Some(DashboardValue::Flag(parse_flag(response)))
            },
            // "Loaded program: <path>" or "No program loaded" - strip the label,
            // keep whatever the controller said.
            DashboardCommand::GetLoadedProgram => {
                Some(DashboardValue::Text(payload_of(response)))
            },
            DashboardCommand::GetRobotModel
            | DashboardCommand::GetSerialNumber
            | DashboardCommand::PolyscopeVersion
            | DashboardCommand::Version => Some(DashboardValue::Text(trim(response))),
            _ => None,
        }
    }
}

/// The typed answer to a query command.
#[derive(Clone, PartialEq, Debug)]
pub enum DashboardValue {
    RobotMode(RobotMode),
    SafetyMode(SafetyMode),
    SafetyStatus(SafetyStatus),
    ProgramState { state: ProgramState, program: Option<String> },
    OperationalMode(OperationalMode),
    /// `running`, `is in remote control`, `isProgramSaved`.
    Flag(bool),
    /// Serial number, robot model, version, loaded program.
    Text(String),
}

impl DashboardValue {
    /// The boolean behind a [`DashboardValue::Flag`], if this is one.
    pub fn as_flag(&self) -> (r: Option<bool>)
        ensures
            r == (match *self {
                DashboardValue::Flag(v) => Some(v),
                _ => None,
            }),
    {
        match self {
            DashboardValue::Flag(v) => Some(*v),
            _ => None,
        }
    }

    /// The string behind a [`DashboardValue::Text`], if this is one.
    pub fn as_text(&self) -> (r: Option<&str>)
        ensures
            match *self {
                DashboardValue::Text(v) => r matches Some(t) && t@ == v@,
                _ => r is None,
            },
    {
        match self {
            DashboardValue::Text(v) => Some(v.as_str()),
            _ => None,
        }
    }
}

/// The outcome of one dashboard command.
///
/// `response` is the controller's reply line, verbatim and trimmed, and is what
/// reaches `{robot}_dashboard_request_result`. For a query that line *is* the
/// answer; for an action it is kept so a failure can say what the controller
/// actually said instead of just `false`. `value` is the same reply typed, for
/// callers inside the driver that need to branch on it.
#[derive(Clone, Debug)]
pub struct DashboardReply {
    pub success: bool,
    pub response: String,
    pub value: Option<DashboardValue>,
}

impl DashboardReply {
    pub fn ok(response: &str) -> (r: Self)
        ensures
            r.success,
            r.response@ == response@,
            r.value is None,
    {
        DashboardReply { success: true, response: response.to_owned(), value: None }
    }

    pub fn fail(response: &str) -> (r: Self)
        ensures
            !r.success,
            r.response@ == response@,
            r.value is None,
    {
        DashboardReply { success: false, response: response.to_owned(), value: None }
    }

    /// Attach the typed reply.
    pub fn with_value(self, value: Option<DashboardValue>) -> (r: Self)
        ensures
            r.success == self.success,
            r.response == self.response,
            r.value == value,
    {
        DashboardReply { success: self.success, response: self.response, value }
    }
}

/// What the dashboard connection polls on every keepalive tick.
///
/// None of this is available from the realtime stream: offset 1052 does not carry
/// the stopped/playing/paused enum, and Remote Control and the operational mode are
/// not in the packet at all.
#[derive(Clone, PartialEq, Debug)]
pub struct DashboardStatus {
    pub remote_control: bool,
    pub program_state: ProgramState,
    pub program_name: Option<String>,
    pub program_running: bool,
    pub operational_mode: OperationalMode,
}

impl Default for DashboardStatus {
    fn default() -> (r: Self)
        ensures
            !r.remote_control,
            r.program_state == ProgramState::Unknown,
            r.program_name is None,
            !r.program_running,
            r.operational_mode == OperationalMode::Unknown,
    {
        DashboardStatus {
            remote_control: false,
            program_state: ProgramState::Unknown,
            program_name: None,
            program_running: false,
            operational_mode: OperationalMode::Unknown,
        }
    }
}

/// Fixed facts about the controller, read once per connection rather than on every
/// keepalive tick.
#[derive(Clone, PartialEq, Debug)]
pub struct DashboardIdentity {
    pub robot_model: String,
    pub serial_number: String,
    pub polyscope_version: String,
}

impl Default for DashboardIdentity {
    fn default() -> (r: Self)
        ensures
            r.robot_model@.len() == 0,
            r.serial_number@.len() == 0,
            r.polyscope_version@.len() == 0,
    {
        DashboardIdentity {
            robot_model: String::new(),
            serial_number: String::new(),
            polyscope_version: String::new(),
        }
    }
}

} // verus!
