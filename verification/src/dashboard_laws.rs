//! What holds of the dashboard contract as a whole: spellings read back as what they spell,
//! command names are unambiguous, and nothing that can be sent closes the connection.

use crate::dashboard_types::{
    command_name, is_ascii_text, opt_text, payload, DashboardCommand, DashboardValue,
    OperationalMode, ProgramState, RobotMode, SafetyMode, SafetyStatus,
};
use crate::text::{
    is_space, last_pos, lemma_trim_start, lower, lowercased, trim_end, trim_start, trimmed,
    uppercased, word_len,
};
use vstd::prelude::*;

verus! {

/// Whether `s` is spelled as the controller spells a mode: in upper-case letters and
/// underscores.
pub open spec fn is_spelling(s: Seq<char>) -> bool {
    s.len() > 0 && forall|i: int|
        0 <= i < s.len() ==> ('A' <= #[trigger] s[i] <= 'Z' || s[i] == '_')
}

/// A text without `c` at its end leaves the last `c` where it was.
proof fn lemma_last_pos_append(a: Seq<char>, s: Seq<char>, c: char)
    requires
        forall|i: int| 0 <= i < s.len() ==> #[trigger] s[i] != c,
    ensures
        last_pos(a + s, c) == last_pos(a, c),
    decreases s.len(),
{
    if s.len() == 0 {
        assert(a + s =~= a);
    } else {
        assert((a + s).drop_last() =~= a + s.drop_last());
        assert((a + s).last() == s[s.len() - 1]);
        lemma_last_pos_append(a, s.drop_last(), c);
    }
}

/// A spelling is read back as it stands, with or without a label before it.
proof fn lemma_spelling_reads_back(label: Seq<char>, s: Seq<char>)
    requires
        is_spelling(s),
    ensures
        uppercased(payload(s)) == s,
        uppercased(payload(label + ": "@ + s)) == s,
{
    reveal_strlit(": ");
    assert(!is_space(s[0]) && !is_space(s[s.len() - 1]));
    assert(trimmed(s) == s);
    assert(uppercased(s) =~= s);
    lemma_last_pos_append(Seq::empty(), s, ':');
    assert(Seq::<char>::empty() + s =~= s);
    assert(s.skip(0) =~= s);
    let head = label + ": "@;
    lemma_last_pos_append(head, s, ':');
    assert(head.last() == ' ');
    assert(head.drop_last().last() == ':');
    assert(last_pos(head, ':') == label.len()) by {
        reveal_with_fuel(last_pos, 3);
    }
    let tail = (head + s).skip(label.len() as int + 1);
    assert(tail =~= seq![' '] + s);
    assert(tail.drop_first() =~= s);
    assert(trim_start(tail) == trim_start(s)) by {
        reveal_with_fuel(trim_start, 2);
    }
    assert(trimmed(tail) == s);
}

/// Every robot mode reads back from its own spelling, with or without a label before it.
pub proof fn robot_mode_reads_back(mode: RobotMode, label: Seq<char>)
    ensures
        RobotMode::reported(mode.name()) == mode,
        RobotMode::reported(label + ": "@ + mode.name()) == mode,
{
    reveal_strlit("NO_CONTROLLER");
    reveal_strlit("DISCONNECTED");
    reveal_strlit("CONFIRM_SAFETY");
    reveal_strlit("BOOTING");
    reveal_strlit("POWER_OFF");
    reveal_strlit("POWER_ON");
    reveal_strlit("IDLE");
    reveal_strlit("BACKDRIVE");
    reveal_strlit("RUNNING");
    reveal_strlit("UPDATING_FIRMWARE");
    reveal_strlit("UNKNOWN");
    assert("BACKDRIVE"@[0] != "POWER_OFF"@[0]);
    assert("RUNNING"@[0] != "BOOTING"@[0]);
    assert("UNKNOWN"@[0] != "BOOTING"@[0]);
    assert("UNKNOWN"@[0] != "RUNNING"@[0]);
    lemma_spelling_reads_back(label, mode.name());
}

/// Every safety mode reads back from its own spelling, with or without a label before it.
pub proof fn safety_mode_reads_back(mode: SafetyMode, label: Seq<char>)
    ensures
        SafetyMode::reported(mode.name()) == mode,
        SafetyMode::reported(label + ": "@ + mode.name()) == mode,
{
    reveal_strlit("NORMAL");
    reveal_strlit("REDUCED");
    reveal_strlit("PROTECTIVE_STOP");
    reveal_strlit("RECOVERY");
    reveal_strlit("SAFEGUARD_STOP");
    reveal_strlit("SYSTEM_EMERGENCY_STOP");
    reveal_strlit("ROBOT_EMERGENCY_STOP");
    reveal_strlit("VIOLATION");
    reveal_strlit("FAULT");
    reveal_strlit("UNKNOWN");
    assert("UNKNOWN"@[0] != "REDUCED"@[0]);
    lemma_spelling_reads_back(label, mode.name());
}

/// Every safety status reads back from its own spelling, with or without a label before it.
pub proof fn safety_status_reads_back(mode: SafetyStatus, label: Seq<char>)
    ensures
        SafetyStatus::reported(mode.name()) == mode,
        SafetyStatus::reported(label + ": "@ + mode.name()) == mode,
{
    reveal_strlit("NORMAL");
    reveal_strlit("REDUCED");
    reveal_strlit("PROTECTIVE_STOP");
    reveal_strlit("RECOVERY");
    reveal_strlit("SAFEGUARD_STOP");
    reveal_strlit("SYSTEM_EMERGENCY_STOP");
    reveal_strlit("ROBOT_EMERGENCY_STOP");
    reveal_strlit("VIOLATION");
    reveal_strlit("FAULT");
    reveal_strlit("AUTOMATIC_MODE_SAFEGUARD_STOP");
    reveal_strlit("SYSTEM_THREE_POSITION_ENABLING_STOP");
    reveal_strlit("UNKNOWN");
    assert("UNKNOWN"@[0] != "REDUCED"@[0]);
    lemma_spelling_reads_back(label, mode.name());
}

/// Every operational mode reads back from its own spelling, with or without a label before it.
pub proof fn operational_mode_reads_back(mode: OperationalMode, label: Seq<char>)
    ensures
        OperationalMode::reported(mode.name()) == mode,
        OperationalMode::reported(label + ": "@ + mode.name()) == mode,
{
    reveal_strlit("MANUAL");
    reveal_strlit("AUTOMATIC");
    reveal_strlit("NONE");
    reveal_strlit("UNKNOWN");
    lemma_spelling_reads_back(label, mode.name());
}

/// A program state reads back from its own spelling, with no program name.
pub proof fn program_state_reads_back(state: ProgramState)
    ensures
        ProgramState::reported(state.name()) == state,
        ProgramState::program(state.name()) is None,
{
    reveal_strlit("STOPPED");
    reveal_strlit("PLAYING");
    reveal_strlit("PAUSED");
    reveal_strlit("UNKNOWN");
    assert("PLAYING"@[0] != "STOPPED"@[0]);
    assert("UNKNOWN"@[0] != "STOPPED"@[0]);
    assert("UNKNOWN"@[0] != "PLAYING"@[0]);
    let s = state.name();
    assert(is_spelling(s));
    assert(!is_space(s[0]) && !is_space(s[s.len() - 1]));
    assert(trimmed(s) == s);
    assert(uppercased(s) =~= s);
    lemma_one_word(s);
    assert(s.take(s.len() as int) =~= s);
    assert(s.skip(s.len() as int) =~= Seq::empty());
}

proof fn lemma_one_word(s: Seq<char>)
    requires
        forall|i: int| 0 <= i < s.len() ==> !is_space(#[trigger] s[i]),
    ensures
        word_len(s) == s.len(),
    decreases s.len(),
{
    if s.len() > 0 {
        assert forall|i: int| 0 <= i < s.drop_first().len() implies !is_space(
            #[trigger] s.drop_first()[i],
        ) by {
            assert(s.drop_first()[i] == s[i + 1]);
        }
        lemma_one_word(s.drop_first());
    }
}

/// What the realtime stream encodes is what the dashboard spells: a mode that the stream
/// reports is read back from the name the driver publishes for it.
pub proof fn realtime_modes_agree_with_dashboard(mode: i32)
    ensures
        RobotMode::reported(RobotMode::encoded(mode).name()) == RobotMode::encoded(mode),
        SafetyMode::reported(SafetyMode::encoded(mode).name()) == SafetyMode::encoded(mode),
{
    robot_mode_reads_back(RobotMode::encoded(mode), Seq::empty());
    safety_mode_reads_back(SafetyMode::encoded(mode), Seq::empty());
}

/// A mode in which a new goal is admitted never ends one that runs, and `Reduced` is such a
/// mode.
pub proof fn admitting_modes_never_stop_a_goal(mode: SafetyMode)
    ensures
        mode.admits() ==> !mode.stops(),
        SafetyMode::Reduced.admits(),
{
}

/// What `trim_end` leaves is the beginning of its argument and does not end in white space.
proof fn lemma_trim_end(s: Seq<char>)
    ensures
        trim_end(s).len() <= s.len(),
        trim_end(s) == s.take(trim_end(s).len() as int),
        trim_end(s).len() > 0 ==> !is_space(trim_end(s).last()),
    decreases s.len(),
{
    if s.len() > 0 && is_space(s.last()) {
        lemma_trim_end(s.drop_last());
        let n = trim_end(s).len() as int;
        assert(s.drop_last().take(n) =~= s.take(n));
    } else {
        assert(s.take(s.len() as int) =~= s);
    }
}

/// A trimmed text has nothing left to trim.
proof fn lemma_trimmed_twice(s: Seq<char>)
    ensures
        trimmed(trimmed(s)) == trimmed(s),
{
    let t = trim_start(s);
    lemma_trim_start(s);
    lemma_trim_end(t);
}

proof fn lemma_lower(c: char)
    ensures
        is_space(lower(c)) == is_space(c),
        lower(lower(c)) == lower(c),
        (c as u32) < 128 ==> (lower(c) as u32) < 128,
{
}

/// Lower case and trimming do not disturb each other.
proof fn lemma_trim_lowercased(s: Seq<char>)
    ensures
        trimmed(lowercased(s)) == lowercased(trimmed(s)),
{
    lemma_trim_start_lowercased(s);
    lemma_trim_end_lowercased(trim_start(s));
}

proof fn lemma_trim_start_lowercased(s: Seq<char>)
    ensures
        trim_start(lowercased(s)) == lowercased(trim_start(s)),
    decreases s.len(),
{
    if s.len() > 0 {
        lemma_lower(s[0]);
        assert(lowercased(s).drop_first() =~= lowercased(s.drop_first()));
        lemma_trim_start_lowercased(s.drop_first());
    }
}

proof fn lemma_trim_end_lowercased(s: Seq<char>)
    ensures
        trim_end(lowercased(s)) == lowercased(trim_end(s)),
    decreases s.len(),
{
    if s.len() > 0 {
        lemma_lower(s.last());
        assert(lowercased(s).drop_last() =~= lowercased(s.drop_last()));
        lemma_trim_end_lowercased(s.drop_last());
    }
}

/// Trimming an ASCII text leaves one.
proof fn lemma_trimmed_is_ascii(s: Seq<char>)
    requires
        is_ascii_text(s),
    ensures
        is_ascii_text(trimmed(s)),
{
    lemma_trim_start_is_ascii(s);
    let t = trim_start(s);
    lemma_trim_end(t);
    assert forall|i: int| 0 <= i < trimmed(s).len() implies (#[trigger] trimmed(s)[i] as u32)
        < 128 by {
        assert(trimmed(s)[i] == t[i]);
    }
}

proof fn lemma_trim_start_is_ascii(s: Seq<char>)
    requires
        is_ascii_text(s),
    ensures
        is_ascii_text(trim_start(s)),
    decreases s.len(),
{
    if s.len() > 0 && is_space(s[0]) {
        assert forall|i: int| 0 <= i < s.drop_first().len() implies (
        #[trigger] s.drop_first()[i] as u32) < 128 by {
            assert(s.drop_first()[i] == s[i + 1]);
        }
        lemma_trim_start_is_ascii(s.drop_first());
    }
}

/// White space around a command name or its argument never changes what a request comes out as,
/// the reason of a refusal included.
pub proof fn blanks_do_not_matter(
    name: Seq<char>,
    arg: Seq<char>,
    r: Result<DashboardCommand, String>,
)
    ensures
        DashboardCommand::parses_to(name, arg, r) == DashboardCommand::parses_to(
            trimmed(name),
            trimmed(arg),
            r,
        ),
{
    lemma_trimmed_twice(name);
    lemma_trimmed_twice(arg);
}

/// The letter case of a command name never changes what a request comes out as, the reason of a
/// refusal included: not between two spellings of an ASCII name, and not between such a name and
/// the form in which it is compared.
pub proof fn letter_case_does_not_matter(
    a: Seq<char>,
    b: Seq<char>,
    arg: Seq<char>,
    r: Result<DashboardCommand, String>,
)
    requires
        is_ascii_text(a),
        is_ascii_text(b),
        lowercased(a) == lowercased(b),
    ensures
        DashboardCommand::parses_to(a, arg, r) == DashboardCommand::parses_to(b, arg, r),
        DashboardCommand::parses_to(a, arg, r) == DashboardCommand::parses_to(
            command_name(a),
            trimmed(arg),
            r,
        ),
{
    lemma_trimmed_is_ascii(a);
    lemma_trimmed_is_ascii(b);
    lemma_trim_lowercased(a);
    lemma_trim_lowercased(b);
    assert(command_name(a) == command_name(b));
    let t = trimmed(a);
    let l = lowercased(t);
    assert forall|i: int| 0 <= i < l.len() implies (#[trigger] l[i] as u32) < 128 by {
        lemma_lower(t[i]);
    }
    assert(lowercased(l) =~= l) by {
        assert forall|i: int| 0 <= i < l.len() implies #[trigger] lowercased(l)[i] == l[i] by {
            lemma_lower(t[i]);
        }
    }
    lemma_trim_lowercased(t);
    lemma_trimmed_twice(a);
    assert(command_name(l) == l);
    lemma_trimmed_twice(arg);
}

/// Two spellings of a name that are the same in lower case, with the white space around them
/// dropped, mean the same, whether there is such a command or not. This holds of every name, also
/// of those outside ASCII.
pub proof fn spellings_in_one_lower_case_mean_one_thing(
    a: Seq<char>,
    b: Seq<char>,
    arg: Seq<char>,
    r: Result<DashboardCommand, String>,
)
    requires
        command_name(a) == command_name(b),
    ensures
        DashboardCommand::parses_to(a, arg, r) == DashboardCommand::parses_to(b, arg, r),
{
}

/// Whether `name` is in lower-case letters and underscores, as command names are.
pub open spec fn is_plain_name(name: Seq<char>) -> bool {
    name.len() > 0 && forall|i: int|
        0 <= i < name.len() ==> ('a' <= #[trigger] name[i] <= 'z' || name[i] == '_')
}

/// Whether `name`, as it is compared, is that of a command.
pub open spec fn names_a_command(name: Seq<char>) -> bool {
    ||| DashboardCommand::takes_any_argument(name)
    ||| DashboardCommand::argument_wanted(name) is Some
    ||| name == "set_operational_mode"@
}

/// Command names are in lower-case letters and underscores.
proof fn lemma_command_names_are_plain(name: Seq<char>)
    requires
        names_a_command(name),
    ensures
        is_plain_name(name),
{
    reveal_strlit("stop");
    reveal_strlit("pause");
    reveal_strlit("play");
    reveal_strlit("resume");
    reveal_strlit("power_on");
    reveal_strlit("power_off");
    reveal_strlit("brake_release");
    reveal_strlit("unlock_protective_stop");
    reveal_strlit("reset_protective_stop");
    reveal_strlit("close_safety_popup");
    reveal_strlit("close_popup");
    reveal_strlit("restart_safety");
    reveal_strlit("get_operational_mode");
    reveal_strlit("clear_operational_mode");
    reveal_strlit("robot_mode");
    reveal_strlit("safety_status");
    reveal_strlit("safety_mode");
    reveal_strlit("program_state");
    reveal_strlit("is_program_running");
    reveal_strlit("is_program_saved");
    reveal_strlit("is_in_remote_control");
    reveal_strlit("get_loaded_program");
    reveal_strlit("get_robot_model");
    reveal_strlit("get_serial_number");
    reveal_strlit("polyscope_version");
    reveal_strlit("version");
    reveal_strlit("generate_flight_report");
    reveal_strlit("popup");
    reveal_strlit("add_to_log");
    reveal_strlit("shutdown");
    reveal_strlit("load");
    reveal_strlit("load_installation");
    reveal_strlit("generate_support_file");
    reveal_strlit("set_operational_mode");
}

/// The name of a command, in whatever letters it was spelled - inside ASCII or not - means the
/// same as the form in which it is compared: what a request comes out as is the same, and so is
/// the reason where its argument is refused.
pub proof fn known_names_mean_one_thing(
    name: Seq<char>,
    arg: Seq<char>,
    r: Result<DashboardCommand, String>,
)
    requires
        names_a_command(command_name(name)),
    ensures
        DashboardCommand::parses_to(name, arg, r) == DashboardCommand::parses_to(
            command_name(name),
            trimmed(arg),
            r,
        ),
{
    let n = command_name(name);
    lemma_command_names_are_plain(n);
    assert(!is_space(n[0]) && !is_space(n.last()));
    assert(trimmed(n) == n);
    assert(lowercased(n) =~= n);
    assert(is_ascii_text(n));
    lemma_trimmed_twice(arg);
}

/// An argument that a command keeps is the one that was given, letter for letter: only white
/// space around it is dropped.
pub proof fn arguments_keep_their_case(name: Seq<char>, arg: Seq<char>, c: DashboardCommand)
    requires
        DashboardCommand::parses_to(name, arg, Ok(c)),
    ensures
        match c {
            DashboardCommand::Load(text) => text@ == trimmed(arg),
            DashboardCommand::LoadInstallation(text) => text@ == trimmed(arg),
            DashboardCommand::GenerateSupportFile(text) => text@ == trimmed(arg),
            DashboardCommand::Popup(text) => text@ == trimmed(arg),
            DashboardCommand::AddToLog(text) => text@ == trimmed(arg),
            _ => true,
        },
{
}

/// A name and an argument ask for one command line at most, and for none where they are
/// refused.
pub proof fn command_names_are_unambiguous(
    a: DashboardCommand,
    b: DashboardCommand,
    name: Seq<char>,
    arg: Seq<char>,
)
    requires
        a.asked_by(name, arg),
        b.asked_by(name, arg),
    ensures
        a.line() == b.line(),
        a.acknowledgement() == b.acknowledgement(),
        a.seconds_to_answer() == b.seconds_to_answer(),
        a.remote_only() == b.remote_only(),
        DashboardCommand::refusal(name, arg) is None,
{
    reveal_strlit("stop");
    assert("stop"@.len() == 4);
    reveal_strlit("pause");
    assert("pause"@.len() == 5);
    reveal_strlit("play");
    assert("play"@.len() == 4);
    reveal_strlit("resume");
    assert("resume"@.len() == 6);
    reveal_strlit("power_on");
    assert("power_on"@.len() == 8);
    reveal_strlit("power_off");
    assert("power_off"@.len() == 9);
    reveal_strlit("brake_release");
    assert("brake_release"@.len() == 13);
    reveal_strlit("unlock_protective_stop");
    assert("unlock_protective_stop"@.len() == 22);
    reveal_strlit("reset_protective_stop");
    assert("reset_protective_stop"@.len() == 21);
    reveal_strlit("close_safety_popup");
    assert("close_safety_popup"@.len() == 18);
    reveal_strlit("close_popup");
    assert("close_popup"@.len() == 11);
    reveal_strlit("restart_safety");
    assert("restart_safety"@.len() == 14);
    reveal_strlit("load");
    assert("load"@.len() == 4);
    reveal_strlit("load_installation");
    assert("load_installation"@.len() == 17);
    reveal_strlit("set_operational_mode");
    assert("set_operational_mode"@.len() == 20);
    reveal_strlit("get_operational_mode");
    assert("get_operational_mode"@.len() == 20);
    reveal_strlit("clear_operational_mode");
    assert("clear_operational_mode"@.len() == 22);
    reveal_strlit("robot_mode");
    assert("robot_mode"@.len() == 10);
    reveal_strlit("safety_status");
    assert("safety_status"@.len() == 13);
    reveal_strlit("safety_mode");
    assert("safety_mode"@.len() == 11);
    reveal_strlit("program_state");
    assert("program_state"@.len() == 13);
    reveal_strlit("is_program_running");
    assert("is_program_running"@.len() == 18);
    reveal_strlit("is_program_saved");
    assert("is_program_saved"@.len() == 16);
    reveal_strlit("is_in_remote_control");
    assert("is_in_remote_control"@.len() == 20);
    reveal_strlit("get_loaded_program");
    assert("get_loaded_program"@.len() == 18);
    reveal_strlit("get_robot_model");
    assert("get_robot_model"@.len() == 15);
    reveal_strlit("get_serial_number");
    assert("get_serial_number"@.len() == 17);
    reveal_strlit("polyscope_version");
    assert("polyscope_version"@.len() == 17);
    reveal_strlit("version");
    assert("version"@.len() == 7);
    reveal_strlit("generate_flight_report");
    assert("generate_flight_report"@.len() == 22);
    reveal_strlit("generate_support_file");
    assert("generate_support_file"@.len() == 21);
    reveal_strlit("popup");
    assert("popup"@.len() == 5);
    reveal_strlit("add_to_log");
    assert("add_to_log"@.len() == 10);
    reveal_strlit("shutdown");
    assert("shutdown"@.len() == 8);
    assert("play"@[0] != "stop"@[0]);
    assert("load"@[0] != "stop"@[0]);
    assert("load"@[0] != "play"@[0]);
    assert("get_operational_mode"@[0] != "set_operational_mode"@[0]);
    assert("clear_operational_mode"@[0] != "unlock_protective_stop"@[0]);
    assert("safety_status"@[0] != "brake_release"@[0]);
    assert("safety_mode"@[0] != "close_popup"@[0]);
    assert("program_state"@[0] != "brake_release"@[0]);
    assert("program_state"@[0] != "safety_status"@[0]);
    assert("is_program_running"@[0] != "close_safety_popup"@[0]);
    assert("is_in_remote_control"@[0] != "set_operational_mode"@[0]);
    assert("is_in_remote_control"@[0] != "get_operational_mode"@[0]);
    assert("get_loaded_program"@[0] != "close_safety_popup"@[0]);
    assert("get_loaded_program"@[0] != "is_program_running"@[0]);
    assert("get_serial_number"@[0] != "load_installation"@[0]);
    assert("polyscope_version"@[0] != "load_installation"@[0]);
    assert("polyscope_version"@[0] != "get_serial_number"@[0]);
    assert("generate_flight_report"@[0] != "unlock_protective_stop"@[0]);
    assert("generate_flight_report"@[0] != "clear_operational_mode"@[0]);
    assert("generate_support_file"@[0] != "reset_protective_stop"@[0]);
    assert("popup"@[1] != "pause"@[1]);
    assert("add_to_log"@[0] != "robot_mode"@[0]);
    assert("shutdown"@[0] != "power_on"@[0]);
}

/// No command closes the connection: the line `quit` is never written.
pub proof fn nothing_sends_quit(command: DashboardCommand)
    ensures
        command.line() != "quit"@,
{
    reveal_strlit("quit");
    reveal_strlit("PolyscopeVersion");
    reveal_strlit("addToLog ");
    reveal_strlit("brake release");
    reveal_strlit("clear operational mode");
    reveal_strlit("close popup");
    reveal_strlit("close safety popup");
    reveal_strlit("generate flight report ");
    reveal_strlit("generate support file ");
    reveal_strlit("get loaded program");
    reveal_strlit("get operational mode");
    reveal_strlit("get robot model");
    reveal_strlit("get serial number");
    reveal_strlit("is in remote control");
    reveal_strlit("isProgramSaved");
    reveal_strlit("load ");
    reveal_strlit("load installation ");
    reveal_strlit("pause");
    reveal_strlit("play");
    reveal_strlit("popup ");
    reveal_strlit("power off");
    reveal_strlit("power on");
    reveal_strlit("programState");
    reveal_strlit("restart safety");
    reveal_strlit("robotmode");
    reveal_strlit("running");
    reveal_strlit("safetymode");
    reveal_strlit("safetystatus");
    reveal_strlit("set operational mode ");
    reveal_strlit("shutdown");
    reveal_strlit("stop");
    reveal_strlit("unlock protective stop");
    reveal_strlit("version");
    assert("play"@[0] != "quit"@[0]);
    assert("stop"@[0] != "quit"@[0]);
}

/// An operational mode that a request asks to set is one the controller has a word for.
pub proof fn settings_have_a_spelling(mode: OperationalMode, name: Seq<char>, arg: Seq<char>)
    requires
        DashboardCommand::SetOperationalMode(mode).asked_by(name, arg),
    ensures
        mode.setting() is Some,
        DashboardCommand::SetOperationalMode(mode).line() == "set operational mode "@
            + mode.setting()->0,
{
}

/// An action's acknowledgement carries no value; only a query's reply does.
pub proof fn only_queries_are_typed(
    command: DashboardCommand,
    response: Seq<char>,
    value: Option<DashboardValue>,
)
    requires
        command.answered(response, value),
    ensures
        value is Some ==> command.acknowledgement() is None,
{
}

/// Two typings of one reply agree: on the flag, on the text and on the mode.
pub proof fn typed_replies_are_determined(
    command: DashboardCommand,
    response: Seq<char>,
    a: Option<DashboardValue>,
    b: Option<DashboardValue>,
)
    requires
        command.answered(response, a),
        command.answered(response, b),
    ensures
        a is Some <==> b is Some,
        a matches Some(DashboardValue::Flag(x)) ==> b == Some(DashboardValue::Flag(x)),
        a matches Some(DashboardValue::Text(x)) ==> (b matches Some(DashboardValue::Text(y)) && x@
            == y@),
        a matches Some(DashboardValue::ProgramState { state, program }) ==> (b matches Some(
            DashboardValue::ProgramState { state: s, program: p },
        ) && s == state && opt_text(p) == opt_text(program)),
{
}

/// A reply that names a program behind the state is read as both.
pub proof fn program_states_carry_their_program(state: ProgramState, program: Seq<char>)
    requires
        program.len() > 0,
        !is_space(program[0]),
        !is_space(program.last()),
    ensures
        ProgramState::reported(state.name() + " "@ + program) == state,
        ProgramState::program(state.name() + " "@ + program) == Some(program),
{
    program_state_reads_back(state);
    reveal_strlit(" ");
    reveal_strlit("STOPPED");
    reveal_strlit("PLAYING");
    reveal_strlit("PAUSED");
    reveal_strlit("UNKNOWN");
    let name = state.name();
    let s = name + " "@ + program;
    assert(!is_space(s[0]) && !is_space(s.last()));
    assert(trimmed(s) == s);
    assert(trimmed(name) == name);
    lemma_one_word(name);
    lemma_word_before_blank(name, program);
    assert(s.take(name.len() as int) =~= name.take(name.len() as int));
    let tail = s.skip(name.len() as int);
    assert(tail =~= seq![' '] + program);
    assert(tail.drop_first() =~= program);
    assert(trim_start(tail) == trim_start(program));
    assert(trimmed(tail) == program);
}

proof fn lemma_word_before_blank(word: Seq<char>, rest: Seq<char>)
    requires
        forall|i: int| 0 <= i < word.len() ==> !is_space(#[trigger] word[i]),
    ensures
        word_len(word + " "@ + rest) == word.len(),
    decreases word.len(),
{
    reveal_strlit(" ");
    let s = word + " "@ + rest;
    if word.len() > 0 {
        let w = word.drop_first();
        assert forall|i: int| 0 <= i < w.len() implies !is_space(#[trigger] w[i]) by {
            assert(w[i] == word[i + 1]);
        }
        assert(!is_space(word[0]));
        assert(s.drop_first() =~= w + " "@ + rest);
        lemma_word_before_blank(w, rest);
    } else {
        assert(s[0] == ' ');
    }
}

/// Modes and states are read in any letters, small ones too.
pub proof fn modes_are_read_in_small_letters(
    robot: RobotMode,
    safety: SafetyMode,
    status: SafetyStatus,
    operational: OperationalMode,
)
    ensures
        RobotMode::reported(lowercased(robot.name())) == robot,
        SafetyMode::reported(lowercased(safety.name())) == safety,
        SafetyStatus::reported(lowercased(status.name())) == status,
        OperationalMode::reported(lowercased(operational.name())) == operational,
{
    robot_mode_reads_back(robot, Seq::empty());
    safety_mode_reads_back(safety, Seq::empty());
    safety_status_reads_back(status, Seq::empty());
    operational_mode_reads_back(operational, Seq::empty());
    lemma_modes_are_spellings(robot, safety, status, operational);
    lemma_small_letters(robot.name());
    lemma_small_letters(safety.name());
    lemma_small_letters(status.name());
    lemma_small_letters(operational.name());
}

proof fn lemma_small_letters(s: Seq<char>)
    requires
        is_spelling(s),
    ensures
        uppercased(payload(lowercased(s))) == uppercased(payload(s)),
{
    let l = lowercased(s);
    assert forall|i: int| 0 <= i < l.len() implies l[i] != ':' && !is_space(#[trigger] l[i]) by {
        assert('A' <= s[i] <= 'Z' || s[i] == '_');
    }
    lemma_last_pos_append(Seq::empty(), l, ':');
    assert(Seq::<char>::empty() + l =~= l);
    assert(l.skip(0) =~= l);
    assert(!is_space(l[0]) && !is_space(l[l.len() - 1]));
    assert(trimmed(l) == l);
    assert forall|i: int| 0 <= i < s.len() implies s[i] != ':' && !is_space(#[trigger] s[i]) by {}
    lemma_last_pos_append(Seq::empty(), s, ':');
    assert(Seq::<char>::empty() + s =~= s);
    assert(s.skip(0) =~= s);
    assert(!is_space(s[0]) && !is_space(s[s.len() - 1]));
    assert(trimmed(s) == s);
    assert forall|i: int| 0 <= i < s.len() implies #[trigger] uppercased(l)[i] == uppercased(
        s,
    )[i] by {
        assert('A' <= s[i] <= 'Z' || s[i] == '_');
    }
    assert(uppercased(l) =~= uppercased(s));
}

proof fn lemma_modes_are_spellings(
    robot: RobotMode,
    safety: SafetyMode,
    status: SafetyStatus,
    operational: OperationalMode,
)
    ensures
        is_spelling(robot.name()),
        is_spelling(safety.name()),
        is_spelling(status.name()),
        is_spelling(operational.name()),
{
    reveal_strlit("NO_CONTROLLER");
    reveal_strlit("DISCONNECTED");
    reveal_strlit("CONFIRM_SAFETY");
    reveal_strlit("BOOTING");
    reveal_strlit("POWER_OFF");
    reveal_strlit("POWER_ON");
    reveal_strlit("IDLE");
    reveal_strlit("BACKDRIVE");
    reveal_strlit("RUNNING");
    reveal_strlit("UPDATING_FIRMWARE");
    reveal_strlit("UNKNOWN");
    reveal_strlit("NORMAL");
    reveal_strlit("REDUCED");
    reveal_strlit("PROTECTIVE_STOP");
    reveal_strlit("RECOVERY");
    reveal_strlit("SAFEGUARD_STOP");
    reveal_strlit("SYSTEM_EMERGENCY_STOP");
    reveal_strlit("ROBOT_EMERGENCY_STOP");
    reveal_strlit("VIOLATION");
    reveal_strlit("FAULT");
    reveal_strlit("AUTOMATIC_MODE_SAFEGUARD_STOP");
    reveal_strlit("SYSTEM_THREE_POSITION_ENABLING_STOP");
    reveal_strlit("MANUAL");
    reveal_strlit("AUTOMATIC");
    reveal_strlit("NONE");
}

} // verus!
