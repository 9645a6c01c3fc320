//! What the lines of the dashboard protocol have to do with the names that ask for them: each
//! line is spelled after its name, no two commands share one, and each is acknowledged in words
//! of its own.

use crate::dashboard_laws::{
    operational_mode_reads_back, robot_mode_reads_back, safety_mode_reads_back,
    safety_status_reads_back,
};
use crate::dashboard_types::{
    flag, payload, DashboardCommand, DashboardValue, OperationalMode, ProgramState, RobotMode, SafetyMode,
    SafetyStatus,
};
use crate::text::{lowercased, trimmed, upper, uppercased};
use vstd::prelude::*;

verus! {

/// A name with each underscore replaced by a blank.
pub open spec fn spaced(name: Seq<char>) -> Seq<char> {
    name.map_values(
        |c: char|
            if c == '_' {
                ' '
            } else {
                c
            },
    )
}

/// A word with its first letter in upper case.
pub open spec fn capital(word: Seq<char>) -> Seq<char> {
    seq![upper(word[0])] + word.drop_first()
}

/// Whether a line is a name of two words, run together.
pub open spec fn is_run_together(name: Seq<char>, line: Seq<char>) -> bool {
    exists|a: Seq<char>, b: Seq<char>| #[trigger] (a + "_"@ + b) == name && line == a + b
}

/// Whether a line is a name of two words, run together with the second one capitalised.
pub open spec fn is_camel(name: Seq<char>, line: Seq<char>) -> bool {
    exists|a: Seq<char>, b: Seq<char>|
        #[trigger] (a + "_"@ + b) == name && b.len() > 0 && line == a + capital(b)
}

/// Whether a line is a name of three words, run together with the later ones capitalised.
pub open spec fn is_long_camel(name: Seq<char>, line: Seq<char>) -> bool {
    exists|a: Seq<char>, b: Seq<char>, c: Seq<char>| #[trigger]
        (a + "_"@ + b + "_"@ + c) == name && b.len() > 0 && c.len() > 0 && line == a + capital(b)
            + capital(c)
}

/// Whether `name` is that of a command whose line is spelled like it, word by word.
pub open spec fn is_spelled_out(name: Seq<char>) -> bool {
    ||| name == "stop"@
    ||| name == "pause"@
    ||| name == "play"@
    ||| name == "power_on"@
    ||| name == "power_off"@
    ||| name == "brake_release"@
    ||| name == "unlock_protective_stop"@
    ||| name == "close_safety_popup"@
    ||| name == "close_popup"@
    ||| name == "restart_safety"@
    ||| name == "get_operational_mode"@
    ||| name == "clear_operational_mode"@
    ||| name == "is_in_remote_control"@
    ||| name == "get_loaded_program"@
    ||| name == "get_robot_model"@
    ||| name == "get_serial_number"@
    ||| name == "version"@
    ||| name == "shutdown"@
}

/// No two names of commands are the same: they differ in length or in a letter.
proof fn lemma_names_differ()
    ensures
        "add_to_log"@.len() == 10,
        "brake_release"@.len() == 13,
        "clear_operational_mode"@.len() == 22,
        "close_popup"@.len() == 11,
        "close_safety_popup"@.len() == 18,
        "generate_flight_report"@.len() == 22,
        "generate_support_file"@.len() == 21,
        "get_loaded_program"@.len() == 18,
        "get_operational_mode"@.len() == 20,
        "get_robot_model"@.len() == 15,
        "get_serial_number"@.len() == 17,
        "is_in_remote_control"@.len() == 20,
        "is_program_running"@.len() == 18,
        "is_program_saved"@.len() == 16,
        "load"@.len() == 4,
        "load_installation"@.len() == 17,
        "pause"@.len() == 5,
        "play"@.len() == 4,
        "polyscope_version"@.len() == 17,
        "popup"@.len() == 5,
        "power_off"@.len() == 9,
        "power_on"@.len() == 8,
        "program_state"@.len() == 13,
        "reset_protective_stop"@.len() == 21,
        "restart_safety"@.len() == 14,
        "resume"@.len() == 6,
        "robot_mode"@.len() == 10,
        "safety_mode"@.len() == 11,
        "safety_status"@.len() == 13,
        "set_operational_mode"@.len() == 20,
        "shutdown"@.len() == 8,
        "stop"@.len() == 4,
        "unlock_protective_stop"@.len() == 22,
        "version"@.len() == 7,
        "add_to_log"@[0] != "robot_mode"@[0],
        "brake_release"@[0] != "program_state"@[0],
        "brake_release"@[0] != "safety_status"@[0],
        "clear_operational_mode"@[0] != "generate_flight_report"@[0],
        "clear_operational_mode"@[0] != "unlock_protective_stop"@[0],
        "close_popup"@[0] != "safety_mode"@[0],
        "close_safety_popup"@[0] != "get_loaded_program"@[0],
        "close_safety_popup"@[0] != "is_program_running"@[0],
        "generate_flight_report"@[0] != "unlock_protective_stop"@[0],
        "generate_support_file"@[0] != "reset_protective_stop"@[0],
        "get_loaded_program"@[0] != "is_program_running"@[0],
        "get_operational_mode"@[0] != "is_in_remote_control"@[0],
        "get_operational_mode"@[0] != "set_operational_mode"@[0],
        "get_serial_number"@[0] != "load_installation"@[0],
        "get_serial_number"@[0] != "polyscope_version"@[0],
        "is_in_remote_control"@[0] != "set_operational_mode"@[0],
        "load"@[0] != "play"@[0],
        "load"@[0] != "stop"@[0],
        "load_installation"@[0] != "polyscope_version"@[0],
        "pause"@[1] != "popup"@[1],
        "play"@[0] != "stop"@[0],
        "power_on"@[0] != "shutdown"@[0],
        "program_state"@[0] != "safety_status"@[0],
{
    reveal_strlit("add_to_log");
    reveal_strlit("brake_release");
    reveal_strlit("clear_operational_mode");
    reveal_strlit("close_popup");
    reveal_strlit("close_safety_popup");
    reveal_strlit("generate_flight_report");
    reveal_strlit("generate_support_file");
    reveal_strlit("get_loaded_program");
    reveal_strlit("get_operational_mode");
    reveal_strlit("get_robot_model");
    reveal_strlit("get_serial_number");
    reveal_strlit("is_in_remote_control");
    reveal_strlit("is_program_running");
    reveal_strlit("is_program_saved");
    reveal_strlit("load");
    reveal_strlit("load_installation");
    reveal_strlit("pause");
    reveal_strlit("play");
    reveal_strlit("polyscope_version");
    reveal_strlit("popup");
    reveal_strlit("power_off");
    reveal_strlit("power_on");
    reveal_strlit("program_state");
    reveal_strlit("reset_protective_stop");
    reveal_strlit("restart_safety");
    reveal_strlit("resume");
    reveal_strlit("robot_mode");
    reveal_strlit("safety_mode");
    reveal_strlit("safety_status");
    reveal_strlit("set_operational_mode");
    reveal_strlit("shutdown");
    reveal_strlit("stop");
    reveal_strlit("unlock_protective_stop");
    reveal_strlit("version");
}

proof fn lemma_spelled_out(command: DashboardCommand, name: Seq<char>, arg: Seq<char>)
    requires
        command.asked_by(name, arg),
        is_spelled_out(name),
    ensures
        command.line() == spaced(name),
{
    reveal_strlit("add_to_log");
    reveal_strlit("brake_release");
    reveal_strlit("clear_operational_mode");
    reveal_strlit("close_popup");
    reveal_strlit("close_safety_popup");
    reveal_strlit("generate_flight_report");
    reveal_strlit("generate_support_file");
    reveal_strlit("get_loaded_program");
    reveal_strlit("get_operational_mode");
    reveal_strlit("get_robot_model");
    reveal_strlit("get_serial_number");
    reveal_strlit("is_in_remote_control");
    reveal_strlit("is_program_running");
    reveal_strlit("is_program_saved");
    reveal_strlit("load");
    reveal_strlit("load_installation");
    reveal_strlit("pause");
    reveal_strlit("play");
    reveal_strlit("polyscope_version");
    reveal_strlit("popup");
    reveal_strlit("power_off");
    reveal_strlit("power_on");
    reveal_strlit("program_state");
    reveal_strlit("reset_protective_stop");
    reveal_strlit("restart_safety");
    reveal_strlit("resume");
    reveal_strlit("robot_mode");
    reveal_strlit("safety_mode");
    reveal_strlit("safety_status");
    reveal_strlit("set_operational_mode");
    reveal_strlit("shutdown");
    reveal_strlit("stop");
    reveal_strlit("unlock_protective_stop");
    reveal_strlit("version");
    assert("add_to_log"@.len() == 10);
    assert("brake_release"@.len() == 13);
    assert("clear_operational_mode"@.len() == 22);
    assert("close_popup"@.len() == 11);
    assert("close_safety_popup"@.len() == 18);
    assert("generate_flight_report"@.len() == 22);
    assert("generate_support_file"@.len() == 21);
    assert("get_loaded_program"@.len() == 18);
    assert("get_operational_mode"@.len() == 20);
    assert("get_robot_model"@.len() == 15);
    assert("get_serial_number"@.len() == 17);
    assert("is_in_remote_control"@.len() == 20);
    assert("is_program_running"@.len() == 18);
    assert("is_program_saved"@.len() == 16);
    assert("load"@.len() == 4);
    assert("load_installation"@.len() == 17);
    assert("pause"@.len() == 5);
    assert("play"@.len() == 4);
    assert("polyscope_version"@.len() == 17);
    assert("popup"@.len() == 5);
    assert("power_off"@.len() == 9);
    assert("power_on"@.len() == 8);
    assert("program_state"@.len() == 13);
    assert("reset_protective_stop"@.len() == 21);
    assert("restart_safety"@.len() == 14);
    assert("resume"@.len() == 6);
    assert("robot_mode"@.len() == 10);
    assert("safety_mode"@.len() == 11);
    assert("safety_status"@.len() == 13);
    assert("set_operational_mode"@.len() == 20);
    assert("shutdown"@.len() == 8);
    assert("stop"@.len() == 4);
    assert("unlock_protective_stop"@.len() == 22);
    assert("version"@.len() == 7);
    assert("add_to_log"@[0] != "robot_mode"@[0]);
    assert("brake_release"@[0] != "program_state"@[0]);
    assert("brake_release"@[0] != "safety_status"@[0]);
    assert("clear_operational_mode"@[0] != "generate_flight_report"@[0]);
    assert("clear_operational_mode"@[0] != "unlock_protective_stop"@[0]);
    assert("close_popup"@[0] != "safety_mode"@[0]);
    assert("close_safety_popup"@[0] != "get_loaded_program"@[0]);
    assert("close_safety_popup"@[0] != "is_program_running"@[0]);
    assert("generate_flight_report"@[0] != "unlock_protective_stop"@[0]);
    assert("generate_support_file"@[0] != "reset_protective_stop"@[0]);
    assert("get_loaded_program"@[0] != "is_program_running"@[0]);
    assert("get_operational_mode"@[0] != "is_in_remote_control"@[0]);
    assert("get_operational_mode"@[0] != "set_operational_mode"@[0]);
    assert("get_serial_number"@[0] != "load_installation"@[0]);
    assert("get_serial_number"@[0] != "polyscope_version"@[0]);
    assert("is_in_remote_control"@[0] != "set_operational_mode"@[0]);
    assert("load"@[0] != "play"@[0]);
    assert("load"@[0] != "stop"@[0]);
    assert("load_installation"@[0] != "polyscope_version"@[0]);
    assert("pause"@[1] != "popup"@[1]);
    assert("play"@[0] != "stop"@[0]);
    assert("power_on"@[0] != "shutdown"@[0]);
    assert("program_state"@[0] != "safety_status"@[0]);
    reveal_strlit("power on");
    reveal_strlit("power off");
    reveal_strlit("brake release");
    reveal_strlit("unlock protective stop");
    reveal_strlit("close safety popup");
    reveal_strlit("close popup");
    reveal_strlit("restart safety");
    reveal_strlit("get operational mode");
    reveal_strlit("clear operational mode");
    reveal_strlit("is in remote control");
    reveal_strlit("get loaded program");
    reveal_strlit("get robot model");
    reveal_strlit("get serial number");
    assert(spaced("stop"@) =~= "stop"@);
    assert(spaced("pause"@) =~= "pause"@);
    assert(spaced("play"@) =~= "play"@);
    assert(spaced("power_on"@) =~= "power on"@);
    assert(spaced("power_off"@) =~= "power off"@);
    assert(spaced("brake_release"@) =~= "brake release"@);
    assert(spaced("unlock_protective_stop"@) =~= "unlock protective stop"@);
    assert(spaced("close_safety_popup"@) =~= "close safety popup"@);
    assert(spaced("close_popup"@) =~= "close popup"@);
    assert(spaced("restart_safety"@) =~= "restart safety"@);
    assert(spaced("get_operational_mode"@) =~= "get operational mode"@);
    assert(spaced("clear_operational_mode"@) =~= "clear operational mode"@);
    assert(spaced("is_in_remote_control"@) =~= "is in remote control"@);
    assert(spaced("get_loaded_program"@) =~= "get loaded program"@);
    assert(spaced("get_robot_model"@) =~= "get robot model"@);
    assert(spaced("get_serial_number"@) =~= "get serial number"@);
    assert(spaced("version"@) =~= "version"@);
    assert(spaced("shutdown"@) =~= "shutdown"@);
}

proof fn lemma_spelled_with_argument(command: DashboardCommand, name: Seq<char>, arg: Seq<char>)
    requires
        command.asked_by(name, arg),
        name == "load"@ || name == "load_installation"@ || name == "generate_support_file"@ || name
            == "popup"@,
    ensures
        command.line() == spaced(name) + " "@ + arg,
{
    reveal_strlit(" ");
    reveal_strlit("add_to_log");
    reveal_strlit("brake_release");
    reveal_strlit("clear_operational_mode");
    reveal_strlit("close_popup");
    reveal_strlit("close_safety_popup");
    reveal_strlit("generate_flight_report");
    reveal_strlit("generate_support_file");
    reveal_strlit("get_loaded_program");
    reveal_strlit("get_operational_mode");
    reveal_strlit("get_robot_model");
    reveal_strlit("get_serial_number");
    reveal_strlit("is_in_remote_control");
    reveal_strlit("is_program_running");
    reveal_strlit("is_program_saved");
    reveal_strlit("load");
    reveal_strlit("load_installation");
    reveal_strlit("pause");
    reveal_strlit("play");
    reveal_strlit("polyscope_version");
    reveal_strlit("popup");
    reveal_strlit("power_off");
    reveal_strlit("power_on");
    reveal_strlit("program_state");
    reveal_strlit("reset_protective_stop");
    reveal_strlit("restart_safety");
    reveal_strlit("resume");
    reveal_strlit("robot_mode");
    reveal_strlit("safety_mode");
    reveal_strlit("safety_status");
    reveal_strlit("set_operational_mode");
    reveal_strlit("shutdown");
    reveal_strlit("stop");
    reveal_strlit("unlock_protective_stop");
    reveal_strlit("version");
    assert("add_to_log"@.len() == 10);
    assert("brake_release"@.len() == 13);
    assert("clear_operational_mode"@.len() == 22);
    assert("close_popup"@.len() == 11);
    assert("close_safety_popup"@.len() == 18);
    assert("generate_flight_report"@.len() == 22);
    assert("generate_support_file"@.len() == 21);
    assert("get_loaded_program"@.len() == 18);
    assert("get_operational_mode"@.len() == 20);
    assert("get_robot_model"@.len() == 15);
    assert("get_serial_number"@.len() == 17);
    assert("is_in_remote_control"@.len() == 20);
    assert("is_program_running"@.len() == 18);
    assert("is_program_saved"@.len() == 16);
    assert("load"@.len() == 4);
    assert("load_installation"@.len() == 17);
    assert("pause"@.len() == 5);
    assert("play"@.len() == 4);
    assert("polyscope_version"@.len() == 17);
    assert("popup"@.len() == 5);
    assert("power_off"@.len() == 9);
    assert("power_on"@.len() == 8);
    assert("program_state"@.len() == 13);
    assert("reset_protective_stop"@.len() == 21);
    assert("restart_safety"@.len() == 14);
    assert("resume"@.len() == 6);
    assert("robot_mode"@.len() == 10);
    assert("safety_mode"@.len() == 11);
    assert("safety_status"@.len() == 13);
    assert("set_operational_mode"@.len() == 20);
    assert("shutdown"@.len() == 8);
    assert("stop"@.len() == 4);
    assert("unlock_protective_stop"@.len() == 22);
    assert("version"@.len() == 7);
    assert("add_to_log"@[0] != "robot_mode"@[0]);
    assert("brake_release"@[0] != "program_state"@[0]);
    assert("brake_release"@[0] != "safety_status"@[0]);
    assert("clear_operational_mode"@[0] != "generate_flight_report"@[0]);
    assert("clear_operational_mode"@[0] != "unlock_protective_stop"@[0]);
    assert("close_popup"@[0] != "safety_mode"@[0]);
    assert("close_safety_popup"@[0] != "get_loaded_program"@[0]);
    assert("close_safety_popup"@[0] != "is_program_running"@[0]);
    assert("generate_flight_report"@[0] != "unlock_protective_stop"@[0]);
    assert("generate_support_file"@[0] != "reset_protective_stop"@[0]);
    assert("get_loaded_program"@[0] != "is_program_running"@[0]);
    assert("get_operational_mode"@[0] != "is_in_remote_control"@[0]);
    assert("get_operational_mode"@[0] != "set_operational_mode"@[0]);
    assert("get_serial_number"@[0] != "load_installation"@[0]);
    assert("get_serial_number"@[0] != "polyscope_version"@[0]);
    assert("is_in_remote_control"@[0] != "set_operational_mode"@[0]);
    assert("load"@[0] != "play"@[0]);
    assert("load"@[0] != "stop"@[0]);
    assert("load_installation"@[0] != "polyscope_version"@[0]);
    assert("pause"@[1] != "popup"@[1]);
    assert("play"@[0] != "stop"@[0]);
    assert("power_on"@[0] != "shutdown"@[0]);
    assert("program_state"@[0] != "safety_status"@[0]);
    reveal_strlit("load ");
    assert(spaced("load"@) + " "@ =~= "load "@);
    reveal_strlit("load installation ");
    assert(spaced("load_installation"@) + " "@ =~= "load installation "@);
    reveal_strlit("generate support file ");
    assert(spaced("generate_support_file"@) + " "@ =~= "generate support file "@);
    reveal_strlit("popup ");
    assert(spaced("popup"@) + " "@ =~= "popup "@);
}

/// Where a command is spelled like its name, its line is that name with each underscore replaced
/// by a blank, followed by the argument where it takes one.
pub proof fn lines_are_spelled_after_their_names(
    command: DashboardCommand,
    name: Seq<char>,
    arg: Seq<char>,
)
    requires
        command.asked_by(name, arg),
    ensures
        is_spelled_out(name) ==> command.line() == spaced(name),
        name == "load"@ || name == "load_installation"@ || name == "generate_support_file"@ || name
            == "popup"@ ==> command.line() == spaced(name) + " "@ + arg,
        name == "resume"@ ==> command.line() == "play"@,
        name == "reset_protective_stop"@ ==> command.line() == "unlock protective stop"@,
        name == "is_program_running"@ ==> "is_program_"@ + command.line() == name,
        name == "robot_mode"@ || name == "safety_mode"@ || name == "safety_status"@
            ==> is_run_together(name, command.line()),
        name == "program_state"@ ==> is_camel(name, command.line()),
        name == "is_program_saved"@ ==> is_long_camel(name, command.line()),
        name == "polyscope_version"@ ==> is_camel(
            name,
            "p"@ + command.line().drop_first(),
        ) && command.line().len() > 0 && command.line()[0] == 'P',
        name == "add_to_log"@ ==> exists|head: Seq<char>|
            is_long_camel(name, head) && command.line() == #[trigger] (head + " "@ + arg),
{
    if is_spelled_out(name) {
        lemma_spelled_out(command, name, arg);
    }
    if name == "load"@ || name == "load_installation"@ || name == "generate_support_file"@ || name
        == "popup"@ {
        lemma_spelled_with_argument(command, name, arg);
    }
    reveal_strlit("add_to_log");
    reveal_strlit("brake_release");
    reveal_strlit("clear_operational_mode");
    reveal_strlit("close_popup");
    reveal_strlit("close_safety_popup");
    reveal_strlit("generate_flight_report");
    reveal_strlit("generate_support_file");
    reveal_strlit("get_loaded_program");
    reveal_strlit("get_operational_mode");
    reveal_strlit("get_robot_model");
    reveal_strlit("get_serial_number");
    reveal_strlit("is_in_remote_control");
    reveal_strlit("is_program_running");
    reveal_strlit("is_program_saved");
    reveal_strlit("load");
    reveal_strlit("load_installation");
    reveal_strlit("pause");
    reveal_strlit("play");
    reveal_strlit("polyscope_version");
    reveal_strlit("popup");
    reveal_strlit("power_off");
    reveal_strlit("power_on");
    reveal_strlit("program_state");
    reveal_strlit("reset_protective_stop");
    reveal_strlit("restart_safety");
    reveal_strlit("resume");
    reveal_strlit("robot_mode");
    reveal_strlit("safety_mode");
    reveal_strlit("safety_status");
    reveal_strlit("set_operational_mode");
    reveal_strlit("shutdown");
    reveal_strlit("stop");
    reveal_strlit("unlock_protective_stop");
    reveal_strlit("version");
    assert("add_to_log"@.len() == 10);
    assert("brake_release"@.len() == 13);
    assert("clear_operational_mode"@.len() == 22);
    assert("close_popup"@.len() == 11);
    assert("close_safety_popup"@.len() == 18);
    assert("generate_flight_report"@.len() == 22);
    assert("generate_support_file"@.len() == 21);
    assert("get_loaded_program"@.len() == 18);
    assert("get_operational_mode"@.len() == 20);
    assert("get_robot_model"@.len() == 15);
    assert("get_serial_number"@.len() == 17);
    assert("is_in_remote_control"@.len() == 20);
    assert("is_program_running"@.len() == 18);
    assert("is_program_saved"@.len() == 16);
    assert("load"@.len() == 4);
    assert("load_installation"@.len() == 17);
    assert("pause"@.len() == 5);
    assert("play"@.len() == 4);
    assert("polyscope_version"@.len() == 17);
    assert("popup"@.len() == 5);
    assert("power_off"@.len() == 9);
    assert("power_on"@.len() == 8);
    assert("program_state"@.len() == 13);
    assert("reset_protective_stop"@.len() == 21);
    assert("restart_safety"@.len() == 14);
    assert("resume"@.len() == 6);
    assert("robot_mode"@.len() == 10);
    assert("safety_mode"@.len() == 11);
    assert("safety_status"@.len() == 13);
    assert("set_operational_mode"@.len() == 20);
    assert("shutdown"@.len() == 8);
    assert("stop"@.len() == 4);
    assert("unlock_protective_stop"@.len() == 22);
    assert("version"@.len() == 7);
    assert("add_to_log"@[0] != "robot_mode"@[0]);
    assert("brake_release"@[0] != "program_state"@[0]);
    assert("brake_release"@[0] != "safety_status"@[0]);
    assert("clear_operational_mode"@[0] != "generate_flight_report"@[0]);
    assert("clear_operational_mode"@[0] != "unlock_protective_stop"@[0]);
    assert("close_popup"@[0] != "safety_mode"@[0]);
    assert("close_safety_popup"@[0] != "get_loaded_program"@[0]);
    assert("close_safety_popup"@[0] != "is_program_running"@[0]);
    assert("generate_flight_report"@[0] != "unlock_protective_stop"@[0]);
    assert("generate_support_file"@[0] != "reset_protective_stop"@[0]);
    assert("get_loaded_program"@[0] != "is_program_running"@[0]);
    assert("get_operational_mode"@[0] != "is_in_remote_control"@[0]);
    assert("get_operational_mode"@[0] != "set_operational_mode"@[0]);
    assert("get_serial_number"@[0] != "load_installation"@[0]);
    assert("get_serial_number"@[0] != "polyscope_version"@[0]);
    assert("is_in_remote_control"@[0] != "set_operational_mode"@[0]);
    assert("load"@[0] != "play"@[0]);
    assert("load"@[0] != "stop"@[0]);
    assert("load_installation"@[0] != "polyscope_version"@[0]);
    assert("pause"@[1] != "popup"@[1]);
    assert("play"@[0] != "stop"@[0]);
    assert("power_on"@[0] != "shutdown"@[0]);
    assert("program_state"@[0] != "safety_status"@[0]);
    reveal_strlit(" ");
    reveal_strlit("_");
    reveal_strlit("p");
    reveal_strlit("is_program_");
    reveal_strlit("running");
    reveal_strlit("robot");
    reveal_strlit("mode");
    reveal_strlit("safety");
    reveal_strlit("status");
    reveal_strlit("robotmode");
    reveal_strlit("safetymode");
    reveal_strlit("safetystatus");
    reveal_strlit("program");
    reveal_strlit("state");
    reveal_strlit("programState");
    reveal_strlit("is");
    reveal_strlit("saved");
    reveal_strlit("isProgramSaved");
    reveal_strlit("polyscope");
    reveal_strlit("PolyscopeVersion");
    reveal_strlit("add");
    reveal_strlit("to");
    reveal_strlit("log");
    reveal_strlit("addToLog");
    reveal_strlit("addToLog ");
    assert("is_program_"@ + "running"@ =~= "is_program_running"@);
    assert("robot"@ + "_"@ + "mode"@ =~= "robot_mode"@);
    assert("robot"@ + "mode"@ =~= "robotmode"@);
    assert("safety"@ + "_"@ + "mode"@ =~= "safety_mode"@);
    assert("safety"@ + "mode"@ =~= "safetymode"@);
    assert("safety"@ + "_"@ + "status"@ =~= "safety_status"@);
    assert("safety"@ + "status"@ =~= "safetystatus"@);
    assert("program"@ + "_"@ + "state"@ =~= "program_state"@);
    assert("program"@ + capital("state"@) =~= "programState"@);
    assert("is"@ + "_"@ + "program"@ + "_"@ + "saved"@ =~= "is_program_saved"@);
    assert("is"@ + capital("program"@) + capital("saved"@) =~= "isProgramSaved"@);
    assert("polyscope"@ + "_"@ + "version"@ =~= "polyscope_version"@);
    assert("polyscope"@ + capital("version"@) =~= "p"@ + "PolyscopeVersion"@.drop_first());
    assert("add"@ + "_"@ + "to"@ + "_"@ + "log"@ =~= "add_to_log"@);
    assert("add"@ + capital("to"@) + capital("log"@) =~= "addToLog"@);
    assert("addToLog"@ + " "@ =~= "addToLog "@);
    if name == "add_to_log"@ {
        assert(is_long_camel(name, "addToLog"@));
        assert(command.line() == "addToLog"@ + " "@ + arg);
    }
}

/// The mode that is set, and the report that is made, is the one that the argument names.
pub proof fn settings_are_spelled_after_their_argument(
    command: DashboardCommand,
    name: Seq<char>,
    arg: Seq<char>,
)
    requires
        command.asked_by(name, arg),
    ensures
        name == "set_operational_mode"@ ==> {
            &&& OperationalMode::reported(arg).name() == "MANUAL"@ || OperationalMode::reported(
                arg,
            ).name() == "AUTOMATIC"@
            &&& OperationalMode::reported(arg).name() == "MANUAL"@ ==> command.line()
                == "set operational mode "@ + "manual"@
            &&& OperationalMode::reported(arg).name() == "AUTOMATIC"@ ==> command.line()
                == "set operational mode "@ + "automatic"@
        },
        name == "generate_flight_report"@ ==> {
            let kind = lowercased(trimmed(arg));
            if kind == "controller"@ || kind == "software"@ {
                command.line() == "generate flight report "@ + kind
            } else {
                command.line() == "generate flight report "@ + "system"@
            }
        },
{
    lemma_names_differ();
    reveal_strlit("manual");
    reveal_strlit("MANUAL");
    reveal_strlit("automatic");
    reveal_strlit("AUTOMATIC");
    assert("MANUAL"@.len() != "AUTOMATIC"@.len());
    match command {
        DashboardCommand::SetOperationalMode(mode) => {
            assert(name == "set_operational_mode"@);
        },
        DashboardCommand::GenerateFlightReport(kind) => {
            assert(name == "generate_flight_report"@);
        },
        _ => {
            assert(name != "set_operational_mode"@ && name != "generate_flight_report"@);
        },
    }
}

/// Whether a command takes no argument.
pub open spec fn is_bare(command: DashboardCommand) -> bool {
    !(command is Load || command is LoadInstallation || command is SetOperationalMode || command
        is GenerateFlightReport || command is GenerateSupportFile || command is Popup || command
        is AddToLog)
}

/// No two different commands without an argument share a line, except `play` and `resume`.
pub proof fn lines_are_told_apart(a: DashboardCommand, b: DashboardCommand)
    requires
        is_bare(a),
        is_bare(b),
        a.line() == b.line(),
    ensures
        a == b || (a is Play && b is Resume) || (a is Resume && b is Play),
{
    reveal_strlit("PolyscopeVersion");
    reveal_strlit("brake release");
    reveal_strlit("clear operational mode");
    reveal_strlit("close popup");
    reveal_strlit("close safety popup");
    reveal_strlit("get loaded program");
    reveal_strlit("get operational mode");
    reveal_strlit("get robot model");
    reveal_strlit("get serial number");
    reveal_strlit("is in remote control");
    reveal_strlit("isProgramSaved");
    reveal_strlit("pause");
    reveal_strlit("play");
    reveal_strlit("power off");
    reveal_strlit("power on");
    reveal_strlit("programState");
    reveal_strlit("restart safety");
    reveal_strlit("robotmode");
    reveal_strlit("running");
    reveal_strlit("safetymode");
    reveal_strlit("safetystatus");
    reveal_strlit("shutdown");
    reveal_strlit("stop");
    reveal_strlit("unlock protective stop");
    reveal_strlit("version");
    assert("PolyscopeVersion"@.len() == 16);
    assert("brake release"@.len() == 13);
    assert("clear operational mode"@.len() == 22);
    assert("close popup"@.len() == 11);
    assert("close safety popup"@.len() == 18);
    assert("get loaded program"@.len() == 18);
    assert("get operational mode"@.len() == 20);
    assert("get robot model"@.len() == 15);
    assert("get serial number"@.len() == 17);
    assert("is in remote control"@.len() == 20);
    assert("isProgramSaved"@.len() == 14);
    assert("pause"@.len() == 5);
    assert("play"@.len() == 4);
    assert("power off"@.len() == 9);
    assert("power on"@.len() == 8);
    assert("programState"@.len() == 12);
    assert("restart safety"@.len() == 14);
    assert("robotmode"@.len() == 9);
    assert("running"@.len() == 7);
    assert("safetymode"@.len() == 10);
    assert("safetystatus"@.len() == 12);
    assert("shutdown"@.len() == 8);
    assert("stop"@.len() == 4);
    assert("unlock protective stop"@.len() == 22);
    assert("version"@.len() == 7);
    assert("clear operational mode"@[0] != "unlock protective stop"@[0]);
    assert("close safety popup"@[0] != "get loaded program"@[0]);
    assert("get operational mode"@[0] != "is in remote control"@[0]);
    assert("isProgramSaved"@[0] != "restart safety"@[0]);
    assert("play"@[0] != "stop"@[0]);
    assert("power off"@[0] != "robotmode"@[0]);
    assert("power on"@[0] != "shutdown"@[0]);
    assert("programState"@[0] != "safetystatus"@[0]);
    assert("running"@[0] != "version"@[0]);
}

/// Two texts that take an argument keep it whole: one command sends the same line for two
/// arguments only where the arguments are the same.
pub proof fn arguments_reach_the_line(a: Seq<char>, b: Seq<char>, head: Seq<char>)
    requires
        head + a == head + b,
    ensures
        a == b,
{
    assert((head + a).skip(head.len() as int) =~= a);
    assert((head + b).skip(head.len() as int) =~= b);
}

/// No two actions are acknowledged in the same words, except `play` and `resume`. Actions of one
/// kind are one action here, whatever their argument.
pub proof fn acknowledgements_are_told_apart(a: DashboardCommand, b: DashboardCommand)
    requires
        a.acknowledgement() is Some,
        a.acknowledgement() == b.acknowledgement(),
    ensures
        is_bare(a) && is_bare(b) ==> a == b || (a is Play && b is Resume) || (a is Resume && b
            is Play),
        is_bare(a) == is_bare(b),
        a is Load <==> b is Load,
        a is LoadInstallation <==> b is LoadInstallation,
        a is SetOperationalMode <==> b is SetOperationalMode,
        a is GenerateSupportFile <==> b is GenerateSupportFile,
        a is Popup <==> b is Popup,
        a is AddToLog <==> b is AddToLog,
{
    reveal_strlit("Added log message");
    reveal_strlit("Brake releasing");
    reveal_strlit("Completed successfully");
    reveal_strlit("Loading installation");
    reveal_strlit("Loading program");
    reveal_strlit("Pausing program");
    reveal_strlit("Powering off");
    reveal_strlit("Powering on");
    reveal_strlit("Protective stop releasing");
    reveal_strlit("Restarting safety");
    reveal_strlit("Setting operational mode");
    reveal_strlit("Shutting down");
    reveal_strlit("Starting program");
    reveal_strlit("Stopped");
    reveal_strlit("closing popup");
    reveal_strlit("closing safety popup");
    reveal_strlit("no longer controlled by Dashboard Server");
    reveal_strlit("showing popup");
    assert("Added log message"@.len() == 17);
    assert("Brake releasing"@.len() == 15);
    assert("Completed successfully"@.len() == 22);
    assert("Loading installation"@.len() == 20);
    assert("Loading program"@.len() == 15);
    assert("Pausing program"@.len() == 15);
    assert("Powering off"@.len() == 12);
    assert("Powering on"@.len() == 11);
    assert("Protective stop releasing"@.len() == 25);
    assert("Restarting safety"@.len() == 17);
    assert("Setting operational mode"@.len() == 24);
    assert("Shutting down"@.len() == 13);
    assert("Starting program"@.len() == 16);
    assert("Stopped"@.len() == 7);
    assert("closing popup"@.len() == 13);
    assert("closing safety popup"@.len() == 20);
    assert("no longer controlled by Dashboard Server"@.len() == 40);
    assert("showing popup"@.len() == 13);
    assert("Added log message"@[0] != "Restarting safety"@[0]);
    assert("Brake releasing"@[0] != "Loading program"@[0]);
    assert("Brake releasing"@[0] != "Pausing program"@[0]);
    assert("Loading installation"@[0] != "closing safety popup"@[0]);
    assert("Loading program"@[0] != "Pausing program"@[0]);
    assert("Shutting down"@[0] != "closing popup"@[0]);
    assert("Shutting down"@[0] != "showing popup"@[0]);
    assert("closing popup"@[0] != "showing popup"@[0]);
}

/// Whether two texts begin with the same `n` letters, in any case.
pub open spec fn begin_alike(a: Seq<char>, b: Seq<char>, n: int) -> bool {
    n <= a.len() && n <= b.len() && uppercased(a.take(n)) == uppercased(b.take(n))
}

/// Whether two texts end in the same `n` characters.
pub open spec fn end_alike(a: Seq<char>, b: Seq<char>, n: int) -> bool {
    n <= a.len() && n <= b.len() && a.skip(a.len() - n) == b.skip(b.len() - n)
}

/// The controller acknowledges an action in the words of its line: what stops is stopped, what
/// powers on is powering on, and so on. Those that are acknowledged otherwise are spelled out.
pub proof fn acknowledgements_echo_the_line(command: DashboardCommand)
    ensures
        match command.acknowledgement() {
            None => true,
            Some(said) => match command {
                DashboardCommand::Stop => begin_alike(command.line(), said, 4),
                DashboardCommand::Pause => begin_alike(command.line(), said, 4),
                DashboardCommand::PowerOn => begin_alike(command.line(), said, 5) && end_alike(
                    command.line(),
                    said,
                    3,
                ),
                DashboardCommand::PowerOff => begin_alike(command.line(), said, 5) && end_alike(
                    command.line(),
                    said,
                    4,
                ),
                DashboardCommand::BrakeRelease => begin_alike(command.line(), said, 12),
                DashboardCommand::UnlockProtectiveStop => begin_alike(
                    command.line().skip(7),
                    said,
                    15,
                ),
                DashboardCommand::CloseSafetyPopup => begin_alike(command.line(), said, 4)
                    && end_alike(command.line(), said, 13),
                DashboardCommand::ClosePopup => begin_alike(command.line(), said, 4) && end_alike(
                    command.line(),
                    said,
                    6,
                ) && said.len() == 13,
                DashboardCommand::RestartSafety => begin_alike(command.line(), said, 7)
                    && end_alike(command.line(), said, 7),
                DashboardCommand::Load(_) => begin_alike(command.line(), said, 4) && end_alike(
                    "load program"@,
                    said,
                    8,
                ),
                DashboardCommand::LoadInstallation(_) => begin_alike(command.line(), said, 4)
                    && end_alike("load installation"@, said, 13),
                DashboardCommand::SetOperationalMode(_) => begin_alike(command.line(), said, 3)
                    && end_alike("set operational mode"@, said, 17),
                DashboardCommand::Popup(_) => begin_alike(command.line(), said.skip(8), 5),
                DashboardCommand::AddToLog(_) => begin_alike(command.line(), said, 3),
                DashboardCommand::Shutdown => begin_alike(command.line(), said, 4) && end_alike(
                    command.line(),
                    said,
                    4,
                ),
                DashboardCommand::Play => said == "Starting program"@,
                DashboardCommand::Resume => said == "Starting program"@,
                DashboardCommand::ClearOperationalMode => said
                    == "no longer controlled by Dashboard Server"@,
                DashboardCommand::GenerateSupportFile(_) => said == "Completed successfully"@,
                _ => false,
            },
        },
{
    reveal_strlit("Added log message");
    reveal_strlit("Brake releasing");
    reveal_strlit("Completed successfully");
    reveal_strlit("Loading installation");
    reveal_strlit("Loading program");
    reveal_strlit("Pausing program");
    reveal_strlit("Powering off");
    reveal_strlit("Powering on");
    reveal_strlit("Protective stop releasing");
    reveal_strlit("Restarting safety");
    reveal_strlit("Setting operational mode");
    reveal_strlit("Shutting down");
    reveal_strlit("Starting program");
    reveal_strlit("Stopped");
    reveal_strlit("addToLog ");
    reveal_strlit("brake release");
    reveal_strlit("clear operational mode");
    reveal_strlit("close popup");
    reveal_strlit("close safety popup");
    reveal_strlit("closing popup");
    reveal_strlit("closing safety popup");
    reveal_strlit("load ");
    reveal_strlit("load installation");
    reveal_strlit("load installation ");
    reveal_strlit("load program");
    reveal_strlit("no longer controlled by Dashboard Server");
    reveal_strlit("pause");
    reveal_strlit("play");
    reveal_strlit("popup ");
    reveal_strlit("power off");
    reveal_strlit("power on");
    reveal_strlit("restart safety");
    reveal_strlit("set operational mode");
    reveal_strlit("set operational mode ");
    reveal_strlit("showing popup");
    reveal_strlit("shutdown");
    reveal_strlit("stop");
    reveal_strlit("unlock protective stop");
    if let Some(said) = command.acknowledgement() {
        let line = command.line();
        match command {
            DashboardCommand::Load(text) => {
                assert(uppercased(line.take(4)) =~= uppercased(said.take(4)));
                assert("load program"@.skip(4) =~= said.skip(said.len() - 8));
            },
            DashboardCommand::LoadInstallation(text) => {
                assert(uppercased(line.take(4)) =~= uppercased(said.take(4)));
                assert("load installation"@.skip(4) =~= said.skip(said.len() - 13));
            },
            DashboardCommand::SetOperationalMode(mode) => {
                assert(uppercased(line.take(3)) =~= uppercased(said.take(3)));
                assert("set operational mode"@.skip(3) =~= said.skip(said.len() - 17));
            },
            DashboardCommand::Popup(text) => {
                assert(uppercased(line.take(5)) =~= uppercased(said.skip(8).take(5)));
            },
            DashboardCommand::AddToLog(text) => {
                assert(uppercased(line.take(3)) =~= uppercased(said.take(3)));
            },
            DashboardCommand::UnlockProtectiveStop => {
                assert(uppercased(line.skip(7).take(15)) =~= uppercased(said.take(15)));
            },
            _ => {
                assert(said.len() >= 7 ==> uppercased(line.take(4)) =~= uppercased(said.take(4))
                    || !(command is Stop || command is Pause || command is CloseSafetyPopup
                    || command is ClosePopup || command is Shutdown));
                if command is PowerOn || command is PowerOff {
                    assert(uppercased(line.take(5)) =~= uppercased(said.take(5)));
                    assert(line.skip(5) =~= said.skip(8));
                }
                if command is BrakeRelease {
                    assert(uppercased(line.take(12)) =~= uppercased(said.take(12)));
                }
                if command is CloseSafetyPopup || command is ClosePopup {
                    assert(line.skip(5) =~= said.skip(7));
                }
                if command is RestartSafety {
                    assert(uppercased(line.take(7)) =~= uppercased(said.take(7)));
                    assert(line.skip(7) =~= said.skip(10));
                }
                if command is Shutdown {
                    assert(line.skip(4) =~= said.skip(9));
                }
            },
        }
    }
}

/// What the numbers of the realtime stream mean, in the controller's own words, and what they
/// mean for a goal: the modes 3 and 5 to 9 end one, 1 and 2 let one start, and 4 does neither.
pub proof fn safety_modes_by_their_number(mode: i32)
    ensures
        SafetyMode::encoded(mode).stops() <==> mode == 3 || 5 <= mode <= 9,
        SafetyMode::encoded(mode).admits() <==> mode == 1 || mode == 2,
        mode == 1 ==> SafetyMode::encoded(mode).name() == "NORMAL"@,
        mode == 2 ==> SafetyMode::encoded(mode).name() == "REDUCED"@,
        mode == 3 ==> SafetyMode::encoded(mode).name() == "PROTECTIVE_STOP"@,
        mode == 4 ==> SafetyMode::encoded(mode).name() == "RECOVERY"@,
        mode == 5 ==> SafetyMode::encoded(mode).name() == "SAFEGUARD_STOP"@,
        mode == 6 ==> SafetyMode::encoded(mode).name() == "SYSTEM_EMERGENCY_STOP"@,
        mode == 7 ==> SafetyMode::encoded(mode).name() == "ROBOT_EMERGENCY_STOP"@,
        mode == 8 ==> SafetyMode::encoded(mode).name() == "VIOLATION"@,
        mode == 9 ==> SafetyMode::encoded(mode).name() == "FAULT"@,
        mode < 1 || mode > 9 ==> SafetyMode::encoded(mode).name() == "UNKNOWN"@,
{
}

/// Every mode that has a name stops a goal, but for `NORMAL`, `REDUCED` and `RECOVERY`; and a goal
/// starts in `NORMAL` and `REDUCED` alone.
pub proof fn safety_modes_by_their_name(mode: SafetyMode)
    ensures
        mode.stops() <==> !(mode.name() == "NORMAL"@ || mode.name() == "REDUCED"@ || mode.name()
            == "RECOVERY"@ || mode.name() == "UNKNOWN"@),
        mode.admits() <==> mode.name() == "NORMAL"@ || mode.name() == "REDUCED"@,
{
    reveal_strlit("FAULT");
    reveal_strlit("NORMAL");
    reveal_strlit("PROTECTIVE_STOP");
    reveal_strlit("RECOVERY");
    reveal_strlit("REDUCED");
    reveal_strlit("ROBOT_EMERGENCY_STOP");
    reveal_strlit("SAFEGUARD_STOP");
    reveal_strlit("SYSTEM_EMERGENCY_STOP");
    reveal_strlit("UNKNOWN");
    reveal_strlit("VIOLATION");
    assert("FAULT"@.len() == 5);
    assert("NORMAL"@.len() == 6);
    assert("PROTECTIVE_STOP"@.len() == 15);
    assert("RECOVERY"@.len() == 8);
    assert("REDUCED"@.len() == 7);
    assert("ROBOT_EMERGENCY_STOP"@.len() == 20);
    assert("SAFEGUARD_STOP"@.len() == 14);
    assert("SYSTEM_EMERGENCY_STOP"@.len() == 21);
    assert("UNKNOWN"@.len() == 7);
    assert("VIOLATION"@.len() == 9);
    assert("REDUCED"@[0] != "UNKNOWN"@[0]);
}

/// What the numbers of the robot mode mean, in the controller's own words.
pub proof fn robot_modes_by_their_number(mode: i32)
    ensures
        mode == -1 ==> RobotMode::encoded(mode).name() == "NO_CONTROLLER"@,
        mode == 0 ==> RobotMode::encoded(mode).name() == "DISCONNECTED"@,
        mode == 1 ==> RobotMode::encoded(mode).name() == "CONFIRM_SAFETY"@,
        mode == 2 ==> RobotMode::encoded(mode).name() == "BOOTING"@,
        mode == 3 ==> RobotMode::encoded(mode).name() == "POWER_OFF"@,
        mode == 4 ==> RobotMode::encoded(mode).name() == "POWER_ON"@,
        mode == 5 ==> RobotMode::encoded(mode).name() == "IDLE"@,
        mode == 6 ==> RobotMode::encoded(mode).name() == "BACKDRIVE"@,
        mode == 7 ==> RobotMode::encoded(mode).name() == "RUNNING"@,
        mode == 8 ==> RobotMode::encoded(mode).name() == "UPDATING_FIRMWARE"@,
        mode < -1 || mode > 8 ==> RobotMode::encoded(mode).name() == "UNKNOWN"@,
{
}

/// A mode that is in both is spelled alike in the safety mode and in the safety status, and the
/// status tells two stops more apart.
pub proof fn statuses_are_spelled_like_modes(status: SafetyStatus)
    ensures
        match status {
            SafetyStatus::Normal => status.name() == SafetyMode::Normal.name(),
            SafetyStatus::Reduced => status.name() == SafetyMode::Reduced.name(),
            SafetyStatus::ProtectiveStop => status.name() == SafetyMode::ProtectiveStop.name(),
            SafetyStatus::Recovery => status.name() == SafetyMode::Recovery.name(),
            SafetyStatus::SafeguardStop => status.name() == SafetyMode::SafeguardStop.name(),
            SafetyStatus::SystemEmergencyStop => status.name() == SafetyMode::SystemEmergencyStop.name(),
            SafetyStatus::RobotEmergencyStop => status.name() == SafetyMode::RobotEmergencyStop.name(),
            SafetyStatus::Violation => status.name() == SafetyMode::Violation.name(),
            SafetyStatus::Fault => status.name() == SafetyMode::Fault.name(),
            SafetyStatus::Unknown => status.name() == SafetyMode::Unknown.name(),
            SafetyStatus::AutomaticModeSafeguardStop => status.name() == "AUTOMATIC_MODE_"@
                + SafetyMode::SafeguardStop.name(),
            SafetyStatus::SystemThreePositionEnablingStop => status.name()
                == "SYSTEM_THREE_POSITION_ENABLING_STOP"@,
        },
{
    reveal_strlit("AUTOMATIC_MODE_");
    reveal_strlit("SAFEGUARD_STOP");
    reveal_strlit("AUTOMATIC_MODE_SAFEGUARD_STOP");
    assert("AUTOMATIC_MODE_"@ + "SAFEGUARD_STOP"@ =~= "AUTOMATIC_MODE_SAFEGUARD_STOP"@);
}

/// The words for the states of a program and for the operational modes.
pub proof fn states_have_their_words(state: ProgramState, mode: OperationalMode)
    ensures
        state is Stopped <==> state.name() == "STOPPED"@,
        state is Playing <==> state.name() == "PLAYING"@,
        state is Paused <==> state.name() == "PAUSED"@,
        mode is Manual <==> mode.name() == "MANUAL"@,
        mode is Automatic <==> mode.name() == "AUTOMATIC"@,
        mode is Unset <==> mode.name() == "NONE"@,
        mode.setting() is Some <==> mode is Manual || mode is Automatic,
        mode.setting() matches Some(word) ==> uppercased(word) == mode.name(),
{
    reveal_strlit("AUTOMATIC");
    reveal_strlit("MANUAL");
    reveal_strlit("NONE");
    reveal_strlit("PAUSED");
    reveal_strlit("PLAYING");
    reveal_strlit("STOPPED");
    reveal_strlit("UNKNOWN");
    assert("AUTOMATIC"@.len() == 9);
    assert("MANUAL"@.len() == 6);
    assert("NONE"@.len() == 4);
    assert("PAUSED"@.len() == 6);
    assert("PLAYING"@.len() == 7);
    assert("STOPPED"@.len() == 7);
    assert("UNKNOWN"@.len() == 7);
    assert("MANUAL"@[0] != "PAUSED"@[0]);
    assert("PLAYING"@[0] != "STOPPED"@[0]);
    assert("PLAYING"@[0] != "UNKNOWN"@[0]);
    assert("STOPPED"@[0] != "UNKNOWN"@[0]);
    reveal_strlit("manual");
    reveal_strlit("automatic");
    assert(uppercased("manual"@) =~= "MANUAL"@);
    assert(uppercased("automatic"@) =~= "AUTOMATIC"@);
}

/// Whether `name` asks for something that the controller does in Remote Control only.
pub open spec fn wants_remote_control(name: Seq<char>) -> bool {
    ||| name == "stop"@
    ||| name == "pause"@
    ||| name == "play"@
    ||| name == "resume"@
    ||| name == "power_on"@
    ||| name == "power_off"@
    ||| name == "brake_release"@
    ||| name == "unlock_protective_stop"@
    ||| name == "reset_protective_stop"@
    ||| name == "close_safety_popup"@
    ||| name == "restart_safety"@
    ||| name == "load"@
    ||| name == "load_installation"@
}

/// Whether `name` asks for something that takes the controller a moment: it moves the arm, its
/// brakes or its safety system, or changes its mode.
pub open spec fn takes_a_moment(name: Seq<char>) -> bool {
    ||| name == "stop"@
    ||| name == "pause"@
    ||| name == "play"@
    ||| name == "resume"@
    ||| name == "power_on"@
    ||| name == "power_off"@
    ||| name == "brake_release"@
    ||| name == "unlock_protective_stop"@
    ||| name == "reset_protective_stop"@
    ||| name == "restart_safety"@
    ||| name == "set_operational_mode"@
    ||| name == "clear_operational_mode"@
    ||| name == "shutdown"@
}

/// Who may send what, and how long an answer may take: five seconds for what takes the controller
/// a moment, half a minute for what it loads, five minutes for a flight report, ten for a support
/// file, and two seconds for everything else.
pub proof fn names_decide_on_patience(command: DashboardCommand, name: Seq<char>, arg: Seq<char>)
    requires
        command.asked_by(name, arg),
    ensures
        command.remote_only() <==> wants_remote_control(name),
        command.seconds_to_answer() == (if name == "load"@ || name == "load_installation"@ {
            30int
        } else if name == "generate_flight_report"@ {
            300int
        } else if name == "generate_support_file"@ {
            600int
        } else if takes_a_moment(name) {
            5int
        } else {
            2int
        }),
{
    lemma_names_differ();
}

/// Whether `name` asks for something that the controller answers with a value.
pub open spec fn is_question(name: Seq<char>) -> bool {
    ||| name == "get_operational_mode"@
    ||| name == "robot_mode"@
    ||| name == "safety_status"@
    ||| name == "safety_mode"@
    ||| name == "program_state"@
    ||| name == "is_program_running"@
    ||| name == "is_program_saved"@
    ||| name == "is_in_remote_control"@
    ||| name == "get_loaded_program"@
    ||| name == "get_robot_model"@
    ||| name == "get_serial_number"@
    ||| name == "polyscope_version"@
    ||| name == "version"@
}

/// Questions have an answer and are not acknowledged; everything else is acknowledged and has
/// none, except a flight report, which is neither.
pub proof fn questions_are_answered(
    command: DashboardCommand,
    name: Seq<char>,
    arg: Seq<char>,
    response: Seq<char>,
    value: Option<DashboardValue>,
)
    requires
        command.asked_by(name, arg),
        command.answered(response, value),
    ensures
        value is Some <==> is_question(name),
        command.acknowledgement() is None <==> is_question(name) || name
            == "generate_flight_report"@,
{
    lemma_names_differ();
}

/// A reply that spells a mode, behind whatever label, is read as that mode, and as the kind of
/// mode that was asked for.
pub proof fn answers_are_what_the_controller_said(
    name: Seq<char>,
    arg: Seq<char>,
    command: DashboardCommand,
    label: Seq<char>,
    robot: RobotMode,
    safety: SafetyMode,
    status: SafetyStatus,
    operational: OperationalMode,
    value: Option<DashboardValue>,
)
    requires
        command.asked_by(name, arg),
    ensures
        name == "robot_mode"@ && command.answered(label + ": "@ + robot.name(), value) ==> value
            == Some(DashboardValue::RobotMode(robot)),
        name == "safety_mode"@ && command.answered(label + ": "@ + safety.name(), value) ==> value
            == Some(DashboardValue::SafetyMode(safety)),
        name == "safety_status"@ && command.answered(label + ": "@ + status.name(), value)
            ==> value == Some(DashboardValue::SafetyStatus(status)),
        name == "get_operational_mode"@ && command.answered(
            label + ": "@ + operational.name(),
            value,
        ) ==> value == Some(DashboardValue::OperationalMode(operational)),
{
    robot_mode_reads_back(robot, label);
    safety_mode_reads_back(safety, label);
    safety_status_reads_back(status, label);
    operational_mode_reads_back(operational, label);
    lemma_names_differ();
}

/// Every command can be asked for: by a name, and an argument where it takes one.
pub proof fn every_command_has_a_name(command: DashboardCommand)
    requires
        command matches DashboardCommand::Load(text) ==> text@.len() > 0,
        command matches DashboardCommand::LoadInstallation(text) ==> text@.len() > 0,
        command matches DashboardCommand::GenerateSupportFile(text) ==> text@.len() > 0,
        is_bare(command) || command is Load || command is LoadInstallation || command
            is GenerateSupportFile || command is Popup || command is AddToLog,
    ensures
        exists|name: Seq<char>, arg: Seq<char>|
            #[trigger] command.asked_by(name, arg) && DashboardCommand::refusal(name, arg) is None,
{
    lemma_names_differ();
    let arg = match command {
        DashboardCommand::Load(text) => text@,
        DashboardCommand::LoadInstallation(text) => text@,
        DashboardCommand::GenerateSupportFile(text) => text@,
        DashboardCommand::Popup(text) => text@,
        DashboardCommand::AddToLog(text) => text@,
        _ => Seq::empty(),
    };
    if command is Stop {
        assert(command.asked_by("stop"@, arg));
    }
    if command is Pause {
        assert(command.asked_by("pause"@, arg));
    }
    if command is Play {
        assert(command.asked_by("play"@, arg));
    }
    if command is Resume {
        assert(command.asked_by("resume"@, arg));
    }
    if command is PowerOn {
        assert(command.asked_by("power_on"@, arg));
    }
    if command is PowerOff {
        assert(command.asked_by("power_off"@, arg));
    }
    if command is BrakeRelease {
        assert(command.asked_by("brake_release"@, arg));
    }
    if command is UnlockProtectiveStop {
        assert(command.asked_by("unlock_protective_stop"@, arg));
    }
    if command is CloseSafetyPopup {
        assert(command.asked_by("close_safety_popup"@, arg));
    }
    if command is ClosePopup {
        assert(command.asked_by("close_popup"@, arg));
    }
    if command is RestartSafety {
        assert(command.asked_by("restart_safety"@, arg));
    }
    if command is Load {
        assert(command.asked_by("load"@, arg));
    }
    if command is LoadInstallation {
        assert(command.asked_by("load_installation"@, arg));
    }
    if command is GetOperationalMode {
        assert(command.asked_by("get_operational_mode"@, arg));
    }
    if command is ClearOperationalMode {
        assert(command.asked_by("clear_operational_mode"@, arg));
    }
    if command is RobotMode {
        assert(command.asked_by("robot_mode"@, arg));
    }
    if command is SafetyStatus {
        assert(command.asked_by("safety_status"@, arg));
    }
    if command is SafetyMode {
        assert(command.asked_by("safety_mode"@, arg));
    }
    if command is ProgramState {
        assert(command.asked_by("program_state"@, arg));
    }
    if command is IsProgramRunning {
        assert(command.asked_by("is_program_running"@, arg));
    }
    if command is IsProgramSaved {
        assert(command.asked_by("is_program_saved"@, arg));
    }
    if command is IsInRemoteControl {
        assert(command.asked_by("is_in_remote_control"@, arg));
    }
    if command is GetLoadedProgram {
        assert(command.asked_by("get_loaded_program"@, arg));
    }
    if command is GetRobotModel {
        assert(command.asked_by("get_robot_model"@, arg));
    }
    if command is GetSerialNumber {
        assert(command.asked_by("get_serial_number"@, arg));
    }
    if command is PolyscopeVersion {
        assert(command.asked_by("polyscope_version"@, arg));
    }
    if command is Version {
        assert(command.asked_by("version"@, arg));
    }
    if command is GenerateSupportFile {
        assert(command.asked_by("generate_support_file"@, arg));
    }
    if command is Popup {
        assert(command.asked_by("popup"@, arg));
    }
    if command is AddToLog {
        assert(command.asked_by("add_to_log"@, arg));
    }
    if command is Shutdown {
        assert(command.asked_by("shutdown"@, arg));
    }
}

/// Whether `name` is that of a command that can be asked for as it is.
pub open spec fn is_name_of_a_command(name: Seq<char>) -> bool {
    ||| name == "stop"@
    ||| name == "pause"@
    ||| name == "play"@
    ||| name == "resume"@
    ||| name == "power_on"@
    ||| name == "power_off"@
    ||| name == "brake_release"@
    ||| name == "unlock_protective_stop"@
    ||| name == "reset_protective_stop"@
    ||| name == "close_safety_popup"@
    ||| name == "close_popup"@
    ||| name == "restart_safety"@
    ||| name == "get_operational_mode"@
    ||| name == "clear_operational_mode"@
    ||| name == "robot_mode"@
    ||| name == "safety_status"@
    ||| name == "safety_mode"@
    ||| name == "program_state"@
    ||| name == "is_program_running"@
    ||| name == "is_program_saved"@
    ||| name == "is_in_remote_control"@
    ||| name == "get_loaded_program"@
    ||| name == "get_robot_model"@
    ||| name == "get_serial_number"@
    ||| name == "polyscope_version"@
    ||| name == "version"@
    ||| name == "generate_flight_report"@
    ||| name == "popup"@
    ||| name == "add_to_log"@
    ||| name == "shutdown"@
}

/// Every name is accepted that names a command, and no other: where the command needs an argument,
/// only with one, and a mode is set only where the argument names one that can be.
pub proof fn names_are_accepted(name: Seq<char>, arg: Seq<char>)
    ensures
        is_name_of_a_command(name) ==> DashboardCommand::refusal(name, arg) is None,
        name == "load"@ || name == "load_installation"@ || name == "generate_support_file"@ ==> (
        DashboardCommand::refusal(name, arg) is None <==> arg.len() > 0),
        name == "set_operational_mode"@ ==> (DashboardCommand::refusal(name, arg) is None <==>
            OperationalMode::reported(arg).name() == "MANUAL"@ || OperationalMode::reported(
            arg,
        ).name() == "AUTOMATIC"@),
        DashboardCommand::refusal(name, arg) is None ==> is_name_of_a_command(name) || name
            == "load"@ || name == "load_installation"@ || name == "generate_support_file"@ || name
            == "set_operational_mode"@,
{
    lemma_names_differ();
    states_have_their_words(ProgramState::Stopped, OperationalMode::reported(arg));
}

/// The text that answers a question is the reply, without the white space around it, and for the
/// loaded program without its label.
pub proof fn texts_are_what_the_controller_said(
    command: DashboardCommand,
    name: Seq<char>,
    arg: Seq<char>,
    response: Seq<char>,
    value: Option<DashboardValue>,
)
    requires
        command.asked_by(name, arg),
        command.answered(response, value),
    ensures
        name == "get_robot_model"@ || name == "get_serial_number"@ || name == "polyscope_version"@
            || name == "version"@ ==> (value matches Some(DashboardValue::Text(t)) && t@ == trimmed(
            response,
        )),
        name == "get_loaded_program"@ ==> (value matches Some(DashboardValue::Text(t)) && t@
            == payload(response)),
        name == "is_program_running"@ || name == "is_program_saved"@ || name
            == "is_in_remote_control"@ ==> value == Some(DashboardValue::Flag(flag(response))),
        name == "program_state"@ ==> (value matches Some(
            DashboardValue::ProgramState { state, program },
        ) && state == ProgramState::reported(response)),
{
    lemma_names_differ();
}

} // verus!
