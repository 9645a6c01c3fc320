use ur_redis_driver::dashboard::{
    annotate, apply_status, begin, check_greeting, command_line, connection_down, connection_up,
    identity_from, identity_queries, on_reply, on_signalled, on_waited, receive_reply, reply_to,
    socket_error_reply, status_from, status_queries, Conversation, LineRead, Turn,
};
use ur_redis_driver::{
    DashboardCommand, DashboardIdentity, DashboardReply, DriverState, OperationalMode,
    ProgramState,
};

type Driver = DriverState<u32, u32, u32>;

fn done(turn: &Turn) -> (bool, String) {
    match turn {
        Turn::Done(reply) => (reply.success, reply.response.clone()),
        _ => panic!("the conversation goes on"),
    }
}

fn sent(turn: &Turn) -> String {
    match turn {
        Turn::Send { command, .. } => command.wire(),
        _ => panic!("nothing is sent"),
    }
}

fn waited(turn: &Turn) -> u64 {
    match turn {
        Turn::Wait { ms, .. } => *ms,
        _ => panic!("nothing is waited for"),
    }
}

#[test]
fn greetings_are_checked() {
    let greeting = "Connected: Universal Robots Dashboard Server\n".to_string();
    assert_eq!(
        check_greeting(LineRead::Line(greeting)).unwrap(),
        "Connected: Universal Robots Dashboard Server"
    );
    assert_eq!(
        check_greeting(LineRead::Line("HTTP/1.1 400\r\n".to_string())).unwrap_err(),
        "unexpected greeting: HTTP/1.1 400"
    );
    assert_eq!(
        check_greeting(LineRead::Closed).unwrap_err(),
        "connection closed before greeting"
    );
    assert_eq!(
        check_greeting(LineRead::TimedOut).unwrap_err(),
        "timed out waiting for greeting"
    );
    assert_eq!(check_greeting(LineRead::Failed("reset".to_string())).unwrap_err(), "reset");
}

#[test]
fn replies_are_matched_against_their_command() {
    assert_eq!(command_line(&DashboardCommand::PowerOn), "power on\n");
    let reply = reply_to(&DashboardCommand::PowerOn, " Powering on\n");
    assert!(reply.success);
    assert_eq!(reply.response, "Powering on");
    assert!(!reply_to(&DashboardCommand::PowerOn, "Failed to execute: power on").success);
    // A query has no fixed reply: whatever comes is the answer.
    let mode = reply_to(&DashboardCommand::RobotMode, "Robotmode: IDLE\n");
    assert!(mode.success && mode.value.is_some());

    assert_eq!(
        receive_reply(&DashboardCommand::Stop, LineRead::Closed).unwrap_err(),
        "connection closed by controller"
    );
    assert_eq!(
        receive_reply(&DashboardCommand::Stop, LineRead::Failed("broken pipe".to_string()))
            .unwrap_err(),
        "broken pipe"
    );
    let late = receive_reply(&DashboardCommand::RobotMode, LineRead::TimedOut).unwrap_err();
    assert_eq!(late, "timed out after 2s waiting for reply to 'robotmode'");
    assert!(receive_reply(&DashboardCommand::Stop, LineRead::Line("Stopped\n".to_string()))
        .unwrap()
        .success);
}

#[test]
fn status_is_put_together_from_four_queries() {
    let [remote, state, running, operational] = status_queries();
    let status = status_from(
        reply_to(&remote, "true"),
        reply_to(&state, "PLAYING pick.urp"),
        reply_to(&running, "Program running: true"),
        reply_to(&operational, "AUTOMATIC"),
    );
    assert!(status.remote_control && status.program_running);
    assert_eq!(status.program_state, ProgramState::Playing);
    assert_eq!(status.program_name.as_deref(), Some("pick.urp"));
    assert_eq!(status.operational_mode, OperationalMode::Automatic);

    let mut driver = Driver::new();
    apply_status(&mut driver, &status);
    assert!(driver.remote_control && driver.program_running);
    assert_eq!(driver.program_state, "PLAYING");
    assert_eq!(driver.operational_mode, "AUTOMATIC");
}

#[test]
fn identity_lives_as_long_as_the_connection() {
    let [model, serial, version] = identity_queries();
    let identity = identity_from(
        reply_to(&model, "UR20"),
        reply_to(&serial, "20235500001"),
        reply_to(&version, "5.25.0"),
    );
    let expected = DashboardIdentity {
        robot_model: "UR20".to_string(),
        serial_number: "20235500001".to_string(),
        polyscope_version: "5.25.0".to_string(),
    };
    assert_eq!(identity, expected);

    let mut driver = Driver::new();
    connection_up(&mut driver, identity);
    assert!(driver.dashboard_connected && driver.identity.is_some());
    driver.remote_control = true;
    connection_down(&mut driver);
    assert!(!driver.dashboard_connected && !driver.remote_control && driver.identity.is_none());
}

#[test]
fn refusals_in_local_control_say_so() {
    let refused = DashboardReply::fail("Failed to execute: play");
    let told = annotate(&DashboardCommand::Play, refused.clone(), false);
    assert!(!told.success);
    assert_eq!(told.response, "Failed to execute: play (robot is in Local control)");
    let remote = annotate(&DashboardCommand::Play, refused.clone(), true);
    assert_eq!(remote.response, "Failed to execute: play");
    let query = annotate(&DashboardCommand::RobotMode, refused, false);
    assert_eq!(query.response, "Failed to execute: play");

    let broken = socket_error_reply("connection closed by controller");
    assert!(!broken.success);
    assert_eq!(broken.response, "dashboard socket error: connection closed by controller");
}

#[test]
fn plain_commands_are_one_exchange() {
    let mut driver = Driver::new();
    let (conversation, turn) = begin(DashboardCommand::PowerOn, &driver);
    assert_eq!(sent(&turn), "power on");
    let (_, turn) = on_reply(conversation, DashboardReply::ok("Powering on"), false, &mut driver);
    assert_eq!(done(&turn), (true, "Powering on".to_string()));
}

#[test]
fn a_confirmed_pause_latches() {
    let mut driver = Driver::new();
    let (c, turn) = begin(DashboardCommand::Pause, &driver);
    assert_eq!(sent(&turn), "pause");
    let (c, turn) = on_reply(c, DashboardReply::ok("Pausing program"), false, &mut driver);
    assert_eq!(sent(&turn), "programState");
    let playing = reply_to(&DashboardCommand::ProgramState, "PLAYING");
    let (c, turn) = on_reply(c, playing, false, &mut driver);
    assert_eq!(waited(&turn), 100);
    assert!(!driver.motion_paused);
    let (c, turn) = on_waited(c, false, &driver);
    assert_eq!(sent(&turn), "programState");
    let paused = reply_to(&DashboardCommand::ProgramState, "PAUSED");
    let (_, turn) = on_reply(c, paused, false, &mut driver);
    assert_eq!(done(&turn), (true, "PAUSED".to_string()));
    assert!(driver.motion_paused);
}

#[test]
fn an_unconfirmed_pause_latches_too() {
    let mut driver = Driver::new();
    let (c, _) = begin(DashboardCommand::Pause, &driver);
    let (c, _) = on_reply(c, DashboardReply::ok("Pausing program"), false, &mut driver);
    let playing = reply_to(&DashboardCommand::ProgramState, "PLAYING");
    let (_, turn) = on_reply(c, playing, true, &mut driver);
    assert_eq!(
        done(&turn),
        (true, "pause acknowledged but the program state is PLAYING".to_string())
    );
    assert!(driver.motion_paused);
}

#[test]
fn a_refused_pause_does_not_latch() {
    let mut driver = Driver::new();
    let (c, _) = begin(DashboardCommand::Pause, &driver);
    let (_, turn) = on_reply(c, DashboardReply::fail("Failed to execute: pause"), false, &mut driver);
    assert_eq!(done(&turn), (false, "Failed to execute: pause".to_string()));
    assert!(!driver.motion_paused);
}

#[test]
fn resume_needs_a_pause() {
    let driver = Driver::new();
    let (_, turn) = begin(DashboardCommand::Resume, &driver);
    assert_eq!(done(&turn), (false, "motion is not paused".to_string()));
}

#[test]
fn play_may_resume_by_itself() {
    let mut driver = Driver::new();
    driver.motion_paused = true;
    driver.resume_sender = Some(7);
    let (c, turn) = begin(DashboardCommand::Resume, &driver);
    assert_eq!(sent(&turn), "play");
    let (c, turn) = on_reply(c, DashboardReply::ok("Starting program"), false, &mut driver);
    assert_eq!(sent(&turn), "running");
    let running = reply_to(&DashboardCommand::IsProgramRunning, "Program running: true");
    let (c, turn) = on_reply(c, running, false, &mut driver);
    assert_eq!(sent(&turn), "programState");
    let playing = reply_to(&DashboardCommand::ProgramState, "PLAYING");
    let (_, turn) = on_reply(c, playing, false, &mut driver);
    assert_eq!(done(&turn), (true, "resumed".to_string()));
    assert!(!driver.motion_paused);
}

#[test]
fn a_refused_play_reissues_the_live_goal() {
    let mut driver = Driver::new();
    driver.motion_paused = true;
    driver.resume_sender = Some(7);
    let (c, _) = begin(DashboardCommand::Resume, &driver);
    let (c, turn) = on_reply(c, DashboardReply::fail("Failed to execute: play"), false, &mut driver);
    assert!(matches!(c, Conversation::Signalling) && matches!(turn, Turn::Signal));
    assert!(!driver.motion_paused);

    let told = on_signalled(Ok(()));
    assert!(told.success);
    assert_eq!(told.response, "play did not resume, re-issuing the goal");
    let full = on_signalled(Err("no available capacity".to_string()));
    assert!(!full.success);
    assert_eq!(
        full.response,
        "play did not resume a program and the goal could not be signalled: no available capacity"
    );
}

#[test]
fn a_refused_play_without_a_goal_fails() {
    let mut driver = Driver::new();
    driver.motion_paused = true;
    let (c, _) = begin(DashboardCommand::Resume, &driver);
    let (_, turn) = on_reply(c, DashboardReply::fail("Failed to execute: play"), false, &mut driver);
    assert_eq!(
        done(&turn),
        (
            false,
            "play did not resume a program and no goal is live (Failed to execute: play)"
                .to_string()
        )
    );
    assert!(!driver.motion_paused);
}

#[test]
fn a_protective_stop_is_confirmed_before_it_counts() {
    let mut driver = Driver::new();
    driver.safety_mode = 3;
    let (c, turn) = begin(DashboardCommand::UnlockProtectiveStop, &driver);
    assert_eq!(sent(&turn), "close safety popup");
    let (c, turn) = on_reply(c, DashboardReply::fail("no popup"), false, &mut driver);
    assert_eq!(waited(&turn), 500);
    let (c, turn) = on_waited(c, false, &driver);
    assert_eq!(sent(&turn), "unlock protective stop");
    let (c, turn) =
        on_reply(c, DashboardReply::ok("Protective stop releasing"), false, &mut driver);
    assert_eq!(waited(&turn), 50);
    driver.safety_mode = 1;
    let (_, turn) = on_waited(c, false, &driver);
    assert_eq!(done(&turn), (true, "NORMAL".to_string()));
}

#[test]
fn a_protective_stop_may_stay() {
    let mut driver = Driver::new();
    driver.safety_mode = 3;
    let (c, _) = begin(DashboardCommand::UnlockProtectiveStop, &driver);
    let (c, _) = on_reply(c, DashboardReply::ok("closing"), false, &mut driver);
    let (c, _) = on_waited(c, false, &driver);
    let (c, _) = on_reply(c, DashboardReply::ok("Protective stop releasing"), false, &mut driver);
    let (_, turn) = on_waited(c, true, &driver);
    assert_eq!(
        done(&turn),
        (false, "unlock acknowledged but safety mode is still PROTECTIVE_STOP".to_string())
    );

    let (c, _) = begin(DashboardCommand::UnlockProtectiveStop, &driver);
    let (c, _) = on_reply(c, DashboardReply::ok("closing"), false, &mut driver);
    let (c, _) = on_waited(c, false, &driver);
    let (_, turn) = on_reply(c, DashboardReply::fail("Cannot unlock"), false, &mut driver);
    assert_eq!(done(&turn), (false, "controller refused to unlock: Cannot unlock".to_string()));
}

#[test]
fn only_a_protective_stop_is_unlocked() {
    let mut driver = Driver::new();
    driver.safety_mode = 1;
    let (_, turn) = begin(DashboardCommand::UnlockProtectiveStop, &driver);
    assert_eq!(
        done(&turn),
        (false, "not in a protective stop, safety mode is NORMAL".to_string())
    );
}

#[test]
fn names_are_read_in_any_case() {
    assert_eq!(DashboardCommand::parse(" Stop ", "").unwrap(), DashboardCommand::Stop);
    assert_eq!(
        DashboardCommand::parse("LOAD", "a.urp").unwrap(),
        DashboardCommand::Load("a.urp".to_string())
    );
}

#[test]
fn letter_case_and_blanks_of_a_name_do_not_matter() {
    for (name, arg) in [("LOAD", " A.urp "), ("load", "A.urp"), ("\tLoAd\n", "A.urp\r\n")] {
        assert_eq!(
            DashboardCommand::parse(name, arg),
            Ok(DashboardCommand::Load("A.urp".to_string())),
            "{:?}",
            name
        );
    }
    for name in ["Frob", " FROB ", "frob"] {
        assert_eq!(
            DashboardCommand::parse(name, "").unwrap_err(),
            "unknown dashboard command 'frob'"
        );
    }
    // The sign for Kelvin has an ASCII letter for its lower case.
    assert_eq!(
        DashboardCommand::parse("BRA\u{212a}E_RELEASE", ""),
        Ok(DashboardCommand::BrakeRelease)
    );
    // Names that no command has agree outside ASCII too.
    for name in ["\u{c4}RGER", "\u{e4}rger", " \u{c4}rger "] {
        assert_eq!(
            DashboardCommand::parse(name, "").unwrap_err(),
            "unknown dashboard command '\u{e4}rger'"
        );
    }
}
