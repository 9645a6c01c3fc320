use ur_redis_driver::double::Double;
use ur_redis_driver::handle_request::{release, remaining_command, Goal, GoalPhase, ResultType};
use ur_redis_driver::socket_server::{
    connected, handshake_matches, on_close, on_line, waypoint_index, ScriptLine,
};
use ur_redis_driver::sp_value::{SpValue, Write};
use ur_redis_driver::{generate_ur_script, DriverState, RobotCommand, ScriptRequest, Waypoint};

type Driver = DriverState<u32, u32, u32>;

const ZERO: Double = Double { bits: 0 };

fn waypoint(n: u8) -> Waypoint {
    Waypoint {
        acceleration: ZERO,
        velocity: Double { bits: f64::from(n).to_bits() },
        global_acceleration_scaling: ZERO,
        global_velocity_scaling: ZERO,
        use_execution_time: false,
        execution_time: ZERO,
        use_blend_radius: false,
        blend_radius: ZERO,
        use_joint_positions: true,
        joint_positions: vec![ZERO; 6],
        use_preferred_joint_config: false,
        preferred_joint_config: vec![ZERO; 6],
        use_payload: false,
        payload: String::new(),
        target_in_base: "p[0,0,0,0,0,0]".to_string(),
        relative_pose: vec![ZERO; 6],
        tcp_in_faceplate: "p[0,0,0,0,0,0]".to_string(),
        force_threshold: ZERO,
        use_linear_motion: false,
    }
}

fn command(command_type: &str, waypoints: u8) -> RobotCommand {
    RobotCommand {
        command_type: command_type.to_string(),
        acceleration: ZERO,
        velocity: ZERO,
        global_acceleration_scaling: ZERO,
        global_velocity_scaling: ZERO,
        use_execution_time: false,
        execution_time: ZERO,
        use_blend_radius: false,
        blend_radius: ZERO,
        use_joint_positions: true,
        joint_positions: vec![ZERO; 6],
        use_preferred_joint_config: false,
        preferred_joint_config: vec![ZERO; 6],
        use_payload: false,
        payload: String::new(),
        target_in_base: "p[0,0,0,0,0,0]".to_string(),
        relative_pose: vec![ZERO; 6],
        tcp_in_faceplate: "p[0,0,0,0,0,0]".to_string(),
        force_threshold: ZERO,
        report_waypoint_progress: true,
        trajectory_id: String::new(),
        waypoints: (0..waypoints).map(waypoint).collect(),
    }
}

fn goal(command_type: &str, waypoints: u8) -> Goal {
    Goal::new(ScriptRequest {
        uuid: "g1".to_string(),
        script: "def script():\n  return True\nend".to_string(),
        command: command(command_type, waypoints),
    })
}

/// A goal whose script is running.
fn running(driver: &mut Driver, command_type: &str, waypoints: u8) -> Goal {
    let mut goal = goal(command_type, waypoints);
    goal.connected(driver, "10.0.0.2", 50000, 1, 2, 3);
    goal.written();
    goal.handshake(true);
    goal
}

fn finished(goal: &Goal) -> (ResultType, String) {
    match &goal.phase {
        GoalPhase::Finished(kind, message) => (*kind, message.clone()),
        _ => panic!("the goal is not over"),
    }
}

fn said(writes: &[Write]) -> Vec<(String, String)> {
    writes
        .iter()
        .map(|w| {
            let value = match &w.value {
                SpValue::Int64(Some(i)) => i.to_string(),
                SpValue::Text(Some(s)) => s.clone(),
                other => panic!("unexpected value {:?}", other),
            };
            (w.key.clone(), value)
        })
        .collect()
}

fn pair(key: &str, value: &str) -> (String, String) {
    (key.to_string(), value.to_string())
}

#[test]
fn programs_dial_back_to_their_driver() {
    let program = generate_ur_script("def script():\n  return True\nend", "10.0.0.2", 50001);
    let expected = "\ndef run_script():\n  def script():\n    return True\n  end\n\n  def handshake():\n    socket_open(\"10.0.0.2\", 50001, \"ur_driver_socket\")\n    line_from_server = socket_read_line(\"ur_driver_socket\", timeout=1.0)\n    if(str_empty(line_from_server)):\n      return False\n    else:\n      socket_send_line(line_from_server, \"ur_driver_socket\")\n      return True\n    end\n  end\n\n  if(handshake()):\n    result = script()\n    if(result):\n      socket_send_line(\"ok\", \"ur_driver_socket\")\n    else:\n      socket_send_line(\"error\", \"ur_driver_socket\")\n    end\n  else:\n    popup(\"handshake failure with host 10.0.0.2, not moving.\")\n  end\n\n  socket_close(\"ur_driver_socket\")\nend\n\nrun_script()\n";
    assert_eq!(program, expected);
}

#[test]
fn programs_keep_the_lines_of_their_body() {
    let endings = ["def script():\n\n    return True\r\n\tend\n", "x"].map(|body| {
        let program = generate_ur_script(body, "10.0.0.2", 50001);
        let lines: Vec<&str> = program.lines().collect();
        let carried: Vec<&str> = body.lines().collect();
        assert_eq!(lines[..2], ["", "def run_script():"]);
        for (i, line) in carried.iter().enumerate() {
            assert_eq!(lines[i + 2], format!("  {}", line));
        }
        lines[carried.len() + 2..].join("\n")
    });
    assert_eq!(endings[0], endings[1]);
    assert!(endings[0].contains("  if(handshake()):\n    result = script()\n"));
}

#[test]
fn a_goal_succeeds_by_its_scripts_word() {
    let mut driver = Driver::new();
    let mut goal = running(&mut driver, "unsafe_move_j", 0);
    assert_eq!(driver.goal_id.as_deref(), Some("g1"));
    assert_eq!(driver.goal_sender, Some(1));
    assert_eq!(driver.handshake_sender, Some(2));
    assert_eq!(driver.feedback_sender, Some(3));
    assert_eq!(
        said(&[goal.feedback("r1", "moving")]),
        vec![pair("r1_request_feedback", "moving")]
    );
    goal.feedback_closed();
    goal.verdict(Some(true));
    assert_eq!(finished(&goal), (ResultType::Succeeded, "succeeded".to_string()));
    assert_eq!(
        said(&goal.outcome("r1", None)),
        vec![
            pair("r1_request_result", "succeeded"),
            pair("r1_request_state", "succeeded"),
            pair("r1_subsequent_fail_counter", "0"),
        ]
    );
}

#[test]
fn a_goal_fails_where_it_never_started() {
    let mut unreachable = goal("unsafe_move_j", 0);
    unreachable.connect_failed("refused");
    assert_eq!(
        finished(&unreachable),
        (
            ResultType::Aborted,
            "could not connect to the realtime port for writing: refused".to_string()
        )
    );

    let mut driver = Driver::new();
    let mut unwritten = goal("unsafe_move_j", 0);
    unwritten.connected(&mut driver, "10.0.0.2", 50000, 1, 2, 3);
    unwritten.write_failed("broken pipe");
    assert_eq!(
        finished(&unwritten),
        (ResultType::Aborted, "could not write the script to the robot: broken pipe".to_string())
    );

    let mut silent = goal("unsafe_move_j", 0);
    silent.connected(&mut driver, "10.0.0.2", 50000, 1, 2, 3);
    silent.written();
    silent.handshake(false);
    assert_eq!(
        finished(&silent),
        (ResultType::Aborted, "the script never completed the handshake".to_string())
    );
}

#[test]
fn a_killed_script_fails_its_goal() {
    let mut driver = Driver::new();
    let mut goal = running(&mut driver, "unsafe_move_j", 0);
    assert_eq!(on_close(&mut driver), Some(1));
    assert!(driver.goal_id.is_none() && driver.feedback_sender.is_none());
    goal.verdict(Some(false));
    assert_eq!(
        finished(&goal),
        (ResultType::Aborted, "aborted before reaching the goal".to_string())
    );
    assert_eq!(
        said(&goal.outcome("r1", Some((2, 1)))),
        vec![
            pair("r1_total_fail_counter", "3"),
            pair("r1_subsequent_fail_counter", "2"),
            pair("r1_request_result", "aborted before reaching the goal"),
            pair("r1_request_state", "failed"),
        ]
    );
}

#[test]
fn a_cancelled_goal_is_stopped() {
    let mut driver = Driver::new();
    let mut goal = running(&mut driver, "unsafe_move_j", 0);
    goal.cancel();
    goal.stop_answered(true);
    assert_eq!(finished(&goal), (ResultType::Canceled, "cancelled".to_string()));
    assert_eq!(
        said(&goal.outcome("r1", None))[1],
        pair("r1_request_state", "succeeded")
    );

    let mut unanswered = running(&mut driver, "unsafe_move_j", 0);
    unanswered.cancel();
    unanswered.stop_answered(false);
    assert_eq!(finished(&unanswered).0, ResultType::Aborted);

    let mut finishing = running(&mut driver, "unsafe_move_j", 0);
    finishing.cancel();
    finishing.verdict(Some(true));
    assert_eq!(finished(&finishing).0, ResultType::Succeeded);
}

#[test]
fn a_resumed_goal_runs_what_is_left() {
    let mut driver = Driver::new();
    let mut goal = running(&mut driver, "trajectory_unsafe_move_j", 3);
    driver.waypoints_completed = 2;
    goal.resume(&driver);
    assert!(matches!(goal.phase, GoalPhase::Rendering(_)));
    goal.rendered(&mut driver, Ok("rest".to_string()));
    assert!(driver.reissuing);
    goal.script_stopped();
    goal.drained(&mut driver);
    assert!(matches!(goal.phase, GoalPhase::Connecting));
    assert_eq!(goal.uuid, "g1");
    assert_eq!(goal.script, "rest");
    assert_eq!(goal.command.waypoints.len(), 1);
    assert_eq!(goal.command.waypoints[0].velocity.bits, 2.0f64.to_bits());
    assert_eq!(driver.waypoints_completed, 0);
    goal.connected(&mut driver, "10.0.0.2", 50000, 4, 5, 6);
    assert!(!driver.reissuing);
}

#[test]
fn what_cannot_be_resumed_says_why() {
    assert_eq!(
        remaining_command(&command("safe_move_l_relative", 0), 0).unwrap_err(),
        "cannot resume 'safe_move_l_relative': re-issuing a relative-pose move would apply the offset a second time from the paused pose. Cancel and submit a new request instead"
    );
    assert_eq!(
        remaining_command(&command("trajectory_unsafe_move_j", 3), 3).unwrap_err(),
        "cannot resume 'trajectory_unsafe_move_j': all 3 waypoints were already reached"
    );
    assert!(remaining_command(&command("unsafe_move_j", 0), 5).is_ok());

    let mut driver = Driver::new();
    let mut goal = running(&mut driver, "trajectory_unsafe_move_j", 3);
    goal.resume(&driver);
    goal.rendered(&mut driver, Err("no template".to_string()));
    assert_eq!(
        finished(&goal),
        (
            ResultType::Aborted,
            "could not re-render the remaining motion: no template".to_string()
        )
    );
    assert!(!driver.reissuing);
}

#[test]
fn a_finished_goal_lets_go_of_everything() {
    let mut driver = Driver::new();
    running(&mut driver, "unsafe_move_j", 0);
    driver.motion_paused = true;
    driver.reissuing = true;
    driver.cancel_sender = Some(7);
    driver.resume_sender = Some(8);
    driver.active_command = Some(command("unsafe_move_j", 0));
    driver.waypoints_completed = 2;
    release(&mut driver);
    assert!(driver.goal_id.is_none() && driver.goal_sender.is_none());
    assert!(driver.handshake_sender.is_none() && driver.feedback_sender.is_none());
    assert!(driver.cancel_sender.is_none() && driver.resume_sender.is_none());
    assert!(driver.active_command.is_none() && driver.waypoints_completed == 0);
    assert!(!driver.reissuing && !driver.motion_paused);
}

#[test]
fn scripts_shake_hands_by_goal_id() {
    let mut driver = Driver::new();
    assert!(connected(&mut driver).is_none());
    running(&mut driver, "unsafe_move_j", 0);
    let (id, sender) = connected(&mut driver).unwrap();
    assert_eq!((id.as_str(), sender), ("g1", 2));
    assert!(driver.handshake_sender.is_none());
    assert!(handshake_matches("g1", Some("g1")));
    assert!(!handshake_matches("g1", Some("g2")));
    assert!(!handshake_matches("g1", None));
    // Its handshake sender is gone, so a second script is dropped.
    assert!(connected(&mut driver).is_none());
}

#[test]
fn script_lines_are_told_apart() {
    let mut driver = Driver::new();
    running(&mut driver, "trajectory_unsafe_move_j", 3);
    assert!(matches!(on_line(&mut driver, "waypoint_reached 1"), ScriptLine::Progress));
    assert_eq!(driver.waypoints_completed, 2);
    assert!(matches!(
        on_line(&mut driver, "waypoint_reached two"),
        ScriptLine::UnreadableProgress
    ));
    assert_eq!(driver.waypoints_completed, 2);
    assert!(matches!(on_line(&mut driver, "force is 3 N"), ScriptLine::Feedback));
    assert!(matches!(
        on_line(&mut driver, "ok"),
        ScriptLine::Verdict { goal: Some(1), success: true }
    ));
    assert!(matches!(
        on_line(&mut driver, "error"),
        ScriptLine::Verdict { goal: None, success: false }
    ));
    assert_eq!(waypoint_index("waypoint_reached  12 "), Some(12));
    assert_eq!(waypoint_index("waypoint_reached -1"), None);
}
