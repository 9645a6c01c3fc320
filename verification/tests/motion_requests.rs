use ur_redis_driver::command_server::{
    accept, assemble, begin_tick, command_type_of, counter_keys, fail_request, failure_counters,
    fast_keys, is_id_alphabet, is_idle, lookup_failure_text, new_goal_id, publish_script_feedback,
    publish_script_result, read_request, read_request_for, rejection, request_keys,
    safe_home_values, trajectory_key, transform_lookups,
};
use ur_redis_driver::double::Double;
use ur_redis_driver::intake::{render_failure, Intake, Step};
use ur_redis_driver::script::has_template;
use ur_redis_driver::sp_value::{SpValue, State, Write};
use ur_redis_driver::{
    generate_core_script_from_template, generate_gripper_interface_state,
    generate_robot_interface_state, state_bool_or, state_double_or_zero, state_int_or,
    state_string_or, DriverState, Payload, RobotCommand, WaypointRaw,
};

type Driver = DriverState<u32, u32, u32>;

fn double(x: f64) -> Double {
    Double { bits: x.to_bits() }
}

fn float(x: f64) -> SpValue {
    SpValue::Float64(Some(double(x)))
}

fn text(value: &SpValue) -> &str {
    match value {
        SpValue::Text(Some(s)) => s,
        _ => panic!("not a text"),
    }
}

fn said(writes: &[Write]) -> Vec<(String, String)> {
    writes
        .iter()
        .map(|w| {
            let value = match &w.value {
                SpValue::Bool(Some(b)) => b.to_string(),
                SpValue::Int64(Some(i)) => i.to_string(),
                SpValue::Text(Some(s)) => s.clone(),
                other => panic!("unexpected value {:?}", other),
            };
            (w.key.clone(), value)
        })
        .collect()
}

fn pair(key: &str, value: &str) -> (String, String) {
    (key.to_string(), value.to_string())
}

/// A state that asks for `command_type`.
fn asking(command_type: &str) -> State {
    let mut state = generate_robot_interface_state("r1");
    state.set("r1_command_type", SpValue::text(command_type));
    state.set("r1_request_trigger", SpValue::Bool(Some(true)));
    state.set("r1_goal_feature_id", SpValue::text("goal"));
    state.set("r1_tcp_id", SpValue::text("tcp"));
    state
}

fn templates() -> tera::Tera {
    let mut templates = tera::Tera::default();
    templates
        .add_raw_template("unsafe_move_j.script", "movej({{ target_in_base }}, v={{ velocity }})")
        .unwrap();
    templates
}

fn waypoint_fields() -> Vec<(SpValue, SpValue)> {
    let six = || SpValue::doubles(&vec![double(0.0); 6]);
    vec![
        (SpValue::text("acceleration"), float(1.0)),
        (SpValue::text("velocity"), float(0.5)),
        (SpValue::text("global_acceleration_scaling"), float(1.0)),
        (SpValue::text("global_velocity_scaling"), float(1.0)),
        (SpValue::text("use_execution_time"), SpValue::Bool(Some(false))),
        (SpValue::text("execution_time"), float(0.0)),
        (SpValue::text("use_blend_radius"), SpValue::Bool(Some(true))),
        (SpValue::text("blend_radius"), float(0.05)),
        (SpValue::text("use_joint_positions"), SpValue::Bool(Some(false))),
        (SpValue::text("joint_positions"), six()),
        (SpValue::text("use_preferred_joint_config"), SpValue::Bool(Some(false))),
        (SpValue::text("preferred_joint_config"), six()),
        (SpValue::text("use_relative_pose"), SpValue::Bool(Some(false))),
        (SpValue::text("relative_pose"), six()),
        (SpValue::text("use_payload"), SpValue::Bool(Some(false))),
        (SpValue::text("payload"), SpValue::text("")),
        (SpValue::text("baseframe_id"), SpValue::text("base_link")),
        (SpValue::text("faceplate_id"), SpValue::text("tool0")),
        (SpValue::text("goal_feature_id"), SpValue::text("w1")),
        (SpValue::text("tcp_id"), SpValue::text("tcp")),
        (SpValue::text("root_frame_id"), SpValue::text("world")),
        (SpValue::text("force_threshold"), float(0.0)),
    ]
}

#[test]
fn every_request_key_is_seeded() {
    let state = generate_robot_interface_state("r1");
    let keys = request_keys("r1");
    assert_eq!(keys.len(), 31);
    for key in &keys {
        assert!(state.contains(key), "{} is not seeded", key);
    }
    assert!(!state.contains(&trajectory_key("r1")));
    assert_eq!(state.entries().len(), 62);
    assert!(state.entries().iter().all(|(key, _)| key.starts_with("r1_")));
    assert_eq!(generate_gripper_interface_state("g1").entries().len(), 6);
}

#[test]
fn a_later_value_replaces_an_earlier_one() {
    let mut state = State::new();
    state.set("a", SpValue::Int64(Some(1)));
    state.set("b", SpValue::Int64(Some(2)));
    state.set("a", SpValue::Int64(Some(3)));
    assert_eq!(state_int_or(&state, "a", 0), 3);
    assert_eq!(state_int_or(&state, "b", 0), 2);
    assert_eq!(state.entries().len(), 2);
    assert!(state.get("c").is_none());
}

#[test]
fn unreadable_values_read_as_their_default() {
    let mut state = State::new();
    state.set("flag", SpValue::text("true"));
    state.set("unknown", SpValue::Bool(None));
    assert!(state_bool_or(&state, "unknown", true));
    assert!(!state_bool_or(&state, "flag", false));
    assert_eq!(state_string_or(&state, "absent", "x"), "x");
    assert_eq!(state_string_or(&state, "flag", "x"), "true");
    assert_eq!(state_int_or(&state, "absent", 4), 4);
    assert_eq!(state_double_or_zero(&state, "absent").bits, 0);
}

#[test]
fn idle_ticks_read_two_keys() {
    assert_eq!(fast_keys("r1"), vec!["r1_request_cancel", "r1_request_trigger"]);
    let mut flags = State::new();
    assert!(is_idle("r1", &flags));
    flags.set("r1_request_trigger", SpValue::Bool(Some(true)));
    assert!(!is_idle("r1", &flags));
}

#[test]
fn a_tick_consumes_its_flags() {
    let mut driver = Driver::new();
    driver.cancel_sender = Some(9);
    let mut state = asking("unsafe_move_j");
    state.set("r1_request_cancel", SpValue::Bool(Some(true)));
    let tick = begin_tick("r1", &state, &mut driver);
    assert_eq!(
        said(&tick.writes),
        vec![pair("r1_request_cancel", "false"), pair("r1_request_trigger", "false")]
    );
    assert_eq!(tick.cancel, Some(9));
    assert!(driver.cancel_sender.is_none());
    assert!(tick.has_request);

    // A trigger in any other state is consumed and ignored.
    state.set("r1_request_state", SpValue::text("executing"));
    state.set("r1_request_cancel", SpValue::Bool(Some(false)));
    let tick = begin_tick("r1", &state, &mut driver);
    assert_eq!(said(&tick.writes), vec![pair("r1_request_trigger", "false")]);
    assert!(!tick.has_request && tick.cancel.is_none());
}

#[test]
fn unreadable_keys_fail_the_request_by_name() {
    let state = asking("unsafe_move_j");
    let mut partial = State::new();
    for (key, value) in state.entries() {
        if key != "r1_velocity" && key != "r1_payload" {
            let copy = match value {
                SpValue::Text(Some(s)) => SpValue::text(s),
                SpValue::Text(None) => SpValue::Text(None),
                SpValue::Bool(b) => SpValue::Bool(*b),
                SpValue::Float64(d) => SpValue::Float64(*d),
                SpValue::Int64(i) => SpValue::Int64(*i),
                _ => SpValue::Array(None),
            };
            partial.set(key, copy);
        }
    }
    assert_eq!(
        read_request("r1", &partial, true).unwrap_err(),
        "missing or unreadable request keys: r1_velocity, r1_payload"
    );
}

#[test]
fn unknown_command_types_are_refused() {
    let state = asking("../../etc/passwd");
    assert_eq!(command_type_of("r1", &state), "../../etc/passwd");
    assert_eq!(
        read_request_for("r1", &state, &templates()).unwrap_err(),
        "unknown command_type '../../etc/passwd'"
    );
    assert!(read_request_for("r1", &asking("unsafe_move_j"), &templates()).is_ok());
    assert!(has_template(&templates(), "unsafe_move_j"));
    assert!(!has_template(&templates(), "unsafe_move_l"));
}

#[test]
fn requests_fall_back_to_their_defaults() {
    let request = read_request("r1", &asking("unsafe_move_j"), true).unwrap();
    assert_eq!(request.baseframe_id, "base_link");
    assert_eq!(request.faceplate_id, "tool0");
    assert_eq!(request.payload, "0,[0,0,0],[0,0,0,0,0,0]");
    assert_eq!(request.payload, Payload::default().to_string());
    assert!(request.report_waypoint_progress);
    assert_eq!(request.trajectory_id, "");
    assert_eq!(request.joint_positions, safe_home_values());
    let home: Vec<f64> = safe_home_values().iter().map(|d| f64::from_bits(d.bits)).collect();
    assert_eq!(home, vec![0.0, -1.5707, 0.0, -1.5707, 0.0, 0.0]);
    assert_eq!(request.relative_pose, vec![double(0.0); 6]);
}

#[test]
fn requests_read_what_is_there() {
    let mut state = asking("unsafe_move_j");
    state.set("r1_velocity", float(0.25));
    state.set("r1_use_joint_positions", SpValue::Bool(Some(true)));
    state.set("r1_joint_positions", SpValue::doubles(&vec![double(0.5); 6]));
    state.set("r1_trajectory_id", SpValue::text("pick"));
    let request = read_request("r1", &state, true).unwrap();
    assert_eq!(request.velocity, double(0.25));
    assert!(request.use_joint_positions);
    assert_eq!(request.joint_positions, vec![double(0.5); 6]);
    assert_eq!(request.trajectory_id, "pick");
    assert!(transform_lookups(&request).is_empty());
}

#[test]
fn a_request_walks_through_its_lookups() {
    let mut state = asking("unsafe_move_j");
    state.set("r1_waypoints", SpValue::Array(Some(vec![SpValue::Table(Some(waypoint_fields()))])));
    let request = read_request("r1", &state, true).unwrap();
    let asked: Vec<(String, String, bool)> = transform_lookups(&request)
        .iter()
        .map(|l| (l.parent.clone(), l.child.clone(), l.of_waypoint))
        .collect();
    assert_eq!(
        asked,
        vec![
            ("base_link".to_string(), "goal".to_string(), false),
            ("tool0".to_string(), "tcp".to_string(), false),
            ("base_link".to_string(), "w1".to_string(), true),
            ("tool0".to_string(), "tcp".to_string(), false),
        ]
    );
    let texts: Vec<String> = transform_lookups(&request).iter().map(lookup_failure_text).collect();
    assert_eq!(texts[0], "no transform from 'base_link' to 'goal'");
    assert_eq!(texts[2], "no transform from 'base_link' to waypoint frame 'w1'");

    let mut intake = Intake::new(request);
    let mut looked = 0;
    loop {
        match intake.next() {
            Step::LookUp { parent, child } => {
                assert_eq!(asked[looked].0, parent);
                assert_eq!(asked[looked].1, child);
                assert_eq!(intake.not_found(), texts[looked]);
                intake.found(format!("p[{},0,0,0,0,0]", looked));
                looked += 1;
            }
            Step::Render(command) => {
                assert_eq!(looked, 4);
                assert_eq!(command.target_in_base, "p[0,0,0,0,0,0]");
                assert_eq!(command.waypoints.len(), 1);
                assert_eq!(command.waypoints[0].target_in_base, "p[2,0,0,0,0,0]");
                assert_eq!(command.waypoints[0].tcp_in_faceplate, "p[3,0,0,0,0,0]");
                assert!(!command.waypoints[0].use_linear_motion);
                return;
            }
            _ => panic!("neither planned nor failed"),
        }
    }
}

#[test]
fn planned_commands_go_to_the_planner() {
    let mut state = asking("optimal_trajectory");
    state.set("r1_use_joint_positions", SpValue::Bool(Some(true)));
    let intake = Intake::new(read_request("r1", &state, true).unwrap());
    assert!(matches!(intake.next(), Step::Plan(_)));
}

#[test]
fn a_missing_waypoint_field_fails_the_whole_request() {
    let mut fields = waypoint_fields();
    fields.remove(1);
    let broken = SpValue::Array(Some(vec![
        SpValue::Table(Some(waypoint_fields())),
        SpValue::Table(Some(fields)),
    ]));
    assert!(WaypointRaw::vec_from_sp_value(Some(&broken)).is_none());
    let whole = SpValue::Array(Some(vec![
        SpValue::Table(Some(waypoint_fields())),
        SpValue::Table(Some(waypoint_fields())),
    ]));
    assert_eq!(WaypointRaw::vec_from_sp_value(Some(&whole)).unwrap().len(), 2);
    assert!(WaypointRaw::vec_from_sp_value(None).is_none());

    let mut state = asking("unsafe_move_j");
    state.set("r1_use_joint_positions", SpValue::Bool(Some(true)));
    state.set("r1_waypoints", broken);
    let request = read_request("r1", &state, true).unwrap();
    assert_eq!(
        assemble(&request, &vec![]).unwrap_err(),
        "one or more waypoints failed to decode"
    );
}

#[test]
fn admission_is_refused_with_a_reason() {
    let mut driver = Driver::new();
    assert_eq!(rejection(&driver, true).as_deref(), Some("not connected to the robot"));
    driver.connected = true;
    driver.safety_mode = 1;
    assert_eq!(rejection(&driver, false).as_deref(), Some("not connected to the robot"));
    assert_eq!(rejection(&driver, true), None);
    driver.reissuing = true;
    assert_eq!(rejection(&driver, true).as_deref(), Some("a goal is already running"));
    driver.reissuing = false;
    driver.goal_id = Some("g".to_string());
    assert_eq!(rejection(&driver, true).as_deref(), Some("a goal is already running"));
    driver.safety_mode = 3;
    assert_eq!(
        rejection(&driver, true).as_deref(),
        Some("robot safety mode is PROTECTIVE_STOP")
    );
    driver.motion_paused = true;
    assert_eq!(rejection(&driver, true).as_deref(), Some("motion is paused"));
}

fn command() -> RobotCommand {
    let mut state = asking("unsafe_move_j");
    state.set("r1_use_joint_positions", SpValue::Bool(Some(true)));
    assemble(&read_request("r1", &state, true).unwrap(), &vec![]).unwrap()
}

#[test]
fn an_accepted_goal_is_live() {
    let mut driver = Driver::new();
    driver.waypoints_completed = 4;
    let write = accept("r1", &mut driver, &command(), 1, 2);
    assert_eq!(write.key, "r1_request_state");
    assert_eq!(text(&write.value), "executing");
    assert_eq!(driver.cancel_sender, Some(1));
    assert_eq!(driver.resume_sender, Some(2));
    assert_eq!(driver.waypoints_completed, 0);
    assert!(driver.active_command.is_some());
}

#[test]
fn failures_are_terminal_and_counted() {
    assert_eq!(
        counter_keys("r1"),
        vec!["r1_total_fail_counter", "r1_subsequent_fail_counter"]
    );
    let mut counters = State::new();
    counters.set("r1_total_fail_counter", SpValue::Int64(Some(7)));
    assert_eq!(failure_counters("r1", &counters), (7, 0));
    assert_eq!(
        said(&fail_request("r1", "motion is paused", Some((7, 0)))),
        vec![
            pair("r1_total_fail_counter", "8"),
            pair("r1_subsequent_fail_counter", "1"),
            pair("r1_request_result", "motion is paused"),
            pair("r1_request_state", "failed"),
        ]
    );
    assert_eq!(
        said(&fail_request("r1", "no", None)),
        vec![pair("r1_request_result", "no"), pair("r1_request_state", "failed")]
    );
    assert_eq!(
        said(&publish_script_result("r1", "succeeded", true)),
        vec![pair("r1_request_result", "succeeded")]
    );
    assert_eq!(
        said(&[publish_script_feedback("r1", "moving")]),
        vec![pair("r1_request_feedback", "moving")]
    );
}

#[test]
fn goal_ids_come_out_of_their_alphabet() {
    let alphabet = vec!['a', 'b', '7'];
    assert!(is_id_alphabet(&alphabet));
    assert!(!is_id_alphabet(&vec![]));
    assert!(!is_id_alphabet(&vec!['\u{e9}']));
    let id = new_goal_id(&alphabet);
    assert_eq!(id.chars().count(), 10);
    assert!(id.chars().all(|c| alphabet.contains(&c)));
}

#[test]
fn templates_render_the_command() {
    let mut context = tera::Context::new();
    context.insert("target_in_base", "p[1,2,3,0,0,0]");
    context.insert("velocity", &0.5);
    let script = generate_core_script_from_template(&command(), &context, &templates()).unwrap();
    assert_eq!(script, "movej(p[1,2,3,0,0,0], v=0.5)");

    let mut unknown = command();
    unknown.command_type = "unsafe_move_l".to_string();
    let error = generate_core_script_from_template(&unknown, &context, &templates()).unwrap_err();
    assert_eq!(
        render_failure(&error),
        "failed to render the UR Script template: Template 'unsafe_move_l.script' not found"
    );

    // A template that is there can fail too, and then with the error of its own rendering.
    let empty = tera::Context::new();
    let error = generate_core_script_from_template(&command(), &empty, &templates()).unwrap_err();
    let same = templates().render("unsafe_move_j.script", &empty).unwrap_err();
    assert_eq!(error.to_string(), same.to_string());
}
