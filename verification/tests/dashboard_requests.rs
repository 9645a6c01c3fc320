use ur_redis_driver::dashboard_server::{
    consume_trigger, dashboard_request_keys, executing, finish, is_triggered, read_command,
    trigger_key, Answer,
};
use ur_redis_driver::sp_value::{SpValue, State, Write};
use ur_redis_driver::{generate_robot_interface_state, DashboardCommand, DashboardReply};

fn said(write: &Write) -> (String, String) {
    match &write.value {
        SpValue::Text(Some(s)) => (write.key.clone(), s.clone()),
        SpValue::Bool(Some(b)) => (write.key.clone(), b.to_string()),
        other => panic!("unexpected value {:?}", other),
    }
}

fn asking(command: &str, arg: &str) -> State {
    let mut state = generate_robot_interface_state("r1");
    state.set("r1_dashboard_command", SpValue::text(command));
    state.set("r1_dashboard_command_arg", SpValue::text(arg));
    state.set("r1_dashboard_request_trigger", SpValue::Bool(Some(true)));
    state
}

#[test]
fn dashboard_requests_have_their_own_keys() {
    let state = generate_robot_interface_state("r1");
    assert_eq!(trigger_key("r1"), "r1_dashboard_request_trigger");
    for key in dashboard_request_keys("r1") {
        assert!(state.contains(&key), "{} is not seeded", key);
        assert!(key.starts_with("r1_dashboard_"));
    }
    assert!(!is_triggered("r1", &state));
    assert!(is_triggered("r1", &asking("stop", "")));
    assert_eq!(
        said(&consume_trigger("r1")),
        ("r1_dashboard_request_trigger".to_string(), "false".to_string())
    );
}

#[test]
fn dashboard_requests_are_read_at_initial() {
    let command = read_command("r1", &asking("load", "a.urp")).unwrap().unwrap();
    assert_eq!(command, DashboardCommand::Load("a.urp".to_string()));
    let refused = read_command("r1", &asking("fly", "")).unwrap().unwrap_err();
    assert_eq!(refused, "unknown dashboard command 'fly'");
    let mut busy = asking("stop", "");
    busy.set("r1_dashboard_request_state", SpValue::text("executing"));
    assert!(read_command("r1", &busy).is_none());
    assert_eq!(
        said(&executing("r1")),
        ("r1_dashboard_request_state".to_string(), "executing".to_string())
    );
}

#[test]
fn dashboard_requests_always_end() {
    let cases = vec![
        (Answer::Reply(DashboardReply::ok("Stopped")), "Stopped", "succeeded"),
        (Answer::Reply(DashboardReply::fail("Failed to execute: stop")), "Failed to execute: stop", "failed"),
        (Answer::Refused("no such command".to_string()), "no such command", "failed"),
        (Answer::NotRunning, "dashboard task is not running", "failed"),
        (Answer::Dropped, "dashboard task dropped the request", "failed"),
        (Answer::TimedOut, "timed out waiting for the controller", "failed"),
    ];
    for (answer, text, state) in cases {
        let writes = finish("r1", answer);
        assert_eq!(writes.len(), 2);
        assert_eq!(said(&writes[0]), ("r1_dashboard_request_result".to_string(), text.to_string()));
        assert_eq!(said(&writes[1]), ("r1_dashboard_request_state".to_string(), state.to_string()));
    }
}
