use ur_redis_driver::cli::{
    override_request, parse_six, split_list, subcommand, Args, Subcommand,
};
use ur_redis_driver::config::{
    env_port, robot_model_from_env, settings, trajectory_dir, ur_driver_socket_port, Environment,
};
use ur_redis_driver::double::Double;
use ur_redis_driver::ros::{is_due, publisher_arguments, xacro_arguments};
use ur_redis_driver::trajectory::frames::FrameConfig;
use ur_redis_driver::trajectory::limits::PlanScaling;
use ur_redis_driver::trajectory::plan::{PlanRequest, WaypointTarget};
use ur_redis_driver::URDFParameters;

fn double(x: f64) -> Double {
    Double { bits: x.to_bits() }
}

fn words(s: &[&str]) -> Vec<String> {
    s.iter().map(|w| w.to_string()).collect()
}

fn reading(list: &str) -> Vec<Result<Double, String>> {
    split_list(list)
        .iter()
        .map(|p| p.parse::<f64>().map(double).map_err(|e| e.to_string()))
        .collect()
}

#[test]
fn subcommands_are_told_apart() {
    assert_eq!(subcommand(&vec![]).unwrap(), Subcommand::Help);
    assert_eq!(subcommand(&words(&["--help"])).unwrap(), Subcommand::Help);
    assert_eq!(subcommand(&words(&["plan", "--help"])).unwrap(), Subcommand::Plan);
    assert_eq!(subcommand(&words(&["list"])).unwrap(), Subcommand::List);
    assert_eq!(subcommand(&words(&["show", "a"])).unwrap(), Subcommand::Show);
    assert_eq!(subcommand(&words(&["render", "a"])).unwrap(), Subcommand::Render);
    assert_eq!(
        subcommand(&words(&["fly"])).unwrap_err(),
        "unknown subcommand 'fly'; try --help"
    );
}

#[test]
fn flags_take_the_word_behind_them() {
    let args = Args::parse(&words(&[
        "pick", "--input", "a.json", "--dry-run", "--name", "n", "extra", "--input", "b.json", "--tcp",
    ]));
    assert_eq!(args.positional, words(&["pick", "extra"]));
    assert_eq!(args.get("input").as_deref(), Some("a.json"));
    assert_eq!(args.require("name").unwrap(), "n");
    assert!(args.has("dry-run") && args.has("tcp") && !args.has("script"));
    assert_eq!(args.get("dry-run"), None);
    assert_eq!(args.require("model").unwrap_err(), "--model is required");
    assert_eq!(args.trajectory_name("show").unwrap(), "pick");
    assert_eq!(
        Args::parse(&words(&["--x"])).trajectory_name("show").unwrap_err(),
        "show needs a trajectory name"
    );
}

#[test]
fn numbers_are_read_off_flags() {
    let args = Args::parse(&words(&["--velocity-scaling", "fast"]));
    let read = "fast".parse::<f64>().map(double).map_err(|e| e.to_string());
    assert_eq!(
        args.float("velocity-scaling", &read).unwrap_err(),
        "--velocity-scaling: 'fast' is not a number: invalid float literal"
    );
    assert_eq!(args.float("acceleration-scaling", &read).unwrap(), None);
    let args = Args::parse(&words(&["--velocity-scaling", "0.5"]));
    assert_eq!(args.float("velocity-scaling", &Ok(double(0.5))).unwrap(), Some(double(0.5)));
}

#[test]
fn six_values_are_six() {
    let flag = "--acceleration-limits";
    let good = "1, 2,3 ,4,5,6";
    assert_eq!(
        parse_six(good, flag, &reading(good)).unwrap(),
        [1.0, 2.0, 3.0, 4.0, 5.0, 6.0].map(double)
    );
    assert_eq!(
        parse_six("1,2", flag, &reading("1,2")).unwrap_err(),
        "--acceleration-limits needs six comma-separated values, got 2"
    );
    let bad = "1,2,x,4,5,6";
    assert_eq!(
        parse_six(bad, flag, &reading(bad)).unwrap_err(),
        "--acceleration-limits value 2 ('x') is not a number: invalid float literal"
    );
}

#[test]
fn the_command_line_overrides_the_request() {
    let request = || PlanRequest {
        robot_model: "ur20".to_string(),
        start: WaypointTarget::Joints([double(0.0); 6]),
        waypoints: vec![],
        scaling: PlanScaling { velocity: double(1.0), acceleration: double(0.5) },
        acceleration_max: None,
        max_cartesian_speed: double(0.5),
        max_path_deviation: double(0.01),
        frame_config: FrameConfig::default(),
    };
    let same = override_request(request(), None, None, None, None);
    assert_eq!(same.robot_model, "ur20");
    assert_eq!(same.scaling, request().scaling);
    let other = override_request(
        request(),
        Some("ur5e".to_string()),
        Some(double(0.25)),
        None,
        Some([double(3.0); 6]),
    );
    assert_eq!(other.robot_model, "ur5e");
    assert_eq!(other.scaling, PlanScaling { velocity: double(0.25), acceleration: double(0.5) });
    assert_eq!(other.acceleration_max, Some([double(3.0); 6]));
}

fn silent() -> Environment {
    Environment {
        robot_id: None,
        robot_model: None,
        tf_prefix: None,
        description_dir: None,
        address: None,
        dashboard_port: None,
        realtime_port: None,
        socket_port: None,
        ready_flag: None,
    }
}

#[test]
fn a_silent_environment_is_the_standard_cell() {
    let s = settings(&silent());
    assert_eq!(s.robot_id, "r1");
    assert_eq!(s.log_target, "r1_ur_redis_driver");
    assert_eq!(s.dashboard_address, "0.0.0.0:29999");
    assert_eq!(s.realtime_address, "0.0.0.0:30003");
    assert_eq!(s.socket_port, 50000);
    assert_eq!(s.ready_flag, "/tmp/robot_controller_ready.flag");
    assert_eq!(s.params.tf_prefix, "");
    assert_eq!(s.params.ur_type, "ur20");
    assert_eq!(s.params.description_file, "src/ur_description/urdf/ur20.urdf");
    assert_eq!(s.params.ur_meshes_path, "src/ur_description/meshes/ur20/visual");
}

#[test]
fn the_environment_configures_the_driver() {
    let mut env = silent();
    env.robot_id = Some("r2".to_string());
    env.robot_model = Some("ur5e".to_string());
    env.tf_prefix = Some("r2_".to_string());
    env.description_dir = Some("/opt/ur".to_string());
    env.address = Some("192.168.1.10".to_string());
    env.dashboard_port = Some(" 30999 ".to_string());
    env.realtime_port = Some("seventy".to_string());
    env.socket_port = Some("50001".to_string());
    let s = settings(&env);
    assert_eq!(s.params.name, "r2");
    assert_eq!(s.params.tf_prefix, "r2_");
    assert_eq!(s.dashboard_address, "192.168.1.10:30999");
    assert_eq!(s.realtime_address, "192.168.1.10:30003");
    assert_eq!(s.socket_port, 50001);
    assert_eq!(s.params.description_file, "/opt/ur/urdf/ur5e.urdf");
    assert_eq!(s.params.ur_meshes_path, "/opt/ur/meshes/ur5e/visual");
}

#[test]
fn ports_fall_back() {
    assert_eq!(env_port(Some("65535"), 1), 65535);
    assert_eq!(env_port(Some("65536"), 1), 1);
    assert_eq!(env_port(Some("-1"), 1), 1);
    assert_eq!(env_port(Some("+80"), 1), 80);
    assert_eq!(env_port(Some(""), 1), 1);
    assert_eq!(ur_driver_socket_port(None), 50000);
    assert_eq!(robot_model_from_env(&None), "ur20");
    assert_eq!(trajectory_dir(&None), "trajectories");
    assert_eq!(trajectory_dir(&Some("/srv/t".to_string())), "/srv/t");
}

#[test]
fn tools_get_their_arguments() {
    let params = URDFParameters::default();
    assert_eq!(
        xacro_arguments(&params, "0.15", "20"),
        words(&[
            "TODO!",
            "safety_limits:=true",
            "safety_pos_margin:=0.15",
            "safety_k_position:=20",
            "name:=robot_1",
            "ur_type:=ur10e",
            "prefix:=",
        ])
    );
    assert_eq!(
        publisher_arguments("<robot/>", "r1"),
        words(&[
            "run",
            "robot_state_publisher",
            "robot_state_publisher",
            "--ros-args",
            "-r",
            "__ns:=/r1",
            "-p",
            "robot_description:=<robot/>",
        ])
    );
    assert!(is_due(5_000_000) && !is_due(4_999_999));
}
