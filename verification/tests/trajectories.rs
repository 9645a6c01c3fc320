use ur_redis_driver::double::Double;
use ur_redis_driver::trajectory::emit::{to_robot_command, to_waypoints};
use ur_redis_driver::trajectory::frames::{
    parse_pose_string as parse_components, pose_components, FrameConfig, PoseFrame,
};
use ur_redis_driver::trajectory::kinematics::{expand_turns, select_nearest, DhParameters};
use ur_redis_driver::trajectory::limits::{
    clamp_scale, estimate_acceleration, joint_name, Limits, PlanScaling,
};
use ur_redis_driver::trajectory::online::{
    check_start_matches, plan_from_command, source_of, Apart, Source,
};
use ur_redis_driver::trajectory::path::{
    check_configuration, configurations_for, nearest_configuration, ResolveError,
};
use ur_redis_driver::trajectory::plan::{
    assemble_plan, check_request, default_pose_frame, model_limits, model_urdf_paths,
    planning_limits, resolve_next, Interpolation, Need, PlanError, PlanRequest, PlanWaypoint,
    PlannedTrajectory, PlannedWaypoint, WaypointTarget,
};
use ur_redis_driver::trajectory::store::{
    accept_record, join_path, path_for, record_of, stored_names, validate_name, SCHEMA_VERSION,
};
use ur_redis_driver::trajectory::timing::{
    achievable_peak_speed, blend_radius, cartesian_speed_cap, corner_at, has_corner, is_flip,
    joint_segment_speed, linear_samples, motion_profile, timed, Cap, Corner, Pace, Profile,
    Segment, SegmentSpeed,
};
use ur_redis_driver::trajectory::urdf::beyond_reader;
use ur_redis_driver::{
    is_planner_command, pose_to_string, waypoints_for_command, RobotCommand,
    OPTIMAL_TRAJECTORY_COMMAND,
};

const MODEL: &str = "ur20";
const HOME: [f64; 6] = [0.0, -1.5707, 0.0, -1.5707, 0.0, 0.0];

fn double(x: f64) -> Double {
    Double { bits: x.to_bits() }
}

fn six(q: [f64; 6]) -> [Double; 6] {
    q.map(double)
}

fn number(d: Double) -> f64 {
    f64::from_bits(d.bits)
}

fn joints(q: [f64; 6], blend: Option<f64>) -> PlanWaypoint {
    PlanWaypoint {
        target: WaypointTarget::Joints(six(q)),
        preferred_joint_config: None,
        blend_radius: blend.map(double),
        interpolation: Interpolation::Joint,
    }
}

fn pose(values: [f64; 6]) -> WaypointTarget {
    WaypointTarget::Pose { values: six(values), frame: PoseFrame::UrBase }
}

fn request(waypoints: Vec<PlanWaypoint>) -> PlanRequest {
    PlanRequest {
        robot_model: MODEL.to_string(),
        start: WaypointTarget::Joints(six(HOME)),
        waypoints,
        scaling: PlanScaling { velocity: double(1.0), acceleration: double(1.0) },
        acceleration_max: None,
        max_cartesian_speed: double(0.5),
        max_path_deviation: double(0.01),
        frame_config: FrameConfig::default(),
    }
}

/// A path that exercises several differently-led segments.
fn mixed_path() -> Vec<PlanWaypoint> {
    vec![
        joints([0.8, -1.4, 0.5, -1.2, 0.3, 0.0], Some(0.10)),
        joints([0.85, -1.4, 0.5, -1.0, 1.4, 1.9], Some(0.10)),
        joints([0.9, -1.1, 1.5, -1.3, 1.4, 1.9], Some(0.10)),
        joints([0.2, -1.5, 0.2, -1.6, 0.1, 0.2], None),
    ]
}

/// Whole turns, but for the elbow.
fn limits() -> Limits {
    let tau = 2.0 * std::f64::consts::PI;
    let pi = std::f64::consts::PI;
    Limits {
        position_min: six([-tau, -tau, -pi, -tau, -tau, -tau]),
        position_max: six([tau, tau, pi, tau, tau, tau]),
        velocity_max: six([2.0; 6]),
        acceleration_max: six([4.0; 6]),
    }
}

fn segment(velocity: f64, still: bool) -> Option<Segment> {
    Some(Segment {
        speed: SegmentSpeed {
            velocity: double(velocity),
            acceleration: double(4.0),
            limiting_joint: 2,
        },
        still,
    })
}

fn corner(gentle: bool, blend: f64) -> Option<Corner> {
    Some(Corner { gentle, blend: double(blend) })
}

/// The plan of the mixed path, with the speeds given.
fn planned() -> PlannedTrajectory {
    let request = request(mixed_path());
    let mut configs = vec![];
    assert!(matches!(resolve_next(&request, &limits(), &mut configs), Need::Done));
    let segments = vec![
        segment(2.0, false),
        segment(3.0, false),
        segment(2.5, false),
        segment(2.25, false),
    ];
    let corners = vec![corner(true, 0.1), corner(false, 0.0), None];
    assemble_plan(&request, limits(), &configs, &segments, &corners, double(3.5)).unwrap()
}

/// How the components of a literal read as numbers.
fn reading(s: &str) -> Vec<Result<Double, String>> {
    match pose_components(s) {
        Ok(parts) => parts
            .iter()
            .map(|p| p.parse::<f64>().map(double).map_err(|e| e.to_string()))
            .collect(),
        Err(_) => vec![],
    }
}

fn parse_pose_string(s: &str) -> Result<[f64; 6], String> {
    parse_components(s, &reading(s)).map(|p| p.map(number))
}

#[test]
fn pose_strings_round_trip() {
    // The rotation vector's norm must be below pi, or it is not the canonical
    // representative of its rotation and cannot round-trip through a quaternion.
    let p = [0.1, -0.2, 0.3, 0.6, -0.4, 1.1];
    let pose = k::nalgebra::Isometry3::from_parts(
        k::nalgebra::Translation3::new(p[0], p[1], p[2]),
        k::nalgebra::UnitQuaternion::from_scaled_axis(k::nalgebra::Vector3::new(p[3], p[4], p[5])),
    );
    let t = pose.translation.vector;
    let r = pose.rotation.scaled_axis();
    let spelled: Vec<String> =
        [t.x, t.y, t.z, r.x, r.y, r.z].iter().map(|v| v.to_string()).collect();
    let parsed = parse_pose_string(&pose_to_string(&spelled)).unwrap();
    for i in 0..6 {
        assert!((parsed[i] - p[i]).abs() < 1e-12, "component {i}");
    }
    // Tolerates the shapes the driver's own formatters produce.
    assert!(parse_pose_string("p[0,0,0,0,0,0]").is_ok());
    assert!(parse_pose_string("  [ 1.0 , 2.0 ,3.0, 0,0,0 ] ").is_ok());
    assert!(parse_pose_string("p[0,0,0,0,0]").is_err());
    assert!(parse_pose_string("not a pose").is_err());
}

#[test]
fn bad_pose_literals_say_what_is_wrong() {
    assert_eq!(
        parse_pose_string("not a pose").unwrap_err(),
        "'not a pose' is not a p[...] pose literal"
    );
    assert_eq!(
        parse_pose_string("p[0,0,0,0,0]").unwrap_err(),
        "'p[0,0,0,0,0]' has 5 components, expected six"
    );
    assert_eq!(
        parse_pose_string("p[0,0,0,0,0,0,x]").unwrap_err(),
        "'p[0,0,0,0,0,0,x]' has more than six components"
    );
    assert_eq!(
        parse_pose_string("p[0,x,0]").unwrap_err(),
        "'p[0,x,0]' component 1 is not a number: invalid float literal"
    );
}

#[test]
fn poses_are_turned_only_where_the_tree_asks_for_it() {
    let published = FrameConfig::default();
    assert!(published.base_link_is_ur_base);
    assert_eq!(published.base_link_to_ur_base("as is", "turned"), "as is");
    let urdf = FrameConfig { base_link_is_ur_base: false };
    assert_eq!(urdf.base_link_to_ur_base("as is", "turned"), "turned");
    assert_eq!(urdf.ur_base_to_base_link("as is", "turned"), "turned");
    assert_eq!(urdf.to_ur_base(PoseFrame::UrBase, "as is", "turned"), "as is");
    assert_eq!(urdf.to_ur_base(PoseFrame::UrdfBaseLink, "as is", "turned"), "turned");
    assert_eq!(default_pose_frame(), PoseFrame::UrdfBaseLink);
}

#[test]
fn known_models_have_their_lengths() {
    let known = [
        ("ur3", [0.1519, -0.24365, -0.21325, 0.11235, 0.08535, 0.0819]),
        ("ur3e", [0.15185, -0.24355, -0.2132, 0.13105, 0.08535, 0.0921]),
        ("ur5", [0.089159, -0.425, -0.39225, 0.10915, 0.09465, 0.0823]),
        ("ur5e", [0.1625, -0.425, -0.3922, 0.1333, 0.0997, 0.0996]),
        ("ur10", [0.1273, -0.612, -0.5723, 0.163941, 0.1157, 0.0922]),
        ("ur10e", [0.1807, -0.6127, -0.57155, 0.17415, 0.11985, 0.11655]),
        ("ur16e", [0.1807, -0.4784, -0.36, 0.17415, 0.11985, 0.11655]),
        ("ur20", [0.2363, -0.862, -0.7287, 0.201, 0.1593, 0.1543]),
        ("ur30", [0.2363, -0.637, -0.5037, 0.201, 0.1593, 0.1543]),
    ];
    for (model, lengths) in known {
        let dh = DhParameters::for_model(model).unwrap();
        assert_eq!([dh.d1, dh.a2, dh.a3, dh.d4, dh.d5, dh.d6].map(number), lengths, "{}", model);
    }
    assert!(DhParameters::for_model("ur4").is_none());
}

/// A solution and the same a whole turn either way, joint by joint.
fn turns(q: [f64; 6]) -> Vec<Vec<Double>> {
    let tau = 2.0 * std::f64::consts::PI;
    q.iter().map(|v| [-1.0, 0.0, 1.0].iter().map(|t| double(v + t * tau)).collect()).collect()
}

#[test]
fn turned_solutions_stay_inside_the_limits() {
    let limits = limits();
    let q = [0.5, -1.0, 2.0, 3.0, -3.0, 0.0];
    let all = expand_turns(&turns(q), &limits);
    // Two turns fit each joint but the elbow, which has one, and the last, which has three.
    assert_eq!(all.len(), 2 * 2 * 2 * 2 * 3);
    for s in &all {
        assert_eq!(s.len(), 6);
        for i in 0..6 {
            assert!(limits.position_min[i].at_most(s[i]) && s[i].at_most(limits.position_max[i]));
        }
    }
    assert!(all.iter().any(|s| s.iter().zip(q).all(|(a, b)| number(*a) == b)));
    assert_eq!(number(all[0][0]), 0.5 - 2.0 * std::f64::consts::PI);
}

#[test]
fn the_nearest_solution_is_taken() {
    let distances: Vec<Double> = [3.0, 1.0, 2.0, 1.0].iter().map(|d| double(*d)).collect();
    assert_eq!(select_nearest(&distances), Some(1));
    assert_eq!(select_nearest(&vec![]), None);
    let found = vec![vec![double(1.0); 6], vec![double(2.0); 6]];
    assert_eq!(nearest_configuration(&found, &vec![double(5.0), double(4.0)]), found[1]);
}

#[test]
fn unreachable_waypoints_fail_with_a_reason() {
    // A pose far outside the arm's reach has no solution at all.
    let far = PlanWaypoint {
        target: pose([5.0, 0.0, 0.5, 0.0, 0.0, 0.0]),
        preferred_joint_config: None,
        blend_radius: None,
        interpolation: Interpolation::Joint,
    };
    let asked = request(vec![far]);
    assert!(check_request(&asked).is_ok());
    let mut configs = vec![];
    let index = match resolve_next(&asked, &limits(), &mut configs) {
        Need::Solve { index, .. } => index,
        _ => panic!("a pose has to be solved"),
    };
    let err = PlanError::Resolve(configurations_for(&vec![], &limits(), index).unwrap_err());
    let err = err.message("", "", "");
    assert!(err.contains("reach"), "unhelpful error: {err}");

    let empty = check_request(&request(vec![])).unwrap_err().message("", "", "");
    assert!(empty.contains("at least one waypoint"), "unhelpful error: {empty}");
}

#[test]
fn every_plan_error_has_its_words() {
    let mut unknown = request(mixed_path());
    unknown.robot_model = "ur4".to_string();
    assert_eq!(check_request(&unknown).unwrap_err().message("", "", ""), "unknown robot model 'ur4'");
    let many = request(vec![joints(HOME, None); 401]);
    assert_eq!(
        check_request(&many).unwrap_err().message("", "", ""),
        "401 waypoints exceeds the limit of 400"
    );
    assert_eq!(
        PlanError::Resolve(ResolveError::Unreachable { index: 2 }).message("", "", ""),
        "waypoint 2 is outside the arm's reach"
    );
    let branch = turns([0.0, 0.0, 4.0, 0.0, 0.0, 0.0]);
    let tight = Limits { position_max: six([0.5; 6]), position_min: six([-0.5; 6]), ..limits() };
    let outside = configurations_for(&vec![branch], &tight, 3).unwrap_err();
    assert_eq!(outside, ResolveError::OutsideJointLimits { index: 3 });
    assert_eq!(
        outside.message("", "", ""),
        "waypoint 3 is reachable, but every inverse-kinematics branch violates a joint limit"
    );
    let given = check_configuration(&tight, &six([0.0, 0.75, 9.0, 0.0, 0.0, 0.0]), 1).unwrap_err();
    assert_eq!(
        given.message("0.75", "-0.5", "0.5"),
        "waypoint 1 sets joint 1 to 0.75, outside [-0.5, 0.5]"
    );
    assert_eq!(
        PlanError::LinearSegmentNotFollowable { index: 4 }.message("", "", ""),
        "the straight path to waypoint 4 leaves the workspace or requires a wrist flip; use joint interpolation or add an intermediate waypoint"
    );
    assert_eq!(
        PlanError::DegenerateSegment { index: 5 }.message("", "", ""),
        "waypoint 5 is the same configuration as the one before it"
    );
}

#[test]
fn poses_are_solved_near_their_seed() {
    let mut first = joints(HOME, None);
    first.target = pose([0.6, 0.1, 0.4, 0.0, 3.14, 0.0]);
    let mut second = first;
    second.preferred_joint_config = Some(six([0.1; 6]));
    let asked = request(vec![first, joints([0.5; 6], None), second]);
    let mut configs = vec![];
    match resolve_next(&asked, &limits(), &mut configs) {
        Need::Solve { seed, index, frame, .. } => {
            assert_eq!((seed, index, frame), (six(HOME), 1, PoseFrame::UrBase));
        }
        _ => panic!("the first waypoint has to be solved"),
    }
    configs.push(six([0.25; 6]));
    match resolve_next(&asked, &limits(), &mut configs) {
        Need::Solve { seed, index, .. } => assert_eq!((seed, index), (six([0.1; 6]), 3)),
        _ => panic!("the third waypoint has to be solved"),
    }
    assert_eq!(configs.len(), 3);
    configs.push(six([0.75; 6]));
    assert!(matches!(resolve_next(&asked, &limits(), &mut configs), Need::Done));

    let mut from_pose = request(mixed_path());
    from_pose.start = pose([0.0; 6]);
    let mut configs = vec![];
    assert!(matches!(
        resolve_next(&from_pose, &limits(), &mut configs),
        Need::Solve { seed, index: 0, .. } if seed == six([0.0; 6])
    ));

    let far = request(vec![joints([9.0, 0.0, 0.0, 0.0, 0.0, 0.0], None)]);
    let mut configs = vec![];
    assert!(matches!(
        resolve_next(&far, &limits(), &mut configs),
        Need::Refused(ResolveError::GivenConfigurationOutsideLimits { index: 1, joint: 0, .. })
    ));
}

#[test]
fn a_plan_follows_its_request() {
    let t = planned();
    assert_eq!(t.robot_model, MODEL);
    assert_eq!(t.start_joint_positions, six(HOME));
    assert_eq!(t.waypoints.len(), 4);
    assert_eq!(t.duration_estimate, double(3.5));
    assert_eq!(t.waypoints[0].joint_positions, six([0.8, -1.4, 0.5, -1.2, 0.3, 0.0]));
    assert_eq!(t.waypoints[1].velocity, double(3.0));
    assert_eq!(t.waypoints[0].blend_radius, double(0.1));
    // The motion must end at rest.
    assert_eq!(t.waypoints.last().unwrap().blend_radius, double(0.0));
    assert!(t.warnings.is_empty());
    assert_eq!(t.waypoints[0].limiting_joint, 2);
}

#[test]
fn plans_warn_of_what_they_could_not_do() {
    let mut path = mixed_path();
    path[2].interpolation = Interpolation::Linear;
    let request = request(path);
    let mut configs = vec![];
    resolve_next(&request, &limits(), &mut configs);
    let segments =
        vec![segment(1.0, true), segment(1.0, false), segment(1.0, true), segment(1.0, false)];
    let corners = vec![corner(false, 0.0), corner(true, -0.0), None];
    let t = assemble_plan(&request, limits(), &configs, &segments, &corners, double(1.0)).unwrap();
    assert_eq!(
        t.warnings,
        vec![
            "waypoint 3 asks for a straight move but the tool does not travel; only the orientation changes",
            "waypoint 2 cannot be blended, so the arm will stop there",
        ]
    );
    assert!(t.waypoints[2].use_linear_motion && !t.waypoints[1].use_linear_motion);

    let stopped = vec![segment(1.0, false), None];
    assert!(matches!(
        assemble_plan(&request, limits(), &configs, &stopped, &vec![], double(0.0)),
        Err(PlanError::DegenerateSegment { index: 2 })
    ));
    let broken = vec![segment(1.0, false), segment(1.0, false), None];
    assert!(matches!(
        assemble_plan(&request, limits(), &configs, &broken, &vec![], double(0.0)),
        Err(PlanError::LinearSegmentNotFollowable { index: 3 })
    ));
}

/// `t=` overrides `a` and `v` and is unbounded, so it must never be emitted.
#[test]
fn emitted_waypoints_never_use_execution_time() {
    for w in to_waypoints(&planned(), "p[0,0,0,0,0,0]", "") {
        assert!(!w.use_execution_time);
        assert!(w.use_joint_positions, "the controller must not run IK for a planned path");
    }
}

#[test]
fn emitted_waypoints_are_not_scaled_again() {
    let t = planned();
    let waypoints = to_waypoints(&t, "p[0,0,0,0,0,0]", "");
    assert_eq!(waypoints.len(), t.waypoints.len());
    for (w, p) in waypoints.iter().zip(&t.waypoints) {
        assert_eq!(w.global_velocity_scaling, double(0.0));
        assert_eq!(w.global_acceleration_scaling, double(0.0));
        assert_eq!(w.velocity, p.velocity);
        assert_eq!(w.use_blend_radius, number(p.blend_radius) > 0.0);
        assert_eq!(w.target_in_base, "p[0,0,0,0,0,0]");
        assert!(!w.use_payload);
    }
    let command = to_robot_command(&t, OPTIMAL_TRAJECTORY_COMMAND, "p[0,0,0.1,0,0,0]", "1,[0,0,0]", true);
    assert_eq!(command.command_type, "optimal_trajectory");
    assert_eq!(command.velocity, double(2.0));
    assert_eq!(command.joint_positions, six(HOME).to_vec());
    assert!(command.use_payload && command.waypoints[0].use_payload);
    assert_eq!(command.waypoints[3].tcp_in_faceplate, "p[0,0,0.1,0,0,0]");
    assert!(command.report_waypoint_progress && command.trajectory_id.is_empty());
}

fn command(waypoints: usize) -> RobotCommand {
    let mut t = planned();
    t.waypoints.truncate(waypoints);
    let mut command = to_robot_command(&t, OPTIMAL_TRAJECTORY_COMMAND, "p[0,0,0,0,0,0]", "2,[0,0,0]", true);
    command.global_velocity_scaling = double(0.5);
    command
}

#[test]
fn commands_become_plan_requests() {
    let here = six([0.1, 0.2, 0.3, 0.4, 0.5, 0.6]).to_vec();
    let mut asked = command(2);
    asked.waypoints[1].use_joint_positions = false;
    asked.waypoints[1].target_in_base = "p[1,2,3,0,0,0]".to_string();
    asked.waypoints[1].use_linear_motion = true;
    asked.waypoints[1].use_preferred_joint_config = true;
    let read = vec![vec![], reading("p[1,2,3,0,0,0]")];
    let plan = plan_from_command(&asked, &here, "ur10e", &read).unwrap();
    assert_eq!(plan.robot_model, "ur10e");
    assert!(matches!(plan.start, WaypointTarget::Joints(q) if q.to_vec() == here));
    assert_eq!(plan.waypoints.len(), 2);
    assert!(matches!(plan.waypoints[0].target, WaypointTarget::Joints(_)));
    assert_eq!(plan.waypoints[0].blend_radius, Some(double(0.1)));
    assert!(matches!(
        plan.waypoints[1].target,
        WaypointTarget::Pose { values, frame: PoseFrame::UrdfBaseLink }
            if values == six([1.0, 2.0, 3.0, 0.0, 0.0, 0.0])
    ));
    assert_eq!(plan.waypoints[1].interpolation, Interpolation::Linear);
    assert_eq!(plan.waypoints[1].preferred_joint_config, Some(six([0.0; 6])));
    assert_eq!(plan.scaling.velocity, double(0.5));
    assert_eq!(plan.max_cartesian_speed, double(0.5));
    assert_eq!(plan.max_path_deviation, double(0.01));
}

#[test]
fn unplannable_commands_say_why() {
    let here = six([0.0; 6]).to_vec();
    assert_eq!(
        plan_from_command(&command(0), &here, MODEL, &vec![]).unwrap_err(),
        "a planned trajectory needs at least one waypoint"
    );
    assert_eq!(
        plan_from_command(&command(1), &vec![], MODEL, &vec![vec![]]).unwrap_err(),
        "no joint state available to plan from"
    );
    let mut short = command(1);
    short.waypoints[0].joint_positions.pop();
    assert_eq!(
        plan_from_command(&short, &here, MODEL, &vec![vec![]]).unwrap_err(),
        "waypoint 0: joint_positions has 5 values, expected 6"
    );
    let mut vague = command(1);
    vague.waypoints[0].use_preferred_joint_config = true;
    vague.waypoints[0].preferred_joint_config.clear();
    assert_eq!(
        plan_from_command(&vague, &here, MODEL, &vec![vec![]]).unwrap_err(),
        "waypoint 0: preferred_joint_config has 0 values, expected 6"
    );
    let mut poseless = command(1);
    poseless.waypoints[0].use_joint_positions = false;
    poseless.waypoints[0].target_in_base = "nowhere".to_string();
    assert_eq!(
        plan_from_command(&poseless, &here, MODEL, &vec![vec![]]).unwrap_err(),
        "waypoint 0: 'nowhere' is not a p[...] pose literal"
    );
}

#[test]
fn stored_trajectories_run_from_their_start() {
    assert!(is_planner_command("optimal_trajectory") && !is_planner_command("unsafe_move_j"));
    let mut asked = command(1);
    assert!(matches!(source_of(&asked), Source::Request));
    asked.trajectory_id = "pick".to_string();
    assert!(matches!(source_of(&asked), Source::Stored(name) if name == "pick"));

    let here = six([0.0; 6]).to_vec();
    let apart = |by: f64| Apart { by: double(by), spelled: format!("{:.4}", by) };
    let near: Vec<Apart> = [0.0, 0.05, 0.01, 0.0, 0.0, f64::NAN].map(apart).into();
    assert!(check_start_matches(&here, &near).is_ok());
    assert_eq!(
        check_start_matches(&vec![], &vec![]).unwrap_err(),
        "no joint state available to check the trajectory's start against"
    );
    let mut far = near;
    far[2] = apart(0.0612);
    far[3] = apart(1.0);
    assert_eq!(
        check_start_matches(&here, &far).unwrap_err(),
        "the arm is not at this trajectory's start: joint 2 is 0.0612 rad away (tolerance 0.05). Move there first, or re-plan."
    );

    let with = waypoints_for_command(&asked, &planned());
    assert_eq!(with[0].payload, "2,[0,0,0]");
    asked.use_payload = false;
    let without = waypoints_for_command(&asked, &planned());
    assert!(!without[0].use_payload && without[0].payload.is_empty());
}

#[test]
fn scaling_outside_its_range_means_none() {
    for (given, used) in [(0.5, 0.5), (1.0, 1.0), (0.0, 1.0), (-0.5, 1.0), (1.5, 1.0), (f64::NAN, 1.0)] {
        assert_eq!(number(clamp_scale(double(given))), used, "{}", given);
    }
    let scaling = PlanScaling::default();
    assert_eq!((number(scaling.velocity()), number(scaling.acceleration())), (1.0, 0.5));
}

#[test]
fn limits_come_out_of_the_urdf() {
    let joint = |name: &str, kind: &str, limit: &str| {
        format!(
            "<joint name=\"{name}\" type=\"{kind}\"><parent link=\"a\"/><child link=\"b\"/>{limit}</joint>"
        )
    };
    let limit = "<limit lower=\"-3\" upper=\"3\" effort=\"10\" velocity=\"2\"/>";
    let mut joints: Vec<String> = (0..6).map(|i| joint(joint_name(i), "revolute", limit)).collect();
    joints[5] = joint("wrist_3_joint", "continuous", limit);
    let urdf = |joints: &[String]| {
        format!(
            "<robot name=\"r\"><link name=\"a\"/><link name=\"b\"/>{}</robot>",
            joints.concat()
        )
    };
    let limits = Limits::from_urdf("ur20.urdf", &urdf(&joints)).unwrap();
    assert_eq!(number(limits.position_min[0]), -3.0);
    assert_eq!(number(limits.position_max[5]), 2.0 * std::f64::consts::PI);
    assert_eq!(limits.velocity_max, six([2.0; 6]));
    assert_eq!(limits.acceleration_max, six([4.0; 6]));
    assert_eq!(estimate_acceleration(&six([1.5; 6])), six([3.0; 6]));
    assert!(limits.contains(&six([3.0; 6])) && !limits.contains(&six([3.5; 6])));

    joints[1] = joint(joint_name(1), "revolute", "<limit lower=\"-3\" upper=\"3\" effort=\"1\" velocity=\"0\"/>");
    assert_eq!(
        Limits::from_urdf("ur20.urdf", &urdf(&joints)).unwrap_err(),
        "ur20.urdf: joint 'shoulder_lift_joint' has no velocity limit"
    );
    joints.remove(0);
    assert_eq!(
        Limits::from_urdf("ur20.urdf", &urdf(&joints)).unwrap_err(),
        "ur20.urdf has no joint 'shoulder_pan_joint'"
    );
    assert!(Limits::from_urdf("ur20.urdf", "<robot").unwrap_err().starts_with("ur20.urdf: "));
}

#[test]
fn texts_beyond_the_urdf_reader_are_turned_away() {
    let brackets = format!("<robot name=\"r\"><![CDATA[{}]]></robot>", "]".repeat(254));
    for text in [
        "<robot name=\"r\" xmlns:xmlns=\"u\"/>",
        "<?xml version='1.0'?><!-- x --><robot name=\"r\" xmlns:xmlns\n= \"u\"></robot >",
        "<robot name=\"r\" xmlns=\"u\" xmlns:=\"\"><link name=\"a\"/></robot>",
        "<robot name=\"r\" xmlns=\"u\" :foo=\"1\"/>",
        "<robot name=\"r\" xmlns=\"u\"><link name=\"a\":foo =\"1\"/></robot>",
        "<robot name=\"r\"><link name=\"a\"><visual xmlns:xmlns='u'/></link></robot>",
        brackets.as_str(),
    ] {
        assert!(beyond_reader(text), "{}", text);
        assert_eq!(
            Limits::from_urdf("a.urdf", text).unwrap_err(),
            "a.urdf: the URDF reader cannot take this text"
        );
    }
}

/// What looks the same and does no harm is read: in comments and other text, in elements that are
/// not printed again, and where there is a prefix to print after all.
#[test]
fn texts_inside_the_urdf_reader_are_read() {
    let brackets = format!("<!-- {} --><robot name=\"r\"/>", "]".repeat(300));
    let section = format!("<robot name=\"r\"><![CDATA[{}]]></robot>", "]".repeat(253));
    for text in [
        "<!-- note : x --><robot name=\"r\" xmlns:xacro=\"u\"/>",
        "<!-- note : x, :y = 2 --><robot name=\"r\" xmlns=\"u\"/>",
        "<!-- xmlns:xmlns='u' xmlns:='v' --><robot name=\"r\"/>",
        "<robot name=\"r\" xmlns:p=\"u\" p:xmlns=\"v\"/>",
        "<robot name=\"r\">xmlns:xmlns='u'<gazebo xmlns:xmlns='u'/></robot>",
        "<robot name=\"r\"><link name=\"a\"><sensor xmlns:xmlns='u'/></link></robot>",
        "<robot name=\"r\" xmlns:p=\"u\"><link name=\"a\" xmlns:xmlns=\"&#117;\"/></robot>",
        "<robot name=\"r\" xmlns=\"u\" xmlns:p=\"u\" :foo=\"1\"/>",
        "<robot name=\"r\"/><robot xmlns:xmlns='u'/>",
        "<robot name=\"a > b ' xmlns:xmlns='\"/>",
        "<!DOCTYPE robot xmlns:xmlns='u'><robot name=\"r\"/>",
        brackets.as_str(),
        section.as_str(),
    ] {
        assert!(!beyond_reader(text), "{}", text);
        assert_eq!(
            Limits::from_urdf("a.urdf", text).unwrap_err(),
            "a.urdf has no joint 'shoulder_pan_joint'"
        );
    }
    // Texts that go wrong before they are printed fail by the reader's own word.
    for text in [
        "<robot name=\"r\" xmlns:xmlns=\"u\"><link></robot>",
        "<robot name=\"r\" xmlns:xmlns=\"u\" name=\"r\"/>",
        "<robot name=\"&r;\" xmlns:xmlns=\"u\"/>",
        "<robot name=\"r\" xmlns:xmlns=\"\"/>",
        "<robot name=\"r\" xmlns:xmlns=\"u\">",
        "<robot name=\"r\" p:foo='1' xmlns:xmlns=\"u\"/>",
    ] {
        assert!(!beyond_reader(text), "{}", text);
        let fault = Limits::from_urdf("a.urdf", text).unwrap_err();
        assert!(fault.starts_with("a.urdf: ") && !fault.ends_with("cannot take this text"));
    }
}

#[test]
fn the_first_limits_that_can_be_read_are_used() {
    assert_eq!(
        model_urdf_paths("ur20", Some("/opt/ur//")),
        vec!["src/ur_description/urdf/ur20.urdf", "/opt/ur/urdf/ur20.urdf"]
    );
    assert_eq!(model_urdf_paths("ur20", None), vec!["src/ur_description/urdf/ur20.urdf"]);
    let tried = vec![Err("missing".to_string()), Ok(limits())];
    assert_eq!(model_limits("ur20", &tried).unwrap().velocity_max, six([2.0; 6]));
    let none = vec![Err("missing".to_string())];
    assert!(matches!(model_limits("ur20", &none), Err(PlanError::UnknownModel(m)) if m == "ur20"));

    let mut asked = request(mixed_path());
    assert_eq!(planning_limits(&asked, limits()).acceleration_max, six([4.0; 6]));
    asked.acceleration_max = Some(six([1.0; 6]));
    assert_eq!(planning_limits(&asked, limits()).acceleration_max, six([1.0; 6]));
}

#[test]
fn names_cannot_leave_their_directory() {
    assert!(validate_name("pick_approach-2.v1").is_ok());
    assert_eq!(validate_name("").unwrap_err(), "a trajectory name cannot be empty");
    let long = "a".repeat(129);
    assert_eq!(
        validate_name(&long).unwrap_err(),
        format!("trajectory name '{}' is too long", long)
    );
    assert!(validate_name(&"a".repeat(128)).is_ok());
    // The length is in bytes, and comes before the characters.
    let wide = "\u{e9}".repeat(65);
    assert!(validate_name(&wide).unwrap_err().ends_with("' is too long"));
    for bad in ["../../etc/passwd", "a/b", ".hidden", "a..b", "a b", "\u{e9}"] {
        assert_eq!(
            validate_name(bad).unwrap_err(),
            format!("trajectory name '{}' may only contain letters, digits, '_', '-' and '.', and may not start with '.' or contain '..'", bad)
        );
        assert!(path_for("trajectories", bad).is_err());
    }
    assert_eq!(path_for("trajectories", "pick").unwrap(), "trajectories/pick.json");
    assert_eq!(path_for("/srv/t/", "pick").unwrap(), "/srv/t/pick.json");
    assert_eq!(join_path("", "pick.json"), "pick.json");
    assert_eq!(join_path("a", "/b"), "/b");
}

#[test]
fn stored_records_carry_their_schema() {
    let record = record_of("pick", 1700000000, Some(request(mixed_path())), planned());
    assert_eq!(record.schema_version, SCHEMA_VERSION);
    assert_eq!((record.name.as_str(), record.created_unix_seconds), ("pick", 1700000000));
    let back = accept_record("trajectories/pick.json", record).unwrap();
    assert_eq!((back.schema_version, back.name.as_str()), (SCHEMA_VERSION, "pick"));
    assert_eq!(back.created_unix_seconds, 1700000000);
    assert_eq!(back.request.unwrap().waypoints.len(), mixed_path().len());
    assert_eq!(back.trajectory.waypoints.len(), 4);
    for (a, b) in planned().waypoints.iter().zip(back.trajectory.waypoints.iter()) {
        assert_eq!(a.joint_positions, b.joint_positions);
        assert_eq!(a.use_linear_motion, b.use_linear_motion);
        assert_eq!((a.velocity, a.acceleration), (b.velocity, b.acceleration));
        assert_eq!(a.blend_radius, b.blend_radius);
    }
    let mut old = record_of("pick", 0, None, planned());
    old.schema_version = 7;
    assert_eq!(
        accept_record("trajectories/pick.json", old).unwrap_err(),
        "trajectories/pick.json was written by schema version 7 but this build expects 1; re-plan it"
    );
}

#[test]
fn stored_names_are_sorted() {
    let files: Vec<String> = ["b.json", "a.json", ".json", "notes.txt", "B.json", "a.json.bak", "ab.json"]
        .iter()
        .map(|s| s.to_string())
        .collect();
    assert_eq!(stored_names(&files), vec!["B", "a", "ab", "b"]);
    assert!(stored_names(&vec![]).is_empty());
}

#[test]
fn planned_waypoints_keep_their_place() {
    let t = planned();
    let last: &PlannedWaypoint = t.waypoints.last().unwrap();
    assert_eq!(last.joint_positions, six([0.2, -1.5, 0.2, -1.6, 0.1, 0.2]));
    assert!(!last.use_linear_motion);
}

fn pace(travel: f64, velocity: f64, acceleration: f64) -> Pace {
    Pace { travel: double(travel), velocity: double(velocity), acceleration: double(acceleration) }
}

/// Every joint that moves is inside its limits, and one is exactly on its own.
#[test]
fn joint_speeds_are_the_tightest_bound() {
    let paces = vec![pace(0.5, 3.0, 9.0), pace(0.0, 1.0, 1.0), pace(1.0, 2.5, 8.0), pace(0.9, 2.5, 7.0)];
    let speed = joint_segment_speed(double(1.0), &paces).unwrap();
    assert_eq!(number(speed.velocity), 2.5);
    assert_eq!(number(speed.acceleration), 7.0);
    assert_eq!(speed.limiting_joint, 2);
    assert!(joint_segment_speed(double(1e-9), &paces).is_none());
    assert!(joint_segment_speed(double(1.0), &vec![pace(0.0, 1.0, 1.0)]).is_none());
    assert!(joint_segment_speed(double(1.0), &vec![pace(1.0, f64::NAN, 1.0)]).is_none());
}

#[test]
fn tool_speeds_stay_under_every_cap() {
    let cap = |joint, rate, velocity| Cap { joint, rate: double(rate), velocity: double(velocity) };
    let caps = vec![cap(0, 4.0, 0.4), cap(5, 0.0, 0.01), cap(3, 10.0, 0.125), cap(4, 8.0, 0.125)];
    assert_eq!(cartesian_speed_cap(&caps, double(0.5)), (double(0.125), 3));
    assert_eq!(cartesian_speed_cap(&caps[..2].to_vec(), double(0.25)), (double(0.25), 0));
}

#[test]
fn blends_keep_to_their_bounds() {
    let blend = |deflection, share, deviation: Option<f64>, requested: Option<f64>| {
        number(blend_radius(
            double(deflection),
            double(share),
            double(if deviation.is_some() { 0.25 } else { 0.0 }),
            double(deviation.unwrap_or(f64::INFINITY)),
            requested.map(double),
        ))
    };
    assert_eq!(blend(1.0, 0.2, Some(0.04), None), 0.04);
    assert_eq!(blend(1.0, 0.2, None, None), 0.2);
    assert_eq!(blend(1.0, 0.2, Some(0.04), Some(0.02)), 0.02);
    assert_eq!(blend(1.0, 0.2, Some(0.04), Some(-1.0)), 0.0);
    assert_eq!(blend(1.0, 0.2, Some(0.04), Some(f64::NAN)), 0.0);
    assert_eq!(blend(1.0, 0.0009, None, None), 0.0);
    assert_eq!(blend(170.0 * std::f64::consts::PI / 180.0, 0.2, None, None), 0.0);
    assert_eq!(blend(2.96, 0.2, None, None), 0.2);
    let corner = corner_at(double(1.5), double(0.2), double(0.4), double(0.04), None);
    assert_eq!(corner, Corner { gentle: true, blend: double(0.04) });
    assert!(!corner_at(double(1.6), double(0.2), double(0.4), double(0.04), None).gentle);
    assert!(has_corner(double(0.1), double(1e-6)) && !has_corner(double(0.1), double(1e-12)));
}

#[test]
fn straight_segments_are_sampled() {
    assert_eq!(linear_samples(double(0.005), 1), 2);
    assert_eq!(linear_samples(double(0.012), 3), 4);
    assert_eq!(linear_samples(double(20.0), 4000), 2000);
    assert!(is_flip(double(3.2)) && !is_flip(double(std::f64::consts::PI)));
    let speed = segment(1.0, false).unwrap().speed;
    assert!(timed(speed, double(9e-7)).still && !timed(speed, double(1e-6)).still);
}

#[test]
fn short_motions_do_not_reach_their_speed() {
    let profile = |d, v, a, ramps| motion_profile(double(d), double(v), double(a), double(ramps));
    assert_eq!(profile(2.0, 1.0, 1.0, 1.0), Profile::Trapezoid);
    assert_eq!(profile(1.0, 1.0, 1.0, 1.0), Profile::Triangle);
    assert_eq!(profile(0.0, 1.0, 1.0, 1.0), Profile::Rest);
    assert_eq!(profile(1.0, -1.0, 1.0, 1.0), Profile::Rest);
    assert_eq!(profile(1.0, 1.0, 0.0, f64::INFINITY), Profile::Rest);
    let peak = |d, v, a: f64, reached| {
        number(achievable_peak_speed(double(d), double(v), double(a), double(reached)))
    };
    assert_eq!(peak(4.0, 1.0, 1.0, 2.0), 1.0);
    assert_eq!(peak(0.25, 1.0, 1.0, 0.5), 0.5);
    assert_eq!(peak(0.0, 1.0, 1.0, 0.0), 0.0);
    assert_eq!(peak(1.0, 1.0, -1.0, f64::NAN), 0.0);
}

#[test]
fn lengths_stand_in_their_rows() {
    let right = std::f64::consts::FRAC_PI_2;
    let dh = DhParameters::for_model("ur20").unwrap();
    let row = |i| {
        let (d, a, alpha) = dh.row(i);
        (number(d), number(a), number(alpha))
    };
    assert_eq!(row(0), (0.2363, 0.0, right));
    assert_eq!(row(1), (0.0, -0.8620, 0.0));
    assert_eq!(row(2), (0.0, -0.7287, 0.0));
    assert_eq!(row(3), (0.2010, 0.0, right));
    assert_eq!(row(4), (0.1593, 0.0, -right));
    assert_eq!(row(5), (0.1543, 0.0, 0.0));
}
