//! Plans of a path given by its configurations: limits, tightness and blends.

use k::nalgebra::{Isometry3, Translation3, UnitQuaternion, Vector3};
use ur_redis_driver::double::Double;
use ur_redis_driver::trajectory::emit::{to_robot_command, to_waypoints};
use ur_redis_driver::trajectory::frames::FrameConfig;
use ur_redis_driver::trajectory::kinematics::DhParameters;
use ur_redis_driver::trajectory::limits::{estimate_acceleration, Limits, PlanScaling};
use ur_redis_driver::trajectory::plan::{
    assemble_plan, check_request, planning_limits, resolve_next, Interpolation, Need, PlanRequest,
    PlanWaypoint, PlannedTrajectory, WaypointTarget, DEFAULT_MAX_PATH_DEVIATION,
};
use ur_redis_driver::trajectory::timing::{
    corner_at, has_corner, joint_segment_speed, motion_profile, timed, Corner, Pace, Profile,
    Segment,
};
use ur_redis_driver::{generate_core_script_from_template, OPTIMAL_TRAJECTORY_COMMAND};

const MODEL: &str = "ur20";
const HOME: [f64; 6] = [0.0, -1.5707, 0.0, -1.5707, 0.0, 0.0];

fn double(x: f64) -> Double {
    Double { bits: x.to_bits() }
}

fn number(d: Double) -> f64 {
    f64::from_bits(d.bits)
}

fn joints(q: [f64; 6], blend: Option<f64>) -> PlanWaypoint {
    PlanWaypoint {
        target: WaypointTarget::Joints(q.map(double)),
        preferred_joint_config: None,
        blend_radius: blend.map(double),
        interpolation: Interpolation::Joint,
    }
}

fn request(waypoints: Vec<PlanWaypoint>) -> PlanRequest {
    PlanRequest {
        robot_model: MODEL.to_string(),
        start: WaypointTarget::Joints(HOME.map(double)),
        waypoints,
        scaling: PlanScaling { velocity: double(1.0), acceleration: double(1.0) },
        acceleration_max: None,
        max_cartesian_speed: double(0.5),
        max_path_deviation: Double { bits: DEFAULT_MAX_PATH_DEVIATION },
        frame_config: FrameConfig::default(),
    }
}

/// A path that exercises several differently-led segments.
fn mixed_path() -> Vec<PlanWaypoint> {
    vec![
        // Shoulder-led.
        joints([0.8, -1.4, 0.5, -1.2, 0.3, 0.0], Some(0.10)),
        // Wrist-led: the joints with the highest velocity limits do most of the work.
        joints([0.85, -1.4, 0.5, -1.0, 1.4, 1.9], Some(0.10)),
        // Elbow-led.
        joints([0.9, -1.1, 1.5, -1.3, 1.4, 1.9], Some(0.10)),
        joints([0.2, -1.5, 0.2, -1.6, 0.1, 0.2], None),
    ]
}

/// The limits of the arm, in degrees and degrees per second as they are published.
fn arm_limits() -> Limits {
    let reach = [360.0, 360.0, 180.0, 360.0, 360.0, 360.0f64].map(f64::to_radians);
    let speed = [120.0, 120.0, 150.0, 210.0, 210.0, 210.0f64].map(|v| double(v.to_radians()));
    Limits {
        position_min: reach.map(|v| double(-v)),
        position_max: reach.map(double),
        velocity_max: speed,
        acceleration_max: estimate_acceleration(&speed),
    }
}

/// Where the flange is.
fn point(dh: &DhParameters, q: &[f64; 6]) -> Vector3<f64> {
    let mut t: Isometry3<f64> = Isometry3::identity();
    for i in 0..6 {
        let (d, a, alpha) = dh.row(i);
        let turn = UnitQuaternion::from_axis_angle(&Vector3::z_axis(), q[i]);
        let tilt = UnitQuaternion::from_axis_angle(&Vector3::x_axis(), number(alpha));
        t *= Isometry3::from_parts(Translation3::identity(), turn);
        t *= Isometry3::from_parts(Translation3::new(number(a), 0.0, number(d)), tilt);
    }
    t.translation.vector
}

fn scaled(limits: Limits, scaling: &PlanScaling) -> Limits {
    let (sv, sa) = (number(scaling.velocity()), number(scaling.acceleration()));
    Limits {
        velocity_max: limits.velocity_max.map(|v| double(number(v) * sv)),
        acceleration_max: limits.acceleration_max.map(|a| double(number(a) * sa)),
        ..limits
    }
}

fn leading(dq: &[f64; 6]) -> f64 {
    dq.iter().fold(0.0f64, |m, v| m.max(v.abs()))
}

fn movej(dq: &[f64; 6], limits: &Limits, chord: f64) -> Option<Segment> {
    let dmax = leading(dq);
    let pace = |i: usize| Pace {
        travel: double(dq[i].abs()),
        velocity: double(number(limits.velocity_max[i]) * (dmax / dq[i].abs())),
        acceleration: double(number(limits.acceleration_max[i]) * (dmax / dq[i].abs())),
    };
    let paces: Vec<Pace> = (0..6).map(pace).collect();
    joint_segment_speed(double(dmax), &paces).map(|speed| timed(speed, double(chord)))
}

fn duration(d: f64, v: f64, a: f64) -> f64 {
    let ramps = v * v / a;
    match motion_profile(double(d), double(v), double(a), double(ramps)) {
        Profile::Rest => 0.0,
        Profile::Triangle => 2.0 * (d / a).sqrt(),
        Profile::Trapezoid => 2.0 * (v / a) + (d - ramps) / v,
    }
}

fn bend(incoming: Vector3<f64>, outgoing: Vector3<f64>, wp: &PlanWaypoint) -> Option<Corner> {
    let (li, lo) = (incoming.norm(), outgoing.norm());
    if !has_corner(double(li), double(lo)) {
        return None;
    }
    let deflection = (incoming.dot(&outgoing) / (li * lo)).clamp(-1.0, 1.0).acos();
    let quarter = (deflection / 4.0).tan();
    let most = f64::from_bits(DEFAULT_MAX_PATH_DEVIATION) / quarter;
    let share = double(0.4 * li.min(lo));
    let (deflection, quarter) = (double(deflection), double(quarter));
    Some(corner_at(deflection, share, quarter, double(most), wp.blend_radius))
}

/// Plan a path of `movej` segments.
fn plan(request: &PlanRequest) -> PlannedTrajectory {
    let dh = check_request(request).expect("the request is fine");
    let limits = scaled(planning_limits(request, arm_limits()), &request.scaling);
    let mut configs = vec![];
    assert!(matches!(resolve_next(request, &limits, &mut configs), Need::Done));
    let qs: Vec<[f64; 6]> = configs.iter().map(|q| q.map(number)).collect();
    let points: Vec<_> = qs.iter().map(|q| point(&dh, q)).collect();

    let mut segments = vec![];
    let mut total = 0.0;
    for i in 0..request.waypoints.len() {
        let dq: [f64; 6] = std::array::from_fn(|j| qs[i + 1][j] - qs[i][j]);
        let segment = movej(&dq, &limits, (points[i + 1] - points[i]).norm());
        let speed = segment.expect("the segment moves").speed;
        total += duration(leading(&dq), number(speed.velocity), number(speed.acceleration));
        segments.push(segment);
    }
    let corners: Vec<Option<Corner>> = (0..request.waypoints.len() - 1)
        .map(|i| {
            bend(points[i + 1] - points[i], points[i + 2] - points[i + 1], &request.waypoints[i])
        })
        .collect();
    assemble_plan(request, limits, &configs, &segments, &corners, double(total)).expect("plans")
}

fn configs(t: &PlannedTrajectory) -> Vec<[f64; 6]> {
    let mut v = vec![t.start_joint_positions.map(number)];
    v.extend(t.waypoints.iter().map(|w| w.joint_positions.map(number)));
    v
}

/// Every emitted `movej` must keep every joint inside its velocity limit.
#[test]
fn planned_speeds_respect_joint_velocity_limits() {
    let t = plan(&request(mixed_path()));
    let qs = configs(&t);
    for (i, wp) in t.waypoints.iter().enumerate() {
        assert!(!wp.use_linear_motion);
        let dq: Vec<f64> = (0..6).map(|j| qs[i + 1][j] - qs[i][j]).collect();
        let dmax = dq.iter().fold(0.0f64, |m, v| m.max(v.abs()));
        assert!(dmax > 0.0, "segment {i} does not move");
        for j in 0..6 {
            let limit = number(t.limits.velocity_max[j]);
            let peak = number(wp.velocity) * dq[j].abs() / dmax;
            assert!(
                peak <= limit * (1.0 + 1e-9),
                "segment {i}, joint {j}: peak {peak} exceeds limit {limit}"
            );
            let limit = number(t.limits.acceleration_max[j]);
            let peak_acc = number(wp.acceleration) * dq[j].abs() / dmax;
            assert!(
                peak_acc <= limit * (1.0 + 1e-9),
                "segment {i}, joint {j}: peak acceleration {peak_acc} exceeds limit {limit}"
            );
        }
    }
}

/// The speed must be *tight*: some joint is exactly on its limit.
#[test]
fn segment_speed_leaves_nothing_on_the_table() {
    let t = plan(&request(mixed_path()));
    let qs = configs(&t);
    for (i, wp) in t.waypoints.iter().enumerate() {
        let dq: Vec<f64> = (0..6).map(|j| qs[i + 1][j] - qs[i][j]).collect();
        let dmax = dq.iter().fold(0.0f64, |m, v| m.max(v.abs()));
        let tightest = (0..6)
            .map(|j| number(wp.velocity) * dq[j].abs() / dmax / number(t.limits.velocity_max[j]))
            .fold(0.0f64, f64::max);
        assert!(
            (tightest - 1.0).abs() < 1e-9,
            "segment {i} runs at {:.4} of the limit; the closed form should reach 1.0",
            tightest
        );
    }
}

/// Different segments must get different speeds, or the whole exercise is pointless.
#[test]
fn per_segment_speeds_actually_differ() {
    let t = plan(&request(mixed_path()));
    let speeds: Vec<f64> = t.waypoints.iter().map(|w| number(w.velocity)).collect();
    let min = speeds.iter().cloned().fold(f64::INFINITY, f64::min);
    let max = speeds.iter().cloned().fold(0.0, f64::max);
    assert!(max > min * 1.2, "every segment got nearly the same speed ({speeds:?})");
    assert!(
        max > number(t.limits.velocity_max[0]),
        "no segment beat the shoulder limit, so nothing was gained"
    );
}

/// Overlapping blend regions make the controller silently skip a move.
#[test]
fn blend_radii_never_overlap() {
    let t = plan(&request(mixed_path()));
    let dh = DhParameters::for_model(MODEL).unwrap();
    let points: Vec<_> = configs(&t).iter().map(|q| point(&dh, q)).collect();
    let blend = |i: usize| number(t.waypoints[i].blend_radius);
    for i in 0..t.waypoints.len() {
        let chord_in = (points[i + 1] - points[i]).norm();
        assert!(
            blend(i) <= 0.5 * chord_in + 1e-12,
            "waypoint {i} blend {} is more than half its incoming chord {chord_in}",
            blend(i)
        );
        if i + 1 < t.waypoints.len() {
            assert!(
                blend(i) + blend(i + 1) <= (points[i + 2] - points[i + 1]).norm() + 1e-12,
                "blends at {i} and {} overlap",
                i + 1
            );
        }
    }
    // The motion must end at rest, and the corners are worth blending.
    assert_eq!(blend(t.waypoints.len() - 1), 0.0);
    assert!(blend(0) > 0.0);
}

/// The planner bakes scaling in, so the template fields must be neutral.
#[test]
fn scaling_is_applied_once_and_only_once() {
    let full = plan(&request(mixed_path()));
    let mut halved_req = request(mixed_path());
    halved_req.scaling = PlanScaling { velocity: double(0.5), acceleration: double(1.0) };
    let halved = plan(&halved_req);
    for (a, b) in full.waypoints.iter().zip(halved.waypoints.iter()) {
        let (a, b) = (number(a.velocity), number(b.velocity));
        assert!((b - a * 0.5).abs() < 1e-9, "0.5 scaling did not halve {} -> {}", a, b);
    }
    for w in &to_waypoints(&halved, "p[0,0,0,0,0,0]", "") {
        assert_eq!(number(w.global_velocity_scaling), 0.0);
        assert_eq!(number(w.global_acceleration_scaling), 0.0);
    }
}

/// Adjacent configurations must not jump a branch.
#[test]
fn planned_path_never_flips_a_branch() {
    let qs = configs(&plan(&request(mixed_path())));
    for i in 1..qs.len() {
        for j in 0..6 {
            let d = (qs[i][j] - qs[i - 1][j]).abs();
            assert!(d < std::f64::consts::PI, "joint {j} jumps {d} rad into waypoint {i}");
        }
    }
}

#[test]
fn duration_estimate_is_positive_and_shrinks_when_faster() {
    let mut slow_req = request(mixed_path());
    slow_req.scaling = PlanScaling { velocity: double(0.25), acceleration: double(1.0) };
    let slow = number(plan(&slow_req).duration_estimate);
    let fast = number(plan(&request(mixed_path())).duration_estimate);
    assert!(fast > 0.0);
    assert!(slow > fast, "quartering the speed should take longer: {} vs {}", slow, fast);
}

/// A path whose moves are planned: configurations and speeds only, and a line after each move
/// where progress is asked for.
const PLANNED_PATH: &str = "\
# Follows a planned path. The configurations are given: get_inverse_kin is not called.
def script():
  set_tcp({{ tcp_in_faceplate }})
{% for w in waypoints %}  if not is_within_safety_limits({{ w.joint_positions }}):
    return False
  end
{% if w.use_linear_motion %}  movel(get_forward_kin({{ w.joint_positions }})\
{% else %}  movej({{ w.joint_positions }}{% endif %}\
, a={{ w.acceleration }}, v={{ w.velocity }}\
{% if w.use_execution_time %}, t={{ w.execution_time }}{% endif %}\
{% if w.use_blend_radius %}, r={{ w.blend_radius }}{% endif %})
{% if report_waypoint_progress %}  socket_send_line(\"waypoint_reached {{ loop.index0 }}\")
{% endif %}{% endfor %}  return True
end
";

/// A planned trajectory must render through the template of planned paths.
#[test]
fn planned_trajectory_renders_through_the_template() {
    let mut templates = tera::Tera::default();
    let name = format!("{}.script", OPTIMAL_TRAJECTORY_COMMAND);
    templates.add_raw_template(&name, PLANNED_PATH).expect("templates parse");
    let t = plan(&request(mixed_path()));

    let command =
        to_robot_command(&t, OPTIMAL_TRAJECTORY_COMMAND, "p[0,0,0,0,0,0]", "", true);
    let n = command.waypoints.len();
    assert_eq!(n, t.waypoints.len());

    let waypoints: Vec<tera::Value> = command
        .waypoints
        .iter()
        .map(|w| {
            let q: Vec<f64> = w.joint_positions.iter().map(|d| number(*d)).collect();
            let mut fields = tera::Map::new();
            for (name, value) in [
                ("joint_positions", tera::to_value(q)),
                ("acceleration", tera::to_value(number(w.acceleration))),
                ("velocity", tera::to_value(number(w.velocity))),
                ("use_execution_time", tera::to_value(w.use_execution_time)),
                ("execution_time", tera::to_value(number(w.execution_time))),
                ("use_blend_radius", tera::to_value(w.use_blend_radius)),
                ("blend_radius", tera::to_value(number(w.blend_radius))),
                ("use_linear_motion", tera::to_value(w.use_linear_motion)),
            ] {
                fields.insert(name.to_string(), value.unwrap());
            }
            tera::Value::Object(fields)
        })
        .collect();
    let mut context = tera::Context::new();
    context.insert("tcp_in_faceplate", &command.tcp_in_faceplate);
    context.insert("report_waypoint_progress", &command.report_waypoint_progress);
    context.insert("waypoints", &waypoints);

    let script = generate_core_script_from_template(&command, &context, &templates).unwrap();

    let moves = script.matches("movej(").count() + script.matches("movel(").count();
    assert_eq!(moves, n, "expected one move per waypoint:\n{script}");
    assert_eq!(script.matches("waypoint_reached").count(), n);
    assert!(!script.contains(", t="), "a planned script must never set t=:\n{script}");
    // Only executable lines count: the template's own header explains that it does
    // not call get_inverse_kin, so a naive substring search finds the comment.
    let code: String = script
        .lines()
        .filter(|l| !l.trim_start().starts_with('#'))
        .collect::<Vec<_>>()
        .join("\n");
    assert!(
        !code.contains("get_inverse_kin"),
        "the controller must not run IK for a planned path:\n{script}"
    );
    assert!(code.contains("is_within_safety_limits"));
    assert!(code.contains("def script():"));
}
