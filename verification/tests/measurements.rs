use ur_redis_driver::double::{read_double, read_u32, Double};
use ur_redis_driver::realtime_reader::{
    apply_frame, body_length, is_understood, stream_down, stream_up,
};
use ur_redis_driver::sp_value::{SpValue, Write};
use ur_redis_driver::state_publisher::{
    joints_changed, publish_joint_states, publish_measured_state, published_frame, robot_frames,
    Drift, MeasuredState,
};
use ur_redis_driver::visuals::{
    read_visuals, three_or_zero, unreadable_urdf, visual_metadata,
};
use ur_redis_driver::{DriverState, URDFParameters};

type Driver = DriverState<u32, u32, u32>;

fn double(x: f64) -> Double {
    Double { bits: x.to_bits() }
}

/// The body of a realtime frame with these numbers at these packet offsets.
fn frame(numbers: &[(usize, f64)]) -> Vec<u8> {
    let mut bytes = vec![0u8; 1216];
    for (offset, x) in numbers {
        bytes[offset - 4..offset + 4].copy_from_slice(&x.to_be_bytes());
    }
    bytes
}

#[test]
fn doubles_compare_as_numbers() {
    let values = [f64::NEG_INFINITY, -2.5, -0.0, 0.0, 1e-300, 0.5, 1.0, f64::INFINITY, f64::NAN];
    for a in values {
        for b in values {
            assert_eq!(double(a).less(double(b)), a < b, "{} < {}", a, b);
            assert_eq!(double(a).at_most(double(b)), a <= b, "{} <= {}", a, b);
            assert_eq!(double(a).equals(double(b)), a == b, "{} == {}", a, b);
        }
        assert_eq!(double(a).nan(), a.is_nan());
    }
}

#[test]
fn doubles_convert_as_casts_do() {
    let values = [
        0.0, -0.0, 0.99, -0.99, 1.0, 7.9, -7.9, 2147483647.5, -2147483648.9, 4294967295.0, 1e20,
        -1e20, f64::INFINITY, f64::NEG_INFINITY, f64::NAN, 5e-324,
    ];
    for x in values {
        assert_eq!(double(x).to_i32(), x as i32, "{} as i32", x);
        assert_eq!(double(x).to_u32(), x as u32, "{} as u32", x);
        assert_eq!(f64::from_bits(double(x).twice().bits).to_bits(), (x + x).to_bits(), "2 * {}", x);
    }
    for i in [0i64, 1, -1, 42, i64::MAX, i64::MIN, (1 << 53) + 1, -(1 << 53) - 1, 1 << 62] {
        assert_eq!(Double::from_int(i).bits, (i as f64).to_bits(), "{} as f64", i);
    }
}

#[test]
fn bytes_are_read_big_endian() {
    let mut bytes = vec![0xAAu8];
    bytes.extend_from_slice(&0x0102_0304u32.to_be_bytes());
    bytes.extend_from_slice(&(-1.5f64).to_be_bytes());
    assert_eq!(read_u32(&bytes, 1), 0x0102_0304);
    assert_eq!(read_double(&bytes, 5), double(-1.5));
}

#[test]
fn implausible_frames_are_refused() {
    assert_eq!(body_length(&vec![0, 0, 4, 196]).unwrap(), 1216);
    assert_eq!(body_length(&vec![0, 0, 0, 4]).unwrap_err(), "implausible frame length: 4");
    assert_eq!(body_length(&vec![0, 0, 32, 1]).unwrap_err(), "implausible frame length: 8193");
    assert_eq!(body_length(&vec![0, 0, 32, 0]).unwrap(), 8188);
    assert!(is_understood(1216) && !is_understood(1108));
}

#[test]
fn a_frame_is_read_into_the_state() {
    let mut driver = Driver::new();
    driver.goal_sender = Some(5);
    driver.goal_id = Some("g1".to_string());
    let body = frame(&[
        (252, 0.25),
        (292, -1.5),
        (300, 0.125),
        (444, 0.4),
        (540, 12.0),
        (684, 5.0),
        (756, 7.0),
        (812, 2.0),
        (940, 0.75),
        (1044, 3.0),
        (1052, 4.0),
    ]);
    assert_eq!(apply_frame(&mut driver, &body), None);
    assert_eq!(driver.joint_values[0], double(0.25));
    assert_eq!(driver.joint_values[5], double(-1.5));
    assert_eq!(driver.joint_speeds[0], double(0.125));
    assert_eq!(driver.tcp_pose[0], double(0.4));
    assert_eq!(driver.forces[0], double(12.0));
    assert_eq!(driver.digital_inputs, 5);
    assert_eq!(driver.robot_mode, 7);
    assert_eq!(driver.safety_mode, 2);
    assert_eq!(driver.speed_scaling, double(0.75));
    assert_eq!(driver.digital_outputs, 3);
    assert_eq!(driver.program_state_raw, 4);
    // REDUCED ends nothing.
    assert_eq!(driver.goal_id.as_deref(), Some("g1"));
}

#[test]
fn a_safety_stop_ends_the_goal() {
    let mut driver = Driver::new();
    driver.goal_sender = Some(5);
    driver.feedback_sender = Some(6);
    driver.goal_id = Some("g1".to_string());
    driver.program_state = "PLAYING".to_string();
    assert_eq!(apply_frame(&mut driver, &frame(&[(812, 3.0)])), Some(5));
    assert!(driver.goal_sender.is_none() && driver.goal_id.is_none());
    assert!(driver.feedback_sender.is_none());
    assert_eq!(driver.program_state, "PLAYING");
}

#[test]
fn the_stream_goes_up_and_down() {
    let mut driver = Driver::new();
    stream_up(&mut driver);
    assert!(driver.connected);
    stream_down(&mut driver);
    assert!(!driver.connected);
}

#[test]
fn frames_are_owned_under_their_prefix() {
    let mut params = URDFParameters::default();
    let bare = robot_frames(&params);
    assert_eq!(bare.len(), 10);
    assert_eq!((bare[0].parent.as_str(), bare[0].child.as_str()), ("base_link", "base_link_inertia"));
    assert_eq!((bare[9].parent.as_str(), bare[9].child.as_str()), ("flange", "tool0"));
    assert_eq!(published_frame(&bare, &params, "tool0"), Some(9));
    assert_eq!(published_frame(&bare, &params, "base_link"), None);
    assert_eq!(published_frame(&bare, &params, "elbow_joint"), None);
    params.tf_prefix = "r2_".to_string();
    let prefixed = robot_frames(&params);
    assert_eq!(prefixed[9].child, "r2_tool0");
    assert_eq!(published_frame(&prefixed, &params, "tool0"), Some(9));
}

#[test]
fn a_stationary_robot_is_not_republished() {
    let joints = vec![double(0.5); 6];
    assert!(joints_changed(None, &joints));
    assert!(!joints_changed(Some(&joints), &joints));
    assert!(joints_changed(Some(&vec![double(0.25); 6]), &joints));
    assert!(joints_changed(Some(&vec![double(f64::NAN); 6]), &vec![double(f64::NAN); 6]));
    assert!(!joints_changed(Some(&vec![double(0.0)]), &vec![double(-0.0)]));

    let mut driver = Driver::new();
    let before = MeasuredState::of(&driver);
    let drift = |scaling: f64, force: f64, pose: f64| Drift {
        speed_scaling: double(scaling),
        forces: vec![double(0.0), double(force)],
        tcp_pose: vec![double(pose)],
    };
    let none = drift(0.0, 0.0, 0.0);
    assert!(before.differs_from(None, &none));
    let now = MeasuredState::of(&driver);
    assert!(!now.differs_from(Some(&before), &none));
    assert!(!now.differs_from(Some(&before), &drift(f64::EPSILON, 0.25, 1e-4)));
    assert!(!now.differs_from(Some(&before), &drift(f64::NAN, f64::NAN, f64::NAN)));
    assert!(now.differs_from(Some(&before), &drift(3e-16, 0.0, 0.0)));
    assert!(now.differs_from(Some(&before), &drift(0.0, 0.26, 0.0)));
    assert!(now.differs_from(Some(&before), &drift(0.0, 0.0, 2e-4)));
    driver.safety_mode = 3;
    assert!(MeasuredState::of(&driver).differs_from(Some(&before), &none));
}

fn value<'a>(writes: &'a [Write], key: &str) -> &'a SpValue {
    &writes.iter().find(|w| w.key == key).unwrap().value
}

#[test]
fn modes_are_published_by_name() {
    let mut driver = Driver::new();
    driver.safety_mode = 3;
    driver.robot_mode = 7;
    driver.digital_inputs = u32::MAX;
    driver.connected = true;
    driver.forces = vec![double(1.5), double(2.0)];
    let writes = publish_measured_state("r1", &MeasuredState::of(&driver), double(2.5));
    assert!(matches!(value(&writes, "r1_force_feedback"), SpValue::Float64(Some(d)) if *d == double(0.0)));
    driver.forces.push(double(0.0));
    let writes = publish_measured_state("r1", &MeasuredState::of(&driver), double(2.5));
    assert_eq!(writes.len(), 13);
    assert!(matches!(value(&writes, "r1_safety_mode"), SpValue::Text(Some(s)) if s == "PROTECTIVE_STOP"));
    assert!(matches!(value(&writes, "r1_robot_mode"), SpValue::Text(Some(s)) if s == "RUNNING"));
    assert!(matches!(value(&writes, "r1_digital_inputs"), SpValue::Int64(Some(4294967295))));
    assert!(matches!(value(&writes, "r1_robot_connected"), SpValue::Bool(Some(true))));
    assert!(matches!(value(&writes, "r1_force_feedback"), SpValue::Float64(Some(d)) if *d == double(2.5)));

    let joints = publish_joint_states("r1", &vec![double(0.5), double(1.0)]);
    assert_eq!(joints.key, "r1_joint_states");
    assert!(matches!(&joints.value, SpValue::Array(Some(v)) if v.len() == 2));
}

const URDF: &str = r#"<robot name="ur" xmlns:x="http://example.org/x">
  <link x:name="upper_arm_link" name="pedestal"/>
  <!-- <link name="wrist_1_link"/> -->
  <link name="shoulder_link">
    <visual>
      <origin rpy="0 0 3.14" xyz="0.1 0.2 0.3"/>
    </visual>
  </link>
  <link name="forearm_link"/>
  <link name="other"/>
</robot>"#;

#[test]
fn visuals_are_read_off_their_links() {
    let mut params = URDFParameters::default();
    params.tf_prefix = "r2_".to_string();
    let visuals = read_visuals(URDF, &params).unwrap();
    // A namespace prefix on an attribute does not count, and what comes first does.
    assert_eq!(visuals.len(), 3);
    assert_eq!(visuals[1].parent, "r2_upper_arm_link");
    assert_eq!(visuals[0].parent, "r2_shoulder_link");
    assert_eq!(visuals[0].child, "r2_shoulder_link_visual");
    assert_eq!(visuals[0].mesh_file, "shoulder.dae");
    assert_eq!(visuals[0].xyz, vec!["0.1", "0.2", "0.3"]);
    assert_eq!(visuals[0].rpy, vec!["0", "0", "3.14"]);
    assert_eq!(visuals[2].mesh_file, "forearm.dae");
    assert!(visuals[2].xyz.is_empty() && visuals[2].rpy.is_empty());

    let error = read_visuals("<robot", &params).unwrap_err();
    assert_eq!(unreadable_urdf(&error), format!("Failed to parse URDF XML: {}", error));
}

#[test]
fn three_numbers_or_none() {
    let x = |v: f64| Some(double(v));
    assert_eq!(
        three_or_zero(&vec![x(1.0), None, x(2.0), x(3.0)]),
        (double(1.0), double(2.0), double(3.0))
    );
    assert_eq!(
        three_or_zero(&vec![x(1.0), x(2.0)]),
        (double(0.0), double(0.0), double(0.0))
    );
}

#[test]
fn visuals_name_their_mesh() {
    let table = visual_metadata("meshes/ur20/visual", "base.dae");
    assert_eq!(table.len(), 9);
    assert!(matches!(&table[0], (SpValue::Text(Some(k)), SpValue::Text(Some(v)))
        if k == "override_meshes_dir" && v == "meshes/ur20/visual"));
    assert!(matches!(&table[1], (SpValue::Text(Some(k)), SpValue::Text(Some(v)))
        if k == "mesh_file" && v == "base.dae"));
}
