//! What the driver hands to and takes from ROS tools.

use crate::structs::URDFParameters;
use crate::text::{join2, views};
use crate::ROBOT_STATE_UPDATE_INTERVAL_MS;
use vstd::prelude::*;

verus! {

/// The arguments that generate a robot's URDF with `xacro`. The two numbers are spelled.
pub fn xacro_arguments(params: &URDFParameters, pos_margin: &str, k_position: &str) -> (r: Vec<
    String,
>)
    ensures
        views(r@) == seq![
            params.description_file@,
            "safety_limits:="@ + (if params.safety_limits {
                "true"@
            } else {
                "false"@
            }),
            "safety_pos_margin:="@ + pos_margin@,
            "safety_k_position:="@ + k_position@,
            "name:="@ + params.name@,
            "ur_type:="@ + params.ur_type@,
            "prefix:="@ + params.tf_prefix@,
        ],
{
    let mut r: Vec<String> = Vec::new();
    r.push(params.description_file.clone());
    r.push(
        join2(
            "safety_limits:=",
            if params.safety_limits {
                "true"
            } else {
                "false"
            },
        ),
    );
    r.push(join2("safety_pos_margin:=", pos_margin));
    r.push(join2("safety_k_position:=", k_position));
    r.push(join2("name:=", params.name.as_str()));
    r.push(join2("ur_type:=", params.ur_type.as_str()));
    r.push(join2("prefix:=", params.tf_prefix.as_str()));
    assert(views(r@) =~= seq![
        params.description_file@,
        "safety_limits:="@ + (if params.safety_limits {
            "true"@
        } else {
            "false"@
        }),
        "safety_pos_margin:="@ + pos_margin@,
        "safety_k_position:="@ + k_position@,
        "name:="@ + params.name@,
        "ur_type:="@ + params.ur_type@,
        "prefix:="@ + params.tf_prefix@,
    ]);
    r
}

/// The arguments that start a robot state publisher with `ros2`.
pub fn publisher_arguments(urdf: &str, namespace: &str) -> (r: Vec<String>)
    ensures
        views(r@) == seq![
            "run"@,
            "robot_state_publisher"@,
            "robot_state_publisher"@,
            "--ros-args"@,
            "-r"@,
            "__ns:=/"@ + namespace@,
            "-p"@,
            "robot_description:="@ + urdf@,
        ],
{
    let mut r: Vec<String> = Vec::new();
    r.push("run".to_owned());
    r.push("robot_state_publisher".to_owned());
    r.push("robot_state_publisher".to_owned());
    r.push("--ros-args".to_owned());
    r.push("-r".to_owned());
    r.push(join2("__ns:=/", namespace));
    r.push("-p".to_owned());
    r.push(join2("robot_description:=", urdf));
    assert(views(r@) =~= seq![
        "run"@,
        "robot_state_publisher"@,
        "robot_state_publisher"@,
        "--ros-args"@,
        "-r"@,
        "__ns:=/"@ + namespace@,
        "-p"@,
        "robot_description:="@ + urdf@,
    ]);
    r
}

/// Whether a frame message is taken in: not before the update interval has passed since the last
/// one that was. `elapsed_ns` is the time since then in nanoseconds.
pub fn is_due(elapsed_ns: u128) -> (r: bool)
    ensures
        r == (elapsed_ns >= ROBOT_STATE_UPDATE_INTERVAL_MS * 1_000_000),
{
    elapsed_ns >= ROBOT_STATE_UPDATE_INTERVAL_MS as u128 * 1_000_000
}

} // verus!
