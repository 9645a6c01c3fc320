//! What the environment configures, and what holds where it says nothing.

use crate::structs::URDFParameters;
use crate::text::{join2, join3, number, parse_unsigned, trim, trimmed, unsigned_value};
use crate::trajectory::store::{below, join_path};
use crate::DEFAULT_UR_DRIVER_SOCKET_PORT;
use vstd::prelude::*;

verus! {

/// The dashboard port of a UR controller.
pub const DEFAULT_UR_DASHBOARD_PORT: u16 = 29999;

/// The realtime port of a UR controller.
pub const DEFAULT_UR_REALTIME_PORT: u16 = 30003;

/// The environment variables that configure the driver, where they are set.
#[derive(Debug)]
pub struct Environment {
    /// `ROBOT_ID`
    pub robot_id: Option<String>,
    /// `ROBOT_MODEL`
    pub robot_model: Option<String>,
    /// `UR_TF_PREFIX`
    pub tf_prefix: Option<String>,
    /// `UR_DESCRIPTION_DIR`
    pub description_dir: Option<String>,
    /// `UR_ADDRESS`
    pub address: Option<String>,
    /// `UR_DASHBOARD_PORT`
    pub dashboard_port: Option<String>,
    /// `UR_REALTIME_PORT`
    pub realtime_port: Option<String>,
    /// `UR_DRIVER_SOCKET_PORT`
    pub socket_port: Option<String>,
    /// `ROBOT_CONTROLLER_READY_FLAG`
    pub ready_flag: Option<String>,
}

/// What the driver runs with.
#[derive(Debug)]
pub struct Settings {
    pub robot_id: String,
    pub log_target: String,
    pub tf_prefix: String,
    /// `host:port` of the dashboard server.
    pub dashboard_address: String,
    /// `host:port` of the realtime interface.
    pub realtime_address: String,
    /// The port the driver's script-feedback socket server binds, and the port the scripts it
    /// sends are told to call back on.
    pub socket_port: u16,
    /// The file that says the driver is ready.
    pub ready_flag: String,
    /// The robot's description.
    pub params: URDFParameters,
}

/// The value of a variable, or what holds without it.
pub open spec fn value_or(value: Option<String>, default: Seq<char>) -> Seq<char> {
    match value {
        Some(v) => v@,
        None => default,
    }
}

fn or_default(value: &Option<String>, default: &str) -> (r: String)
    ensures
        r@ == value_or(*value, default@),
{
    match value {
        Some(v) => v.clone(),
        None => default.to_owned(),
    }
}

/// The port that a variable gives: a number up to 65535 with white space around it. What is no
/// such number gives the default, as an unset variable does.
pub open spec fn port_of(raw: Option<Seq<char>>, default: u16) -> nat {
    match raw {
        Some(s) => match unsigned_value(trimmed(s), 0xFFFF) {
            Some(n) => n,
            None => default as nat,
        },
        None => default as nat,
    }
}

/// A TCP port from the environment, falling back rather than aborting - a typo should not take
/// the driver down.
pub fn env_port(raw: Option<&str>, default: u16) -> (r: u16)
    ensures
        r == port_of(
            match raw {
                Some(s) => Some(s@),
                None => None,
            },
            default,
        ),
{
    match raw {
        None => default,
        Some(s) => match parse_unsigned(trim(s).as_str(), 0xFFFF) {
            Some(n) => n as u16,
            None => default,
        },
    }
}

/// The port this driver's socket server binds, and the port its scripts are told to call back
/// on.
///
/// It is a single value because the two have to agree: otherwise the robot would dial a
/// different driver than the one that sent it the program. Two drivers on one host must be given
/// different values.
pub fn ur_driver_socket_port(raw: Option<&str>) -> (r: u16)
    ensures
        r == port_of(
            match raw {
                Some(s) => Some(s@),
                None => None,
            },
            DEFAULT_UR_DRIVER_SOCKET_PORT,
        ),
{
    env_port(raw, DEFAULT_UR_DRIVER_SOCKET_PORT)
}

/// The robot model to drive and to plan for, by the value of `ROBOT_MODEL`.
pub fn robot_model_from_env(raw: &Option<String>) -> (r: String)
    ensures
        r@ == value_or(*raw, "ur20"@),
{
    or_default(raw, "ur20")
}

/// The directory trajectories are read from and written to, by the value of
/// `UR_TRAJECTORY_DIR`.
pub fn trajectory_dir(raw: &Option<String>) -> (r: String)
    ensures
        r@ == value_or(*raw, crate::trajectory::store::DEFAULT_TRAJECTORY_DIR@),
{
    or_default(raw, crate::trajectory::store::DEFAULT_TRAJECTORY_DIR)
}

/// What a variable holds.
pub open spec fn raw_view(raw: Option<String>) -> Option<Seq<char>> {
    match raw {
        Some(s) => Some(s@),
        None => None,
    }
}

fn raw_str<'a>(raw: &'a Option<String>) -> (r: Option<&'a str>)
    ensures
        raw_view(*raw) == (match r {
            Some(s) => Some(s@),
            None => None,
        }),
{
    match raw {
        Some(s) => Some(s.as_str()),
        None => None,
    }
}

/// Whether settings are those that an environment configures.
pub open spec fn configured_by(env: Environment, s: Settings) -> bool {
    let id = value_or(env.robot_id, "r1"@);
    let model = value_or(env.robot_model, "ur20"@);
    let dir = value_or(env.description_dir, "src/ur_description/"@);
    let host = value_or(env.address, "0.0.0.0"@);
    let dashboard = port_of(raw_view(env.dashboard_port), DEFAULT_UR_DASHBOARD_PORT);
    let realtime = port_of(raw_view(env.realtime_port), DEFAULT_UR_REALTIME_PORT);
    &&& s.robot_id@ == id
    &&& s.log_target@ == id + "_ur_redis_driver"@
    &&& s.tf_prefix@ == value_or(env.tf_prefix, ""@)
    &&& s.dashboard_address@ == host + ":"@ + crate::text::decimal(dashboard)
    &&& s.realtime_address@ == host + ":"@ + crate::text::decimal(realtime)
    &&& s.socket_port == port_of(raw_view(env.socket_port), DEFAULT_UR_DRIVER_SOCKET_PORT)
    &&& s.ready_flag@ == value_or(env.ready_flag, "/tmp/robot_controller_ready.flag"@)
    &&& s.params.name@ == id
    &&& s.params.tf_prefix@ == s.tf_prefix@
    &&& s.params.ur_type@ == model
    &&& s.params.description_file@ == below(dir, "urdf/"@ + model + ".urdf"@)
    &&& s.params.ur_meshes_path@ == below(below(below(dir, "meshes"@), model), "visual"@)
    &&& s.params.safety_limits
    &&& s.params.safety_pos_margin.bits == 0x3FC3_3333_3333_3333
    &&& s.params.safety_k_position.bits == 0x4034_0000_0000_0000
    &&& s.params.rviz_config_file@ == "TODO!"@
}

/// What an environment configures.
///
/// The frame prefix is deliberately not derived from the robot's id: a single robot must keep
/// publishing the bare frame names, whatever it is called.
pub fn settings(env: &Environment) -> (r: Settings)
    ensures
        configured_by(*env, r),
{
    let robot_id = or_default(&env.robot_id, "r1");
    let log_target = join2(robot_id.as_str(), "_ur_redis_driver");
    let robot_model = robot_model_from_env(&env.robot_model);
    let tf_prefix = or_default(&env.tf_prefix, "");
    let dir = or_default(&env.description_dir, "src/ur_description/");
    let host = or_default(&env.address, "0.0.0.0");
    let dashboard = env_port(raw_str(&env.dashboard_port), DEFAULT_UR_DASHBOARD_PORT);
    let realtime = env_port(raw_str(&env.realtime_port), DEFAULT_UR_REALTIME_PORT);
    let meshes = join_path(
        join_path(dir.as_str(), "meshes").as_str(),
        robot_model.as_str(),
    );
    let mut params = URDFParameters::default();
    params.name = robot_id.clone();
    params.tf_prefix = tf_prefix.clone();
    params.description_file = join_path(
        dir.as_str(),
        join3("urdf/", robot_model.as_str(), ".urdf").as_str(),
    );
    params.ur_type = robot_model;
    params.ur_meshes_path = join_path(meshes.as_str(), "visual");
    Settings {
        robot_id,
        log_target,
        tf_prefix,
        dashboard_address: join3(host.as_str(), ":", number(dashboard as u64).as_str()),
        realtime_address: join3(host.as_str(), ":", number(realtime as u64).as_str()),
        socket_port: ur_driver_socket_port(raw_str(&env.socket_port)),
        ready_flag: or_default(&env.ready_flag, "/tmp/robot_controller_ready.flag"),
        params,
    }
}

/// An environment that says nothing configures one robot with the standard ports and the bare
/// frame names.
pub proof fn silence_means_the_standard_cell(env: Environment, s: Settings)
    requires
        configured_by(env, s),
        env.tf_prefix is None,
        env.dashboard_port is None,
        env.realtime_port is None,
        env.socket_port is None,
    ensures
        s.params.tf_prefix@ == ""@,
        s.socket_port == DEFAULT_UR_DRIVER_SOCKET_PORT,
        s.dashboard_address@ == value_or(env.address, "0.0.0.0"@) + ":"@ + crate::text::decimal(
            29999,
        ),
        s.realtime_address@ == value_or(env.address, "0.0.0.0"@) + ":"@ + crate::text::decimal(
            30003,
        ),
{
}

} // verus!
