//! A driver for Universal Robots arms that takes its requests from, and publishes its state to, a
//! shared key-value state.
//!
//! This crate holds what the driver decides: what a dashboard command and its reply mean, which
//! requests become motions, how a goal runs and ends, what is published, and what a planned
//! trajectory is made of. Sockets, files, clocks and floating-point arithmetic stand around it.

use vstd::prelude::*;

pub mod cli;
pub mod command_server;
pub mod config;
pub mod dashboard;
pub mod dashboard_laws;
pub mod dashboard_line_laws;
pub mod dashboard_server;
pub mod dashboard_types;
pub mod double;
pub mod driver_state;
pub mod goal_laws;
pub mod handle_request;
pub mod intake;
pub mod number_laws;
pub mod publisher_laws;
pub mod realtime_reader;
pub mod request_laws;
pub mod ros;
pub mod script;
pub mod setup_laws;
pub mod socket_server;
pub mod sp_value;
pub mod state;
pub mod state_publisher;
pub mod structs;
pub mod text;
pub mod text_laws;
pub mod trajectory;
pub mod visuals;

pub use config::{robot_model_from_env, ur_driver_socket_port};
pub use dashboard_types::{
    DashboardCommand, DashboardIdentity, DashboardReply, DashboardStatus, DashboardValue,
    FlightReportType, OperationalMode, ProgramState, RobotMode, SafetyMode, SafetyStatus,
};
pub use driver_state::{
    robot_mode_name, safety_mode_aborts_goal, safety_mode_accepts_goal, safety_mode_name,
    DriverState,
};
pub use script::{generate_core_script_from_template, generate_ur_script};
pub use sp_value::{state_bool_or, state_double_or_zero, state_int_or, state_string_or};
pub use state::{generate_gripper_interface_state, generate_robot_interface_state};
pub use structs::{
    pose_to_string, Payload, RobotCommand, ScriptRequest, URDFParameters, Waypoint, WaypointRaw,
};
pub use trajectory::online::{
    is_planner_command, waypoints_for_command, OPTIMAL_TRAJECTORY_COMMAND, START_TOLERANCE_RAD,
};

verus! {

/// The port the driver's script-feedback socket server listens on when nothing says
/// otherwise. The standard value; a single-driver host never needs to change it.
pub const DEFAULT_UR_DRIVER_SOCKET_PORT: u16 = 50000;

/// How often the robot's state is published, in milliseconds.
pub const ROBOT_STATE_UPDATE_INTERVAL_MS: u16 = 5;

/// The payload of the RSP alone.
pub const RSP_ONLY_PAYLOAD: &'static str = "0.69,[0.026,-0.008,0.012],[0.0,0.0,0.0,0.0,0.0,0.0]";

/// The payload of the RSP with the sponge.
pub const RSP_AND_SPONGE_PAYLOAD: &'static str =
    "1.88,[0.002,0.003,0.071],[0.0,0.0,0.0,0.0,0.0,0.0]";

/// The payload of the RSP with the gripper.
pub const RSP_AND_GRIPPER_PAYLOAD: &'static str =
    "2.24,[-0.001,0.002,0.068],[0.0,0.0,0.0,0.0,0.0,0.0]";

/// The payload of the RSP with the BVT.
pub const RSP_AND_BVT_PAYLOAD: &'static str = "1.3,[0.001,0.005,0.06],[0.0,0.0,0.0,0.0,0.0,0.0]";

/// The payload of the RSP with the SVT.
pub const RSP_AND_SVT_PAYLOAD: &'static str = "1.3,[0.001,0.005,0.06],[0.0,0.0,0.0,0.0,0.0,0.0]";

/// The payload of the RSP with the Photoneo.
pub const RSP_AND_PHOTONEO_PAYLOAD: &'static str =
    "3.29,[0.008,0.003,0.082],[0.0,0.0,0.0,0.0,0.0,0.0]";

} // verus!
