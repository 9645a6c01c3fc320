//! What a motion is made of: waypoints, commands, payloads and the names of frames.

use crate::double::{encoded_int, Double};
use crate::sp_value::{SpValue, SpView};
use crate::text::{join, join2, join3, joined, same, views};
use vstd::prelude::*;

verus! {

/// The pose literal of a target that nothing looked up.
pub const IDENTITY_POSE: &'static str = "p[0,0,0,0,0,0]";

/// Copy a list of numbers.
pub fn copy_doubles(values: &Vec<Double>) -> (r: Vec<Double>)
    ensures
        r@ == values@,
{
    let mut r: Vec<Double> = Vec::new();
    let mut i: usize = 0;
    while i < values.len()
        invariant
            i <= values.len(),
            r@ == values@.take(i as int),
        decreases values.len() - i,
    {
        r.push(values[i]);
        i = i + 1;
        assert(values@.take(i as int) =~= values@.take(i - 1).push(values@[i - 1]));
    }
    assert(values@.take(i as int) =~= values@);
    r
}

/// One waypoint as it reaches the script template.
#[derive(Debug)]
pub struct Waypoint {
    pub acceleration: Double,
    pub velocity: Double,
    pub global_acceleration_scaling: Double,
    pub global_velocity_scaling: Double,
    pub use_execution_time: bool,
    pub execution_time: Double,
    pub use_blend_radius: bool,
    pub blend_radius: Double,
    pub use_joint_positions: bool,
    pub joint_positions: Vec<Double>,
    pub use_preferred_joint_config: bool,
    pub preferred_joint_config: Vec<Double>,
    pub use_payload: bool,
    pub payload: String,
    pub target_in_base: String,
    pub relative_pose: Vec<Double>,
    pub tcp_in_faceplate: String,
    pub force_threshold: Double,
    /// Travel to this waypoint in a straight tool line (`movel`) rather than by
    /// joint interpolation (`movej`).
    ///
    /// Orthogonal to `use_joint_positions`, which says how the *target* is
    /// specified rather than how the arm gets there - `movel` accepts a joint
    /// vector and moves to its forward kinematics in a straight line.
    pub use_linear_motion: bool,
}

/// What a [`Waypoint`] says.
#[verifier::ext_equal]
pub struct WaypointView {
    pub acceleration: Double,
    pub velocity: Double,
    pub global_acceleration_scaling: Double,
    pub global_velocity_scaling: Double,
    pub use_execution_time: bool,
    pub execution_time: Double,
    pub use_blend_radius: bool,
    pub blend_radius: Double,
    pub use_joint_positions: bool,
    pub joint_positions: Seq<Double>,
    pub use_preferred_joint_config: bool,
    pub preferred_joint_config: Seq<Double>,
    pub use_payload: bool,
    pub payload: Seq<char>,
    pub target_in_base: Seq<char>,
    pub relative_pose: Seq<Double>,
    pub tcp_in_faceplate: Seq<char>,
    pub force_threshold: Double,
    pub use_linear_motion: bool,
}

impl View for Waypoint {
    type V = WaypointView;

    open spec fn view(&self) -> WaypointView {
        WaypointView {
            acceleration: self.acceleration,
            velocity: self.velocity,
            global_acceleration_scaling: self.global_acceleration_scaling,
            global_velocity_scaling: self.global_velocity_scaling,
            use_execution_time: self.use_execution_time,
            execution_time: self.execution_time,
            use_blend_radius: self.use_blend_radius,
            blend_radius: self.blend_radius,
            use_joint_positions: self.use_joint_positions,
            joint_positions: self.joint_positions@,
            use_preferred_joint_config: self.use_preferred_joint_config,
            preferred_joint_config: self.preferred_joint_config@,
            use_payload: self.use_payload,
            payload: self.payload@,
            target_in_base: self.target_in_base@,
            relative_pose: self.relative_pose@,
            tcp_in_faceplate: self.tcp_in_faceplate@,
            force_threshold: self.force_threshold,
            use_linear_motion: self.use_linear_motion,
        }
    }
}

impl Waypoint {
    /// Copy the waypoint.
    pub fn copy(&self) -> (r: Waypoint)
        ensures
            r@ == self@,
    {
        Waypoint {
            acceleration: self.acceleration,
            velocity: self.velocity,
            global_acceleration_scaling: self.global_acceleration_scaling,
            global_velocity_scaling: self.global_velocity_scaling,
            use_execution_time: self.use_execution_time,
            execution_time: self.execution_time,
            use_blend_radius: self.use_blend_radius,
            blend_radius: self.blend_radius,
            use_joint_positions: self.use_joint_positions,
            joint_positions: copy_doubles(&self.joint_positions),
            use_preferred_joint_config: self.use_preferred_joint_config,
            preferred_joint_config: copy_doubles(&self.preferred_joint_config),
            use_payload: self.use_payload,
            payload: self.payload.clone(),
            target_in_base: self.target_in_base.clone(),
            relative_pose: copy_doubles(&self.relative_pose),
            tcp_in_faceplate: self.tcp_in_faceplate.clone(),
            force_threshold: self.force_threshold,
            use_linear_motion: self.use_linear_motion,
        }
    }
}

/// Copy a list of waypoints.
pub fn copy_waypoints(waypoints: &Vec<Waypoint>) -> (r: Vec<Waypoint>)
    ensures
        r@.map_values(|w: Waypoint| w@) == waypoints@.map_values(|w: Waypoint| w@),
{
    let mut r: Vec<Waypoint> = Vec::new();
    let mut i: usize = 0;
    while i < waypoints.len()
        invariant
            i <= waypoints.len(),
            r.len() == i,
            forall|j: int| 0 <= j < i ==> (#[trigger] r@[j])@ == waypoints@[j]@,
        decreases waypoints.len() - i,
    {
        r.push(waypoints[i].copy());
        i = i + 1;
    }
    assert(r@.map_values(|w: Waypoint| w@) =~= waypoints@.map_values(|w: Waypoint| w@));
    r
}

/// One waypoint as it arrives under `{robot}_waypoints`.
#[derive(Debug)]
pub struct WaypointRaw {
    pub acceleration: Double,
    pub velocity: Double,
    pub global_acceleration_scaling: Double,
    pub global_velocity_scaling: Double,
    pub use_execution_time: bool,
    pub execution_time: Double,
    pub use_blend_radius: bool,
    pub blend_radius: Double,
    pub use_joint_positions: bool,
    pub joint_positions: Vec<Double>,
    pub use_preferred_joint_config: bool,
    pub preferred_joint_config: Vec<Double>,
    pub use_relative_pose: bool,
    pub relative_pose: Vec<Double>,
    pub use_payload: bool,
    pub payload: String,
    pub baseframe_id: String,
    pub faceplate_id: String,
    pub goal_feature_id: String,
    pub tcp_id: String,
    pub root_frame_id: String,
    pub force_threshold: Double,
    /// See [`Waypoint::use_linear_motion`]. Optional on the wire, defaulting to
    /// `false` (`movej`), which is what every publisher that leaves it out means.
    pub use_linear_motion: bool,
}

/// What a [`WaypointRaw`] says.
#[verifier::ext_equal]
pub struct WaypointRawView {
    pub acceleration: Double,
    pub velocity: Double,
    pub global_acceleration_scaling: Double,
    pub global_velocity_scaling: Double,
    pub use_execution_time: bool,
    pub execution_time: Double,
    pub use_blend_radius: bool,
    pub blend_radius: Double,
    pub use_joint_positions: bool,
    pub joint_positions: Seq<Double>,
    pub use_preferred_joint_config: bool,
    pub preferred_joint_config: Seq<Double>,
    pub use_relative_pose: bool,
    pub relative_pose: Seq<Double>,
    pub use_payload: bool,
    pub payload: Seq<char>,
    pub baseframe_id: Seq<char>,
    pub faceplate_id: Seq<char>,
    pub goal_feature_id: Seq<char>,
    pub tcp_id: Seq<char>,
    pub root_frame_id: Seq<char>,
    pub force_threshold: Double,
    pub use_linear_motion: bool,
}

impl View for WaypointRaw {
    type V = WaypointRawView;

    open spec fn view(&self) -> WaypointRawView {
        WaypointRawView {
            acceleration: self.acceleration,
            velocity: self.velocity,
            global_acceleration_scaling: self.global_acceleration_scaling,
            global_velocity_scaling: self.global_velocity_scaling,
            use_execution_time: self.use_execution_time,
            execution_time: self.execution_time,
            use_blend_radius: self.use_blend_radius,
            blend_radius: self.blend_radius,
            use_joint_positions: self.use_joint_positions,
            joint_positions: self.joint_positions@,
            use_preferred_joint_config: self.use_preferred_joint_config,
            preferred_joint_config: self.preferred_joint_config@,
            use_relative_pose: self.use_relative_pose,
            relative_pose: self.relative_pose@,
            use_payload: self.use_payload,
            payload: self.payload@,
            baseframe_id: self.baseframe_id@,
            faceplate_id: self.faceplate_id@,
            goal_feature_id: self.goal_feature_id@,
            tcp_id: self.tcp_id@,
            root_frame_id: self.root_frame_id@,
            force_threshold: self.force_threshold,
            use_linear_motion: self.use_linear_motion,
        }
    }
}

/// One motion command, as the script template sees it.
#[derive(Debug)]
pub struct RobotCommand {
    /// The template to run, without its `.script`.
    pub command_type: String,
    /// `move_j`: joint acceleration of the leading axis, rad/s^2. `move_l`: tool
    /// acceleration, m/s^2.
    pub acceleration: Double,
    /// `move_j`: joint velocity of the leading axis, rad/s. `move_l`: tool velocity, m/s.
    pub velocity: Double,
    /// Between 0.0 and 1.0.
    pub global_acceleration_scaling: Double,
    /// Between 0.0 and 1.0.
    pub global_velocity_scaling: Double,
    /// Execute the motion in `execution_time` seconds, which has priority over speed and
    /// acceleration.
    pub use_execution_time: bool,
    pub execution_time: Double,
    /// Blend through the point instead of stopping at it. A blend region that overlaps that
    /// of a neighbouring waypoint makes the controller skip the move.
    pub use_blend_radius: bool,
    pub blend_radius: Double,
    /// Move to `joint_positions` instead of solving inverse kinematics for the target.
    pub use_joint_positions: bool,
    pub joint_positions: Vec<Double>,
    /// The configuration the inverse kinematics should stay close to.
    pub use_preferred_joint_config: bool,
    pub preferred_joint_config: Vec<Double>,
    /// Mass, centre of gravity and inertia of what the tool carries.
    pub use_payload: bool,
    pub payload: String,
    /// The looked-up target, as a pose literal.
    pub target_in_base: String,
    /// Relative to the current TCP pose.
    pub relative_pose: Vec<Double>,
    /// The looked-up TCP, as a pose literal.
    pub tcp_in_faceplate: String,
    pub force_threshold: Double,
    /// Whether the trajectory templates should report each waypoint they reach on
    /// the script socket. Progress is what lets a paused blended trajectory resume
    /// where it stopped, but the socket write sits between two blended moves and may
    /// flush the controller's look-ahead buffer, breaking the blend. Off means a
    /// guaranteed-smooth blend and no mid-trajectory resume.
    pub report_waypoint_progress: bool,
    /// Name of a trajectory stored under the trajectory directory, without the
    /// `.json`. Empty means "there is no stored trajectory": either this is not a
    /// trajectory command at all, or it is one to be planned from `waypoints`.
    pub trajectory_id: String,
    pub waypoints: Vec<Waypoint>,
}

/// What a [`RobotCommand`] says.
#[verifier::ext_equal]
pub struct RobotCommandView {
    pub command_type: Seq<char>,
    pub acceleration: Double,
    pub velocity: Double,
    pub global_acceleration_scaling: Double,
    pub global_velocity_scaling: Double,
    pub use_execution_time: bool,
    pub execution_time: Double,
    pub use_blend_radius: bool,
    pub blend_radius: Double,
    pub use_joint_positions: bool,
    pub joint_positions: Seq<Double>,
    pub use_preferred_joint_config: bool,
    pub preferred_joint_config: Seq<Double>,
    pub use_payload: bool,
    pub payload: Seq<char>,
    pub target_in_base: Seq<char>,
    pub relative_pose: Seq<Double>,
    pub tcp_in_faceplate: Seq<char>,
    pub force_threshold: Double,
    pub report_waypoint_progress: bool,
    pub trajectory_id: Seq<char>,
    pub waypoints: Seq<WaypointView>,
}

impl View for RobotCommand {
    type V = RobotCommandView;

    open spec fn view(&self) -> RobotCommandView {
        RobotCommandView {
            command_type: self.command_type@,
            acceleration: self.acceleration,
            velocity: self.velocity,
            global_acceleration_scaling: self.global_acceleration_scaling,
            global_velocity_scaling: self.global_velocity_scaling,
            use_execution_time: self.use_execution_time,
            execution_time: self.execution_time,
            use_blend_radius: self.use_blend_radius,
            blend_radius: self.blend_radius,
            use_joint_positions: self.use_joint_positions,
            joint_positions: self.joint_positions@,
            use_preferred_joint_config: self.use_preferred_joint_config,
            preferred_joint_config: self.preferred_joint_config@,
            use_payload: self.use_payload,
            payload: self.payload@,
            target_in_base: self.target_in_base@,
            relative_pose: self.relative_pose@,
            tcp_in_faceplate: self.tcp_in_faceplate@,
            force_threshold: self.force_threshold,
            report_waypoint_progress: self.report_waypoint_progress,
            trajectory_id: self.trajectory_id@,
            waypoints: self.waypoints@.map_values(|w: Waypoint| w@),
        }
    }
}

impl RobotCommand {
    /// Copy the command.
    pub fn copy(&self) -> (r: RobotCommand)
        ensures
            r@ == self@,
    {
        RobotCommand {
            command_type: self.command_type.clone(),
            acceleration: self.acceleration,
            velocity: self.velocity,
            global_acceleration_scaling: self.global_acceleration_scaling,
            global_velocity_scaling: self.global_velocity_scaling,
            use_execution_time: self.use_execution_time,
            execution_time: self.execution_time,
            use_blend_radius: self.use_blend_radius,
            blend_radius: self.blend_radius,
            use_joint_positions: self.use_joint_positions,
            joint_positions: copy_doubles(&self.joint_positions),
            use_preferred_joint_config: self.use_preferred_joint_config,
            preferred_joint_config: copy_doubles(&self.preferred_joint_config),
            use_payload: self.use_payload,
            payload: self.payload.clone(),
            target_in_base: self.target_in_base.clone(),
            relative_pose: copy_doubles(&self.relative_pose),
            tcp_in_faceplate: self.tcp_in_faceplate.clone(),
            force_threshold: self.force_threshold,
            report_waypoint_progress: self.report_waypoint_progress,
            trajectory_id: self.trajectory_id.clone(),
            waypoints: copy_waypoints(&self.waypoints),
        }
    }
}

/// One accepted motion goal.
#[derive(Debug)]
pub struct ScriptRequest {
    pub uuid: String,
    /// The rendered script, ready to be wrapped and written to the realtime port.
    pub script: String,
    /// The command it was rendered from, retained so a resume can re-render the
    /// remainder of the motion instead of replaying it from the start.
    pub command: RobotCommand,
}

/// What the tool carries: every number by its decimal spelling.
#[derive(Debug)]
pub struct Payload {
    /// Payload mass in kilograms.
    pub mass: String,
    /// Payload centre of gravity offsets (in metres) from the tool mount.
    pub cog_x: String,
    pub cog_y: String,
    pub cog_z: String,
    /// Payload inertia matrix (in kg*m^2) with origin at the centre of gravity and axes
    /// aligned with the tool flange axes.
    pub ixx: String,
    pub iyy: String,
    pub izz: String,
    pub ixy: String,
    pub ixz: String,
    pub iyz: String,
}

impl Default for Payload {
    fn default() -> (r: Self)
        ensures
            r.mass@ == "0"@,
            r.cog_x@ == "0"@,
            r.cog_y@ == "0"@,
            r.cog_z@ == "0"@,
            r.ixx@ == "0"@,
            r.iyy@ == "0"@,
            r.izz@ == "0"@,
            r.ixy@ == "0"@,
            r.ixz@ == "0"@,
            r.iyz@ == "0"@,
    {
        Payload {
            mass: "0".to_owned(),
            cog_x: "0".to_owned(),
            cog_y: "0".to_owned(),
            cog_z: "0".to_owned(),
            ixx: "0".to_owned(),
            iyy: "0".to_owned(),
            izz: "0".to_owned(),
            ixy: "0".to_owned(),
            ixz: "0".to_owned(),
            iyz: "0".to_owned(),
        }
    }
}

impl Payload {
    /// The payload as `set_target_payload` takes it: `mass,[cog],[inertia]`.
    pub open spec fn arguments(self) -> Seq<char> {
        self.mass@ + ",["@ + joined(seq![self.cog_x@, self.cog_y@, self.cog_z@], ","@) + "],["@
            + joined(
            seq![self.ixx@, self.iyy@, self.izz@, self.ixy@, self.ixz@, self.iyz@],
            ","@,
        ) + "]"@
    }

    pub fn to_string(&self) -> (r: String)
        ensures
            r@ == self.arguments(),
    {
        let mut cog: Vec<String> = Vec::new();
        cog.push(self.cog_x.clone());
        cog.push(self.cog_y.clone());
        cog.push(self.cog_z.clone());
        assert(views(cog@) =~= seq![self.cog_x@, self.cog_y@, self.cog_z@]);
        let mut inertia: Vec<String> = Vec::new();
        inertia.push(self.ixx.clone());
        inertia.push(self.iyy.clone());
        inertia.push(self.izz.clone());
        inertia.push(self.ixy.clone());
        inertia.push(self.ixz.clone());
        inertia.push(self.iyz.clone());
        assert(views(inertia@) =~= seq![
            self.ixx@,
            self.iyy@,
            self.izz@,
            self.ixy@,
            self.ixz@,
            self.iyz@,
        ]);
        let mut r = join3(self.mass.as_str(), ",[", join(&cog, ",").as_str());
        r.append("],[");
        r.append(join(&inertia, ",").as_str());
        r.append("]");
        r
    }
}

/// A pose as a URScript literal, from the spellings of its six numbers.
pub fn pose_to_string(numbers: &Vec<String>) -> (r: String)
    ensures
        r@ == "p["@ + joined(views(numbers@), ","@) + "]"@,
{
    join3("p[", join(numbers, ",").as_str(), "]")
}

/// What the robot model is generated from, and how its frames are named.
#[derive(Debug)]
pub struct URDFParameters {
    pub name: String,
    pub ur_type: String,
    pub safety_limits: bool,
    pub safety_pos_margin: Double,
    pub safety_k_position: Double,
    pub description_file: String,
    pub rviz_config_file: String,
    pub tf_prefix: String,
    pub ur_meshes_path: String,
}

/// 0.15
const SAFETY_POS_MARGIN: u64 = 0x3FC3_3333_3333_3333;

/// 20.0
const SAFETY_K_POSITION: u64 = 0x4034_0000_0000_0000;

impl Default for URDFParameters {
    fn default() -> (r: Self)
        ensures
            r.name@ == "robot_1"@,
            r.ur_type@ == "ur10e"@,
            r.safety_limits,
            r.safety_pos_margin.bits == 0x3FC3_3333_3333_3333,
            r.safety_k_position.bits == 0x4034_0000_0000_0000,
            r.description_file@ == "TODO!"@,
            r.rviz_config_file@ == "TODO!"@,
            r.tf_prefix@.len() == 0,
            r.ur_meshes_path@ == "TODO!"@,
    {
        URDFParameters {
            name: "robot_1".to_owned(),
            ur_type: "ur10e".to_owned(),
            safety_limits: true,
            safety_pos_margin: Double { bits: SAFETY_POS_MARGIN },
            safety_k_position: Double { bits: SAFETY_K_POSITION },
            description_file: "TODO!".to_owned(),
            rviz_config_file: "TODO!".to_owned(),
            tf_prefix: String::new(),
            ur_meshes_path: "TODO!".to_owned(),
        }
    }
}

impl URDFParameters {
    /// This robot's name for a URDF link.
    ///
    /// An empty `tf_prefix` returns `name` unchanged, which is what keeps a
    /// single-robot cell publishing the bare `base_link`..`tool0` that its scene files
    /// and its model already name. The prefix carries its own separator (`"r2_"`), so
    /// empty is exactly the identity.
    pub fn frame(&self, name: &str) -> (r: String)
        ensures
            r@ == self.tf_prefix@ + name@,
            self.tf_prefix@.len() == 0 ==> r@ == name@,
    {
        let r = join2(self.tf_prefix.as_str(), name);
        assert(self.tf_prefix@.len() == 0 ==> r@ =~= name@);
        r
    }
}

/// The value under the text key `key` in a table: the first entry with that key counts.
pub open spec fn field(table: Seq<(SpValue, SpValue)>, key: Seq<char>) -> Option<SpValue>
    decreases table.len(),
{
    if table.len() == 0 {
        None
    } else if table[0].0@ == SpView::Text(Some(key)) {
        Some(table[0].1)
    } else {
        field(table.drop_first(), key)
    }
}

/// The number a value holds; an integer counts as the nearest number.
pub open spec fn number(value: Option<SpValue>) -> Option<Double> {
    match value {
        Some(v) => match v@ {
            SpView::Float64(Some(d)) => Some(d),
            SpView::Int64(Some(i)) => Some(Double { bits: encoded_int(i as int) as u64 }),
            _ => None,
        },
        None => None,
    }
}

/// The flag a value holds.
pub open spec fn flag_of(value: Option<SpValue>) -> Option<bool> {
    match value {
        Some(v) => match v@ {
            SpView::Bool(b) => b,
            _ => None,
        },
        None => None,
    }
}

/// The text a value holds.
pub open spec fn text_of(value: Option<SpValue>) -> Option<Seq<char>> {
    match value {
        Some(v) => match v@ {
            SpView::Text(s) => s,
            _ => None,
        },
        None => None,
    }
}

/// The numbers an array holds, where it holds nothing else.
pub open spec fn numbers(value: Option<SpValue>) -> Option<Seq<Double>> {
    match value {
        Some(v) => match v@ {
            SpView::Array(Some(a)) => if forall|i: int|
                0 <= i < a.len() ==> number(Some(#[trigger] a[i])) is Some {
                Some(Seq::new(a.len(), |i: int| number(Some(a[i]))->0))
            } else {
                None
            },
            _ => None,
        },
        None => None,
    }
}

/// Whether a table holds every field a waypoint cannot do without, each of its type. The
/// goal frame can be left out where the waypoint moves to joint positions.
pub open spec fn is_complete(table: Seq<(SpValue, SpValue)>) -> bool {
    &&& number(field(table, "acceleration"@)) is Some
    &&& number(field(table, "velocity"@)) is Some
    &&& number(field(table, "global_acceleration_scaling"@)) is Some
    &&& number(field(table, "global_velocity_scaling"@)) is Some
    &&& flag_of(field(table, "use_execution_time"@)) is Some
    &&& number(field(table, "execution_time"@)) is Some
    &&& flag_of(field(table, "use_blend_radius"@)) is Some
    &&& number(field(table, "blend_radius"@)) is Some
    &&& flag_of(field(table, "use_joint_positions"@)) is Some
    &&& numbers(field(table, "joint_positions"@)) is Some
    &&& flag_of(field(table, "use_preferred_joint_config"@)) is Some
    &&& numbers(field(table, "preferred_joint_config"@)) is Some
    &&& flag_of(field(table, "use_relative_pose"@)) is Some
    &&& numbers(field(table, "relative_pose"@)) is Some
    &&& flag_of(field(table, "use_payload"@)) is Some
    &&& text_of(field(table, "payload"@)) is Some
    &&& text_of(field(table, "baseframe_id"@)) is Some
    &&& text_of(field(table, "faceplate_id"@)) is Some
    &&& text_of(field(table, "tcp_id"@)) is Some
    &&& text_of(field(table, "root_frame_id"@)) is Some
    &&& number(field(table, "force_threshold"@)) is Some
    &&& flag_of(field(table, "use_joint_positions"@)) == Some(true) || text_of(
        field(table, "goal_feature_id"@),
    ) is Some
}

/// The waypoint that a complete table describes.
pub open spec fn described(table: Seq<(SpValue, SpValue)>) -> WaypointRawView {
    WaypointRawView {
        acceleration: number(field(table, "acceleration"@))->0,
        velocity: number(field(table, "velocity"@))->0,
        global_acceleration_scaling: number(field(table, "global_acceleration_scaling"@))->0,
        global_velocity_scaling: number(field(table, "global_velocity_scaling"@))->0,
        use_execution_time: flag_of(field(table, "use_execution_time"@))->0,
        execution_time: number(field(table, "execution_time"@))->0,
        use_blend_radius: flag_of(field(table, "use_blend_radius"@))->0,
        blend_radius: number(field(table, "blend_radius"@))->0,
        use_joint_positions: flag_of(field(table, "use_joint_positions"@))->0,
        joint_positions: numbers(field(table, "joint_positions"@))->0,
        use_preferred_joint_config: flag_of(field(table, "use_preferred_joint_config"@))->0,
        preferred_joint_config: numbers(field(table, "preferred_joint_config"@))->0,
        use_relative_pose: flag_of(field(table, "use_relative_pose"@))->0,
        relative_pose: numbers(field(table, "relative_pose"@))->0,
        use_payload: flag_of(field(table, "use_payload"@))->0,
        payload: text_of(field(table, "payload"@))->0,
        baseframe_id: text_of(field(table, "baseframe_id"@))->0,
        faceplate_id: text_of(field(table, "faceplate_id"@))->0,
        goal_feature_id: if flag_of(field(table, "use_joint_positions"@)) == Some(true) {
            Seq::empty()
        } else {
            text_of(field(table, "goal_feature_id"@))->0
        },
        tcp_id: text_of(field(table, "tcp_id"@))->0,
        root_frame_id: text_of(field(table, "root_frame_id"@))->0,
        force_threshold: number(field(table, "force_threshold"@))->0,
        use_linear_motion: flag_of(field(table, "use_linear_motion"@)) == Some(true),
    }
}

/// Whether an element of `{robot}_waypoints` describes a waypoint.
pub open spec fn is_waypoint(item: SpValue) -> bool {
    item@ matches SpView::Table(Some(table)) && is_complete(table)
}

/// The waypoint that an element of `{robot}_waypoints` describes.
pub open spec fn waypoint_in(item: SpValue) -> WaypointRawView {
    described(item@->Table_0->0)
}

/// The waypoints under `{robot}_waypoints`: all of them, or none where one does not decode.
pub open spec fn waypoints_in(value: Option<SpView>) -> Option<Seq<WaypointRawView>> {
    match value {
        Some(SpView::Array(Some(a))) => if forall|i: int|
            0 <= i < a.len() ==> is_waypoint(#[trigger] a[i]) {
            Some(Seq::new(a.len(), |i: int| waypoint_in(a[i])))
        } else {
            None
        },
        _ => None,
    }
}

fn find_field<'a>(table: &'a Vec<(SpValue, SpValue)>, key: &str) -> (r: Option<&'a SpValue>)
    ensures
        match r {
            Some(v) => field(table@, key@) == Some(*v),
            None => field(table@, key@) is None,
        },
{
    let mut i: usize = 0;
    assert(table@.skip(0) =~= table@);
    while i < table.len()
        invariant
            i <= table.len(),
            field(table@.skip(i as int), key@) == field(table@, key@),
        decreases table.len() - i,
    {
        assert(table@.skip(i as int)[0] == table@[i as int]);
        assert(table@.skip(i as int).drop_first() =~= table@.skip(i + 1));
        let (k, v) = &table[i];
        match k {
            SpValue::Text(Some(s)) => {
                if same(s.as_str(), key) {
                    return Some(v);
                }
            },
            _ => {},
        }
        i = i + 1;
    }
    None
}

fn read_number(value: Option<&SpValue>) -> (r: Option<Double>)
    ensures
        r == number(match value {
            Some(v) => Some(*v),
            None => None,
        }),
{
    match value {
        Some(SpValue::Float64(Some(d))) => Some(*d),
        Some(SpValue::Int64(Some(i))) => {
            let d = Double::from_int(*i);
            Some(d)
        },
        _ => None,
    }
}

fn number_field(table: &Vec<(SpValue, SpValue)>, key: &str) -> (r: Option<Double>)
    ensures
        r == number(field(table@, key@)),
{
    read_number(find_field(table, key))
}

fn flag_field(table: &Vec<(SpValue, SpValue)>, key: &str) -> (r: Option<bool>)
    ensures
        r == flag_of(field(table@, key@)),
{
    match find_field(table, key) {
        Some(SpValue::Bool(Some(b))) => Some(*b),
        _ => None,
    }
}

fn text_field(table: &Vec<(SpValue, SpValue)>, key: &str) -> (r: Option<String>)
    ensures
        match r {
            Some(s) => text_of(field(table@, key@)) == Some(s@),
            None => text_of(field(table@, key@)) is None,
        },
{
    match find_field(table, key) {
        Some(SpValue::Text(Some(s))) => Some(s.clone()),
        _ => None,
    }
}

fn numbers_field(table: &Vec<(SpValue, SpValue)>, key: &str) -> (r: Option<Vec<Double>>)
    ensures
        match r {
            Some(v) => numbers(field(table@, key@)) == Some(v@),
            None => numbers(field(table@, key@)) is None,
        },
{
    match find_field(table, key) {
        Some(SpValue::Array(Some(a))) => {
            let mut v: Vec<Double> = Vec::new();
            let mut i: usize = 0;
            while i < a.len()
                invariant
                    i <= a.len(),
                    v.len() == i,
                    field(table@, key@) matches Some(f) && f@ == SpView::Array(Some(a@)),
                    forall|j: int|
                        0 <= j < i ==> number(Some(#[trigger] a@[j])) == Some(v@[j]),
                decreases a.len() - i,
            {
                match read_number(Some(&a[i])) {
                    Some(d) => {
                        v.push(d);
                    },
                    None => {
                        assert(number(Some(a@[i as int])) is None);
                        return None;
                    },
                }
                i = i + 1;
            }
            proof {
                assert forall|j: int| 0 <= j < a@.len() implies number(
                    Some(#[trigger] a@[j]),
                ) is Some by {}
                assert(v@ =~= Seq::new(a@.len(), |j: int| number(Some(a@[j]))->0));
            }
            Some(v)
        },
        _ => None,
    }
}

fn waypoint_from(table: &Vec<(SpValue, SpValue)>) -> (r: Option<WaypointRaw>)
    ensures
        match r {
            Some(w) => is_complete(table@) && w@ == described(table@),
            None => !is_complete(table@),
        },
{
    let use_joint_positions = flag_field(table, "use_joint_positions")?;
    let goal_feature_id = if use_joint_positions {
        // Moving to joint positions needs no goal frame, and callers leave it out in that
        // case rather than sending a placeholder.
        String::new()
    } else {
        text_field(table, "goal_feature_id")?
    };
    // The one field with a default: publishers written before it existed leave it out.
    let use_linear_motion = match flag_field(table, "use_linear_motion") {
        Some(b) => b,
        None => false,
    };
    assert(use_joint_positions ==> goal_feature_id@ =~= Seq::empty());
    Some(
        WaypointRaw {
            acceleration: number_field(table, "acceleration")?,
            velocity: number_field(table, "velocity")?,
            global_acceleration_scaling: number_field(table, "global_acceleration_scaling")?,
            global_velocity_scaling: number_field(table, "global_velocity_scaling")?,
            use_execution_time: flag_field(table, "use_execution_time")?,
            execution_time: number_field(table, "execution_time")?,
            use_blend_radius: flag_field(table, "use_blend_radius")?,
            blend_radius: number_field(table, "blend_radius")?,
            use_joint_positions,
            joint_positions: numbers_field(table, "joint_positions")?,
            use_preferred_joint_config: flag_field(table, "use_preferred_joint_config")?,
            preferred_joint_config: numbers_field(table, "preferred_joint_config")?,
            use_relative_pose: flag_field(table, "use_relative_pose")?,
            relative_pose: numbers_field(table, "relative_pose")?,
            use_payload: flag_field(table, "use_payload")?,
            payload: text_field(table, "payload")?,
            baseframe_id: text_field(table, "baseframe_id")?,
            faceplate_id: text_field(table, "faceplate_id")?,
            goal_feature_id,
            tcp_id: text_field(table, "tcp_id")?,
            root_frame_id: text_field(table, "root_frame_id")?,
            force_threshold: number_field(table, "force_threshold")?,
            use_linear_motion,
        },
    )
}

impl WaypointRaw {
    /// Decode `{robot}_waypoints` - an array of tables - into a waypoint list.
    ///
    /// A blended trajectory is only meaningful as a whole: a waypoint silently
    /// dropped from the middle changes the path the robot takes. So any field that
    /// fails to decode aborts the entire list rather than yielding a shorter one.
    pub fn vec_from_sp_value(value: Option<&SpValue>) -> (r: Option<Vec<WaypointRaw>>)
        ensures
            match r {
                Some(w) => waypoints_in(
                    match value {
                        Some(v) => Some(v@),
                        None => None,
                    },
                ) == Some(w@.map_values(|x: WaypointRaw| x@)),
                None => waypoints_in(
                    match value {
                        Some(v) => Some(v@),
                        None => None,
                    },
                ) is None,
            },
    {
        match value {
            Some(SpValue::Array(Some(a))) => {
                let mut r: Vec<WaypointRaw> = Vec::new();
                let mut i: usize = 0;
                while i < a.len()
                    invariant
                        i <= a.len(),
                        r.len() == i,
                        value matches Some(v) && v@ == SpView::Array(Some(a@)),
                        forall|j: int|
                            0 <= j < i ==> is_waypoint(#[trigger] a@[j]) && r@[j]@ == waypoint_in(
                                a@[j],
                            ),
                    decreases a.len() - i,
                {
                    let item = match &a[i] {
                        SpValue::Table(Some(table)) => waypoint_from(table),
                        _ => None,
                    };
                    match item {
                        Some(w) => {
                            r.push(w);
                        },
                        None => {
                            assert(!is_waypoint(a@[i as int]));
                            return None;
                        },
                    }
                    i = i + 1;
                }
                assert(r@.map_values(|x: WaypointRaw| x@) =~= Seq::new(
                    a@.len(),
                    |j: int| waypoint_in(a@[j]),
                ));
                Some(r)
            },
            _ => None,
        }
    }
}

/// A waypoint list decodes as a whole: one point of the list each, in its order, or nothing.
pub proof fn waypoints_decode_as_a_whole(items: Seq<SpValue>)
    ensures
        waypoints_in(Some(SpView::Array(Some(items)))) is Some <==> (forall|i: int|
            0 <= i < items.len() ==> is_waypoint(#[trigger] items[i])),
        waypoints_in(Some(SpView::Array(Some(items)))) matches Some(w) ==> w.len() == items.len()
            && forall|i: int| 0 <= i < items.len() ==> #[trigger] w[i] == waypoint_in(items[i]),
{
}

proof fn lemma_three_joined(a: Seq<char>, b: Seq<char>, c: Seq<char>, sep: Seq<char>)
    ensures
        joined(seq![a, b, c], sep) == a + sep + b + sep + c,
{
    let three = seq![a, b, c];
    assert(three.drop_last() =~= seq![a, b]);
    assert(seq![a, b].drop_last() =~= seq![a]);
    assert(joined(seq![a], sep) == a);
    assert(joined(seq![a, b], sep) == a + sep + b);
}

proof fn lemma_longer_joined(list: Seq<Seq<char>>, next: Seq<char>, sep: Seq<char>)
    requires
        list.len() > 0,
    ensures
        joined(list.push(next), sep) == joined(list, sep) + sep + next,
{
    assert(list.push(next).drop_last() =~= list);
}

/// A payload is spelled as the controller takes it: the mass, the centre of gravity by its three
/// coordinates, and the inertia by its three moments before its three products.
pub proof fn payloads_are_spelled_in_order(p: Payload)
    ensures
        p.arguments() == p.mass@ + ",["@ + (p.cog_x@ + ","@ + p.cog_y@ + ","@ + p.cog_z@) + "],["@
            + (p.ixx@ + ","@ + p.iyy@ + ","@ + p.izz@ + ","@ + p.ixy@ + ","@ + p.ixz@ + ","@
            + p.iyz@) + "]"@,
{
    lemma_three_joined(p.cog_x@, p.cog_y@, p.cog_z@, ","@);
    lemma_three_joined(p.ixx@, p.iyy@, p.izz@, ","@);
    let three = seq![p.ixx@, p.iyy@, p.izz@];
    let four = three.push(p.ixy@);
    let five = four.push(p.ixz@);
    lemma_longer_joined(three, p.ixy@, ","@);
    lemma_longer_joined(four, p.ixz@, ","@);
    lemma_longer_joined(five, p.iyz@, ","@);
    assert(five.push(p.iyz@) =~= seq![p.ixx@, p.iyy@, p.izz@, p.ixy@, p.ixz@, p.iyz@]);
}

} // verus!
