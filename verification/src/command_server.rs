//! The motion interface: from the keys of a request to a goal, or to a refusal.
//!
//! A caller writes the parameters of a motion under `{robot}_*`, sets
//! `{robot}_request_state` to `initial` and raises `{robot}_request_trigger`. Every request
//! that is picked up reaches a terminal state: what cannot be run is failed with a reason
//! under `{robot}_request_result`, and never left at `initial`.

use crate::dashboard_types::SafetyMode;
use crate::double::Double;
use crate::driver_state::{safety_mode_accepts_goal, safety_mode_name, DriverState};
use crate::script::{has_template, template_file, template_names};
use crate::sp_value::{
    bool_at, double_at, int_at, key, key_of, state_bool_or, state_double_or_zero, state_int_or,
    state_string_or, text_at, written, SpValue, SpView, State, Write,
};
use crate::state::robot_seeds;
use crate::structs::{
    copy_doubles, waypoints_in, Payload, RobotCommand, RobotCommandView, Waypoint, WaypointRaw,
    WaypointRawView, WaypointView, IDENTITY_POSE,
};
use crate::text::{
    contains_text, join, join2, join3, joined, occurs_at, same, views,
};
use vstd::prelude::*;

verus! {

/// The base frame of a request that names none: `base_link` if simulation, `base` if real or
/// ursim.
pub const DEFAULT_BASEFRAME_ID: &'static str = "base_link";

/// The faceplate frame of a request that names none.
pub const DEFAULT_FACEPLATE_ID: &'static str = "tool0";

/// The root frame of a request that names none.
pub const DEFAULT_ROOT_FRAME_ID: &'static str = "world";

/// The payload of a request that names none: nothing.
pub const DEFAULT_PAYLOAD: &'static str = "0,[0,0,0],[0,0,0,0,0,0]";

/// -1.5707
const QUARTER_TURN_BACK: u64 = 0xBFF9_2196_52BD_3C36;

/// The joint configuration that stands in for one a request does not give.
pub open spec fn safe_home() -> Seq<Double> {
    seq![
        Double { bits: 0 },
        Double { bits: 0xBFF9_2196_52BD_3C36 },
        Double { bits: 0 },
        Double { bits: 0xBFF9_2196_52BD_3C36 },
        Double { bits: 0 },
        Double { bits: 0 },
    ]
}

/// The offset that stands in for one a request does not give.
pub open spec fn no_offset() -> Seq<Double> {
    seq![
        Double { bits: 0 },
        Double { bits: 0 },
        Double { bits: 0 },
        Double { bits: 0 },
        Double { bits: 0 },
        Double { bits: 0 },
    ]
}

/// The joint configuration that stands in for one a request does not give.
pub fn safe_home_values() -> (r: Vec<Double>)
    ensures
        r@ == safe_home(),
{
    let mut r: Vec<Double> = Vec::new();
    r.push(Double { bits: 0 });
    r.push(Double { bits: QUARTER_TURN_BACK });
    r.push(Double { bits: 0 });
    r.push(Double { bits: QUARTER_TURN_BACK });
    r.push(Double { bits: 0 });
    r.push(Double { bits: 0 });
    assert(r@ =~= safe_home());
    r
}

fn no_offset_values() -> (r: Vec<Double>)
    ensures
        r@ == no_offset(),
{
    let mut r: Vec<Double> = Vec::new();
    let mut i: usize = 0;
    while i < 6
        invariant
            i <= 6,
            r@ == no_offset().take(i as int),
        decreases 6 - i,
    {
        r.push(Double { bits: 0 });
        i = i + 1;
        assert(no_offset().take(i as int) =~= no_offset().take(i - 1).push(Double { bits: 0 }));
    }
    assert(no_offset().take(6) =~= no_offset());
    r
}

/// The keys a request is made of, without the robot's prefix.
pub open spec fn request_suffixes() -> Seq<Seq<char>> {
    seq![
        "request_trigger"@,
        "request_state"@,
        "request_result"@,
        "request_cancel"@,
        "request_feedback"@,
        "command_type"@,
        "acceleration"@,
        "velocity"@,
        "global_acceleration_scaling"@,
        "global_velocity_scaling"@,
        "use_execution_time"@,
        "execution_time"@,
        "use_blend_radius"@,
        "blend_radius"@,
        "use_joint_positions"@,
        "joint_positions"@,
        "use_preferred_joint_config"@,
        "preferred_joint_config"@,
        "use_payload"@,
        "payload"@,
        "baseframe_id"@,
        "faceplate_id"@,
        "goal_feature_id"@,
        "tcp_id"@,
        "root_frame_id"@,
        "force_threshold"@,
        "use_relative_pose"@,
        "relative_pose"@,
        "force_feedback"@,
        "report_waypoint_progress"@,
        "waypoints"@,
    ]
}

/// The keys a request is made of.
pub open spec fn request_keys_of(robot: Seq<char>) -> Seq<Seq<char>> {
    request_suffixes().map_values(|suffix: Seq<char>| key_of(robot, suffix))
}

/// The keys a request is made of. A request is refused where one of them is missing.
pub fn request_keys(robot: &str) -> (r: Vec<String>)
    ensures
        views(r@) == request_keys_of(robot@),
{
    let mut r: Vec<String> = Vec::new();
    r.push(key(robot, "request_trigger"));
    r.push(key(robot, "request_state"));
    r.push(key(robot, "request_result"));
    r.push(key(robot, "request_cancel"));
    r.push(key(robot, "request_feedback"));
    r.push(key(robot, "command_type"));
    r.push(key(robot, "acceleration"));
    r.push(key(robot, "velocity"));
    r.push(key(robot, "global_acceleration_scaling"));
    r.push(key(robot, "global_velocity_scaling"));
    r.push(key(robot, "use_execution_time"));
    r.push(key(robot, "execution_time"));
    r.push(key(robot, "use_blend_radius"));
    r.push(key(robot, "blend_radius"));
    r.push(key(robot, "use_joint_positions"));
    r.push(key(robot, "joint_positions"));
    r.push(key(robot, "use_preferred_joint_config"));
    r.push(key(robot, "preferred_joint_config"));
    r.push(key(robot, "use_payload"));
    r.push(key(robot, "payload"));
    r.push(key(robot, "baseframe_id"));
    r.push(key(robot, "faceplate_id"));
    r.push(key(robot, "goal_feature_id"));
    r.push(key(robot, "tcp_id"));
    r.push(key(robot, "root_frame_id"));
    r.push(key(robot, "force_threshold"));
    r.push(key(robot, "use_relative_pose"));
    r.push(key(robot, "relative_pose"));
    r.push(key(robot, "force_feedback"));
    r.push(key(robot, "report_waypoint_progress"));
    r.push(key(robot, "waypoints"));
    assert(views(r@) =~= request_keys_of(robot@));
    r
}

/// The key that names a stored trajectory. A request may leave it out.
pub fn trajectory_key(robot: &str) -> (r: String)
    ensures
        r@ == key_of(robot@, "trajectory_id"@),
{
    key(robot, "trajectory_id")
}

/// The two keys that say whether there is anything to do at all.
pub fn fast_keys(robot: &str) -> (r: Vec<String>)
    ensures
        views(r@) == seq![
            key_of(robot@, "request_cancel"@),
            key_of(robot@, "request_trigger"@),
        ],
{
    let mut r: Vec<String> = Vec::new();
    r.push(key(robot, "request_cancel"));
    r.push(key(robot, "request_trigger"));
    assert(views(r@) =~= seq![
        key_of(robot@, "request_cancel"@),
        key_of(robot@, "request_trigger"@),
    ]);
    r
}

/// Whether a cancel is asked for.
pub open spec fn cancel_asked(robot: Seq<char>, state: Map<Seq<char>, SpView>) -> bool {
    bool_at(state, key_of(robot, "request_cancel"@), false)
}

/// Whether a request is triggered.
pub open spec fn request_asked(robot: Seq<char>, state: Map<Seq<char>, SpView>) -> bool {
    bool_at(state, key_of(robot, "request_trigger"@), false)
}

/// Whether a request stands at `initial`, which is where it has to be picked up.
pub open spec fn stands_at_initial(robot: Seq<char>, state: Map<Seq<char>, SpView>) -> bool {
    text_at(state, key_of(robot, "request_state"@), "UNKNOWN"@) == "initial"@
}

/// Whether a tick that reads these flags has nothing to do.
pub fn is_idle(robot: &str, flags: &State) -> (r: bool)
    ensures
        r == (!cancel_asked(robot@, flags@) && !request_asked(robot@, flags@)),
{
    let cancel = state_bool_or(flags, key(robot, "request_cancel").as_str(), false);
    let trigger = state_bool_or(flags, key(robot, "request_trigger").as_str(), false);
    !cancel && !trigger
}

/// What a tick does first.
#[derive(Debug)]
pub struct Tick<S> {
    /// The edges to consume, in order.
    pub writes: Vec<Write>,
    /// The sender that aborts the running goal, where a cancel is asked for and a goal runs.
    pub cancel: Option<S>,
    /// Whether there is a request to read.
    pub has_request: bool,
}

/// The edges that a tick consumes.
pub open spec fn consumed(robot: Seq<char>, state: Map<Seq<char>, SpView>) -> Seq<
    (Seq<char>, SpView),
> {
    let cancel: Seq<(Seq<char>, SpView)> = if cancel_asked(robot, state) {
        seq![(key_of(robot, "request_cancel"@), SpView::Bool(Some(false)))]
    } else {
        Seq::empty()
    };
    let trigger: Seq<(Seq<char>, SpView)> = if request_asked(robot, state) {
        seq![(key_of(robot, "request_trigger"@), SpView::Bool(Some(false)))]
    } else {
        Seq::empty()
    };
    cancel + trigger
}

/// What a tick does first, and what it leaves of the driver state.
pub open spec fn begins_tick<G, F, S>(
    robot: Seq<char>,
    state: Map<Seq<char>, SpView>,
    before: DriverState<G, F, S>,
    r: Tick<S>,
    after: DriverState<G, F, S>,
) -> bool {
    &&& written(r.writes@) == consumed(robot, state)
    &&& r.cancel == (if cancel_asked(robot, state) {
        before.cancel_sender
    } else {
        None
    })
    &&& r.has_request == (request_asked(robot, state) && stands_at_initial(robot, state))
    &&& after.cancel_sender == (if cancel_asked(robot, state) {
        None
    } else {
        before.cancel_sender
    })
    &&& after == (DriverState {
        cancel_sender: after.cancel_sender,
        ..before
    })
}

/// Consume the edges of a tick, and say what follows from them.
///
/// The cancel sender leaves the driver state with the first cancel, so a goal is cancelled
/// once.
pub fn begin_tick<G, F, S>(
    robot: &str,
    state: &State,
    driver: &mut DriverState<G, F, S>,
) -> (r: Tick<S>)
    ensures
        begins_tick(robot@, state@, *old(driver), r, *final(driver)),
{
    let mut writes: Vec<Write> = Vec::new();
    let mut cancel: Option<S> = None;
    if state_bool_or(state, key(robot, "request_cancel").as_str(), false) {
        writes.push(
            Write { key: key(robot, "request_cancel"), value: SpValue::Bool(Some(false)) },
        );
        cancel = driver.cancel_sender.take();
    }
    let trigger = state_bool_or(state, key(robot, "request_trigger").as_str(), false);
    if trigger {
        writes.push(
            Write { key: key(robot, "request_trigger"), value: SpValue::Bool(Some(false)) },
        );
    }
    let stage = state_string_or(state, key(robot, "request_state").as_str(), "UNKNOWN");
    assert(written(writes@) =~= consumed(robot@, state@));
    Tick { writes, cancel, has_request: trigger && same(stage.as_str(), "initial") }
}

/// Whether an array can be read as joint values: whatever is not a known number has to stand
/// among the first six, where a default can take its place.
pub open spec fn array_readable(value: SpView) -> bool {
    value matches SpView::Array(Some(a)) ==> forall|i: int|
        6 <= i < a.len() ==> ((#[trigger] a[i])@ matches SpView::Float64(Some(_)))
}

/// Whether a key of a request can be read at all.
pub open spec fn readable(
    robot: Seq<char>,
    state: Map<Seq<char>, SpView>,
    request_key: Seq<char>,
) -> bool {
    &&& state.dom().contains(request_key)
    &&& (request_key == key_of(robot, "joint_positions"@) || request_key == key_of(
        robot,
        "preferred_joint_config"@,
    ) || request_key == key_of(robot, "relative_pose"@)) ==> array_readable(state[request_key])
}

/// The keys of `keys` that cannot be read, in their order.
pub open spec fn unreadable(
    robot: Seq<char>,
    state: Map<Seq<char>, SpView>,
    keys: Seq<Seq<char>>,
) -> Seq<Seq<char>>
    decreases keys.len(),
{
    if keys.len() == 0 {
        Seq::empty()
    } else {
        let before = unreadable(robot, state, keys.drop_last());
        if readable(robot, state, keys.last()) {
            before
        } else {
            before.push(keys.last())
        }
    }
}

/// The values of an array of numbers; `default` gives what is not a known number, and the
/// whole where there is no array.
pub open spec fn six_at(
    state: Map<Seq<char>, SpView>,
    array_key: Seq<char>,
    default: Seq<Double>,
) -> Seq<Double> {
    if state.dom().contains(array_key) {
        match state[array_key] {
            SpView::Array(Some(a)) => Seq::new(
                a.len(),
                |i: int|
                    match a[i]@ {
                        SpView::Float64(Some(d)) => d,
                        _ => default[i],
                    },
            ),
            _ => default,
        }
    } else {
        default
    }
}

fn is_array_readable(value: &SpValue) -> (r: bool)
    ensures
        r == array_readable(value@),
{
    match value {
        SpValue::Array(Some(a)) => {
            let mut i: usize = 6;
            while i < a.len()
                invariant
                    6 <= i,
                    value@ == SpView::Array(Some(a@)),
                    forall|j: int|
                        6 <= j < i && j < a.len() ==> ((#[trigger] a@[j])@ matches SpView::Float64(
                            Some(_),
                        )),
                decreases a.len() - i,
            {
                let known = match &a[i] {
                    SpValue::Float64(Some(_)) => true,
                    _ => false,
                };
                if !known {
                    assert(!(a@[i as int]@ matches SpView::Float64(Some(_))));
                    return false;
                }
                i = i + 1;
            }
            true
        },
        _ => true,
    }
}

fn is_readable(robot: &str, state: &State, request_key: &str) -> (r: bool)
    ensures
        r == readable(robot@, state@, request_key@),
{
    let is_array = same(request_key, key(robot, "joint_positions").as_str()) || same(
        request_key,
        key(robot, "preferred_joint_config").as_str(),
    ) || same(request_key, key(robot, "relative_pose").as_str());
    match state.get(request_key) {
        None => false,
        Some(value) => !is_array || is_array_readable(value),
    }
}

/// The request keys that cannot be read.
fn unreadable_keys(robot: &str, state: &State) -> (r: Vec<String>)
    ensures
        views(r@) == unreadable(robot@, state@, request_keys_of(robot@)),
{
    let keys = request_keys(robot);
    let all = Ghost(request_keys_of(robot@));
    let mut r: Vec<String> = Vec::new();
    let mut i: usize = 0;
    assert(views(r@) =~= Seq::empty());
    assert(all@.take(0) =~= Seq::empty());
    while i < keys.len()
        invariant
            i <= keys.len(),
            all@ == views(keys@),
            views(r@) == unreadable(robot@, state@, all@.take(i as int)),
        decreases keys.len() - i,
    {
        assert(all@[i as int] == keys@[i as int]@);
        assert(all@.take(i + 1).drop_last() =~= all@.take(i as int));
        if !is_readable(robot, state, keys[i].as_str()) {
            let before = Ghost(views(r@));
            r.push(keys[i].clone());
            assert(views(r@) =~= before@.push(keys@[i as int]@));
        }
        i = i + 1;
    }
    assert(all@.take(i as int) =~= all@);
    r
}

fn read_six(state: &State, array_key: &str, default: &Vec<Double>) -> (r: Vec<Double>)
    requires
        default.len() == 6,
        state@.dom().contains(array_key@),
        array_readable(state@[array_key@]),
    ensures
        r@ == six_at(state@, array_key@, default@),
{
    match state.get(array_key) {
        Some(SpValue::Array(Some(a))) => {
            let mut r: Vec<Double> = Vec::new();
            let mut i: usize = 0;
            while i < a.len()
                invariant
                    i <= a.len(),
                    r.len() == i,
                    default.len() == 6,
                    array_readable(SpView::Array(Some(a@))),
                    forall|j: int|
                        0 <= j < i ==> #[trigger] r@[j] == (match a@[j]@ {
                            SpView::Float64(Some(d)) => d,
                            _ => default@[j],
                        }),
                decreases a.len() - i,
            {
                let d = match &a[i] {
                    SpValue::Float64(Some(d)) => *d,
                    _ => {
                        assert(i < 6) by {
                            if i >= 6 {
                                assert(a@[i as int]@ matches SpView::Float64(Some(_)));
                            }
                        }
                        default[i]
                    },
                };
                r.push(d);
                i = i + 1;
            }
            assert(r@ =~= six_at(state@, array_key@, default@));
            r
        },
        _ => copy_doubles(default),
    }
}

/// The parameters of a motion, as a request gives them.
#[derive(Debug)]
pub struct MotionRequest {
    pub command_type: String,
    pub acceleration: Double,
    pub velocity: Double,
    pub global_acceleration_scaling: Double,
    pub global_velocity_scaling: Double,
    pub use_execution_time: bool,
    pub execution_time: Double,
    pub use_blend_radius: bool,
    pub blend_radius: Double,
    pub use_joint_positions: bool,
    pub joint_positions: Vec<Double>,
    pub use_preferred_joint_config: bool,
    pub preferred_joint_config: Vec<Double>,
    pub use_payload: bool,
    pub payload: String,
    pub baseframe_id: String,
    pub faceplate_id: String,
    pub goal_feature_id: String,
    pub tcp_id: String,
    pub force_threshold: Double,
    pub use_relative_pose: bool,
    pub relative_pose: Vec<Double>,
    pub report_waypoint_progress: bool,
    pub trajectory_id: String,
    /// `None` where the waypoints of the request do not decode.
    pub waypoints: Option<Vec<WaypointRaw>>,
}

/// What a [`MotionRequest`] says.
#[verifier::ext_equal]
pub struct MotionRequestView {
    pub command_type: Seq<char>,
    pub acceleration: Double,
    pub velocity: Double,
    pub global_acceleration_scaling: Double,
    pub global_velocity_scaling: Double,
    pub use_execution_time: bool,
    pub execution_time: Double,
    pub use_blend_radius: bool,
    pub blend_radius: Double,
    pub use_joint_positions: bool,
    pub joint_positions: Seq<Double>,
    pub use_preferred_joint_config: bool,
    pub preferred_joint_config: Seq<Double>,
    pub use_payload: bool,
    pub payload: Seq<char>,
    pub baseframe_id: Seq<char>,
    pub faceplate_id: Seq<char>,
    pub goal_feature_id: Seq<char>,
    pub tcp_id: Seq<char>,
    pub force_threshold: Double,
    pub use_relative_pose: bool,
    pub relative_pose: Seq<Double>,
    pub report_waypoint_progress: bool,
    pub trajectory_id: Seq<char>,
    pub waypoints: Option<Seq<WaypointRawView>>,
}

impl View for MotionRequest {
    type V = MotionRequestView;

    open spec fn view(&self) -> MotionRequestView {
        MotionRequestView {
            command_type: self.command_type@,
            acceleration: self.acceleration,
            velocity: self.velocity,
            global_acceleration_scaling: self.global_acceleration_scaling,
            global_velocity_scaling: self.global_velocity_scaling,
            use_execution_time: self.use_execution_time,
            execution_time: self.execution_time,
            use_blend_radius: self.use_blend_radius,
            blend_radius: self.blend_radius,
            use_joint_positions: self.use_joint_positions,
            joint_positions: self.joint_positions@,
            use_preferred_joint_config: self.use_preferred_joint_config,
            preferred_joint_config: self.preferred_joint_config@,
            use_payload: self.use_payload,
            payload: self.payload@,
            baseframe_id: self.baseframe_id@,
            faceplate_id: self.faceplate_id@,
            goal_feature_id: self.goal_feature_id@,
            tcp_id: self.tcp_id@,
            force_threshold: self.force_threshold,
            use_relative_pose: self.use_relative_pose,
            relative_pose: self.relative_pose@,
            report_waypoint_progress: self.report_waypoint_progress,
            trajectory_id: self.trajectory_id@,
            waypoints: match self.waypoints {
                Some(w) => Some(w@.map_values(|x: WaypointRaw| x@)),
                None => None,
            },
        }
    }
}

/// The waypoints of a request: none where nothing was written, and `None` where what was
/// written does not decode.
pub open spec fn request_waypoints(robot: Seq<char>, state: Map<Seq<char>, SpView>) -> Option<
    Seq<WaypointRawView>,
> {
    match state[key_of(robot, "waypoints"@)] {
        SpView::Array(None) => Some(Seq::empty()),
        value => waypoints_in(Some(value)),
    }
}

/// The parameters that a request gives.
pub open spec fn parameters(robot: Seq<char>, state: Map<Seq<char>, SpView>) -> MotionRequestView {
    MotionRequestView {
        command_type: text_at(state, key_of(robot, "command_type"@), "UNKNOWN"@),
        acceleration: double_at(state, key_of(robot, "acceleration"@)),
        velocity: double_at(state, key_of(robot, "velocity"@)),
        global_acceleration_scaling: double_at(state, key_of(robot, "global_acceleration_scaling"@)),
        global_velocity_scaling: double_at(state, key_of(robot, "global_velocity_scaling"@)),
        use_execution_time: bool_at(state, key_of(robot, "use_execution_time"@), false),
        execution_time: double_at(state, key_of(robot, "execution_time"@)),
        use_blend_radius: bool_at(state, key_of(robot, "use_blend_radius"@), false),
        blend_radius: double_at(state, key_of(robot, "blend_radius"@)),
        use_joint_positions: bool_at(state, key_of(robot, "use_joint_positions"@), false),
        joint_positions: six_at(state, key_of(robot, "joint_positions"@), safe_home()),
        use_preferred_joint_config: bool_at(state, key_of(robot, "use_preferred_joint_config"@), false),
        preferred_joint_config: six_at(state, key_of(robot, "preferred_joint_config"@), safe_home()),
        use_payload: bool_at(state, key_of(robot, "use_payload"@), false),
        payload: text_at(state, key_of(robot, "payload"@), DEFAULT_PAYLOAD@),
        baseframe_id: text_at(state, key_of(robot, "baseframe_id"@), DEFAULT_BASEFRAME_ID@),
        faceplate_id: text_at(state, key_of(robot, "faceplate_id"@), DEFAULT_FACEPLATE_ID@),
        goal_feature_id: text_at(state, key_of(robot, "goal_feature_id"@), "UNKNOWN"@),
        tcp_id: text_at(state, key_of(robot, "tcp_id"@), "UNKNOWN"@),
        force_threshold: double_at(state, key_of(robot, "force_threshold"@)),
        use_relative_pose: bool_at(state, key_of(robot, "use_relative_pose"@), false),
        relative_pose: six_at(state, key_of(robot, "relative_pose"@), no_offset()),
        report_waypoint_progress: bool_at(state, key_of(robot, "report_waypoint_progress"@), true),
        trajectory_id: text_at(state, key_of(robot, "trajectory_id"@), ""@),
        waypoints: request_waypoints(robot, state),
    }
}

/// The command type that a request names.
pub open spec fn command_type_in(robot: Seq<char>, state: Map<Seq<char>, SpView>) -> Seq<char> {
    text_at(state, key_of(robot, "command_type"@), "UNKNOWN"@)
}

/// The command type that a request names.
pub fn command_type_of(robot: &str, state: &State) -> (r: String)
    ensures
        r@ == command_type_in(robot@, state@),
{
    state_string_or(state, key(robot, "command_type").as_str(), "UNKNOWN")
}

/// Why a request cannot be read; `None` where it can. `known` says whether its command type
/// names a template.
pub open spec fn unreadable_reason(
    robot: Seq<char>,
    state: Map<Seq<char>, SpView>,
    known: bool,
) -> Option<Seq<char>> {
    let missing = unreadable(robot, state, request_keys_of(robot));
    if missing.len() > 0 {
        Some("missing or unreadable request keys: "@ + joined(missing, ", "@))
    } else if !known {
        Some("unknown command_type '"@ + command_type_in(robot, state) + "'"@)
    } else {
        None
    }
}

/// Read the parameters of a request, or say why it cannot be read.
///
/// Checking the whole key set once turns a malformed request parameter into a failed request,
/// and reports every bad key at once rather than the first one.
pub fn read_request(robot: &str, state: &State, known: bool) -> (r: Result<MotionRequest, String>)
    ensures
        match r {
            Ok(request) => unreadable_reason(robot@, state@, known) is None && request@
                == parameters(robot@, state@),
            Err(reason) => unreadable_reason(robot@, state@, known) == Some(reason@),
        },
{
    let missing = unreadable_keys(robot, state);
    assert(views(missing@).len() == missing@.len());
    if missing.len() > 0 {
        return Err(join2("missing or unreadable request keys: ", join(&missing, ", ").as_str()));
    }
    if !known {
        return Err(
            join3("unknown command_type '", command_type_of(robot, state).as_str(), "'"),
        );
    }
    proof {
        lemma_all_readable(robot@, state@, request_keys_of(robot@));
        lemma_request_key(robot@, 15, "joint_positions"@);
        lemma_request_key(robot@, 17, "preferred_joint_config"@);
        lemma_request_key(robot@, 27, "relative_pose"@);
        lemma_request_key(robot@, 30, "waypoints"@);
    }
    let waypoints = match state.get(key(robot, "waypoints").as_str()) {
        Some(SpValue::Array(None)) => {
            let none: Vec<WaypointRaw> = Vec::new();
            assert(none@.map_values(|x: WaypointRaw| x@) =~= Seq::empty());
            Some(none)
        },
        value => WaypointRaw::vec_from_sp_value(value),
    };
    Ok(
        MotionRequest {
        command_type: state_string_or(state, key(robot, "command_type").as_str(), "UNKNOWN"),
        acceleration: state_double_or_zero(state, key(robot, "acceleration").as_str()),
        velocity: state_double_or_zero(state, key(robot, "velocity").as_str()),
        global_acceleration_scaling: state_double_or_zero(state, key(robot, "global_acceleration_scaling").as_str()),
        global_velocity_scaling: state_double_or_zero(state, key(robot, "global_velocity_scaling").as_str()),
        use_execution_time: state_bool_or(state, key(robot, "use_execution_time").as_str(), false),
        execution_time: state_double_or_zero(state, key(robot, "execution_time").as_str()),
        use_blend_radius: state_bool_or(state, key(robot, "use_blend_radius").as_str(), false),
        blend_radius: state_double_or_zero(state, key(robot, "blend_radius").as_str()),
        use_joint_positions: state_bool_or(state, key(robot, "use_joint_positions").as_str(), false),
        joint_positions: read_six(state, key(robot, "joint_positions").as_str(), &safe_home_values()),
        use_preferred_joint_config: state_bool_or(state, key(robot, "use_preferred_joint_config").as_str(), false),
        preferred_joint_config: read_six(state, key(robot, "preferred_joint_config").as_str(), &safe_home_values()),
        use_payload: state_bool_or(state, key(robot, "use_payload").as_str(), false),
        payload: state_string_or(state, key(robot, "payload").as_str(), DEFAULT_PAYLOAD),
        baseframe_id: state_string_or(state, key(robot, "baseframe_id").as_str(), DEFAULT_BASEFRAME_ID),
        faceplate_id: state_string_or(state, key(robot, "faceplate_id").as_str(), DEFAULT_FACEPLATE_ID),
        goal_feature_id: state_string_or(state, key(robot, "goal_feature_id").as_str(), "UNKNOWN"),
        tcp_id: state_string_or(state, key(robot, "tcp_id").as_str(), "UNKNOWN"),
        force_threshold: state_double_or_zero(state, key(robot, "force_threshold").as_str()),
        use_relative_pose: state_bool_or(state, key(robot, "use_relative_pose").as_str(), false),
        relative_pose: read_six(state, key(robot, "relative_pose").as_str(), &no_offset_values()),
        report_waypoint_progress: state_bool_or(state, key(robot, "report_waypoint_progress").as_str(), true),
        trajectory_id: state_string_or(state, key(robot, "trajectory_id").as_str(), ""),
        waypoints,
        },
    )
}

/// Read the parameters of a request whose command type has to name one of `templates`.
pub fn read_request_for(robot: &str, state: &State, templates: &tera::Tera) -> (r: Result<
    MotionRequest,
    String,
>)
    ensures
        ({
            let known = template_names(*templates).contains(
                template_file(command_type_in(robot@, state@)),
            );
            match r {
                Ok(request) => unreadable_reason(robot@, state@, known) is None && request@
                    == parameters(robot@, state@),
                Err(reason) => unreadable_reason(robot@, state@, known) == Some(reason@),
            }
        }),
{
    let known = has_template(templates, command_type_of(robot, state).as_str());
    read_request(robot, state, known)
}

proof fn lemma_all_readable(robot: Seq<char>, state: Map<Seq<char>, SpView>, keys: Seq<Seq<char>>)
    requires
        unreadable(robot, state, keys).len() == 0,
    ensures
        forall|i: int| 0 <= i < keys.len() ==> readable(robot, state, #[trigger] keys[i]),
    decreases keys.len(),
{
    if keys.len() > 0 {
        lemma_all_readable(robot, state, keys.drop_last());
        assert forall|i: int| 0 <= i < keys.len() implies readable(
            robot,
            state,
            #[trigger] keys[i],
        ) by {
            if i < keys.len() - 1 {
                assert(keys.drop_last()[i] == keys[i]);
            }
        }
    }
}

proof fn lemma_request_key(robot: Seq<char>, i: int, suffix: Seq<char>)
    requires
        0 <= i < request_suffixes().len(),
        request_suffixes()[i] == suffix,
    ensures
        request_keys_of(robot)[i] == key_of(robot, suffix),
        request_keys_of(robot).len() == request_suffixes().len(),
{
}

/// A transform to look up.
#[derive(Debug)]
pub struct Lookup {
    pub parent: String,
    pub child: String,
    /// Whether `child` is the goal frame of a waypoint.
    pub of_waypoint: bool,
}

impl View for Lookup {
    type V = (Seq<char>, Seq<char>, bool);

    open spec fn view(&self) -> (Seq<char>, Seq<char>, bool) {
        (self.parent@, self.child@, self.of_waypoint)
    }
}

/// What a list of lookups asks for.
pub open spec fn asked_lookups(lookups: Seq<Lookup>) -> Seq<(Seq<char>, Seq<char>, bool)> {
    lookups.map_values(|l: Lookup| l@)
}

/// Whether the target of a request is a frame that has to be looked up.
pub open spec fn wants_target(request: MotionRequestView) -> bool {
    &&& !request.use_joint_positions
    &&& request.command_type != "trajectory_unsafe_move_j"@
    &&& !request.use_relative_pose
    &&& request.command_type != "lock_rsp"@
    &&& request.command_type != "unlock_rsp"@
}

/// Whether the target of a waypoint is a frame that has to be looked up.
pub open spec fn wants_lookup(raw: WaypointRawView) -> bool {
    !raw.use_joint_positions && !raw.use_relative_pose
}

/// The lookups for the target of a request: the target in the base frame, and the TCP in the
/// faceplate.
pub open spec fn target_lookups(request: MotionRequestView) -> Seq<(Seq<char>, Seq<char>, bool)> {
    if wants_target(request) {
        seq![
            (request.baseframe_id, request.goal_feature_id, false),
            (request.faceplate_id, request.tcp_id, false),
        ]
    } else {
        Seq::empty()
    }
}

/// The lookups for the first `n` waypoints, two for each that wants them.
pub open spec fn waypoint_lookups(
    request: MotionRequestView,
    raw: Seq<WaypointRawView>,
    n: nat,
) -> Seq<(Seq<char>, Seq<char>, bool)>
    decreases n,
{
    if n == 0 {
        Seq::empty()
    } else {
        let before = waypoint_lookups(request, raw, (n - 1) as nat);
        if wants_lookup(raw[n - 1]) {
            before.push((request.baseframe_id, raw[n - 1].goal_feature_id, true)).push(
                (request.faceplate_id, request.tcp_id, false),
            )
        } else {
            before
        }
    }
}

/// Every lookup that a request needs, in the order they are made.
pub open spec fn lookups_of(request: MotionRequestView) -> Seq<(Seq<char>, Seq<char>, bool)> {
    match request.waypoints {
        Some(raw) => target_lookups(request) + waypoint_lookups(request, raw, raw.len()),
        None => target_lookups(request),
    }
}

/// Every lookup that a request needs, in the order they are made. The first that fails ends
/// the request.
pub fn transform_lookups(request: &MotionRequest) -> (r: Vec<Lookup>)
    ensures
        asked_lookups(r@) == lookups_of(request@),
{
    let mut r: Vec<Lookup> = Vec::new();
    if wants_target_lookup(request) {
        r.push(
            Lookup {
                parent: request.baseframe_id.clone(),
                child: request.goal_feature_id.clone(),
                of_waypoint: false,
            },
        );
        r.push(
            Lookup {
                parent: request.faceplate_id.clone(),
                child: request.tcp_id.clone(),
                of_waypoint: false,
            },
        );
    }
    assert(asked_lookups(r@) =~= target_lookups(request@));
    match &request.waypoints {
        None => {},
        Some(raw) => {
            let all = Ghost(raw@.map_values(|x: WaypointRaw| x@));
            let head = Ghost(asked_lookups(r@));
            let mut i: usize = 0;
            assert(asked_lookups(r@) =~= head@ + waypoint_lookups(request@, all@, 0));
            while i < raw.len()
                invariant
                    i <= raw.len(),
                    all@ == raw@.map_values(|x: WaypointRaw| x@),
                    asked_lookups(r@) == head@ + waypoint_lookups(request@, all@, i as nat),
                decreases raw.len() - i,
            {
                let before = Ghost(asked_lookups(r@));
                assert(all@[i as int] == raw@[i as int]@);
                if !raw[i].use_joint_positions && !raw[i].use_relative_pose {
                    r.push(
                        Lookup {
                            parent: request.baseframe_id.clone(),
                            child: raw[i].goal_feature_id.clone(),
                            of_waypoint: true,
                        },
                    );
                    r.push(
                        Lookup {
                            parent: request.faceplate_id.clone(),
                            child: request.tcp_id.clone(),
                            of_waypoint: false,
                        },
                    );
                    assert(asked_lookups(r@) =~= before@.push(
                        (request@.baseframe_id, all@[i as int].goal_feature_id, true),
                    ).push((request@.faceplate_id, request@.tcp_id, false)));
                }
                i = i + 1;
                assert(waypoint_lookups(request@, all@, i as nat) == (if wants_lookup(
                    all@[i - 1],
                ) {
                    waypoint_lookups(request@, all@, (i - 1) as nat).push(
                        (request@.baseframe_id, all@[i - 1].goal_feature_id, true),
                    ).push((request@.faceplate_id, request@.tcp_id, false))
                } else {
                    waypoint_lookups(request@, all@, (i - 1) as nat)
                }));
                assert(asked_lookups(r@) =~= head@ + waypoint_lookups(request@, all@, i as nat));
            }
        },
    }
    r
}

fn wants_target_lookup(request: &MotionRequest) -> (r: bool)
    ensures
        r == wants_target(request@),
{
    let kind = request.command_type.as_str();
    !request.use_joint_positions && !same(kind, "trajectory_unsafe_move_j")
        && !request.use_relative_pose && !same(kind, "lock_rsp") && !same(kind, "unlock_rsp")
}

/// How many of the first `n` waypoints want a lookup.
pub open spec fn wanting(raw: Seq<WaypointRawView>, n: nat) -> nat
    decreases n,
{
    if n == 0 {
        0
    } else {
        wanting(raw, (n - 1) as nat) + if wants_lookup(raw[n - 1]) {
            1nat
        } else {
            0nat
        }
    }
}

/// The target of waypoint `i`: what its lookup gave, or the identity pose where it has none.
pub open spec fn waypoint_target(
    raw: Seq<WaypointRawView>,
    answers: Seq<Seq<char>>,
    first: nat,
    i: nat,
) -> Seq<char> {
    if wants_lookup(raw[i as int]) {
        answers[(first + 2 * wanting(raw, i)) as int]
    } else {
        IDENTITY_POSE@
    }
}

/// The TCP after the first `n` waypoints: what the last lookup gave.
pub open spec fn waypoint_tcp(
    raw: Seq<WaypointRawView>,
    answers: Seq<Seq<char>>,
    first: nat,
    tcp: Seq<char>,
    n: nat,
) -> Seq<char>
    decreases n,
{
    if n == 0 {
        tcp
    } else if wants_lookup(raw[n - 1]) {
        answers[(first + 2 * wanting(raw, (n - 1) as nat) + 1) as int]
    } else {
        waypoint_tcp(raw, answers, first, tcp, (n - 1) as nat)
    }
}

/// A waypoint with its target and its TCP.
pub open spec fn placed(raw: WaypointRawView, target: Seq<char>, tcp: Seq<char>) -> WaypointView {
    WaypointView {
        acceleration: raw.acceleration,
        velocity: raw.velocity,
        global_acceleration_scaling: raw.global_acceleration_scaling,
        global_velocity_scaling: raw.global_velocity_scaling,
        use_execution_time: raw.use_execution_time,
        execution_time: raw.execution_time,
        use_blend_radius: raw.use_blend_radius,
        blend_radius: raw.blend_radius,
        use_joint_positions: raw.use_joint_positions,
        joint_positions: raw.joint_positions,
        use_preferred_joint_config: raw.use_preferred_joint_config,
        preferred_joint_config: raw.preferred_joint_config,
        use_payload: raw.use_payload,
        payload: raw.payload,
        relative_pose: raw.relative_pose,
        force_threshold: raw.force_threshold,
        use_linear_motion: raw.use_linear_motion,
        target_in_base: target,
        tcp_in_faceplate: tcp,
    }
}

/// How many of the answers belong to the target of the request.
pub open spec fn target_answers(request: MotionRequestView) -> nat {
    target_lookups(request).len()
}

/// The TCP that the target of the request is reached with.
pub open spec fn target_tcp(request: MotionRequestView, answers: Seq<Seq<char>>) -> Seq<char> {
    if wants_target(request) {
        answers[1]
    } else {
        IDENTITY_POSE@
    }
}

/// The command of a request whose lookups gave `answers`.
pub open spec fn command_of(
    request: MotionRequestView,
    raw: Seq<WaypointRawView>,
    answers: Seq<Seq<char>>,
) -> RobotCommandView {
    let first = target_answers(request);
    let tcp = target_tcp(request, answers);
    RobotCommandView {
        command_type: request.command_type,
        acceleration: request.acceleration,
        velocity: request.velocity,
        global_acceleration_scaling: request.global_acceleration_scaling,
        global_velocity_scaling: request.global_velocity_scaling,
        use_execution_time: request.use_execution_time,
        execution_time: request.execution_time,
        use_blend_radius: request.use_blend_radius,
        blend_radius: request.blend_radius,
        use_joint_positions: request.use_joint_positions,
        joint_positions: request.joint_positions,
        use_preferred_joint_config: request.use_preferred_joint_config,
        preferred_joint_config: request.preferred_joint_config,
        use_payload: request.use_payload,
        payload: request.payload,
        force_threshold: request.force_threshold,
        relative_pose: request.relative_pose,
        report_waypoint_progress: request.report_waypoint_progress,
        trajectory_id: request.trajectory_id,
        target_in_base: if wants_target(request) {
            answers[0]
        } else {
            IDENTITY_POSE@
        },
        tcp_in_faceplate: waypoint_tcp(raw, answers, first, tcp, raw.len()),
        waypoints: Seq::new(
            raw.len(),
            |i: int|
                placed(
                    raw[i],
                    waypoint_target(raw, answers, first, i as nat),
                    waypoint_tcp(raw, answers, first, tcp, (i + 1) as nat),
                ),
        ),
    }
}

/// What a failed lookup is reported as.
pub open spec fn lookup_failure(lookup: (Seq<char>, Seq<char>, bool)) -> Seq<char> {
    if lookup.2 {
        "no transform from '"@ + lookup.0 + "' to waypoint frame '"@ + lookup.1 + "'"@
    } else {
        "no transform from '"@ + lookup.0 + "' to '"@ + lookup.1 + "'"@
    }
}

/// The reason under which a request fails where `lookup` has no answer.
pub fn lookup_failure_text(lookup: &Lookup) -> (r: String)
    ensures
        r@ == lookup_failure(lookup@),
{
    let mut r = join2("no transform from '", lookup.parent.as_str());
    if lookup.of_waypoint {
        r.append("' to waypoint frame '");
    } else {
        r.append("' to '");
    }
    r.append(lookup.child.as_str());
    r.append("'");
    r
}

/// Build the command of a request out of what its lookups gave: one pose literal for each of
/// [`transform_lookups`], in that order.
///
/// A blended trajectory with a waypoint missing is a different path, not a shorter one, so
/// waypoints that do not decode fail the whole request.
pub fn assemble(request: &MotionRequest, answers: &Vec<String>) -> (r: Result<RobotCommand, String>)
    requires
        answers.len() == lookups_of(request@).len(),
    ensures
        match (r, request@.waypoints) {
            (Ok(command), Some(raw)) => command@ == command_of(request@, raw, views(answers@)),
            (Err(reason), None) => reason@ == "one or more waypoints failed to decode"@,
            _ => false,
        },
{
    let raw = match &request.waypoints {
        None => {
            return Err("one or more waypoints failed to decode".to_owned());
        },
        Some(raw) => raw,
    };
    let all = Ghost(raw@.map_values(|x: WaypointRaw| x@));
    let given = Ghost(views(answers@));
    let first = Ghost(target_answers(request@));
    let start_tcp = Ghost(target_tcp(request@, given@));
    let wants = wants_target_lookup(request);
    let mut target = IDENTITY_POSE.to_owned();
    let mut tcp = IDENTITY_POSE.to_owned();
    let mut at: usize = 0;
    proof {
        lemma_lookup_count(request@, all@, all@.len());
        assert(given@.len() == answers@.len());
    }
    if wants {
        assert(given@[0] == answers@[0]@ && given@[1] == answers@[1]@);
        target = answers[0].clone();
        tcp = answers[1].clone();
        at = 2;
    }
    let mut waypoints: Vec<Waypoint> = Vec::new();
    let mut i: usize = 0;
    while i < raw.len()
        invariant
            i <= raw.len(),
            all@ == raw@.map_values(|x: WaypointRaw| x@),
            given@ == views(answers@),
            first@ + 2 * wanting(all@, all@.len()) == answers.len(),
            at == first@ + 2 * wanting(all@, i as nat),
            tcp@ == waypoint_tcp(all@, given@, first@, start_tcp@, i as nat),
            waypoints.len() == i,
            forall|j: int|
                0 <= j < i ==> (#[trigger] waypoints@[j])@ == placed(
                    all@[j],
                    waypoint_target(all@, given@, first@, j as nat),
                    waypoint_tcp(all@, given@, first@, start_tcp@, (j + 1) as nat),
                ),
        decreases raw.len() - i,
    {
        assert(all@[i as int] == raw@[i as int]@);
        proof {
            lemma_wanting_grows(all@, (i + 1) as nat, all@.len());
        }
        let mut wp_target = IDENTITY_POSE.to_owned();
        if !raw[i].use_joint_positions && !raw[i].use_relative_pose {
            assert(given@[at as int] == answers@[at as int]@);
            assert(given@[at + 1] == answers@[at + 1]@);
            wp_target = answers[at].clone();
            tcp = answers[at + 1].clone();
            at = at + 2;
        }
        waypoints.push(place(&raw[i], wp_target, tcp.clone()));
        i = i + 1;
    }
    let command = RobotCommand {
            command_type: request.command_type.clone(),
            acceleration: request.acceleration,
            velocity: request.velocity,
            global_acceleration_scaling: request.global_acceleration_scaling,
            global_velocity_scaling: request.global_velocity_scaling,
            use_execution_time: request.use_execution_time,
            execution_time: request.execution_time,
            use_blend_radius: request.use_blend_radius,
            blend_radius: request.blend_radius,
            use_joint_positions: request.use_joint_positions,
            joint_positions: copy_doubles(&request.joint_positions),
            use_preferred_joint_config: request.use_preferred_joint_config,
            preferred_joint_config: copy_doubles(&request.preferred_joint_config),
            use_payload: request.use_payload,
            payload: request.payload.clone(),
            force_threshold: request.force_threshold,
            relative_pose: copy_doubles(&request.relative_pose),
            report_waypoint_progress: request.report_waypoint_progress,
            trajectory_id: request.trajectory_id.clone(),
            target_in_base: target,
            tcp_in_faceplate: tcp,
            waypoints,
    };
    assert(command@.waypoints =~= command_of(request@, all@, given@).waypoints);
    assert(command@ =~= command_of(request@, all@, given@));
    Ok(command)
}

fn place(raw: &WaypointRaw, target: String, tcp: String) -> (r: Waypoint)
    ensures
        r@ == placed(raw@, target@, tcp@),
{
    Waypoint {
        acceleration: raw.acceleration,
        velocity: raw.velocity,
        global_acceleration_scaling: raw.global_acceleration_scaling,
        global_velocity_scaling: raw.global_velocity_scaling,
        use_execution_time: raw.use_execution_time,
        execution_time: raw.execution_time,
        use_blend_radius: raw.use_blend_radius,
        blend_radius: raw.blend_radius,
        use_joint_positions: raw.use_joint_positions,
        joint_positions: copy_doubles(&raw.joint_positions),
        use_preferred_joint_config: raw.use_preferred_joint_config,
        preferred_joint_config: copy_doubles(&raw.preferred_joint_config),
        use_payload: raw.use_payload,
        payload: raw.payload.clone(),
        relative_pose: copy_doubles(&raw.relative_pose),
        force_threshold: raw.force_threshold,
        use_linear_motion: raw.use_linear_motion,
        target_in_base: target,
        tcp_in_faceplate: tcp,
    }
}

proof fn lemma_lookup_count(request: MotionRequestView, raw: Seq<WaypointRawView>, n: nat)
    ensures
        waypoint_lookups(request, raw, n).len() == 2 * wanting(raw, n),
    decreases n,
{
    if n > 0 {
        lemma_lookup_count(request, raw, (n - 1) as nat);
    }
}

proof fn lemma_wanting_grows(raw: Seq<WaypointRawView>, m: nat, n: nat)
    requires
        m <= n,
    ensures
        wanting(raw, m) <= wanting(raw, n),
    decreases n,
{
    if m < n {
        lemma_wanting_grows(raw, m, (n - 1) as nat);
    }
}

/// Why a goal is not admitted; `None` where it is. `has_address` says whether the driver knows
/// an address that the robot can dial back to.
pub open spec fn rejection_of<G, F, S>(driver: DriverState<G, F, S>, has_address: bool) -> Option<
    Seq<char>,
> {
    if !has_address || !driver.connected {
        Some("not connected to the robot"@)
    } else if driver.motion_paused {
        Some("motion is paused"@)
    } else if !SafetyMode::encoded(driver.safety_mode).admits() {
        Some("robot safety mode is "@ + SafetyMode::encoded(driver.safety_mode).name())
    } else if driver.is_busy() {
        Some("a goal is already running"@)
    } else {
        None
    }
}

/// Admission control: why a goal cannot start now.
pub fn rejection<G, F, S>(driver: &DriverState<G, F, S>, has_address: bool) -> (r: Option<String>)
    ensures
        match r {
            Some(reason) => rejection_of(*driver, has_address) == Some(reason@),
            None => rejection_of(*driver, has_address) is None,
        },
{
    if !has_address || !driver.connected {
        Some("not connected to the robot".to_owned())
    } else if driver.motion_paused {
        // An operator has deliberately held the robot. Starting a new move into that hold
        // would be a surprise, and `resume` would then resume the wrong goal.
        Some("motion is paused".to_owned())
    } else if !safety_mode_accepts_goal(driver.safety_mode) {
        Some(join2("robot safety mode is ", safety_mode_name(driver.safety_mode)))
    } else if driver.goal_id.is_some() || driver.reissuing {
        // `reissuing` covers the gap between a paused script being killed and its
        // replacement being accepted, during which `goal_id` is momentarily clear but the
        // goal is very much still live.
        Some("a goal is already running".to_owned())
    } else {
        None
    }
}

/// What taking in a goal makes of the driver state, and what it tells the caller.
pub open spec fn accepts<G, F, S>(
    robot: Seq<char>,
    before: DriverState<G, F, S>,
    command: RobotCommand,
    cancel_sender: S,
    resume_sender: S,
    r: Write,
    after: DriverState<G, F, S>,
) -> bool {
    &&& r@ == (key_of(robot, "request_state"@), SpView::Text(Some("executing"@)))
    &&& after.cancel_sender == Some(cancel_sender)
    &&& after.resume_sender == Some(resume_sender)
    &&& after.active_command matches Some(c) && c@ == command@
    &&& after.waypoints_completed == 0
    &&& after == (DriverState {
        cancel_sender: after.cancel_sender,
        resume_sender: after.resume_sender,
        active_command: after.active_command,
        waypoints_completed: after.waypoints_completed,
        ..before
    })
}

/// Take in an admitted goal: keep what it can be cancelled and resumed by, and the command
/// behind it. The write tells the caller that the request executes.
pub fn accept<G, F, S>(
    robot: &str,
    driver: &mut DriverState<G, F, S>,
    command: &RobotCommand,
    cancel_sender: S,
    resume_sender: S,
) -> (r: Write)
    ensures
        accepts(robot@, *old(driver), *command, cancel_sender, resume_sender, r, *final(driver)),
{
    driver.cancel_sender = Some(cancel_sender);
    driver.resume_sender = Some(resume_sender);
    driver.active_command = Some(command.copy());
    driver.waypoints_completed = 0;
    Write { key: key(robot, "request_state"), value: SpValue::text("executing") }
}

/// The two failure counters, total first, as [`failure_counters`] reads them.
pub fn counter_keys(robot: &str) -> (r: Vec<String>)
    ensures
        views(r@) == seq![
            key_of(robot@, "total_fail_counter"@),
            key_of(robot@, "subsequent_fail_counter"@),
        ],
{
    let mut r: Vec<String> = Vec::new();
    r.push(key(robot, "total_fail_counter"));
    r.push(key(robot, "subsequent_fail_counter"));
    assert(views(r@) =~= seq![
        key_of(robot@, "total_fail_counter"@),
        key_of(robot@, "subsequent_fail_counter"@),
    ]);
    r
}

/// Whether those are the two failure counters, total first.
pub open spec fn are_counters(
    robot: Seq<char>,
    counters: Map<Seq<char>, SpView>,
    r: (i64, i64),
) -> bool {
    &&& r.0 == int_at(counters, key_of(robot, "total_fail_counter"@), 0)
    &&& r.1 == int_at(counters, key_of(robot, "subsequent_fail_counter"@), 0)
}

/// Read the two failure counters, total first. One that cannot be read counts as 0.
pub fn failure_counters(robot: &str, counters: &State) -> (r: (i64, i64))
    ensures
        are_counters(robot@, counters@, r),
{
    (
        state_int_or(counters, key(robot, "total_fail_counter").as_str(), 0),
        state_int_or(counters, key(robot, "subsequent_fail_counter").as_str(), 0),
    )
}

/// The result of a request, and its state where it failed. A success leaves the state to the
/// caller.
pub open spec fn result_writes(robot: Seq<char>, result: Seq<char>, success: bool) -> Seq<
    (Seq<char>, SpView),
> {
    let said: Seq<(Seq<char>, SpView)> = seq![
        (key_of(robot, "request_result"@), SpView::Text(Some(result))),
    ];
    if success {
        said
    } else {
        said.push((key_of(robot, "request_state"@), SpView::Text(Some("failed"@))))
    }
}

/// What a failed request writes: both counters, where they could be read, then the reason and
/// the terminal state.
pub open spec fn failure_writes(
    robot: Seq<char>,
    reason: Seq<char>,
    counters: Option<(i64, i64)>,
) -> Seq<(Seq<char>, SpView)> {
    let counted: Seq<(Seq<char>, SpView)> = match counters {
        Some((total, subsequent)) => seq![
            (
                key_of(robot, "total_fail_counter"@),
                SpView::Int64(Some((total + 1) as i64)),
            ),
            (
                key_of(robot, "subsequent_fail_counter"@),
                SpView::Int64(Some((subsequent + 1) as i64)),
            ),
        ],
        None => Seq::empty(),
    };
    counted + result_writes(robot, reason, false)
}

/// Publish the outcome of a request.
///
/// Only a failure writes `request_state`: on the success path that is the caller's to write.
pub fn publish_script_result(robot: &str, result: &str, success: bool) -> (r: Vec<Write>)
    ensures
        written(r@) == result_writes(robot@, result@, success),
{
    let mut r: Vec<Write> = Vec::new();
    r.push(Write { key: key(robot, "request_result"), value: SpValue::text(result) });
    if !success {
        r.push(Write { key: key(robot, "request_state"), value: SpValue::text("failed") });
    }
    assert(written(r@) =~= result_writes(robot@, result@, success));
    r
}

/// Terminate a request that did not succeed. `counters` are the failure counters, total
/// first, where they could be read.
///
/// The request's trigger has been consumed by then, so without this the caller is left
/// watching a `request_state` that will never leave `initial`.
pub fn fail_request(robot: &str, reason: &str, counters: Option<(i64, i64)>) -> (r: Vec<Write>)
    requires
        counters matches Some((total, subsequent)) ==> total < i64::MAX && subsequent < i64::MAX,
    ensures
        written(r@) == failure_writes(robot@, reason@, counters),
{
    let mut r: Vec<Write> = Vec::new();
    if let Some((total, subsequent)) = counters {
        r.push(
            Write {
                key: key(robot, "total_fail_counter"),
                value: SpValue::Int64(Some(total + 1)),
            },
        );
        r.push(
            Write {
                key: key(robot, "subsequent_fail_counter"),
                value: SpValue::Int64(Some(subsequent + 1)),
            },
        );
    }
    r.push(Write { key: key(robot, "request_result"), value: SpValue::text(reason) });
    r.push(Write { key: key(robot, "request_state"), value: SpValue::text("failed") });
    assert(written(r@) =~= failure_writes(robot@, reason@, counters));
    r
}

/// Whether a write publishes a feedback line.
pub open spec fn is_feedback(robot: Seq<char>, feedback: Seq<char>, r: Write) -> bool {
    r@ == (key_of(robot, "request_feedback"@), SpView::Text(Some(feedback)))
}

/// Publish a feedback line emitted by the running script.
pub fn publish_script_feedback(robot: &str, feedback: &str) -> (r: Write)
    ensures
        is_feedback(robot@, feedback@, r),
{
    Write { key: key(robot, "request_feedback"), value: SpValue::text(feedback) }
}

/// `nanoid::format`, with the random source of that crate, spells an identifier of `size`
/// characters, each out of `alphabet`. Which ones is left to chance.
#[verifier::external_body]
fn draw(alphabet: &Vec<char>, size: usize) -> (r: String)
    requires
        0 < alphabet.len() <= 255,
        forall|i: int| 0 <= i < alphabet@.len() ==> (#[trigger] alphabet@[i] as u32) < 128,
        0 < size,
        8 * size <= usize::MAX,
    ensures
        r@.len() == size,
        forall|i: int| 0 <= i < r@.len() ==> alphabet@.contains(#[trigger] r@[i]),
{
    nanoid::format(nanoid::rngs::default, alphabet.as_slice(), size)
}

/// Whether goal ids can be drawn from an alphabet: ASCII characters, at least one and at most
/// 255 of them.
pub fn is_id_alphabet(alphabet: &Vec<char>) -> (r: bool)
    ensures
        r == (0 < alphabet.len() <= 255 && forall|i: int|
            0 <= i < alphabet@.len() ==> (#[trigger] alphabet@[i] as u32) < 128),
{
    if alphabet.len() == 0 || alphabet.len() > 255 {
        return false;
    }
    let mut i: usize = 0;
    while i < alphabet.len()
        invariant
            i <= alphabet.len(),
            forall|j: int| 0 <= j < i ==> (#[trigger] alphabet@[j] as u32) < 128,
        decreases alphabet.len() - i,
    {
        if alphabet[i] as u32 >= 128 {
            assert(!((alphabet@[i as int] as u32) < 128));
            return false;
        }
        i = i + 1;
    }
    true
}

/// A new goal id: ten characters out of `alphabet`.
pub fn new_goal_id(alphabet: &Vec<char>) -> (r: String)
    requires
        0 < alphabet.len() <= 255,
        forall|i: int| 0 <= i < alphabet@.len() ==> (#[trigger] alphabet@[i] as u32) < 128,
    ensures
        r@.len() == 10,
        forall|i: int| 0 <= i < r@.len() ==> alphabet@.contains(#[trigger] r@[i]),
{
    draw(alphabet, 10)
}

/// A tick that finds no flag raised consumes nothing, cancels nothing and reads no request.
pub proof fn idle_tick_does_nothing(robot: Seq<char>, state: Map<Seq<char>, SpView>)
    requires
        !cancel_asked(robot, state),
        !request_asked(robot, state),
    ensures
        consumed(robot, state) == Seq::<(Seq<char>, SpView)>::empty(),
{
}

/// A failed request ends at `failed`, with its reason as the result.
pub proof fn failure_is_terminal(
    robot: Seq<char>,
    reason: Seq<char>,
    counters: Option<(i64, i64)>,
)
    ensures
        failure_writes(robot, reason, counters).last() == (
            key_of(robot, "request_state"@),
            SpView::Text(Some("failed"@)),
        ),
        failure_writes(robot, reason, counters).contains(
            (key_of(robot, "request_result"@), SpView::Text(Some(reason))),
        ),
{
    let w = failure_writes(robot, reason, counters);
    let n = w.len();
    assert(w[n - 2] == (key_of(robot, "request_result"@), SpView::Text(Some(reason))));
}

/// A goal is admitted only while no goal is live, nobody holds the robot, and its safety mode
/// is one a goal can run in.
pub proof fn one_goal_at_a_time<G, F, S>(driver: DriverState<G, F, S>, has_address: bool)
    requires
        rejection_of(driver, has_address) is None,
    ensures
        driver.goal_id is None,
        !driver.reissuing,
        !driver.motion_paused,
        driver.connected,
        !SafetyMode::encoded(driver.safety_mode).stops(),
{
}

proof fn lemma_joined_contains(list: Seq<Seq<char>>, sep: Seq<char>, i: int)
    requires
        0 <= i < list.len(),
    ensures
        contains_text(joined(list, sep), list[i]),
    decreases list.len(),
{
    let all = joined(list, sep);
    if list.len() == 1 {
        assert(all.subrange(0, all.len() as int) =~= all);
        assert(occurs_at(all, list[0], 0));
    } else if i == list.len() - 1 {
        let at = (joined(list.drop_last(), sep) + sep).len() as int;
        assert(all.subrange(at, at + list[i].len()) =~= list[i]);
        assert(occurs_at(all, list[i], at));
    } else {
        let head = joined(list.drop_last(), sep);
        lemma_joined_contains(list.drop_last(), sep, i);
        assert(list.drop_last()[i] == list[i]);
        let at = choose|at: int| #[trigger] occurs_at(head, list[i], at);
        assert(all.subrange(at, at + list[i].len()) =~= head.subrange(at, at + list[i].len()));
        assert(occurs_at(all, list[i], at));
    }
}

proof fn lemma_unreadable_contains(
    robot: Seq<char>,
    state: Map<Seq<char>, SpView>,
    keys: Seq<Seq<char>>,
    i: int,
)
    requires
        0 <= i < keys.len(),
        !readable(robot, state, keys[i]),
    ensures
        unreadable(robot, state, keys).contains(keys[i]),
    decreases keys.len(),
{
    let list = unreadable(robot, state, keys);
    if i == keys.len() - 1 {
        assert(list[list.len() - 1] == keys[i]);
    } else {
        let before = unreadable(robot, state, keys.drop_last());
        lemma_unreadable_contains(robot, state, keys.drop_last(), i);
        assert(keys.drop_last()[i] == keys[i]);
        let j = choose|j: int| 0 <= j < before.len() && before[j] == keys[i];
        assert(list[j] == before[j]);
    }
}

/// A request key that cannot be read fails the request, and the reason names it.
pub proof fn unreadable_keys_are_named(
    robot: Seq<char>,
    state: Map<Seq<char>, SpView>,
    known: bool,
    i: int,
)
    requires
        0 <= i < request_keys_of(robot).len(),
        !readable(robot, state, request_keys_of(robot)[i]),
    ensures
        unreadable_reason(robot, state, known) matches Some(reason) && contains_text(
            reason,
            request_keys_of(robot)[i],
        ),
{
    let keys = request_keys_of(robot);
    let list = unreadable(robot, state, keys);
    lemma_unreadable_contains(robot, state, keys, i);
    let j = choose|j: int| 0 <= j < list.len() && list[j] == keys[i];
    lemma_joined_contains(list, ", "@, j);
    let body = joined(list, ", "@);
    let head = "missing or unreadable request keys: "@;
    let at = choose|at: int| #[trigger] occurs_at(body, keys[i], at);
    assert((head + body).subrange(head.len() + at, head.len() + at + keys[i].len())
        =~= body.subrange(at, at + keys[i].len()));
    assert(occurs_at(head + body, keys[i], head.len() + at));
}

/// The payload of a request that names none is the payload with nothing in it.
pub proof fn default_payload_is_nothing(payload: Payload)
    requires
        payload.mass@ == "0"@,
        payload.cog_x@ == "0"@,
        payload.cog_y@ == "0"@,
        payload.cog_z@ == "0"@,
        payload.ixx@ == "0"@,
        payload.iyy@ == "0"@,
        payload.izz@ == "0"@,
        payload.ixy@ == "0"@,
        payload.ixz@ == "0"@,
        payload.iyz@ == "0"@,
    ensures
        payload.arguments() == DEFAULT_PAYLOAD@,
{
    reveal_strlit("0");
    reveal_strlit(",");
    reveal_strlit(",[");
    reveal_strlit("],[");
    reveal_strlit("]");
    reveal_strlit("0,[0,0,0],[0,0,0,0,0,0]");
    let three = seq!["0"@, "0"@, "0"@];
    let six = seq!["0"@, "0"@, "0"@, "0"@, "0"@, "0"@];
    assert(joined(three, ","@) =~= "0"@ + ","@ + "0"@ + ","@ + "0"@) by {
        reveal_with_fuel(joined, 4);
        assert(three.drop_last() =~= seq!["0"@, "0"@]);
        assert(three.drop_last().drop_last() =~= seq!["0"@]);
    }
    assert(joined(six, ","@) =~= joined(three, ","@) + ","@ + "0"@ + ","@ + "0"@ + ","@ + "0"@) by {
        reveal_with_fuel(joined, 4);
        assert(six.drop_last() =~= seq!["0"@, "0"@, "0"@, "0"@, "0"@]);
        assert(six.drop_last().drop_last() =~= seq!["0"@, "0"@, "0"@, "0"@]);
        assert(six.drop_last().drop_last().drop_last() =~= three);
    }
    assert(payload.arguments() =~= DEFAULT_PAYLOAD@);
}

/// Every key of a request is seeded before the first one arrives, so a request fails for a
/// missing key only where something took the key away.
pub proof fn request_keys_are_seeded(robot: Seq<char>, i: int)
    requires
        0 <= i < request_keys_of(robot).len(),
    ensures
        robot_seeds(robot).dom().contains(request_keys_of(robot)[i]),
        readable(robot, robot_seeds(robot), request_keys_of(robot)[i]),
{
    assert(robot_seeds(robot).dom().contains(key_of(robot, "request_trigger"@)));
    assert(robot_seeds(robot).dom().contains(key_of(robot, "request_state"@)));
    assert(robot_seeds(robot).dom().contains(key_of(robot, "request_result"@)));
    assert(robot_seeds(robot).dom().contains(key_of(robot, "request_cancel"@)));
    assert(robot_seeds(robot).dom().contains(key_of(robot, "request_feedback"@)));
    assert(robot_seeds(robot).dom().contains(key_of(robot, "command_type"@)));
    assert(robot_seeds(robot).dom().contains(key_of(robot, "acceleration"@)));
    assert(robot_seeds(robot).dom().contains(key_of(robot, "velocity"@)));
    assert(robot_seeds(robot).dom().contains(key_of(robot, "global_acceleration_scaling"@)));
    assert(robot_seeds(robot).dom().contains(key_of(robot, "global_velocity_scaling"@)));
    assert(robot_seeds(robot).dom().contains(key_of(robot, "use_execution_time"@)));
    assert(robot_seeds(robot).dom().contains(key_of(robot, "execution_time"@)));
    assert(robot_seeds(robot).dom().contains(key_of(robot, "use_blend_radius"@)));
    assert(robot_seeds(robot).dom().contains(key_of(robot, "blend_radius"@)));
    assert(robot_seeds(robot).dom().contains(key_of(robot, "use_joint_positions"@)));
    assert(robot_seeds(robot).dom().contains(key_of(robot, "joint_positions"@)));
    assert(robot_seeds(robot).dom().contains(key_of(robot, "use_preferred_joint_config"@)));
    assert(robot_seeds(robot).dom().contains(key_of(robot, "preferred_joint_config"@)));
    assert(robot_seeds(robot).dom().contains(key_of(robot, "use_payload"@)));
    assert(robot_seeds(robot).dom().contains(key_of(robot, "payload"@)));
    assert(robot_seeds(robot).dom().contains(key_of(robot, "baseframe_id"@)));
    assert(robot_seeds(robot).dom().contains(key_of(robot, "faceplate_id"@)));
    assert(robot_seeds(robot).dom().contains(key_of(robot, "goal_feature_id"@)));
    assert(robot_seeds(robot).dom().contains(key_of(robot, "tcp_id"@)));
    assert(robot_seeds(robot).dom().contains(key_of(robot, "root_frame_id"@)));
    assert(robot_seeds(robot).dom().contains(key_of(robot, "force_threshold"@)));
    assert(robot_seeds(robot).dom().contains(key_of(robot, "use_relative_pose"@)));
    assert(robot_seeds(robot).dom().contains(key_of(robot, "relative_pose"@)));
    assert(robot_seeds(robot).dom().contains(key_of(robot, "force_feedback"@)));
    assert(robot_seeds(robot).dom().contains(key_of(robot, "report_waypoint_progress"@)));
    assert(robot_seeds(robot).dom().contains(key_of(robot, "waypoints"@)));
    assert(request_keys_of(robot)[i] == key_of(robot, request_suffixes()[i]));
}

} // verus!
