//! What the driver publishes of its robot: the frames it owns, and the measured state.

use crate::dashboard_types::{RobotMode, SafetyMode};
use crate::double::{Double, ZERO};
use crate::driver_state::{robot_mode_name, safety_mode_name, DriverState};
use crate::sp_value::{key, key_of, SpValue, SpView, Write};
use crate::state::robot_seeds;
use crate::structs::{copy_doubles, URDFParameters};
use crate::text::same;
use vstd::prelude::*;

verus! {

/// The frames of the arm and the frame each is given in, by the names of the URDF links.
pub open spec fn arm_frames() -> Seq<(Seq<char>, Seq<char>)> {
    seq![
        ("base_link"@, "base_link_inertia"@),
        ("base_link_inertia"@, "shoulder_link"@),
        ("shoulder_link"@, "upper_arm_link"@),
        ("upper_arm_link"@, "forearm_link"@),
        ("forearm_link"@, "wrist_1_link"@),
        ("wrist_1_link"@, "wrist_2_link"@),
        ("wrist_2_link"@, "wrist_3_link"@),
        ("wrist_3_link"@, "flange"@),
        ("wrist_3_link"@, "ft_frame"@),
        ("flange"@, "tool0"@),
    ]
}

/// A frame the driver owns, and the frame it is given in.
#[derive(Debug)]
pub struct Frame {
    pub parent: String,
    pub child: String,
}

impl View for Frame {
    type V = (Seq<char>, Seq<char>);

    open spec fn view(&self) -> (Seq<char>, Seq<char>) {
        (self.parent@, self.child@)
    }
}

/// What a list of frames says.
pub open spec fn frames_in(frames: Seq<Frame>) -> Seq<(Seq<char>, Seq<char>)> {
    frames.map_values(|f: Frame| f@)
}

/// The frames the driver owns, under the prefix of its robot.
pub open spec fn owned_frames(prefix: Seq<char>) -> Seq<(Seq<char>, Seq<char>)> {
    arm_frames().map_values(|f: (Seq<char>, Seq<char>)| (prefix + f.0, prefix + f.1))
}

fn frame(params: &URDFParameters, parent: &str, child: &str) -> (r: Frame)
    ensures
        r@ == (params.tf_prefix@ + parent@, params.tf_prefix@ + child@),
{
    Frame { parent: params.frame(parent), child: params.frame(child) }
}

/// The frames the driver owns.
///
/// This is the authority on which frames the driver publishes and what they are given in, so
/// a tick can publish them without reading the old ones back first. It also means that the
/// driver reasserts its own parents: an external change of one of them does not survive.
pub fn robot_frames(params: &URDFParameters) -> (r: Vec<Frame>)
    ensures
        frames_in(r@) == owned_frames(params.tf_prefix@),
{
    let mut r: Vec<Frame> = Vec::new();
    r.push(frame(params, "base_link", "base_link_inertia"));
    r.push(frame(params, "base_link_inertia", "shoulder_link"));
    r.push(frame(params, "shoulder_link", "upper_arm_link"));
    r.push(frame(params, "upper_arm_link", "forearm_link"));
    r.push(frame(params, "forearm_link", "wrist_1_link"));
    r.push(frame(params, "wrist_1_link", "wrist_2_link"));
    r.push(frame(params, "wrist_2_link", "wrist_3_link"));
    r.push(frame(params, "wrist_3_link", "flange"));
    r.push(frame(params, "wrist_3_link", "ft_frame"));
    r.push(frame(params, "flange", "tool0"));
    assert(frames_in(r@) =~= owned_frames(params.tf_prefix@));
    r
}

/// Whether a link of the kinematic chain is one of the frames the driver publishes: it owns a
/// frame of that name, and the link is not the base.
pub open spec fn is_published(owned: Seq<(Seq<char>, Seq<char>)>, prefix: Seq<char>, link: Seq<char>) -> bool {
    link != "base_link"@ && exists|i: int|
        0 <= i < owned.len() && (#[trigger] owned[i]).1 == prefix + link
}

/// Whether a link is published, as which of the frames.
pub open spec fn is_published_at(
    owned: Seq<Frame>,
    prefix: Seq<char>,
    link: Seq<char>,
    r: Option<usize>,
) -> bool {
    match r {
        Some(i) => {
            &&& i < owned.len()
            &&& link != "base_link"@
            &&& owned[i as int].child@ == prefix + link
            &&& forall|j: int|
                0 <= j < i ==> (#[trigger] owned[j]).child@ != prefix + link
        },
        None => !is_published(frames_in(owned), prefix, link),
    }
}

/// The frame that a link of the kinematic chain is published as, by its place among the frames
/// the driver owns. A link that is none of them is skipped, which keeps chain nodes that are
/// named after joints out of the frame tree.
pub fn published_frame(owned: &Vec<Frame>, params: &URDFParameters, link: &str) -> (r: Option<
    usize,
>)
    ensures
        is_published_at(owned@, params.tf_prefix@, link@, r),
{
    if same(link, "base_link") {
        return None;
    }
    let name = params.frame(link);
    let mut i: usize = 0;
    while i < owned.len()
        invariant
            i <= owned.len(),
            name@ == params.tf_prefix@ + link@,
            link@ != "base_link"@,
            forall|j: int| 0 <= j < i ==> (#[trigger] owned@[j]).child@ != name@,
        decreases owned.len() - i,
    {
        if same(owned[i].child.as_str(), name.as_str()) {
            return Some(i);
        }
        i = i + 1;
    }
    assert forall|j: int| 0 <= j < frames_in(owned@).len() implies (#[trigger] frames_in(
        owned@,
    )[j]).1 != params.tf_prefix@ + link@ by {
        assert(owned@[j].child@ != name@);
    }
    None
}

/// Whether joint readings differ from the ones published last: in number, or in value.
pub open spec fn joints_differ(last: Option<Seq<Double>>, joints: Seq<Double>) -> bool {
    match last {
        None => true,
        Some(l) => l.len() != joints.len() || exists|i: int|
            0 <= i < joints.len() && !(#[trigger] l[i]).equal(joints[i]),
    }
}

/// Whether there is anything new to say of the joints. A stationary robot would publish the
/// same numbers forever otherwise.
pub fn joints_changed(last: Option<&Vec<Double>>, joints: &Vec<Double>) -> (r: bool)
    ensures
        r == joints_differ(
            match last {
                Some(l) => Some(l@),
                None => None,
            },
            joints@,
        ),
{
    match last {
        None => true,
        Some(l) => {
            if l.len() != joints.len() {
                return true;
            }
            let mut i: usize = 0;
            while i < joints.len()
                invariant
                    i <= joints.len(),
                    l.len() == joints.len(),
                    last == Some(l),
                    forall|j: int| 0 <= j < i ==> (#[trigger] l@[j]).equal(joints@[j]),
                decreases joints.len() - i,
            {
                if !l[i].equals(joints[i]) {
                    assert(!l@[i as int].equal(joints@[i as int]));
                    return true;
                }
                i = i + 1;
            }
            false
        },
    }
}

/// Whether a write publishes those joint values.
pub open spec fn says_joints(robot: Seq<char>, joints: Seq<Double>, r: Write) -> bool {
    &&& r.key@ == key_of(robot, "joint_states"@)
    &&& is_doubles(r.value@, joints)
}

/// Publish the joint readings.
pub fn publish_joint_states(robot: &str, joints: &Vec<Double>) -> (r: Write)
    ensures
        says_joints(robot@, joints@, r),
{
    Write { key: key(robot, "joint_states"), value: SpValue::doubles(joints) }
}

/// Whether a value is the array of these numbers.
pub open spec fn is_doubles(value: SpView, numbers: Seq<Double>) -> bool {
    value matches SpView::Array(Some(elements)) && elements.len() == numbers.len() && forall|i: int|

        0 <= i < numbers.len() ==> (#[trigger] elements[i])@ == SpView::Float64(Some(numbers[i]))
}

/// Force change, in newtons, that counts as news: 0.25.
///
/// A load cell at rest still reports a fraction of a newton of noise. This is well under any
/// useful force threshold while being comfortably above the noise floor.
pub const FORCE_EPSILON: u64 = 0x3FD0_0000_0000_0000;

/// Pose change, in metres or radians, that counts as news: 1e-4. The pose is derived from the
/// joint encoders and jitters in the last few digits while the robot stands still.
pub const POSE_EPSILON: u64 = 0x3F1A_36E2_EB1C_432D;

/// Speed scaling change that counts as news: the distance from 1 to the next number.
pub const SCALING_EPSILON: u64 = 0x3CB0_0000_0000_0000;

/// How far the continuous measurements are from the ones published last: the magnitudes of the
/// differences.
#[derive(Debug)]
pub struct Drift {
    pub speed_scaling: Double,
    pub forces: Vec<Double>,
    pub tcp_pose: Vec<Double>,
}

/// Whether any of the differences is more than `epsilon`.
pub open spec fn any_exceeds(differences: Seq<Double>, epsilon: u64) -> bool {
    exists|i: int|
        0 <= i < differences.len() && (Double { bits: epsilon }).lt(#[trigger] differences[i])
}

/// True if any difference is more than `epsilon`.
pub fn exceeds(differences: &Vec<Double>, epsilon: u64) -> (r: bool)
    ensures
        r == any_exceeds(differences@, epsilon),
{
    let mut i: usize = 0;
    while i < differences.len()
        invariant
            i <= differences.len(),
            forall|j: int|
                0 <= j < i ==> !(Double { bits: epsilon }).lt(#[trigger] differences@[j]),
        decreases differences.len() - i,
    {
        if (Double { bits: epsilon }).less(differences[i]) {
            assert((Double { bits: epsilon }).lt(differences@[i as int]));
            return true;
        }
        i = i + 1;
    }
    false
}

impl Drift {
    /// Whether a continuous measurement moved by more than its tolerance.
    pub open spec fn is_motion(self) -> bool {
        ||| (Double { bits: SCALING_EPSILON }).lt(self.speed_scaling)
        ||| any_exceeds(self.forces@, FORCE_EPSILON)
        ||| any_exceeds(self.tcp_pose@, POSE_EPSILON)
    }
}

/// Everything the realtime stream says that is not a joint angle, plus what the dashboard says
/// of the program and of Remote Control, and the two connection flags.
#[derive(Debug)]
pub struct MeasuredState {
    pub safety_mode: i32,
    pub robot_mode: i32,
    pub program_state: String,
    pub program_running: bool,
    pub tcp_pose: Vec<Double>,
    pub forces: Vec<Double>,
    pub speed_scaling: Double,
    pub digital_inputs: u32,
    pub digital_outputs: u32,
    pub robot_connected: bool,
    pub dashboard_connected: bool,
    pub remote_control: bool,
}

/// Whether a measured state is that of a driver.
pub open spec fn measures<G, F, S>(
    measured: MeasuredState,
    driver: DriverState<G, F, S>,
) -> bool {
    &&& measured.safety_mode == driver.safety_mode
    &&& measured.robot_mode == driver.robot_mode
    &&& measured.program_state@ == driver.program_state@
    &&& measured.program_running == driver.program_running
    &&& measured.tcp_pose@ == driver.tcp_pose@
    &&& measured.forces@ == driver.forces@
    &&& measured.speed_scaling == driver.speed_scaling
    &&& measured.digital_inputs == driver.digital_inputs
    &&& measured.digital_outputs == driver.digital_outputs
    &&& measured.robot_connected == driver.connected
    &&& measured.dashboard_connected == driver.dashboard_connected
    &&& measured.remote_control == driver.remote_control
}

impl MeasuredState {
    /// Take the measured state out of the driver state.
    pub fn of<G, F, S>(driver: &DriverState<G, F, S>) -> (r: MeasuredState)
        ensures
            measures(r, *driver),
    {
        MeasuredState {
            safety_mode: driver.safety_mode,
            robot_mode: driver.robot_mode,
            program_state: driver.program_state.clone(),
            program_running: driver.program_running,
            tcp_pose: copy_doubles(&driver.tcp_pose),
            forces: copy_doubles(&driver.forces),
            speed_scaling: driver.speed_scaling,
            digital_inputs: driver.digital_inputs,
            digital_outputs: driver.digital_outputs,
            robot_connected: driver.connected,
            dashboard_connected: driver.dashboard_connected,
            remote_control: driver.remote_control,
        }
    }

    /// Whether the two states agree in everything that is not a continuous measurement.
    pub open spec fn same_discrete(self, previous: MeasuredState) -> bool {
        &&& self.safety_mode == previous.safety_mode
        &&& self.robot_mode == previous.robot_mode
        &&& self.program_state@ == previous.program_state@
        &&& self.program_running == previous.program_running
        &&& self.digital_inputs == previous.digital_inputs
        &&& self.digital_outputs == previous.digital_outputs
        &&& self.robot_connected == previous.robot_connected
        &&& self.dashboard_connected == previous.dashboard_connected
        &&& self.remote_control == previous.remote_control
    }

    /// Whether the two states have as many continuous measurements as each other.
    pub open spec fn same_shape(self, previous: MeasuredState) -> bool {
        self.forces@.len() == previous.forces@.len() && self.tcp_pose@.len()
            == previous.tcp_pose@.len()
    }

    /// Whether anything changed enough to be worth publishing.
    pub open spec fn is_news(self, previous: Option<MeasuredState>, drift: Drift) -> bool {
        match previous {
            None => true,
            Some(p) => !self.same_discrete(p) || !self.same_shape(p) || drift.is_motion(),
        }
    }

    /// Has anything changed enough to be worth a round trip?
    ///
    /// The discrete fields - modes, IO bits, connection flags - compare exactly, because a
    /// single-tick flip of any of them is exactly the event a supervisor is watching for and
    /// must never be filtered out. Only the continuous measurements get a tolerance, and only
    /// to keep sensor noise from turning every tick into a write with the robot parked.
    pub fn differs_from(&self, previous: Option<&MeasuredState>, drift: &Drift) -> (r: bool)
        ensures
            r == self.is_news(
                match previous {
                    Some(p) => Some(*p),
                    None => None,
                },
                *drift,
            ),
    {
        match previous {
            None => true,
            Some(p) => {
                if self.safety_mode != p.safety_mode || self.robot_mode != p.robot_mode || !same(
                    self.program_state.as_str(),
                    p.program_state.as_str(),
                ) || self.program_running != p.program_running || self.digital_inputs
                    != p.digital_inputs || self.digital_outputs != p.digital_outputs
                    || self.robot_connected != p.robot_connected || self.dashboard_connected
                    != p.dashboard_connected || self.remote_control != p.remote_control {
                    return true;
                }
                self.forces.len() != p.forces.len() || self.tcp_pose.len() != p.tcp_pose.len()
                    || (Double { bits: SCALING_EPSILON }).less(drift.speed_scaling) || exceeds(
                    &drift.forces,
                    FORCE_EPSILON,
                ) || exceeds(&drift.tcp_pose, POSE_EPSILON)
            },
        }
    }
}

/// Whether `writes` publishes a measured state under the keys of `robot`. The modes go out as
/// names rather than as the integers off the wire.
pub open spec fn publishes(
    writes: Seq<Write>,
    robot: Seq<char>,
    measured: MeasuredState,
    force_feedback: Double,
) -> bool {
    &&& writes.len() == 13
    &&& writes[0]@ == (
        key_of(robot, "safety_mode"@),
        SpView::Text(Some(SafetyMode::encoded(measured.safety_mode).name())),
    )
    &&& writes[1]@ == (
        key_of(robot, "robot_mode"@),
        SpView::Text(Some(RobotMode::encoded(measured.robot_mode).name())),
    )
    &&& writes[2]@ == (
        key_of(robot, "program_state"@),
        SpView::Text(Some(measured.program_state@)),
    )
    &&& writes[3]@ == (
        key_of(robot, "program_running"@),
        SpView::Bool(Some(measured.program_running)),
    )
    &&& writes[4].key@ == key_of(robot, "tcp_pose"@) && is_doubles(
        writes[4].value@,
        measured.tcp_pose@,
    )
    &&& writes[5].key@ == key_of(robot, "tcp_force"@) && is_doubles(
        writes[5].value@,
        measured.forces@,
    )
    &&& writes[6]@ == (
        key_of(robot, "force_feedback"@),
        SpView::Float64(Some(force_feedback)),
    )
    &&& writes[7]@ == (
        key_of(robot, "speed_scaling"@),
        SpView::Float64(Some(measured.speed_scaling)),
    )
    &&& writes[8]@ == (
        key_of(robot, "digital_inputs"@),
        SpView::Int64(Some(measured.digital_inputs as i64)),
    )
    &&& writes[9]@ == (
        key_of(robot, "digital_outputs"@),
        SpView::Int64(Some(measured.digital_outputs as i64)),
    )
    &&& writes[10]@ == (
        key_of(robot, "robot_connected"@),
        SpView::Bool(Some(measured.robot_connected)),
    )
    &&& writes[11]@ == (
        key_of(robot, "dashboard_connected"@),
        SpView::Bool(Some(measured.dashboard_connected)),
    )
    &&& writes[12]@ == (
        key_of(robot, "remote_control"@),
        SpView::Bool(Some(measured.remote_control)),
    )
}

/// The force that a force guard would be compared against: the magnitude of the translational
/// part of the TCP force, and nothing where that part is missing.
pub open spec fn force_felt(measured: MeasuredState, magnitude: Double) -> Double {
    if measured.forces@.len() >= 3 {
        magnitude
    } else {
        Double { bits: ZERO }
    }
}

/// Publish the measured state, in one go. `magnitude` is that of the translational part of the
/// TCP force.
pub fn publish_measured_state(
    robot: &str,
    measured: &MeasuredState,
    magnitude: Double,
) -> (r: Vec<Write>)
    ensures
        publishes(r@, robot@, *measured, force_felt(*measured, magnitude)),
{
    let force_feedback = if measured.forces.len() >= 3 {
        magnitude
    } else {
        Double { bits: ZERO }
    };
    let mut r: Vec<Write> = Vec::new();
    r.push(
        Write {
            key: key(robot, "safety_mode"),
            value: SpValue::text(safety_mode_name(measured.safety_mode)),
        },
    );
    r.push(
        Write {
            key: key(robot, "robot_mode"),
            value: SpValue::text(robot_mode_name(measured.robot_mode)),
        },
    );
    r.push(
        Write {
            key: key(robot, "program_state"),
            value: SpValue::text(measured.program_state.as_str()),
        },
    );
    r.push(
        Write {
            key: key(robot, "program_running"),
            value: SpValue::Bool(Some(measured.program_running)),
        },
    );
    r.push(Write { key: key(robot, "tcp_pose"), value: SpValue::doubles(&measured.tcp_pose) });
    r.push(Write { key: key(robot, "tcp_force"), value: SpValue::doubles(&measured.forces) });
    r.push(
        Write {
            key: key(robot, "force_feedback"),
            value: SpValue::Float64(Some(force_feedback)),
        },
    );
    r.push(
        Write {
            key: key(robot, "speed_scaling"),
            value: SpValue::Float64(Some(measured.speed_scaling)),
        },
    );
    r.push(
        Write {
            key: key(robot, "digital_inputs"),
            value: SpValue::Int64(Some(measured.digital_inputs as i64)),
        },
    );
    r.push(
        Write {
            key: key(robot, "digital_outputs"),
            value: SpValue::Int64(Some(measured.digital_outputs as i64)),
        },
    );
    r.push(
        Write {
            key: key(robot, "robot_connected"),
            value: SpValue::Bool(Some(measured.robot_connected)),
        },
    );
    r.push(
        Write {
            key: key(robot, "dashboard_connected"),
            value: SpValue::Bool(Some(measured.dashboard_connected)),
        },
    );
    r.push(
        Write {
            key: key(robot, "remote_control"),
            value: SpValue::Bool(Some(measured.remote_control)),
        },
    );
    r
}

/// A flip of any discrete reading is published, whatever the continuous ones do.
pub proof fn discrete_changes_are_news(
    now: MeasuredState,
    previous: MeasuredState,
    drift: Drift,
)
    ensures
        !now.same_discrete(previous) ==> now.is_news(Some(previous), drift),
        now.is_news(None, drift),
{
}

/// A robot that stands still is not published again: noise within the tolerances is no news.
pub proof fn standing_still_is_no_news(
    now: MeasuredState,
    previous: MeasuredState,
    drift: Drift,
)
    requires
        now.same_discrete(previous),
        now.same_shape(previous),
        drift.speed_scaling.le(Double { bits: SCALING_EPSILON }),
        forall|i: int|
            0 <= i < drift.forces@.len() ==> (#[trigger] drift.forces@[i]).le(
                Double { bits: FORCE_EPSILON },
            ),
        forall|i: int|
            0 <= i < drift.tcp_pose@.len() ==> (#[trigger] drift.tcp_pose@[i]).le(
                Double { bits: POSE_EPSILON },
            ),
    ensures
        !now.is_news(Some(previous), drift),
{
}

/// The base of the robot is never republished, and only frames the driver owns are.
pub proof fn only_owned_frames_are_published(prefix: Seq<char>, link: Seq<char>)
    ensures
        !is_published(owned_frames(prefix), prefix, "base_link"@),
        is_published(owned_frames(prefix), prefix, link) <==> (link != "base_link"@ && exists|
            i: int,
        |
            0 <= i < arm_frames().len() && (#[trigger] arm_frames()[i]).1 == link),
{
    let owned = owned_frames(prefix);
    if is_published(owned, prefix, link) {
        let i = choose|i: int| 0 <= i < owned.len() && (#[trigger] owned[i]).1 == prefix + link;
        assert(owned[i].1 == prefix + arm_frames()[i].1);
        assert((prefix + link).skip(prefix.len() as int) =~= link);
        assert((prefix + arm_frames()[i].1).skip(prefix.len() as int) =~= arm_frames()[i].1);
    }
    if link != "base_link"@ && exists|i: int|
        0 <= i < arm_frames().len() && (#[trigger] arm_frames()[i]).1 == link {
        let i = choose|i: int|
            0 <= i < arm_frames().len() && (#[trigger] arm_frames()[i]).1 == link;
        assert(owned[i].1 == prefix + link);
    }
}

/// With no prefix, the frames go by the names of the URDF links.
pub proof fn no_prefix_keeps_the_names()
    ensures
        owned_frames(Seq::empty()) == arm_frames(),
{
    assert forall|i: int| 0 <= i < arm_frames().len() implies owned_frames(Seq::empty())[i]
        == #[trigger] arm_frames()[i] by {
        assert(Seq::<char>::empty() + arm_frames()[i].0 =~= arm_frames()[i].0);
        assert(Seq::<char>::empty() + arm_frames()[i].1 =~= arm_frames()[i].1);
    }
    assert(owned_frames(Seq::empty()) =~= arm_frames());
}

/// Every key of the measured state is seeded before the first publication.
pub proof fn published_keys_are_seeded(
    writes: Seq<Write>,
    robot: Seq<char>,
    measured: MeasuredState,
    force_feedback: Double,
    i: int,
)
    requires
        publishes(writes, robot, measured, force_feedback),
        0 <= i < writes.len(),
    ensures
        robot_seeds(robot).dom().contains(writes[i].key@),
        robot_seeds(robot).dom().contains(key_of(robot, "joint_states"@)),
{
    assert(writes[i]@.0 == writes[i].key@);
}

} // verus!
