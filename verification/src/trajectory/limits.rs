//! Joint limits, and the scaling convention the driver's templates use.
//!
//! Position and velocity limits are read from the same URDF the driver loads, so they cannot
//! drift from the model being driven. Acceleration is the awkward one: **UR does not publish
//! acceleration limits.** So the acceleration limits here are engineering estimates, not
//! measurements: each joint is given the acceleration that would bring it from rest to its
//! published maximum velocity in half a second. To keep the out-of-the-box behaviour well short
//! of a guess, the default [`PlanScaling`] halves them again.

use crate::double::{Double, ONE};
use crate::text::{join2, join3, same};
use crate::trajectory::urdf::{beyond_reader, is_beyond_reader};
use vstd::prelude::*;

verus! {

/// Why a text is not a URDF.
#[verifier::external_type_specification]
#[verifier::external_body]
pub struct ExUrdfError(urdf_rs::UrdfError);

/// 2 pi
pub const FULL_TURN: u64 = 0x4019_21FB_5444_2D18;

/// -2 pi
pub const FULL_TURN_BACK: u64 = 0xC019_21FB_5444_2D18;

/// 0.5
pub const HALF: u64 = 0x3FE0_0000_0000_0000;

/// The joint names of a UR arm, in the order the URDF chain and every joint vector in this
/// driver uses.
pub open spec fn joint_names() -> Seq<Seq<char>> {
    seq![
        "shoulder_pan_joint"@,
        "shoulder_lift_joint"@,
        "elbow_joint"@,
        "wrist_1_joint"@,
        "wrist_2_joint"@,
        "wrist_3_joint"@,
    ]
}

/// The name of joint `i`.
pub fn joint_name(i: usize) -> (r: &'static str)
    requires
        i < 6,
    ensures
        r@ == joint_names()[i as int],
{
    match i {
        0 => "shoulder_pan_joint",
        1 => "shoulder_lift_joint",
        2 => "elbow_joint",
        3 => "wrist_1_joint",
        4 => "wrist_2_joint",
        _ => "wrist_3_joint",
    }
}

/// What a URDF says of a joint.
#[derive(Debug)]
pub struct UrdfJoint {
    pub name: String,
    /// A joint without end stops.
    pub continuous: bool,
    pub lower: Double,
    pub upper: Double,
    pub velocity: Double,
}

impl View for UrdfJoint {
    type V = (Seq<char>, bool, Double, Double, Double);

    open spec fn view(&self) -> (Seq<char>, bool, Double, Double, Double) {
        (self.name@, self.continuous, self.lower, self.upper, self.velocity)
    }
}

/// Whether reading `text` as a URDF can come out as `outcome`: the joints of the robot that it
/// describes - name, whether it is continuous, lower and upper position limit, and velocity
/// limit - or the error that reading ran into.
pub uninterp spec fn urdf_reads_as(
    text: Seq<char>,
    outcome: Result<Seq<(Seq<char>, bool, Double, Double, Double)>, urdf_rs::UrdfError>,
) -> bool;

/// What reading a URDF came out as.
pub open spec fn joints_read(read: Result<Vec<UrdfJoint>, urdf_rs::UrdfError>) -> Result<
    Seq<(Seq<char>, bool, Double, Double, Double)>,
    urdf_rs::UrdfError,
> {
    match read {
        Ok(joints) => Ok(joints@.map_values(|j: UrdfJoint| j@)),
        Err(error) => Err(error),
    }
}

/// The message of a URDF error.
pub uninterp spec fn urdf_message(error: urdf_rs::UrdfError) -> Seq<char>;

/// `urdf_rs::read_from_string` reads a robot out of a URDF; its joints are handed on with what
/// the limits need of them.
///
/// What comes out is not pinned down by the text: on the way the attributes of an element pass
/// through a map that each process walks in an order of its own, and where two prefixes stand for
/// one namespace that order decides which of them is printed. A text that is beyond the reader can
/// make it panic, and is left out. Its recursion follows the nesting of the elements, so it needs
/// the stack for that.
#[verifier::external_body]
fn read_joints(text: &str) -> (r: Result<Vec<UrdfJoint>, urdf_rs::UrdfError>)
    requires
        !is_beyond_reader(text@),
    ensures
        urdf_reads_as(text@, joints_read(r)),
{
    let robot = urdf_rs::read_from_string(text)?;
    Ok(
        robot.joints.iter().map(
            |j| UrdfJoint {
                name: j.name.clone(),
                continuous: matches!(j.joint_type, urdf_rs::JointType::Continuous),
                lower: Double { bits: j.limit.lower.to_bits() },
                upper: Double { bits: j.limit.upper.to_bits() },
                velocity: Double { bits: j.limit.velocity.to_bits() },
            },
        ).collect(),
    )
}

/// The message of a URDF error, as its `Display` spells it.
#[verifier::external_body]
fn urdf_message_of(error: &urdf_rs::UrdfError) -> (r: String)
    ensures
        r@ == urdf_message(*error),
{
    error.to_string()
}

/// Per-joint kinematic limits for one arm.
#[derive(Clone, Copy, Debug)]
pub struct Limits {
    pub position_min: [Double; 6],
    pub position_max: [Double; 6],
    pub velocity_max: [Double; 6],
    /// Estimated, not published.
    pub acceleration_max: [Double; 6],
}

/// The first joint of that name.
pub open spec fn joint_from(
    joints: Seq<(Seq<char>, bool, Double, Double, Double)>,
    name: Seq<char>,
) -> Option<(Seq<char>, bool, Double, Double, Double)>
    decreases joints.len(),
{
    if joints.len() == 0 {
        None
    } else if joints[0].0 == name {
        Some(joints[0])
    } else {
        joint_from(joints.drop_first(), name)
    }
}

/// Whether a joint has no position limit: it is continuous, or its limits are one point.
pub open spec fn is_unlimited(joint: (Seq<char>, bool, Double, Double, Double)) -> bool {
    joint.1 || joint.2.equal(joint.3)
}

/// Why joint `i` gives no limits; `None` where it does.
pub open spec fn joint_fault(
    path: Seq<char>,
    joints: Seq<(Seq<char>, bool, Double, Double, Double)>,
    i: int,
) -> Option<Seq<char>> {
    match joint_from(joints, joint_names()[i]) {
        None => Some(path + " has no joint '"@ + joint_names()[i] + "'"@),
        Some(j) => if j.4.le(Double { bits: 0 }) {
            Some(path + ": joint '"@ + joint_names()[i] + "' has no velocity limit"@)
        } else {
            None
        },
    }
}

/// The fault of the first of the joints from `i` on that has one.
pub open spec fn first_fault(
    path: Seq<char>,
    joints: Seq<(Seq<char>, bool, Double, Double, Double)>,
    i: int,
) -> Option<Seq<char>>
    decreases 6 - i,
{
    if i < 0 || i >= 6 {
        None
    } else if joint_fault(path, joints, i) is Some {
        joint_fault(path, joints, i)
    } else {
        first_fault(path, joints, i + 1)
    }
}

/// Whether limits are those of joint `i`. A joint without a position limit gets a full turn
/// either way, which is the range the controller allows.
pub open spec fn limits_joint(
    limits: Limits,
    joints: Seq<(Seq<char>, bool, Double, Double, Double)>,
    i: int,
) -> bool {
    joint_from(joints, joint_names()[i]) matches Some(j) && {
        &&& limits.position_min@[i] == (if is_unlimited(j) {
            Double { bits: FULL_TURN_BACK }
        } else {
            j.2
        })
        &&& limits.position_max@[i] == (if is_unlimited(j) {
            Double { bits: FULL_TURN }
        } else {
            j.3
        })
        &&& limits.velocity_max@[i] == j.4
        &&& limits.acceleration_max@[i].bits == j.4.twice_encoded()
    }
}

fn find_joint<'a>(joints: &'a Vec<UrdfJoint>, name: &str) -> (r: Option<&'a UrdfJoint>)
    ensures
        match r {
            Some(j) => joint_from(joints@.map_values(|x: UrdfJoint| x@), name@) == Some(j@),
            None => joint_from(joints@.map_values(|x: UrdfJoint| x@), name@) is None,
        },
{
    let mut i: usize = 0;
    let ghost all = joints@.map_values(|x: UrdfJoint| x@);
    assert(all.skip(0) =~= all);
    while i < joints.len()
        invariant
            i <= joints.len(),
            all == joints@.map_values(|x: UrdfJoint| x@),
            joint_from(all.skip(i as int), name@) == joint_from(all, name@),
        decreases joints.len() - i,
    {
        assert(all.skip(i as int)[0] == joints@[i as int]@);
        assert(all.skip(i as int).drop_first() =~= all.skip(i + 1));
        if same(joints[i].name.as_str(), name) {
            return Some(&joints[i]);
        }
        i = i + 1;
    }
    None
}

/// The acceleration estimate: reach maximum velocity in half a second.
pub fn estimate_acceleration(velocity_max: &[Double; 6]) -> (r: [Double; 6])
    ensures
        forall|i: int| 0 <= i < 6 ==> (#[trigger] r@[i]).bits == velocity_max@[i].twice_encoded(),
{
    [
        velocity_max[0].twice(),
        velocity_max[1].twice(),
        velocity_max[2].twice(),
        velocity_max[3].twice(),
        velocity_max[4].twice(),
        velocity_max[5].twice(),
    ]
}

/// What is said of a text that the URDF reader cannot take.
pub const BEYOND_READER: &'static str = ": the URDF reader cannot take this text";

/// Whether `r` is what reading a URDF makes of the limits: the limits of its joints, the first
/// fault of these, or the error of reading it.
pub open spec fn limits_come_of(
    path: Seq<char>,
    outcome: Result<Seq<(Seq<char>, bool, Double, Double, Double)>, urdf_rs::UrdfError>,
    r: Result<Limits, String>,
) -> bool {
    match outcome {
        Ok(all) => match r {
            Ok(limits) => first_fault(path, all, 0) is None && forall|i: int|
                0 <= i < 6 ==> #[trigger] limits_joint(limits, all, i),
            Err(fault) => first_fault(path, all, 0) == Some(fault@),
        },
        Err(e) => r matches Err(fault) && fault@ == path + ": "@ + urdf_message(e),
    }
}

/// Limits out of the joints of a URDF. `path` names it in a fault.
pub fn limits_from(path: &str, joints: &Vec<UrdfJoint>) -> (r: Result<Limits, String>)
    ensures
        ({
            let all = joints@.map_values(|j: UrdfJoint| j@);
            match r {
                Ok(limits) => first_fault(path@, all, 0) is None && forall|i: int|
                    0 <= i < 6 ==> #[trigger] limits_joint(limits, all, i),
                Err(fault) => first_fault(path@, all, 0) == Some(fault@),
            }
        }),
{
    let ghost all = joints@.map_values(|j: UrdfJoint| j@);
    let zero = Double { bits: 0 };
    let mut position_min: [Double; 6] = [zero, zero, zero, zero, zero, zero];
    let mut position_max: [Double; 6] = [zero, zero, zero, zero, zero, zero];
    let mut velocity_max: [Double; 6] = [zero, zero, zero, zero, zero, zero];
    let mut i: usize = 0;
    while i < 6
        invariant
            i <= 6,
            all == joints@.map_values(|j: UrdfJoint| j@),
            zero.bits == 0,
            first_fault(path@, all, 0) == first_fault(path@, all, i as int),
            forall|k: int|
                0 <= k < i ==> {
                    &&& #[trigger] joint_from(all, joint_names()[k]) is Some
                    &&& position_min@[k] == (if is_unlimited(
                        joint_from(all, joint_names()[k])->0,
                    ) {
                        Double { bits: FULL_TURN_BACK }
                    } else {
                        (joint_from(all, joint_names()[k])->0).2
                    })
                    &&& position_max@[k] == (if is_unlimited(
                        joint_from(all, joint_names()[k])->0,
                    ) {
                        Double { bits: FULL_TURN }
                    } else {
                        (joint_from(all, joint_names()[k])->0).3
                    })
                    &&& velocity_max@[k] == (joint_from(all, joint_names()[k])->0).4
                },
        decreases 6 - i,
    {
        let name = joint_name(i);
        let joint = match find_joint(joints, name) {
            Some(j) => j,
            None => {
                let mut fault = join3(path, " has no joint '", name);
                fault.append("'");
                return Err(fault);
            },
        };
        if joint.continuous || joint.lower.equals(joint.upper) {
            position_min[i] = Double { bits: FULL_TURN_BACK };
            position_max[i] = Double { bits: FULL_TURN };
        } else {
            position_min[i] = joint.lower;
            position_max[i] = joint.upper;
        }
        if joint.velocity.at_most(zero) {
            let mut fault = join3(path, ": joint '", name);
            fault.append("' has no velocity limit");
            return Err(fault);
        }
        velocity_max[i] = joint.velocity;
        i = i + 1;
    }
    let acceleration_max = estimate_acceleration(&velocity_max);
    let limits = Limits { position_min, position_max, velocity_max, acceleration_max };
    assert forall|k: int| 0 <= k < 6 implies #[trigger] limits_joint(limits, all, k) by {
        assert(joint_from(all, joint_names()[k]) is Some);
    }
    Ok(limits)
}

impl Limits {
    /// Whether a value is outside the position limits of joint `i`.
    pub open spec fn is_outside(self, q: Seq<Double>, i: int) -> bool {
        q[i].lt(self.position_min@[i]) || self.position_max@[i].lt(q[i])
    }

    /// Whether a configuration is inside the position limits.
    pub open spec fn is_inside(self, q: Seq<Double>) -> bool {
        forall|i: int|
            0 <= i < 6 ==> self.position_min@[i].le(#[trigger] q[i]) && q[i].le(
                self.position_max@[i],
            )
    }

    /// Read position and velocity limits from a URDF, estimating acceleration. `path` names it
    /// in a fault.
    pub fn from_urdf(path: &str, urdf: &str) -> (r: Result<Limits, String>)
        ensures
            if is_beyond_reader(urdf@) {
                r matches Err(fault) && fault@ == path@ + BEYOND_READER@
            } else {
                exists|outcome: Result<_, urdf_rs::UrdfError>| #[trigger]
                    urdf_reads_as(urdf@, outcome) && limits_come_of(path@, outcome, r)
            },
    {
        if beyond_reader(urdf) {
            return Err(join2(path, BEYOND_READER));
        }
        let read = read_joints(urdf);
        let ghost outcome = joints_read(read);
        let r = match read {
            Ok(joints) => limits_from(path, &joints),
            Err(e) => Err(join3(path, ": ", urdf_message_of(&e).as_str())),
        };
        assert(urdf_reads_as(urdf@, outcome) && limits_come_of(path@, outcome, r));
        r
    }

    /// Replace the estimated acceleration limits with explicit values.
    pub fn with_acceleration(self, acceleration_max: [Double; 6]) -> (r: Self)
        ensures
            r == (Limits { acceleration_max, ..self }),
    {
        Limits {
            position_min: self.position_min,
            position_max: self.position_max,
            velocity_max: self.velocity_max,
            acceleration_max,
        }
    }

    /// Whether a configuration is inside the position limits.
    pub fn contains(&self, q: &[Double; 6]) -> (r: bool)
        ensures
            r == self.is_inside(q@),
    {
        let mut i: usize = 0;
        while i < 6
            invariant
                i <= 6,
                forall|j: int|
                    0 <= j < i ==> self.position_min@[j].le(#[trigger] q@[j]) && q@[j].le(
                        self.position_max@[j],
                    ),
            decreases 6 - i,
        {
            if !(self.position_min[i].at_most(q[i]) && q[i].at_most(self.position_max[i])) {
                assert(!(self.position_min@[i as int].le(q@[i as int]) && q@[i as int].le(
                    self.position_max@[i as int],
                )));
                return false;
            }
            i = i + 1;
        }
        true
    }

    /// The first joint outside its position limits, if any: its place, its value and its limits.
    pub fn first_violation(&self, q: &[Double; 6]) -> (r: Option<(usize, Double, Double, Double)>)
        ensures
            match r {
                Some((i, value, min, max)) => {
                    &&& i < 6
                    &&& self.is_outside(q@, i as int)
                    &&& forall|j: int| 0 <= j < i ==> !self.is_outside(q@, j)
                    &&& value == q@[i as int]
                    &&& min == self.position_min@[i as int]
                    &&& max == self.position_max@[i as int]
                },
                None => forall|j: int| 0 <= j < 6 ==> !self.is_outside(q@, j),
            },
    {
        let mut i: usize = 0;
        while i < 6
            invariant
                i <= 6,
                forall|j: int| 0 <= j < i ==> !self.is_outside(q@, j),
            decreases 6 - i,
        {
            if q[i].less(self.position_min[i]) || self.position_max[i].less(q[i]) {
                return Some((i, q[i], self.position_min[i], self.position_max[i]));
            }
            i = i + 1;
        }
        None
    }
}

/// Velocity and acceleration scaling for one plan.
///
/// A value outside `(0.0, 1.0]` means "no scaling". That matters because a request that never
/// set a scaling gives `0.0` - which must mean "full speed", not "frozen".
#[derive(Clone, Copy, PartialEq, Eq, Debug, Structural)]
pub struct PlanScaling {
    pub velocity: Double,
    pub acceleration: Double,
}

impl Default for PlanScaling {
    fn default() -> (r: Self)
        ensures
            r.velocity.bits == ONE,
            r.acceleration.bits == HALF,
    {
        // Full velocity, but half of an acceleration limit nobody has measured.
        PlanScaling { velocity: Double { bits: ONE }, acceleration: Double { bits: HALF } }
    }
}

/// The scaling that a value stands for: itself inside `(0.0, 1.0]`, and one elsewhere.
pub open spec fn scale_of(s: Double) -> Double {
    if (Double { bits: 0 }).lt(s) && s.le(Double { bits: ONE }) {
        s
    } else {
        Double { bits: ONE }
    }
}

/// `(0.0, 1.0]` passes through; anything else means "no scaling".
pub fn clamp_scale(s: Double) -> (r: Double)
    ensures
        r == scale_of(s),
{
    if (Double { bits: 0 }).less(s) && s.at_most(Double { bits: ONE }) {
        s
    } else {
        Double { bits: ONE }
    }
}

impl PlanScaling {
    /// The part of the speed that is asked for.
    pub open spec fn speed_share(self) -> Double {
        scale_of(self.velocity)
    }

    /// The part of the acceleration that is asked for.
    pub open spec fn ramp_share(self) -> Double {
        scale_of(self.acceleration)
    }

    pub fn velocity(&self) -> (r: Double)
        ensures
            r == self.speed_share(),
    {
        clamp_scale(self.velocity)
    }

    pub fn acceleration(&self) -> (r: Double)
        ensures
            r == self.ramp_share(),
    {
        clamp_scale(self.acceleration)
    }
}

/// A scaling never speeds the arm up and never freezes it: it is above zero and at most one,
/// and what was never set means full speed.
pub proof fn scaling_stays_in_range(s: Double)
    ensures
        (Double { bits: 0 }).lt(scale_of(s)),
        scale_of(s).le(Double { bits: ONE }),
        scale_of(Double { bits: 0 }).bits == ONE,
{
}

/// For a configuration of numbers, being inside the limits and having no violation are the same.
pub proof fn inside_means_no_violation(limits: Limits, q: Seq<Double>)
    requires
        q.len() == 6,
        forall|i: int|
            0 <= i < 6 ==> !(#[trigger] q[i]).is_nan() && !limits.position_min@[i].is_nan()
                && !limits.position_max@[i].is_nan(),
    ensures
        limits.is_inside(q) <==> forall|i: int| 0 <= i < 6 ==> !limits.is_outside(q, i),
{
    if forall|i: int| 0 <= i < 6 ==> !limits.is_outside(q, i) {
        assert forall|i: int| 0 <= i < 6 implies limits.position_min@[i].le(#[trigger] q[i])
            && q[i].le(limits.position_max@[i]) by {
            assert(!limits.is_outside(q, i));
        }
    }
}

/// A scaling between nothing and all of the speed is kept as it is; any other means no scaling.
pub proof fn sensible_scalings_are_kept(s: Double)
    ensures
        (Double { bits: 0 }).lt(s) && s.le(Double { bits: ONE }) ==> scale_of(s) == s,
        s.is_nan() || s.le(Double { bits: 0 }) || (Double { bits: ONE }).lt(s) ==> scale_of(s).bits
            == ONE,
{
}

/// The limits that a robot description gives are those of the arm's own joints, from the base to
/// the wrist: each is read off the first joint of that name, whatever order they come in. A joint
/// that turns freely may turn once either way.
pub proof fn limits_are_those_of_their_joints(
    limits: Limits,
    path: Seq<char>,
    joints: Seq<(Seq<char>, bool, Double, Double, Double)>,
    i: int,
    k: int,
)
    requires
        first_fault(path, joints, 0) is None,
        forall|i: int| 0 <= i < 6 ==> #[trigger] limits_joint(limits, joints, i),
        0 <= i < 6,
        0 <= k < joints.len(),
        joints[k].0 == (if i == 0 {
            "shoulder_pan_joint"@
        } else if i == 1 {
            "shoulder_lift_joint"@
        } else if i == 2 {
            "elbow_joint"@
        } else if i == 3 {
            "wrist_1_joint"@
        } else if i == 4 {
            "wrist_2_joint"@
        } else {
            "wrist_3_joint"@
        }),
        forall|l: int| 0 <= l < k ==> (#[trigger] joints[l]).0 != joints[k].0,
    ensures
        limits.velocity_max@[i] == joints[k].4,
        (Double { bits: 0 }).lt(limits.velocity_max@[i]) || limits.velocity_max@[i].is_nan(),
        !joints[k].1 && !joints[k].2.equal(joints[k].3) ==> limits.position_min@[i] == joints[k].2
            && limits.position_max@[i] == joints[k].3,
        joints[k].1 || joints[k].2.equal(joints[k].3) ==> limits.position_min@[i].bits
            == FULL_TURN_BACK && limits.position_max@[i].bits == FULL_TURN,
        limits.acceleration_max@[i].bits == limits.velocity_max@[i].twice_encoded(),
{
    lemma_joint_found(joints, joints[k].0, k);
    assert(limits_joint(limits, joints, i));
    lemma_no_fault(path, joints, 0, i);
}

proof fn lemma_joint_found(
    joints: Seq<(Seq<char>, bool, Double, Double, Double)>,
    name: Seq<char>,
    k: int,
)
    requires
        0 <= k < joints.len(),
        joints[k].0 == name,
        forall|l: int| 0 <= l < k ==> (#[trigger] joints[l]).0 != name,
    ensures
        joint_from(joints, name) == Some(joints[k]),
    decreases k,
{
    if k > 0 {
        assert(joints[0].0 != name);
        let rest = joints.drop_first();
        assert forall|l: int| 0 <= l < k - 1 implies (#[trigger] rest[l]).0 != name by {
            assert(rest[l] == joints[l + 1]);
        }
        lemma_joint_found(rest, name, k - 1);
    }
}

proof fn lemma_no_fault(
    path: Seq<char>,
    joints: Seq<(Seq<char>, bool, Double, Double, Double)>,
    from: int,
    i: int,
)
    requires
        0 <= from <= i < 6,
        first_fault(path, joints, from) is None,
    ensures
        joint_fault(path, joints, i) is None,
    decreases i - from,
{
    if from < i {
        lemma_no_fault(path, joints, from + 1, i);
    }
}

/// A description is refused for the first joint of the arm that it lacks, or that has no speed,
/// and says which.
pub proof fn descriptions_are_refused_for_a_joint(
    path: Seq<char>,
    joints: Seq<(Seq<char>, bool, Double, Double, Double)>,
    from: int,
)
    requires
        0 <= from <= 6,
    ensures
        first_fault(path, joints, from) is None <==> (forall|i: int|
            from <= i < 6 ==> (joint_from(joints, #[trigger] joint_names()[i]) matches Some(j)
                && !j.4.le(Double { bits: 0 }))),
        first_fault(path, joints, from) matches Some(fault) ==> exists|i: int|
            {
                &&& from <= i < 6
                &&& fault == (match joint_from(joints, #[trigger] joint_names()[i]) {
                    None => path + " has no joint '"@ + joint_names()[i] + "'"@,
                    Some(_) => path + ": joint '"@ + joint_names()[i]
                        + "' has no velocity limit"@,
                })
            },
    decreases 6 - from,
{
    if from < 6 {
        descriptions_are_refused_for_a_joint(path, joints, from + 1);
        let name = joint_names()[from];
    }
}

/// Speed and acceleration are scaled each by its own share, where that is a share at all, and not
/// scaled otherwise.
pub proof fn shares_are_their_own(scaling: PlanScaling)
    ensures
        (Double { bits: 0 }).lt(scaling.velocity) && scaling.velocity.le(Double { bits: ONE })
            ==> scaling.speed_share() == scaling.velocity,
        (Double { bits: 0 }).lt(scaling.acceleration) && scaling.acceleration.le(
            Double { bits: ONE },
        ) ==> scaling.ramp_share() == scaling.acceleration,
        !(Double { bits: 0 }).lt(scaling.velocity) || (Double { bits: ONE }).lt(scaling.velocity)
            ==> scaling.speed_share().bits == ONE,
        !(Double { bits: 0 }).lt(scaling.acceleration) || (Double { bits: ONE }).lt(
            scaling.acceleration,
        ) ==> scaling.ramp_share().bits == ONE,
{
}

} // verus!
