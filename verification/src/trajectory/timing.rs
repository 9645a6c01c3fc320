//! Per-segment speeds and corner blends: which of the bounds on them counts.
//!
//! There is no time-optimal path parameterisation here: its output cannot be commanded through a
//! blended `movej` chain, where the controller chooses the junction velocities itself. What is
//! both optimal and commandable is the fastest speed each segment allows, and that is the
//! smallest of the bounds that its joints set. The bounds themselves are arithmetic.

use crate::double::{Double, INFINITE, ZERO};
use vstd::prelude::*;

verus! {

/// Tool speed a straight segment is never allowed to exceed: 0.5 m/s.
///
/// Not a robot limit - a sanity ceiling. A Cartesian move is usually near something worth not
/// hitting.
pub const DEFAULT_MAX_CARTESIAN_SPEED: u64 = 0x3FE0_0000_0000_0000;

/// Joint motions up to this are treated as "this joint does not move": 1e-9.
pub const MOTIONLESS_JOINT: u64 = 0x3E11_2E0B_E826_D695;

/// Tool travel below this is none: 1e-6 metres.
pub const STILL: u64 = 0x3EB0_C6F7_A0B5_ED8D;

/// Segments up to this length have no direction: 1e-12 metres.
pub const DIRECTIONLESS: u64 = 0x3D71_9799_812D_EA11;

/// Blend radii below this are not worth emitting: 0.001 metres.
pub const MIN_USEFUL_BLEND: u64 = 0x3F50_624D_D2F1_A9FC;

/// From this deflection on a corner is a reversal and cannot be blended: 170 degrees.
pub const MAX_BLENDABLE_DEFLECTION: u64 = 0x4007_BC89_CF95_B8D0;

/// Corners whose quarter deflection has a tangent up to this are straight: 1e-9.
pub const STRAIGHT: u64 = 0x3E11_2E0B_E826_D695;

/// A right angle.
pub const RIGHT_ANGLE: u64 = 0x3FF9_21FB_5444_2D18;

/// Half a turn.
pub const HALF_TURN: u64 = 0x4009_21FB_5444_2D18;

/// Cartesian sampling step used to check a straight segment: 0.005 metres.
pub const LINEAR_SAMPLE_STEP: u64 = 0x3F74_7AE1_47AE_147B;

/// Samples one straight segment is allowed, however long it is.
pub const MAX_LINEAR_SAMPLES: usize = 2000;

/// The speed and acceleration to command for one segment, and which joint set them.
#[derive(Clone, Copy, PartialEq, Eq, Debug, Structural)]
pub struct SegmentSpeed {
    /// `movej`: joint speed of the leading axis, rad/s. `movel`: tool speed, m/s.
    pub velocity: Double,
    /// `movej`: joint acceleration of the leading axis, rad/s^2. `movel`: m/s^2.
    pub acceleration: Double,
    /// The joint that limited `velocity`. Reported so a slow segment can be explained rather
    /// than guessed at.
    pub limiting_joint: usize,
}

/// What one joint allows a segment: the leading-axis speed and acceleration at which this joint
/// is exactly on its limits.
#[derive(Clone, Copy, PartialEq, Eq, Debug, Structural)]
pub struct Pace {
    /// How far the joint travels.
    pub travel: Double,
    pub velocity: Double,
    pub acceleration: Double,
}

impl Pace {
    /// Whether the joint takes part in the motion.
    pub open spec fn moves(self) -> bool {
        !self.travel.le(Double { bits: MOTIONLESS_JOINT })
    }
}

/// Whether a number is neither infinite nor none.
pub open spec fn is_finite(d: Double) -> bool {
    d.magnitude() < INFINITE
}

fn finite(d: Double) -> (r: bool)
    ensures
        r == is_finite(d),
{
    d.less(Double { bits: INFINITE }) && (Double { bits: 0xFFF0_0000_0000_0000 }).less(d)
}

/// The lesser of two numbers; of a number and none, the number.
pub open spec fn lesser(a: Double, b: Double) -> Double {
    if a.is_nan() || b.lt(a) {
        b
    } else {
        a
    }
}

/// The smallest speed that the first `n` joints allow, without bound where none of them moves.
pub open spec fn speed_allowed(paces: Seq<Pace>, n: nat) -> Double
    decreases n,
{
    if n == 0 {
        Double { bits: INFINITE }
    } else {
        let before = speed_allowed(paces, (n - 1) as nat);
        if paces[n - 1].moves() && paces[n - 1].velocity.lt(before) {
            paces[n - 1].velocity
        } else {
            before
        }
    }
}

/// The smallest acceleration that the first `n` joints allow.
pub open spec fn ramp_allowed(paces: Seq<Pace>, n: nat) -> Double
    decreases n,
{
    if n == 0 {
        Double { bits: INFINITE }
    } else {
        let before = ramp_allowed(paces, (n - 1) as nat);
        if paces[n - 1].moves() && paces[n - 1].acceleration.lt(before) {
            paces[n - 1].acceleration
        } else {
            before
        }
    }
}

/// The first of the first `n` joints that allows no more than that speed.
pub open spec fn limiting_joint(paces: Seq<Pace>, n: nat) -> int
    decreases n,
{
    if n == 0 {
        0
    } else if paces[n - 1].moves() && paces[n - 1].velocity.lt(
        speed_allowed(paces, (n - 1) as nat),
    ) {
        n - 1
    } else {
        limiting_joint(paces, (n - 1) as nat)
    }
}

/// Whether a segment of some moves has that speed, or none.
pub open spec fn is_segment_speed(
    leading: Double,
    paces: Seq<Pace>,
    r: Option<SegmentSpeed>,
) -> bool {
    let n = paces.len();
    let v = speed_allowed(paces, n);
    let a = ramp_allowed(paces, n);
    match r {
        Some(s) => {
            &&& !leading.le(Double { bits: MOTIONLESS_JOINT }) && is_finite(v) && is_finite(
                a,
            )
            &&& s.velocity == v
            &&& s.acceleration == a
            &&& s.limiting_joint == limiting_joint(paces, n)
        },
        None => leading.le(Double { bits: MOTIONLESS_JOINT }) || !is_finite(v)
            || !is_finite(a),
    }
}

/// The fastest legal `movej` for a joint-space displacement: what the joints that move allow.
///
/// `leading` is the largest travel of any joint. `None` for a displacement of nothing, which has
/// no meaningful speed, and where a bound is missing.
pub fn joint_segment_speed(leading: Double, paces: &Vec<Pace>) -> (r: Option<SegmentSpeed>)
    ensures
        is_segment_speed(leading, paces@, r),
{
    let motionless = Double { bits: MOTIONLESS_JOINT };
    if leading.at_most(motionless) {
        return None;
    }
    let mut velocity = Double { bits: INFINITE };
    let mut acceleration = Double { bits: INFINITE };
    let mut joint: usize = 0;
    let mut i: usize = 0;
    while i < paces.len()
        invariant
            i <= paces.len(),
            motionless.bits == MOTIONLESS_JOINT,
            velocity == speed_allowed(paces@, i as nat),
            acceleration == ramp_allowed(paces@, i as nat),
            joint == limiting_joint(paces@, i as nat),
        decreases paces.len() - i,
    {
        let pace = paces[i];
        if !pace.travel.at_most(motionless) {
            if pace.velocity.less(velocity) {
                velocity = pace.velocity;
                joint = i;
            }
            if pace.acceleration.less(acceleration) {
                acceleration = pace.acceleration;
            }
        }
        i = i + 1;
    }
    if !finite(velocity) || !finite(acceleration) {
        return None;
    }
    Some(SegmentSpeed { velocity, acceleration, limiting_joint: joint })
}

/// The tool speed at which one joint, at one place along a straight segment, is exactly on its
/// limit.
#[derive(Clone, Copy, PartialEq, Eq, Debug, Structural)]
pub struct Cap {
    pub joint: usize,
    /// The rate of the joint at unit tool speed.
    pub rate: Double,
    pub velocity: Double,
}

impl Cap {
    /// Whether the joint moves at that place.
    pub open spec fn moves(self) -> bool {
        !self.rate.le(Double { bits: MOTIONLESS_JOINT })
    }
}

/// The tool speed that the first `n` caps and the ceiling leave.
pub open spec fn speed_capped(caps: Seq<Cap>, ceiling: Double, n: nat) -> Double
    decreases n,
{
    if n == 0 {
        ceiling
    } else {
        let before = speed_capped(caps, ceiling, (n - 1) as nat);
        if caps[n - 1].moves() && caps[n - 1].velocity.lt(before) {
            caps[n - 1].velocity
        } else {
            before
        }
    }
}

/// The joint of the first of the first `n` caps that leaves no more than that speed; the first
/// joint where none does.
pub open spec fn capping_joint(caps: Seq<Cap>, ceiling: Double, n: nat) -> usize
    decreases n,
{
    if n == 0 {
        0
    } else if caps[n - 1].moves() && caps[n - 1].velocity.lt(
        speed_capped(caps, ceiling, (n - 1) as nat),
    ) {
        caps[n - 1].joint
    } else {
        capping_joint(caps, ceiling, (n - 1) as nat)
    }
}

/// Whether a straight segment is capped at that speed, by that joint.
pub open spec fn is_speed_cap(caps: Seq<Cap>, ceiling: Double, r: (Double, usize)) -> bool {
    &&& r.0 == speed_capped(caps, ceiling, caps.len())
    &&& r.1 == capping_joint(caps, ceiling, caps.len())
}

/// The fastest legal tool speed for a straight segment, and the joint that sets it.
///
/// A `movel` holds the *tool* speed constant, so the joint speeds it demands vary along the line
/// and blow up near a singularity. The controller does not cap this by itself.
pub fn cartesian_speed_cap(caps: &Vec<Cap>, ceiling: Double) -> (r: (Double, usize))
    ensures
        is_speed_cap(caps@, ceiling, r),
{
    let mut velocity = ceiling;
    let mut joint: usize = 0;
    let mut i: usize = 0;
    while i < caps.len()
        invariant
            i <= caps.len(),
            velocity == speed_capped(caps@, ceiling, i as nat),
            joint == capping_joint(caps@, ceiling, i as nat),
        decreases caps.len() - i,
    {
        let cap = caps[i];
        if !cap.rate.at_most(Double { bits: MOTIONLESS_JOINT }) && cap.velocity.less(velocity) {
            velocity = cap.velocity;
            joint = cap.joint;
        }
        i = i + 1;
    }
    (velocity, joint)
}

/// One segment as it was timed.
#[derive(Clone, Copy, PartialEq, Eq, Debug, Structural)]
pub struct Segment {
    pub speed: SegmentSpeed,
    /// Whether the tool does not travel along it.
    pub still: bool,
}

/// Whether that is what is measured of a segment.
pub open spec fn is_timed(speed: SegmentSpeed, chord: Double, r: Segment) -> bool {
    &&& r.speed == speed
    &&& r.still == chord.lt(Double { bits: STILL })
}

/// A segment of that speed, along which the tool travels `chord` metres.
pub fn timed(speed: SegmentSpeed, chord: Double) -> (r: Segment)
    ensures
        is_timed(speed, chord, r),
{
    Segment { speed, still: chord.less(Double { bits: STILL }) }
}

/// The shape of a motion from rest to rest.
#[derive(Clone, Copy, PartialEq, Eq, Debug, Structural)]
pub enum Profile {
    /// No motion.
    Rest,
    /// The motion ends before the peak speed is reached.
    Triangle,
    /// The motion holds the peak speed between its ramps.
    Trapezoid,
}

/// Whether a move has that profile.
pub open spec fn has_profile(
    distance: Double,
    velocity: Double,
    acceleration: Double,
    ramps: Double,
    r: Profile,
) -> bool {
    let zero = Double { bits: ZERO };
    r == if distance.le(zero) || velocity.le(zero) || acceleration.le(zero) {
        Profile::Rest
    } else if distance.le(ramps) {
        Profile::Triangle
    } else {
        Profile::Trapezoid
    }
}

/// The shape of a motion over `distance` at peak `velocity` and ramp `acceleration`, whose two
/// ramps together cover `ramps`.
///
/// It serves to estimate a duration only: a blended segment never comes to rest at its far end.
pub fn motion_profile(
    distance: Double,
    velocity: Double,
    acceleration: Double,
    ramps: Double,
) -> (r: Profile)
    ensures
        has_profile(distance, velocity, acceleration, ramps, r),
{
    let zero = Double { bits: ZERO };
    if distance.at_most(zero) || velocity.at_most(zero) || acceleration.at_most(zero) {
        Profile::Rest
    } else if distance.at_most(ramps) {
        Profile::Triangle
    } else {
        Profile::Trapezoid
    }
}

/// Whether a move peaks at that speed.
pub open spec fn is_peak_speed(
    distance: Double,
    velocity: Double,
    acceleration: Double,
    reached: Double,
    r: Double,
) -> bool {
    let zero = Double { bits: ZERO };
    r == if distance.le(zero) || acceleration.le(zero) {
        zero
    } else {
        lesser(velocity, reached)
    }
}

/// The peak speed actually reached over `distance`, which may be below `velocity`: `reached` is
/// what ramping over half of it at `acceleration` gives.
pub fn achievable_peak_speed(
    distance: Double,
    velocity: Double,
    acceleration: Double,
    reached: Double,
) -> (r: Double)
    ensures
        is_peak_speed(distance, velocity, acceleration, reached, r),
{
    let zero = Double { bits: ZERO };
    if distance.at_most(zero) || acceleration.at_most(zero) {
        zero
    } else {
        take_lesser(velocity, reached)
    }
}

/// One corner between two segments along which the tool travels.
#[derive(Clone, Copy, PartialEq, Eq, Debug, Structural)]
pub struct Corner {
    /// Whether the path turns by less than a right angle.
    pub gentle: bool,
    /// The blend radius, in metres.
    pub blend: Double,
}

/// Whether there is a corner between two segments of those lengths.
pub open spec fn is_between_ways(incoming: Double, outgoing: Double, r: bool) -> bool {
    r == !(incoming.le(Double { bits: DIRECTIONLESS }) || outgoing.le(
        Double { bits: DIRECTIONLESS },
    ))
}

/// Whether there is a corner between two segments of these lengths: both have a direction.
pub fn has_corner(incoming: Double, outgoing: Double) -> (r: bool)
    ensures
        is_between_ways(incoming, outgoing, r),
{
    let least = Double { bits: DIRECTIONLESS };
    !(incoming.at_most(least) || outgoing.at_most(least))
}

/// What a pinned radius allows: nothing where it is negative or no number.
pub open spec fn allowed_by(requested: Double) -> Double {
    if (Double { bits: ZERO }).lt(requested) {
        requested
    } else {
        Double { bits: ZERO }
    }
}

/// The largest radius that the bounds on a blend leave.
pub open spec fn blend_bound(
    share: Double,
    quarter: Double,
    deviation: Double,
    requested: Option<Double>,
) -> Double {
    let within = if (Double { bits: STRAIGHT }).lt(quarter) {
        lesser(share, deviation)
    } else {
        share
    };
    match requested {
        Some(cap) => lesser(within, allowed_by(cap)),
        None => within,
    }
}

/// The blend radius at a corner.
pub open spec fn blend_of(
    deflection: Double,
    share: Double,
    quarter: Double,
    deviation: Double,
    requested: Option<Double>,
) -> Double {
    let bound = blend_bound(share, quarter, deviation, requested);
    if (Double { bits: MAX_BLENDABLE_DEFLECTION }).le(deflection) || bound.lt(
        Double { bits: MIN_USEFUL_BLEND },
    ) {
        Double { bits: ZERO }
    } else {
        bound
    }
}

fn take_lesser(a: Double, b: Double) -> (r: Double)
    ensures
        r == lesser(a, b),
{
    if a.nan() || b.less(a) {
        b
    } else {
        a
    }
}

/// The blend radius to command at a corner, in metres.
///
/// Bounded by three things: `share`, the part of the chords on either side that a blend may take
/// without overlapping its neighbours; `deviation`, the radius at which the path strays as far as
/// it may, which a straight-through corner does not have; and what the caller asked for.
/// `quarter` is the tangent of a quarter of the deflection. A near-reversal has no blend: no arc
/// turns a path back on itself without leaving the corner entirely.
pub fn blend_radius(
    deflection: Double,
    share: Double,
    quarter: Double,
    deviation: Double,
    requested: Option<Double>,
) -> (r: Double)
    ensures
        r == blend_of(deflection, share, quarter, deviation, requested),
{
    let zero = Double { bits: ZERO };
    if (Double { bits: MAX_BLENDABLE_DEFLECTION }).at_most(deflection) {
        return zero;
    }
    let mut bound = share;
    if (Double { bits: STRAIGHT }).less(quarter) {
        bound = take_lesser(bound, deviation);
    }
    if let Some(cap) = requested {
        let allowed = if zero.less(cap) {
            cap
        } else {
            zero
        };
        bound = take_lesser(bound, allowed);
    }
    if bound.less(Double { bits: MIN_USEFUL_BLEND }) {
        zero
    } else {
        bound
    }
}

/// Whether that is what is measured of a corner.
pub open spec fn is_corner(
    deflection: Double,
    share: Double,
    quarter: Double,
    deviation: Double,
    requested: Option<Double>,
    r: Corner,
) -> bool {
    &&& r.gentle == deflection.lt(Double { bits: RIGHT_ANGLE })
    &&& r.blend == blend_of(deflection, share, quarter, deviation, requested)
}

/// A corner of that deflection, with its blend.
pub fn corner_at(
    deflection: Double,
    share: Double,
    quarter: Double,
    deviation: Double,
    requested: Option<Double>,
) -> (r: Corner)
    ensures
        is_corner(deflection, share, quarter, deviation, requested, r),
{
    Corner {
        gentle: deflection.less(Double { bits: RIGHT_ANGLE }),
        blend: blend_radius(deflection, share, quarter, deviation, requested),
    }
}

/// Whether a straight segment is looked at in that many places.
pub open spec fn is_sample_count(distance: Double, steps: usize, r: usize) -> bool {
    r == (if distance.le(Double { bits: LINEAR_SAMPLE_STEP }) {
        2
    } else if steps + 1 <= MAX_LINEAR_SAMPLES {
        steps + 1
    } else {
        MAX_LINEAR_SAMPLES as int
    })
}

/// How many samples a straight segment is checked at: both ends of a short one, else one more
/// than it has `steps`, as far as that is allowed.
pub fn linear_samples(distance: Double, steps: usize) -> (r: usize)
    requires
        steps < usize::MAX,
    ensures
        is_sample_count(distance, steps, r),
{
    if distance.at_most(Double { bits: LINEAR_SAMPLE_STEP }) {
        2
    } else if steps + 1 <= MAX_LINEAR_SAMPLES {
        steps + 1
    } else {
        MAX_LINEAR_SAMPLES
    }
}

/// Whether a step of that length is a flip.
pub open spec fn is_flip_of(distance: Double, r: bool) -> bool {
    r == (Double { bits: HALF_TURN }).lt(distance)
}

/// Whether two neighbouring samples of a straight segment are on different branches: a jump
/// mid-line is a wrist flip, not a straight move. `distance` is the weighted distance between
/// their configurations.
pub fn is_flip(distance: Double) -> (r: bool)
    ensures
        is_flip_of(distance, r),
{
    (Double { bits: HALF_TURN }).less(distance)
}

proof fn lemma_speed_allowed(paces: Seq<Pace>, n: nat)
    requires
        n <= paces.len(),
        forall|i: int|
            0 <= i < n && (#[trigger] paces[i]).moves() ==> !paces[i].velocity.is_nan()
                && !paces[i].acceleration.is_nan(),
    ensures
        !speed_allowed(paces, n).is_nan(),
        !ramp_allowed(paces, n).is_nan(),
        forall|i: int|
            0 <= i < n && (#[trigger] paces[i]).moves() ==> speed_allowed(paces, n).le(
                paces[i].velocity,
            ) && ramp_allowed(paces, n).le(paces[i].acceleration),
        speed_allowed(paces, n).bits != INFINITE ==> 0 <= limiting_joint(paces, n) < n
            && paces[limiting_joint(paces, n)].moves() && paces[limiting_joint(paces, n)].velocity
            == speed_allowed(paces, n),
    decreases n,
{
    if n > 0 {
        lemma_speed_allowed(paces, (n - 1) as nat);
    }
}

/// The speed of a `movej` is legal and tight: at it no joint that moves is past its limits, and
/// one of them - the one that is reported - is exactly on its velocity limit.
pub proof fn segment_speeds_are_tight(paces: Seq<Pace>)
    requires
        forall|i: int|
            0 <= i < paces.len() && (#[trigger] paces[i]).moves() ==> !paces[i].velocity.is_nan()
                && !paces[i].acceleration.is_nan(),
        is_finite(speed_allowed(paces, paces.len())),
    ensures
        forall|i: int|
            0 <= i < paces.len() && (#[trigger] paces[i]).moves() ==> speed_allowed(
                paces,
                paces.len(),
            ).le(paces[i].velocity) && ramp_allowed(paces, paces.len()).le(paces[i].acceleration),
        ({
            let j = limiting_joint(paces, paces.len());
            0 <= j < paces.len() && paces[j].moves() && paces[j].velocity == speed_allowed(
                paces,
                paces.len(),
            )
        }),
{
    lemma_speed_allowed(paces, paces.len());
}

/// The tool speed along a straight segment is under the ceiling, and at it no joint is past its
/// limit anywhere on the line.
pub proof fn straight_segments_respect_every_cap(caps: Seq<Cap>, ceiling: Double, n: nat)
    requires
        n <= caps.len(),
        !ceiling.is_nan(),
        forall|i: int|
            0 <= i < n && (#[trigger] caps[i]).moves() ==> !caps[i].velocity.is_nan(),
    ensures
        !speed_capped(caps, ceiling, n).is_nan(),
        speed_capped(caps, ceiling, n).le(ceiling),
        forall|i: int|
            0 <= i < n && (#[trigger] caps[i]).moves() ==> speed_capped(caps, ceiling, n).le(
                caps[i].velocity,
            ),
    decreases n,
{
    if n > 0 {
        straight_segments_respect_every_cap(caps, ceiling, (n - 1) as nat);
    }
}

/// A blend never takes more than its share of the chords, never strays further than it may and
/// is never larger than was asked for.
pub proof fn blends_stay_within_their_bounds(
    deflection: Double,
    share: Double,
    quarter: Double,
    deviation: Double,
    requested: Option<Double>,
)
    requires
        (Double { bits: ZERO }).le(share),
        (Double { bits: ZERO }).le(deviation),
    ensures
        ({
            let r = blend_of(deflection, share, quarter, deviation, requested);
            &&& (Double { bits: ZERO }).le(r)
            &&& r.le(share)
            &&& (Double { bits: STRAIGHT }).lt(quarter) ==> r.le(deviation)
            &&& requested matches Some(cap) ==> r.le(allowed_by(cap))
        }),
{
}

/// A segment ramps as fast as its joints allow: the acceleration is exactly that of one of the
/// joints that move.
pub proof fn segment_ramps_are_tight(paces: Seq<Pace>, n: nat)
    requires
        n <= paces.len(),
        is_finite(ramp_allowed(paces, n)),
    ensures
        exists|j: int|
            0 <= j < n && (#[trigger] paces[j]).moves() && paces[j].acceleration == ramp_allowed(
                paces,
                n,
            ),
    decreases n,
{
    if n > 0 {
        let before = ramp_allowed(paces, (n - 1) as nat);
        if paces[n - 1].moves() && paces[n - 1].acceleration.lt(before) {
            assert(paces[n - 1].moves());
        } else {
            segment_ramps_are_tight(paces, (n - 1) as nat);
            let j = choose|j: int|
                0 <= j < n - 1 && (#[trigger] paces[j]).moves() && paces[j].acceleration == before;
            assert(paces[j].moves());
        }
    }
}

/// A straight segment is as fast as it may be: its speed is the ceiling, or exactly what one of
/// the joints that move allows. Which joint that was is reported.
pub proof fn straight_segments_are_tight(caps: Seq<Cap>, ceiling: Double, n: nat)
    requires
        n <= caps.len(),
    ensures
        speed_capped(caps, ceiling, n) == ceiling || exists|j: int|
            {
                &&& 0 <= j < n
                &&& (#[trigger] caps[j]).moves()
                &&& caps[j].velocity == speed_capped(caps, ceiling, n)
                &&& caps[j].joint == capping_joint(caps, ceiling, n)
            },
    decreases n,
{
    if n > 0 {
        let before = speed_capped(caps, ceiling, (n - 1) as nat);
        if caps[n - 1].moves() && caps[n - 1].velocity.lt(before) {
            assert(caps[n - 1].moves());
        } else {
            straight_segments_are_tight(caps, ceiling, (n - 1) as nat);
            if before != ceiling {
                let j = choose|j: int|
                    {
                        &&& 0 <= j < n - 1
                        &&& (#[trigger] caps[j]).moves()
                        &&& caps[j].velocity == before
                        &&& caps[j].joint == capping_joint(caps, ceiling, (n - 1) as nat)
                    };
                assert(caps[j].moves());
            }
        }
    }
}

/// A corner is blended as wide as it may be: a blend is exactly one of its bounds, and there is
/// none only where the path all but turns back, or where one of the bounds leaves too little.
pub proof fn blends_are_as_wide_as_allowed(
    deflection: Double,
    share: Double,
    quarter: Double,
    deviation: Double,
    requested: Option<Double>,
)
    requires
        !share.is_nan(),
        !deviation.is_nan(),
    ensures
        ({
            let r = blend_of(deflection, share, quarter, deviation, requested);
            let bent = (Double { bits: STRAIGHT }).lt(quarter);
            let small = Double { bits: MIN_USEFUL_BLEND };
            &&& (Double { bits: MAX_BLENDABLE_DEFLECTION }).le(deflection) ==> r.bits == ZERO
            &&& r.bits != ZERO ==> {
                ||| r == share
                ||| bent && r == deviation
                ||| requested == Some(r)
            }
            &&& r.bits == ZERO && !(Double { bits: MAX_BLENDABLE_DEFLECTION }).le(deflection) ==> {
                ||| share.lt(small)
                ||| bent && deviation.lt(small)
                ||| (requested matches Some(cap) && !small.le(cap))
            }
            &&& r.bits != ZERO ==> small.le(r)
        }),
{
    assert(MIN_USEFUL_BLEND > ZERO);
}

/// The speed of a segment is the fastest that is legal: no joint that moves is driven beyond what
/// it allows, in speed or in ramp, and one of them is exactly at each. There is none only where
/// nothing moves, or where what moves sets no bound.
pub proof fn segments_run_at_the_fastest_legal_speed(
    leading: Double,
    paces: Seq<Pace>,
    r: Option<SegmentSpeed>,
    i: int,
)
    requires
        is_segment_speed(leading, paces, r),
        forall|i: int|
            0 <= i < paces.len() && (#[trigger] paces[i]).moves() ==> !paces[i].velocity.is_nan()
                && !paces[i].acceleration.is_nan(),
    ensures
        r matches Some(s) ==> {
            &&& 0 <= i < paces.len() && paces[i].moves() ==> s.velocity.le(paces[i].velocity)
                && s.acceleration.le(paces[i].acceleration)
            &&& s.limiting_joint < paces.len()
            &&& paces[s.limiting_joint as int].moves()
            &&& paces[s.limiting_joint as int].velocity == s.velocity
            &&& exists|j: int|
                0 <= j < paces.len() && (#[trigger] paces[j]).moves() && paces[j].acceleration
                    == s.acceleration
            &&& (Double { bits: MOTIONLESS_JOINT }).lt(leading) || leading.is_nan()
        },
        r is None && (Double { bits: MOTIONLESS_JOINT }).lt(leading) ==> {
            ||| forall|j: int|
                0 <= j < paces.len() && (#[trigger] paces[j]).moves()
                    ==> !paces[j].velocity.lt(Double { bits: INFINITE })
            ||| forall|j: int|
                0 <= j < paces.len() && (#[trigger] paces[j]).moves()
                    ==> !paces[j].acceleration.lt(Double { bits: INFINITE })
            ||| exists|j: int|
                0 <= j < paces.len() && (#[trigger] paces[j]).moves() && (!is_finite(
                    paces[j].velocity,
                ) || !is_finite(paces[j].acceleration))
        },
{
    if r is Some {
        segment_speeds_are_tight(paces);
        segment_ramps_are_tight(paces, paces.len());
    } else if (Double { bits: MOTIONLESS_JOINT }).lt(leading) {
        lemma_speed_is_one_of_theirs(paces, paces.len());
    }
}

proof fn lemma_speed_is_one_of_theirs(paces: Seq<Pace>, n: nat)
    requires
        n <= paces.len(),
    ensures
        speed_allowed(paces, n).bits == INFINITE || exists|j: int|
            0 <= j < n && (#[trigger] paces[j]).moves() && paces[j].velocity == speed_allowed(
                paces,
                n,
            ),
        ramp_allowed(paces, n).bits == INFINITE || exists|j: int|
            0 <= j < n && (#[trigger] paces[j]).moves() && paces[j].acceleration == ramp_allowed(
                paces,
                n,
            ),
        speed_allowed(paces, n).bits == INFINITE ==> forall|j: int|
            0 <= j < n && (#[trigger] paces[j]).moves() ==> !paces[j].velocity.lt(
                Double { bits: INFINITE },
            ),
        ramp_allowed(paces, n).bits == INFINITE ==> forall|j: int|
            0 <= j < n && (#[trigger] paces[j]).moves() ==> !paces[j].acceleration.lt(
                Double { bits: INFINITE },
            ),
    decreases n,
{
    if n > 0 {
        let m = (n - 1) as nat;
        lemma_speed_is_one_of_theirs(paces, m);
        let v = speed_allowed(paces, m);
        let a = ramp_allowed(paces, m);
        assert(paces[n - 1].moves() || !paces[n - 1].moves());
        if v.bits != INFINITE {
            let j = choose|j: int|
                0 <= j < m && (#[trigger] paces[j]).moves() && paces[j].velocity == v;
            assert(paces[j].moves());
        }
        if a.bits != INFINITE {
            let j = choose|j: int|
                0 <= j < m && (#[trigger] paces[j]).moves() && paces[j].acceleration == a;
            assert(paces[j].moves());
        }
    }
}

/// A straight segment runs at the fastest legal speed too: at the ceiling, or at what the joint
/// that is reported allows; and never beyond what any joint that moves allows.
pub proof fn straight_segments_run_at_the_fastest_legal_speed(
    caps: Seq<Cap>,
    ceiling: Double,
    r: (Double, usize),
    i: int,
)
    requires
        is_speed_cap(caps, ceiling, r),
        !ceiling.is_nan(),
        forall|i: int|
            0 <= i < caps.len() && (#[trigger] caps[i]).moves() ==> !caps[i].velocity.is_nan(),
    ensures
        r.0.le(ceiling),
        0 <= i < caps.len() && caps[i].moves() ==> r.0.le(caps[i].velocity),
        r.0 == ceiling || exists|j: int|
            0 <= j < caps.len() && (#[trigger] caps[j]).moves() && caps[j].velocity == r.0
                && caps[j].joint == r.1,
{
    straight_segments_respect_every_cap(caps, ceiling, caps.len());
    straight_segments_are_tight(caps, ceiling, caps.len());
}

/// What is measured of a corner is its own: it is gentle below a right angle, and blended as wide
/// as its bounds allow, never wider than was asked for.
pub proof fn corners_are_blended_within_reason(
    deflection: Double,
    share: Double,
    quarter: Double,
    deviation: Double,
    requested: Option<Double>,
    r: Corner,
)
    requires
        is_corner(deflection, share, quarter, deviation, requested, r),
        (Double { bits: ZERO }).le(share),
        (Double { bits: ZERO }).le(deviation),
    ensures
        r.gentle <==> deflection.lt(Double { bits: RIGHT_ANGLE }),
        r.blend.le(share),
        (Double { bits: STRAIGHT }).lt(quarter) ==> r.blend.le(deviation),
        requested matches Some(cap) ==> r.blend.bits == ZERO || r.blend.le(cap),
        r.blend.bits != ZERO ==> {
            ||| r.blend == share
            ||| (Double { bits: STRAIGHT }).lt(quarter) && r.blend == deviation
            ||| requested == Some(r.blend)
        },
        (Double { bits: MAX_BLENDABLE_DEFLECTION }).le(deflection) ==> r.blend.bits == ZERO,
        r.blend.bits == ZERO && deflection.lt(Double { bits: MAX_BLENDABLE_DEFLECTION }) ==> {
            ||| share.lt(Double { bits: MIN_USEFUL_BLEND })
            ||| (Double { bits: STRAIGHT }).lt(quarter) && deviation.lt(
                Double { bits: MIN_USEFUL_BLEND },
            )
            ||| (requested matches Some(cap) && !(Double { bits: MIN_USEFUL_BLEND }).le(cap))
        },
{
    blends_stay_within_their_bounds(deflection, share, quarter, deviation, requested);
    blends_are_as_wide_as_allowed(deflection, share, quarter, deviation, requested);
}

/// A move is at rest exactly where it has no way to go or no means to go it; it comes up to speed
/// exactly where the way is longer than its ramps. Its peak is never beyond its speed, nor beyond
/// what the way lets it reach.
pub proof fn moves_have_the_profile_of_their_way(
    distance: Double,
    velocity: Double,
    acceleration: Double,
    ramps: Double,
    reached: Double,
    profile: Profile,
    peak: Double,
)
    requires
        has_profile(distance, velocity, acceleration, ramps, profile),
        is_peak_speed(distance, velocity, acceleration, reached, peak),
        (Double { bits: ZERO }).lt(velocity),
        (Double { bits: ZERO }).lt(acceleration),
        !distance.is_nan(),
        !ramps.is_nan(),
        !reached.is_nan(),
    ensures
        profile is Rest <==> !(Double { bits: ZERO }).lt(distance),
        profile is Trapezoid <==> (Double { bits: ZERO }).lt(distance) && ramps.lt(distance),
        (Double { bits: ZERO }).lt(distance) ==> peak.le(velocity) && peak.le(reached) && (peak
            == velocity || peak == reached),
        !(Double { bits: ZERO }).lt(distance) ==> peak.bits == ZERO,
{
}

/// A segment keeps the speed it was given and is still exactly where the tool hardly travels; and
/// a straight one is looked at in two places at least, and in no more than there are steps for.
pub proof fn segments_are_timed_as_measured(
    speed: SegmentSpeed,
    chord: Double,
    segment: Segment,
    distance: Double,
    steps: usize,
    samples: usize,
)
    requires
        is_timed(speed, chord, segment),
        0 < steps < usize::MAX,
        is_sample_count(distance, steps, samples),
    ensures
        segment.speed == speed,
        segment.still <==> chord.lt(Double { bits: STILL }),
        2 <= samples <= 2000,
        samples <= steps + 1,
        !distance.le(Double { bits: LINEAR_SAMPLE_STEP }) && steps < 2000 ==> samples == steps + 1,
{
}

/// A joint counts as moving as soon as it travels by more than the arithmetic can account for, a
/// billionth of a radian; only what does not travel is left out of account. So does one that is
/// driven along a straight segment.
pub proof fn whatever_travels_counts(pace: Pace, cap: Cap)
    ensures
        (Double { bits: MOTIONLESS_JOINT }).lt(pace.travel) ==> pace.moves(),
        pace.travel.le(Double { bits: MOTIONLESS_JOINT }) ==> !pace.moves(),
        (Double { bits: MOTIONLESS_JOINT }).lt(cap.rate) ==> cap.moves(),
        cap.rate.le(Double { bits: MOTIONLESS_JOINT }) ==> !cap.moves(),
{
}

/// A corner is there only between two segments that lead somewhere.
pub proof fn corners_join_two_ways(incoming: Double, outgoing: Double, r: bool)
    requires
        is_between_ways(incoming, outgoing, r),
        !incoming.is_nan(),
        !outgoing.is_nan(),
    ensures
        r <==> (Double { bits: DIRECTIONLESS }).lt(incoming) && (Double { bits: DIRECTIONLESS }).lt(
            outgoing,
        ),
{
}

/// A straight path is followable only where no joint has to turn by more than half a turn between
/// two places that are looked at.
pub proof fn half_turns_are_flips(distance: Double, r: bool)
    requires
        is_flip_of(distance, r),
        !distance.is_nan(),
    ensures
        !r <==> distance.le(Double { bits: HALF_TURN }),
{
}

} // verus!
