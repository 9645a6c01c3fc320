//! What the numbers of the library are: doubles have the order and the value they stand for, and
//! the constants are what they are said to be.

use crate::command_server::safe_home;
use crate::double::{big_endian, Double, INFINITE, ONE, STEP};
use crate::state_publisher::{FORCE_EPSILON, POSE_EPSILON};
use crate::text::{decimal, digits_value, is_digit, unsigned_digits, unsigned_value};
use crate::trajectory::kinematics::{lengths_of, DhParameters, QUARTER_TURN, QUARTER_TURN_BACK};
use crate::trajectory::limits::{FULL_TURN, FULL_TURN_BACK};
use crate::trajectory::online::START_TOLERANCE_RAD;
use crate::trajectory::plan::DEFAULT_MAX_PATH_DEVIATION;
use crate::trajectory::timing::{
    DEFAULT_MAX_CARTESIAN_SPEED, DIRECTIONLESS, HALF_TURN, LINEAR_SAMPLE_STEP,
    MAX_BLENDABLE_DEFLECTION, MIN_USEFUL_BLEND, MOTIONLESS_JOINT, RIGHT_ANGLE, STILL, STRAIGHT,
};
use vstd::arithmetic::power2::{
    lemma2_to64, lemma2_to64_rest, lemma_pow2_adds, lemma_pow2_pos, lemma_pow2_strictly_increases,
    pow2,
};
use vstd::prelude::*;

verus! {

/// What a magnitude stands for, counted in the least that a double can hold.
pub open spec fn exact(magnitude: int) -> int {
    let e = magnitude / STEP as int;
    if e == 0 {
        magnitude
    } else {
        (magnitude % STEP as int + STEP) * pow2((e - 1) as nat)
    }
}

/// What a finite double stands for, counted in the least that a double can hold.
pub open spec fn value(d: Double) -> int {
    if d.is_negative() {
        -exact(d.magnitude())
    } else {
        exact(d.magnitude())
    }
}

proof fn lemma_exact_grows(a: int, b: int)
    requires
        0 <= a < b,
    ensures
        0 <= exact(a) < exact(b),
{
    let step = STEP as int;
    let (ea, eb) = (a / step, b / step);
    let (fa, fb) = (a % step, b % step);
    assert(a == ea * step + fa && 0 <= fa < step) by (nonlinear_arith)
        requires
            ea == a / step,
            fa == a % step,
            step == 0x10_0000_0000_0000,
    ;
    assert(b == eb * step + fb && 0 <= fb < step) by (nonlinear_arith)
        requires
            eb == b / step,
            fb == b % step,
            step == 0x10_0000_0000_0000,
    ;
    assert(0 <= ea <= eb) by (nonlinear_arith)
        requires
            a == ea * step + fa,
            b == eb * step + fb,
            0 <= fa < step,
            0 <= fb < step,
            0 <= a < b,
    ;
    if eb > 0 {
        let p = pow2((eb - 1) as nat) as int;
        lemma_pow2_pos((eb - 1) as nat);
        assert((fb + step) * p >= step * p && step * p >= step) by (nonlinear_arith)
            requires
                fb >= 0,
                p >= 1,
                step > 0,
        ;
        if ea == eb {
            assert((fa + step) * p < (fb + step) * p && 0 <= (fa + step) * p) by (nonlinear_arith)
                requires
                    0 <= fa < fb,
                    p >= 1,
                    step > 0,
            ;
        } else if ea > 0 {
            let q = pow2((ea - 1) as nat) as int;
            lemma_pow2_pos((ea - 1) as nat);
            lemma_pow2_adds(1, (ea - 1) as nat);
            lemma2_to64();
            assert(pow2(ea as nat) == 2 * q);
            if ea < eb - 1 {
                lemma_pow2_strictly_increases(ea as nat, (eb - 1) as nat);
            }
            assert((fa + step) * q < step * p && 0 <= (fa + step) * q) by (nonlinear_arith)
                requires
                    0 <= fa < step,
                    q >= 1,
                    2 * q <= p,
            ;
        }
    }
}

/// Doubles are in the order of what they stand for.
pub proof fn doubles_are_in_the_order_of_their_values(a: Double, b: Double)
    requires
        a.magnitude() < INFINITE,
        b.magnitude() < INFINITE,
    ensures
        a.lt(b) <==> value(a) < value(b),
        a.le(b) <==> value(a) <= value(b),
        a.equal(b) <==> value(a) == value(b),
{
    let (m, n) = (a.magnitude(), b.magnitude());
    if m < n {
        lemma_exact_grows(m, n);
    } else if n < m {
        lemma_exact_grows(n, m);
    }
    if m > 0 {
        lemma_exact_grows(0, m);
    }
    if n > 0 {
        lemma_exact_grows(0, n);
    }
    assert(exact(0) == 0);
}

/// Twice a number is two times what it stands for, as long as that is finite. (The accelerations
/// of an arm are estimated as twice its speeds.)
pub proof fn twice_is_two_times(a: Double, b: Double)
    requires
        a.magnitude() < INFINITE,
        b.bits == a.twice_encoded(),
        b.magnitude() < INFINITE,
    ensures
        value(b) == 2 * value(a),
{
    let step = STEP as int;
    let m = a.magnitude();
    lemma2_to64();
    if m < step {
        assert(b.magnitude() == 2 * m);
        assert(m / step == 0) by (nonlinear_arith)
            requires
                0 <= m < step,
        ;
        if 2 * m >= step {
            assert((2 * m) / step == 1 && (2 * m) % step == 2 * m - step) by (nonlinear_arith)
                requires
                    step <= 2 * m < 2 * step,
            ;
            assert((2 * m - step + step) * pow2(0) == 2 * m) by (nonlinear_arith)
                requires
                    pow2(0) == 1,
            ;
        } else {
            assert((2 * m) / step == 0) by (nonlinear_arith)
                requires
                    0 <= 2 * m < step,
            ;
        }
    } else {
        let e = m / step;
        let f = m % step;
        assert(e >= 1 && (m + step) / step == e + 1 && (m + step) % step == f) by (nonlinear_arith)
            requires
                e == m / step,
                f == m % step,
                m >= step,
                step == 0x10_0000_0000_0000,
        ;
        lemma_pow2_adds(1, (e - 1) as nat);
        let p = pow2((e - 1) as nat) as int;
        assert(pow2(e as nat) == 2 * p);
        assert((f + step) * (2 * p) == 2 * ((f + step) * p)) by (nonlinear_arith);
    }
}

/// Bytes count from the left: the first of eight weighs the most.
pub proof fn bytes_count_from_the_left(bytes: Seq<u8>)
    ensures
        bytes.len() == 4 ==> big_endian(bytes) == 0x100_0000 * bytes[0] + 0x1_0000 * bytes[1]
            + 0x100 * bytes[2] + bytes[3],
        bytes.len() == 8 ==> big_endian(bytes) == 0x100_0000_0000_0000 * bytes[0]
            + 0x1_0000_0000_0000 * bytes[1] + 0x100_0000_0000 * bytes[2] + 0x1_0000_0000 * bytes[3]
            + 0x100_0000 * bytes[4] + 0x1_0000 * bytes[5] + 0x100 * bytes[6] + bytes[7],
{
    reveal_with_fuel(big_endian, 9);
}

/// Whether a double is the one nearest to a fraction.
pub open spec fn is_nearest(d: Double, over: int, under: int) -> bool {
    let e = d.exponent();
    let wanted = (if over < 0 {
        -over
    } else {
        over
    }) * pow2((1075 - e) as nat);
    &&& d.is_negative() <==> over < 0
    &&& 1 <= e <= 1075
    &&& -under <= 2 * (d.significand() * under - wanted) <= under
}

proof fn lemma_powers()
    ensures
        pow2(50) == 0x4000000000000,
        pow2(51) == 0x8000000000000,
        pow2(52) == 0x10000000000000,
        pow2(53) == 0x20000000000000,
        pow2(54) == 0x40000000000000,
        pow2(55) == 0x80000000000000,
        pow2(56) == 0x100000000000000,
        pow2(57) == 0x200000000000000,
        pow2(59) == 0x800000000000000,
        pow2(60) == 0x1000000000000000,
        pow2(62) == 0x4000000000000000,
        pow2(66) == 0x40000000000000000,
        pow2(72) == 0x1000000000000000000,
        pow2(82) == 0x400000000000000000000,
        pow2(92) == 0x100000000000000000000000,
{
    lemma2_to64();
    lemma2_to64_rest();
    lemma_pow2_adds(64, 2);
    lemma_pow2_adds(64, 8);
    lemma_pow2_adds(64, 18);
    lemma_pow2_adds(64, 28);
}

/// The thresholds and defaults are what they are said to be, in metres, radians, newtons and their
/// parts.
pub proof fn thresholds_are_what_they_are_said_to_be()
    ensures
        is_nearest(Double { bits: MOTIONLESS_JOINT }, 1, 1000000000),
        is_nearest(Double { bits: STRAIGHT }, 1, 1000000000),
        is_nearest(Double { bits: STILL }, 1, 1000000),
        is_nearest(Double { bits: DIRECTIONLESS }, 1, 1000000000000),
        is_nearest(Double { bits: MIN_USEFUL_BLEND }, 1, 1000),
        is_nearest(Double { bits: LINEAR_SAMPLE_STEP }, 5, 1000),
        is_nearest(Double { bits: DEFAULT_MAX_CARTESIAN_SPEED }, 5, 10),
        is_nearest(Double { bits: DEFAULT_MAX_PATH_DEVIATION }, 1, 100),
        is_nearest(Double { bits: START_TOLERANCE_RAD }, 5, 100),
        is_nearest(Double { bits: FORCE_EPSILON }, 25, 100),
        is_nearest(Double { bits: POSE_EPSILON }, 1, 10000),
        is_nearest(Double { bits: ONE }, 10, 10),
        is_nearest(safe_home()[1], -15707, 10000),
        is_nearest(safe_home()[3], -15707, 10000),
        safe_home().len() == 6,
        forall|i: int| i == 0 || i == 2 || i == 4 || i == 5 ==> (#[trigger] safe_home()[i]).bits == 0,
{
    lemma_powers();
}

/// The angles are the parts of a turn they are named after, and a corner is too sharp to blend
/// from 170 degrees on.
pub proof fn angles_are_what_they_are_said_to_be()
    ensures
        is_nearest(Double { bits: RIGHT_ANGLE }, 15707963267948966, 10000000000000000),
        is_nearest(Double { bits: QUARTER_TURN }, 15707963267948966, 10000000000000000),
        is_nearest(Double { bits: QUARTER_TURN_BACK }, -15707963267948966, 10000000000000000),
        is_nearest(Double { bits: HALF_TURN }, 3141592653589793, 1000000000000000),
        is_nearest(Double { bits: FULL_TURN }, 6283185307179586, 1000000000000000),
        is_nearest(Double { bits: FULL_TURN_BACK }, -6283185307179586, 1000000000000000),
        is_nearest(Double { bits: MAX_BLENDABLE_DEFLECTION }, 29670597283903604, 10000000000000000),
{
    lemma_powers();
}

/// The lengths of the UR3, as its maker publishes them.
pub proof fn lengths_of_the_ur3()
    ensures
        lengths_of("ur3"@) is Some,
        is_nearest((lengths_of("ur3"@)->0).d1, 1519, 10000),
        is_nearest((lengths_of("ur3"@)->0).a2, -24365, 100000),
        is_nearest((lengths_of("ur3"@)->0).a3, -21325, 100000),
        is_nearest((lengths_of("ur3"@)->0).d4, 11235, 100000),
        is_nearest((lengths_of("ur3"@)->0).d5, 8535, 100000),
        is_nearest((lengths_of("ur3"@)->0).d6, 819, 10000),
{
    lemma_powers();
    reveal_strlit("ur10");
    reveal_strlit("ur10e");
    reveal_strlit("ur16e");
    reveal_strlit("ur20");
    reveal_strlit("ur3");
    reveal_strlit("ur30");
    reveal_strlit("ur3e");
    reveal_strlit("ur5");
    reveal_strlit("ur5e");
    assert("ur10"@.len() == 4);
    assert("ur10e"@.len() == 5);
    assert("ur16e"@.len() == 5);
    assert("ur20"@.len() == 4);
    assert("ur3"@.len() == 3);
    assert("ur30"@.len() == 4);
    assert("ur3e"@.len() == 4);
    assert("ur5"@.len() == 3);
    assert("ur5e"@.len() == 4);
    assert("ur10"@[2] != "ur20"@[2]);
    assert("ur10"@[2] != "ur30"@[2]);
    assert("ur10"@[2] != "ur3e"@[2]);
    assert("ur10"@[2] != "ur5e"@[2]);
    assert("ur10e"@[3] != "ur16e"@[3]);
    assert("ur20"@[2] != "ur30"@[2]);
    assert("ur20"@[2] != "ur3e"@[2]);
    assert("ur20"@[2] != "ur5e"@[2]);
    assert("ur3"@[2] != "ur5"@[2]);
    assert("ur30"@[3] != "ur3e"@[3]);
    assert("ur30"@[2] != "ur5e"@[2]);
    assert("ur3e"@[2] != "ur5e"@[2]);
}

/// The lengths of the UR3E, as its maker publishes them.
pub proof fn lengths_of_the_ur3e()
    ensures
        lengths_of("ur3e"@) is Some,
        is_nearest((lengths_of("ur3e"@)->0).d1, 15185, 100000),
        is_nearest((lengths_of("ur3e"@)->0).a2, -24355, 100000),
        is_nearest((lengths_of("ur3e"@)->0).a3, -2132, 10000),
        is_nearest((lengths_of("ur3e"@)->0).d4, 13105, 100000),
        is_nearest((lengths_of("ur3e"@)->0).d5, 8535, 100000),
        is_nearest((lengths_of("ur3e"@)->0).d6, 921, 10000),
{
    lemma_powers();
    reveal_strlit("ur10");
    reveal_strlit("ur10e");
    reveal_strlit("ur16e");
    reveal_strlit("ur20");
    reveal_strlit("ur3");
    reveal_strlit("ur30");
    reveal_strlit("ur3e");
    reveal_strlit("ur5");
    reveal_strlit("ur5e");
    assert("ur10"@.len() == 4);
    assert("ur10e"@.len() == 5);
    assert("ur16e"@.len() == 5);
    assert("ur20"@.len() == 4);
    assert("ur3"@.len() == 3);
    assert("ur30"@.len() == 4);
    assert("ur3e"@.len() == 4);
    assert("ur5"@.len() == 3);
    assert("ur5e"@.len() == 4);
    assert("ur10"@[2] != "ur20"@[2]);
    assert("ur10"@[2] != "ur30"@[2]);
    assert("ur10"@[2] != "ur3e"@[2]);
    assert("ur10"@[2] != "ur5e"@[2]);
    assert("ur10e"@[3] != "ur16e"@[3]);
    assert("ur20"@[2] != "ur30"@[2]);
    assert("ur20"@[2] != "ur3e"@[2]);
    assert("ur20"@[2] != "ur5e"@[2]);
    assert("ur3"@[2] != "ur5"@[2]);
    assert("ur30"@[3] != "ur3e"@[3]);
    assert("ur30"@[2] != "ur5e"@[2]);
    assert("ur3e"@[2] != "ur5e"@[2]);
}

/// The lengths of the UR5, as its maker publishes them.
pub proof fn lengths_of_the_ur5()
    ensures
        lengths_of("ur5"@) is Some,
        is_nearest((lengths_of("ur5"@)->0).d1, 89159, 1000000),
        is_nearest((lengths_of("ur5"@)->0).a2, -425, 1000),
        is_nearest((lengths_of("ur5"@)->0).a3, -39225, 100000),
        is_nearest((lengths_of("ur5"@)->0).d4, 10915, 100000),
        is_nearest((lengths_of("ur5"@)->0).d5, 9465, 100000),
        is_nearest((lengths_of("ur5"@)->0).d6, 823, 10000),
{
    lemma_powers();
    reveal_strlit("ur10");
    reveal_strlit("ur10e");
    reveal_strlit("ur16e");
    reveal_strlit("ur20");
    reveal_strlit("ur3");
    reveal_strlit("ur30");
    reveal_strlit("ur3e");
    reveal_strlit("ur5");
    reveal_strlit("ur5e");
    assert("ur10"@.len() == 4);
    assert("ur10e"@.len() == 5);
    assert("ur16e"@.len() == 5);
    assert("ur20"@.len() == 4);
    assert("ur3"@.len() == 3);
    assert("ur30"@.len() == 4);
    assert("ur3e"@.len() == 4);
    assert("ur5"@.len() == 3);
    assert("ur5e"@.len() == 4);
    assert("ur10"@[2] != "ur20"@[2]);
    assert("ur10"@[2] != "ur30"@[2]);
    assert("ur10"@[2] != "ur3e"@[2]);
    assert("ur10"@[2] != "ur5e"@[2]);
    assert("ur10e"@[3] != "ur16e"@[3]);
    assert("ur20"@[2] != "ur30"@[2]);
    assert("ur20"@[2] != "ur3e"@[2]);
    assert("ur20"@[2] != "ur5e"@[2]);
    assert("ur3"@[2] != "ur5"@[2]);
    assert("ur30"@[3] != "ur3e"@[3]);
    assert("ur30"@[2] != "ur5e"@[2]);
    assert("ur3e"@[2] != "ur5e"@[2]);
}

/// The lengths of the UR5E, as its maker publishes them.
pub proof fn lengths_of_the_ur5e()
    ensures
        lengths_of("ur5e"@) is Some,
        is_nearest((lengths_of("ur5e"@)->0).d1, 1625, 10000),
        is_nearest((lengths_of("ur5e"@)->0).a2, -425, 1000),
        is_nearest((lengths_of("ur5e"@)->0).a3, -3922, 10000),
        is_nearest((lengths_of("ur5e"@)->0).d4, 1333, 10000),
        is_nearest((lengths_of("ur5e"@)->0).d5, 997, 10000),
        is_nearest((lengths_of("ur5e"@)->0).d6, 996, 10000),
{
    lemma_powers();
    reveal_strlit("ur10");
    reveal_strlit("ur10e");
    reveal_strlit("ur16e");
    reveal_strlit("ur20");
    reveal_strlit("ur3");
    reveal_strlit("ur30");
    reveal_strlit("ur3e");
    reveal_strlit("ur5");
    reveal_strlit("ur5e");
    assert("ur10"@.len() == 4);
    assert("ur10e"@.len() == 5);
    assert("ur16e"@.len() == 5);
    assert("ur20"@.len() == 4);
    assert("ur3"@.len() == 3);
    assert("ur30"@.len() == 4);
    assert("ur3e"@.len() == 4);
    assert("ur5"@.len() == 3);
    assert("ur5e"@.len() == 4);
    assert("ur10"@[2] != "ur20"@[2]);
    assert("ur10"@[2] != "ur30"@[2]);
    assert("ur10"@[2] != "ur3e"@[2]);
    assert("ur10"@[2] != "ur5e"@[2]);
    assert("ur10e"@[3] != "ur16e"@[3]);
    assert("ur20"@[2] != "ur30"@[2]);
    assert("ur20"@[2] != "ur3e"@[2]);
    assert("ur20"@[2] != "ur5e"@[2]);
    assert("ur3"@[2] != "ur5"@[2]);
    assert("ur30"@[3] != "ur3e"@[3]);
    assert("ur30"@[2] != "ur5e"@[2]);
    assert("ur3e"@[2] != "ur5e"@[2]);
}

/// The lengths of the UR10, as its maker publishes them.
pub proof fn lengths_of_the_ur10()
    ensures
        lengths_of("ur10"@) is Some,
        is_nearest((lengths_of("ur10"@)->0).d1, 1273, 10000),
        is_nearest((lengths_of("ur10"@)->0).a2, -612, 1000),
        is_nearest((lengths_of("ur10"@)->0).a3, -5723, 10000),
        is_nearest((lengths_of("ur10"@)->0).d4, 163941, 1000000),
        is_nearest((lengths_of("ur10"@)->0).d5, 1157, 10000),
        is_nearest((lengths_of("ur10"@)->0).d6, 922, 10000),
{
    lemma_powers();
    reveal_strlit("ur10");
    reveal_strlit("ur10e");
    reveal_strlit("ur16e");
    reveal_strlit("ur20");
    reveal_strlit("ur3");
    reveal_strlit("ur30");
    reveal_strlit("ur3e");
    reveal_strlit("ur5");
    reveal_strlit("ur5e");
    assert("ur10"@.len() == 4);
    assert("ur10e"@.len() == 5);
    assert("ur16e"@.len() == 5);
    assert("ur20"@.len() == 4);
    assert("ur3"@.len() == 3);
    assert("ur30"@.len() == 4);
    assert("ur3e"@.len() == 4);
    assert("ur5"@.len() == 3);
    assert("ur5e"@.len() == 4);
    assert("ur10"@[2] != "ur20"@[2]);
    assert("ur10"@[2] != "ur30"@[2]);
    assert("ur10"@[2] != "ur3e"@[2]);
    assert("ur10"@[2] != "ur5e"@[2]);
    assert("ur10e"@[3] != "ur16e"@[3]);
    assert("ur20"@[2] != "ur30"@[2]);
    assert("ur20"@[2] != "ur3e"@[2]);
    assert("ur20"@[2] != "ur5e"@[2]);
    assert("ur3"@[2] != "ur5"@[2]);
    assert("ur30"@[3] != "ur3e"@[3]);
    assert("ur30"@[2] != "ur5e"@[2]);
    assert("ur3e"@[2] != "ur5e"@[2]);
}

/// The lengths of the UR10E, as its maker publishes them.
pub proof fn lengths_of_the_ur10e()
    ensures
        lengths_of("ur10e"@) is Some,
        is_nearest((lengths_of("ur10e"@)->0).d1, 1807, 10000),
        is_nearest((lengths_of("ur10e"@)->0).a2, -6127, 10000),
        is_nearest((lengths_of("ur10e"@)->0).a3, -57155, 100000),
        is_nearest((lengths_of("ur10e"@)->0).d4, 17415, 100000),
        is_nearest((lengths_of("ur10e"@)->0).d5, 11985, 100000),
        is_nearest((lengths_of("ur10e"@)->0).d6, 11655, 100000),
{
    lemma_powers();
    reveal_strlit("ur10");
    reveal_strlit("ur10e");
    reveal_strlit("ur16e");
    reveal_strlit("ur20");
    reveal_strlit("ur3");
    reveal_strlit("ur30");
    reveal_strlit("ur3e");
    reveal_strlit("ur5");
    reveal_strlit("ur5e");
    assert("ur10"@.len() == 4);
    assert("ur10e"@.len() == 5);
    assert("ur16e"@.len() == 5);
    assert("ur20"@.len() == 4);
    assert("ur3"@.len() == 3);
    assert("ur30"@.len() == 4);
    assert("ur3e"@.len() == 4);
    assert("ur5"@.len() == 3);
    assert("ur5e"@.len() == 4);
    assert("ur10"@[2] != "ur20"@[2]);
    assert("ur10"@[2] != "ur30"@[2]);
    assert("ur10"@[2] != "ur3e"@[2]);
    assert("ur10"@[2] != "ur5e"@[2]);
    assert("ur10e"@[3] != "ur16e"@[3]);
    assert("ur20"@[2] != "ur30"@[2]);
    assert("ur20"@[2] != "ur3e"@[2]);
    assert("ur20"@[2] != "ur5e"@[2]);
    assert("ur3"@[2] != "ur5"@[2]);
    assert("ur30"@[3] != "ur3e"@[3]);
    assert("ur30"@[2] != "ur5e"@[2]);
    assert("ur3e"@[2] != "ur5e"@[2]);
}

/// The lengths of the UR16E, as its maker publishes them.
pub proof fn lengths_of_the_ur16e()
    ensures
        lengths_of("ur16e"@) is Some,
        is_nearest((lengths_of("ur16e"@)->0).d1, 1807, 10000),
        is_nearest((lengths_of("ur16e"@)->0).a2, -4784, 10000),
        is_nearest((lengths_of("ur16e"@)->0).a3, -36, 100),
        is_nearest((lengths_of("ur16e"@)->0).d4, 17415, 100000),
        is_nearest((lengths_of("ur16e"@)->0).d5, 11985, 100000),
        is_nearest((lengths_of("ur16e"@)->0).d6, 11655, 100000),
{
    lemma_powers();
    reveal_strlit("ur10");
    reveal_strlit("ur10e");
    reveal_strlit("ur16e");
    reveal_strlit("ur20");
    reveal_strlit("ur3");
    reveal_strlit("ur30");
    reveal_strlit("ur3e");
    reveal_strlit("ur5");
    reveal_strlit("ur5e");
    assert("ur10"@.len() == 4);
    assert("ur10e"@.len() == 5);
    assert("ur16e"@.len() == 5);
    assert("ur20"@.len() == 4);
    assert("ur3"@.len() == 3);
    assert("ur30"@.len() == 4);
    assert("ur3e"@.len() == 4);
    assert("ur5"@.len() == 3);
    assert("ur5e"@.len() == 4);
    assert("ur10"@[2] != "ur20"@[2]);
    assert("ur10"@[2] != "ur30"@[2]);
    assert("ur10"@[2] != "ur3e"@[2]);
    assert("ur10"@[2] != "ur5e"@[2]);
    assert("ur10e"@[3] != "ur16e"@[3]);
    assert("ur20"@[2] != "ur30"@[2]);
    assert("ur20"@[2] != "ur3e"@[2]);
    assert("ur20"@[2] != "ur5e"@[2]);
    assert("ur3"@[2] != "ur5"@[2]);
    assert("ur30"@[3] != "ur3e"@[3]);
    assert("ur30"@[2] != "ur5e"@[2]);
    assert("ur3e"@[2] != "ur5e"@[2]);
}

/// The lengths of the UR20, as its maker publishes them.
pub proof fn lengths_of_the_ur20()
    ensures
        lengths_of("ur20"@) is Some,
        is_nearest((lengths_of("ur20"@)->0).d1, 2363, 10000),
        is_nearest((lengths_of("ur20"@)->0).a2, -862, 1000),
        is_nearest((lengths_of("ur20"@)->0).a3, -7287, 10000),
        is_nearest((lengths_of("ur20"@)->0).d4, 201, 1000),
        is_nearest((lengths_of("ur20"@)->0).d5, 1593, 10000),
        is_nearest((lengths_of("ur20"@)->0).d6, 1543, 10000),
{
    lemma_powers();
    reveal_strlit("ur10");
    reveal_strlit("ur10e");
    reveal_strlit("ur16e");
    reveal_strlit("ur20");
    reveal_strlit("ur3");
    reveal_strlit("ur30");
    reveal_strlit("ur3e");
    reveal_strlit("ur5");
    reveal_strlit("ur5e");
    assert("ur10"@.len() == 4);
    assert("ur10e"@.len() == 5);
    assert("ur16e"@.len() == 5);
    assert("ur20"@.len() == 4);
    assert("ur3"@.len() == 3);
    assert("ur30"@.len() == 4);
    assert("ur3e"@.len() == 4);
    assert("ur5"@.len() == 3);
    assert("ur5e"@.len() == 4);
    assert("ur10"@[2] != "ur20"@[2]);
    assert("ur10"@[2] != "ur30"@[2]);
    assert("ur10"@[2] != "ur3e"@[2]);
    assert("ur10"@[2] != "ur5e"@[2]);
    assert("ur10e"@[3] != "ur16e"@[3]);
    assert("ur20"@[2] != "ur30"@[2]);
    assert("ur20"@[2] != "ur3e"@[2]);
    assert("ur20"@[2] != "ur5e"@[2]);
    assert("ur3"@[2] != "ur5"@[2]);
    assert("ur30"@[3] != "ur3e"@[3]);
    assert("ur30"@[2] != "ur5e"@[2]);
    assert("ur3e"@[2] != "ur5e"@[2]);
}

/// The lengths of the UR30, as its maker publishes them.
pub proof fn lengths_of_the_ur30()
    ensures
        lengths_of("ur30"@) is Some,
        is_nearest((lengths_of("ur30"@)->0).d1, 2363, 10000),
        is_nearest((lengths_of("ur30"@)->0).a2, -637, 1000),
        is_nearest((lengths_of("ur30"@)->0).a3, -5037, 10000),
        is_nearest((lengths_of("ur30"@)->0).d4, 201, 1000),
        is_nearest((lengths_of("ur30"@)->0).d5, 1593, 10000),
        is_nearest((lengths_of("ur30"@)->0).d6, 1543, 10000),
{
    lemma_powers();
    reveal_strlit("ur10");
    reveal_strlit("ur10e");
    reveal_strlit("ur16e");
    reveal_strlit("ur20");
    reveal_strlit("ur3");
    reveal_strlit("ur30");
    reveal_strlit("ur3e");
    reveal_strlit("ur5");
    reveal_strlit("ur5e");
    assert("ur10"@.len() == 4);
    assert("ur10e"@.len() == 5);
    assert("ur16e"@.len() == 5);
    assert("ur20"@.len() == 4);
    assert("ur3"@.len() == 3);
    assert("ur30"@.len() == 4);
    assert("ur3e"@.len() == 4);
    assert("ur5"@.len() == 3);
    assert("ur5e"@.len() == 4);
    assert("ur10"@[2] != "ur20"@[2]);
    assert("ur10"@[2] != "ur30"@[2]);
    assert("ur10"@[2] != "ur3e"@[2]);
    assert("ur10"@[2] != "ur5e"@[2]);
    assert("ur10e"@[3] != "ur16e"@[3]);
    assert("ur20"@[2] != "ur30"@[2]);
    assert("ur20"@[2] != "ur3e"@[2]);
    assert("ur20"@[2] != "ur5e"@[2]);
    assert("ur3"@[2] != "ur5"@[2]);
    assert("ur30"@[3] != "ur3e"@[3]);
    assert("ur30"@[2] != "ur5e"@[2]);
    assert("ur3e"@[2] != "ur5e"@[2]);
}

/// Whether `model` is one of the arms that can be planned for.
pub open spec fn is_known_arm(model: Seq<char>) -> bool {
    ||| model == "ur3"@
    ||| model == "ur3e"@
    ||| model == "ur5"@
    ||| model == "ur5e"@
    ||| model == "ur10"@
    ||| model == "ur10e"@
    ||| model == "ur16e"@
    ||| model == "ur20"@
    ||| model == "ur30"@
}

/// These arms are known and no others. Each row of an arm's table holds a length where the arm has
/// one, along the axis or across it, and a quarter turn where the axis turns.
pub proof fn arms_are_laid_out_alike(model: Seq<char>, dh: DhParameters)
    ensures
        lengths_of(model) is Some <==> is_known_arm(model),
        dh.row_of(0) == (dh.d1, Double { bits: 0 }, Double { bits: QUARTER_TURN }),
        dh.row_of(1) == (Double { bits: 0 }, dh.a2, Double { bits: 0 }),
        dh.row_of(2) == (Double { bits: 0 }, dh.a3, Double { bits: 0 }),
        dh.row_of(3) == (dh.d4, Double { bits: 0 }, Double { bits: QUARTER_TURN }),
        dh.row_of(4) == (dh.d5, Double { bits: 0 }, Double { bits: QUARTER_TURN_BACK }),
        dh.row_of(5) == (dh.d6, Double { bits: 0 }, Double { bits: 0 }),
{
}

/// A number that was spelled in decimal is read back as it was.
pub proof fn numbers_read_back(n: nat, max: nat)
    requires
        n <= max,
    ensures
        unsigned_value(decimal(n), max) == Some(n),
        decimal(n).len() > 0,
        forall|i: int| 0 <= i < decimal(n).len() ==> is_digit(#[trigger] decimal(n)[i]),
        digits_value(decimal(n)) == n,
    decreases n,
{
    if n < 10 {
        assert(decimal(n).drop_last() =~= Seq::empty());
        assert(digits_value(Seq::<char>::empty()) == 0);
        assert(decimal(n).last() as u32 == 48 + n);
    } else {
        numbers_read_back(n / 10, max);
        assert(decimal(n).drop_last() =~= decimal(n / 10));
        assert(decimal(n).last() as u32 == 48 + n % 10);
    }
    assert(is_digit(decimal(n)[0]));
    assert(unsigned_digits(decimal(n)) == decimal(n));
}

/// Two numbers are spelled alike only where they are the same.
pub proof fn numbers_are_spelled_apart(a: nat, b: nat)
    requires
        decimal(a) == decimal(b),
    ensures
        a == b,
{
    numbers_read_back(a, a);
    numbers_read_back(b, b);
}

} // verus!
