//! Choosing among the configurations that reach a pose: turns inside the limits, nearest first.

use k::nalgebra::{Isometry3, Translation3, UnitQuaternion, Vector3};
use std::f64::consts::PI;
use ur_redis_driver::double::Double;
use ur_redis_driver::trajectory::kinematics::{expand_turns, select_nearest, DhParameters};
use ur_redis_driver::trajectory::limits::Limits;

type Pose = Isometry3<f64>;

const MODEL: &str = "ur20";

/// A fixed-seed linear congruential generator, so that a failing case comes back.
struct Lcg(u64);

impl Lcg {
    fn unit(&mut self) -> f64 {
        self.0 = self.0.wrapping_mul(6364136223846793005).wrapping_add(1442695040888963407);
        ((self.0 >> 11) as f64) / ((1u64 << 53) as f64)
    }

    /// A configuration just inside the limits.
    fn joints(&mut self) -> [f64; 6] {
        let mut q = [0.0; 6];
        for (i, v) in q.iter_mut().enumerate() {
            let lim = if i == 2 { PI } else { 2.0 * PI };
            let (lo, hi) = (-0.99 * lim, 0.99 * lim);
            *v = lo + (hi - lo) * self.unit();
        }
        q
    }
}

fn double(x: f64) -> Double {
    Double { bits: x.to_bits() }
}

fn number(d: Double) -> f64 {
    f64::from_bits(d.bits)
}

fn arm() -> DhParameters {
    DhParameters::for_model(MODEL).expect("the model is known")
}

fn reach() -> [f64; 6] {
    [2.0 * PI, 2.0 * PI, PI, 2.0 * PI, 2.0 * PI, 2.0 * PI]
}

fn arm_limits() -> Limits {
    Limits {
        position_min: reach().map(|v| double(-v)),
        position_max: reach().map(double),
        velocity_max: [double(1.0); 6],
        acceleration_max: [double(1.0); 6],
    }
}

fn link(theta: f64, d: f64, a: f64, alpha: f64) -> Pose {
    let turn = UnitQuaternion::from_axis_angle(&Vector3::z_axis(), theta);
    let tilt = UnitQuaternion::from_axis_angle(&Vector3::x_axis(), alpha);
    Isometry3::from_parts(Translation3::identity(), turn)
        * Isometry3::from_parts(Translation3::new(a, 0.0, d), tilt)
}

fn forward(dh: &DhParameters, q: &[f64; 6]) -> Pose {
    (0..6).fold(Isometry3::identity(), |t, i| {
        let (d, a, alpha) = dh.row(i);
        t * link(q[i], number(d), number(a), number(alpha))
    })
}

fn wrapped(a: f64) -> f64 {
    let x = (a + PI) % (2.0 * PI);
    if x <= 0.0 {
        x + PI
    } else {
        x - PI
    }
}

/// The configurations that reach a pose, each joint within half a turn of zero.
fn inverse(dh: &DhParameters, target: &Pose) -> Vec<[f64; 6]> {
    let d = |i: usize| number(dh.row(i).0);
    let (a2, a3) = (number(dh.row(1).1), number(dh.row(2).1));
    let m = target.rotation.to_rotation_matrix();
    let p = target.translation.vector;
    let wrist = p - d(5) * Vector3::new(m[(0, 2)], m[(1, 2)], m[(2, 2)]);
    let r = wrist.x.hypot(wrist.y);
    let mut out = vec![];
    if r < d(3).abs() {
        return out;
    }
    let (base, phi) = (wrist.x.atan2(-wrist.y), (d(3) / r).acos());
    for t1 in [base + phi, base - phi] {
        let (s1, c1) = t1.sin_cos();
        let c5 = (p.x * s1 - p.y * c1 - d(3)) / d(5);
        if c5.abs() > 1.0 + 1e-9 {
            continue;
        }
        let bend = c5.clamp(-1.0, 1.0).acos();
        for t5 in [bend, -bend] {
            let s5 = t5.sin();
            let t6 = if s5.abs() < 1e-7 {
                0.0
            } else {
                let y = m[(1, 1)] * c1 - m[(0, 1)] * s1;
                let x = m[(0, 0)] * s1 - m[(1, 0)] * c1;
                (s5.signum() * y).atan2(s5.signum() * x)
            };
            let hand = link(t5, d(4), 0.0, -PI / 2.0) * link(t6, d(5), 0.0, 0.0);
            let plane = link(t1, d(0), 0.0, PI / 2.0).inverse() * target * hand.inverse();
            let (x, y) = (plane.translation.vector.x, plane.translation.vector.y);
            let c3 = (x * x + y * y - a2 * a2 - a3 * a3) / (2.0 * a2 * a3);
            if c3.abs() > 1.0 + 1e-9 {
                continue;
            }
            let elbow = c3.clamp(-1.0, 1.0).acos();
            let level = UnitQuaternion::from_axis_angle(&Vector3::x_axis(), -PI / 2.0);
            let flat = (plane.rotation * level).to_rotation_matrix();
            let sum = flat[(1, 0)].atan2(flat[(0, 0)]);
            for t3 in [elbow, -elbow] {
                let t2 = y.atan2(x) - (a3 * t3.sin()).atan2(a2 + a3 * t3.cos());
                out.push([t1, t2, t3, sum - t2 - t3, t5, t6].map(wrapped));
            }
        }
    }
    out
}

/// Every configuration inside the limits that reaches a pose, other turns too.
fn filtered(dh: &DhParameters, target: &Pose) -> Vec<[f64; 6]> {
    let mut out = vec![];
    for solution in inverse(dh, target) {
        let candidates: Vec<Vec<Double>> = solution
            .iter()
            .map(|v| [-1.0, 0.0, 1.0].iter().map(|t| double(v + t * 2.0 * PI)).collect())
            .collect();
        for q in expand_turns(&candidates, &arm_limits()) {
            out.push(std::array::from_fn(|i| number(q[i])));
        }
    }
    out
}

fn configuration_distance(a: &[f64; 6], b: &[f64; 6]) -> f64 {
    let weights = [4.0, 4.0, 3.0, 1.0, 1.0, 1.0];
    (0..6).map(|i| weights[i] * (a[i] - b[i]).abs()).fold(0.0, f64::max)
}

fn pose_err(a: &Pose, b: &Pose) -> (f64, f64) {
    ((a.translation.vector - b.translation.vector).norm(), a.rotation.angle_to(&b.rotation))
}

/// Turn expansion must stay inside the limits and must not lose the base branch.
#[test]
fn filtered_solutions_respect_joint_limits() {
    let dh = arm();
    let upper = reach();
    let mut rng = Lcg(0xABCD_0003);

    for _ in 0..150 {
        let q = rng.joints();
        let target = forward(&dh, &q);
        let sols = filtered(&dh, &target);
        assert!(!sols.is_empty());
        for s in &sols {
            for i in 0..6 {
                assert!(
                    s[i] >= -upper[i] && s[i] <= upper[i],
                    "joint {i} = {} outside [{}, {}]",
                    s[i],
                    -upper[i],
                    upper[i]
                );
            }
            let (dt, dr) = pose_err(&forward(&dh, s), &target);
            assert!(dt < 1e-9 && dr < 1e-9);
        }
    }
}

/// Branch selection returns the weighted-nearest configuration, not just any.
#[test]
fn select_nearest_minimises_weighted_distance() {
    let dh = arm();
    let mut rng = Lcg(0xABCD_0004);

    for _ in 0..150 {
        let q = rng.joints();
        let target = forward(&dh, &q);
        let sols = filtered(&dh, &target);
        let distances: Vec<f64> = sols.iter().map(|s| configuration_distance(s, &q)).collect();
        let ranked: Vec<Double> = distances.iter().map(|d| double(*d)).collect();
        let picked = sols[select_nearest(&ranked).expect("a solution exists")];

        let best = distances.iter().cloned().fold(f64::INFINITY, f64::min);
        assert!(
            (configuration_distance(&picked, &q) - best).abs() < 1e-12,
            "select_nearest did not pick the minimum"
        );
        // Seeding with the generating configuration should land back on it.
        let (dt, dr) = pose_err(&forward(&dh, &picked), &target);
        assert!(dt < 1e-9 && dr < 1e-9);
    }
}
