//! Which arm is being driven, and which of its configurations to take.
//!
//! Solving the kinematics is arithmetic, and is done elsewhere. What is decided here is which
//! Denavit-Hartenberg lengths an arm has, which whole turns of a solution its limits allow, and
//! which solution is nearest to where the arm already is.

use crate::double::{Double, ZERO};
use crate::text::same;
use crate::trajectory::limits::Limits;
use vstd::prelude::*;

verus! {

/// The six Denavit-Hartenberg lengths that distinguish one UR model from another.
///
/// `a2` and `a3` are negative in UR's own convention and are kept that way here.
#[derive(Clone, Copy, PartialEq, Eq, Debug, Structural)]
pub struct DhParameters {
    pub d1: Double,
    pub a2: Double,
    pub a3: Double,
    pub d4: Double,
    pub d5: Double,
    pub d6: Double,
}

/// The lengths of a model, in metres; `None` for a model that is not known.
pub open spec fn lengths_of(model: Seq<char>) -> Option<DhParameters> {
    if model == "ur3"@ {
        Some(DhParameters {
            d1: Double { bits: 0x3FC3_7175_8E21_9653 },  // 0.1519
            a2: Double { bits: 0xBFCF_2FEC_56D5_CFAB },  // -0.24365
            a3: Double { bits: 0xBFCB_4BC6_A7EF_9DB2 },  // -0.21325
            d4: Double { bits: 0x3FBC_C2F8_37B4_A234 },  // 0.11235
            d5: Double { bits: 0x3FB5_D97F_62B6_AE7D },  // 0.08535
            d6: Double { bits: 0x3FB4_F765_FD8A_DABA },  // 0.0819
        })
    } else if model == "ur3e"@ {
        Some(DhParameters {
            d1: Double { bits: 0x3FC3_6FD2_1FF2_E48F },  // 0.15185
            a2: Double { bits: 0xBFCF_2CA5_7A78_6C22 },  // -0.24355
            a3: Double { bits: 0xBFCB_4A23_39C0_EBEE },  // -0.2132
            d4: Double { bits: 0x3FC0_C63F_1412_05BC },  // 0.13105
            d5: Double { bits: 0x3FB5_D97F_62B6_AE7D },  // 0.08535
            d6: Double { bits: 0x3FB7_93DD_97F6_2B6B },  // 0.0921
        })
    } else if model == "ur5"@ {
        Some(DhParameters {
            d1: Double { bits: 0x3FB6_D31F_CD24_E161 },  // 0.089159
            a2: Double { bits: 0xBFDB_3333_3333_3333 },  // -0.425
            a3: Double { bits: 0xBFD9_1A9F_BE76_C8B4 },  // -0.39225
            d4: Double { bits: 0x3FBB_F141_205B_C01A },  // 0.10915
            d5: Double { bits: 0x3FB8_3AFB_7E90_FF97 },  // 0.09465
            d6: Double { bits: 0x3FB5_119C_E075_F6FD },  // 0.0823
        })
    } else if model == "ur5e"@ {
        Some(DhParameters {
            d1: Double { bits: 0x3FC4_CCCC_CCCC_CCCD },  // 0.1625
            a2: Double { bits: 0xBFDB_3333_3333_3333 },  // -0.425
            a3: Double { bits: 0xBFD9_19CE_075F_6FD2 },  // -0.3922
            d4: Double { bits: 0x3FC1_0FF9_7247_4539 },  // 0.1333
            d5: Double { bits: 0x3FB9_85F0_6F69_4467 },  // 0.0997
            d6: Double { bits: 0x3FB9_7F62_B6AE_7D56 },  // 0.0996
        })
    } else if model == "ur10"@ {
        Some(DhParameters {
            d1: Double { bits: 0x3FC0_4B5D_CC63_F141 },  // 0.1273
            a2: Double { bits: 0xBFE3_9581_0624_DD2F },  // -0.612
            a3: Double { bits: 0xBFE2_5048_16F0_068E },  // -0.5723
            d4: Double { bits: 0x3FC4_FC04_C8BC_9CD4 },  // 0.163941
            d5: Double { bits: 0x3FBD_9E83_E425_AEE6 },  // 0.1157
            d6: Double { bits: 0x3FB7_9A6B_50B0_F27C },  // 0.0922
        })
    } else if model == "ur10e"@ {
        Some(DhParameters {
            d1: Double { bits: 0x3FC7_212D_7731_8FC5 },  // 0.1807
            a2: Double { bits: 0xBFE3_9B3D_07C8_4B5E },  // -0.6127
            a3: Double { bits: 0xBFE2_4A23_39C0_EBEE },  // -0.57155
            d4: Double { bits: 0x3FC6_4A8C_154C_985F },  // 0.17415
            d5: Double { bits: 0x3FBE_AE7D_566C_F41F },  // 0.11985
            d6: Double { bits: 0x3FBD_D638_8659_4AF5 },  // 0.11655
        })
    } else if model == "ur16e"@ {
        Some(DhParameters {
            d1: Double { bits: 0x3FC7_212D_7731_8FC5 },  // 0.1807
            a2: Double { bits: 0xBFDE_9E1B_089A_0275 },  // -0.4784
            a3: Double { bits: 0xBFD7_0A3D_70A3_D70A },  // -0.36
            d4: Double { bits: 0x3FC6_4A8C_154C_985F },  // 0.17415
            d5: Double { bits: 0x3FBE_AE7D_566C_F41F },  // 0.11985
            d6: Double { bits: 0x3FBD_D638_8659_4AF5 },  // 0.11655
        })
    } else if model == "ur20"@ {
        Some(DhParameters {
            d1: Double { bits: 0x3FCE_3F14_1205_BC02 },  // 0.2363
            a2: Double { bits: 0xBFEB_9581_0624_DD2F },  // -0.862
            a3: Double { bits: 0xBFE7_5182_A993_0BE1 },  // -0.7287
            d4: Double { bits: 0x3FC9_BA5E_353F_7CEE },  // 0.201
            d5: Double { bits: 0x3FC4_63F1_4120_5BC0 },  // 0.1593
            d6: Double { bits: 0x3FC3_C01A_36E2_EB1C },  // 0.1543
        })
    } else if model == "ur30"@ {
        Some(DhParameters {
            d1: Double { bits: 0x3FCE_3F14_1205_BC02 },  // 0.2363
            a2: Double { bits: 0xBFE4_624D_D2F1_A9FC },  // -0.637
            a3: Double { bits: 0xBFE0_1E4F_765F_D8AE },  // -0.5037
            d4: Double { bits: 0x3FC9_BA5E_353F_7CEE },  // 0.201
            d5: Double { bits: 0x3FC4_63F1_4120_5BC0 },  // 0.1593
            d6: Double { bits: 0x3FC3_C01A_36E2_EB1C },  // 0.1543
        })
    } else {
        None
    }
}

/// A quarter turn.
pub const QUARTER_TURN: u64 = 0x3FF9_21FB_5444_2D18;

/// A quarter turn the other way.
pub const QUARTER_TURN_BACK: u64 = 0xBFF9_21FB_5444_2D18;

impl DhParameters {
    /// The row `(d, a, alpha)` of joint `i`, counted from 0.
    pub open spec fn row_of(self, i: int) -> (Double, Double, Double) {
        let zero = Double { bits: ZERO };
        let d = seq![self.d1, zero, zero, self.d4, self.d5, self.d6];
        let a = seq![zero, self.a2, self.a3, zero, zero, zero];
        let alpha = if i == 0 || i == 3 {
            Double { bits: QUARTER_TURN }
        } else if i == 4 {
            Double { bits: QUARTER_TURN_BACK }
        } else {
            zero
        };
        (d[i], a[i], alpha)
    }

    /// The DH row for joint `i` (0-based) as `(d, a, alpha)`.
    ///
    /// The UR convention: `alpha` is a quarter turn at joints 1 and 4, one back at joint 5, and
    /// zero elsewhere; the link lengths sit on `a` at joints 2 and 3 and on `d` everywhere else.
    pub fn row(&self, i: usize) -> (r: (Double, Double, Double))
        requires
            i < 6,
        ensures
            r == self.row_of(i as int),
    {
        let zero = Double { bits: ZERO };
        let quarter = Double { bits: QUARTER_TURN };
        match i {
            0 => (self.d1, zero, quarter),
            1 => (zero, self.a2, zero),
            2 => (zero, self.a3, zero),
            3 => (self.d4, zero, quarter),
            4 => (self.d5, zero, Double { bits: QUARTER_TURN_BACK }),
            _ => (self.d6, zero, zero),
        }
    }

    /// DH parameters for a UR model name as used by `ROBOT_MODEL`, e.g. `"ur20"`.
    pub fn for_model(model: &str) -> (r: Option<DhParameters>)
        ensures
            r == lengths_of(model@),
    {
        if same(model, "ur3") {
            Some(
                DhParameters {
                    d1: Double { bits: 0x3FC3_7175_8E21_9653 },
                    a2: Double { bits: 0xBFCF_2FEC_56D5_CFAB },
                    a3: Double { bits: 0xBFCB_4BC6_A7EF_9DB2 },
                    d4: Double { bits: 0x3FBC_C2F8_37B4_A234 },
                    d5: Double { bits: 0x3FB5_D97F_62B6_AE7D },
                    d6: Double { bits: 0x3FB4_F765_FD8A_DABA },
                },
            )
        } else if same(model, "ur3e") {
            Some(
                DhParameters {
                    d1: Double { bits: 0x3FC3_6FD2_1FF2_E48F },
                    a2: Double { bits: 0xBFCF_2CA5_7A78_6C22 },
                    a3: Double { bits: 0xBFCB_4A23_39C0_EBEE },
                    d4: Double { bits: 0x3FC0_C63F_1412_05BC },
                    d5: Double { bits: 0x3FB5_D97F_62B6_AE7D },
                    d6: Double { bits: 0x3FB7_93DD_97F6_2B6B },
                },
            )
        } else if same(model, "ur5") {
            Some(
                DhParameters {
                    d1: Double { bits: 0x3FB6_D31F_CD24_E161 },
                    a2: Double { bits: 0xBFDB_3333_3333_3333 },
                    a3: Double { bits: 0xBFD9_1A9F_BE76_C8B4 },
                    d4: Double { bits: 0x3FBB_F141_205B_C01A },
                    d5: Double { bits: 0x3FB8_3AFB_7E90_FF97 },
                    d6: Double { bits: 0x3FB5_119C_E075_F6FD },
                },
            )
        } else if same(model, "ur5e") {
            Some(
                DhParameters {
                    d1: Double { bits: 0x3FC4_CCCC_CCCC_CCCD },
                    a2: Double { bits: 0xBFDB_3333_3333_3333 },
                    a3: Double { bits: 0xBFD9_19CE_075F_6FD2 },
                    d4: Double { bits: 0x3FC1_0FF9_7247_4539 },
                    d5: Double { bits: 0x3FB9_85F0_6F69_4467 },
                    d6: Double { bits: 0x3FB9_7F62_B6AE_7D56 },
                },
            )
        } else if same(model, "ur10") {
            Some(
                DhParameters {
                    d1: Double { bits: 0x3FC0_4B5D_CC63_F141 },
                    a2: Double { bits: 0xBFE3_9581_0624_DD2F },
                    a3: Double { bits: 0xBFE2_5048_16F0_068E },
                    d4: Double { bits: 0x3FC4_FC04_C8BC_9CD4 },
                    d5: Double { bits: 0x3FBD_9E83_E425_AEE6 },
                    d6: Double { bits: 0x3FB7_9A6B_50B0_F27C },
                },
            )
        } else if same(model, "ur10e") {
            Some(
                DhParameters {
                    d1: Double { bits: 0x3FC7_212D_7731_8FC5 },
                    a2: Double { bits: 0xBFE3_9B3D_07C8_4B5E },
                    a3: Double { bits: 0xBFE2_4A23_39C0_EBEE },
                    d4: Double { bits: 0x3FC6_4A8C_154C_985F },
                    d5: Double { bits: 0x3FBE_AE7D_566C_F41F },
                    d6: Double { bits: 0x3FBD_D638_8659_4AF5 },
                },
            )
        } else if same(model, "ur16e") {
            Some(
                DhParameters {
                    d1: Double { bits: 0x3FC7_212D_7731_8FC5 },
                    a2: Double { bits: 0xBFDE_9E1B_089A_0275 },
                    a3: Double { bits: 0xBFD7_0A3D_70A3_D70A },
                    d4: Double { bits: 0x3FC6_4A8C_154C_985F },
                    d5: Double { bits: 0x3FBE_AE7D_566C_F41F },
                    d6: Double { bits: 0x3FBD_D638_8659_4AF5 },
                },
            )
        } else if same(model, "ur20") {
            Some(
                DhParameters {
                    d1: Double { bits: 0x3FCE_3F14_1205_BC02 },
                    a2: Double { bits: 0xBFEB_9581_0624_DD2F },
                    a3: Double { bits: 0xBFE7_5182_A993_0BE1 },
                    d4: Double { bits: 0x3FC9_BA5E_353F_7CEE },
                    d5: Double { bits: 0x3FC4_63F1_4120_5BC0 },
                    d6: Double { bits: 0x3FC3_C01A_36E2_EB1C },
                },
            )
        } else if same(model, "ur30") {
            Some(
                DhParameters {
                    d1: Double { bits: 0x3FCE_3F14_1205_BC02 },
                    a2: Double { bits: 0xBFE4_624D_D2F1_A9FC },
                    a3: Double { bits: 0xBFE0_1E4F_765F_D8AE },
                    d4: Double { bits: 0x3FC9_BA5E_353F_7CEE },
                    d5: Double { bits: 0x3FC4_63F1_4120_5BC0 },
                    d6: Double { bits: 0x3FC3_C01A_36E2_EB1C },
                },
            )
        } else {
            None
        }
    }
}

/// Whether a value is inside `lower..=upper`.
pub open spec fn within(value: Double, lower: Double, upper: Double) -> bool {
    lower.le(value) && value.le(upper)
}

/// `prefix` followed by each of the candidates that is inside its limits.
pub open spec fn options(
    prefix: Seq<Double>,
    candidates: Seq<Double>,
    lower: Double,
    upper: Double,
) -> Seq<Seq<Double>>
    decreases candidates.len(),
{
    if candidates.len() == 0 {
        Seq::empty()
    } else {
        let before = options(prefix, candidates.drop_last(), lower, upper);
        if within(candidates.last(), lower, upper) {
            before.push(prefix.push(candidates.last()))
        } else {
            before
        }
    }
}

/// Every one of `prefixes` followed by each of the candidates that is inside its limits.
pub open spec fn extended(
    prefixes: Seq<Seq<Double>>,
    candidates: Seq<Double>,
    lower: Double,
    upper: Double,
) -> Seq<Seq<Double>>
    decreases prefixes.len(),
{
    if prefixes.len() == 0 {
        Seq::empty()
    } else {
        extended(prefixes.drop_last(), candidates, lower, upper) + options(
            prefixes.last(),
            candidates,
            lower,
            upper,
        )
    }
}

/// Every way to give the first `n` joints one of their candidates inside the limits.
pub open spec fn expansions(
    candidates: Seq<Seq<Double>>,
    lower: Seq<Double>,
    upper: Seq<Double>,
    n: nat,
) -> Seq<Seq<Double>>
    decreases n,
{
    if n == 0 {
        seq![Seq::empty()]
    } else {
        extended(
            expansions(candidates, lower, upper, (n - 1) as nat),
            candidates[n - 1],
            lower[n - 1],
            upper[n - 1],
        )
    }
}

/// What a list of lists says.
pub open spec fn lists(v: Seq<Vec<Double>>) -> Seq<Seq<Double>> {
    v.map_values(|x: Vec<Double>| x@)
}

fn extend_one(
    out: &mut Vec<Vec<Double>>,
    prefix: &Vec<Double>,
    candidates: &Vec<Double>,
    lower: Double,
    upper: Double,
)
    ensures
        lists(final(out)@) == lists(old(out)@) + options(prefix@, candidates@, lower, upper),
{
    let ghost before = lists(out@);
    let mut i: usize = 0;
    assert(candidates@.take(0) =~= Seq::empty());
    assert(lists(out@) =~= before + options(prefix@, candidates@.take(0), lower, upper));
    while i < candidates.len()
        invariant
            i <= candidates.len(),
            lists(out@) == before + options(prefix@, candidates@.take(i as int), lower, upper),
        decreases candidates.len() - i,
    {
        assert(candidates@.take(i + 1).drop_last() =~= candidates@.take(i as int));
        let v = candidates[i];
        if lower.at_most(v) && v.at_most(upper) {
            let mut longer = crate::structs::copy_doubles(prefix);
            longer.push(v);
            let ghost sofar = lists(out@);
            out.push(longer);
            assert(lists(out@) =~= sofar.push(prefix@.push(v)));
            assert(sofar.push(prefix@.push(v)) =~= before + options(
                prefix@,
                candidates@.take(i as int),
                lower,
                upper,
            ).push(prefix@.push(v)));
        }
        i = i + 1;
    }
    assert(candidates@.take(i as int) =~= candidates@);
}

/// Every configuration that gives each joint one of its candidates inside its limits, in the
/// order of the candidates, the first joint's slowest.
///
/// The candidates of a joint are its solution and the same a whole turn either way: a solution
/// out of limits may be perfectly legal shifted by a turn, and a shifted one is often much
/// closer to where the arm already is.
pub fn expand_turns(candidates: &Vec<Vec<Double>>, limits: &Limits) -> (r: Vec<Vec<Double>>)
    requires
        candidates.len() == 6,
    ensures
        lists(r@) == expansions(
            lists(candidates@),
            limits.position_min@,
            limits.position_max@,
            6,
        ),
{
    let ghost all = lists(candidates@);
    let mut r: Vec<Vec<Double>> = Vec::new();
    let empty: Vec<Double> = Vec::new();
    assert(empty@ =~= Seq::empty());
    r.push(empty);
    assert(lists(r@) =~= seq![Seq::<Double>::empty()]);
    let mut i: usize = 0;
    while i < 6
        invariant
            i <= 6,
            candidates.len() == 6,
            all == lists(candidates@),
            lists(r@) == expansions(all, limits.position_min@, limits.position_max@, i as nat),
        decreases 6 - i,
    {
        let ghost prefixes = lists(r@);
        let lower = limits.position_min[i];
        let upper = limits.position_max[i];
        let mut next: Vec<Vec<Double>> = Vec::new();
        let mut k: usize = 0;
        assert(prefixes.take(0) =~= Seq::empty());
        assert(lists(next@) =~= extended(prefixes.take(0), all[i as int], lower, upper));
        while k < r.len()
            invariant
                k <= r.len(),
                i < 6,
                candidates.len() == 6,
                all == lists(candidates@),
                prefixes == lists(r@),
                lists(next@) == extended(prefixes.take(k as int), all[i as int], lower, upper),
            decreases r.len() - k,
        {
            assert(all[i as int] == candidates@[i as int]@);
            assert(prefixes[k as int] == r@[k as int]@);
            assert(prefixes.take(k + 1).drop_last() =~= prefixes.take(k as int));
            assert(prefixes.take(k + 1).last() == r@[k as int]@);
            extend_one(&mut next, &r[k], &candidates[i], lower, upper);
            k = k + 1;
        }
        assert(prefixes.take(k as int) =~= prefixes);
        r = next;
        i = i + 1;
    }
    r
}

/// The nearest of the first `n` distances: the first that no later one is less than. What is
/// not a number is neither less nor more than anything.
pub open spec fn nearest(distances: Seq<Double>, n: nat) -> int
    decreases n,
{
    if n <= 1 {
        0
    } else {
        let best = nearest(distances, (n - 1) as nat);
        if distances[n - 1].lt(distances[best]) {
            n - 1
        } else {
            best
        }
    }
}

/// The nearest of some configurations, by their distances.
///
/// This is the counterpart of URScript's `qnear`, with the difference that it can see every
/// branch at once and is deterministic.
pub fn select_nearest(distances: &Vec<Double>) -> (r: Option<usize>)
    ensures
        match r {
            Some(i) => i < distances.len() && i == nearest(distances@, distances@.len()),
            None => distances.len() == 0,
        },
{
    if distances.len() == 0 {
        return None;
    }
    let mut best: usize = 0;
    let mut i: usize = 1;
    while i < distances.len()
        invariant
            1 <= i <= distances.len(),
            best < i,
            best == nearest(distances@, i as nat),
        decreases distances.len() - i,
    {
        if distances[i].less(distances[best]) {
            best = i;
        }
        i = i + 1;
    }
    Some(best)
}

proof fn lemma_options(
    prefix: Seq<Double>,
    candidates: Seq<Double>,
    lower: Double,
    upper: Double,
)
    ensures
        forall|k: int|
            0 <= k < options(prefix, candidates, lower, upper).len() ==> {
                let o = #[trigger] options(prefix, candidates, lower, upper)[k];
                o.len() == prefix.len() + 1 && o.drop_last() == prefix && within(
                    o.last(),
                    lower,
                    upper,
                )
            },
        forall|j: int|
            0 <= j < candidates.len() && within(candidates[j], lower, upper) ==> options(
                prefix,
                candidates,
                lower,
                upper,
            ).contains(prefix.push(#[trigger] candidates[j])),
    decreases candidates.len(),
{
    if candidates.len() > 0 {
        let rest = candidates.drop_last();
        lemma_options(prefix, rest, lower, upper);
        let before = options(prefix, rest, lower, upper);
        let all = options(prefix, candidates, lower, upper);
        assert(prefix.push(candidates.last()).drop_last() =~= prefix);
        assert forall|j: int|
            0 <= j < candidates.len() && within(candidates[j], lower, upper) implies all.contains(
            prefix.push(#[trigger] candidates[j]),
        ) by {
            if j < rest.len() {
                assert(rest[j] == candidates[j]);
                assert(before.contains(prefix.push(rest[j])));
                let k = choose|k: int|
                    0 <= k < before.len() && before[k] == prefix.push(rest[j]);
                assert(all[k] == before[k]);
            } else {
                assert(all[all.len() - 1] == prefix.push(candidates[j]));
            }
        }
    }
}

proof fn lemma_extended(
    prefixes: Seq<Seq<Double>>,
    candidates: Seq<Double>,
    lower: Double,
    upper: Double,
)
    ensures
        forall|k: int|
            0 <= k < extended(prefixes, candidates, lower, upper).len() ==> {
                let o = #[trigger] extended(prefixes, candidates, lower, upper)[k];
                o.len() > 0 && prefixes.contains(o.drop_last()) && within(o.last(), lower, upper)
            },
        forall|p: int, j: int|
            0 <= p < prefixes.len() && 0 <= j < candidates.len() && within(
                candidates[j],
                lower,
                upper,
            ) ==> extended(prefixes, candidates, lower, upper).contains(
                (#[trigger] prefixes[p]).push(#[trigger] candidates[j]),
            ),
    decreases prefixes.len(),
{
    if prefixes.len() > 0 {
        let rest = prefixes.drop_last();
        let before = extended(rest, candidates, lower, upper);
        let more = options(prefixes.last(), candidates, lower, upper);
        let all = extended(prefixes, candidates, lower, upper);
        lemma_extended(rest, candidates, lower, upper);
        lemma_options(prefixes.last(), candidates, lower, upper);
        assert forall|k: int| 0 <= k < all.len() implies {
            let o = #[trigger] all[k];
            o.len() > 0 && prefixes.contains(o.drop_last()) && within(o.last(), lower, upper)
        } by {
            if k < before.len() {
                assert(all[k] == before[k]);
                let p = choose|p: int| 0 <= p < rest.len() && rest[p] == before[k].drop_last();
                assert(prefixes[p] == rest[p]);
            } else {
                assert(all[k] == more[k - before.len()]);
                assert(prefixes[prefixes.len() - 1] == prefixes.last());
            }
        }
        assert forall|p: int, j: int|
            0 <= p < prefixes.len() && 0 <= j < candidates.len() && within(
                candidates[j],
                lower,
                upper,
            ) implies all.contains((#[trigger] prefixes[p]).push(#[trigger] candidates[j])) by {
            let o = prefixes[p].push(candidates[j]);
            if p < rest.len() {
                assert(rest[p] == prefixes[p]);
                assert(before.contains(rest[p].push(candidates[j])));
                let k = choose|k: int| 0 <= k < before.len() && before[k] == o;
                assert(all[k] == o);
            } else {
                assert(more.contains(prefixes.last().push(candidates[j])));
                let k = choose|k: int| 0 <= k < more.len() && more[k] == o;
                assert(all[before.len() + k] == o);
            }
        }
    }
}

/// Every configuration that turning joints leads to is inside the limits.
pub proof fn turned_configurations_are_inside(
    candidates: Seq<Seq<Double>>,
    lower: Seq<Double>,
    upper: Seq<Double>,
    n: nat,
    k: int,
)
    requires
        0 <= k < expansions(candidates, lower, upper, n).len(),
    ensures
        expansions(candidates, lower, upper, n)[k].len() == n,
        forall|i: int|
            0 <= i < n ==> within(
                #[trigger] expansions(candidates, lower, upper, n)[k][i],
                lower[i],
                upper[i],
            ),
    decreases n,
{
    if n > 0 {
        let m = (n - 1) as nat;
        let prefixes = expansions(candidates, lower, upper, m);
        lemma_extended(prefixes, candidates[n - 1], lower[n - 1], upper[n - 1]);
        let q = expansions(candidates, lower, upper, n)[k];
        let p = choose|p: int| 0 <= p < prefixes.len() && prefixes[p] == q.drop_last();
        turned_configurations_are_inside(candidates, lower, upper, m, p);
        assert forall|i: int| 0 <= i < n implies within(#[trigger] q[i], lower[i], upper[i]) by {
            if i < m {
                assert(prefixes[p][i] == q[i]);
            } else {
                assert(q[i] == q.last());
            }
        }
    }
}

/// Turning joints invents nothing: every joint of a configuration it leads to is one of that
/// joint's own candidates.
pub proof fn turned_configurations_are_candidates(
    candidates: Seq<Seq<Double>>,
    lower: Seq<Double>,
    upper: Seq<Double>,
    n: nat,
    k: int,
)
    requires
        0 <= k < expansions(candidates, lower, upper, n).len(),
    ensures
        expansions(candidates, lower, upper, n)[k].len() == n,
        forall|i: int|
            0 <= i < n ==> (#[trigger] candidates[i]).contains(
                expansions(candidates, lower, upper, n)[k][i],
            ),
    decreases n,
{
    if n > 0 {
        let m = (n - 1) as nat;
        let prefixes = expansions(candidates, lower, upper, m);
        lemma_extended(prefixes, candidates[n - 1], lower[n - 1], upper[n - 1]);
        lemma_extended_by_candidates(prefixes, candidates[n - 1], lower[n - 1], upper[n - 1]);
        let q = expansions(candidates, lower, upper, n)[k];
        let p = choose|p: int| 0 <= p < prefixes.len() && prefixes[p] == q.drop_last();
        turned_configurations_are_candidates(candidates, lower, upper, m, p);
        assert forall|i: int| 0 <= i < n implies (#[trigger] candidates[i]).contains(q[i]) by {
            if i < m {
                assert(prefixes[p][i] == q[i]);
            } else {
                assert(q[i] == q.last());
            }
        }
    }
}

proof fn lemma_extended_by_candidates(
    prefixes: Seq<Seq<Double>>,
    candidates: Seq<Double>,
    lower: Double,
    upper: Double,
)
    ensures
        forall|k: int|
            0 <= k < extended(prefixes, candidates, lower, upper).len() ==> candidates.contains(
                (#[trigger] extended(prefixes, candidates, lower, upper)[k]).last(),
            ),
    decreases prefixes.len(),
{
    if prefixes.len() > 0 {
        let rest = prefixes.drop_last();
        let before = extended(rest, candidates, lower, upper);
        let all = extended(prefixes, candidates, lower, upper);
        lemma_extended_by_candidates(rest, candidates, lower, upper);
        lemma_options_are_candidates(prefixes.last(), candidates, lower, upper);
        assert forall|k: int| 0 <= k < all.len() implies candidates.contains(
            (#[trigger] all[k]).last(),
        ) by {
            if k < before.len() {
                assert(all[k] == before[k]);
            } else {
                assert(all[k] == options(prefixes.last(), candidates, lower, upper)[k
                    - before.len()]);
            }
        }
    }
}

proof fn lemma_options_are_candidates(
    prefix: Seq<Double>,
    candidates: Seq<Double>,
    lower: Double,
    upper: Double,
)
    ensures
        forall|k: int|
            0 <= k < options(prefix, candidates, lower, upper).len() ==> candidates.contains(
                (#[trigger] options(prefix, candidates, lower, upper)[k]).last(),
            ),
    decreases candidates.len(),
{
    if candidates.len() > 0 {
        let rest = candidates.drop_last();
        lemma_options_are_candidates(prefix, rest, lower, upper);
        let before = options(prefix, rest, lower, upper);
        let all = options(prefix, candidates, lower, upper);
        assert forall|k: int| 0 <= k < all.len() implies candidates.contains(
            (#[trigger] all[k]).last(),
        ) by {
            if k < before.len() {
                let j = choose|j: int| 0 <= j < rest.len() && rest[j] == before[k].last();
                assert(candidates[j] == rest[j]);
            } else {
                assert(candidates[candidates.len() - 1] == candidates.last());
            }
        }
    }
}

/// No configuration is lost: where each joint takes one of its candidates inside the limits, the
/// whole is among the results.
pub proof fn turned_configurations_are_complete(
    candidates: Seq<Seq<Double>>,
    lower: Seq<Double>,
    upper: Seq<Double>,
    n: nat,
    choice: Seq<int>,
    q: Seq<Double>,
)
    requires
        q.len() == n,
        choice.len() == n,
        forall|i: int|
            0 <= i < n ==> {
                &&& 0 <= #[trigger] choice[i] < candidates[i].len()
                &&& q[i] == candidates[i][choice[i]]
                &&& within(q[i], lower[i], upper[i])
            },
    ensures
        expansions(candidates, lower, upper, n).contains(q),
    decreases n,
{
    if n == 0 {
        assert(q =~= Seq::empty());
        assert(expansions(candidates, lower, upper, 0)[0] == q);
    } else {
        let m = (n - 1) as nat;
        let prefixes = expansions(candidates, lower, upper, m);
        let head = q.drop_last();
        assert forall|i: int| 0 <= i < m implies {
            &&& 0 <= #[trigger] choice.drop_last()[i] < candidates[i].len()
            &&& head[i] == candidates[i][choice.drop_last()[i]]
            &&& within(head[i], lower[i], upper[i])
        } by {
            assert(choice.drop_last()[i] == choice[i]);
        }
        turned_configurations_are_complete(candidates, lower, upper, m, choice.drop_last(), head);
        lemma_extended(prefixes, candidates[n - 1], lower[n - 1], upper[n - 1]);
        let p = choose|p: int| 0 <= p < prefixes.len() && prefixes[p] == head;
        assert(0 <= choice[n - 1] < candidates[n - 1].len());
        assert(expansions(candidates, lower, upper, n).contains(
            prefixes[p].push(candidates[n - 1][choice[n - 1]]),
        ));
        assert(prefixes[p].push(candidates[n - 1][choice[n - 1]]) =~= q);
    }
}

/// Where every distance is a number, no configuration is nearer than the one selected, and none
/// before it is as near.
pub proof fn selected_is_the_nearest(distances: Seq<Double>, n: nat)
    requires
        0 < n <= distances.len(),
        forall|i: int| 0 <= i < n ==> !(#[trigger] distances[i]).is_nan(),
    ensures
        0 <= nearest(distances, n) < n,
        forall|i: int|
            0 <= i < n ==> distances[nearest(distances, n)].le(#[trigger] distances[i]),
        forall|i: int|
            0 <= i < nearest(distances, n) ==> distances[nearest(distances, n)].lt(
                #[trigger] distances[i],
            ),
    decreases n,
{
    if n > 1 {
        selected_is_the_nearest(distances, (n - 1) as nat);
    }
}

} // verus!
