//! Resolving waypoints to joint space: which of the solutions of a pose is taken, and why a
//! waypoint cannot be reached.

use crate::double::Double;
use crate::text::{decimal, join3, number};
use crate::trajectory::kinematics::{
    expand_turns, expansions, lists, nearest, select_nearest, selected_is_the_nearest,
    turned_configurations_are_candidates, turned_configurations_are_complete,
    turned_configurations_are_inside, within,
};
use crate::trajectory::limits::Limits;
use vstd::prelude::*;

verus! {

/// Why a waypoint could not be turned into a joint configuration.
#[derive(Clone, Copy, PartialEq, Eq, Debug, Structural)]
pub enum ResolveError {
    /// No inverse-kinematics branch at all: the pose is outside the arm's reach.
    Unreachable { index: usize },
    /// Branches exist, but every one of them violates a joint limit.
    OutsideJointLimits { index: usize },
    /// A joint configuration was supplied directly and is outside the limits.
    GivenConfigurationOutsideLimits {
        index: usize,
        joint: usize,
        value: Double,
        min: Double,
        max: Double,
    },
}

impl ResolveError {
    /// What is said of the error. `value`, `min` and `max` are the spellings of its numbers.
    pub open spec fn text(self, value: Seq<char>, min: Seq<char>, max: Seq<char>) -> Seq<char> {
        match self {
            ResolveError::Unreachable { index } => "waypoint "@ + decimal(index as nat)
                + " is outside the arm's reach"@,
            ResolveError::OutsideJointLimits { index } => "waypoint "@ + decimal(index as nat)
                + " is reachable, but every inverse-kinematics branch violates a joint limit"@,
            ResolveError::GivenConfigurationOutsideLimits { index, joint, .. } => "waypoint "@
                + decimal(index as nat) + " sets joint "@ + decimal(joint as nat) + " to "@ + value
                + ", outside ["@ + min + ", "@ + max + "]"@,
        }
    }

    /// Say why the waypoint could not be resolved.
    pub fn message(&self, value: &str, min: &str, max: &str) -> (r: String)
        ensures
            r@ == self.text(value@, min@, max@),
    {
        match self {
            ResolveError::Unreachable { index } => join3(
                "waypoint ",
                number(*index as u64).as_str(),
                " is outside the arm's reach",
            ),
            ResolveError::OutsideJointLimits { index } => join3(
                "waypoint ",
                number(*index as u64).as_str(),
                " is reachable, but every inverse-kinematics branch violates a joint limit",
            ),
            ResolveError::GivenConfigurationOutsideLimits { index, joint, .. } => {
                let mut r = join3("waypoint ", number(*index as u64).as_str(), " sets joint ");
                r.append(number(*joint as u64).as_str());
                r.append(" to ");
                r.append(value);
                r.append(", outside [");
                r.append(min);
                r.append(", ");
                r.append(max);
                r.append("]");
                r
            },
        }
    }
}

/// What the solutions of a pose lead to: for each of them in turn, every configuration inside
/// the limits that whole turns of its joints give.
pub open spec fn branches_within(
    branches: Seq<Seq<Seq<Double>>>,
    lower: Seq<Double>,
    upper: Seq<Double>,
) -> Seq<Seq<Double>>
    decreases branches.len(),
{
    if branches.len() == 0 {
        Seq::empty()
    } else {
        branches_within(branches.drop_last(), lower, upper) + expansions(
            branches.last(),
            lower,
            upper,
            6,
        )
    }
}

/// What a list of candidate lists says.
pub open spec fn candidate_lists(branches: Seq<Vec<Vec<Double>>>) -> Seq<Seq<Seq<Double>>> {
    branches.map_values(|b: Vec<Vec<Double>>| lists(b@))
}

/// Inverse kinematics, expanded across whole turns and filtered to the limits.
///
/// Each branch is one solution of the pose, by the candidates of its six joints.
pub fn inverse_kinematics_filtered(branches: &Vec<Vec<Vec<Double>>>, limits: &Limits) -> (r: Vec<
    Vec<Double>,
>)
    requires
        forall|b: int| 0 <= b < branches.len() ==> (#[trigger] branches@[b]).len() == 6,
    ensures
        lists(r@) == branches_within(
            candidate_lists(branches@),
            limits.position_min@,
            limits.position_max@,
        ),
{
    let ghost all = candidate_lists(branches@);
    let ghost lower = limits.position_min@;
    let ghost upper = limits.position_max@;
    let mut r: Vec<Vec<Double>> = Vec::new();
    let mut b: usize = 0;
    assert(all.take(0) =~= Seq::empty());
    assert(lists(r@) =~= branches_within(all.take(0), lower, upper));
    while b < branches.len()
        invariant
            b <= branches.len(),
            all == candidate_lists(branches@),
            lower == limits.position_min@,
            upper == limits.position_max@,
            forall|b: int| 0 <= b < branches.len() ==> (#[trigger] branches@[b]).len() == 6,
            lists(r@) == branches_within(all.take(b as int), lower, upper),
        decreases branches.len() - b,
    {
        assert(all.take(b + 1).drop_last() =~= all.take(b as int));
        assert(all.take(b + 1).last() == lists(branches@[b as int]@));
        let ghost before = lists(r@);
        let mut more = expand_turns(&branches[b], limits);
        let ghost added = lists(more@);
        r.append(&mut more);
        assert(lists(r@) =~= before + added);
        b = b + 1;
    }
    assert(all.take(b as int) =~= all);
    r
}

/// Whatever configuration a pose is reached in, it is inside the joint limits.
pub proof fn found_configurations_are_inside(
    branches: Seq<Seq<Seq<Double>>>,
    limits: Limits,
    k: int,
)
    requires
        0 <= k < branches_within(branches, limits.position_min@, limits.position_max@).len(),
    ensures
        limits.is_inside(branches_within(branches, limits.position_min@, limits.position_max@)[k]),
    decreases branches.len(),
{
    let lower = limits.position_min@;
    let upper = limits.position_max@;
    let before = branches_within(branches.drop_last(), lower, upper);
    if k < before.len() {
        found_configurations_are_inside(branches.drop_last(), limits, k);
    } else {
        let n = k - before.len();
        turned_configurations_are_inside(branches.last(), lower, upper, 6, n);
        let q = expansions(branches.last(), lower, upper, 6)[n];
        assert forall|i: int| 0 <= i < 6 implies lower[i].le(#[trigger] q[i]) && q[i].le(
            upper[i],
        ) by {
            assert(within(expansions(branches.last(), lower, upper, 6)[n][i], lower[i], upper[i]));
        }
    }
}

/// Whether those are the configurations a tool pose can be reached in, or that is why there is
/// none.
pub open spec fn are_configurations_for(
    branches: Seq<Vec<Vec<Double>>>,
    limits: Limits,
    index: usize,
    r: Result<Vec<Vec<Double>>, ResolveError>,
) -> bool {
    let within = branches_within(
        candidate_lists(branches),
        limits.position_min@,
        limits.position_max@,
    );
    match r {
        Ok(found) => within.len() > 0 && lists(found@) == within,
        Err(e) => within.len() == 0 && e == if branches.len() == 0 {
            ResolveError::Unreachable { index }
        } else {
            ResolveError::OutsideJointLimits { index }
        },
    }
}

/// The configurations a tool pose can be reached in: every solution inside the limits, or why
/// there is none.
pub fn configurations_for(branches: &Vec<Vec<Vec<Double>>>, limits: &Limits, index: usize) -> (r:
    Result<Vec<Vec<Double>>, ResolveError>)
    requires
        forall|b: int| 0 <= b < branches.len() ==> (#[trigger] branches@[b]).len() == 6,
    ensures
        are_configurations_for(branches@, *limits, index, r),
{
    let found = inverse_kinematics_filtered(branches, limits);
    assert(lists(found@).len() == found.len());
    if branches.len() == 0 {
        return Err(ResolveError::Unreachable { index });
    }
    if found.len() == 0 {
        return Err(ResolveError::OutsideJointLimits { index });
    }
    Ok(found)
}

/// Whether `r` is the nearest of the configurations that were found, by their distances.
pub open spec fn is_nearest_configuration(
    found: Seq<Vec<Double>>,
    distances: Seq<Double>,
    r: Seq<Double>,
) -> bool {
    r == found[nearest(distances, distances.len())]@
}

/// The configuration to take: the nearest to the seed, by the distances to it.
///
/// The seed is the preferred configuration where one was given, and the configuration of the
/// waypoint before otherwise. That is what makes a trajectory continuous: without it, two
/// adjacent poses can land on different branches and the arm flips its wrist between them.
pub fn nearest_configuration(found: &Vec<Vec<Double>>, distances: &Vec<Double>) -> (r: Vec<Double>)
    requires
        0 < found.len() == distances.len(),
    ensures
        is_nearest_configuration(found@, distances@, r@),
{
    match select_nearest(distances) {
        Some(i) => crate::structs::copy_doubles(&found[i]),
        None => Vec::new(),
    }
}

/// The violation of the first joint from `i` on that is outside the limits.
pub open spec fn violation(limits: Limits, q: Seq<Double>, index: usize, i: int) -> Option<
    ResolveError,
>
    decreases 6 - i,
{
    if i < 0 || i >= 6 {
        None
    } else if limits.is_outside(q, i) {
        Some(
            ResolveError::GivenConfigurationOutsideLimits {
                index,
                joint: i as usize,
                value: q[i],
                min: limits.position_min@[i],
                max: limits.position_max@[i],
            },
        )
    } else {
        violation(limits, q, index, i + 1)
    }
}

proof fn lemma_violation(limits: Limits, q: Seq<Double>, index: usize, i: int, j: int)
    requires
        0 <= i <= j <= 6,
        forall|k: int| i <= k < j ==> !limits.is_outside(q, k),
    ensures
        violation(limits, q, index, i) == violation(limits, q, index, j),
    decreases j - i,
{
    if i < j {
        lemma_violation(limits, q, index, i + 1, j);
    }
}

/// Check a directly supplied joint configuration against the position limits. Zero is the first
/// joint.
pub fn check_configuration(limits: &Limits, q: &[Double; 6], index: usize) -> (r: Result<
    (),
    ResolveError,
>)
    ensures
        match r {
            Ok(_) => violation(*limits, q@, index, 0) is None,
            Err(e) => violation(*limits, q@, index, 0) == Some(e),
        },
{
    match limits.first_violation(q) {
        None => {
            proof {
                lemma_violation(*limits, q@, index, 0, 6);
            }
            Ok(())
        },
        Some((joint, value, min, max)) => {
            proof {
                lemma_violation(*limits, q@, index, 0, joint as int);
            }
            Err(ResolveError::GivenConfigurationOutsideLimits { index, joint, value, min, max })
        },
    }
}

/// Whether `q` is a way to take a solution: one candidate for each of the six joints, all inside
/// the limits.
pub open spec fn is_taken_from(branch: Seq<Seq<Double>>, limits: Limits, q: Seq<Double>) -> bool {
    &&& q.len() == 6
    &&& forall|i: int|
        0 <= i < 6 ==> (#[trigger] branch[i]).contains(q[i]) && limits.position_min@[i].le(q[i])
            && q[i].le(limits.position_max@[i])
}

proof fn lemma_taken_is_expanded(branch: Seq<Seq<Double>>, limits: Limits, q: Seq<Double>)
    requires
        is_taken_from(branch, limits, q),
    ensures
        expansions(branch, limits.position_min@, limits.position_max@, 6).contains(q),
{
    let choice = Seq::new(
        6,
        |i: int| choose|j: int| 0 <= j < branch[i].len() && branch[i][j] == q[i],
    );
    assert forall|i: int| 0 <= i < 6 implies {
        &&& 0 <= #[trigger] choice[i] < branch[i].len()
        &&& q[i] == branch[i][choice[i]]
        &&& within(q[i], limits.position_min@[i], limits.position_max@[i])
    } by {
        assert(branch[i].contains(q[i]));
    }
    turned_configurations_are_complete(
        branch,
        limits.position_min@,
        limits.position_max@,
        6,
        choice,
        q,
    );
}

/// No branch is lost: for every solution of a pose, each way to take it inside the limits is
/// among the configurations that are found. And nothing is made up: whatever is found is such a
/// way to take one of the solutions.
pub proof fn every_branch_is_found(
    branches: Seq<Seq<Seq<Double>>>,
    limits: Limits,
    q: Seq<Double>,
)
    ensures
        branches_within(branches, limits.position_min@, limits.position_max@).contains(q) <==> (
        exists|b: int|
            0 <= b < branches.len() && is_taken_from(#[trigger] branches[b], limits, q)),
    decreases branches.len(),
{
    let lower = limits.position_min@;
    let upper = limits.position_max@;
    let all = branches_within(branches, lower, upper);
    if branches.len() > 0 {
        let rest = branches.drop_last();
        let before = branches_within(rest, lower, upper);
        let added = expansions(branches.last(), lower, upper, 6);
        every_branch_is_found(rest, limits, q);
        if all.contains(q) {
            let k = choose|k: int| 0 <= k < all.len() && all[k] == q;
            if k < before.len() {
                assert(before[k] == q);
                let b = choose|b: int|
                    0 <= b < rest.len() && is_taken_from(#[trigger] rest[b], limits, q);
                assert(is_taken_from(branches[b], limits, q));
            } else {
                let n = k - before.len();
                assert(added[n] == q);
                turned_configurations_are_candidates(branches.last(), lower, upper, 6, n);
                turned_configurations_are_inside(branches.last(), lower, upper, 6, n);
                assert forall|i: int| 0 <= i < 6 implies (
                #[trigger] branches.last()[i]).contains(q[i]) && lower[i].le(q[i]) && q[i].le(
                    upper[i],
                ) by {
                    assert(within(added[n][i], lower[i], upper[i]));
                }
                assert(is_taken_from(branches[branches.len() - 1], limits, q));
            }
        }
        if exists|b: int| 0 <= b < branches.len() && is_taken_from(#[trigger] branches[b], limits, q) {
            let b = choose|b: int|
                0 <= b < branches.len() && is_taken_from(#[trigger] branches[b], limits, q);
            if b < rest.len() {
                assert(is_taken_from(rest[b], limits, q));
                let k = choose|k: int| 0 <= k < before.len() && before[k] == q;
                assert(all[k] == q);
            } else {
                lemma_taken_is_expanded(branches.last(), limits, q);
                let k = choose|k: int| 0 <= k < added.len() && added[k] == q;
                assert(all[before.len() + k] == q);
            }
        }
    }
}

/// A pose is refused only where no solution of it can be taken inside the limits.
pub proof fn refused_poses_have_no_way(branches: Seq<Seq<Seq<Double>>>, limits: Limits)
    ensures
        branches_within(branches, limits.position_min@, limits.position_max@).len() == 0 <==> (
        forall|b: int, q: Seq<Double>|
            0 <= b < branches.len() ==> !#[trigger] is_taken_from(branches[b], limits, q)),
{
    let all = branches_within(branches, limits.position_min@, limits.position_max@);
    if all.len() > 0 {
        every_branch_is_found(branches, limits, all[0]);
        assert(all.contains(all[0]));
    } else {
        assert forall|b: int, q: Seq<Double>| 0 <= b < branches.len() implies !#[trigger] is_taken_from(
            branches[b],
            limits,
            q,
        ) by {
            every_branch_is_found(branches, limits, q);
        }
    }
}

/// A pose is refused exactly where it cannot be reached: as out of reach where it has no solution,
/// and for the limits where it has but none of them can be taken inside them. Otherwise what is
/// found is every way to take one of its solutions, and nothing else.
pub proof fn poses_are_reached_where_they_can_be(
    branches: Seq<Vec<Vec<Double>>>,
    limits: Limits,
    index: usize,
    r: Result<Vec<Vec<Double>>, ResolveError>,
    q: Seq<Double>,
)
    requires
        are_configurations_for(branches, limits, index, r),
    ensures
        r == Err::<Vec<Vec<Double>>, _>(ResolveError::Unreachable { index }) <==> branches.len()
            == 0,
        r matches Err(e) ==> e == (ResolveError::Unreachable { index }) || e == (
        ResolveError::OutsideJointLimits { index }),
        r is Err ==> forall|b: int|
            0 <= b < branches.len() ==> !is_taken_from(lists(#[trigger] branches[b]@), limits, q),
        r matches Ok(found) ==> (lists(found@).contains(q) <==> exists|b: int|
            0 <= b < branches.len() && is_taken_from(lists(#[trigger] branches[b]@), limits, q)),
        r matches Ok(found) ==> found@.len() > 0,
{
    let all = candidate_lists(branches);
    refused_poses_have_no_way(all, limits);
    every_branch_is_found(all, limits, q);
    assert forall|b: int| 0 <= b < branches.len() implies all[b] == lists(
        #[trigger] branches[b]@,
    ) by {}
    if let Ok(found) = r {
        assert(lists(found@).len() == found@.len());
        if lists(found@).contains(q) {
            let b = choose|b: int| 0 <= b < all.len() && is_taken_from(#[trigger] all[b], limits, q);
            assert(is_taken_from(lists(branches[b]@), limits, q));
        }
        if exists|b: int|
            0 <= b < branches.len() && is_taken_from(lists(#[trigger] branches[b]@), limits, q) {
            let b = choose|b: int|
                0 <= b < branches.len() && is_taken_from(lists(#[trigger] branches[b]@), limits, q);
            assert(is_taken_from(all[b], limits, q));
        }
    } else {
        assert forall|b: int| 0 <= b < branches.len() implies !is_taken_from(
            lists(#[trigger] branches[b]@),
            limits,
            q,
        ) by {
            assert(!is_taken_from(all[b], limits, q));
        }
    }
}

/// The configuration that is taken for a pose is the nearest there is: no solution, in whatever
/// branch and by whatever turns inside the limits, is less far from the seed. And it is a way to
/// take one of the solutions.
///
/// `far` is how far a configuration is from the seed, and `distances` says so of what was found.
pub proof fn no_branch_is_nearer(
    branches: Seq<Vec<Vec<Double>>>,
    limits: Limits,
    index: usize,
    found: Vec<Vec<Double>>,
    distances: Seq<Double>,
    far: spec_fn(Seq<Double>) -> Double,
    taken: Seq<Double>,
    b: int,
    q: Seq<Double>,
)
    requires
        are_configurations_for(branches, limits, index, Ok(found)),
        found@.len() == distances.len(),
        forall|k: int| 0 <= k < found@.len() ==> #[trigger] distances[k] == far(found@[k]@),
        forall|k: int| 0 <= k < found@.len() ==> !(#[trigger] distances[k]).is_nan(),
        is_nearest_configuration(found@, distances, taken),
    ensures
        0 <= b < branches.len() && is_taken_from(lists(branches[b]@), limits, q) ==> far(taken).le(
            far(q),
        ),
        exists|c: int|
            0 <= c < branches.len() && is_taken_from(
                lists(#[trigger] branches[c]@),
                limits,
                taken,
            ),
{
    assert(lists(found@).len() == found@.len());
    selected_is_the_nearest(distances, distances.len());
    let n = nearest(distances, distances.len());
    assert(lists(found@)[n] == taken);
    poses_are_reached_where_they_can_be(branches, limits, index, Ok(found), taken);
    poses_are_reached_where_they_can_be(branches, limits, index, Ok(found), q);
    if 0 <= b < branches.len() && is_taken_from(lists(branches[b]@), limits, q) {
        let k = choose|k: int| 0 <= k < lists(found@).len() && lists(found@)[k] == q;
        assert(found@[k]@ == q);
        assert(distances[n].le(distances[k]));
    }
}

/// A given configuration passes exactly where every joint is inside its limits; where it does
/// not, the error names the waypoint, and the first joint outside with its value and limits.
pub proof fn given_configurations_are_judged_joint_by_joint(
    limits: Limits,
    q: Seq<Double>,
    index: usize,
)
    ensures
        violation(limits, q, index, 0) is None <==> (forall|i: int|
            0 <= i < 6 ==> !(#[trigger] q[i]).lt(limits.position_min@[i])
                && !limits.position_max@[i].lt(q[i])),
        violation(limits, q, index, 0) matches Some(e) ==> (e matches
            ResolveError::GivenConfigurationOutsideLimits { index: w, joint, value, min, max } && w
            == index && joint < 6 && value == q[joint as int] && min
            == limits.position_min@[joint as int] && max == limits.position_max@[joint as int] && (
        value.lt(min) || max.lt(value)) && forall|i: int|
            0 <= i < joint ==> !(#[trigger] q[i]).lt(limits.position_min@[i])
                && !limits.position_max@[i].lt(q[i])),
{
    reveal_with_fuel(violation, 7);
}

} // verus!
