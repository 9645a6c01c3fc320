//! Pose literals, and the `base_link` / UR `base` frame convention.
//!
//! Two frames matter here and they are 180 degrees apart about Z.
//!
//! * **UR `base`** is what the controller means by a `p[...]` pose.
//! * **URDF `base_link`** is REP-103 aligned (X+ forward).
//!
//! The published frame tree adds half a turn to the first joint, which makes its `base_link`
//! behave numerically as the UR `base` frame. So poses looked up against `base_link` are taken
//! to be in the UR base frame already, unless [`FrameConfig::base_link_is_ur_base`] says
//! otherwise: turning them on top of that would mirror every pose that was taught.

use crate::double::Double;
use crate::text::{
    has_prefix, has_suffix, join3, number, pieces, split_on, strip_prefix, strip_suffix, trim,
    trimmed, views,
};
use vstd::prelude::*;

verus! {

/// Which frame a `[x, y, z, rx, ry, rz]` array is expressed in.
///
/// Carried around rather than assumed, because the two differ by half a turn and a silent
/// mix-up mirrors the robot about its own base instead of failing.
#[derive(Clone, Copy, PartialEq, Eq, Debug, Structural)]
pub enum PoseFrame {
    /// The UR controller's `Base`. What `p[...]` means to URScript.
    UrBase,
    /// The URDF `base_link`, REP-103 aligned.
    UrdfBaseLink,
}

/// How this driver's frame tree relates to the UR controller's base frame.
#[derive(Clone, Copy, PartialEq, Eq, Debug, Structural)]
pub struct FrameConfig {
    /// `true` when the tree's `base_link` is numerically the UR `base` frame. Poses looked up
    /// against `base_link` then need no correction.
    pub base_link_is_ur_base: bool,
}

impl Default for FrameConfig {
    fn default() -> (r: FrameConfig)
        ensures
            r.base_link_is_ur_base,
    {
        FrameConfig { base_link_is_ur_base: true }
    }
}

impl FrameConfig {
    /// A pose against `base_link`, in the UR base frame: the pose itself or the pose turned half
    /// a turn about Z.
    pub open spec fn in_ur_base<P>(self, pose: P, turned: P) -> P {
        if self.base_link_is_ur_base {
            pose
        } else {
            turned
        }
    }

    /// Reinterpret a pose that was looked up against `base_link` as a UR base pose. `turned` is
    /// the same pose turned half a turn about Z.
    pub fn base_link_to_ur_base<P>(&self, pose: P, turned: P) -> (r: P)
        ensures
            r == self.in_ur_base(pose, turned),
    {
        if self.base_link_is_ur_base {
            pose
        } else {
            turned
        }
    }

    /// The inverse of [`FrameConfig::base_link_to_ur_base`]: half a turn is its own inverse.
    pub fn ur_base_to_base_link<P>(&self, pose: P, turned: P) -> (r: P)
        ensures
            r == self.in_ur_base(pose, turned),
    {
        self.base_link_to_ur_base(pose, turned)
    }

    /// A pose in the frame it was given in, as a UR base pose.
    pub open spec fn from_frame<P>(self, frame: PoseFrame, pose: P, turned: P) -> P {
        match frame {
            PoseFrame::UrBase => pose,
            PoseFrame::UrdfBaseLink => self.in_ur_base(pose, turned),
        }
    }

    /// Take a pose out of the frame it was given in.
    pub fn to_ur_base<P>(&self, frame: PoseFrame, pose: P, turned: P) -> (r: P)
        ensures
            r == self.from_frame(frame, pose, turned),
    {
        match frame {
            PoseFrame::UrBase => pose,
            PoseFrame::UrdfBaseLink => self.base_link_to_ur_base(pose, turned),
        }
    }
}

/// What stands between the brackets of a pose literal, `p[...]` or `[...]`, with white space
/// around it and behind the `p`; `None` for what is no such literal.
pub open spec fn pose_body(s: Seq<char>) -> Option<Seq<char>> {
    let t = trimmed(s);
    let bracketed = trimmed(
        if has_prefix(t, "p"@) {
            t.skip("p"@.len() as int)
        } else {
            t
        },
    );
    let rest = bracketed.skip("["@.len() as int);
    if has_prefix(bracketed, "["@) && has_suffix(rest, "]"@) {
        Some(rest.take(rest.len() - "]"@.len()))
    } else {
        None
    }
}

/// The components of a pose literal.
pub open spec fn pose_parts(s: Seq<char>) -> Option<Seq<Seq<char>>> {
    match pose_body(s) {
        None => None,
        Some(body) => Some(pieces(body, ',').map_values(|part: Seq<char>| trimmed(part))),
    }
}

/// What is said of a string that is no pose literal.
pub open spec fn not_a_literal(s: Seq<char>) -> Seq<char> {
    "'"@ + s + "' is not a p[...] pose literal"@
}

/// The components of a pose literal, `p[x,y,z,rx,ry,rz]`, as they are spelled.
///
/// Accepts a literal with or without the leading `p` and with arbitrary white space around its
/// parts, so a stored trajectory and a looked-up pose are read in the same way.
pub fn pose_components(s: &str) -> (r: Result<Vec<String>, String>)
    ensures
        match r {
            Ok(parts) => pose_parts(s@) == Some(views(parts@)),
            Err(e) => pose_parts(s@) is None && e@ == not_a_literal(s@),
        },
{
    let t = trim(s);
    let bracketed = match strip_prefix(t.as_str(), "p") {
        Some(rest) => trim(rest.as_str()),
        None => trim(t.as_str()),
    };
    let body = match strip_prefix(bracketed.as_str(), "[") {
        Some(rest) => match strip_suffix(rest.as_str(), "]") {
            Some(body) => body,
            None => {
                return Err(join3("'", s, "' is not a p[...] pose literal"));
            },
        },
        None => {
            return Err(join3("'", s, "' is not a p[...] pose literal"));
        },
    };
    let raw = split_on(body.as_str(), ',');
    let ghost all = pieces(body@, ',').map_values(|part: Seq<char>| trimmed(part));
    let mut parts: Vec<String> = Vec::new();
    let mut i: usize = 0;
    while i < raw.len()
        invariant
            i <= raw.len(),
            views(raw@) == pieces(body@, ','),
            all == pieces(body@, ',').map_values(|part: Seq<char>| trimmed(part)),
            views(parts@) == all.take(i as int),
        decreases raw.len() - i,
    {
        assert(views(raw@)[i as int] == raw@[i as int]@);
        assert(all.len() == raw.len());
        let ghost before = views(parts@);
        parts.push(trim(raw[i].as_str()));
        assert(views(parts@) =~= before.push(all[i as int]));
        i = i + 1;
        assert(all.take(i as int) =~= all.take(i - 1).push(all[i - 1]));
    }
    assert(raw.len() == views(raw@).len());
    assert(all.take(i as int) =~= all);
    Ok(parts)
}

/// The first component that is no number, up to the sixth.
pub open spec fn first_unread(read: Seq<Result<Double, String>>, i: int) -> int
    decreases read.len() - i,
{
    if i < 0 || i >= read.len() || i >= 6 || read[i] is Err {
        i
    } else {
        first_unread(read, i + 1)
    }
}

/// Every component before the first unread one was read.
proof fn lemma_first_unread(read: Seq<Result<Double, String>>, i: int)
    requires
        0 <= i <= read.len(),
        i <= 6,
    ensures
        i <= first_unread(read, i) <= read.len(),
        first_unread(read, i) <= 6,
        forall|k: int| i <= k < first_unread(read, i) ==> #[trigger] read[k] is Ok,
        first_unread(read, i) < read.len() && first_unread(read, i) < 6 ==> read[first_unread(
            read,
            i,
        )] is Err,
    decreases read.len() - i,
{
    if i < read.len() && i < 6 && read[i] is Ok {
        lemma_first_unread(read, i + 1);
    }
}

/// What is wrong with a pose literal, by how its components were read; `None` where nothing is.
pub open spec fn pose_fault(s: Seq<char>, read: Seq<Result<Double, String>>) -> Option<Seq<char>> {
    let n = first_unread(read, 0);
    if pose_parts(s) is None {
        Some(not_a_literal(s))
    } else if n < read.len() && n < 6 {
        Some(
            "'"@ + s + "' component "@ + crate::text::decimal(n as nat) + " is not a number: "@
                + read[n]->Err_0@,
        )
    } else if read.len() > 6 {
        Some("'"@ + s + "' has more than six components"@)
    } else if read.len() != 6 {
        Some(
            "'"@ + s + "' has "@ + crate::text::decimal(read.len()) + " components, expected six"@,
        )
    } else {
        None
    }
}

/// Whether a pose is what a literal spells, by its numbers as they were read, or what is wrong with
/// it.
pub open spec fn is_pose_of(
    s: Seq<char>,
    read: Seq<Result<Double, String>>,
    r: Result<[Double; 6], String>,
) -> bool {
    match r {
        Ok(pose) => pose_fault(s, read) is None && forall|i: int|
            0 <= i < 6 ==> read[i] == Ok::<Double, String>(#[trigger] pose@[i]),
        Err(e) => pose_fault(s, read) == Some(e@),
    }
}

/// Parse a URScript pose literal, `p[x,y,z,rx,ry,rz]`. `read` holds what reading its components
/// as numbers gave, each with the reason where it is none.
pub fn parse_pose_string(s: &str, read: &Vec<Result<Double, String>>) -> (r: Result<
    [Double; 6],
    String,
>)
    requires
        pose_parts(s@) matches Some(parts) ==> parts.len() == read.len(),
    ensures
        is_pose_of(s@, read@, r),
{
    if let Err(e) = pose_components(s) {
        return Err(e);
    }
    let zero = Double { bits: 0 };
    let mut pose: [Double; 6] = [zero, zero, zero, zero, zero, zero];
    let mut seen: usize = 0;
    while seen < read.len()
        invariant
            seen <= read.len(),
            seen <= 6,
            pose_parts(s@) is Some,
            first_unread(read@, 0) == first_unread(read@, seen as int),
            forall|i: int| 0 <= i < seen ==> read@[i] == Ok::<Double, String>(#[trigger] pose@[i]),
        decreases read.len() - seen,
    {
        if seen == 6 {
            return Err(join3("'", s, "' has more than six components"));
        }
        match &read[seen] {
            Ok(v) => {
                pose[seen] = *v;
            },
            Err(e) => {
                let mut fault = join3("'", s, "' component ");
                fault.append(number(seen as u64).as_str());
                fault.append(" is not a number: ");
                fault.append(e.as_str());
                return Err(fault);
            },
        }
        seen = seen + 1;
    }
    if seen != 6 {
        let mut fault = join3("'", s, "' has ");
        fault.append(number(seen as u64).as_str());
        fault.append(" components, expected six");
        return Err(fault);
    }
    Ok(pose)
}

/// Taking a pose into the UR base frame and back gives the pose again, where half a turn is its
/// own inverse.
pub proof fn frame_conversions_undo_each_other<P>(
    config: FrameConfig,
    pose: P,
    turn: spec_fn(P) -> P,
)
    requires
        turn(turn(pose)) == pose,
    ensures
        ({
            let there = config.in_ur_base(pose, turn(pose));
            config.in_ur_base(there, turn(there)) == pose
        }),
{
}

/// With the frame tree as it is published, no pose is turned.
pub proof fn taught_poses_keep_their_place<P>(frame: PoseFrame, pose: P, turned: P)
    ensures
        (FrameConfig { base_link_is_ur_base: true }).from_frame(frame, pose, turned) == pose,
{
}

/// A pose literal is understood if and only if it has six components and each of them is a
/// number.
pub proof fn literals_have_six_numbers(s: Seq<char>, read: Seq<Result<Double, String>>)
    requires
        pose_parts(s) matches Some(parts) && parts.len() == read.len(),
    ensures
        pose_fault(s, read) is None <==> read.len() == 6 && forall|i: int|
            0 <= i < 6 ==> #[trigger] read[i] is Ok,
{
    lemma_first_unread(read, 0);
}

} // verus!
