//! Saving and loading planned trajectories: their names, their files and their schema.
//!
//! One file per trajectory under the trajectory directory. The request is kept alongside the
//! result so a trajectory can be planned again when the limits change, rather than only
//! replayed.

use crate::text::{
    chars_of, contains, contains_text, decimal, has_prefix, has_suffix, join2, join3, number,
    starts_with, strip_suffix, views,
};
use crate::trajectory::plan::{PlanRequest, PlannedTrajectory};
use vstd::prelude::*;

verus! {

/// Bumped whenever the stored shape changes incompatibly.
pub const SCHEMA_VERSION: u32 = 1;

/// Where trajectories live when nothing says otherwise.
pub const DEFAULT_TRAJECTORY_DIR: &'static str = "trajectories";

/// The longest name a trajectory may have, in bytes.
pub const MAX_NAME_BYTES: u64 = 128;

/// One trajectory on disk.
#[derive(Debug)]
pub struct StoredTrajectory {
    pub schema_version: u32,
    pub name: String,
    /// Seconds since the Unix epoch.
    pub created_unix_seconds: u64,
    /// The problem this came from, so it can be planned again rather than only replayed.
    pub request: Option<PlanRequest>,
    pub trajectory: PlannedTrajectory,
}

/// How many bytes a character takes in UTF-8.
pub open spec fn utf8_width(c: char) -> nat {
    let code = c as u32;
    if code < 0x80 {
        1
    } else if code < 0x800 {
        2
    } else if code < 0x1_0000 {
        3
    } else {
        4
    }
}

/// How many bytes a text takes in UTF-8.
pub open spec fn utf8_len(s: Seq<char>) -> nat
    decreases s.len(),
{
    if s.len() == 0 {
        0
    } else {
        utf8_len(s.drop_last()) + utf8_width(s.last())
    }
}

proof fn lemma_utf8_len(s: Seq<char>, n: int)
    requires
        0 <= n <= s.len(),
    ensures
        utf8_len(s.take(n)) <= utf8_len(s),
    decreases s.len(),
{
    if n < s.len() {
        lemma_utf8_len(s.drop_last(), n);
        assert(s.drop_last().take(n) =~= s.take(n));
    } else {
        assert(s.take(n) =~= s);
    }
}

/// Whether a text takes more than `limit` bytes.
fn is_longer(cs: &Vec<char>, limit: u64) -> (r: bool)
    requires
        limit < 1000,
    ensures
        r == (utf8_len(cs@) > limit),
{
    let mut bytes: u64 = 0;
    let mut i: usize = 0;
    assert(cs@.take(0) =~= Seq::empty());
    while i < cs.len()
        invariant
            i <= cs.len(),
            bytes == utf8_len(cs@.take(i as int)),
            bytes <= limit < 1000,
        decreases cs.len() - i,
    {
        let code = cs[i] as u32;
        let width: u64 = if code < 0x80 {
            1
        } else if code < 0x800 {
            2
        } else if code < 0x1_0000 {
            3
        } else {
            4
        };
        assert(cs@.take(i + 1).drop_last() =~= cs@.take(i as int));
        bytes = bytes + width;
        if bytes > limit {
            proof {
                lemma_utf8_len(cs@, i + 1);
            }
            return true;
        }
        i = i + 1;
    }
    assert(cs@.take(i as int) =~= cs@);
    false
}

/// Whether a character may stand in a name.
pub open spec fn is_name_char(c: char) -> bool {
    let code = c as u32;
    (48 <= code <= 57) || (65 <= code <= 90) || (97 <= code <= 122) || c == '_' || c == '-' || c
        == '.'
}

/// Whether a text is made of letters, digits, `_`, `-` and `.`, does not start with `.` and does
/// not contain `..`.
pub open spec fn is_plain(name: Seq<char>) -> bool {
    &&& forall|i: int| 0 <= i < name.len() ==> is_name_char(#[trigger] name[i])
    &&& !contains_text(name, ".."@)
    &&& !has_prefix(name, "."@)
}

/// What is wrong with a name; `None` where nothing is.
pub open spec fn name_fault(name: Seq<char>) -> Option<Seq<char>> {
    if name.len() == 0 {
        Some("a trajectory name cannot be empty"@)
    } else if utf8_len(name) > MAX_NAME_BYTES {
        Some("trajectory name '"@ + name + "' is too long"@)
    } else if !is_plain(name) {
        Some(
            "trajectory name '"@ + name
                + "' may only contain letters, digits, '_', '-' and '.', and may not start with '.' or contain '..'"@,
        )
    } else {
        None
    }
}

fn has_only_name_chars(cs: &Vec<char>) -> (r: bool)
    ensures
        r == forall|i: int| 0 <= i < cs@.len() ==> is_name_char(#[trigger] cs@[i]),
{
    let mut i: usize = 0;
    while i < cs.len()
        invariant
            i <= cs.len(),
            forall|j: int| 0 <= j < i ==> is_name_char(#[trigger] cs@[j]),
        decreases cs.len() - i,
    {
        let c = cs[i];
        let code = c as u32;
        if !((48 <= code && code <= 57) || (65 <= code && code <= 90) || (97 <= code && code <= 122)
            || c == '_' || c == '-' || c == '.') {
            assert(!is_name_char(cs@[i as int]));
            return false;
        }
        i = i + 1;
    }
    true
}

/// Reject anything that is not a plain file stem.
///
/// A trajectory name arrives from outside and becomes part of a file's path, so an arbitrary
/// string must not be able to reach outside the directory it is supposed to name.
pub fn validate_name(name: &str) -> (r: Result<(), String>)
    ensures
        match r {
            Ok(_) => name_fault(name@) is None,
            Err(e) => name_fault(name@) == Some(e@),
        },
{
    let cs = chars_of(name);
    if name.is_empty() {
        return Err("a trajectory name cannot be empty".to_owned());
    }
    if is_longer(&cs, MAX_NAME_BYTES) {
        return Err(join3("trajectory name '", name, "' is too long"));
    }
    if !has_only_name_chars(&cs) || contains(name, "..") || starts_with(name, ".") {
        return Err(
            join3(
                "trajectory name '",
                name,
                "' may only contain letters, digits, '_', '-' and '.', and may not start with '.' or contain '..'",
            ),
        );
    }
    Ok(())
}

/// `part` below `base`: `part` alone where it is absolute or `base` is empty, else the two with
/// one `/` between them.
pub open spec fn below(base: Seq<char>, part: Seq<char>) -> Seq<char> {
    if has_prefix(part, "/"@) || base.len() == 0 {
        part
    } else if has_suffix(base, "/"@) {
        base + part
    } else {
        base + "/"@ + part
    }
}

/// Join two paths.
pub fn join_path(base: &str, part: &str) -> (r: String)
    ensures
        r@ == below(base@, part@),
{
    if starts_with(part, "/") || base.is_empty() {
        part.to_owned()
    } else if crate::text::ends_with(base, "/") {
        join2(base, part)
    } else {
        join3(base, "/", part)
    }
}

/// Whether a trajectory of some name is stored there, or why it cannot be.
pub open spec fn is_path_for(dir: Seq<char>, name: Seq<char>, r: Result<String, String>) -> bool {
    match r {
        Ok(path) => name_fault(name) is None && path@ == below(dir, name + ".json"@),
        Err(e) => name_fault(name) == Some(e@),
    }
}

/// The path a named trajectory occupies in a directory.
pub fn path_for(dir: &str, name: &str) -> (r: Result<String, String>)
    ensures
        is_path_for(dir@, name@, r),
{
    match validate_name(name) {
        Ok(_) => Ok(join_path(dir, join2(name, ".json").as_str())),
        Err(e) => Err(e),
    }
}

/// Whether a record is that of a trajectory, by this build.
pub open spec fn is_record_of(
    stored: StoredTrajectory,
    name: Seq<char>,
    created_unix_seconds: u64,
    request: Option<PlanRequest>,
    trajectory: PlannedTrajectory,
) -> bool {
    &&& stored.schema_version == SCHEMA_VERSION
    &&& stored.name@ == name
    &&& stored.created_unix_seconds == created_unix_seconds
    &&& stored.request == request
    &&& stored.trajectory == trajectory
}

/// The record to store for a trajectory.
pub fn record_of(
    name: &str,
    created_unix_seconds: u64,
    request: Option<PlanRequest>,
    trajectory: PlannedTrajectory,
) -> (r: StoredTrajectory)
    ensures
        is_record_of(r, name@, created_unix_seconds, request, trajectory),
{
    StoredTrajectory {
        schema_version: SCHEMA_VERSION,
        name: name.to_owned(),
        created_unix_seconds,
        request,
        trajectory,
    }
}

/// What is said of a record of another schema.
pub open spec fn schema_fault(path: Seq<char>, version: u32) -> Seq<char> {
    path + " was written by schema version "@ + decimal(version as nat)
        + " but this build expects "@ + decimal(SCHEMA_VERSION as nat) + "; re-plan it"@
}

/// Whether a record that was read from `path` is accepted as `r`: unchanged where it is of the
/// current schema, and not at all otherwise.
pub open spec fn is_accepted_as(
    path: Seq<char>,
    stored: StoredTrajectory,
    r: Result<StoredTrajectory, String>,
) -> bool {
    match r {
        Ok(s) => stored.schema_version == SCHEMA_VERSION && s == stored,
        Err(e) => stored.schema_version != SCHEMA_VERSION && e@ == schema_fault(
            path,
            stored.schema_version,
        ),
    }
}

/// Accept a record that was read from `path`, if it is of the current schema.
pub fn accept_record(path: &str, stored: StoredTrajectory) -> (r: Result<StoredTrajectory, String>)
    ensures
        is_accepted_as(path@, stored, r),
{
    if stored.schema_version != SCHEMA_VERSION {
        let mut e = join3(
            path,
            " was written by schema version ",
            number(stored.schema_version as u64).as_str(),
        );
        e.append(" but this build expects ");
        e.append(number(SCHEMA_VERSION as u64).as_str());
        e.append("; re-plan it");
        return Err(e);
    }
    Ok(stored)
}

/// The name of the trajectory in a file: what stands before `.json`, if that is anything.
pub open spec fn stem_of(file: Seq<char>) -> Option<Seq<char>> {
    if has_suffix(file, ".json"@) && file.len() > ".json"@.len() {
        Some(file.take(file.len() - ".json"@.len()))
    } else {
        None
    }
}

/// The names of the trajectories among some files, in the order of the files.
pub open spec fn stems(files: Seq<Seq<char>>) -> Seq<Seq<char>>
    decreases files.len(),
{
    if files.len() == 0 {
        Seq::empty()
    } else {
        let before = stems(files.drop_last());
        match stem_of(files.last()) {
            Some(stem) => before.push(stem),
            None => before,
        }
    }
}

/// Whether `a` is `b` or stands before it in the order of their characters' code points.
pub open spec fn not_after(a: Seq<char>, b: Seq<char>) -> bool
    decreases a.len(),
{
    if a.len() == 0 {
        true
    } else if b.len() == 0 {
        false
    } else if a[0] != b[0] {
        a[0] < b[0]
    } else {
        not_after(a.drop_first(), b.drop_first())
    }
}

proof fn lemma_order_is_total(a: Seq<char>, b: Seq<char>)
    ensures
        not_after(a, b) || not_after(b, a),
    decreases a.len(),
{
    if a.len() > 0 && b.len() > 0 && a[0] == b[0] {
        lemma_order_is_total(a.drop_first(), b.drop_first());
    }
}

proof fn lemma_order_is_transitive(a: Seq<char>, b: Seq<char>, c: Seq<char>)
    requires
        not_after(a, b),
        not_after(b, c),
    ensures
        not_after(a, c),
    decreases a.len(),
{
    if a.len() > 0 && b.len() > 0 && c.len() > 0 && a[0] == b[0] && b[0] == c[0] {
        lemma_order_is_transitive(a.drop_first(), b.drop_first(), c.drop_first());
    }
}

fn comes_not_after(a: &str, b: &str) -> (r: bool)
    ensures
        r == not_after(a@, b@),
{
    let x = chars_of(a);
    let y = chars_of(b);
    let mut i: usize = 0;
    assert(x@.skip(0) =~= x@);
    assert(y@.skip(0) =~= y@);
    while i < x.len()
        invariant
            i <= x.len(),
            i <= y.len(),
            x@ == a@,
            y@ == b@,
            not_after(x@, y@) == not_after(x@.skip(i as int), y@.skip(i as int)),
        decreases x.len() - i,
    {
        if i == y.len() {
            return false;
        }
        if x[i] != y[i] {
            return x[i] < y[i];
        }
        assert(x@.skip(i as int).drop_first() =~= x@.skip(i + 1));
        assert(y@.skip(i as int).drop_first() =~= y@.skip(i + 1));
        i = i + 1;
    }
    true
}

/// Whether a list of texts is in order.
pub open spec fn is_sorted(names: Seq<Seq<char>>) -> bool {
    forall|i: int, j: int|
        0 <= i < j < names.len() ==> not_after(#[trigger] names[i], #[trigger] names[j])
}

/// Put a name where it belongs.
fn insert_sorted(names: &mut Vec<String>, name: String)
    requires
        is_sorted(views(old(names)@)),
    ensures
        is_sorted(views(final(names)@)),
        views(final(names)@).to_multiset() == views(old(names)@).to_multiset().insert(name@),
{
    let ghost before = views(names@);
    let mut at: usize = names.len();
    while at > 0 && !comes_not_after(names[at - 1].as_str(), name.as_str())
        invariant
            at <= names.len(),
            before == views(names@),
            is_sorted(before),
            forall|k: int| at <= k < before.len() ==> !not_after(#[trigger] before[k], name@),
        decreases at,
    {
        assert(before[at - 1] == names@[at - 1]@);
        at = at - 1;
    }
    proof {
        if at > 0 {
            assert(before[at - 1] == names@[at - 1]@);
        }
        assert forall|k: int| 0 <= k < at implies not_after(#[trigger] before[k], name@) by {
            if k < at - 1 {
                assert(not_after(before[k], before[at - 1]));
                lemma_order_is_transitive(before[k], before[at - 1], name@);
            }
        }
        assert forall|k: int| at <= k < before.len() implies not_after(
            name@,
            #[trigger] before[k],
        ) by {
            lemma_order_is_total(name@, before[k]);
        }
    }
    names.insert(at, name);
    let ghost after = before.insert(at as int, name@);
    assert(views(names@) =~= after);
    assert forall|i: int, j: int| 0 <= i < j < after.len() implies not_after(
        #[trigger] after[i],
        #[trigger] after[j],
    ) by {
        let a = if i < at {
            i
        } else {
            i - 1
        };
        let b = if j < at {
            j
        } else {
            j - 1
        };
        if i != at && j != at {
            assert(not_after(before[a], before[b]));
        }
    }
    proof {
        before.to_multiset_ensures();
        before.insert_ensures(at as int, name@);
        vstd::seq_lib::to_multiset_insert(before, at as int, name@);
    }
}

/// Whether those are the names of the trajectories in a directory.
pub open spec fn are_stored_names(files: Seq<Seq<char>>, r: Seq<Seq<char>>) -> bool {
    &&& is_sorted(r)
    &&& r.to_multiset() == stems(files).to_multiset()
}

/// Every trajectory name among the files of a directory, sorted.
pub fn stored_names(files: &Vec<String>) -> (r: Vec<String>)
    ensures
        are_stored_names(views(files@), views(r@)),
{
    let ghost all = views(files@);
    let mut r: Vec<String> = Vec::new();
    let mut i: usize = 0;
    assert(views(r@) =~= Seq::empty());
    assert(all.take(0) =~= Seq::empty());
    while i < files.len()
        invariant
            i <= files.len(),
            all == views(files@),
            is_sorted(views(r@)),
            views(r@).to_multiset() == stems(all.take(i as int)).to_multiset(),
        decreases files.len() - i,
    {
        assert(all.take(i + 1).drop_last() =~= all.take(i as int));
        assert(all.take(i + 1).last() == files@[i as int]@);
        let file = files[i].as_str();
        if chars_of(file).len() > chars_of(".json").len() {
            if let Some(stem) = strip_suffix(file, ".json") {
                proof {
                    stems(all.take(i as int)).to_multiset_ensures();
                }
                insert_sorted(&mut r, stem);
            }
        }
        i = i + 1;
    }
    assert(all.take(i as int) =~= all);
    r
}

/// A validated name cannot reach outside the directory: its file's name holds no separator, is
/// not hidden and is neither the directory nor its parent.
pub proof fn names_stay_in_their_directory(dir: Seq<char>, name: Seq<char>)
    requires
        name_fault(name) is None,
    ensures
        !(name + ".json"@).contains('/'),
        (name + ".json"@)[0] != '.',
        dir.len() > 0 ==> below(dir, name + ".json"@) == (if has_suffix(dir, "/"@) {
            dir
        } else {
            dir + "/"@
        }) + (name + ".json"@),
        dir.len() == 0 ==> below(dir, name + ".json"@) == name + ".json"@,
{
    reveal_strlit(".json");
    reveal_strlit(".");
    reveal_strlit("/");
    let file = name + ".json"@;
    assert forall|i: int| 0 <= i < file.len() implies file[i] != '/' by {
        if i < name.len() {
            assert(is_name_char(name[i]));
        }
    }
    assert(file[0] == name[0]);
    if name[0] == '.' {
        assert(name.take(1) =~= "."@);
    }
    assert(is_name_char(name[0]));
    if has_prefix(file, "/"@) {
        assert(file.take(1)[0] == '/');
    }
}

/// Two trajectories of different names never share a file.
pub proof fn names_have_their_own_files(dir: Seq<char>, a: Seq<char>, b: Seq<char>)
    requires
        name_fault(a) is None,
        name_fault(b) is None,
        below(dir, a + ".json"@) == below(dir, b + ".json"@),
    ensures
        a == b,
{
    names_stay_in_their_directory(dir, a);
    names_stay_in_their_directory(dir, b);
    let x = a + ".json"@;
    let y = b + ".json"@;
    let d = if has_suffix(dir, "/"@) {
        dir
    } else {
        dir + "/"@
    };
    if dir.len() > 0 {
        assert(x =~= (d + x).skip(d.len() as int));
        assert(y =~= (d + y).skip(d.len() as int));
    }
    assert(x == y);
    assert(a =~= x.take(x.len() - ".json"@.len()));
    assert(b =~= y.take(y.len() - ".json"@.len()));
}

/// What is saved is listed: a directory that holds the file of a named trajectory has its name
/// among its trajectories.
pub proof fn saved_names_are_listed(files: Seq<Seq<char>>, name: Seq<char>)
    requires
        name_fault(name) is None,
        files.contains(name + ".json"@),
    ensures
        stems(files).contains(name),
    decreases files.len(),
{
    let file = name + ".json"@;
    assert(file.skip(file.len() - ".json"@.len()) =~= ".json"@);
    assert(file.take(file.len() - ".json"@.len()) =~= name);
    let i = choose|i: int| 0 <= i < files.len() && files[i] == file;
    let before = stems(files.drop_last());
    if i == files.len() - 1 {
        assert(stems(files) == before.push(name));
        assert(stems(files)[before.len() as int] == name);
    } else {
        assert(files.drop_last()[i] == file);
        saved_names_are_listed(files.drop_last(), name);
        let k = choose|k: int| 0 <= k < before.len() && before[k] == name;
        assert(stems(files)[k] == name);
    }
}

/// What was saved is loaded: the record of a trajectory is accepted from wherever it is read, with
/// the name, the request and the trajectory - every waypoint of it - that went in. A record of
/// another schema is not.
pub proof fn saved_records_are_loaded(
    path: Seq<char>,
    stored: StoredTrajectory,
    name: Seq<char>,
    created_unix_seconds: u64,
    request: Option<PlanRequest>,
    trajectory: PlannedTrajectory,
    r: Result<StoredTrajectory, String>,
)
    requires
        is_accepted_as(path, stored, r),
    ensures
        is_record_of(stored, name, created_unix_seconds, request, trajectory) ==> (r matches Ok(s)
            && s == stored && is_record_of(s, name, created_unix_seconds, request, trajectory)),
        stored.schema_version != SCHEMA_VERSION ==> (r matches Err(e) && e@ == schema_fault(
            path,
            stored.schema_version,
        )),
{
}

} // verus!
