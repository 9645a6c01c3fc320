//! What holds of how the driver is set up and its tool is called: each variable and each flag means
//! one thing, and a stored trajectory is found under the name it was stored by.

use crate::cli::{
    are_six, asked_for, flags_in, list_parts, overridden, positional_in, value_of,
    Subcommand,
};
use crate::config::{configured_by, port_of, Environment, Settings};
use crate::double::Double;
use crate::number_laws::numbers_read_back;
use crate::text::{
    decimal, has_prefix, has_suffix, is_digit, is_space, trimmed, without_trailing,
};
use crate::trajectory::plan::{urdf_places, PlanRequest};
use crate::trajectory::store::{
    are_stored_names, is_path_for, name_fault, names_stay_in_their_directory, not_after,
    saved_names_are_listed, stems, utf8_len, DEFAULT_TRAJECTORY_DIR,
};
use vstd::prelude::*;

verus! {

/// A port is the number that was written, where that is the number of a port, and the default
/// where nothing was written.
pub proof fn ports_are_read_as_written(n: nat, default: u16)
    ensures
        n <= 65535 ==> port_of(Some(decimal(n)), default) == n,
        n > 65535 ==> port_of(Some(decimal(n)), default) == default,
        port_of(None, default) == default,
{
    numbers_read_back(n, n);
    if n <= 65535 {
        numbers_read_back(n, 0xFFFF);
    }
    let d = decimal(n);
    assert(is_digit(d[0]) && is_digit(d[d.len() - 1]));
    assert(!is_space(d[0]) && !is_space(d.last()));
    assert(trimmed(d) == d);
}

/// Each variable configures what it is named after, and nothing else: the host of both
/// connections, the port of each, the port scripts dial back to, and the robot's own names.
pub proof fn variables_configure_what_they_name(
    env: Environment,
    s: Settings,
    host: Seq<char>,
    dashboard: nat,
    realtime: nat,
    socket: nat,
)
    requires
        configured_by(env, s),
        env.address matches Some(a) && a@ == host,
        env.dashboard_port matches Some(p) && p@ == decimal(dashboard),
        env.realtime_port matches Some(p) && p@ == decimal(realtime),
        env.socket_port matches Some(p) && p@ == decimal(socket),
        dashboard <= 65535,
        realtime <= 65535,
        socket <= 65535,
    ensures
        s.dashboard_address@ == host + ":"@ + decimal(dashboard),
        s.realtime_address@ == host + ":"@ + decimal(realtime),
        s.socket_port == socket,
        env.robot_id matches Some(id) ==> s.robot_id@ == id@ && s.params.name@ == id@,
        env.robot_model matches Some(m) ==> s.params.ur_type@ == m@,
        env.tf_prefix matches Some(p) ==> s.tf_prefix@ == p@ && s.params.tf_prefix@ == p@,
        env.ready_flag matches Some(f) ==> s.ready_flag@ == f@,
        env.robot_id is None ==> s.robot_id@ == "r1"@,
        env.robot_model is None ==> s.params.ur_type@ == "ur20"@,
{
    ports_are_read_as_written(dashboard, 29999);
    ports_are_read_as_written(realtime, 30003);
    ports_are_read_as_written(socket, 50000);
}

/// A flag takes what follows it for its value, unless that is a flag too; what belongs to no flag
/// stands among the others. The order is kept.
pub proof fn flags_take_what_follows(name: Seq<char>, value: Seq<char>, rest: Seq<Seq<char>>)
    requires
        !has_prefix(value, "--"@),
    ensures
        flags_in(seq!["--"@ + name, value] + rest) == seq![(name, Some(value))] + flags_in(rest),
        positional_in(seq!["--"@ + name, value] + rest) == positional_in(rest),
        positional_in(seq![value] + rest) == seq![value] + positional_in(rest),
        flags_in(seq![value] + rest) == flags_in(rest),
        value_of(flags_in(seq!["--"@ + name, value] + rest), name) == Some(value),
{
    let raw = seq!["--"@ + name, value] + rest;
    assert(raw[0].take("--"@.len() as int) =~= "--"@);
    assert(has_prefix(raw[0], "--"@));
    assert(raw[0].skip("--"@.len() as int) =~= name);
    assert(raw.skip(2) =~= rest);
    let other = seq![value] + rest;
    assert(other.skip(1) =~= rest);
    assert(flags_in(raw) =~= seq![(name, Some(value))] + flags_in(rest));
}

/// A flag that is followed by a flag, or by nothing, has no value.
pub proof fn flags_can_stand_alone(name: Seq<char>, rest: Seq<Seq<char>>)
    requires
        rest.len() > 0 ==> has_prefix(rest[0], "--"@),
    ensures
        flags_in(seq!["--"@ + name] + rest) == seq![(name, None::<Seq<char>>)] + flags_in(rest),
        positional_in(seq!["--"@ + name] + rest) == positional_in(rest),
{
    let raw = seq!["--"@ + name] + rest;
    assert(raw[0].take("--"@.len() as int) =~= "--"@);
    assert(raw[0].skip("--"@.len() as int) =~= name);
    assert(raw.skip(1) =~= rest);
    if rest.len() > 0 {
        assert(raw[1] == rest[0]);
    }
}

/// The first argument says what is asked for, by its own name.
pub proof fn subcommands_go_by_their_names(args: Seq<Seq<char>>)
    ensures
        asked_for(args) == Some(Subcommand::Plan) ==> args.len() > 0 && args[0] == "plan"@,
        asked_for(args) == Some(Subcommand::List) ==> args.len() > 0 && args[0] == "list"@,
        asked_for(args) == Some(Subcommand::Show) ==> args.len() > 0 && args[0] == "show"@,
        asked_for(args) == Some(Subcommand::Render) ==> args.len() > 0 && args[0] == "render"@,
        args.len() == 0 ==> asked_for(args) == Some(Subcommand::Help),
        asked_for(args) is None ==> args[0] != "plan"@ && args[0] != "list"@ && args[0] != "show"@
            && args[0] != "render"@ && args[0] != "--help"@,
{
}

/// What the command line says takes the place of what the request says, one by one, and everything
/// else stays.
pub proof fn overrides_replace_what_they_name(
    request: PlanRequest,
    model: Option<String>,
    velocity: Option<Double>,
    acceleration: Option<Double>,
    limits: Option<[Double; 6]>,
)
    ensures
        ({
            let r = overridden(request, model, velocity, acceleration, limits);
            &&& model matches Some(m) ==> r.robot_model == m
            &&& velocity matches Some(v) ==> r.scaling.velocity == v
            &&& acceleration matches Some(a) ==> r.scaling.acceleration == a
            &&& limits is Some ==> r.acceleration_max == limits
            &&& model is None ==> r.robot_model == request.robot_model
            &&& velocity is None ==> r.scaling.velocity == request.scaling.velocity
            &&& acceleration is None ==> r.scaling.acceleration == request.scaling.acceleration
            &&& limits is None ==> r.acceleration_max == request.acceleration_max
            &&& r.start == request.start
            &&& r.waypoints == request.waypoints
            &&& r.max_cartesian_speed == request.max_cartesian_speed
            &&& r.max_path_deviation == request.max_path_deviation
            &&& r.frame_config == request.frame_config
        }),
{
}

/// Whether `c` is a letter, a digit, an underscore or a dash.
pub open spec fn is_wordly(c: char) -> bool {
    'a' <= c <= 'z' || 'A' <= c <= 'Z' || '0' <= c <= '9' || c == '_' || c == '-'
}

proof fn lemma_ascii_width(name: Seq<char>)
    requires
        forall|i: int| 0 <= i < name.len() ==> is_wordly(#[trigger] name[i]),
    ensures
        utf8_len(name) == name.len(),
    decreases name.len(),
{
    if name.len() > 0 {
        let rest = name.drop_last();
        assert forall|i: int| 0 <= i < rest.len() implies is_wordly(#[trigger] rest[i]) by {
            assert(rest[i] == name[i]);
        }
        assert(is_wordly(name[name.len() - 1]));
        lemma_ascii_width(rest);
    }
}

/// A name of letters, digits, underscores and dashes is taken, up to 128 of them; one that is
/// empty, or that has anything in it that could lead elsewhere, is not.
pub proof fn plain_names_are_taken(name: Seq<char>)
    ensures
        0 < name.len() <= 128 && (forall|i: int|
            0 <= i < name.len() ==> is_wordly(#[trigger] name[i])) ==> name_fault(name) is None,
        name.len() > 128 && (forall|i: int| 0 <= i < name.len() ==> is_wordly(#[trigger] name[i]))
            ==> name_fault(name) is Some,
        name.len() == 0 ==> name_fault(name) is Some,
        name.contains('/') || name.contains('\\') || name.contains(' ') ==> name_fault(name)
            is Some,
        name.len() > 0 && name[0] == '.' ==> name_fault(name) is Some,
{
    reveal_strlit("..");
    reveal_strlit(".");
    if forall|i: int| 0 <= i < name.len() ==> is_wordly(#[trigger] name[i]) {
        lemma_ascii_width(name);
    }
    if 0 < name.len() <= 128 && (forall|i: int|
        0 <= i < name.len() ==> is_wordly(#[trigger] name[i])) {
        lemma_ascii_width(name);
        assert(!crate::text::contains_text(name, ".."@)) by {
            if crate::text::contains_text(name, ".."@) {
                let i = choose|i: int| #[trigger] crate::text::occurs_at(name, ".."@, i);
                assert(name.subrange(i, i + 2)[0] == '.');
                assert(is_wordly(name[i]));
            }
        }
        assert(!has_prefix(name, "."@)) by {
            if has_prefix(name, "."@) {
                assert(name.take(1)[0] == '.');
                assert(is_wordly(name[0]));
            }
        }
    }
    if name.len() > 0 && name[0] == '.' {
        assert(name.take(1) =~= "."@);
    }
}

/// What is listed is there: every name that is listed is that of a file.
pub proof fn listed_names_have_a_file(files: Seq<Seq<char>>, k: int)
    requires
        0 <= k < stems(files).len(),
    ensures
        files.contains(stems(files)[k] + ".json"@),
    decreases files.len(),
{
    let rest = files.drop_last();
    let before = stems(rest);
    if k < before.len() {
        listed_names_have_a_file(rest, k);
        let i = choose|i: int| 0 <= i < rest.len() && rest[i] == before[k] + ".json"@;
        assert(files[i] == rest[i]);
    } else {
        let file = files.last();
        assert(has_suffix(file, ".json"@));
        assert(file =~= file.take(file.len() - ".json"@.len()) + file.skip(
            file.len() - ".json"@.len(),
        ));
        assert(files[files.len() - 1] == file);
    }
}

/// The planner reads the description that the driver runs with: where one is configured, the same
/// file is among the places where the planner looks, and where none is, it is the first of them.
pub proof fn planner_and_driver_read_one_description(env: Environment, s: Settings, dir: Seq<char>)
    requires
        configured_by(env, s),
        env.description_dir is None || (env.description_dir matches Some(d) && d@ == dir
            && dir.len() > 0 && dir.last() != '/'),
    ensures
        env.description_dir is None ==> urdf_places(s.params.ur_type@, None)[0]
            == s.params.description_file@,
        env.description_dir is Some ==> urdf_places(s.params.ur_type@, Some(dir)).contains(
            s.params.description_file@,
        ),
        urdf_places(s.params.ur_type@, None).len() == 1,
        has_suffix(s.params.description_file@, s.params.ur_type@ + ".urdf"@),
{
    let model = s.params.ur_type@;
    reveal_strlit("/");
    reveal_strlit("urdf/");
    reveal_strlit("/urdf/");
    reveal_strlit(".urdf");
    reveal_strlit("src/ur_description/");
    reveal_strlit("src/ur_description/urdf/");
    let part = "urdf/"@ + model + ".urdf"@;
    assert(part[0] == 'u');
    assert(part.take(1)[0] != "/"@[0]);
    let tail = model + ".urdf"@;
    if env.description_dir is None {
        let base = "src/ur_description/"@;
        assert(base.skip(base.len() - 1) =~= "/"@);
        assert(base + part =~= "src/ur_description/urdf/"@ + model + ".urdf"@);
        let file = base + part;
        assert(file.skip(file.len() - tail.len()) =~= tail);
    } else {
        assert(dir.skip(dir.len() - 1)[0] == dir.last());
        assert(!has_suffix(dir, "/"@));
        assert(without_trailing(dir, '/') == dir);
        let file = dir + "/"@ + part;
        assert(file =~= dir + "/urdf/"@ + model + ".urdf"@);
        assert(urdf_places(model, Some(dir))[1] == file);
        assert(file.skip(file.len() - tail.len()) =~= tail);
    }
}

/// Without a word on them, scripts dial back to port 50000, the flag of readiness is where it always
/// is, and so are the trajectories.
pub proof fn silence_keeps_the_defaults(env: Environment, s: Settings)
    requires
        configured_by(env, s),
    ensures
        env.socket_port is None ==> s.socket_port == 50000,
        env.ready_flag is None ==> s.ready_flag@ == "/tmp/robot_controller_ready.flag"@,
        s.log_target@ == s.robot_id@ + "_ur_redis_driver"@,
        DEFAULT_TRAJECTORY_DIR@ == "trajectories"@,
{
}

/// Stored trajectories are listed in the order of their letters: the first letter in which two
/// names differ decides, and a name comes before what it begins.
pub proof fn names_are_listed_by_their_letters(
    head: Seq<char>,
    x: char,
    a: Seq<char>,
    y: char,
    b: Seq<char>,
)
    requires
        x < y,
    ensures
        not_after(head + seq![x] + a, head + seq![y] + b),
        !not_after(head + seq![y] + b, head + seq![x] + a),
        not_after(head, head + a),
    decreases head.len(),
{
    let p = head + seq![x] + a;
    let q = head + seq![y] + b;
    if head.len() > 0 {
        let rest = head.drop_first();
        names_are_listed_by_their_letters(rest, x, a, y, b);
        assert(p.drop_first() =~= rest + seq![x] + a);
        assert(q.drop_first() =~= rest + seq![y] + b);
        assert((head + a).drop_first() =~= rest + a);
        assert(p[0] == head[0] && q[0] == head[0] && (head + a)[0] == head[0]);
    } else {
        assert(p[0] == x && q[0] == y);
    }
}

/// A trajectory is stored under its own name, in the directory it belongs to; and what is listed is
/// exactly what is stored.
pub proof fn trajectories_are_stored_under_their_names(
    dir: Seq<char>,
    name: Seq<char>,
    path: Result<String, String>,
    files: Seq<Seq<char>>,
    listed: Seq<Seq<char>>,
)
    requires
        is_path_for(dir, name, path),
        are_stored_names(files, listed),
    ensures
        path is Ok <==> name_fault(name) is None,
        path matches Ok(p) ==> has_suffix(p@, name + ".json"@) && (dir.len() > 0 ==> has_prefix(
            p@,
            dir,
        )),
        name_fault(name) is None ==> (listed.contains(name) <==> files.contains(name + ".json"@)),
{
    if let Ok(p) = path {
        names_stay_in_their_directory(dir, name);
        let file = name + ".json"@;
        assert(p@.skip(p@.len() - file.len()) =~= file);
        if dir.len() > 0 {
            assert(p@.take(dir.len() as int) =~= dir);
        }
    }
    if name_fault(name) is None {
        let all = stems(files);
        all.to_multiset_ensures();
        listed.to_multiset_ensures();
        assert(listed.contains(name) <==> listed.to_multiset().count(name) > 0);
        assert(all.contains(name) <==> all.to_multiset().count(name) > 0);
        if files.contains(name + ".json"@) {
            saved_names_are_listed(files, name);
        }
        if all.contains(name) {
            let k = choose|k: int| 0 <= k < all.len() && all[k] == name;
            listed_names_have_a_file(files, k);
        }
    }
}

/// Six numbers are read in the order in which they are listed.
pub proof fn six_numbers_are_read_in_order(
    list: Seq<char>,
    flag: Seq<char>,
    read: Seq<Result<Double, String>>,
    r: Result<[Double; 6], String>,
    i: int,
)
    requires
        read.len() == list_parts(list).len(),
        are_six(list, flag, read, r),
    ensures
        r matches Ok(values) ==> read.len() == 6 && (0 <= i < 6 ==> read[i] == Ok::<
            Double,
            String,
        >(values@[i])),
        read.len() != 6 ==> r is Err,
        0 <= i < read.len() && read[i] is Err ==> r is Err,
{
    if let Ok(values) = r {
        assert forall|k: int| 0 <= k < 6 implies read[k] is Ok by {
            assert(read[k] == Ok::<Double, String>(values@[k]));
        }
        if 0 <= i < 6 {
            assert(read[i] == Ok::<Double, String>(values@[i]));
        }
    }
}

} // verus!
