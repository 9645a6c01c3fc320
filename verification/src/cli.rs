//! The command line of the offline planner: what its arguments mean.

use crate::double::Double;
use crate::text::{
    decimal, has_prefix, join2, join3, number, pieces, same, split_on, starts_with, strip_prefix,
    trim, trimmed, views,
};
use crate::trajectory::limits::PlanScaling;
use crate::trajectory::plan::PlanRequest;
use vstd::prelude::*;

verus! {

/// What the planner is asked to do.
#[derive(Clone, Copy, PartialEq, Eq, Debug, Structural)]
pub enum Subcommand {
    /// Say how it is used.
    Help,
    /// Plan a path and store it.
    Plan,
    /// List what is stored.
    List,
    /// Report on a stored trajectory.
    Show,
    /// Render the script of a stored trajectory.
    Render,
}

/// What the arguments ask for; `None` for a subcommand that there is not.
pub open spec fn asked_for(args: Seq<Seq<char>>) -> Option<Subcommand> {
    if args.len() == 0 || args[0] == "-h"@ || args[0] == "--help"@ {
        Some(Subcommand::Help)
    } else if args[0] == "plan"@ {
        Some(Subcommand::Plan)
    } else if args[0] == "list"@ {
        Some(Subcommand::List)
    } else if args[0] == "show"@ {
        Some(Subcommand::Show)
    } else if args[0] == "render"@ {
        Some(Subcommand::Render)
    } else {
        None
    }
}

/// Which subcommand the arguments ask for.
pub fn subcommand(args: &Vec<String>) -> (r: Result<Subcommand, String>)
    ensures
        match r {
            Ok(s) => asked_for(views(args@)) == Some(s),
            Err(e) => asked_for(views(args@)) is None && e@ == "unknown subcommand '"@ + args@[0]@
                + "'; try --help"@,
        },
{
    assert(views(args@).len() == args@.len());
    if args.len() == 0 {
        return Ok(Subcommand::Help);
    }
    assert(views(args@)[0] == args@[0]@);
    let first = args[0].as_str();
    if same(first, "-h") || same(first, "--help") {
        Ok(Subcommand::Help)
    } else if same(first, "plan") {
        Ok(Subcommand::Plan)
    } else if same(first, "list") {
        Ok(Subcommand::List)
    } else if same(first, "show") {
        Ok(Subcommand::Show)
    } else if same(first, "render") {
        Ok(Subcommand::Render)
    } else {
        Err(join3("unknown subcommand '", first, "'; try --help"))
    }
}

/// The arguments of a subcommand: `--flag value`, `--flag` and everything else.
#[derive(Debug)]
pub struct Args {
    pub flags: Vec<(String, Option<String>)>,
    pub positional: Vec<String>,
}

/// The value that a flag may have.
pub open spec fn value_view(v: Option<String>) -> Option<Seq<char>> {
    match v {
        Some(s) => Some(s@),
        None => None,
    }
}

/// What a list of flags says.
pub open spec fn flag_views(flags: Seq<(String, Option<String>)>) -> Seq<
    (Seq<char>, Option<Seq<char>>),
> {
    flags.map_values(|f: (String, Option<String>)| (f.0@, value_view(f.1)))
}

/// Whether the first argument is a flag and the one behind it its value.
pub open spec fn takes_value(raw: Seq<Seq<char>>) -> bool {
    raw.len() > 1 && !has_prefix(raw[1], "--"@)
}

/// The flags among the arguments, each with its value: the argument behind it, where that is no
/// flag itself.
pub open spec fn flags_in(raw: Seq<Seq<char>>) -> Seq<(Seq<char>, Option<Seq<char>>)>
    decreases raw.len(),
{
    if raw.len() == 0 {
        Seq::empty()
    } else if has_prefix(raw[0], "--"@) {
        let name = raw[0].skip("--"@.len() as int);
        if takes_value(raw) {
            seq![(name, Some(raw[1]))] + flags_in(raw.skip(2))
        } else {
            seq![(name, None)] + flags_in(raw.skip(1))
        }
    } else {
        flags_in(raw.skip(1))
    }
}

/// The arguments that are neither a flag nor the value of one.
pub open spec fn positional_in(raw: Seq<Seq<char>>) -> Seq<Seq<char>>
    decreases raw.len(),
{
    if raw.len() == 0 {
        Seq::empty()
    } else if has_prefix(raw[0], "--"@) {
        if takes_value(raw) {
            positional_in(raw.skip(2))
        } else {
            positional_in(raw.skip(1))
        }
    } else {
        seq![raw[0]] + positional_in(raw.skip(1))
    }
}

/// The value of the first flag of that name.
pub open spec fn value_of(flags: Seq<(Seq<char>, Option<Seq<char>>)>, name: Seq<char>) -> Option<
    Seq<char>,
>
    decreases flags.len(),
{
    if flags.len() == 0 {
        None
    } else if flags[0].0 == name {
        flags[0].1
    } else {
        value_of(flags.drop_first(), name)
    }
}

/// Whether there is a flag of that name.
pub open spec fn has_flag(flags: Seq<(Seq<char>, Option<Seq<char>>)>, name: Seq<char>) -> bool {
    exists|i: int| 0 <= i < flags.len() && (#[trigger] flags[i]).0 == name
}

impl Args {
    /// Tell flags, their values and the other arguments apart.
    pub fn parse(raw: &Vec<String>) -> (r: Args)
        ensures
            flag_views(r.flags@) == flags_in(views(raw@)),
            views(r.positional@) == positional_in(views(raw@)),
    {
        let ghost all = views(raw@);
        let mut flags: Vec<(String, Option<String>)> = Vec::new();
        let mut positional: Vec<String> = Vec::new();
        let mut i: usize = 0;
        assert(all.skip(0) =~= all);
        assert(flag_views(flags@) + flags_in(all) =~= flags_in(all));
        assert(views(positional@) + positional_in(all) =~= positional_in(all));
        while i < raw.len()
            invariant
                i <= raw.len(),
                all == views(raw@),
                flag_views(flags@) + flags_in(all.skip(i as int)) == flags_in(all),
                views(positional@) + positional_in(all.skip(i as int)) == positional_in(all),
            decreases raw.len() - i,
        {
            let ghost rest = all.skip(i as int);
            let ghost flags_before = flag_views(flags@);
            let ghost positional_before = views(positional@);
            assert(rest[0] == raw@[i as int]@);
            assert(rest.skip(1) =~= all.skip(i + 1));
            if let Some(name) = strip_prefix(raw[i].as_str(), "--") {
                let mut value: Option<String> = None;
                if i + 1 < raw.len() {
                    assert(rest[1] == raw@[i + 1]@);
                    assert(rest.skip(2) =~= all.skip(i + 2));
                    if !starts_with(raw[i + 1].as_str(), "--") {
                        value = Some(raw[i + 1].clone());
                        i = i + 1;
                    }
                }
                let ghost f = (name@, value_view(value));
                flags.push((name, value));
                assert(flag_views(flags@) =~= flags_before.push(f));
                assert(flags_before + (seq![f] + flags_in(all.skip(i + 1))) =~= flags_before.push(f)
                    + flags_in(all.skip(i + 1)));
            } else {
                positional.push(raw[i].clone());
                assert(views(positional@) =~= positional_before.push(rest[0]));
                assert(positional_before + (seq![rest[0]] + positional_in(all.skip(i + 1)))
                    =~= positional_before.push(rest[0]) + positional_in(all.skip(i + 1)));
            }
            i = i + 1;
        }
        assert(flag_views(flags@) + flags_in(all.skip(i as int)) =~= flag_views(flags@));
        assert(views(positional@) + positional_in(all.skip(i as int)) =~= views(positional@));
        Args { flags, positional }
    }

    fn find(&self, name: &str) -> (r: Option<usize>)
        ensures
            match r {
                Some(i) => {
                    &&& i < self.flags@.len()
                    &&& self.flags@[i as int].0@ == name@
                    &&& value_of(flag_views(self.flags@), name@) == value_view(
                        self.flags@[i as int].1,
                    )
                    &&& has_flag(flag_views(self.flags@), name@)
                },
                None => value_of(flag_views(self.flags@), name@) is None && !has_flag(
                    flag_views(self.flags@),
                    name@,
                ),
            },
    {
        let ghost all = flag_views(self.flags@);
        let mut i: usize = 0;
        assert(all.skip(0) =~= all);
        while i < self.flags.len()
            invariant
                i <= self.flags.len(),
                all == flag_views(self.flags@),
                value_of(all.skip(i as int), name@) == value_of(all, name@),
                forall|j: int| 0 <= j < i ==> (#[trigger] all[j]).0 != name@,
            decreases self.flags.len() - i,
        {
            assert(all[i as int] == (self.flags@[i as int].0@, value_view(self.flags@[i as int].1)));
            assert(all.skip(i as int)[0] == all[i as int]);
            assert(all.skip(i as int).drop_first() =~= all.skip(i + 1));
            if same(self.flags[i].0.as_str(), name) {
                return Some(i);
            }
            i = i + 1;
        }
        None
    }

    /// The value of a flag.
    pub fn get(&self, name: &str) -> (r: Option<String>)
        ensures
            value_view(r) == value_of(flag_views(self.flags@), name@),
    {
        match self.find(name) {
            Some(i) => match &self.flags[i].1 {
                Some(v) => Some(v.clone()),
                None => None,
            },
            None => None,
        }
    }

    /// Whether a flag is given.
    pub fn has(&self, name: &str) -> (r: bool)
        ensures
            r == has_flag(flag_views(self.flags@), name@),
    {
        self.find(name).is_some()
    }

    /// The value of a flag that has to be given.
    pub fn require(&self, name: &str) -> (r: Result<String, String>)
        ensures
            match r {
                Ok(v) => value_of(flag_views(self.flags@), name@) == Some(v@),
                Err(e) => value_of(flag_views(self.flags@), name@) is None && e@ == "--"@ + name@
                    + " is required"@,
            },
    {
        match self.get(name) {
            Some(v) => Ok(v),
            None => Err(join3("--", name, " is required")),
        }
    }

    /// The trajectory that a subcommand is about: the first argument that is no flag.
    pub fn trajectory_name(&self, subcommand: &str) -> (r: Result<String, String>)
        ensures
            match r {
                Ok(name) => self.positional@.len() > 0 && name@ == self.positional@[0]@,
                Err(e) => self.positional@.len() == 0 && e@ == subcommand@
                    + " needs a trajectory name"@,
            },
    {
        if self.positional.len() > 0 {
            Ok(self.positional[0].clone())
        } else {
            Err(join2(subcommand, " needs a trajectory name"))
        }
    }

    /// The number that a flag gives. `read` is what reading its value as a number gave.
    pub fn float(&self, name: &str, read: &Result<Double, String>) -> (r: Result<
        Option<Double>,
        String,
    >)
        ensures
            match value_of(flag_views(self.flags@), name@) {
                None => r == Ok::<Option<Double>, String>(None),
                Some(v) => match read {
                    Ok(d) => r == Ok::<Option<Double>, String>(Some(*d)),
                    Err(e) => r matches Err(fault) && fault@ == "--"@ + name@ + ": '"@ + v
                        + "' is not a number: "@ + e@,
                },
            },
    {
        match self.get(name) {
            None => Ok(None),
            Some(v) => match read {
                Ok(d) => Ok(Some(*d)),
                Err(e) => {
                    let mut fault = join3("--", name, ": '");
                    fault.append(v.as_str());
                    fault.append("' is not a number: ");
                    fault.append(e.as_str());
                    Err(fault)
                },
            },
        }
    }
}

/// The values of a comma-separated list, as they are spelled.
pub open spec fn list_parts(list: Seq<char>) -> Seq<Seq<char>> {
    pieces(list, ',').map_values(|part: Seq<char>| trimmed(part))
}

/// Take a comma-separated list apart.
pub fn split_list(list: &str) -> (r: Vec<String>)
    ensures
        views(r@) == list_parts(list@),
{
    let raw = split_on(list, ',');
    let ghost all = list_parts(list@);
    let mut r: Vec<String> = Vec::new();
    let mut i: usize = 0;
    while i < raw.len()
        invariant
            i <= raw.len(),
            views(raw@) == pieces(list@, ','),
            all == list_parts(list@),
            views(r@) == all.take(i as int),
        decreases raw.len() - i,
    {
        assert(views(raw@)[i as int] == raw@[i as int]@);
        assert(all.len() == raw.len());
        let ghost before = views(r@);
        r.push(trim(raw[i].as_str()));
        assert(views(r@) =~= before.push(all[i as int]));
        i = i + 1;
        assert(all.take(i as int) =~= all.take(i - 1).push(all[i - 1]));
    }
    assert(raw.len() == views(raw@).len());
    assert(all.take(i as int) =~= all);
    r
}

/// The fault of the first value from `i` on that is no number.
pub open spec fn first_bad_value(
    parts: Seq<Seq<char>>,
    flag: Seq<char>,
    read: Seq<Result<Double, String>>,
    i: int,
) -> Option<Seq<char>>
    decreases parts.len() - i,
{
    if i < 0 || i >= parts.len() {
        None
    } else {
        match read[i] {
            Ok(_) => first_bad_value(parts, flag, read, i + 1),
            Err(e) => Some(
                flag + " value "@ + decimal(i as nat) + " ('"@ + parts[i] + "') is not a number: "@
                    + e@,
            ),
        }
    }
}

/// What is wrong with a list that should hold six numbers.
pub open spec fn six_numbers_fault(
    list: Seq<char>,
    flag: Seq<char>,
    read: Seq<Result<Double, String>>,
) -> Option<Seq<char>> {
    let parts = list_parts(list);
    if parts.len() != 6 {
        Some(flag + " needs six comma-separated values, got "@ + decimal(parts.len()))
    } else {
        first_bad_value(parts, flag, read, 0)
    }
}

/// Whether those are the six numbers of a list, as they were read, or what is wrong with it.
pub open spec fn are_six(
    list: Seq<char>,
    flag: Seq<char>,
    read: Seq<Result<Double, String>>,
    r: Result<[Double; 6], String>,
) -> bool {
    match r {
        Ok(values) => six_numbers_fault(list, flag, read) is None && forall|i: int|
            0 <= i < 6 ==> read[i] == Ok::<Double, String>(#[trigger] values@[i]),
        Err(e) => six_numbers_fault(list, flag, read) == Some(e@),
    }
}

/// Parse six comma-separated numbers. `read` holds what reading each value as a number gave.
pub fn parse_six(list: &str, flag: &str, read: &Vec<Result<Double, String>>) -> (r: Result<
    [Double; 6],
    String,
>)
    requires
        read@.len() == list_parts(list@).len(),
    ensures
        are_six(list@, flag@, read@, r),
{
    let parts = split_list(list);
    assert(views(parts@).len() == parts.len());
    if parts.len() != 6 {
        return Err(
            join3(
                flag,
                " needs six comma-separated values, got ",
                number(parts.len() as u64).as_str(),
            ),
        );
    }
    let zero = Double { bits: 0 };
    let mut values: [Double; 6] = [zero, zero, zero, zero, zero, zero];
    let mut i: usize = 0;
    while i < 6
        invariant
            i <= 6,
            parts.len() == 6,
            read.len() == 6,
            views(parts@) == list_parts(list@),
            first_bad_value(list_parts(list@), flag@, read@, 0) == first_bad_value(
                list_parts(list@),
                flag@,
                read@,
                i as int,
            ),
            forall|j: int| 0 <= j < i ==> read@[j] == Ok::<Double, String>(#[trigger] values@[j]),
        decreases 6 - i,
    {
        assert(list_parts(list@)[i as int] == parts@[i as int]@);
        match &read[i] {
            Ok(v) => {
                values[i] = *v;
            },
            Err(e) => {
                let mut fault = join3(flag, " value ", number(i as u64).as_str());
                fault.append(" ('");
                fault.append(parts[i].as_str());
                fault.append("') is not a number: ");
                fault.append(e.as_str());
                return Err(fault);
            },
        }
        i = i + 1;
    }
    Ok(values)
}

/// A planning problem with what the command line says put in its place.
pub open spec fn overridden(
    request: PlanRequest,
    model: Option<String>,
    velocity: Option<Double>,
    acceleration: Option<Double>,
    acceleration_limits: Option<[Double; 6]>,
) -> PlanRequest {
    PlanRequest {
        robot_model: match model {
            Some(m) => m,
            None => request.robot_model,
        },
        scaling: PlanScaling {
            velocity: match velocity {
                Some(v) => v,
                None => request.scaling.velocity,
            },
            acceleration: match acceleration {
                Some(a) => a,
                None => request.scaling.acceleration,
            },
        },
        acceleration_max: match acceleration_limits {
            Some(l) => Some(l),
            None => request.acceleration_max,
        },
        ..request
    }
}

/// Let the command line override what a plan request says. What it does not mention stays.
pub fn override_request(
    request: PlanRequest,
    model: Option<String>,
    velocity: Option<Double>,
    acceleration: Option<Double>,
    acceleration_limits: Option<[Double; 6]>,
) -> (r: PlanRequest)
    ensures
        r == overridden(request, model, velocity, acceleration, acceleration_limits),
{
    let mut r = request;
    if let Some(m) = model {
        r.robot_model = m;
    }
    if let Some(v) = velocity {
        r.scaling = PlanScaling { velocity: v, acceleration: r.scaling.acceleration };
    }
    if let Some(a) = acceleration {
        r.scaling = PlanScaling { velocity: r.scaling.velocity, acceleration: a };
    }
    if let Some(l) = acceleration_limits {
        r.acceleration_max = Some(l);
    }
    r
}

/// Every argument is a flag, the value of one, or stands among the others: none is lost.
pub proof fn arguments_are_accounted_for(raw: Seq<Seq<char>>)
    ensures
        raw.len() == flags_in(raw).len() + values_in(flags_in(raw)) + positional_in(raw).len(),
    decreases raw.len(),
{
    if raw.len() > 0 {
        if has_prefix(raw[0], "--"@) {
            let name = raw[0].skip("--"@.len() as int);
            if takes_value(raw) {
                arguments_are_accounted_for(raw.skip(2));
                lemma_values_in((name, Some(raw[1])), flags_in(raw.skip(2)));
            } else {
                arguments_are_accounted_for(raw.skip(1));
                lemma_values_in((name, None), flags_in(raw.skip(1)));
            }
        } else {
            arguments_are_accounted_for(raw.skip(1));
        }
    }
}

/// How many of the flags have a value.
pub open spec fn values_in(flags: Seq<(Seq<char>, Option<Seq<char>>)>) -> nat
    decreases flags.len(),
{
    if flags.len() == 0 {
        0
    } else {
        (if flags[0].1 is Some {
            1nat
        } else {
            0nat
        }) + values_in(flags.drop_first())
    }
}

proof fn lemma_values_in(
    first: (Seq<char>, Option<Seq<char>>),
    rest: Seq<(Seq<char>, Option<Seq<char>>)>,
)
    ensures
        values_in(seq![first] + rest) == (if first.1 is Some {
            1nat
        } else {
            0nat
        }) + values_in(rest),
{
    assert((seq![first] + rest).drop_first() =~= rest);
}

} // verus!
