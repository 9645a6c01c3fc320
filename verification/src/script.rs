//! From a motion command to the program that is written to the robot.
//!
//! The body of the program comes out of a Tera template that the command names. Around it
//! goes a handshake: the program dials back to the driver, echoes the goal id it is sent, runs
//! the body and reports how that went.

use crate::structs::RobotCommand;
use crate::text::{
    contains_text, decimal, first_pos, join, join2, joined, lemma_first_pos, lines, number,
    occurs_at, split_lines, strip_cr, views,
};
use vstd::prelude::*;

verus! {

/// A set of parsed templates, by name.
#[verifier::external_type_specification]
#[verifier::external_body]
pub struct ExTera(tera::Tera);

/// The values a template is rendered with.
#[verifier::external_type_specification]
#[verifier::external_body]
pub struct ExContext(tera::Context);

/// Why a template could not be rendered.
#[verifier::external_type_specification]
#[verifier::external_body]
pub struct ExTeraError(tera::Error);

/// The names of the templates in a set.
pub uninterp spec fn template_names(templates: tera::Tera) -> Set<Seq<char>>;

/// Whether rendering the template `name` with the values in `context` can come out as `outcome`:
/// a text, or the error that rendering ran into.
pub uninterp spec fn renders_to(
    templates: tera::Tera,
    name: Seq<char>,
    context: tera::Context,
    outcome: Result<Seq<char>, tera::Error>,
) -> bool;

/// Whether rendering the template `name` with the values in `context` comes to an end, with a
/// text or an error, whatever the time and the random numbers it asks for.
///
/// Among those that do not are templates that ask for a random number out of an empty range or
/// for a range with a step of nothing, and templates in which a sum or a difference is too large
/// for a number.
pub uninterp spec fn rendering_returns(
    templates: tera::Tera,
    name: Seq<char>,
    context: tera::Context,
) -> bool;

/// What a rendering came out as.
pub open spec fn outcome_of(rendered: Result<String, tera::Error>) -> Result<
    Seq<char>,
    tera::Error,
> {
    match rendered {
        Ok(text) => Ok(text@),
        Err(error) => Err(error),
    }
}

/// The message of a rendering that has no template of that name to render.
pub open spec fn no_template_message(name: Seq<char>) -> Seq<char> {
    "Template '"@ + name + "' not found"@
}

/// The message of a rendering error.
pub uninterp spec fn error_message(error: tera::Error) -> Seq<char>;

/// `Tera::get_template_names` hands out the name of every template in the set, in no
/// particular order.
#[verifier::external_body]
fn names_in(templates: &tera::Tera) -> (r: Vec<String>)
    ensures
        forall|name: Seq<char>|
            template_names(*templates).contains(name) <==> #[trigger] views(r@).contains(name),
{
    templates.get_template_names().map(|name| name.to_string()).collect()
}

/// `Tera::render` renders the template of that name with the values in the context. Where there
/// is no such template it fails, and the error says so by the name.
///
/// Which text comes out, and whether a template that is there can be rendered, is not pinned
/// down: a template may ask for the time or for a random number. A template that can stop the
/// rendering short of an outcome is left out.
#[verifier::external_body]
fn render(templates: &tera::Tera, name: &str, context: &tera::Context) -> (r: Result<
    String,
    tera::Error,
>)
    requires
        template_names(*templates).contains(name@) ==> rendering_returns(
            *templates,
            name@,
            *context,
        ),
    ensures
        (template_names(*templates).contains(name@) ==> rendering_returns(
            *templates,
            name@,
            *context,
        )) ==> renders_to(*templates, name@, *context, outcome_of(r)),
        !template_names(*templates).contains(name@) ==> r is Err && error_message(r->Err_0)
            == no_template_message(name@),
{
    templates.render(name, context)
}

/// The message of a rendering error, as its `Display` spells it.
#[verifier::external_body]
pub(crate) fn message_of(error: &tera::Error) -> (r: String)
    ensures
        r@ == error_message(*error),
{
    error.to_string()
}

/// The file name of the template that a command type selects.
pub open spec fn template_file(command_type: Seq<char>) -> Seq<char> {
    command_type + ".script"@
}

/// Whether there is a template for a command type.
///
/// The command type becomes a file name, so one that names no template has to be turned away
/// before it gets that far.
pub fn has_template(templates: &tera::Tera, command_type: &str) -> (r: bool)
    ensures
        r == template_names(*templates).contains(template_file(command_type@)),
{
    let file = join2(command_type, ".script");
    let names = names_in(templates);
    let mut i: usize = 0;
    while i < names.len()
        invariant
            i <= names.len(),
            file@ == template_file(command_type@),
            forall|name: Seq<char>|
                template_names(*templates).contains(name) <==> #[trigger] views(names@).contains(
                    name,
                ),
            forall|j: int| 0 <= j < i ==> (#[trigger] names@[j])@ != file@,
        decreases names.len() - i,
    {
        if names[i] == file {
            assert(views(names@)[i as int] == file@);
            assert(views(names@).contains(file@));
            return true;
        }
        i = i + 1;
    }
    assert(!views(names@).contains(file@)) by {
        if views(names@).contains(file@) {
            let j = choose|j: int| 0 <= j < views(names@).len() && views(names@)[j] == file@;
            assert(names@[j]@ == file@);
        }
    }
    false
}

/// Render the body of a command from the template that its type selects.
///
/// `context` holds the fields of the command, by their names. What rendering came out as is
/// handed on, be it the text or the error. A command type that selects no template fails under
/// the name of the file it asked for. The template has to be one whose rendering comes to an end:
/// whoever writes the templates answers for that.
pub fn generate_core_script_from_template(
    robot_command: &RobotCommand,
    context: &tera::Context,
    templates: &tera::Tera,
) -> (r: Result<String, tera::Error>)
    requires
        template_names(*templates).contains(template_file(robot_command.command_type@))
            ==> rendering_returns(
            *templates,
            template_file(robot_command.command_type@),
            *context,
        ),
    ensures
        renders_to(
            *templates,
            template_file(robot_command.command_type@),
            *context,
            outcome_of(r),
        ),
        !template_names(*templates).contains(template_file(robot_command.command_type@)) ==> r
            is Err && error_message(r->Err_0) == no_template_message(
            template_file(robot_command.command_type@),
        ),
{
    render(templates, join2(robot_command.command_type.as_str(), ".script").as_str(), context)
}

/// The head of the program.
pub const PROGRAM_HEAD: &'static str = r#"
def run_script():
"#;

/// What stands between the body and the line that dials back.
pub const HANDSHAKE_HEAD: &'static str = r#"

  def handshake():
"#;

/// The rest of the handshake.
pub const HANDSHAKE_TAIL: &'static str = r#"
    line_from_server = socket_read_line("ur_driver_socket", timeout=1.0)
    if(str_empty(line_from_server)):
      return False
    else:
      socket_send_line(line_from_server, "ur_driver_socket")
      return True
    end
  end

"#;

/// The one place where the body is run: behind a handshake that succeeded.
pub const RUN_BODY: &'static str = r#"  if(handshake()):
    result = script()
"#;

/// How the body's result is reported.
pub const REPORT: &'static str = r#"    if(result):
      socket_send_line("ok", "ur_driver_socket")
    else:
      socket_send_line("error", "ur_driver_socket")
    end
  else:
"#;

/// The end of the program.
pub const PROGRAM_TAIL: &'static str = r#"
  end

  socket_close("ur_driver_socket")
end

run_script()
"#;

/// `body` with every line indented by two spaces.
pub open spec fn indented(body: Seq<char>) -> Seq<char> {
    joined(lines(body).map_values(|l: Seq<char>| "  "@ + l), "\n"@)
}

/// The line by which the program dials back to the driver.
pub open spec fn dial_back(host: Seq<char>, port: u16) -> Seq<char> {
    "    socket_open(\""@ + host + "\", "@ + decimal(port as nat) + ", \"ur_driver_socket\")"@
}

/// The line by which the program says that it could not reach the driver.
pub open spec fn failure_popup(host: Seq<char>) -> Seq<char> {
    "    popup(\"handshake failure with host "@ + host + ", not moving.\")"@
}

/// What follows the body. Nothing in it depends on the body.
pub open spec fn ending(host: Seq<char>, port: u16) -> Seq<char> {
    HANDSHAKE_HEAD@ + dial_back(host, port) + HANDSHAKE_TAIL@ + RUN_BODY@ + REPORT@
        + failure_popup(host) + PROGRAM_TAIL@
}

/// The program around a rendered body.
pub open spec fn program(body: Seq<char>, host: Seq<char>, port: u16) -> Seq<char> {
    PROGRAM_HEAD@ + indented(body) + ending(host, port)
}

/// Wrap a rendered body into the program that is written to the robot.
///
/// `port` has to be the one the driver's own socket server listens on: if the two ever
/// disagreed, the robot would dial a different driver than the one that sent it the program.
pub fn generate_ur_script(body: &str, host_address: &str, port: u16) -> (r: String)
    ensures
        r@ == program(body@, host_address@, port),
{
    let plain = split_lines(body);
    let mut shifted: Vec<String> = Vec::new();
    let mut i: usize = 0;
    while i < plain.len()
        invariant
            i <= plain.len(),
            shifted.len() == i,
            forall|j: int| 0 <= j < i ==> (#[trigger] shifted@[j])@ == "  "@ + plain@[j]@,
        decreases plain.len() - i,
    {
        shifted.push(join2("  ", plain[i].as_str()));
        i = i + 1;
    }
    proof {
        assert forall|j: int| 0 <= j < plain@.len() implies plain@[j]@ == #[trigger] lines(
            body@,
        )[j] by {
            assert(views(plain@)[j] == plain@[j]@);
        }
        assert(lines(body@).len() == views(plain@).len());
        assert(views(shifted@) =~= lines(body@).map_values(|l: Seq<char>| "  "@ + l));
    }
    let mut dial = join2("    socket_open(\"", host_address);
    dial.append("\", ");
    dial.append(number(port as u64).as_str());
    dial.append(", \"ur_driver_socket\")");
    let mut popup = join2("    popup(\"handshake failure with host ", host_address);
    popup.append(", not moving.\")");
    let mut r = PROGRAM_HEAD.to_owned();
    r.append(join(&shifted, "\n").as_str());
    r.append(HANDSHAKE_HEAD);
    r.append(dial.as_str());
    r.append(HANDSHAKE_TAIL);
    r.append(RUN_BODY);
    r.append(REPORT);
    r.append(popup.as_str());
    r.append(PROGRAM_TAIL);
    assert(r@ =~= program(body@, host_address@, port));
    r
}

/// The program dials back to the host and the port it was generated for.
pub proof fn program_dials_back(body: Seq<char>, host: Seq<char>, port: u16)
    ensures
        contains_text(program(body, host, port), dial_back(host, port)),
{
    let before = PROGRAM_HEAD@ + indented(body) + HANDSHAKE_HEAD@;
    let p = program(body, host, port);
    let n = before.len() as int;
    assert(p.subrange(n, n + dial_back(host, port).len()) =~= dial_back(host, port));
    assert(occurs_at(p, dial_back(host, port), n));
}

/// The program runs the body behind a handshake that succeeded.
pub proof fn program_runs_behind_the_handshake(body: Seq<char>, host: Seq<char>, port: u16)
    ensures
        contains_text(program(body, host, port), RUN_BODY@),
{
    let before = PROGRAM_HEAD@ + indented(body) + HANDSHAKE_HEAD@ + dial_back(host, port)
        + HANDSHAKE_TAIL@;
    let p = program(body, host, port);
    let n = before.len() as int;
    assert(p.subrange(n, n + RUN_BODY@.len()) =~= RUN_BODY@);
    assert(occurs_at(p, RUN_BODY@, n));
}

/// A text that begins with a whole line has that line first, and then the lines of the rest.
proof fn lemma_first_line(line: Seq<char>, rest: Seq<char>)
    requires
        forall|i: int| 0 <= i < line.len() ==> #[trigger] line[i] != '\n',
    ensures
        lines(line + seq!['\n'] + rest) == seq![strip_cr(line)] + lines(rest),
{
    let s = line + seq!['\n'] + rest;
    lemma_first_pos(s, '\n');
    let n = first_pos(s, '\n') as int;
    assert(s[line.len() as int] == '\n');
    assert(n == line.len()) by {
        if n < line.len() {
            assert(s[n] == line[n]);
        }
    }
    assert(s.take(n) =~= line);
    assert(s.skip(n + 1) =~= rest);
}

/// A line holds no line feed.
proof fn lemma_lines_are_whole(s: Seq<char>)
    ensures
        forall|i: int, k: int|
            0 <= i < lines(s).len() && 0 <= k < lines(s)[i].len() ==> #[trigger] lines(s)[i][k]
                != '\n',
    decreases s.len(),
{
    lemma_first_pos(s, '\n');
    let n = first_pos(s, '\n') as int;
    if s.len() > 0 {
        if n < s.len() {
            let rest = s.skip(n + 1);
            lemma_lines_are_whole(rest);
            assert forall|i: int, k: int|
                0 <= i < lines(s).len() && 0 <= k < lines(s)[i].len() implies #[trigger] lines(
                s,
            )[i][k] != '\n' by {
                if i == 0 {
                    assert(lines(s)[0] == strip_cr(s.take(n)));
                    assert(lines(s)[0][k] == s[k]);
                } else {
                    assert(lines(s)[i] == lines(rest)[i - 1]);
                }
            }
        } else {
            assert(lines(s) =~= seq![s]);
        }
    }
}

/// Whether no line of `body` itself ends in a carriage return.
pub open spec fn ends_its_lines_plainly(body: Seq<char>) -> bool {
    forall|i: int|
        0 <= i < lines(body).len() && (#[trigger] lines(body)[i]).len() > 0 ==> lines(body)[i].last()
            != '\r'
}

/// Joined lines, with another text on a line of its own behind them, are these lines and then
/// those of the text.
proof fn lemma_joined_lines(list: Seq<Seq<char>>, rest: Seq<char>)
    requires
        list.len() > 0,
        forall|i: int, k: int|
            0 <= i < list.len() && 0 <= k < list[i].len() ==> #[trigger] list[i][k] != '\n',
        forall|i: int| 0 <= i < list.len() ==> strip_cr(#[trigger] list[i]) == list[i],
    ensures
        lines(joined(list, seq!['\n']) + seq!['\n'] + rest) == list + lines(rest),
    decreases list.len(),
{
    let last = list.last();
    assert forall|k: int| 0 <= k < last.len() implies #[trigger] last[k] != '\n' by {
        assert(list[list.len() - 1][k] != '\n');
    }
    lemma_first_line(last, rest);
    if list.len() == 1 {
        assert(seq![strip_cr(last)] =~= list);
    } else {
        let before = list.drop_last();
        assert forall|i: int, k: int|
            0 <= i < before.len() && 0 <= k < before[i].len() implies #[trigger] before[i][k]
            != '\n' by {
            assert(list[i][k] != '\n');
        }
        assert forall|i: int| 0 <= i < before.len() implies strip_cr(#[trigger] before[i])
            == before[i] by {
            assert(strip_cr(list[i]) == list[i]);
        }
        let tail = last + seq!['\n'] + rest;
        lemma_joined_lines(before, tail);
        assert(joined(list, seq!['\n']) + seq!['\n'] + rest =~= joined(before, seq!['\n']) + seq![
            '\n',
        ] + tail);
        assert(before + (seq![strip_cr(last)] + lines(rest)) =~= list + lines(rest));
    }
}

/// Line by line, the program is its two head lines, every line of the body behind two blanks - in
/// order, none dropped, blank lines and indentation kept - and an ending that depends on the host
/// and the port alone. (A carriage return at the end of a line would be taken for a part of the
/// line's end.)
pub proof fn program_carries_the_body(body: Seq<char>, host: Seq<char>, port: u16)
    requires
        ends_its_lines_plainly(body),
    ensures
        ({
            let carried = lines(body);
            let p = lines(program(body, host, port));
            &&& p.len() >= carried.len() + 2
            &&& p[0] == ""@
            &&& p[1] == "def run_script():"@
            &&& forall|i: int|
                0 <= i < carried.len() ==> p[i + 2] == "  "@ + #[trigger] carried[i]
            &&& p.skip(carried.len() as int + 2) == lines(
                if carried.len() == 0 {
                    ending(host, port)
                } else {
                    ending(host, port).skip(1)
                },
            )
        }),
{
    let carried = lines(body);
    let shifted = carried.map_values(|l: Seq<char>| "  "@ + l);
    let tail = ending(host, port);
    reveal_strlit("");
    reveal_strlit("  ");
    reveal_strlit("\n");
    reveal_strlit("def run_script():");
    reveal_strlit(
        r#"
def run_script():
"#,
    );
    reveal_strlit(
        r#"

  def handshake():
"#,
    );
    assert("\n"@ =~= seq!['\n']);
    let rest = indented(body) + tail;
    let head = "def run_script():"@;
    assert(PROGRAM_HEAD@ =~= ""@ + seq!['\n'] + (head + seq!['\n']));
    assert(program(body, host, port) =~= ""@ + seq!['\n'] + (head + seq!['\n'] + rest));
    lemma_first_line(""@, head + seq!['\n'] + rest);
    lemma_first_line(head, rest);
    assert(strip_cr(""@) =~= ""@);
    assert(strip_cr(head) =~= head);
    if carried.len() == 0 {
        assert(shifted =~= Seq::empty());
        assert(rest =~= tail);
        assert(lines(rest) =~= shifted + lines(tail));
    } else {
        assert(tail[0] == '\n');
        assert(tail =~= seq!['\n'] + tail.skip(1));
        assert(rest =~= indented(body) + seq!['\n'] + tail.skip(1));
        lemma_lines_are_whole(body);
        assert forall|i: int, k: int|
            0 <= i < shifted.len() && 0 <= k < shifted[i].len() implies #[trigger] shifted[i][k]
            != '\n' by {
            if k >= 2 {
                assert(shifted[i][k] == carried[i][k - 2]);
            }
        }
        assert forall|i: int| 0 <= i < shifted.len() implies strip_cr(#[trigger] shifted[i])
            == shifted[i] by {
            assert(shifted[i] == "  "@ + carried[i]);
            if carried[i].len() > 0 {
                assert(shifted[i].last() == carried[i].last());
            } else {
                assert(shifted[i].last() == ' ');
            }
        }
        lemma_joined_lines(shifted, tail.skip(1));
    }
    let p = lines(program(body, host, port));
    assert(p =~= seq![""@, head] + shifted + p.skip(carried.len() as int + 2));
}

/// Whatever the host and the port, the program opens its socket to exactly those, and blames
/// exactly that host where it cannot.
pub proof fn program_names_its_host(body: Seq<char>, host: Seq<char>, port: u16)
    ensures
        contains_text(
            program(body, host, port),
            "    socket_open(\""@ + host + "\", "@ + decimal(port as nat)
                + ", \"ur_driver_socket\")"@,
        ),
        contains_text(
            program(body, host, port),
            "    popup(\"handshake failure with host "@ + host + ", not moving.\")"@,
        ),
        contains_text(
            program(body, host, port),
            "  if(handshake()):\n    result = script()\n"@,
        ),
{
    program_dials_back(body, host, port);
    program_runs_behind_the_handshake(body, host, port);
    reveal_strlit("  if(handshake()):\n    result = script()\n");
    let popup = failure_popup(host);
    let before = PROGRAM_HEAD@ + indented(body) + HANDSHAKE_HEAD@ + dial_back(host, port)
        + HANDSHAKE_TAIL@ + RUN_BODY@ + REPORT@;
    let p = program(body, host, port);
    let n = before.len() as int;
    assert(p.subrange(n, n + popup.len()) =~= popup);
    assert(occurs_at(p, popup, n));
}

/// A command is rendered by the template of its own name.
pub proof fn templates_are_named_after_their_command(a: Seq<char>, b: Seq<char>)
    ensures
        template_file(a) == a + ".script"@,
        template_file(a) == template_file(b) ==> a == b,
{
    assert(template_file(a).take(template_file(a).len() - ".script"@.len()) =~= a);
    assert(template_file(b).take(template_file(b).len() - ".script"@.len()) =~= b);
}

} // verus!
