//! A request on its way to the robot: the lookups it still needs, and what becomes of it when
//! they are done.

use crate::command_server::{
    asked_lookups, assemble, command_of, lookup_failure, lookup_failure_text, lookups_of,
    transform_lookups, Lookup, MotionRequest,
};
use crate::structs::RobotCommand;
use crate::text::{join2, views};
use crate::trajectory::online::{is_planner_command, OPTIMAL_TRAJECTORY_COMMAND};
use vstd::prelude::*;

verus! {

/// A request, the lookups it needs, and the answers so far.
#[derive(Debug)]
pub struct Intake {
    request: MotionRequest,
    lookups: Vec<Lookup>,
    answers: Vec<String>,
}

/// What a request needs next.
#[derive(Debug)]
pub enum Step {
    /// Look up the transform from `parent` to `child`.
    LookUp { parent: String, child: String },
    /// Have the planner replace the waypoints of the command, then render it.
    Plan(RobotCommand),
    /// Render the command.
    Render(RobotCommand),
    /// Fail the request with this reason.
    Fail(String),
}

/// Whether a step is the next that a request needs.
pub open spec fn is_next(intake: Intake, r: Step) -> bool {
    &&& intake.is_waiting() ==> (r matches Step::LookUp { parent, child } && parent@
        == lookups_of(intake.request())[intake.answered().len() as int].0 && child@
        == lookups_of(intake.request())[intake.answered().len() as int].1)
    &&& !intake.is_waiting() ==> match intake.request().waypoints {
        None => r matches Step::Fail(reason) && reason@
            == "one or more waypoints failed to decode"@,
        Some(raw) => if intake.request().command_type == OPTIMAL_TRAJECTORY_COMMAND@ {
            r matches Step::Plan(command) && command@ == command_of(
                intake.request(),
                raw,
                intake.answered(),
            )
        } else {
            r matches Step::Render(command) && command@ == command_of(
                intake.request(),
                raw,
                intake.answered(),
            )
        },
    }
}

impl Intake {
    pub closed spec fn wf(self) -> bool {
        asked_lookups(self.lookups@) == lookups_of(self.request@) && self.answers@.len()
            <= self.lookups@.len()
    }

    /// The request.
    pub closed spec fn request(self) -> crate::command_server::MotionRequestView {
        self.request@
    }

    /// The answers so far.
    pub closed spec fn answered(self) -> Seq<Seq<char>> {
        views(self.answers@)
    }

    /// Whether the request still needs a lookup.
    pub open spec fn is_waiting(self) -> bool {
        self.answered().len() < lookups_of(self.request()).len()
    }

    /// Take in a request.
    pub fn new(request: MotionRequest) -> (r: Intake)
        ensures
            r.wf(),
            r.request() == request@,
            r.answered() == Seq::<Seq<char>>::empty(),
    {
        let lookups = transform_lookups(&request);
        let r = Intake { request, lookups, answers: Vec::new() };
        assert(r.answered() =~= Seq::<Seq<char>>::empty());
        r
    }

    /// What the request needs next: its lookups in their order, and then to be planned or
    /// rendered.
    pub fn next(&self) -> (r: Step)
        requires
            self.wf(),
        ensures
            is_next(*self, r),
    {
        let n: usize = self.answers.len();
        assert(asked_lookups(self.lookups@).len() == self.lookups@.len());
        assert(self.answered().len() == n);
        if n < self.lookups.len() {
            assert(asked_lookups(self.lookups@)[n as int] == self.lookups@[n as int]@);
            return Step::LookUp {
                parent: self.lookups[n].parent.clone(),
                child: self.lookups[n].child.clone(),
            };
        }
        match assemble(&self.request, &self.answers) {
            Err(reason) => Step::Fail(reason),
            Ok(command) => if is_planner_command(command.command_type.as_str()) {
                Step::Plan(command)
            } else {
                Step::Render(command)
            },
        }
    }

    /// The lookup that was asked for gave `pose`.
    pub fn found(&mut self, pose: String)
        requires
            old(self).wf(),
            old(self).is_waiting(),
        ensures
            final(self).wf(),
            final(self).request() == old(self).request(),
            final(self).answered() == old(self).answered().push(pose@),
    {
        assert(asked_lookups(self.lookups@).len() == self.lookups@.len());
        self.answers.push(pose);
        assert(self.answered() =~= old(self).answered().push(pose@));
    }

    /// The reason under which the request fails because the lookup that was asked for gave
    /// nothing.
    pub fn not_found(&self) -> (r: String)
        requires
            self.wf(),
            self.is_waiting(),
        ensures
            r@ == lookup_failure(lookups_of(self.request())[self.answered().len() as int]),
    {
        let n: usize = self.answers.len();
        assert(asked_lookups(self.lookups@).len() == self.lookups@.len());
        assert(asked_lookups(self.lookups@)[n as int] == self.lookups@[n as int]@);
        lookup_failure_text(&self.lookups[n])
    }
}

/// The reason under which a request fails because its script could not be rendered.
pub fn render_failure(error: &tera::Error) -> (r: String)
    ensures
        r@ == "failed to render the UR Script template: "@ + crate::script::error_message(*error),
{
    join2(
        "failed to render the UR Script template: ",
        crate::script::message_of(error).as_str(),
    )
}

/// Every request comes to an end: the lookups it waits for grow fewer with every answer.
pub proof fn intake_makes_progress(before: Intake, after: Intake, pose: Seq<char>)
    requires
        before.is_waiting(),
        after.request() == before.request(),
        after.answered() == before.answered().push(pose),
    ensures
        lookups_of(after.request()).len() - after.answered().len() < lookups_of(
            before.request(),
        ).len() - before.answered().len(),
        0 <= lookups_of(after.request()).len() - after.answered().len(),
{
}

} // verus!
