//! The handle through which a flow shapes what its session shows.

use crate::flows::{
    plan_view, rows_view, ControlRow, ControlRowView, FlowError, Outcome, Request, RequestView,
    Step, StepView, Surface,
};
use vstd::prelude::*;

verus! {

#[derive(Debug, Clone, Copy)]
enum Place {
    Attached,
    Detached { channel_id: u64, message_id: Option<u64> },
}

/// The visible part of one session: its surface, the message that stands for
/// it once one was created, and whether that message goes when the session ends.
#[derive(Debug, Clone, Copy)]
pub struct UiHandle {
    place: Place,
    delete_on_finish: bool,
}

pub struct UiView {
    pub surface: Surface,
    pub message_id: Option<u64>,
    pub delete_on_finish: bool,
}

impl View for UiHandle {
    type V = UiView;

    closed spec fn view(&self) -> UiView {
        match self.place {
            Place::Attached => UiView {
                surface: Surface::AttachedEphemeral,
                message_id: None,
                delete_on_finish: self.delete_on_finish,
            },
            Place::Detached { channel_id, message_id } => UiView {
                surface: Surface::DetachedMessage { channel_id },
                message_id,
                delete_on_finish: self.delete_on_finish,
            },
        }
    }
}

impl UiView {
    /// A session of which nothing has been shown yet.
    pub open spec fn fresh(surface: Surface) -> UiView {
        UiView { surface, message_id: None, delete_on_finish: true }
    }

    /// The first render: a reply on an attached surface, a new message, which
    /// the session adopts, on a detached one.
    pub open spec fn first_render(
        self,
        content: Seq<char>,
        controls: Seq<ControlRowView>,
    ) -> Seq<StepView> {
        match self.surface {
            Surface::AttachedEphemeral => seq![
                StepView::required(RequestView::Reply { content, controls }),
            ],
            Surface::DetachedMessage { channel_id } => seq![
                StepView::adopting(RequestView::SendMessage { channel_id, content, controls }),
            ],
        }
    }

    /// Answering an action without a change to what is visible.
    pub open spec fn acknowledge(self) -> Seq<StepView> {
        seq![StepView::best_effort(RequestView::Acknowledge)]
    }

    /// Replacing content and controls in place.
    pub open spec fn update_with(
        self,
        content: Seq<char>,
        controls: Seq<ControlRowView>,
    ) -> Seq<StepView> {
        seq![StepView::required(RequestView::UpdateMessage { content, controls })]
    }

    /// Replacing what is visible by something new: the action is answered, what
    /// was there is deleted, and only then its successor is created.
    pub open spec fn reset_with(
        self,
        content: Seq<char>,
        controls: Seq<ControlRowView>,
    ) -> Seq<StepView> {
        match self.surface {
            Surface::AttachedEphemeral => seq![
                StepView::best_effort(RequestView::Acknowledge),
                StepView::best_effort(RequestView::DeleteResponse),
                StepView::required(RequestView::Followup { content, controls }),
            ],
            Surface::DetachedMessage { channel_id } => match self.message_id {
                Some(message_id) => seq![
                    StepView::best_effort(RequestView::Acknowledge),
                    StepView::best_effort(RequestView::DeleteMessage { channel_id, message_id }),
                    StepView::adopting(RequestView::SendMessage { channel_id, content, controls }),
                ],
                None => seq![
                    StepView::best_effort(RequestView::Acknowledge),
                    StepView::adopting(RequestView::SendMessage { channel_id, content, controls }),
                ],
            },
        }
    }

    /// The last render: the content replaced, every control removed.
    pub open spec fn finish_with(self, content: Seq<char>) -> Seq<StepView> {
        seq![
            StepView::required(
                RequestView::UpdateMessage { content, controls: Seq::empty() },
            ),
        ]
    }

    /// The release of the session's message, where there is one to release.
    pub open spec fn cleanup(self) -> Seq<StepView> {
        match (self.surface, self.message_id) {
            (Surface::DetachedMessage { channel_id }, Some(message_id)) => if self.delete_on_finish {
                seq![
                    StepView::best_effort(RequestView::DeleteMessage { channel_id, message_id }),
                ]
            } else {
                Seq::empty()
            },
            _ => Seq::empty(),
        }
    }

    /// The handle after one step was performed: on a detached surface the
    /// message that an adopting step created is the session's message from then
    /// on. An attached surface never holds a message identifier.
    pub open spec fn adopt(self, step: StepView, outcome: Outcome) -> UiView {
        match (self.surface, outcome) {
            (Surface::DetachedMessage { .. }, Outcome::Created(id)) => if step.adopts {
                UiView { message_id: Some(id), ..self }
            } else {
                self
            },
            _ => self,
        }
    }

    /// Settling the steps of `plan` from index `from` on, in order: a step
    /// without an outcome or a required step that its outcome does not meet
    /// ends the settling with that error, and the steps before it stay settled.
    pub open spec fn settle_from(
        self,
        plan: Seq<StepView>,
        outcomes: Seq<Outcome>,
        from: int,
    ) -> (UiView, Result<(), FlowError>)
        decreases plan.len() - from,
    {
        if from < 0 || from >= plan.len() {
            (self, Ok(()))
        } else if from >= outcomes.len() {
            (self, Err(FlowError::Unanswered { step: from as usize }))
        } else if plan[from].required && !plan[from].met_by(outcomes[from]) {
            (self, Err(FlowError::Rejected { step: from as usize }))
        } else {
            self.adopt(plan[from], outcomes[from]).settle_from(plan, outcomes, from + 1)
        }
    }

    /// Settling a whole plan.
    pub open spec fn settle(self, plan: Seq<StepView>, outcomes: Seq<Outcome>) -> (
        UiView,
        Result<(), FlowError>,
    ) {
        self.settle_from(plan, outcomes, 0)
    }
}

impl UiHandle {
    /// The handle of a session of which nothing has been shown yet.
    pub fn new(surface: Surface) -> (ui: UiHandle)
        ensures
            ui@ == UiView::fresh(surface),
    {
        let place = match surface {
            Surface::AttachedEphemeral => Place::Attached,
            Surface::DetachedMessage { channel_id } => Place::Detached {
                channel_id,
                message_id: None,
            },
        };
        UiHandle { place, delete_on_finish: true }
    }

    /// The surface that the session was opened on.
    pub fn surface(&self) -> (surface: Surface)
        ensures
            surface == self@.surface,
    {
        match self.place {
            Place::Attached => Surface::AttachedEphemeral,
            Place::Detached { channel_id, .. } => Surface::DetachedMessage { channel_id },
        }
    }

    /// The message that stands for the session, once one was created.
    pub fn message_id(&self) -> (id: Option<u64>)
        ensures
            id == self@.message_id,
    {
        match self.place {
            Place::Attached => None,
            Place::Detached { message_id, .. } => message_id,
        }
    }

    /// Whether the session's message is deleted when the session ends.
    pub fn deletes_on_finish(&self) -> (yes: bool)
        ensures
            yes == self@.delete_on_finish,
    {
        self.delete_on_finish
    }

    /// Chooses whether the session's message is deleted when the session ends.
    pub fn delete_on_finish(self, yes: bool) -> (ui: UiHandle)
        ensures
            ui@ == (UiView { delete_on_finish: yes, ..self@ }),
    {
        UiHandle { place: self.place, delete_on_finish: yes }
    }

    /// The plan of the first render.
    pub fn first_render(&self, content: String, controls: Vec<ControlRow>) -> (plan: Vec<Step>)
        ensures
            plan_view(plan@) == self@.first_render(content@, rows_view(controls@)),
    {
        let mut plan: Vec<Step> = Vec::new();
        match self.place {
            Place::Attached => {
                plan.push(Step::required(Request::Reply { content, controls }));
            },
            Place::Detached { channel_id, .. } => {
                plan.push(Step::adopting(Request::SendMessage { channel_id, content, controls }));
            },
        }
        assert(plan_view(plan@) =~= self@.first_render(content@, rows_view(controls@)));
        plan
    }

    /// The plan that answers an action and changes nothing visible.
    pub fn acknowledge(&self) -> (plan: Vec<Step>)
        ensures
            plan_view(plan@) == self@.acknowledge(),
    {
        let mut plan: Vec<Step> = Vec::new();
        plan.push(Step::best_effort(Request::Acknowledge));
        assert(plan_view(plan@) =~= self@.acknowledge());
        plan
    }

    /// The plan that replaces content and controls in place.
    pub fn update_with(&self, content: String, controls: Vec<ControlRow>) -> (plan: Vec<Step>)
        ensures
            plan_view(plan@) == self@.update_with(content@, rows_view(controls@)),
    {
        let mut plan: Vec<Step> = Vec::new();
        plan.push(Step::required(Request::UpdateMessage { content, controls }));
        assert(plan_view(plan@) =~= self@.update_with(content@, rows_view(controls@)));
        plan
    }

    /// The plan that replaces what is visible by something new.
    pub fn reset_with(&self, content: String, controls: Vec<ControlRow>) -> (plan: Vec<Step>)
        ensures
            plan_view(plan@) == self@.reset_with(content@, rows_view(controls@)),
    {
        let mut plan: Vec<Step> = Vec::new();
        plan.push(Step::best_effort(Request::Acknowledge));
        match self.place {
            Place::Attached => {
                plan.push(Step::best_effort(Request::DeleteResponse));
                plan.push(Step::required(Request::Followup { content, controls }));
            },
            Place::Detached { channel_id, message_id } => {
                match message_id {
                    Some(message_id) => {
                        plan.push(
                            Step::best_effort(Request::DeleteMessage { channel_id, message_id }),
                        );
                    },
                    None => {},
                }
                plan.push(Step::adopting(Request::SendMessage { channel_id, content, controls }));
            },
        }
        assert(plan_view(plan@) =~= self@.reset_with(content@, rows_view(controls@)));
        plan
    }

    /// The plan of the last render.
    pub fn finish_with(&self, content: String) -> (plan: Vec<Step>)
        ensures
            plan_view(plan@) == self@.finish_with(content@),
    {
        let mut plan: Vec<Step> = Vec::new();
        let controls: Vec<ControlRow> = Vec::new();
        assert(rows_view(controls@) =~= Seq::<ControlRowView>::empty());
        plan.push(Step::required(Request::UpdateMessage { content, controls }));
        assert(plan_view(plan@) =~= self@.finish_with(content@));
        plan
    }

    /// The plan that releases the session's message. It is empty where there is
    /// nothing to release.
    pub fn cleanup(&self) -> (plan: Vec<Step>)
        ensures
            plan_view(plan@) == self@.cleanup(),
    {
        let mut plan: Vec<Step> = Vec::new();
        if self.delete_on_finish {
            match self.place {
                Place::Detached { channel_id, message_id: Some(message_id) } => {
                    plan.push(Step::best_effort(Request::DeleteMessage { channel_id, message_id }));
                },
                _ => {},
            }
        }
        assert(plan_view(plan@) =~= self@.cleanup());
        plan
    }

    fn adopt(&mut self, step: &Step, outcome: Outcome)
        ensures
            final(self)@ == old(self)@.adopt(step@, outcome),
    {
        if step.adopts {
            match (self.place, outcome) {
                (Place::Detached { channel_id, .. }, Outcome::Created(id)) => {
                    self.place = Place::Detached { channel_id, message_id: Some(id) };
                },
                _ => {},
            }
        }
    }

    /// Takes in what the host reports of a plan that it performed, one outcome
    /// for each step that it reached.
    pub fn settle(&mut self, plan: &Vec<Step>, outcomes: &Vec<Outcome>) -> (result: Result<
        (),
        FlowError,
    >)
        ensures
            (final(self)@, result) == old(self)@.settle(plan_view(plan@), outcomes@),
    {
        let ghost goal = self@.settle(plan_view(plan@), outcomes@);
        let mut i: usize = 0;
        while i < plan.len()
            invariant
                0 <= i <= plan.len(),
                goal == old(self)@.settle(plan_view(plan@), outcomes@),
                self@.settle_from(plan_view(plan@), outcomes@, i as int) == goal,
            decreases plan.len() - i,
        {
            if i >= outcomes.len() {
                return Err(FlowError::Unanswered { step: i });
            }
            let outcome = outcomes[i];
            if plan[i].required && !plan[i].met_by(outcome) {
                return Err(FlowError::Rejected { step: i });
            }
            self.adopt(&plan[i], outcome);
            i = i + 1;
        }
        Ok(())
    }
}

/// An attached surface never holds a message identifier.
pub proof fn law_attached_holds_no_message(ui: UiHandle)
    ensures
        ui@.surface is AttachedEphemeral ==> ui@.message_id is None,
{
}

/// The session's messages that are there to be acted on, after the host has
/// performed one step: a message that was created is there, one that was
/// deleted is gone.
pub open spec fn live_after(live: Set<u64>, step: StepView, outcome: Outcome) -> Set<u64> {
    match (step.request, outcome) {
        (RequestView::SendMessage { .. }, Outcome::Created(id)) => live.insert(id),
        (RequestView::DeleteMessage { message_id, .. }, Outcome::Done) => live.remove(message_id),
        _ => live,
    }
}

/// The session's live messages after the first `upto` steps of a plan.
pub open spec fn live_through(
    live: Set<u64>,
    plan: Seq<StepView>,
    outcomes: Seq<Outcome>,
    upto: int,
) -> Set<u64>
    decreases upto,
{
    if upto <= 0 || upto > plan.len() || upto > outcomes.len() {
        live
    } else {
        live_after(
            live_through(live, plan, outcomes, upto - 1),
            plan[upto - 1],
            outcomes[upto - 1],
        )
    }
}

/// At most one message is in `live`.
pub open spec fn at_most_one(live: Set<u64>) -> bool {
    forall|a: u64, b: u64| live.contains(a) && live.contains(b) ==> a == b
}

/// A reset on a detached surface never leaves two live messages: where the
/// deletion of the old message went through, at every point of the plan at
/// most one message is live, and once the plan has settled the one live
/// message is the new one, which the session has adopted.
pub proof fn law_reset_keeps_one_message(
    ui: UiView,
    content: Seq<char>,
    controls: Seq<ControlRowView>,
    outcomes: Seq<Outcome>,
    upto: int,
)
    requires
        ui.surface is DetachedMessage,
        ui.message_id is Some,
        0 <= upto <= 3,
        outcomes.len() == 3,
        outcomes[1] is Done,
    ensures
        at_most_one(
            live_through(
                set![ui.message_id->0],
                ui.reset_with(content, controls),
                outcomes,
                upto,
            ),
        ),
        ui.settle(ui.reset_with(content, controls), outcomes).1 is Ok ==> exists|id: u64|
            {
                &&& outcomes[2] == Outcome::Created(id)
                &&& ui.settle(ui.reset_with(content, controls), outcomes).0.message_id == Some(id)
                &&& #[trigger] live_through(
                    set![ui.message_id->0],
                    ui.reset_with(content, controls),
                    outcomes,
                    3,
                ) =~= set![id]
            },
{
    let plan = ui.reset_with(content, controls);
    let old_id = ui.message_id->0;
    let start = set![old_id];
    reveal_with_fuel(live_through, 4);
    reveal_with_fuel(UiView::settle_from, 4);
    assert(live_through(start, plan, outcomes, 0) == start);
    assert(live_through(start, plan, outcomes, 1) == start);
    assert(live_through(start, plan, outcomes, 2) =~= Set::<u64>::empty());
    if ui.settle(plan, outcomes).1 is Ok {
        assert(plan[2].met_by(outcomes[2]));
        let id = outcomes[2]->Created_0;
        assert(live_through(start, plan, outcomes, 3) =~= set![id]);
    }
}

} // verus!
