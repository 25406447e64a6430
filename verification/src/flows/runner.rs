//! The runner: one session from its first render to its cleanup.
//!
//! The host owns the waiting. It hands the runner what happened (the first
//! render was performed, a flow reacted to an action, the wait ran out) and
//! performs the cleanup plan that the runner hands back when the session ends.

use crate::flows::ui::{UiHandle, UiView};
use crate::flows::{
    plan_view, record_read, settings_read, FlowError, Outcome, RequestView, Step, StepView,
    Surface,
};
use crate::settings::GuildSettings;
use vstd::prelude::*;

verus! {

/// What a user did to a control.
#[derive(Debug, Clone)]
pub enum ActionKind {
    /// A channel selector changed; no value means that it was emptied.
    ChannelSelect { values: Vec<u64> },
    /// Anything else, a pressed button among them: it carries no channel.
    Other,
}

pub enum ActionKindView {
    ChannelSelect { values: Seq<u64> },
    Other,
}

impl View for ActionKind {
    type V = ActionKindView;

    open spec fn view(&self) -> ActionKindView {
        match self {
            ActionKind::ChannelSelect { values } => ActionKindView::ChannelSelect {
                values: values@,
            },
            ActionKind::Other => ActionKindView::Other,
        }
    }
}

/// One inbound interaction: which control, what was chosen, by whom and where.
#[derive(Debug, Clone)]
pub struct Action {
    pub custom_id: String,
    pub kind: ActionKind,
    pub author_id: u64,
    pub guild_id: Option<u64>,
    pub message_id: u64,
}

pub struct ActionView {
    pub custom_id: Seq<char>,
    pub kind: ActionKindView,
    pub author_id: u64,
    pub guild_id: Option<u64>,
    pub message_id: u64,
}

impl View for Action {
    type V = ActionView;

    open spec fn view(&self) -> ActionView {
        ActionView {
            custom_id: self.custom_id@,
            kind: self.kind@,
            author_id: self.author_id,
            guild_id: self.guild_id,
            message_id: self.message_id,
        }
    }
}

/// What a flow wants after it has reacted.
#[derive(Debug, Clone, Copy, PartialEq, Eq, Structural)]
pub enum Verdict {
    /// The session goes on and waits for the next action.
    Continue,
    /// The session ends.
    Terminate,
    /// The plan reads the committed record; the flow goes on with what was read.
    Resume,
}

/// A flow's answer to one event: the plan to perform and what follows it.
#[derive(Debug, Clone)]
pub struct Reaction {
    pub plan: Vec<Step>,
    pub verdict: Verdict,
}

pub struct ReactionView {
    pub plan: Seq<StepView>,
    pub verdict: Verdict,
}

impl View for Reaction {
    type V = ReactionView;

    open spec fn view(&self) -> ReactionView {
        ReactionView { plan: plan_view(self.plan@), verdict: self.verdict }
    }
}

/// The logic of one kind of session. The runner knows a flow by this alone.
pub trait ComponentFlow: Sized {
    /// The user whose actions the session takes.
    spec fn owner(&self) -> u64;

    /// The guild in which the session takes actions.
    spec fn scope(&self) -> u64;

    /// `plan` is the first render of this flow on `ui`, and `next` the flow after it.
    spec fn starts(&self, ui: UiView, next: &Self, plan: Seq<StepView>) -> bool;

    /// `reaction` is what this flow answers to `action` on `ui`, and `next`
    /// the flow after it.
    spec fn reacts(&self, ui: UiView, action: ActionView, next: &Self, reaction: ReactionView) -> bool;

    /// `reaction` is how this flow goes on with the record that was read, and
    /// `next` the flow after it.
    spec fn resumes(
        &self,
        ui: UiView,
        settings: GuildSettings,
        next: &Self,
        reaction: ReactionView,
    ) -> bool;

    /// The user whose actions the session takes.
    fn author_id(&self) -> (id: u64)
        ensures
            id == self.owner(),
    ;

    /// The guild in which the session takes actions.
    fn guild_id(&self) -> (id: u64)
        ensures
            id == self.scope(),
    ;

    /// The plan of the first render.
    fn on_start(&mut self, ui: &UiHandle) -> (plan: Vec<Step>)
        ensures
            old(self).starts(ui@, final(self), plan_view(plan@)),
    ;

    /// Reacts to one action. An action on a control that the flow does not
    /// know changes nothing and lets the session go on.
    fn on_component(&mut self, ui: &UiHandle, action: &Action) -> (reaction: Reaction)
        ensures
            old(self).reacts(ui@, action@, final(self), reaction@),
    ;

    /// Goes on after a reaction that asked to resume, with the committed
    /// record that its plan has read.
    fn on_committed(&mut self, ui: &UiHandle, settings: GuildSettings) -> (reaction: Reaction)
        ensures
            old(self).resumes(ui@, settings, final(self), reaction@),
    ;
}

/// Where a session stands.
#[derive(Debug, Clone, Copy, PartialEq, Eq, Structural)]
pub enum Phase {
    /// Nothing has been shown yet.
    Initializing,
    /// The flow has planned its first render, which is being performed.
    Rendering,
    /// The session waits for an action or for the end of the wait.
    AwaitingAction,
    /// The flow has reacted, and its plan is being performed.
    Reacting,
    /// A reaction was performed that goes on with the record that it has read.
    AwaitingData,
    /// The session has ended and its cleanup plan has been handed out.
    Finished,
}

/// The state of one session.
#[derive(Debug, Clone, Copy)]
pub struct Runner {
    phase: Phase,
    ui: UiHandle,
    owner: u64,
    guild: u64,
    timeout_secs: u64,
    filter_by_message_id: bool,
    watched: Option<u64>,
    failure: Option<FlowError>,
}

pub struct RunnerView {
    pub phase: Phase,
    pub ui: UiView,
    pub owner: u64,
    pub guild: u64,
    pub timeout_secs: u64,
    pub filter_by_message_id: bool,
    /// The message to which the wait is narrowed, fixed when the wait begins.
    pub watched: Option<u64>,
    /// The error by which the session ended, where it ended by one.
    pub failure: Option<FlowError>,
}

impl View for Runner {
    type V = RunnerView;

    closed spec fn view(&self) -> RunnerView {
        RunnerView {
            phase: self.phase,
            ui: self.ui@,
            owner: self.owner,
            guild: self.guild,
            timeout_secs: self.timeout_secs,
            filter_by_message_id: self.filter_by_message_id,
            watched: self.watched,
            failure: self.failure,
        }
    }
}

impl RunnerView {
    /// A session that has not begun.
    pub open spec fn fresh(
        surface: Surface,
        owner: u64,
        guild: u64,
        timeout_secs: u64,
        filter_by_message_id: bool,
    ) -> RunnerView {
        RunnerView {
            phase: Phase::Initializing,
            ui: UiView::fresh(surface),
            owner,
            guild,
            timeout_secs,
            filter_by_message_id,
            watched: None,
            failure: None,
        }
    }

    /// The session's end: its phase, how it ended, and the cleanup plan.
    pub open spec fn finish(self, ui: UiView, failure: Option<FlowError>) -> (
        RunnerView,
        Seq<StepView>,
    ) {
        (RunnerView { phase: Phase::Finished, ui, failure, ..self }, ui.cleanup())
    }

    /// After the first render was performed: the wait begins, narrowed to the
    /// session's message where that is asked for and there is one; a first
    /// render that failed ends the session before any wait.
    pub open spec fn started(self, plan: Seq<StepView>, outcomes: Seq<Outcome>) -> (
        RunnerView,
        Seq<StepView>,
    ) {
        if self.phase != Phase::Initializing && self.phase != Phase::Rendering {
            (self, Seq::empty())
        } else {
            let settled = self.ui.settle(plan, outcomes);
            match settled.1 {
                Ok(_) => (
                    RunnerView {
                        phase: Phase::AwaitingAction,
                        ui: settled.0,
                        watched: if self.filter_by_message_id {
                            settled.0.message_id
                        } else {
                            None
                        },
                        ..self
                    },
                    Seq::empty(),
                ),
                Err(e) => self.finish(settled.0, Some(e)),
            }
        }
    }

    /// Whether an action is for this session: the session waits, the action is
    /// its owner's, in its guild, and on the watched message where one is watched.
    pub open spec fn accepts(self, action: ActionView) -> bool {
        &&& self.phase == Phase::AwaitingAction
        &&& action.author_id == self.owner
        &&& action.guild_id == Some(self.guild)
        &&& (self.watched is Some ==> self.watched == Some(action.message_id))
    }

    /// After a flow's reaction was performed: the session goes on, waits for
    /// the record, or ends, by the verdict or by the failure of the plan. To go
    /// on with the record, the plan must have read one.
    pub open spec fn reacted(
        self,
        plan: Seq<StepView>,
        outcomes: Seq<Outcome>,
        verdict: Verdict,
    ) -> (RunnerView, Seq<StepView>) {
        if self.phase != Phase::AwaitingAction && self.phase != Phase::Reacting && self.phase
            != Phase::AwaitingData {
            (self, Seq::empty())
        } else {
            let settled = self.ui.settle(plan, outcomes);
            match (settled.1, verdict) {
                (Err(e), _) => self.finish(settled.0, Some(e)),
                (Ok(_), Verdict::Terminate) => self.finish(settled.0, None),
                (Ok(_), Verdict::Continue) => (
                    RunnerView { phase: Phase::AwaitingAction, ui: settled.0, ..self },
                    Seq::empty(),
                ),
                (Ok(_), Verdict::Resume) => if record_read(outcomes) is Some {
                    (RunnerView { phase: Phase::AwaitingData, ui: settled.0, ..self }, Seq::empty())
                } else {
                    self.finish(settled.0, Some(FlowError::NothingRead))
                },
            }
        }
    }

    /// After the wait ran out with no action for the session: the session
    /// ends, and nothing more is rendered.
    pub open spec fn timed_out(self) -> (RunnerView, Seq<StepView>) {
        if self.phase != Phase::AwaitingAction {
            (self, Seq::empty())
        } else {
            self.finish(self.ui, None)
        }
    }

    /// How the session ended, once it has.
    pub open spec fn result(self) -> Option<Result<(), FlowError>> {
        if self.phase != Phase::Finished {
            None
        } else {
            match self.failure {
                Some(e) => Some(Err(e)),
                None => Some(Ok(())),
            }
        }
    }
}

impl Runner {
    /// A session that has not begun, on a fresh handle.
    pub fn new(
        surface: Surface,
        owner: u64,
        guild: u64,
        timeout_secs: u64,
        filter_by_message_id: bool,
    ) -> (runner: Runner)
        ensures
            runner@ == RunnerView::fresh(surface, owner, guild, timeout_secs, filter_by_message_id),
    {
        Runner {
            phase: Phase::Initializing,
            ui: UiHandle::new(surface),
            owner,
            guild,
            timeout_secs,
            filter_by_message_id,
            watched: None,
            failure: None,
        }
    }

    /// A session that has not begun, for the owner and the guild of `flow`.
    pub fn open<F: ComponentFlow>(
        surface: Surface,
        flow: &F,
        timeout_secs: u64,
        filter_by_message_id: bool,
    ) -> (runner: Runner)
        ensures
            runner@ == RunnerView::fresh(
                surface,
                flow.owner(),
                flow.scope(),
                timeout_secs,
                filter_by_message_id,
            ),
    {
        Runner::new(surface, flow.author_id(), flow.guild_id(), timeout_secs, filter_by_message_id)
    }

    /// Asks the flow for its first render, once: only a session that has not
    /// begun asks, and with that it has begun. Otherwise the flow is left alone.
    pub fn begin<F: ComponentFlow>(&mut self, flow: &mut F) -> (plan: Option<Vec<Step>>)
        ensures
            match plan {
                Some(steps) => {
                    &&& old(self)@.phase == Phase::Initializing
                    &&& final(self)@ == (RunnerView { phase: Phase::Rendering, ..old(self)@ })
                    &&& old(flow).starts(old(self)@.ui, final(flow), plan_view(steps@))
                },
                None => {
                    &&& old(self)@.phase != Phase::Initializing
                    &&& final(self)@ == old(self)@
                    &&& *final(flow) == *old(flow)
                },
            },
    {
        match self.phase {
            Phase::Initializing => {
                let plan = flow.on_start(&self.ui);
                self.phase = Phase::Rendering;
                Some(plan)
            },
            _ => None,
        }
    }

    /// Hands the action to the flow if it is for this session, which then
    /// takes no other action until the reaction was performed. Otherwise the
    /// action is dropped and the flow is left alone.
    pub fn dispatch<F: ComponentFlow>(&mut self, flow: &mut F, action: &Action) -> (reaction:
        Option<Reaction>)
        ensures
            match reaction {
                Some(r) => {
                    &&& old(self)@.accepts(action@)
                    &&& final(self)@ == (RunnerView { phase: Phase::Reacting, ..old(self)@ })
                    &&& old(flow).reacts(old(self)@.ui, action@, final(flow), r@)
                },
                None => {
                    &&& !old(self)@.accepts(action@)
                    &&& final(self)@ == old(self)@
                    &&& *final(flow) == *old(flow)
                },
            },
    {
        if self.accepts(action) {
            let reaction = flow.on_component(&self.ui, action);
            self.phase = Phase::Reacting;
            Some(reaction)
        } else {
            None
        }
    }

    /// Lets the flow go on with the record that the performed plan has read,
    /// if the session waits for it; otherwise the flow is left alone.
    pub fn resume<F: ComponentFlow>(&mut self, flow: &mut F, outcomes: &Vec<Outcome>) -> (reaction:
        Option<Reaction>)
        ensures
            match reaction {
                Some(r) => {
                    &&& old(self)@.phase == Phase::AwaitingData
                    &&& record_read(outcomes@) is Some
                    &&& final(self)@ == (RunnerView { phase: Phase::Reacting, ..old(self)@ })
                    &&& old(flow).resumes(
                        old(self)@.ui,
                        record_read(outcomes@)->0,
                        final(flow),
                        r@,
                    )
                },
                None => {
                    &&& (old(self)@.phase != Phase::AwaitingData || record_read(outcomes@) is None)
                    &&& final(self)@ == old(self)@
                    &&& *final(flow) == *old(flow)
                },
            },
    {
        match self.phase {
            Phase::AwaitingData => match settings_read(outcomes) {
                Some(record) => {
                    let reaction = flow.on_committed(&self.ui, record);
                    self.phase = Phase::Reacting;
                    Some(reaction)
                },
                None => None,
            },
            _ => None,
        }
    }

    /// The session's handle, for the flow to plan with.
    pub fn ui(&self) -> (ui: &UiHandle)
        ensures
            ui@ == self@.ui,
    {
        &self.ui
    }

    pub fn phase(&self) -> (phase: Phase)
        ensures
            phase == self@.phase,
    {
        self.phase
    }

    /// For how many seconds the host waits for each action.
    pub fn timeout_secs(&self) -> (secs: u64)
        ensures
            secs == self@.timeout_secs,
    {
        self.timeout_secs
    }

    /// The message to which the wait is narrowed, if any.
    pub fn watched_message(&self) -> (id: Option<u64>)
        ensures
            id == self@.watched,
    {
        self.watched
    }

    /// How the session ended, once it has.
    pub fn result(&self) -> (result: Option<Result<(), FlowError>>)
        ensures
            result == self@.result(),
    {
        match self.phase {
            Phase::Finished => match self.failure {
                Some(e) => Some(Err(e)),
                None => Some(Ok(())),
            },
            _ => None,
        }
    }

    fn finish(&mut self, failure: Option<FlowError>) -> (cleanup: Vec<Step>)
        ensures
            (final(self)@, plan_view(cleanup@)) == old(self)@.finish(old(self)@.ui, failure),
    {
        self.phase = Phase::Finished;
        self.failure = failure;
        self.ui.cleanup()
    }

    /// Takes in the first render: `plan` as the flow made it, `outcomes` as the
    /// host met them. Hands back what to perform now: nothing where the wait
    /// begins, the cleanup plan where the session ends at once.
    pub fn started(&mut self, plan: &Vec<Step>, outcomes: &Vec<Outcome>) -> (cleanup: Vec<Step>)
        ensures
            (final(self)@, plan_view(cleanup@)) == old(self)@.started(
                plan_view(plan@),
                outcomes@,
            ),
    {
        match self.phase {
            Phase::Initializing => {},
            Phase::Rendering => {},
            _ => {
                let none: Vec<Step> = Vec::new();
                assert(plan_view(none@) =~= Seq::<StepView>::empty());
                return none;
            },
        }
        match self.ui.settle(plan, outcomes) {
            Ok(_) => {
                self.phase = Phase::AwaitingAction;
                self.watched = if self.filter_by_message_id {
                    self.ui.message_id()
                } else {
                    None
                };
                let none: Vec<Step> = Vec::new();
                assert(plan_view(none@) =~= Seq::<StepView>::empty());
                none
            },
            Err(e) => self.finish(Some(e)),
        }
    }

    /// Whether an action is for this session.
    pub fn accepts(&self, action: &Action) -> (yes: bool)
        ensures
            yes == self@.accepts(action@),
    {
        let waiting = match self.phase {
            Phase::AwaitingAction => true,
            _ => false,
        };
        let in_guild = match action.guild_id {
            Some(g) => g == self.guild,
            None => false,
        };
        let on_message = match self.watched {
            Some(m) => m == action.message_id,
            None => true,
        };
        waiting && action.author_id == self.owner && in_guild && on_message
    }

    /// Takes in a flow's reaction: its plan, the outcomes that the host met,
    /// and its verdict. Hands back the cleanup plan where the session ends.
    pub fn reacted(&mut self, plan: &Vec<Step>, outcomes: &Vec<Outcome>, verdict: Verdict) -> (cleanup:
        Vec<Step>)
        ensures
            (final(self)@, plan_view(cleanup@)) == old(self)@.reacted(
                plan_view(plan@),
                outcomes@,
                verdict,
            ),
    {
        match self.phase {
            Phase::AwaitingAction => {},
            Phase::Reacting => {},
            Phase::AwaitingData => {},
            _ => {
                let none: Vec<Step> = Vec::new();
                assert(plan_view(none@) =~= Seq::<StepView>::empty());
                return none;
            },
        }
        match self.ui.settle(plan, outcomes) {
            Err(e) => self.finish(Some(e)),
            Ok(_) => match verdict {
                Verdict::Terminate => self.finish(None),
                Verdict::Continue => {
                    self.phase = Phase::AwaitingAction;
                    let none: Vec<Step> = Vec::new();
                    assert(plan_view(none@) =~= Seq::<StepView>::empty());
                    none
                },
                Verdict::Resume => match settings_read(outcomes) {
                    Some(_) => {
                        self.phase = Phase::AwaitingData;
                        let none: Vec<Step> = Vec::new();
                        assert(plan_view(none@) =~= Seq::<StepView>::empty());
                        none
                    },
                    None => self.finish(Some(FlowError::NothingRead)),
                },
            },
        }
    }

    /// Takes in that the wait ran out. Hands back the cleanup plan.
    pub fn timed_out(&mut self) -> (cleanup: Vec<Step>)
        ensures
            (final(self)@, plan_view(cleanup@)) == old(self)@.timed_out(),
    {
        match self.phase {
            Phase::AwaitingAction => self.finish(None),
            _ => {
                let none: Vec<Step> = Vec::new();
                assert(plan_view(none@) =~= Seq::<StepView>::empty());
                none
            },
        }
    }
}

/// A plan writes nothing to the store of committed settings.
pub open spec fn leaves_store_alone(plan: Seq<StepView>) -> bool {
    forall|i: int|
        0 <= i < plan.len() ==> !(#[trigger] plan[i].request is SetColumn) && !(plan[i].request is EnsureRow)
}

/// A cleanup plan deletes at most the session's message and writes nothing to
/// the store.
pub proof fn law_cleanup_leaves_store_alone(ui: UiView)
    ensures
        leaves_store_alone(ui.cleanup()),
        ui.cleanup().len() <= 1,
{
}

/// Every way out of a session hands out the cleanup plan of the handle as it
/// then stands, whether the session ends by a verdict, by a failure or by the
/// end of the wait.
pub proof fn law_every_exit_cleans_up(
    r: RunnerView,
    plan: Seq<StepView>,
    outcomes: Seq<Outcome>,
    verdict: Verdict,
)
    requires
        r.phase != Phase::Finished,
    ensures
        r.started(plan, outcomes).0.phase == Phase::Finished ==> r.started(plan, outcomes).1
            == r.started(plan, outcomes).0.ui.cleanup(),
        r.reacted(plan, outcomes, verdict).0.phase == Phase::Finished ==> r.reacted(
            plan,
            outcomes,
            verdict,
        ).1 == r.reacted(plan, outcomes, verdict).0.ui.cleanup(),
        r.timed_out().0.phase == Phase::Finished ==> r.timed_out().1
            == r.timed_out().0.ui.cleanup(),
{
}

/// A session that has ended stays as it is and hands out nothing more: the
/// cleanup plan is handed out once.
pub proof fn law_finished_is_final(
    r: RunnerView,
    plan: Seq<StepView>,
    outcomes: Seq<Outcome>,
    verdict: Verdict,
    action: ActionView,
)
    requires
        r.phase == Phase::Finished,
    ensures
        r.started(plan, outcomes) == (r, Seq::<StepView>::empty()),
        r.reacted(plan, outcomes, verdict) == (r, Seq::<StepView>::empty()),
        r.timed_out() == (r, Seq::<StepView>::empty()),
        !r.accepts(action),
{
}

/// A wait that runs out ends the session without a failure, renders nothing
/// more, writes nothing to the store, and hands out the cleanup plan, after
/// which nothing more is handed out.
pub proof fn law_timeout_cleans_up_once(r: RunnerView)
    requires
        r.phase == Phase::AwaitingAction,
    ensures
        r.timed_out().1 == r.ui.cleanup(),
        leaves_store_alone(r.timed_out().1),
        r.timed_out().0.phase == Phase::Finished,
        r.timed_out().0.result() == Some(Ok::<(), FlowError>(())),
        r.timed_out().0.ui == r.ui,
        r.timed_out().0.timed_out() == (r.timed_out().0, Seq::<StepView>::empty()),
{
}

/// Settling a plan changes neither the surface nor the choice to delete on
/// finish, and leaves an attached surface without a message identifier.
pub proof fn law_settle_keeps_surface(
    ui: UiView,
    plan: Seq<StepView>,
    outcomes: Seq<Outcome>,
    from: int,
)
    ensures
        ui.settle_from(plan, outcomes, from).0.surface == ui.surface,
        ui.settle_from(plan, outcomes, from).0.delete_on_finish == ui.delete_on_finish,
        ui.surface is AttachedEphemeral ==> ui.settle_from(plan, outcomes, from).0.message_id
            == ui.message_id,
    decreases plan.len() - from,
{
    if 0 <= from < plan.len() && from < outcomes.len() && !(plan[from].required
        && !plan[from].met_by(outcomes[from])) {
        law_settle_keeps_surface(ui.adopt(plan[from], outcomes[from]), plan, outcomes, from + 1);
    }
}

/// A session keeps the surface that it was opened on, its owner and its
/// guild, whatever happens to it, and takes an action only while it waits for
/// one: not before its first render was performed, and not while a reaction
/// is under way.
pub proof fn law_session_keeps_its_surface(
    r: RunnerView,
    plan: Seq<StepView>,
    outcomes: Seq<Outcome>,
    verdict: Verdict,
    action: ActionView,
)
    ensures
        r.started(plan, outcomes).0.ui.surface == r.ui.surface,
        r.reacted(plan, outcomes, verdict).0.ui.surface == r.ui.surface,
        r.timed_out().0.ui.surface == r.ui.surface,
        r.started(plan, outcomes).0.owner == r.owner && r.started(plan, outcomes).0.guild
            == r.guild,
        r.reacted(plan, outcomes, verdict).0.owner == r.owner && r.reacted(
            plan,
            outcomes,
            verdict,
        ).0.guild == r.guild,
        r.phase != Phase::AwaitingAction ==> !r.accepts(action),
{
    law_settle_keeps_surface(r.ui, plan, outcomes, 0);
}

/// On an attached surface the wait is never narrowed to a message, whatever
/// was asked for: every action of the owner in the guild is taken.
pub proof fn law_attached_never_filters(
    runner: Runner,
    plan: Seq<StepView>,
    outcomes: Seq<Outcome>,
    action: ActionView,
)
    requires
        runner@.phase == Phase::Initializing,
        runner@.ui.surface is AttachedEphemeral,
        runner@.started(plan, outcomes).0.phase == Phase::AwaitingAction,
        action.author_id == runner@.owner,
        action.guild_id == Some(runner@.guild),
    ensures
        runner@.started(plan, outcomes).0.watched is None,
        runner@.started(plan, outcomes).0.accepts(action),
{
    crate::flows::ui::law_attached_holds_no_message(runner.ui);
    law_settle_keeps_surface(runner@.ui, plan, outcomes, 0);
}

} // verus!
