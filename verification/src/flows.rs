//! The interactive session engine: what a session shows, the requests that its
//! host performs for it, and the runner that takes a session from its first
//! render to its cleanup.
//!
//! The engine performs no request itself. Every operation hands its host a
//! plan, an ordered list of steps; the host performs them and reports one
//! outcome for each, and the engine settles the plan against those outcomes.

use crate::settings::{Column, GuildSettings};
use vstd::prelude::*;

pub mod runner;
pub mod settings_panel;
pub mod ui;

pub use runner::{
    Action, ActionKind, ActionKindView, ActionView, ComponentFlow, Phase, Reaction, ReactionView,
    Runner, RunnerView, Verdict,
};
pub use ui::{UiHandle, UiView};

verus! {

/// Where the visible part of a session lives.
#[derive(Debug, Clone, Copy, PartialEq, Eq, Structural)]
pub enum Surface {
    /// The reply to the triggering request, visible to the invoker only.
    AttachedEphemeral,
    /// A standalone message in a channel, visible to all.
    DetachedMessage { channel_id: u64 },
}

#[derive(Debug, Clone, Copy, PartialEq, Eq, Structural)]
pub enum ButtonStyle {
    Success,
    Danger,
    Secondary,
}

#[derive(Debug, Clone, Copy, PartialEq, Eq, Structural)]
pub enum ChannelType {
    Text,
    News,
    Forum,
}

#[derive(Debug, Clone)]
pub struct Button {
    pub custom_id: String,
    pub label: String,
    pub style: ButtonStyle,
}

pub struct ButtonView {
    pub custom_id: Seq<char>,
    pub label: Seq<char>,
    pub style: ButtonStyle,
}

impl View for Button {
    type V = ButtonView;

    open spec fn view(&self) -> ButtonView {
        ButtonView { custom_id: self.custom_id@, label: self.label@, style: self.style }
    }
}

/// A selector of at most `max_values` channels among those of the given types.
#[derive(Debug, Clone)]
pub struct SelectMenu {
    pub custom_id: String,
    pub placeholder: String,
    pub channel_types: Vec<ChannelType>,
    pub default_channel: Option<u64>,
    pub min_values: u8,
    pub max_values: u8,
}

pub struct SelectMenuView {
    pub custom_id: Seq<char>,
    pub placeholder: Seq<char>,
    pub channel_types: Seq<ChannelType>,
    pub default_channel: Option<u64>,
    pub min_values: u8,
    pub max_values: u8,
}

impl View for SelectMenu {
    type V = SelectMenuView;

    open spec fn view(&self) -> SelectMenuView {
        SelectMenuView {
            custom_id: self.custom_id@,
            placeholder: self.placeholder@,
            channel_types: self.channel_types@,
            default_channel: self.default_channel,
            min_values: self.min_values,
            max_values: self.max_values,
        }
    }
}

/// One row of interactive controls.
#[derive(Debug, Clone)]
pub enum ControlRow {
    SelectMenu(SelectMenu),
    Buttons(Vec<Button>),
}

pub enum ControlRowView {
    SelectMenu(SelectMenuView),
    Buttons(Seq<ButtonView>),
}

/// The views of a row of buttons.
pub open spec fn buttons_view(buttons: Seq<Button>) -> Seq<ButtonView> {
    buttons.map_values(|b: Button| b@)
}

impl View for ControlRow {
    type V = ControlRowView;

    open spec fn view(&self) -> ControlRowView {
        match self {
            ControlRow::SelectMenu(menu) => ControlRowView::SelectMenu(menu@),
            ControlRow::Buttons(buttons) => ControlRowView::Buttons(buttons_view(buttons@)),
        }
    }
}

/// The views of a list of control rows.
pub open spec fn rows_view(rows: Seq<ControlRow>) -> Seq<ControlRowView> {
    rows.map_values(|r: ControlRow| r@)
}

/// One thing that the host does for a session, towards the interaction channel
/// or towards the store of committed settings.
#[derive(Debug, Clone)]
pub enum Request {
    /// Answer the triggering request with a reply that only the invoker sees.
    Reply { content: String, controls: Vec<ControlRow> },
    /// Post a new message into a channel.
    SendMessage { channel_id: u64, content: String, controls: Vec<ControlRow> },
    /// Answer the action and leave what is visible as it is.
    Acknowledge,
    /// Answer the action by replacing content and controls in place.
    UpdateMessage { content: String, controls: Vec<ControlRow> },
    /// Remove the reply to the triggering request.
    DeleteResponse,
    /// Follow the action up with a new reply that only the invoker sees.
    Followup { content: String, controls: Vec<ControlRow> },
    /// Delete a message of the session.
    DeleteMessage { channel_id: u64, message_id: u64 },
    /// Make sure that the guild has a committed record.
    EnsureRow { guild_id: u64 },
    /// Write or clear one column of the guild's record.
    SetColumn { guild_id: u64, column: Column, value: Option<u64> },
    /// Read the guild's committed record.
    ReadSettings { guild_id: u64 },
}

pub enum RequestView {
    Reply { content: Seq<char>, controls: Seq<ControlRowView> },
    SendMessage { channel_id: u64, content: Seq<char>, controls: Seq<ControlRowView> },
    Acknowledge,
    UpdateMessage { content: Seq<char>, controls: Seq<ControlRowView> },
    DeleteResponse,
    Followup { content: Seq<char>, controls: Seq<ControlRowView> },
    DeleteMessage { channel_id: u64, message_id: u64 },
    EnsureRow { guild_id: u64 },
    SetColumn { guild_id: u64, column: Column, value: Option<u64> },
    ReadSettings { guild_id: u64 },
}

impl View for Request {
    type V = RequestView;

    open spec fn view(&self) -> RequestView {
        match self {
            Request::Reply { content, controls } => RequestView::Reply {
                content: content@,
                controls: rows_view(controls@),
            },
            Request::SendMessage { channel_id, content, controls } => RequestView::SendMessage {
                channel_id: *channel_id,
                content: content@,
                controls: rows_view(controls@),
            },
            Request::Acknowledge => RequestView::Acknowledge,
            Request::UpdateMessage { content, controls } => RequestView::UpdateMessage {
                content: content@,
                controls: rows_view(controls@),
            },
            Request::DeleteResponse => RequestView::DeleteResponse,
            Request::Followup { content, controls } => RequestView::Followup {
                content: content@,
                controls: rows_view(controls@),
            },
            Request::DeleteMessage { channel_id, message_id } => RequestView::DeleteMessage {
                channel_id: *channel_id,
                message_id: *message_id,
            },
            Request::EnsureRow { guild_id } => RequestView::EnsureRow { guild_id: *guild_id },
            Request::SetColumn { guild_id, column, value } => RequestView::SetColumn {
                guild_id: *guild_id,
                column: *column,
                value: *value,
            },
            Request::ReadSettings { guild_id } => RequestView::ReadSettings {
                guild_id: *guild_id,
            },
        }
    }
}

/// A request with its standing in a plan.
#[derive(Debug, Clone)]
pub struct Step {
    pub request: Request,
    /// A failure of this request ends the session. The failure of any other
    /// request is passed over, as if it had done its work.
    pub required: bool,
    /// The message that this request creates becomes the session's message.
    pub adopts: bool,
}

pub struct StepView {
    pub request: RequestView,
    pub required: bool,
    pub adopts: bool,
}

impl View for Step {
    type V = StepView;

    open spec fn view(&self) -> StepView {
        StepView { request: self.request@, required: self.required, adopts: self.adopts }
    }
}

/// The views of a plan.
pub open spec fn plan_view(plan: Seq<Step>) -> Seq<StepView> {
    plan.map_values(|s: Step| s@)
}

/// What the host reports of one step.
#[derive(Debug, Clone, Copy, PartialEq, Eq, Structural)]
pub enum Outcome {
    /// The request was performed.
    Done,
    /// The request was performed and created the message with this identifier.
    Created(u64),
    /// The request was performed and read this record.
    Settings(GuildSettings),
    /// The request was refused or could not be made.
    Failed,
}

/// Why a plan did not go through.
#[derive(Debug, Clone, Copy, PartialEq, Eq, Structural)]
pub enum FlowError {
    /// The required step at this index failed.
    Rejected { step: usize },
    /// The host reported no outcome for the step at this index.
    Unanswered { step: usize },
    /// A reaction asked to go on with the committed record, and its plan read none.
    NothingRead,
}

impl StepView {
    /// A step that must succeed and adopts no message.
    pub open spec fn required(request: RequestView) -> StepView {
        StepView { request, required: true, adopts: false }
    }

    /// A step whose failure is passed over.
    pub open spec fn best_effort(request: RequestView) -> StepView {
        StepView { request, required: false, adopts: false }
    }

    /// A step that must succeed and creates the session's message.
    pub open spec fn adopting(request: RequestView) -> StepView {
        StepView { request, required: true, adopts: true }
    }

    /// The outcome shows that the step did what it is for: an adopting step has
    /// created a message, any other step has not failed.
    pub open spec fn met_by(self, outcome: Outcome) -> bool {
        if self.adopts {
            outcome is Created
        } else {
            !(outcome is Failed)
        }
    }
}

impl Step {
    /// A step that must succeed and adopts no message.
    pub fn required(request: Request) -> (step: Step)
        ensures
            step@ == StepView::required(request@),
    {
        Step { request, required: true, adopts: false }
    }

    /// A step whose failure is passed over.
    pub fn best_effort(request: Request) -> (step: Step)
        ensures
            step@ == StepView::best_effort(request@),
    {
        Step { request, required: false, adopts: false }
    }

    /// A step that must succeed and creates the session's message.
    pub fn adopting(request: Request) -> (step: Step)
        ensures
            step@ == StepView::adopting(request@),
    {
        Step { request, required: true, adopts: true }
    }

    /// Whether the outcome shows that the step did what it is for.
    pub fn met_by(&self, outcome: Outcome) -> (met: bool)
        ensures
            met == self@.met_by(outcome),
    {
        if self.adopts {
            match outcome {
                Outcome::Created(_) => true,
                _ => false,
            }
        } else {
            match outcome {
                Outcome::Failed => false,
                _ => true,
            }
        }
    }
}

/// The record that the last reading among the outcomes gave, if any did.
pub open spec fn record_read(outcomes: Seq<Outcome>) -> Option<GuildSettings>
    decreases outcomes.len(),
{
    if outcomes.len() == 0 {
        None
    } else {
        match outcomes.last() {
            Outcome::Settings(record) => Some(record),
            _ => record_read(outcomes.drop_last()),
        }
    }
}

/// The record that a performed plan has read: what its last reading gave.
pub fn settings_read(outcomes: &Vec<Outcome>) -> (record: Option<GuildSettings>)
    ensures
        record == record_read(outcomes@),
{
    let mut i: usize = outcomes.len();
    proof {
        assert(outcomes@.take(i as int) =~= outcomes@);
    }
    while i > 0
        invariant
            0 <= i <= outcomes.len(),
            record_read(outcomes@) == record_read(outcomes@.take(i as int)),
        decreases i,
    {
        proof {
            assert(outcomes@.take(i as int).drop_last() =~= outcomes@.take(i - 1));
            assert(outcomes@.take(i as int).last() == outcomes@[i - 1]);
        }
        match outcomes[i - 1] {
            Outcome::Settings(record) => {
                return Some(record);
            },
            _ => {},
        }
        i = i - 1;
    }
    proof {
        assert(outcomes@.take(0) =~= Seq::<Outcome>::empty());
    }
    None
}

} // verus!
