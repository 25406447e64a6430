//! The channel-configuration panel: a flow that keeps a draft beside the
//! committed record and commits the draft, column by column, on Save.

use crate::flows::runner::{
    leaves_store_alone, Action, ActionKind, ActionKindView, ActionView, ComponentFlow, Reaction,
    ReactionView, Verdict,
};
use crate::flows::ui::{
    at_most_one, law_reset_keeps_one_message, live_through, UiHandle, UiView,
};
use crate::flows::{
    buttons_view, plan_view, rows_view, Button, ButtonStyle, ButtonView, ChannelType, ControlRow,
    ControlRowView, Outcome, Request, RequestView, SelectMenu, SelectMenuView, Step, StepView,
};
use crate::settings::{Column, GuildSettings};
use crate::text::{decimal, push_decimal};
use vstd::prelude::*;
use vstd::string::*;

verus! {

/// The pending edit of one field. To keep is not to clear: a field that is
/// kept is not written at all.
#[derive(Debug, Clone, Copy, PartialEq, Eq, Structural)]
pub enum DraftValue {
    Keep,
    SetTo(u64),
    Clear,
}

impl Default for DraftValue {
    fn default() -> (value: DraftValue)
        ensures
            value == DraftValue::Keep,
    {
        DraftValue::Keep
    }
}

impl DraftValue {
    /// What the field would hold if the draft were committed over `current`.
    pub open spec fn over(self, current: Option<u64>) -> Option<u64> {
        match self {
            DraftValue::Keep => current,
            DraftValue::SetTo(id) => Some(id),
            DraftValue::Clear => None,
        }
    }

    /// What the field would hold if the draft were committed over `current`.
    pub fn effective(self, current: Option<u64>) -> (value: Option<u64>)
        ensures
            value == self.over(current),
    {
        match self {
            DraftValue::Keep => current,
            DraftValue::SetTo(id) => Some(id),
            DraftValue::Clear => None,
        }
    }
}

/// The draft of the three fields.
#[derive(Debug, Clone, Copy, PartialEq, Eq, Structural)]
pub struct TempSettings {
    pub join: DraftValue,
    pub leave: DraftValue,
    pub mod_log: DraftValue,
}

impl Default for TempSettings {
    fn default() -> (draft: TempSettings)
        ensures
            draft == TempSettings::keep_all(),
    {
        TempSettings { join: DraftValue::Keep, leave: DraftValue::Keep, mod_log: DraftValue::Keep }
    }
}

/// The controls of the panel.
#[derive(Debug, Clone, Copy, PartialEq, Eq, Structural)]
pub enum Control {
    Join,
    Leave,
    ModLog,
    Save,
    ClearAll,
    Cancel,
}

impl Control {
    /// The identifier under which the control is routed.
    pub open spec fn id_text(self) -> Seq<char> {
        match self {
            Control::Join => "settings_join"@,
            Control::Leave => "settings_leave"@,
            Control::ModLog => "settings_mod"@,
            Control::Save => "settings_save"@,
            Control::ClearAll => "settings_clear"@,
            Control::Cancel => "settings_cancel"@,
        }
    }

    /// What the control says of itself: a selector's placeholder, a button's label.
    pub open spec fn label_text(self) -> Seq<char> {
        match self {
            Control::Join => "Select Join log channel"@,
            Control::Leave => "Select Leave log channel"@,
            Control::ModLog => "Select Mod log channel"@,
            Control::Save => "Save"@,
            Control::ClearAll => "Clear All"@,
            Control::Cancel => "Cancel"@,
        }
    }

    /// The column that a selector edits; a button edits none.
    pub open spec fn column(self) -> Option<Column> {
        match self {
            Control::Join => Some(Column::JoinLog),
            Control::Leave => Some(Column::LeaveLog),
            Control::ModLog => Some(Column::ModLog),
            _ => None,
        }
    }

    /// The control that an identifier routes to, if any.
    pub open spec fn of(id: Seq<char>) -> Option<Control> {
        if id == Control::Join.id_text() {
            Some(Control::Join)
        } else if id == Control::Leave.id_text() {
            Some(Control::Leave)
        } else if id == Control::ModLog.id_text() {
            Some(Control::ModLog)
        } else if id == Control::Save.id_text() {
            Some(Control::Save)
        } else if id == Control::ClearAll.id_text() {
            Some(Control::ClearAll)
        } else if id == Control::Cancel.id_text() {
            Some(Control::Cancel)
        } else {
            None
        }
    }

    /// The identifier under which the control is routed.
    pub fn custom_id(self) -> (id: &'static str)
        ensures
            id@ == self.id_text(),
    {
        match self {
            Control::Join => "settings_join",
            Control::Leave => "settings_leave",
            Control::ModLog => "settings_mod",
            Control::Save => "settings_save",
            Control::ClearAll => "settings_clear",
            Control::Cancel => "settings_cancel",
        }
    }

    /// A selector's placeholder, a button's label.
    pub fn label(self) -> (label: &'static str)
        ensures
            label@ == self.label_text(),
    {
        match self {
            Control::Join => "Select Join log channel",
            Control::Leave => "Select Leave log channel",
            Control::ModLog => "Select Mod log channel",
            Control::Save => "Save",
            Control::ClearAll => "Clear All",
            Control::Cancel => "Cancel",
        }
    }

    /// The control that an identifier routes to, if any.
    pub fn parse(id: &str) -> (control: Option<Control>)
        ensures
            control == Control::of(id@),
    {
        let id = String::from_str(id);
        if id == String::from_str(Control::Join.custom_id()) {
            Some(Control::Join)
        } else if id == String::from_str(Control::Leave.custom_id()) {
            Some(Control::Leave)
        } else if id == String::from_str(Control::ModLog.custom_id()) {
            Some(Control::ModLog)
        } else if id == String::from_str(Control::Save.custom_id()) {
            Some(Control::Save)
        } else if id == String::from_str(Control::ClearAll.custom_id()) {
            Some(Control::ClearAll)
        } else if id == String::from_str(Control::Cancel.custom_id()) {
            Some(Control::Cancel)
        } else {
            None
        }
    }
}

/// Every control is routed to by its own identifier, so no two controls share one.
pub proof fn law_controls_route_to_themselves(control: Control)
    ensures
        Control::of(control.id_text()) == Some(control),
{
    reveal_strlit("settings_join");
    reveal_strlit("settings_leave");
    reveal_strlit("settings_mod");
    reveal_strlit("settings_save");
    reveal_strlit("settings_clear");
    reveal_strlit("settings_cancel");
    assert("settings_join"@.len() == 13 && "settings_join"@[9] == 'j');
    assert("settings_leave"@.len() == 14 && "settings_leave"@[9] == 'l');
    assert("settings_mod"@.len() == 12);
    assert("settings_save"@.len() == 13 && "settings_save"@[9] == 's');
    assert("settings_clear"@.len() == 14 && "settings_clear"@[9] == 'c');
    assert("settings_cancel"@.len() == 15);
}

/// The draft value that an action on a selector picks: the first chosen
/// channel, or a clearing where no channel can be read from it, be it that
/// the selector was emptied or that the action carries no channel at all.
pub open spec fn picked(kind: ActionKindView) -> DraftValue {
    match kind {
        ActionKindView::ChannelSelect { values } => if values.len() > 0 {
            DraftValue::SetTo(values[0])
        } else {
            DraftValue::Clear
        },
        ActionKindView::Other => DraftValue::Clear,
    }
}

impl TempSettings {
    /// The draft that changes nothing.
    pub open spec fn keep_all() -> TempSettings {
        TempSettings { join: DraftValue::Keep, leave: DraftValue::Keep, mod_log: DraftValue::Keep }
    }

    /// The draft that clears every field.
    pub open spec fn clear_all() -> TempSettings {
        TempSettings {
            join: DraftValue::Clear,
            leave: DraftValue::Clear,
            mod_log: DraftValue::Clear,
        }
    }

    /// The draft of one field.
    pub open spec fn field(self, column: Column) -> DraftValue {
        match column {
            Column::JoinLog => self.join,
            Column::LeaveLog => self.leave,
            Column::ModLog => self.mod_log,
        }
    }

    /// The draft with one field replaced.
    pub open spec fn with_field(self, column: Column, value: DraftValue) -> TempSettings {
        match column {
            Column::JoinLog => TempSettings { join: value, ..self },
            Column::LeaveLog => TempSettings { leave: value, ..self },
            Column::ModLog => TempSettings { mod_log: value, ..self },
        }
    }

    /// The draft after one action: a selector sets its own field to what was
    /// picked, Clear-All clears all three, anything else changes nothing.
    pub open spec fn after(self, action: ActionView) -> TempSettings {
        match Control::of(action.custom_id) {
            Some(Control::ClearAll) => TempSettings::clear_all(),
            Some(control) => match control.column() {
                Some(column) => self.with_field(column, picked(action.kind)),
                None => self,
            },
            None => self,
        }
    }

    /// The record that committing the draft over `current` would give.
    pub open spec fn over(self, current: GuildSettings) -> GuildSettings {
        GuildSettings {
            join_log: self.join.over(current.join_log),
            leave_log: self.leave.over(current.leave_log),
            mod_log: self.mod_log.over(current.mod_log),
        }
    }
}

/// How a channel reference is shown.
pub open spec fn shown(channel: Option<u64>) -> Seq<char> {
    match channel {
        Some(id) => "<#"@ + decimal(id as nat) + ">"@,
        None => "—"@,
    }
}

/// The three-line summary of what the fields would hold.
pub open spec fn summary_text(current: GuildSettings, draft: TempSettings) -> Seq<char> {
    let after = draft.over(current);
    "• Join:  "@ + shown(after.join_log) + "\n• Leave: "@ + shown(after.leave_log)
        + "\n• Mod:   "@ + shown(after.mod_log)
}

/// What the panel shows while it is open.
pub open spec fn prompt_text(current: GuildSettings, draft: TempSettings) -> Seq<char> {
    "Select channels below, then **Save**.\n\n"@ + summary_text(current, draft)
}

/// What the panel shows once the draft is committed and `committed` was read back.
pub open spec fn saved_text(committed: GuildSettings) -> Seq<char> {
    "Saved ✅\n\n"@ + summary_text(committed, TempSettings::keep_all())
}

/// What the panel shows once it was cancelled.
pub open spec fn cancelled_text() -> Seq<char> {
    "Cancelled. No changes were saved."@
}

/// A selector of one channel at most, among text, announcement and forum
/// channels, preset to what its field would hold.
pub open spec fn selector(control: Control, preset: Option<u64>) -> ControlRowView {
    ControlRowView::SelectMenu(
        SelectMenuView {
            custom_id: control.id_text(),
            placeholder: control.label_text(),
            channel_types: seq![ChannelType::Text, ChannelType::News, ChannelType::Forum],
            default_channel: preset,
            min_values: 0,
            max_values: 1,
        },
    )
}

pub open spec fn button(control: Control, style: ButtonStyle) -> ButtonView {
    ButtonView { custom_id: control.id_text(), label: control.label_text(), style }
}

/// The controls of the panel: one selector for each field, then the buttons.
pub open spec fn panel_controls(current: GuildSettings, draft: TempSettings) -> Seq<
    ControlRowView,
> {
    let after = draft.over(current);
    seq![
        selector(Control::Join, after.join_log),
        selector(Control::Leave, after.leave_log),
        selector(Control::ModLog, after.mod_log),
        ControlRowView::Buttons(
            seq![
                button(Control::Save, ButtonStyle::Success),
                button(Control::ClearAll, ButtonStyle::Danger),
                button(Control::Cancel, ButtonStyle::Secondary),
            ],
        ),
    ]
}

/// The write that commits the draft of one field: none where it is kept.
pub open spec fn column_write(guild_id: u64, column: Column, draft: DraftValue) -> Seq<StepView> {
    match draft {
        DraftValue::Keep => Seq::empty(),
        DraftValue::SetTo(id) => seq![
            StepView::required(RequestView::SetColumn { guild_id, column, value: Some(id) }),
        ],
        DraftValue::Clear => seq![
            StepView::required(RequestView::SetColumn { guild_id, column, value: None }),
        ],
    }
}

/// The plan that commits a draft: the record is made sure of, then each field
/// that is not kept is written on its own.
pub open spec fn commit_plan(guild_id: u64, draft: TempSettings) -> Seq<StepView> {
    seq![StepView::required(RequestView::EnsureRow { guild_id })] + column_write(
        guild_id,
        Column::JoinLog,
        draft.join,
    ) + column_write(guild_id, Column::LeaveLog, draft.leave) + column_write(
        guild_id,
        Column::ModLog,
        draft.mod_log,
    )
}

/// The panel of one session.
#[derive(Debug, Clone, Copy)]
pub struct SettingsPanel {
    guild_id: u64,
    author_id: u64,
    current: GuildSettings,
    draft: TempSettings,
}

pub struct PanelView {
    pub guild_id: u64,
    pub author_id: u64,
    pub current: GuildSettings,
    pub draft: TempSettings,
}

impl View for SettingsPanel {
    type V = PanelView;

    closed spec fn view(&self) -> PanelView {
        PanelView {
            guild_id: self.guild_id,
            author_id: self.author_id,
            current: self.current,
            draft: self.draft,
        }
    }
}

impl PanelView {
    /// The panel as it opens: nothing is drafted.
    pub open spec fn fresh(guild_id: u64, author_id: u64, current: GuildSettings) -> PanelView {
        PanelView { guild_id, author_id, current, draft: TempSettings::keep_all() }
    }

    pub open spec fn prompt(self) -> Seq<char> {
        prompt_text(self.current, self.draft)
    }

    pub open spec fn controls(self) -> Seq<ControlRowView> {
        panel_controls(self.current, self.draft)
    }

    /// The first render.
    pub open spec fn on_start(self, ui: UiView) -> Seq<StepView> {
        ui.first_render(self.prompt(), self.controls())
    }

    /// The panel and its reaction after one action. A selector updates the
    /// panel in place; Clear-All resets it; Cancel finishes and writes nothing;
    /// Save commits the draft and reads the record back; an identifier that
    /// routes to no control asks for nothing.
    pub open spec fn on_component(self, ui: UiView, action: ActionView) -> (
        PanelView,
        ReactionView,
    ) {
        let next = PanelView { draft: self.draft.after(action), ..self };
        match Control::of(action.custom_id) {
            None => (next, ReactionView { plan: Seq::empty(), verdict: Verdict::Continue }),
            Some(Control::Cancel) => (
                next,
                ReactionView { plan: ui.finish_with(cancelled_text()), verdict: Verdict::Terminate },
            ),
            Some(Control::Save) => (
                next,
                ReactionView {
                    plan: commit_plan(self.guild_id, self.draft).push(
                        StepView::required(RequestView::ReadSettings { guild_id: self.guild_id }),
                    ),
                    verdict: Verdict::Resume,
                },
            ),
            Some(Control::ClearAll) => (
                next,
                ReactionView {
                    plan: ui.reset_with(next.prompt(), next.controls()),
                    verdict: Verdict::Continue,
                },
            ),
            Some(_) => (
                next,
                ReactionView {
                    plan: ui.update_with(next.prompt(), next.controls()),
                    verdict: Verdict::Continue,
                },
            ),
        }
    }

    /// The panel and its reaction once the committed record was read back
    /// after a save.
    pub open spec fn on_committed(self, ui: UiView, committed: GuildSettings) -> (
        PanelView,
        ReactionView,
    ) {
        (
            PanelView { current: committed, ..self },
            ReactionView { plan: ui.finish_with(saved_text(committed)), verdict: Verdict::Terminate },
        )
    }
}

fn push_shown(out: &mut String, channel: Option<u64>)
    ensures
        final(out)@ == old(out)@ + shown(channel),
{
    match channel {
        Some(id) => {
            out.append("<#");
            push_decimal(out, id);
            out.append(">");
            assert(out@ =~= old(out)@ + shown(channel));
        },
        None => {
            out.append("—");
        },
    }
}

fn selector_row(control: Control, preset: Option<u64>) -> (row: ControlRow)
    ensures
        row@ == selector(control, preset),
{
    let mut channel_types: Vec<ChannelType> = Vec::new();
    channel_types.push(ChannelType::Text);
    channel_types.push(ChannelType::News);
    channel_types.push(ChannelType::Forum);
    assert(channel_types@ =~= seq![ChannelType::Text, ChannelType::News, ChannelType::Forum]);
    ControlRow::SelectMenu(
        SelectMenu {
            custom_id: String::from_str(control.custom_id()),
            placeholder: String::from_str(control.label()),
            channel_types,
            default_channel: preset,
            min_values: 0,
            max_values: 1,
        },
    )
}

fn make_button(control: Control, style: ButtonStyle) -> (b: Button)
    ensures
        b@ == button(control, style),
{
    Button {
        custom_id: String::from_str(control.custom_id()),
        label: String::from_str(control.label()),
        style,
    }
}

impl SettingsPanel {
    /// The panel as it opens over the committed record.
    pub fn new(guild_id: u64, author_id: u64, current: GuildSettings) -> (panel: SettingsPanel)
        ensures
            panel@ == PanelView::fresh(guild_id, author_id, current),
    {
        SettingsPanel {
            guild_id,
            author_id,
            current,
            draft: TempSettings {
                join: DraftValue::Keep,
                leave: DraftValue::Keep,
                mod_log: DraftValue::Keep,
            },
        }
    }

    /// The committed record as the panel last read it.
    pub fn current(&self) -> (current: GuildSettings)
        ensures
            current == self@.current,
    {
        self.current
    }

    /// The draft as it stands.
    pub fn draft(&self) -> (draft: TempSettings)
        ensures
            draft == self@.draft,
    {
        self.draft
    }

    /// The three-line summary of what the fields would hold.
    pub fn render_summary(current: &GuildSettings, draft: &TempSettings) -> (text: String)
        ensures
            text@ == summary_text(*current, *draft),
    {
        let mut text = String::from_str("• Join:  ");
        push_shown(&mut text, draft.join.effective(current.join_log));
        text.append("\n• Leave: ");
        push_shown(&mut text, draft.leave.effective(current.leave_log));
        text.append("\n• Mod:   ");
        push_shown(&mut text, draft.mod_log.effective(current.mod_log));
        assert(text@ =~= summary_text(*current, *draft));
        text
    }

    /// One selector for each field, preset to what the field would hold, then
    /// the Save, Clear All and Cancel buttons.
    pub fn build_components(current: &GuildSettings, draft: &TempSettings) -> (rows: Vec<
        ControlRow,
    >)
        ensures
            rows_view(rows@) == panel_controls(*current, *draft),
    {
        let mut buttons: Vec<Button> = Vec::new();
        buttons.push(make_button(Control::Save, ButtonStyle::Success));
        buttons.push(make_button(Control::ClearAll, ButtonStyle::Danger));
        buttons.push(make_button(Control::Cancel, ButtonStyle::Secondary));
        assert(buttons_view(buttons@) =~= seq![
            button(Control::Save, ButtonStyle::Success),
            button(Control::ClearAll, ButtonStyle::Danger),
            button(Control::Cancel, ButtonStyle::Secondary),
        ]);
        let mut rows: Vec<ControlRow> = Vec::new();
        rows.push(selector_row(Control::Join, draft.join.effective(current.join_log)));
        rows.push(selector_row(Control::Leave, draft.leave.effective(current.leave_log)));
        rows.push(selector_row(Control::ModLog, draft.mod_log.effective(current.mod_log)));
        rows.push(ControlRow::Buttons(buttons));
        assert(rows_view(rows@) =~= panel_controls(*current, *draft));
        rows
    }

    fn prompt(&self) -> (text: String)
        ensures
            text@ == self@.prompt(),
    {
        let mut text = String::from_str("Select channels below, then **Save**.\n\n");
        let summary = Self::render_summary(&self.current, &self.draft);
        text.append(summary.as_str());
        text
    }

    fn handle_select(&mut self, control: Control, action: &Action)
        requires
            control.column() is Some,
            Control::of(action@.custom_id) == Some(control),
        ensures
            final(self)@ == (PanelView { draft: old(self)@.draft.after(action@), ..old(self)@ }),
    {
        let value = match &action.kind {
            ActionKind::ChannelSelect { values } => if values.len() > 0 {
                DraftValue::SetTo(values[0])
            } else {
                DraftValue::Clear
            },
            ActionKind::Other => DraftValue::Clear,
        };
        match control {
            Control::Join => {
                self.draft.join = value;
            },
            Control::Leave => {
                self.draft.leave = value;
            },
            Control::ModLog => {
                self.draft.mod_log = value;
            },
            _ => {},
        }
    }

    fn clear_draft(&mut self)
        ensures
            final(self)@ == (PanelView { draft: TempSettings::clear_all(), ..old(self)@ }),
    {
        self.draft = TempSettings {
            join: DraftValue::Clear,
            leave: DraftValue::Clear,
            mod_log: DraftValue::Clear,
        };
    }

    /// The plan that commits the draft: three independent conditional writes,
    /// never one write of the whole record.
    pub fn apply_changes(&self) -> (plan: Vec<Step>)
        ensures
            plan_view(plan@) == commit_plan(self@.guild_id, self@.draft),
    {
        let guild_id = self.guild_id;
        let mut plan: Vec<Step> = Vec::new();
        plan.push(Step::required(Request::EnsureRow { guild_id }));
        match self.draft.join {
            DraftValue::Keep => {},
            DraftValue::SetTo(id) => {
                plan.push(
                    Step::required(
                        Request::SetColumn { guild_id, column: Column::JoinLog, value: Some(id) },
                    ),
                );
            },
            DraftValue::Clear => {
                plan.push(
                    Step::required(
                        Request::SetColumn { guild_id, column: Column::JoinLog, value: None },
                    ),
                );
            },
        }
        match self.draft.leave {
            DraftValue::Keep => {},
            DraftValue::SetTo(id) => {
                plan.push(
                    Step::required(
                        Request::SetColumn { guild_id, column: Column::LeaveLog, value: Some(id) },
                    ),
                );
            },
            DraftValue::Clear => {
                plan.push(
                    Step::required(
                        Request::SetColumn { guild_id, column: Column::LeaveLog, value: None },
                    ),
                );
            },
        }
        match self.draft.mod_log {
            DraftValue::Keep => {},
            DraftValue::SetTo(id) => {
                plan.push(
                    Step::required(
                        Request::SetColumn { guild_id, column: Column::ModLog, value: Some(id) },
                    ),
                );
            },
            DraftValue::Clear => {
                plan.push(
                    Step::required(
                        Request::SetColumn { guild_id, column: Column::ModLog, value: None },
                    ),
                );
            },
        }
        assert(plan_view(plan@) =~= commit_plan(self@.guild_id, self@.draft));
        plan
    }
}

impl ComponentFlow for SettingsPanel {
    open spec fn owner(&self) -> u64 {
        self@.author_id
    }

    open spec fn scope(&self) -> u64 {
        self@.guild_id
    }

    open spec fn starts(&self, ui: UiView, next: &Self, plan: Seq<StepView>) -> bool {
        next@ == self@ && plan == self@.on_start(ui)
    }

    open spec fn reacts(&self, ui: UiView, action: ActionView, next: &Self, reaction: ReactionView) -> bool {
        (next@, reaction) == self@.on_component(ui, action)
    }

    open spec fn resumes(
        &self,
        ui: UiView,
        settings: GuildSettings,
        next: &Self,
        reaction: ReactionView,
    ) -> bool {
        (next@, reaction) == self@.on_committed(ui, settings)
    }

    fn author_id(&self) -> (id: u64)
        ensures
            id == self@.author_id,
    {
        self.author_id
    }

    fn guild_id(&self) -> (id: u64)
        ensures
            id == self@.guild_id,
    {
        self.guild_id
    }

    fn on_start(&mut self, ui: &UiHandle) -> (plan: Vec<Step>)
        ensures
            final(self)@ == old(self)@,
            plan_view(plan@) == old(self)@.on_start(ui@),
    {
        let content = self.prompt();
        let controls = Self::build_components(&self.current, &self.draft);
        ui.first_render(content, controls)
    }

    fn on_component(&mut self, ui: &UiHandle, action: &Action) -> (reaction: Reaction)
        ensures
            (final(self)@, reaction@) == old(self)@.on_component(ui@, action@),
    {
        match Control::parse(action.custom_id.as_str()) {
            None => {
                let plan: Vec<Step> = Vec::new();
                assert(plan_view(plan@) =~= Seq::<StepView>::empty());
                Reaction { plan, verdict: Verdict::Continue }
            },
            Some(Control::Cancel) => {
                let plan = ui.finish_with(String::from_str("Cancelled. No changes were saved."));
                Reaction { plan, verdict: Verdict::Terminate }
            },
            Some(Control::Save) => {
                let mut plan = self.apply_changes();
                plan.push(Step::required(Request::ReadSettings { guild_id: self.guild_id }));
                assert(plan_view(plan@) =~= commit_plan(self@.guild_id, self@.draft).push(
                    StepView::required(RequestView::ReadSettings { guild_id: self@.guild_id }),
                ));
                Reaction { plan, verdict: Verdict::Resume }
            },
            Some(Control::ClearAll) => {
                self.clear_draft();
                let content = self.prompt();
                let controls = Self::build_components(&self.current, &self.draft);
                Reaction { plan: ui.reset_with(content, controls), verdict: Verdict::Continue }
            },
            Some(control) => {
                self.handle_select(control, action);
                let content = self.prompt();
                let controls = Self::build_components(&self.current, &self.draft);
                Reaction { plan: ui.update_with(content, controls), verdict: Verdict::Continue }
            },
        }
    }

    fn on_committed(&mut self, ui: &UiHandle, settings: GuildSettings) -> (reaction: Reaction)
        ensures
            (final(self)@, reaction@) == old(self)@.on_committed(ui@, settings),
    {
        self.current = settings;
        let mut content = String::from_str("Saved ✅\n\n");
        let keep = TempSettings {
            join: DraftValue::Keep,
            leave: DraftValue::Keep,
            mod_log: DraftValue::Keep,
        };
        let summary = Self::render_summary(&self.current, &keep);
        content.append(summary.as_str());
        Reaction { plan: ui.finish_with(content), verdict: Verdict::Terminate }
    }
}

/// The record of a guild after one step was performed on a store that held
/// `record` for it: a write to one of its columns changes that column and no other.
pub open spec fn store_after_step(guild_id: u64, record: GuildSettings, step: StepView) -> GuildSettings {
    match step.request {
        RequestView::SetColumn { guild_id: written, column, value } => if written == guild_id {
            record.with_column(column, value)
        } else {
            record
        },
        _ => record,
    }
}

/// The record of a guild after a plan was performed in order.
pub open spec fn store_after(guild_id: u64, record: GuildSettings, plan: Seq<StepView>) -> GuildSettings
    decreases plan.len(),
{
    if plan.len() == 0 {
        record
    } else {
        store_after_step(
            guild_id,
            store_after(guild_id, record, plan.drop_last()),
            plan.last(),
        )
    }
}

/// The draft after a run of actions, taken in order.
pub open spec fn draft_after_all(draft: TempSettings, actions: Seq<ActionView>) -> TempSettings
    decreases actions.len(),
{
    if actions.len() == 0 {
        draft
    } else {
        draft_after_all(draft, actions.drop_last()).after(actions.last())
    }
}

/// The action changes a field selector.
pub open spec fn is_selection(action: ActionView) -> bool {
    match Control::of(action.custom_id) {
        Some(control) => control.column() is Some,
        None => false,
    }
}

/// What the last action that picked for `column` picked; to keep, where none did.
pub open spec fn last_pick(actions: Seq<ActionView>, column: Column) -> DraftValue
    decreases actions.len(),
{
    if actions.len() == 0 {
        DraftValue::Keep
    } else {
        let action = actions.last();
        match Control::of(action.custom_id) {
            Some(control) => if control.column() == Some(column) {
                picked(action.kind)
            } else {
                last_pick(actions.drop_last(), column)
            },
            None => last_pick(actions.drop_last(), column),
        }
    }
}

/// Performing one plan after another is performing the two in a row.
pub proof fn lemma_store_after_concat(
    guild_id: u64,
    record: GuildSettings,
    first: Seq<StepView>,
    second: Seq<StepView>,
)
    ensures
        store_after(guild_id, record, first + second) == store_after(
            guild_id,
            store_after(guild_id, record, first),
            second,
        ),
    decreases second.len(),
{
    if second.len() == 0 {
        assert(first + second =~= first);
    } else {
        assert((first + second).drop_last() =~= first + second.drop_last());
        assert((first + second).last() == second.last());
        lemma_store_after_concat(guild_id, record, first, second.drop_last());
    }
}

/// A plan that writes nothing leaves every record as it is.
pub proof fn lemma_untouched_store(guild_id: u64, record: GuildSettings, plan: Seq<StepView>)
    requires
        leaves_store_alone(plan),
    ensures
        store_after(guild_id, record, plan) == record,
    decreases plan.len(),
{
    if plan.len() > 0 {
        assert(forall|i: int|
            0 <= i < plan.drop_last().len() ==> plan.drop_last()[i] == plan[i]);
        lemma_untouched_store(guild_id, record, plan.drop_last());
        assert(plan.last() == plan[plan.len() - 1]);
    }
}

proof fn lemma_column_write(guild_id: u64, record: GuildSettings, column: Column, draft: DraftValue)
    ensures
        store_after(guild_id, record, column_write(guild_id, column, draft)) == record.with_column(
            column,
            draft.over(record.column(column)),
        ),
{
    let plan = column_write(guild_id, column, draft);
    if plan.len() > 0 {
        assert(plan.drop_last().len() == 0);
        assert(store_after(guild_id, record, plan.drop_last()) == record);
    }
}

/// Committing a draft gives each drafted field its drafted value and leaves
/// each kept field with whatever the store held for it when the plan began.
pub proof fn law_commit_is_column_wise(guild_id: u64, stored: GuildSettings, draft: TempSettings)
    ensures
        store_after(guild_id, stored, commit_plan(guild_id, draft)) == draft.over(stored),
{
    let ensure = seq![StepView::required(RequestView::EnsureRow { guild_id })];
    let join = column_write(guild_id, Column::JoinLog, draft.join);
    let leave = column_write(guild_id, Column::LeaveLog, draft.leave);
    let mod_log = column_write(guild_id, Column::ModLog, draft.mod_log);
    assert(ensure.drop_last().len() == 0);
    assert(store_after(guild_id, stored, ensure.drop_last()) == stored);
    assert(store_after(guild_id, stored, ensure) == stored);
    lemma_store_after_concat(guild_id, stored, ensure, join);
    lemma_column_write(guild_id, stored, Column::JoinLog, draft.join);
    let after_join = store_after(guild_id, stored, ensure + join);
    lemma_store_after_concat(guild_id, stored, ensure + join, leave);
    lemma_column_write(guild_id, after_join, Column::LeaveLog, draft.leave);
    let after_leave = store_after(guild_id, stored, ensure + join + leave);
    lemma_store_after_concat(guild_id, stored, ensure + join + leave, mod_log);
    lemma_column_write(guild_id, after_leave, Column::ModLog, draft.mod_log);
}

/// A commit plan writes only to its own guild, only columns whose draft is
/// not to keep, and to each of those the drafted value: a kept column is
/// never written, so what anyone else committed to it in the meantime stays.
pub proof fn law_commit_writes_only_drafted(guild_id: u64, draft: TempSettings, i: int)
    requires
        0 <= i < commit_plan(guild_id, draft).len(),
    ensures
        match commit_plan(guild_id, draft)[i].request {
            RequestView::EnsureRow { guild_id: ensured } => ensured == guild_id,
            RequestView::SetColumn { guild_id: written, column, value } => {
                &&& written == guild_id
                &&& !(draft.field(column) is Keep)
                &&& value == draft.field(column).over(None)
            },
            _ => false,
        },
{
}

/// After any run of selector actions on a fresh panel, the draft of each
/// field is what the last action on that field's selector picked, and to keep
/// where the field's selector was never used.
pub proof fn law_draft_holds_last_picks(actions: Seq<ActionView>, column: Column)
    requires
        forall|i: int| 0 <= i < actions.len() ==> is_selection(#[trigger] actions[i]),
    ensures
        draft_after_all(TempSettings::keep_all(), actions).field(column) == last_pick(
            actions,
            column,
        ),
    decreases actions.len(),
{
    if actions.len() > 0 {
        let before = actions.drop_last();
        assert(forall|i: int| 0 <= i < before.len() ==> before[i] == actions[i]);
        law_draft_holds_last_picks(before, column);
        assert(is_selection(actions[actions.len() - 1]));
    }
}

/// The panel after it has reacted to a run of actions, taken in order; `uis`
/// holds the handle as it stood at each.
pub open spec fn panel_after_all(panel: PanelView, uis: Seq<UiView>, actions: Seq<ActionView>) -> PanelView
    decreases actions.len(),
{
    if actions.len() == 0 || uis.len() != actions.len() {
        panel
    } else {
        panel_after_all(panel, uis.drop_last(), actions.drop_last()).on_component(
            uis.last(),
            actions.last(),
        ).0
    }
}

/// Reacting changes nothing of a panel but its draft, and the draft goes by
/// the actions alone, whatever the handle shows.
pub proof fn law_panel_follows_its_actions(
    panel: PanelView,
    uis: Seq<UiView>,
    actions: Seq<ActionView>,
)
    requires
        uis.len() == actions.len(),
    ensures
        panel_after_all(panel, uis, actions) == (PanelView {
            draft: draft_after_all(panel.draft, actions),
            ..panel
        }),
    decreases actions.len(),
{
    if actions.len() > 0 {
        law_panel_follows_its_actions(panel, uis.drop_last(), actions.drop_last());
    }
}

/// Selector actions followed by Save, on a panel that opened over any record:
/// whatever the store holds when the save begins, afterwards each field holds
/// what was last picked for it, and a field whose selector was never used
/// holds what the store held, also where that is no longer what the panel
/// opened over.
pub proof fn law_save_commits_last_picks(
    guild_id: u64,
    author_id: u64,
    opened_over: GuildSettings,
    uis: Seq<UiView>,
    actions: Seq<ActionView>,
    ui: UiView,
    save: ActionView,
    stored: GuildSettings,
    column: Column,
)
    requires
        uis.len() == actions.len(),
        forall|i: int| 0 <= i < actions.len() ==> is_selection(#[trigger] actions[i]),
        Control::of(save.custom_id) == Some(Control::Save),
    ensures
        panel_after_all(
            PanelView::fresh(guild_id, author_id, opened_over),
            uis,
            actions,
        ).on_component(ui, save).1.verdict == Verdict::Resume,
        store_after(
            guild_id,
            stored,
            panel_after_all(
                PanelView::fresh(guild_id, author_id, opened_over),
                uis,
                actions,
            ).on_component(ui, save).1.plan,
        ).column(column) == last_pick(actions, column).over(stored.column(column)),
{
    let fresh = PanelView::fresh(guild_id, author_id, opened_over);
    let panel = panel_after_all(fresh, uis, actions);
    law_panel_follows_its_actions(fresh, uis, actions);
    law_draft_holds_last_picks(actions, column);
    law_commit_is_column_wise(guild_id, stored, panel.draft);
    let commit = commit_plan(guild_id, panel.draft);
    let read = seq![StepView::required(RequestView::ReadSettings { guild_id })];
    assert(panel.on_component(ui, save).1.plan =~= commit + read);
    lemma_store_after_concat(guild_id, stored, commit, read);
    assert(leaves_store_alone(read));
    lemma_untouched_store(guild_id, store_after(guild_id, stored, commit), read);
}

/// Clear-All and then Save clears all three fields, whatever the draft and
/// the store held before.
pub proof fn law_clear_all_then_save(
    panel: PanelView,
    ui_at_clear: UiView,
    ui_at_save: UiView,
    clear: ActionView,
    save: ActionView,
    stored: GuildSettings,
)
    requires
        Control::of(clear.custom_id) == Some(Control::ClearAll),
        Control::of(save.custom_id) == Some(Control::Save),
    ensures
        store_after(
            panel.guild_id,
            stored,
            panel.on_component(ui_at_clear, clear).0.on_component(ui_at_save, save).1.plan,
        ) == GuildSettings::unset(),
{
    let cleared = panel.on_component(ui_at_clear, clear).0;
    assert(cleared.draft == TempSettings::clear_all());
    law_commit_is_column_wise(panel.guild_id, stored, cleared.draft);
    let commit = commit_plan(panel.guild_id, cleared.draft);
    let read = seq![StepView::required(RequestView::ReadSettings { guild_id: panel.guild_id })];
    assert(cleared.on_component(ui_at_save, save).1.plan =~= commit + read);
    lemma_store_after_concat(panel.guild_id, stored, commit, read);
    assert(leaves_store_alone(read));
    lemma_untouched_store(panel.guild_id, store_after(panel.guild_id, stored, commit), read);
}

/// Clear-All on a detached surface that shows a message: where the deletion
/// of that message went through, at no point of the reaction's plan are two
/// messages live, and once the plan has settled the one live message is the
/// new one, which the session has adopted.
pub proof fn law_clear_all_keeps_one_message(
    panel: PanelView,
    ui: UiView,
    clear: ActionView,
    outcomes: Seq<Outcome>,
    upto: int,
)
    requires
        Control::of(clear.custom_id) == Some(Control::ClearAll),
        ui.surface is DetachedMessage,
        ui.message_id is Some,
        0 <= upto <= 3,
        outcomes.len() == 3,
        outcomes[1] is Done,
    ensures
        panel.on_component(ui, clear).1.verdict == Verdict::Continue,
        at_most_one(
            live_through(
                set![ui.message_id->0],
                panel.on_component(ui, clear).1.plan,
                outcomes,
                upto,
            ),
        ),
        ui.settle(panel.on_component(ui, clear).1.plan, outcomes).1 is Ok ==> exists|id: u64|
            {
                &&& outcomes[2] == Outcome::Created(id)
                &&& ui.settle(panel.on_component(ui, clear).1.plan, outcomes).0.message_id
                    == Some(id)
                &&& #[trigger] live_through(
                    set![ui.message_id->0],
                    panel.on_component(ui, clear).1.plan,
                    outcomes,
                    3,
                ) =~= set![id]
            },
{
    let next = panel.on_component(ui, clear).0;
    law_reset_keeps_one_message(ui, next.prompt(), next.controls(), outcomes, upto);
}

/// Nothing but Save writes: the first render, the reaction to any other
/// action and the render after a save leave every record as it is.
pub proof fn law_only_save_writes(
    panel: PanelView,
    ui: UiView,
    action: ActionView,
    committed: GuildSettings,
    guild_id: u64,
    stored: GuildSettings,
)
    requires
        Control::of(action.custom_id) != Some(Control::Save),
    ensures
        leaves_store_alone(panel.on_start(ui)),
        leaves_store_alone(panel.on_component(ui, action).1.plan),
        leaves_store_alone(panel.on_committed(ui, committed).1.plan),
        store_after(guild_id, stored, panel.on_component(ui, action).1.plan) == stored,
{
    lemma_untouched_store(guild_id, stored, panel.on_component(ui, action).1.plan);
}

/// Cancel ends the session with the one render that says so and asks for no
/// write: whatever was drafted, every record stays as it is.
pub proof fn law_cancel_commits_nothing(
    panel: PanelView,
    ui: UiView,
    cancel: ActionView,
    guild_id: u64,
    stored: GuildSettings,
)
    requires
        Control::of(cancel.custom_id) == Some(Control::Cancel),
    ensures
        panel.on_component(ui, cancel).1.verdict == Verdict::Terminate,
        panel.on_component(ui, cancel).1.plan == ui.finish_with(cancelled_text()),
        leaves_store_alone(panel.on_component(ui, cancel).1.plan),
        store_after(guild_id, stored, panel.on_component(ui, cancel).1.plan) == stored,
{
    lemma_untouched_store(guild_id, stored, panel.on_component(ui, cancel).1.plan);
}

} // verus!
