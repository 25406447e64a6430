use guildlog::flows::settings_panel::{Control, DraftValue, SettingsPanel, TempSettings};
use guildlog::flows::{
    Action, ActionKind, ButtonStyle, ChannelType, ComponentFlow, ControlRow, FlowError, Outcome,
    Phase, Request, Runner, Step, Surface, UiHandle, Verdict,
};
use guildlog::settings::GuildSettings;

fn detached() -> Surface {
    Surface::DetachedMessage { channel_id: 9 }
}

fn action(id: &str, author: u64, guild: Option<u64>, message: u64) -> Action {
    Action {
        custom_id: id.to_string(),
        kind: ActionKind::Other,
        author_id: author,
        guild_id: guild,
        message_id: message,
    }
}

#[test]
fn first_render_replies_or_sends() {
    let ui = UiHandle::new(Surface::AttachedEphemeral);
    let plan = ui.first_render("hi".to_string(), Vec::new());
    assert_eq!(plan.len(), 1);
    assert!(matches!(&plan[0].request, Request::Reply { content, controls } if content == "hi" && controls.is_empty()));
    assert!(plan[0].required && !plan[0].adopts);

    let ui = UiHandle::new(detached());
    let plan = ui.first_render("hi".to_string(), Vec::new());
    assert_eq!(plan.len(), 1);
    assert!(matches!(&plan[0].request, Request::SendMessage { channel_id: 9, content, .. } if content == "hi"));
    assert!(plan[0].required && plan[0].adopts);
}

#[test]
fn settling_adopts_the_created_message() {
    let mut ui = UiHandle::new(detached());
    assert_eq!(ui.message_id(), None);
    assert!(ui.deletes_on_finish());
    let plan = ui.first_render("hi".to_string(), Vec::new());
    assert_eq!(ui.settle(&plan, &vec![Outcome::Created(77)]), Ok(()));
    assert_eq!(ui.message_id(), Some(77));
    assert_eq!(ui.surface(), detached());

    let mut attached = UiHandle::new(Surface::AttachedEphemeral);
    let plan = vec![Step::adopting(Request::Acknowledge)];
    assert_eq!(attached.settle(&plan, &vec![Outcome::Created(5)]), Ok(()));
    assert_eq!(attached.message_id(), None);
}

#[test]
fn settling_stops_at_the_first_required_failure() {
    let mut ui = UiHandle::new(detached());
    let plan = vec![
        Step::best_effort(Request::Acknowledge),
        Step::adopting(Request::SendMessage { channel_id: 9, content: String::new(), controls: Vec::new() }),
        Step::required(Request::Acknowledge),
        Step::adopting(Request::SendMessage { channel_id: 9, content: String::new(), controls: Vec::new() }),
    ];
    let outcomes = vec![Outcome::Failed, Outcome::Created(3), Outcome::Failed, Outcome::Created(4)];
    assert_eq!(ui.settle(&plan, &outcomes), Err(FlowError::Rejected { step: 2 }));
    assert_eq!(ui.message_id(), Some(3));
    let mut ui = UiHandle::new(detached());
    assert_eq!(ui.settle(&plan, &vec![Outcome::Done]), Err(FlowError::Unanswered { step: 1 }));
    assert_eq!(ui.settle(&plan, &vec![Outcome::Done, Outcome::Done]), Err(FlowError::Rejected { step: 1 }));
    assert_eq!(ui.message_id(), None);
    assert_eq!(ui.settle(&Vec::new(), &vec![Outcome::Failed]), Ok(()));
}

#[test]
fn reset_deletes_before_it_creates() {
    let mut ui = UiHandle::new(detached());
    let plan = ui.reset_with("a".to_string(), Vec::new());
    assert_eq!(plan.len(), 2);
    assert!(matches!(plan[0].request, Request::Acknowledge));
    assert!(matches!(plan[1].request, Request::SendMessage { channel_id: 9, .. }));
    assert_eq!(ui.settle(&plan, &vec![Outcome::Failed, Outcome::Created(10)]), Ok(()));

    let plan = ui.reset_with("b".to_string(), Vec::new());
    assert_eq!(plan.len(), 3);
    assert!(matches!(plan[0].request, Request::Acknowledge));
    assert!(!plan[0].required);
    assert!(matches!(plan[1].request, Request::DeleteMessage { channel_id: 9, message_id: 10 }));
    assert!(!plan[1].required);
    assert!(matches!(&plan[2].request, Request::SendMessage { channel_id: 9, content, .. } if content == "b"));
    assert!(plan[2].required && plan[2].adopts);
    assert_eq!(ui.settle(&plan, &vec![Outcome::Done, Outcome::Failed, Outcome::Created(11)]), Ok(()));
    assert_eq!(ui.message_id(), Some(11));

    let attached = UiHandle::new(Surface::AttachedEphemeral);
    let plan = attached.reset_with("c".to_string(), Vec::new());
    assert_eq!(plan.len(), 3);
    assert!(matches!(plan[1].request, Request::DeleteResponse));
    assert!(matches!(&plan[2].request, Request::Followup { content, .. } if content == "c"));
    assert!(plan[2].required && !plan[2].adopts);
}

#[test]
fn update_finish_and_acknowledge() {
    let ui = UiHandle::new(Surface::AttachedEphemeral);
    let plan = ui.update_with("u".to_string(), SettingsPanel::build_components(&GuildSettings::default(), &TempSettings::default()));
    assert_eq!(plan.len(), 1);
    assert!(matches!(&plan[0].request, Request::UpdateMessage { content, controls } if content == "u" && controls.len() == 4));
    assert!(plan[0].required);
    let plan = ui.finish_with("f".to_string());
    assert!(matches!(&plan[0].request, Request::UpdateMessage { content, controls } if content == "f" && controls.is_empty()));
    assert!(plan[0].required);
    let plan = ui.acknowledge();
    assert_eq!(plan.len(), 1);
    assert!(matches!(plan[0].request, Request::Acknowledge));
    assert!(!plan[0].required);
}

#[test]
fn cleanup_deletes_the_detached_message_if_asked() {
    let mut ui = UiHandle::new(detached());
    assert!(ui.cleanup().is_empty());
    let plan = ui.first_render(String::new(), Vec::new());
    ui.settle(&plan, &vec![Outcome::Created(31)]).unwrap();
    let cleanup = ui.cleanup();
    assert_eq!(cleanup.len(), 1);
    assert!(matches!(cleanup[0].request, Request::DeleteMessage { channel_id: 9, message_id: 31 }));
    assert!(!cleanup[0].required);
    let kept = ui.delete_on_finish(false);
    assert!(!kept.deletes_on_finish());
    assert_eq!(kept.message_id(), Some(31));
    assert!(kept.cleanup().is_empty());
    assert!(UiHandle::new(Surface::AttachedEphemeral).cleanup().is_empty());
}

#[test]
fn step_outcomes() {
    let plain = Step::required(Request::Acknowledge);
    assert!(plain.met_by(Outcome::Done));
    assert!(plain.met_by(Outcome::Created(1)));
    assert!(plain.met_by(Outcome::Settings(GuildSettings::default())));
    assert!(!plain.met_by(Outcome::Failed));
    let adopting = Step::adopting(Request::Acknowledge);
    assert!(adopting.met_by(Outcome::Created(1)));
    assert!(!adopting.met_by(Outcome::Done));
    assert!(!adopting.met_by(Outcome::Failed));
}

#[test]
fn runner_takes_only_its_owners_actions() {
    let mut runner = Runner::new(detached(), 42, 7, 30, true);
    assert_eq!(runner.phase(), Phase::Initializing);
    assert_eq!(runner.timeout_secs(), 30);
    assert_eq!(runner.result(), None);
    assert!(!runner.accepts(&action("x", 42, Some(7), 50)));
    let plan = runner.ui().first_render(String::new(), Vec::new());
    assert!(runner.started(&plan, &vec![Outcome::Created(50)]).is_empty());
    assert_eq!(runner.phase(), Phase::AwaitingAction);
    assert_eq!(runner.watched_message(), Some(50));
    assert!(runner.accepts(&action("x", 42, Some(7), 50)));
    assert!(!runner.accepts(&action("x", 43, Some(7), 50)));
    assert!(!runner.accepts(&action("x", 42, Some(8), 50)));
    assert!(!runner.accepts(&action("x", 42, None, 50)));
    assert!(!runner.accepts(&action("x", 42, Some(7), 51)));
}

#[test]
fn a_watched_message_goes_stale_after_a_reset() {
    let mut runner = Runner::new(detached(), 42, 7, 30, true);
    let plan = runner.ui().first_render(String::new(), Vec::new());
    runner.started(&plan, &vec![Outcome::Created(50)]);
    let plan = runner.ui().reset_with(String::new(), Vec::new());
    runner.reacted(&plan, &vec![Outcome::Done, Outcome::Done, Outcome::Created(51)], Verdict::Continue);
    assert_eq!(runner.ui().message_id(), Some(51));
    assert_eq!(runner.watched_message(), Some(50));
    assert!(!runner.accepts(&action("x", 42, Some(7), 51)));

    let mut open = Runner::new(detached(), 42, 7, 30, false);
    let plan = open.ui().first_render(String::new(), Vec::new());
    open.started(&plan, &vec![Outcome::Created(50)]);
    assert_eq!(open.watched_message(), None);
    assert!(open.accepts(&action("x", 42, Some(7), 51)));
}

#[test]
fn attached_sessions_never_filter_by_message() {
    let mut runner = Runner::new(Surface::AttachedEphemeral, 42, 7, 30, true);
    let plan = runner.ui().first_render(String::new(), Vec::new());
    runner.started(&plan, &vec![Outcome::Done]);
    assert_eq!(runner.watched_message(), None);
    assert!(runner.accepts(&action("x", 42, Some(7), 12345)));
}

#[test]
fn a_failed_reaction_ends_the_session_with_cleanup() {
    let mut runner = Runner::new(detached(), 42, 7, 30, false);
    let plan = runner.ui().first_render(String::new(), Vec::new());
    runner.started(&plan, &vec![Outcome::Created(50)]);
    let plan = runner.ui().update_with(String::new(), Vec::new());
    let cleanup = runner.reacted(&plan, &vec![Outcome::Failed], Verdict::Continue);
    assert_eq!(cleanup.len(), 1);
    assert!(matches!(cleanup[0].request, Request::DeleteMessage { channel_id: 9, message_id: 50 }));
    assert_eq!(runner.result(), Some(Err(FlowError::Rejected { step: 0 })));
    assert!(runner.reacted(&plan, &vec![Outcome::Done], Verdict::Continue).is_empty());
    assert!(runner.timed_out().is_empty());
    assert!(runner.started(&plan, &vec![Outcome::Done]).is_empty());
    assert_eq!(runner.phase(), Phase::Finished);
}

#[test]
fn a_resumed_reaction_waits_for_the_record() {
    let record = GuildSettings { join_log: Some(4), leave_log: None, mod_log: None };
    let mut panel = SettingsPanel::new(7, 42, GuildSettings::default());
    let mut runner = Runner::open(Surface::AttachedEphemeral, &panel, 30, false);
    let plan = runner.begin(&mut panel).unwrap();
    runner.started(&plan, &vec![Outcome::Done]);
    assert!(runner.dispatch(&mut panel, &action("settings_save", 41, Some(7), 1)).is_none());
    let save = runner.dispatch(&mut panel, &action("settings_save", 42, Some(7), 1)).unwrap();
    assert_eq!(save.verdict, Verdict::Resume);
    let outcomes = vec![Outcome::Done, Outcome::Settings(record)];
    assert_eq!(runner.phase(), Phase::Reacting);
    assert!(runner.timed_out().is_empty());
    assert!(runner.resume(&mut panel, &outcomes).is_none());
    assert!(runner.reacted(&save.plan, &outcomes, save.verdict).is_empty());
    assert_eq!(runner.phase(), Phase::AwaitingData);
    assert!(!runner.accepts(&action("x", 42, Some(7), 1)));
    assert!(runner.timed_out().is_empty());
    assert_eq!(runner.phase(), Phase::AwaitingData);
    assert!(runner.resume(&mut panel, &vec![Outcome::Done]).is_none());
    let done = runner.resume(&mut panel, &outcomes).unwrap();
    assert_eq!(runner.phase(), Phase::Reacting);
    assert_eq!(done.verdict, Verdict::Terminate);
    assert_eq!(panel.current(), record);
    assert!(runner.reacted(&done.plan, &vec![Outcome::Done], done.verdict).is_empty());
    assert_eq!(runner.result(), Some(Ok(())));
}

#[test]
fn a_resumed_reaction_that_read_nothing_ends_the_session() {
    let mut runner = Runner::new(Surface::AttachedEphemeral, 42, 7, 30, false);
    let plan = runner.ui().first_render(String::new(), Vec::new());
    runner.started(&plan, &vec![Outcome::Done]);
    assert!(runner.reacted(&Vec::new(), &vec![Outcome::Done], Verdict::Resume).is_empty());
    assert_eq!(runner.phase(), Phase::Finished);
    assert_eq!(runner.result(), Some(Err(FlowError::NothingRead)));
}

#[test]
fn controls_route_by_identifier() {
    for control in [Control::Join, Control::Leave, Control::ModLog, Control::Save, Control::ClearAll, Control::Cancel] {
        assert_eq!(Control::parse(control.custom_id()), Some(control));
    }
    assert_eq!(Control::parse("settings_join"), Some(Control::Join));
    assert_eq!(Control::parse("settings_leave"), Some(Control::Leave));
    assert_eq!(Control::parse("settings_mod"), Some(Control::ModLog));
    assert_eq!(Control::parse("settings_save"), Some(Control::Save));
    assert_eq!(Control::parse("settings_clear"), Some(Control::ClearAll));
    assert_eq!(Control::parse("settings_cancel"), Some(Control::Cancel));
    assert_eq!(Control::parse("settings"), None);
    assert_eq!(Control::parse(""), None);
    assert_eq!(Control::Save.label(), "Save");
    assert_eq!(Control::ClearAll.label(), "Clear All");
    assert_eq!(Control::Join.label(), "Select Join log channel");
}

#[test]
fn summary_shows_what_the_fields_would_hold() {
    let current = GuildSettings { join_log: Some(1), leave_log: Some(2), mod_log: None };
    let draft = TempSettings { join: DraftValue::Keep, leave: DraftValue::Clear, mod_log: DraftValue::SetTo(30) };
    assert_eq!(
        SettingsPanel::render_summary(&current, &draft),
        "• Join:  <#1>\n• Leave: —\n• Mod:   <#30>"
    );
    assert_eq!(DraftValue::default(), DraftValue::Keep);
    assert_eq!(DraftValue::Keep.effective(Some(4)), Some(4));
    assert_eq!(DraftValue::Clear.effective(Some(4)), None);
    assert_eq!(DraftValue::SetTo(5).effective(None), Some(5));
}

#[test]
fn components_are_three_selectors_and_three_buttons() {
    let current = GuildSettings { join_log: Some(1), leave_log: Some(2), mod_log: None };
    let draft = TempSettings { join: DraftValue::Keep, leave: DraftValue::Clear, mod_log: DraftValue::SetTo(30) };
    let rows = SettingsPanel::build_components(&current, &draft);
    assert_eq!(rows.len(), 4);
    let expect = [("settings_join", "Select Join log channel", Some(1)), ("settings_leave", "Select Leave log channel", None), ("settings_mod", "Select Mod log channel", Some(30))];
    for (row, (id, placeholder, preset)) in rows.iter().zip(expect) {
        match row {
            ControlRow::SelectMenu(menu) => {
                assert_eq!(menu.custom_id, id);
                assert_eq!(menu.placeholder, placeholder);
                assert_eq!(menu.default_channel, preset);
                assert_eq!(menu.channel_types, vec![ChannelType::Text, ChannelType::News, ChannelType::Forum]);
                assert_eq!((menu.min_values, menu.max_values), (0, 1));
            }
            ControlRow::Buttons(_) => panic!("a selector was expected"),
        }
    }
    match &rows[3] {
        ControlRow::Buttons(buttons) => {
            let got: Vec<(&str, &str, ButtonStyle)> = buttons.iter().map(|b| (b.custom_id.as_str(), b.label.as_str(), b.style)).collect();
            assert_eq!(got, vec![
                ("settings_save", "Save", ButtonStyle::Success),
                ("settings_clear", "Clear All", ButtonStyle::Danger),
                ("settings_cancel", "Cancel", ButtonStyle::Secondary),
            ]);
        }
        ControlRow::SelectMenu(_) => panic!("buttons were expected"),
    }
}

#[test]
fn panel_reacts_to_each_control() {
    let current = GuildSettings { join_log: Some(1), leave_log: None, mod_log: None };
    let mut panel = SettingsPanel::new(7, 42, current);
    assert_eq!((panel.guild_id(), panel.author_id()), (7, 42));
    let ui = UiHandle::new(Surface::AttachedEphemeral);
    let start = panel.on_start(&ui);
    assert!(matches!(&start[0].request, Request::Reply { content, controls }
        if content == "Select channels below, then **Save**.\n\n• Join:  <#1>\n• Leave: —\n• Mod:   —" && controls.len() == 4));

    let mut pick = action("settings_mod", 42, Some(7), 0);
    pick.kind = ActionKind::ChannelSelect { values: vec![88, 99] };
    let reaction = panel.on_component(&ui, &pick);
    assert_eq!(reaction.verdict, Verdict::Continue);
    assert_eq!(panel.draft().mod_log, DraftValue::SetTo(88));
    assert!(matches!(&reaction.plan[0].request, Request::UpdateMessage { content, .. }
        if content == "Select channels below, then **Save**.\n\n• Join:  <#1>\n• Leave: —\n• Mod:   <#88>"));

    let unreadable = panel.on_component(&ui, &action("settings_leave", 42, Some(7), 0));
    assert_eq!(unreadable.verdict, Verdict::Continue);
    assert_eq!(unreadable.plan.len(), 1);
    assert_eq!(panel.draft().leave, DraftValue::Clear);
    assert_eq!(panel.draft().join, DraftValue::Keep);

    let unknown = panel.on_component(&ui, &action("something_else", 42, Some(7), 0));
    assert_eq!(unknown.verdict, Verdict::Continue);
    assert!(unknown.plan.is_empty());
    assert_eq!(panel.draft(), TempSettings { join: DraftValue::Keep, leave: DraftValue::Clear, mod_log: DraftValue::SetTo(88) });

    let save = panel.on_component(&ui, &action("settings_save", 42, Some(7), 0));
    assert_eq!(save.verdict, Verdict::Resume);
    assert_eq!(save.plan.len(), 4);
    assert!(matches!(save.plan[0].request, Request::EnsureRow { guild_id: 7 }));
    assert!(matches!(save.plan[1].request, Request::SetColumn { guild_id: 7, column: guildlog::settings::Column::LeaveLog, value: None }));
    assert!(matches!(save.plan[2].request, Request::SetColumn { guild_id: 7, column: guildlog::settings::Column::ModLog, value: Some(88) }));
    assert!(matches!(save.plan[3].request, Request::ReadSettings { guild_id: 7 }));
    assert!(save.plan.iter().all(|s| s.required));

    let fresh = GuildSettings { join_log: None, leave_log: Some(3), mod_log: Some(88) };
    let done = panel.on_committed(&ui, fresh);
    assert_eq!(done.verdict, Verdict::Terminate);
    assert_eq!(panel.current(), fresh);
    assert!(matches!(&done.plan[0].request, Request::UpdateMessage { content, controls }
        if content == "Saved ✅\n\n• Join:  —\n• Leave: <#3>\n• Mod:   <#88>" && controls.is_empty()));
}

#[test]
fn commit_plan_skips_kept_fields() {
    let panel = SettingsPanel::new(7, 42, GuildSettings::default());
    let plan = panel.apply_changes();
    assert_eq!(plan.len(), 1);
    assert!(matches!(plan[0].request, Request::EnsureRow { guild_id: 7 }));
}

#[test]
fn the_last_reading_is_the_record() {
    let a = GuildSettings { join_log: Some(1), leave_log: None, mod_log: None };
    let b = GuildSettings { join_log: None, leave_log: Some(2), mod_log: None };
    assert_eq!(guildlog::flows::settings_read(&vec![]), None);
    assert_eq!(guildlog::flows::settings_read(&vec![Outcome::Done, Outcome::Failed]), None);
    assert_eq!(
        guildlog::flows::settings_read(&vec![Outcome::Settings(a), Outcome::Settings(b), Outcome::Done]),
        Some(b)
    );
}
