use orchestrator::tui::{
    drain_events, handle_key, handle_ui_event, spinner_frame, ActionState, AppState, Focus,
    KeyInput, RepoStatusRow, UiEvent,
};

fn set_step(title: &str, body: &str) -> UiEvent {
    UiEvent::SetStep { title: title.to_string(), body: body.to_string() }
}

#[test]
fn initial_state_is_healthy_and_idle() {
    let s = AppState::new();
    assert_eq!(s.step_title, "Initializing");
    assert_eq!(s.step_body, "Starting orchestrator\u{2026}");
    assert_eq!(s.ok_msg, "OK");
    assert!(s.error_msg.is_none());
    assert!(s.repos.is_empty());
    assert_eq!(s.focus, Focus::Off);
    assert!(s.finished.is_none());
}

#[test]
fn events_apply_in_emission_order() {
    let mut s = AppState::new();
    handle_ui_event(&mut s, set_step("Preflight", "checking"));
    handle_ui_event(&mut s, UiEvent::UpdateBody { body: "fetching".to_string() });
    assert_eq!(s.step_title, "Preflight");
    assert_eq!(s.step_body, "fetching");
    assert_eq!(s.step_epoch, 1);
    handle_ui_event(&mut s, set_step("Tagging", "tag=v1"));
    assert_eq!(s.step_epoch, 2);
    assert_eq!(s.step_body, "tag=v1");
}

#[test]
fn draining_in_batches_equals_draining_at_once() {
    let events = vec![
        set_step("A", "a"),
        UiEvent::SetError { msg: "boom".to_string() },
        UiEvent::UpdateBody { body: "b".to_string() },
        UiEvent::SetOk { msg: "fine".to_string() },
        UiEvent::Finished { ok: true },
    ];

    let mut all_at_once = AppState::new();
    drain_events(&mut all_at_once, events.clone());

    let mut batched = AppState::new();
    drain_events(&mut batched, events[..2].to_vec());
    drain_events(&mut batched, events[2..].to_vec());

    assert_eq!(all_at_once.step_title, batched.step_title);
    assert_eq!(all_at_once.step_body, batched.step_body);
    assert_eq!(all_at_once.step_epoch, batched.step_epoch);
    assert_eq!(all_at_once.ok_msg, batched.ok_msg);
    assert_eq!(all_at_once.error_msg, batched.error_msg);
    assert_eq!(all_at_once.finished, batched.finished);
}

#[test]
fn error_is_sticky_until_step_or_ok() {
    let mut s = AppState::new();
    handle_ui_event(&mut s, UiEvent::SetError { msg: "boom".to_string() });
    handle_ui_event(&mut s, UiEvent::UpdateBody { body: "still going".to_string() });
    assert_eq!(s.error_msg.as_deref(), Some("boom"));
    handle_ui_event(&mut s, UiEvent::SetOk { msg: "healthy".to_string() });
    assert!(s.error_msg.is_none());
    handle_ui_event(&mut s, UiEvent::SetError { msg: "boom2".to_string() });
    handle_ui_event(&mut s, set_step("Next", ""));
    assert!(s.error_msg.is_none());
}

#[test]
fn failed_finish_keeps_the_error_visible() {
    let mut s = AppState::new();
    handle_ui_event(&mut s, UiEvent::SetError { msg: "boom".to_string() });
    handle_ui_event(&mut s, UiEvent::Finished { ok: false });
    assert_eq!(s.error_msg.as_deref(), Some("boom"));
    assert_eq!(s.finished, Some(false));
    handle_ui_event(&mut s, UiEvent::Finished { ok: true });
    assert!(s.error_msg.is_none());
}

#[test]
fn blank_healthy_message_becomes_plain_ok() {
    let mut s = AppState::new();
    handle_ui_event(&mut s, UiEvent::SetOk { msg: "all good".to_string() });
    assert_eq!(s.ok_msg, "all good");
    handle_ui_event(&mut s, UiEvent::SetOk { msg: "  \t ".to_string() });
    assert_eq!(s.ok_msg, "OK");
    handle_ui_event(&mut s, UiEvent::SetOk { msg: String::new() });
    assert_eq!(s.ok_msg, "OK");
}

#[test]
fn successful_finish_sets_the_done_text() {
    let mut s = AppState::new();
    handle_ui_event(&mut s, UiEvent::SetOk { msg: "healthy".to_string() });
    handle_ui_event(&mut s, UiEvent::Finished { ok: true });
    assert_eq!(s.finished, Some(true));
    assert_eq!(s.ok_msg, "DONE \u{2014} press q to exit");
    // A failed finish leaves the status text alone.
    let mut f = AppState::new();
    handle_ui_event(&mut f, UiEvent::Finished { ok: false });
    assert_eq!(f.ok_msg, "OK");
}

#[test]
fn repo_rows_replace_wholesale() {
    let mut s = AppState::new();
    let rows = vec![RepoStatusRow {
        name: "truthdb".to_string(),
        action: ActionState::Success,
        latest_release: Some("v1.0.0".to_string()),
        ahead_by: Some(3),
        loading: false,
    }];
    handle_ui_event(&mut s, UiEvent::SetRepos { rows });
    assert_eq!(s.repos.len(), 1);
    assert_eq!(s.repos[0].name, "truthdb");
    assert_eq!(s.repos[0].ahead_by, Some(3));
}

#[test]
fn keys_scroll_help_only_when_focused() {
    let mut s = AppState::new();
    assert!(!handle_key(&mut s, KeyInput::ScrollDown));
    assert_eq!(s.help_scroll, 0);
    assert!(!handle_key(&mut s, KeyInput::ToggleHelp));
    assert_eq!(s.focus, Focus::Help);
    handle_key(&mut s, KeyInput::ScrollDown);
    handle_key(&mut s, KeyInput::PageDown);
    assert_eq!(s.help_scroll, 11);
    handle_key(&mut s, KeyInput::PageUp);
    assert_eq!(s.help_scroll, 1);
    handle_key(&mut s, KeyInput::ScrollUp);
    handle_key(&mut s, KeyInput::ScrollUp);
    assert_eq!(s.help_scroll, 0);
    assert!(handle_key(&mut s, KeyInput::Quit));
}

#[test]
fn spinner_advances_every_eighty_milliseconds() {
    assert_eq!(spinner_frame(0), spinner_frame(79));
    assert_ne!(spinner_frame(0), spinner_frame(80));
    assert_eq!(spinner_frame(0), spinner_frame(800));
}
