//! Tests of the command dispatcher decisions, configuration updates,
//! error rendering, and key handling.

use svn_dash::app::{App, AppEvent, AppSection, AppState, KeyCode};
use svn_dash::command::{command_outcome, svn_subcommand, Action, CmdResult, Outcome};
use svn_dash::config::{Config, ConfigSource};
use svn_dash::svn::error::Error;

#[test]
fn outcome_routes_success_to_refresh() {
    let ok = CmdResult(true, String::from("all good"), String::new());
    assert_eq!(Outcome::Refresh, command_outcome(&ok));
    assert!(ok.success());
    assert_eq!("all good", ok.output());
}

#[test]
fn outcome_routes_failure_to_message() {
    let failed = CmdResult(false, String::new(), String::from("E155007: not a working copy"));
    assert_eq!(
        Outcome::Message(String::from("E155007: not a working copy")),
        command_outcome(&failed)
    );
    assert!(!failed.success());
    assert_eq!("E155007: not a working copy", failed.output());
}

#[test]
fn actions_map_to_subcommands() {
    assert_eq!(Some("remove"), svn_subcommand(Action::Delete));
    assert_eq!(Some("revert"), svn_subcommand(Action::Revert));
    assert_eq!(Some("commit"), svn_subcommand(Action::Commit));
    assert_eq!(Some("add"), svn_subcommand(Action::Add));
    assert_eq!(None, svn_subcommand(Action::Open));
}

#[test]
fn config_updates_from_source() {
    let mut c = Config::default();
    assert_eq!(2, c.svn_status_timeout);
    c.update(ConfigSource { svn_timeout: None });
    assert_eq!(2, c.svn_status_timeout);
    c.update(ConfigSource { svn_timeout: Some(9) });
    assert_eq!(9, c.svn_status_timeout);
}

#[test]
fn error_messages_render() {
    assert_eq!(
        "failed to parse URL from svn info",
        Error::BranchParseFailure.message()
    );
    assert_eq!(
        "Not svn controlled: /tmp/x",
        Error::PathNotUnderVersionControl(String::from("/tmp/x")).message()
    );
    assert_eq!(
        "Unrecognised status: Z",
        Error::UnrecognisedStatus(String::from("Z")).message()
    );
    assert_eq!("boom", Error::Unknown(String::from("boom")).message());
    assert_eq!("io trouble", Error::Io(String::from("io trouble")).message());
    match Error::from_message("unknown issue with svn") {
        Error::Unknown(m) => assert_eq!("unknown issue with svn", m),
        other => panic!("expected Unknown, got {other:?}"),
    }
}

#[test]
fn unrecognised_status_never_compares_equal() {
    let a = Error::UnrecognisedStatus(String::from("Z"));
    let b = Error::UnrecognisedStatus(String::from("Z"));
    assert!(a != b);
    assert_eq!(Error::BranchParseFailure, Error::BranchParseFailure);
    assert_eq!(
        Error::Unknown(String::from("x")),
        Error::Unknown(String::from("x"))
    );
}

#[test]
fn escape_closes_popup_then_quits() {
    let mut a = App::new();
    a.state = AppState::ChangePopup;
    assert_eq!(None, a.handle_key_event(KeyCode::Esc, false));
    assert_eq!(AppState::Main, a.state);
    assert_eq!(Some(AppEvent::Quit), a.handle_key_event(KeyCode::Esc, false));
    assert_eq!(Some(AppEvent::Quit), a.handle_key_event(KeyCode::Char('q'), false));
    assert_eq!(Some(AppEvent::Quit), a.handle_key_event(KeyCode::Char('c'), true));
    assert_eq!(None, a.handle_key_event(KeyCode::Char('c'), false));
    assert_eq!(
        Some(AppEvent::UpdateRequest),
        a.handle_key_event(KeyCode::Char('r'), false)
    );
}

#[test]
fn events_drive_the_state_machine() {
    let mut a = App::new();
    assert!(a.apply_app_event(AppEvent::UpdateRequest));
    // keyboard down scrolls the focused (changes) pane's offset
    assert!(!a.apply_app_event(AppEvent::NextChange));
    assert_eq!(1, a.list_state.offset);
    assert_eq!(1, a.changes_scrollbar_state.position);
    assert_eq!(None, a.list_state.selected);
    assert!(!a.apply_app_event(AppEvent::PrevChange));
    assert_eq!(0, a.list_state.offset);
    assert!(!a.apply_app_event(AppEvent::SelectChange));
    assert_eq!(AppState::ChangePopup, a.state);
    assert!(!a.apply_app_event(AppEvent::Message(String::from("hello"))));
    assert_eq!("hello", a.last_message);
    assert!(!a.apply_app_event(AppEvent::Quit));
    assert!(!a.running);
}

#[test]
fn focus_cycles_between_panes() {
    let mut a = App::new();
    a.toggle_focused_section();
    assert_eq!(Some(AppSection::Changes), a.selected_section);
    a.toggle_focused_section();
    assert_eq!(Some(AppSection::Conflicts), a.selected_section);
    a.toggle_focused_section();
    assert_eq!(Some(AppSection::Changes), a.selected_section);
}

#[test]
fn losing_focus_clears_transients() {
    let mut a = App::new();
    a.state = AppState::ChangePopup;
    a.list_state.selected = Some(2);
    a.focus_lost();
    assert_eq!(AppState::Main, a.state);
    assert_eq!(None, a.list_state.selected);
    assert!(!a.has_focus);
    assert!(a.focus_gained());
    assert!(a.has_focus);
}

#[test]
fn branch_and_status_results_apply() {
    let mut a = App::new();
    a.apply_branch_result(Ok(String::from("trunk")));
    assert_eq!("trunk", a.current_branch);
    a.apply_branch_result(Err(Error::BranchParseFailure));
    assert_eq!("failed to parse URL from svn info", a.current_branch);
    a.apply_status_result(Err(Error::Unknown(String::from("svn broke"))));
    assert_eq!("svn broke", a.last_message);
}
