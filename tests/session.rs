use ini_generator::dialog::{file_dialog_lines, DialogResponse};
use ini_generator::layout::{default_params, stack_items, StackItem, WINDOW_TITLE};
use ini_generator::session::{step, Action, Event, Phase};

#[test]
fn dialog_cancel_prints_nothing() {
    assert!(file_dialog_lines(DialogResponse::Cancel).is_empty());
    assert!(file_dialog_lines(DialogResponse::Other).is_empty());
}

#[test]
fn dialog_accept_prints_chosen_path() {
    let lines = file_dialog_lines(DialogResponse::Accept("/tmp/x.ini".to_string()));
    assert_eq!(lines, vec!["/tmp/x.ini".to_string()]);
}

#[test]
fn generate_click_prints_entry_texts() {
    let event = Event::GenerateClicked(vec!["200".to_string(), "Linux".to_string()]);
    let (phase, action) = step(Phase::WindowShown, event);
    assert_eq!(phase, Phase::WindowShown);
    assert_eq!(action, Action::Print(vec!["200".to_string(), "Linux".to_string()]));
}

#[test]
fn dialog_events_through_session() {
    let (phase, action) = step(Phase::WindowShown, Event::DialogDismissed(DialogResponse::Cancel));
    assert_eq!(phase, Phase::WindowShown);
    assert_eq!(action, Action::Print(vec![]));
    let accepted = Event::DialogDismissed(DialogResponse::Accept("/tmp/x.ini".to_string()));
    let (_, action) = step(Phase::WindowShown, accepted);
    assert_eq!(action, Action::Print(vec!["/tmp/x.ini".to_string()]));
}

#[test]
fn close_ends_event_loop() {
    let (phase, action) = step(Phase::WindowShown, Event::CloseRequested);
    assert_eq!(phase, Phase::Closed);
    assert_eq!(action, Action::QuitEventLoop);
}

#[test]
fn closed_ignores_everything() {
    for event in [Event::ToolkitStarted, Event::WindowBuilt, Event::CloseRequested] {
        let (phase, action) = step(Phase::Closed, event);
        assert_eq!(phase, Phase::Closed);
        assert_eq!(action, Action::Ignore);
    }
}

#[test]
fn full_lifecycle() {
    let (phase, action) = step(Phase::Uninitialized, Event::ToolkitStarted);
    assert_eq!((phase, &action), (Phase::ToolkitReady, &Action::BuildWindow));
    let (phase, action) = step(phase, Event::WindowBuilt);
    assert_eq!((phase, &action), (Phase::WindowShown, &Action::RunEventLoop));
    let (phase, action) = step(phase, Event::CloseRequested);
    assert_eq!((phase, &action), (Phase::Closed, &Action::QuitEventLoop));
}

#[test]
fn toolkit_failure_aborts() {
    let (phase, action) = step(Phase::Uninitialized, Event::ToolkitFailed);
    assert_eq!(phase, Phase::Uninitialized);
    assert_eq!(action, Action::Abort);
}

#[test]
fn unexpected_events_are_ignored() {
    let (phase, action) = step(Phase::ToolkitReady, Event::CloseRequested);
    assert_eq!(phase, Phase::ToolkitReady);
    assert_eq!(action, Action::Ignore);
    let (phase, action) = step(Phase::Uninitialized, Event::GenerateClicked(vec!["1".to_string()]));
    assert_eq!(phase, Phase::Uninitialized);
    assert_eq!(action, Action::Ignore);
}

#[test]
fn stack_has_rows_then_buttons() {
    assert_eq!(
        stack_items(2),
        vec![StackItem::Row(0), StackItem::Row(1), StackItem::GenerateButton, StackItem::FindButton]
    );
    assert_eq!(stack_items(0), vec![StackItem::GenerateButton, StackItem::FindButton]);
}

#[test]
fn default_fields_and_title() {
    assert_eq!(default_params(), vec!["Temperature", "Operating System"]);
    assert_eq!(WINDOW_TITLE, "3D printer ini generator");
}
