use vstd::prelude::*;

use crate::dialog::{dialog_output, file_dialog_lines, DialogResponse};
use crate::form::generate_lines;
use crate::texts_of;

verus! {

/// Where the application is in its life.
#[derive(PartialEq, Eq, Structural, Clone, Copy, Debug)]
pub enum Phase {
    /// The toolkit has not been started yet.
    Uninitialized,
    /// The toolkit is up; the window is being built.
    ToolkitReady,
    /// The window is on screen and its event loop runs.
    WindowShown,
    /// The window was closed; the event loop is over.
    Closed,
}

/// What happened, as reported by the code that drives the toolkit.
#[derive(Debug)]
pub enum Event {
    /// The toolkit started.
    ToolkitStarted,
    /// The toolkit could not be started.
    ToolkitFailed,
    /// The window and its widgets were built and shown.
    WindowBuilt,
    /// The "Generate" button was clicked; the entries' texts, in order.
    GenerateClicked(Vec<String>),
    /// The file dialog was dismissed in the given way.
    DialogDismissed(DialogResponse),
    /// The user asked to close the window.
    CloseRequested,
}

/// What the driving code is to do next.
#[derive(PartialEq, Eq, Debug)]
pub enum Action {
    /// Build the form and the window, then show it.
    BuildWindow,
    /// Stop the process: the toolkit is unusable.
    Abort,
    /// Run the toolkit's event loop.
    RunEventLoop,
    /// Print these lines on the console, one per line.
    Print(Vec<String>),
    /// End the toolkit's event loop.
    QuitEventLoop,
    /// Nothing to do.
    Ignore,
}

/// Whether `event` means anything in `phase`; every other event is ignored.
pub open spec fn handled(phase: Phase, event: Event) -> bool {
    match phase {
        Phase::Uninitialized => event is ToolkitStarted || event is ToolkitFailed,
        Phase::ToolkitReady => event is WindowBuilt,
        Phase::WindowShown => event is GenerateClicked || event is DialogDismissed
            || event is CloseRequested,
        Phase::Closed => false,
    }
}

/// Decides the next phase and the action to perform when `event` arrives in
/// `phase`.
pub fn step(phase: Phase, event: Event) -> (r: (Phase, Action))
    ensures
        phase == Phase::Uninitialized && event is ToolkitStarted ==> r.0 == Phase::ToolkitReady
            && r.1 is BuildWindow,
        phase == Phase::Uninitialized && event is ToolkitFailed ==> r.0 == Phase::Uninitialized
            && r.1 is Abort,
        phase == Phase::ToolkitReady && event is WindowBuilt ==> r.0 == Phase::WindowShown
            && r.1 is RunEventLoop,
        phase == Phase::WindowShown && event is GenerateClicked ==> r.0 == Phase::WindowShown
            && (r.1 matches Action::Print(lines) && texts_of(lines@) == texts_of(
            event->GenerateClicked_0@,
        )),
        phase == Phase::WindowShown && event is DialogDismissed ==> r.0 == Phase::WindowShown
            && (r.1 matches Action::Print(lines) && texts_of(lines@) == dialog_output(
            event->DialogDismissed_0,
        )),
        phase == Phase::WindowShown && event is CloseRequested ==> r.0 == Phase::Closed
            && r.1 is QuitEventLoop,
        phase == Phase::Closed ==> r.0 == Phase::Closed && r.1 is Ignore,
        !handled(phase, event) ==> r.0 == phase && r.1 is Ignore,
{
    match (phase, event) {
        (Phase::Uninitialized, Event::ToolkitStarted) => (Phase::ToolkitReady, Action::BuildWindow),
        (Phase::Uninitialized, Event::ToolkitFailed) => (Phase::Uninitialized, Action::Abort),
        (Phase::ToolkitReady, Event::WindowBuilt) => (Phase::WindowShown, Action::RunEventLoop),
        (Phase::WindowShown, Event::GenerateClicked(texts)) => {
            (Phase::WindowShown, Action::Print(generate_lines(&texts)))
        },
        (Phase::WindowShown, Event::DialogDismissed(response)) => {
            (Phase::WindowShown, Action::Print(file_dialog_lines(response)))
        },
        (Phase::WindowShown, Event::CloseRequested) => (Phase::Closed, Action::QuitEventLoop),
        (phase, _) => (phase, Action::Ignore),
    }
}

} // verus!
