//! The decisions of the control loop: what it waits for, what it starts
//! before it waits, and what each thing it receives does to the session
//! state. The loop itself, which draws, waits and starts tasks, is the
//! caller's.

use crate::app::{AppMode, AppState, AppStateView};
use crate::error::{ApiError, AppError};
use crate::events::AppEvent;
use crate::handlers::{
    event_step, handle_app_event, handle_key_event, handle_ollama_run_completion, key_step,
    run_completed_step,
};
use crate::input::KeyInput;
use crate::laws::{lemma_loop_step_keeps_invariant, lemma_startup_keeps_invariant};
use crate::ollama_api::ModelInfo;
use crate::tasks::{TaskRequest, TaskRequestView};
use vstd::prelude::*;
use vstd::string::*;

verus! {

/// What the control loop received while it waited.
#[derive(Debug)]
pub enum LoopInput {
    /// A key event of the terminal.
    Key(KeyInput),
    /// The wait for terminal input ended without a key: it timed out, or
    /// the terminal sent an event of another kind.
    NoKey,
    /// Reading the terminal failed.
    InputError(AppError),
    /// The task that reads the terminal died; holds its message.
    InputTaskFailed(String),
    /// A background task completed.
    Event(AppEvent),
    /// The channel of completion events was closed.
    ChannelClosed,
}

/// What the control loop has to do after it handled what it received.
#[derive(Debug)]
pub struct LoopOutcome {
    /// The loop ends.
    pub exit: bool,
    /// A task to start.
    pub task: Option<TaskRequest>,
    /// The whole screen has to be drawn again, whatever it showed.
    pub force_redraw: bool,
}

/// The mathematical value of a `LoopOutcome`.
pub struct LoopOutcomeView {
    pub exit: bool,
    pub task: Option<TaskRequestView>,
    pub force_redraw: bool,
}

impl View for LoopOutcome {
    type V = LoopOutcomeView;

    open spec fn view(&self) -> LoopOutcomeView {
        LoopOutcomeView {
            exit: self.exit,
            task: self.task.deep_view(),
            force_redraw: self.force_redraw,
        }
    }
}

/// The state after one turn of the loop, with what the loop has to do.
pub struct LoopStep {
    pub state: AppStateView,
    pub outcome: LoopOutcomeView,
}

/// The status text when the channel of completion events was closed.
pub open spec fn channel_closed_text() -> Seq<char> {
    "Error: Event channel closed unexpectedly."@
}

/// The inventory arrived for the first time, or failed to. A list replaces
/// the inventory with no filter active, and its first model is selected. A
/// failure becomes the status.
pub open spec fn initial_models_step(
    s: AppStateView,
    result: Result<Vec<ModelInfo>, ApiError>,
) -> AppStateView {
    match result {
        Ok(models) => {
            let some = models.deep_view().len() != 0;
            AppStateView {
                models: models.deep_view(),
                list_state: if some {
                    Some(0)
                } else {
                    s.list_state
                },
                selected_model_details: if some {
                    None
                } else {
                    s.selected_model_details
                },
                is_fetching_details: !some && s.is_fetching_details,
                filtered_models: Seq::empty(),
                is_filtered: false,
                status_message: None,
                ..s
            }
        },
        Err(e) => AppStateView {
            status_message: Some("Error loading models: "@ + e.text()),
            ..s
        },
    }
}

/// A fetch of details is due: the terminal is the application's, a model is
/// selected, no details are cached and no fetch is in flight.
pub open spec fn detail_fetch_due(s: AppStateView) -> bool {
    s.current_mode != AppMode::RunningOllama && s.list_state is Some
        && s.selected_model_details is None && !s.is_fetching_details
        && s.selected_model_name() is Some
}

/// The state once a due fetch of details was requested.
pub open spec fn detail_fetch_step(s: AppStateView) -> AppStateView {
    if detail_fetch_due(s) {
        AppStateView {
            is_fetching_details: true,
            status_message: Some("Fetching details..."@),
            ..s
        }
    } else {
        s
    }
}

/// The loop polls the terminal only while the terminal is the application's.
pub open spec fn polls_terminal(s: AppStateView) -> bool {
    s.current_mode != AppMode::RunningOllama
}

/// The step that reports the closed channel and ends the loop.
pub open spec fn channel_closed_step(s: AppStateView) -> LoopStep {
    LoopStep {
        state: AppStateView { status_message: Some(channel_closed_text()), ..s },
        outcome: LoopOutcomeView { exit: true, task: None, force_redraw: false },
    }
}

/// What the loop does with what it received while the foreground program
/// holds the terminal: the end of the program goes back to mode `Normal` and
/// forces a redraw, a closed channel ends the loop, and everything else is
/// dropped.
pub open spec fn suspended_step(s: AppStateView, input: LoopInput) -> LoopStep {
    match input {
        LoopInput::Event(AppEvent::OllamaRunCompleted(result)) => LoopStep {
            state: run_completed_step(s, result),
            outcome: LoopOutcomeView {
                exit: s.should_quit,
                task: None,
                force_redraw: true,
            },
        },
        LoopInput::ChannelClosed => channel_closed_step(s),
        _ => LoopStep {
            state: s,
            outcome: LoopOutcomeView { exit: s.should_quit, task: None, force_redraw: false },
        },
    }
}

/// What the loop does with what it received while the terminal is the
/// application's.
pub open spec fn polling_step(s: AppStateView, input: LoopInput) -> LoopStep {
    match input {
        LoopInput::Key(key) => {
            let step = key_step(s, key);
            let quit = step.outcome.quit || s.should_quit;
            LoopStep {
                state: AppStateView { should_quit: quit, ..step.state },
                outcome: LoopOutcomeView {
                    exit: quit,
                    task: step.outcome.task,
                    force_redraw: false,
                },
            }
        },
        LoopInput::NoKey => LoopStep {
            state: s,
            outcome: LoopOutcomeView { exit: s.should_quit, task: None, force_redraw: false },
        },
        LoopInput::InputError(e) => LoopStep {
            state: AppStateView { status_message: Some("Input error: "@ + e.text()), ..s },
            outcome: LoopOutcomeView { exit: s.should_quit, task: None, force_redraw: false },
        },
        LoopInput::InputTaskFailed(message) => LoopStep {
            state: AppStateView {
                status_message: Some("Input task panicked: "@ + message@),
                ..s
            },
            outcome: LoopOutcomeView { exit: true, task: None, force_redraw: false },
        },
        LoopInput::Event(event) => LoopStep {
            state: event_step(s, event),
            outcome: LoopOutcomeView { exit: s.should_quit, task: None, force_redraw: false },
        },
        LoopInput::ChannelClosed => channel_closed_step(s),
    }
}

/// One turn of the control loop.
pub open spec fn loop_step(s: AppStateView, input: LoopInput) -> LoopStep {
    if polls_terminal(s) {
        polling_step(s, input)
    } else {
        suspended_step(s, input)
    }
}

/// Takes in the first answer to the request for the local models.
pub fn apply_initial_models(app: &mut AppState, result: Result<Vec<ModelInfo>, ApiError>)
    ensures
        final(app)@ == initial_models_step(old(app)@, result),
        old(app)@.wf() && old(app)@.list_state is None ==> final(app)@.wf(),
{
    proof {
        if app@.wf() {
            lemma_startup_keeps_invariant(app@, result);
        }
    }
    match result {
        Ok(models) => {
            app.models = models;
            if app.models.len() != 0 {
                app.list_state.select(Some(0));
                app.selected_model_details = None;
                app.is_fetching_details = false;
            }
            app.filtered_models = Vec::new();
            app.is_filtered = false;
            app.status_message = None;
            assert(app.filtered_models.deep_view() =~= Seq::empty());
        },
        Err(e) => {
            let message = e.message();
            app.status_message = Some(
                String::from_str("Error loading models: ").concat(message.as_str()),
            );
        },
    }
}

/// Requests the details of the selected model where a fetch is due: marks
/// the fetch as in flight and returns the task to start.
pub fn request_detail_fetch(app: &mut AppState) -> (task: Option<TaskRequest>)
    ensures
        final(app)@ == detail_fetch_step(old(app)@),
        task.deep_view() == if detail_fetch_due(old(app)@) {
            Some(TaskRequestView::FetchDetails(old(app)@.selected_model_name()->0))
        } else {
            None
        },
        old(app)@.wf() ==> final(app)@.wf(),
{
    if app.current_mode != AppMode::RunningOllama && app.list_state.selected().is_some()
        && app.selected_model_details.is_none() && !app.is_fetching_details {
        match app.get_selected_model_name() {
            Some(name) => {
                app.is_fetching_details = true;
                app.status_message = Some(String::from_str("Fetching details..."));
                Some(TaskRequest::FetchDetails(name))
            },
            None => None,
        }
    } else {
        None
    }
}

/// The loop has to poll the terminal: the foreground program does not hold it.
pub fn polls_input(app: &AppState) -> (polls: bool)
    ensures
        polls == polls_terminal(app@),
{
    app.current_mode != AppMode::RunningOllama
}

/// The channel of completion events was closed.
fn on_channel_closed(app: &mut AppState) -> (out: LoopOutcome)
    ensures
        final(app)@ == channel_closed_step(old(app)@).state,
        out@ == channel_closed_step(old(app)@).outcome,
{
    app.status_message = Some(String::from_str("Error: Event channel closed unexpectedly."));
    LoopOutcome { exit: true, task: None, force_redraw: false }
}

/// One turn of the loop while the foreground program holds the terminal.
fn on_suspended_input(app: &mut AppState, input: LoopInput) -> (out: LoopOutcome)
    ensures
        final(app)@ == suspended_step(old(app)@, input).state,
        out@ == suspended_step(old(app)@, input).outcome,
{
    match input {
        LoopInput::Event(AppEvent::OllamaRunCompleted(result)) => {
            handle_ollama_run_completion(result, app);
            LoopOutcome { exit: app.should_quit, task: None, force_redraw: true }
        },
        LoopInput::ChannelClosed => on_channel_closed(app),
        _ => LoopOutcome { exit: app.should_quit, task: None, force_redraw: false },
    }
}

/// One turn of the loop while the terminal is the application's.
fn on_polling_input(app: &mut AppState, input: LoopInput) -> (out: LoopOutcome)
    requires
        old(app)@.cursors_in_bounds(),
    ensures
        final(app)@ == polling_step(old(app)@, input).state,
        out@ == polling_step(old(app)@, input).outcome,
{
    match input {
        LoopInput::Key(key) => {
            let outcome = handle_key_event(key, app);
            if outcome.quit {
                app.should_quit = true;
            }
            LoopOutcome { exit: app.should_quit, task: outcome.task, force_redraw: false }
        },
        LoopInput::NoKey => LoopOutcome { exit: app.should_quit, task: None, force_redraw: false },
        LoopInput::InputError(e) => {
            let message = e.message();
            app.status_message = Some(
                String::from_str("Input error: ").concat(message.as_str()),
            );
            LoopOutcome { exit: app.should_quit, task: None, force_redraw: false }
        },
        LoopInput::InputTaskFailed(message) => {
            app.status_message = Some(
                String::from_str("Input task panicked: ").concat(message.as_str()),
            );
            LoopOutcome { exit: true, task: None, force_redraw: false }
        },
        LoopInput::Event(event) => {
            let quit = app.should_quit;
            handle_app_event(event, app);
            LoopOutcome { exit: quit, task: None, force_redraw: false }
        },
        LoopInput::ChannelClosed => on_channel_closed(app),
    }
}

/// One turn of the control loop: changes the session state by what the loop
/// received, and returns whether the loop ends, which task it has to start
/// and whether the screen has to be drawn afresh.
pub fn handle_loop_input(app: &mut AppState, input: LoopInput) -> (out: LoopOutcome)
    requires
        old(app)@.cursors_in_bounds(),
    ensures
        final(app)@ == loop_step(old(app)@, input).state,
        out@ == loop_step(old(app)@, input).outcome,
        old(app)@.wf() ==> final(app)@.wf(),
{
    proof {
        if app@.wf() {
            lemma_loop_step_keeps_invariant(app@, input);
        }
    }
    if polls_input(app) {
        on_polling_input(app, input)
    } else {
        on_suspended_input(app, input)
    }
}

} // verus!
