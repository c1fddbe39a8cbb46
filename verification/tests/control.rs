use ollama_tui::app::{AppMode, AppState};
use ollama_tui::control::{
    apply_initial_models, handle_loop_input, polls_input, request_detail_fetch, LoopInput,
};
use ollama_tui::error::{ApiError, AppError};
use ollama_tui::events::AppEvent;
use ollama_tui::input::{KeyCode, KeyInput};
use ollama_tui::ollama_api::{ModelInfo, ShowModelResponse};
use ollama_tui::tasks::TaskRequest;

fn model(name: &str) -> ModelInfo {
    ModelInfo {
        name: name.to_string(),
        modified_at: String::new(),
        size: 1,
        digest: String::new(),
    }
}

fn loaded(names: &[&str]) -> AppState {
    let mut app = AppState::new();
    apply_initial_models(&mut app, Ok(names.iter().map(|n| model(n)).collect()));
    app
}

#[test]
fn initial_models_select_the_first() {
    let app = loaded(&["llama3", "mistral"]);
    assert_eq!(app.models.len(), 2);
    assert_eq!(app.list_state.selected(), Some(0));
    assert_eq!(app.status_message, None);
    assert!(!app.is_filtered);
    assert!(app.selected_model_details.is_none());
    let empty = loaded(&[]);
    assert_eq!(empty.list_state.selected(), None);
    assert_eq!(empty.status_message, None);
}

#[test]
fn failed_initial_load_becomes_status() {
    let mut app = AppState::new();
    apply_initial_models(&mut app, Err(ApiError::Reqwest("connection refused".to_string())));
    assert!(app.models.is_empty());
    assert_eq!(
        app.status_message.as_deref(),
        Some("Error loading models: Network request failed: connection refused")
    );
}

#[test]
fn detail_fetch_is_requested_once_per_selection() {
    let mut app = loaded(&["llama3", "mistral"]);
    match request_detail_fetch(&mut app) {
        Some(TaskRequest::FetchDetails(name)) => assert_eq!(name, "llama3"),
        other => panic!("expected a fetch of details, found {:?}", other),
    }
    assert!(app.is_fetching_details);
    assert_eq!(app.status_message.as_deref(), Some("Fetching details..."));
    assert!(request_detail_fetch(&mut app).is_none());
    app.next_model();
    match request_detail_fetch(&mut app) {
        Some(TaskRequest::FetchDetails(name)) => assert_eq!(name, "mistral"),
        other => panic!("expected a fetch of details, found {:?}", other),
    }
}

#[test]
fn no_detail_fetch_with_details_cached_or_nothing_selected() {
    let mut app = loaded(&["llama3"]);
    app.selected_model_details = Some(ShowModelResponse {
        license: None,
        modelfile: None,
        parameters: None,
        template: None,
        details: None,
    });
    assert!(request_detail_fetch(&mut app).is_none());
    assert!(!app.is_fetching_details);
    let mut empty = loaded(&[]);
    assert!(request_detail_fetch(&mut empty).is_none());
    let mut running = loaded(&["llama3"]);
    running.current_mode = AppMode::RunningOllama;
    assert!(request_detail_fetch(&mut running).is_none());
    assert!(!running.is_fetching_details);
}

#[test]
fn terminal_is_polled_unless_the_foreground_program_runs() {
    let mut app = AppState::new();
    assert!(polls_input(&app));
    app.current_mode = AppMode::Installing;
    assert!(polls_input(&app));
    app.current_mode = AppMode::RunningOllama;
    assert!(!polls_input(&app));
}

#[test]
fn quit_key_ends_the_loop_with_nothing_pending() {
    let mut app = loaded(&["llama3", "mistral"]);
    let outcome = handle_loop_input(&mut app, LoopInput::Key(KeyInput::press(KeyCode::Char('q'))));
    assert!(outcome.exit);
    assert!(outcome.task.is_none());
    assert!(!outcome.force_redraw);
    assert!(app.should_quit);
    assert!(!app.is_fetching_details);
}

#[test]
fn keys_pass_their_task_to_the_loop() {
    let mut app = loaded(&["llama3"]);
    let outcome = handle_loop_input(&mut app, LoopInput::Key(KeyInput::press(KeyCode::Enter)));
    assert!(!outcome.exit);
    assert!(matches!(outcome.task, Some(TaskRequest::Run(_))));
    assert_eq!(app.current_mode, AppMode::RunningOllama);
    assert!(!polls_input(&app));
}

#[test]
fn suspended_loop_waits_for_the_run_to_end() {
    let mut app = loaded(&["llama3"]);
    app.current_mode = AppMode::RunningOllama;
    let outcome = handle_loop_input(&mut app, LoopInput::Key(KeyInput::press(KeyCode::Char('q'))));
    assert!(!outcome.exit);
    assert_eq!(app.current_mode, AppMode::RunningOllama);
    let stray = AppEvent::RegistryModelsFetched(Ok(vec!["gemma".to_string()]));
    let outcome = handle_loop_input(&mut app, LoopInput::Event(stray));
    assert!(!outcome.exit);
    assert!(!outcome.force_redraw);
    assert!(app.registry_models.is_empty());
    assert_eq!(app.current_mode, AppMode::RunningOllama);
    let ended = AppEvent::OllamaRunCompleted(Err(AppError::Io("no such file".to_string())));
    let outcome = handle_loop_input(&mut app, LoopInput::Event(ended));
    assert!(!outcome.exit);
    assert!(outcome.force_redraw);
    assert_eq!(app.current_mode, AppMode::Normal);
    assert_eq!(
        app.status_message.as_deref(),
        Some("'ollama run' failed: Terminal I/O error: no such file")
    );
}

#[test]
fn closed_channel_ends_the_loop() {
    for mode in [AppMode::Normal, AppMode::RunningOllama] {
        let mut app = loaded(&["llama3"]);
        app.current_mode = mode;
        let outcome = handle_loop_input(&mut app, LoopInput::ChannelClosed);
        assert!(outcome.exit);
        assert_eq!(
            app.status_message.as_deref(),
            Some("Error: Event channel closed unexpectedly.")
        );
    }
}

#[test]
fn input_errors_are_shown_and_a_dead_reader_ends_the_loop() {
    let mut app = loaded(&["llama3"]);
    let outcome =
        handle_loop_input(&mut app, LoopInput::InputError(AppError::Io("eof".to_string())));
    assert!(!outcome.exit);
    assert_eq!(app.status_message.as_deref(), Some("Input error: Terminal I/O error: eof"));
    let outcome = handle_loop_input(&mut app, LoopInput::InputTaskFailed("boom".to_string()));
    assert!(outcome.exit);
    assert_eq!(app.status_message.as_deref(), Some("Input task panicked: boom"));
}

#[test]
fn events_and_timeouts_keep_the_loop_running() {
    let mut app = loaded(&["llama3"]);
    let outcome = handle_loop_input(&mut app, LoopInput::NoKey);
    assert!(!outcome.exit && outcome.task.is_none() && !outcome.force_redraw);
    let event = AppEvent::RegistryTagsFetched(Ok(vec!["latest".to_string()]));
    let outcome = handle_loop_input(&mut app, LoopInput::Event(event));
    assert!(!outcome.exit && outcome.task.is_none());
    assert_eq!(app.registry_tags, vec!["latest"]);
}
