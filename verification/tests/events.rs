use ollama_tui::app::{AppMode, AppState};
use ollama_tui::error::{ApiError, AppError};
use ollama_tui::events::AppEvent;
use ollama_tui::handlers::{handle_app_event, handle_key_event, handle_ollama_run_completion};
use ollama_tui::input::{KeyCode, KeyInput};
use ollama_tui::ollama_api::{ModelInfo, ShowModelResponse};

fn model(name: &str) -> ModelInfo {
    ModelInfo {
        name: name.to_string(),
        modified_at: String::new(),
        size: 1,
        digest: String::new(),
    }
}

fn app_with(names: &[&str]) -> AppState {
    let mut app = AppState::new();
    app.models = names.iter().map(|n| model(n)).collect();
    app.select_and_prepare_fetch(Some(0));
    app.status_message = None;
    app
}

fn details(license: &str) -> ShowModelResponse {
    ShowModelResponse {
        license: Some(license.to_string()),
        modelfile: None,
        parameters: None,
        template: None,
        details: None,
    }
}

fn names(app: &AppState) -> Vec<String> {
    app.get_current_models().iter().map(|m| m.name.clone()).collect()
}

#[test]
fn fetched_details_are_stored() {
    let mut app = app_with(&["llama3"]);
    app.is_fetching_details = true;
    app.status_message = Some("Fetching details...".to_string());
    handle_app_event(AppEvent::ModelDetailsFetched(Ok(details("MIT"))), &mut app);
    assert!(!app.is_fetching_details);
    assert_eq!(app.status_message, None);
    let stored = app.selected_model_details.expect("details are cached");
    assert_eq!(stored.license.as_deref(), Some("MIT"));
    assert_eq!(app.current_mode, AppMode::Normal);
}

#[test]
fn failed_details_become_status() {
    let mut app = app_with(&["llama3"]);
    app.is_fetching_details = true;
    app.selected_model_details = Some(details("old"));
    app.current_mode = AppMode::ConfirmDelete;
    let error = AppError::Api(ApiError::ResponseError("API Error: 404 - gone".to_string()));
    handle_app_event(AppEvent::ModelDetailsFetched(Err(error)), &mut app);
    assert!(!app.is_fetching_details);
    assert!(app.selected_model_details.is_none());
    assert_eq!(
        app.status_message.as_deref(),
        Some("Error fetching details: API error: API returned an error: API Error: 404 - gone")
    );
    assert_eq!(app.current_mode, AppMode::ConfirmDelete);
}

#[test]
fn late_details_leave_the_selection_where_it_moved() {
    let mut app = app_with(&["alpha", "beta"]);
    app.is_fetching_details = true;
    app.select_and_prepare_fetch(Some(1));
    assert_eq!(app.get_selected_model_name().as_deref(), Some("beta"));
    let error = AppError::Api(ApiError::Reqwest("timed out".to_string()));
    handle_app_event(AppEvent::ModelDetailsFetched(Err(error)), &mut app);
    assert_eq!(app.list_state.selected(), Some(1));
    assert_eq!(app.get_selected_model_name().as_deref(), Some("beta"));
    assert_eq!(names(&app), vec!["alpha", "beta"]);
    assert!(app.selected_model_details.is_none());
    assert!(!app.is_fetching_details);
    assert_eq!(app.current_mode, AppMode::Normal);
    app.select_and_prepare_fetch(Some(0));
    handle_app_event(AppEvent::ModelDetailsFetched(Ok(details("late"))), &mut app);
    assert_eq!(app.list_state.selected(), Some(0));
    assert_eq!(app.get_selected_model_name().as_deref(), Some("alpha"));
    assert!(!app.is_fetching_details);
}

#[test]
fn fetched_registry_models_select_the_first() {
    let mut app = AppState::new();
    app.current_mode = AppMode::InstallSelectModel;
    app.is_fetching_registry = true;
    app.install_error = Some("old".to_string());
    let models = vec!["gemma".to_string(), "llama3".to_string()];
    handle_app_event(AppEvent::RegistryModelsFetched(Ok(models)), &mut app);
    assert!(!app.is_fetching_registry);
    assert_eq!(app.registry_models, vec!["gemma", "llama3"]);
    assert_eq!(app.registry_model_list_state.selected(), Some(0));
    assert_eq!(app.install_error, None);
    assert_eq!(app.current_mode, AppMode::InstallSelectModel);
    handle_app_event(AppEvent::RegistryModelsFetched(Ok(Vec::new())), &mut app);
    assert_eq!(app.registry_model_list_state.selected(), None);
}

#[test]
fn fetched_registry_models_are_filtered_again() {
    let mut app = AppState::new();
    app.current_mode = AppMode::InstallSelectModelFilter;
    app.registry_filter_input_char('g');
    assert!(app.is_registry_filtered);
    let models = vec!["llama3".to_string(), "gemma".to_string()];
    handle_app_event(AppEvent::RegistryModelsFetched(Ok(models)), &mut app);
    assert_eq!(app.get_current_registry_models().to_vec(), vec!["gemma"]);
    assert_eq!(app.registry_model_list_state.selected(), Some(0));
}

#[test]
fn failed_registry_models_fall_back_to_normal() {
    let mut app = AppState::new();
    app.current_mode = AppMode::InstallSelectModel;
    app.is_fetching_registry = true;
    let error = AppError::Scraping("no links".to_string());
    handle_app_event(AppEvent::RegistryModelsFetched(Err(error)), &mut app);
    assert_eq!(app.current_mode, AppMode::Normal);
    assert!(!app.is_fetching_registry);
    assert_eq!(
        app.install_error.as_deref(),
        Some("Failed to fetch models: Web scraping error: no links")
    );
}

#[test]
fn fetched_tags_select_the_first() {
    let mut app = AppState::new();
    app.current_mode = AppMode::InstallSelectTag;
    app.is_fetching_registry = true;
    let tags = vec!["latest".to_string(), "8b".to_string()];
    handle_app_event(AppEvent::RegistryTagsFetched(Ok(tags)), &mut app);
    assert_eq!(app.current_mode, AppMode::InstallSelectTag);
    assert_eq!(app.registry_tags, vec!["latest", "8b"]);
    assert_eq!(app.registry_tag_list_state.selected(), Some(0));
    assert_eq!(app.install_error, None);
    assert!(!app.is_fetching_registry);
}

#[test]
fn empty_registry_tags_fall_back_with_an_error() {
    let mut app = AppState::new();
    app.current_mode = AppMode::InstallSelectTag;
    app.is_fetching_registry = true;
    app.selected_registry_model = Some("llama3".to_string());
    handle_app_event(AppEvent::RegistryTagsFetched(Ok(Vec::new())), &mut app);
    assert_eq!(app.current_mode, AppMode::InstallSelectModel);
    assert_eq!(app.install_error.as_deref(), Some("No tags found for this model."));
    assert_eq!(app.registry_tag_list_state.selected(), None);
    assert!(app.registry_tags.is_empty());
    assert!(!app.is_fetching_registry);
}

#[test]
fn failed_tags_fall_back_to_model_selection() {
    let mut app = AppState::new();
    app.current_mode = AppMode::InstallSelectTag;
    let error = AppError::Api(ApiError::Reqwest("connection refused".to_string()));
    handle_app_event(AppEvent::RegistryTagsFetched(Err(error)), &mut app);
    assert_eq!(app.current_mode, AppMode::InstallSelectModel);
    assert_eq!(
        app.install_error.as_deref(),
        Some("Failed to fetch tags: API error: Network request failed: connection refused")
    );
}

#[test]
fn successful_pull_waits_for_the_refresh() {
    let mut app = app_with(&["llama3"]);
    app.current_mode = AppMode::Installing;
    app.install_status = Some("Starting pull for gemma:latest...".to_string());
    app.selected_registry_model = Some("gemma".to_string());
    app.selected_registry_tag = Some("latest".to_string());
    handle_app_event(AppEvent::ModelPullCompleted(Ok(())), &mut app);
    assert_eq!(app.current_mode, AppMode::Installing);
    assert_eq!(app.install_status, None);
    assert_eq!(
        app.status_message.as_deref(),
        Some("Model pull successful! Refreshing list...")
    );
    assert_eq!(app.selected_registry_model, None);
    assert_eq!(app.selected_registry_tag, None);
    let refreshed = vec![model("gemma"), model("llama3")];
    handle_app_event(AppEvent::LocalModelsRefreshed(Ok(refreshed)), &mut app);
    assert_eq!(app.current_mode, AppMode::Normal);
    assert_eq!(names(&app), vec!["gemma", "llama3"]);
    assert_eq!(app.list_state.selected(), Some(0));
}

#[test]
fn refresh_clears_the_pull_message_when_nothing_is_fetched() {
    let mut app = app_with(&["llama3"]);
    app.selected_model_details = Some(details("MIT"));
    app.status_message = Some("Model pull successful! Refreshing list...".to_string());
    handle_app_event(AppEvent::LocalModelsRefreshed(Ok(vec![model("llama3")])), &mut app);
    assert_eq!(app.status_message, None);
    assert!(app.selected_model_details.is_some());
}

#[test]
fn failed_pull_falls_back_to_normal() {
    let mut app = app_with(&["llama3"]);
    app.current_mode = AppMode::Installing;
    app.install_status = Some("Starting pull...".to_string());
    let error = AppError::Command("ollama pull command failed with status: 1".to_string());
    handle_app_event(AppEvent::ModelPullCompleted(Err(error)), &mut app);
    assert_eq!(app.current_mode, AppMode::Normal);
    assert_eq!(app.install_status, None);
    assert_eq!(
        app.install_error.as_deref(),
        Some("Model pull/delete failed: External command error: ollama pull command failed with status: 1")
    );
}

#[test]
fn delete_flow_ends_with_the_refreshed_inventory() {
    let mut app = app_with(&["llama3", "mistral", "llama2"]);
    app.list_state.select(Some(1));
    handle_key_event(KeyInput::press(KeyCode::Char('d')), &mut app);
    handle_key_event(KeyInput::press(KeyCode::Char('y')), &mut app);
    let refreshed = vec![model("llama3"), model("llama2")];
    handle_app_event(AppEvent::LocalModelsRefreshed(Ok(refreshed)), &mut app);
    assert_eq!(app.current_mode, AppMode::Normal);
    assert_eq!(names(&app), vec!["llama3", "llama2"]);
    assert_eq!(app.list_state.selected(), Some(1));
    assert_eq!(app.get_selected_model_name().as_deref(), Some("llama2"));
}

#[test]
fn refresh_clamps_the_selection() {
    let mut app = app_with(&["a", "b", "c"]);
    app.list_state.select(Some(2));
    handle_app_event(AppEvent::LocalModelsRefreshed(Ok(vec![model("a")])), &mut app);
    assert_eq!(app.list_state.selected(), Some(0));
    handle_app_event(AppEvent::LocalModelsRefreshed(Ok(Vec::new())), &mut app);
    assert_eq!(app.list_state.selected(), None);
    assert!(app.models.is_empty());
}

#[test]
fn refresh_applies_an_active_filter_again() {
    let mut app = app_with(&["llama3", "mistral"]);
    for c in "llama".chars() {
        app.filter_input_char(c);
    }
    let refreshed = vec![model("mistral"), model("llama2"), model("llama3")];
    handle_app_event(AppEvent::LocalModelsRefreshed(Ok(refreshed)), &mut app);
    assert_eq!(names(&app), vec!["llama2", "llama3"]);
    assert_eq!(app.models.len(), 3);
    assert_eq!(app.list_state.selected(), Some(0));
}

#[test]
fn failed_refresh_is_shown_unless_an_install_error_is() {
    let mut app = app_with(&["llama3"]);
    app.current_mode = AppMode::Installing;
    app.install_status = Some("x".to_string());
    let error = AppError::Api(ApiError::Deserialization("expected value".to_string()));
    handle_app_event(AppEvent::LocalModelsRefreshed(Err(error)), &mut app);
    assert_eq!(app.current_mode, AppMode::Normal);
    assert_eq!(app.install_status, None);
    assert_eq!(
        app.status_message.as_deref(),
        Some("Error refreshing models: API error: Failed to parse API response: expected value")
    );
    let mut app = app_with(&["llama3"]);
    app.install_error = Some("pull failed".to_string());
    let error = AppError::Io("broken pipe".to_string());
    handle_app_event(AppEvent::LocalModelsRefreshed(Err(error)), &mut app);
    assert_eq!(app.status_message, None);
    assert_eq!(app.install_error.as_deref(), Some("pull failed"));
}

#[test]
fn run_completion_event_goes_back_to_normal() {
    let mut app = app_with(&["llama3"]);
    app.current_mode = AppMode::RunningOllama;
    handle_app_event(AppEvent::OllamaRunCompleted(Ok(())), &mut app);
    assert_eq!(app.current_mode, AppMode::Normal);
}

#[test]
fn run_completion_reports_a_failure() {
    let mut app = app_with(&["llama3"]);
    app.current_mode = AppMode::RunningOllama;
    app.status_message = Some("x".to_string());
    handle_ollama_run_completion(Ok(()), &mut app);
    assert_eq!(app.current_mode, AppMode::Normal);
    assert_eq!(app.status_message, None);
    app.current_mode = AppMode::RunningOllama;
    let error = AppError::Command("'ollama run' failed with status: 2".to_string());
    handle_ollama_run_completion(Err(error), &mut app);
    assert_eq!(app.current_mode, AppMode::Normal);
    assert_eq!(
        app.status_message.as_deref(),
        Some("'ollama run' failed: External command error: 'ollama run' failed with status: 2")
    );
}
