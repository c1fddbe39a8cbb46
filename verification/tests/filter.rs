use ollama_tui::app::{AppMode, AppState};
use ollama_tui::ollama_api::ModelInfo;

fn model(name: &str) -> ModelInfo {
    ModelInfo {
        name: name.to_string(),
        modified_at: "2024-05-01T10:00:00Z".to_string(),
        size: 4096,
        digest: "sha256:0123456789abcdef".to_string(),
    }
}

fn app_with(names: &[&str]) -> AppState {
    let mut app = AppState::new();
    app.models = names.iter().map(|n| model(n)).collect();
    app.select_and_prepare_fetch(Some(0));
    app
}

fn visible(app: &AppState) -> Vec<String> {
    app.get_current_models().iter().map(|m| m.name.clone()).collect()
}

fn type_text(app: &mut AppState, text: &str) {
    for c in text.chars() {
        app.filter_input_char(c);
    }
}

#[test]
fn new_state_is_empty_and_normal() {
    let app = AppState::new();
    assert!(app.models.is_empty());
    assert!(app.filtered_models.is_empty());
    assert_eq!(app.list_state.selected(), None);
    assert_eq!(app.current_mode, AppMode::Normal);
    assert_eq!(app.status_message.as_deref(), Some("Loading models..."));
    assert!(!app.should_quit);
    assert!(!app.is_filtered);
    assert_eq!(app.filter_cursor_pos, 0);
    assert_eq!(app.previous_mode, None);
}

#[test]
fn filter_narrows_list() {
    let mut app = app_with(&["llama3", "mistral", "llama2"]);
    type_text(&mut app, "llama");
    assert_eq!(visible(&app), vec!["llama3", "llama2"]);
    assert_eq!(app.list_state.selected(), Some(0));
    assert!(app.is_filtered);
    assert_eq!(app.filter_input, "llama");
    assert_eq!(app.filter_cursor_pos, 5);
}

#[test]
fn filter_ignores_case_of_filter_and_name() {
    let mut app = app_with(&["Llama3", "MISTRAL", "phi"]);
    type_text(&mut app, "LLAMA");
    assert_eq!(visible(&app), vec!["Llama3"]);
    app.clear_filter();
    type_text(&mut app, "mist");
    assert_eq!(visible(&app), vec!["MISTRAL"]);
}

#[test]
fn filter_matches_inside_a_name() {
    let mut app = app_with(&["codellama", "mistral", "llama2"]);
    type_text(&mut app, "lama");
    assert_eq!(visible(&app), vec!["codellama", "llama2"]);
}

#[test]
fn filter_without_match_clears_selection() {
    let mut app = app_with(&["llama3", "mistral"]);
    type_text(&mut app, "zzz");
    assert!(visible(&app).is_empty());
    assert_eq!(app.list_state.selected(), None);
    assert!(app.is_filtered);
}

#[test]
fn empty_filter_text_shows_everything() {
    let mut app = app_with(&["llama3", "mistral"]);
    type_text(&mut app, "s");
    assert_eq!(visible(&app), vec!["mistral"]);
    app.filter_input_backspace();
    assert!(!app.is_filtered);
    assert!(app.filtered_models.is_empty());
    assert_eq!(visible(&app), vec!["llama3", "mistral"]);
    assert_eq!(app.list_state.selected(), Some(0));
}

#[test]
fn applying_the_same_filter_twice_changes_nothing() {
    let mut app = app_with(&["llama3", "mistral", "llama2"]);
    type_text(&mut app, "llama");
    let once = visible(&app);
    let selected = app.list_state.selected();
    app.apply_filter();
    assert_eq!(visible(&app), once);
    assert_eq!(app.list_state.selected(), selected);
    assert_eq!(selected, Some(0));
    app.apply_filter();
    assert_eq!(visible(&app), once);
}

#[test]
fn apply_filter_drops_details_and_permits_a_fetch() {
    let mut app = app_with(&["llama3", "mistral"]);
    app.is_fetching_details = true;
    app.list_state.select(Some(1));
    type_text(&mut app, "l");
    assert!(app.selected_model_details.is_none());
    assert!(!app.is_fetching_details);
    assert_eq!(app.list_state.selected(), Some(0));
}

#[test]
fn selection_fits_visible_after_every_edit() {
    let mut app = app_with(&["llama3", "mistral", "llama2", "phi3"]);
    let edits = "llx";
    for c in edits.chars() {
        app.filter_input_char(c);
        let n = app.get_current_models().len();
        match app.list_state.selected() {
            None => assert_eq!(n, 0),
            Some(i) => assert!(i < n),
        }
    }
    for _ in 0..4 {
        app.filter_input_backspace();
        let n = app.get_current_models().len();
        match app.list_state.selected() {
            None => assert_eq!(n, 0),
            Some(i) => assert!(i < n),
        }
    }
    app.clear_filter();
    assert_eq!(app.list_state.selected(), Some(0));
    assert_eq!(app.get_current_models().len(), 4);
}

#[test]
fn clear_filter_resets_text_cursor_and_selection() {
    let mut app = app_with(&["llama3", "mistral"]);
    type_text(&mut app, "mis");
    app.clear_filter();
    assert_eq!(app.filter_input, "");
    assert_eq!(app.filter_cursor_pos, 0);
    assert!(!app.is_filtered);
    assert!(app.filtered_models.is_empty());
    assert_eq!(app.list_state.selected(), Some(0));
}

#[test]
fn clear_filter_on_empty_inventory_selects_nothing() {
    let mut app = AppState::new();
    app.clear_filter();
    assert_eq!(app.list_state.selected(), None);
}

#[test]
fn cursor_moves_within_the_text() {
    let mut app = app_with(&["llama3"]);
    type_text(&mut app, "ab");
    assert_eq!(app.filter_cursor_pos, 2);
    app.filter_cursor_right();
    assert_eq!(app.filter_cursor_pos, 2);
    app.filter_cursor_left();
    app.filter_cursor_left();
    assert_eq!(app.filter_cursor_pos, 0);
    app.filter_cursor_left();
    assert_eq!(app.filter_cursor_pos, 0);
    app.filter_cursor_right();
    assert_eq!(app.filter_cursor_pos, 1);
}

#[test]
fn characters_are_inserted_at_the_cursor() {
    let mut app = app_with(&["llama3"]);
    type_text(&mut app, "ac");
    app.filter_cursor_left();
    app.filter_input_char('b');
    assert_eq!(app.filter_input, "abc");
    assert_eq!(app.filter_cursor_pos, 2);
    app.filter_input_backspace();
    assert_eq!(app.filter_input, "ac");
    assert_eq!(app.filter_cursor_pos, 1);
}

#[test]
fn cursor_counts_characters_not_bytes() {
    let mut app = app_with(&["caf\u{e9}-model", "llama3"]);
    type_text(&mut app, "\u{e9}-");
    assert_eq!(app.filter_input, "\u{e9}-");
    assert_eq!(app.filter_cursor_pos, 2);
    assert_eq!(visible(&app), vec!["caf\u{e9}-model"]);
    app.filter_cursor_left();
    app.filter_input_backspace();
    assert_eq!(app.filter_input, "-");
    assert_eq!(app.filter_cursor_pos, 0);
    app.filter_cursor_right();
    assert_eq!(app.filter_cursor_pos, 1);
    app.filter_cursor_right();
    assert_eq!(app.filter_cursor_pos, 1);
}

#[test]
fn backspace_at_start_changes_nothing() {
    let mut app = app_with(&["llama3", "mistral"]);
    app.list_state.select(Some(1));
    app.filter_input_backspace();
    assert_eq!(app.filter_input, "");
    assert_eq!(app.list_state.selected(), Some(1));
}

#[test]
fn registry_filter_narrows_names() {
    let mut app = AppState::new();
    app.registry_models = vec!["gemma".to_string(), "Llama3".to_string(), "codellama".to_string()];
    for c in "LLAMA".chars() {
        app.registry_filter_input_char(c);
    }
    assert_eq!(app.get_current_registry_models().to_vec(), vec!["Llama3", "codellama"]);
    assert_eq!(app.registry_model_list_state.selected(), Some(0));
    assert!(app.is_registry_filtered);
    assert_eq!(app.registry_filter_cursor_pos, 5);
    app.registry_filter_input_char('x');
    assert!(app.get_current_registry_models().is_empty());
    assert_eq!(app.registry_model_list_state.selected(), None);
    app.registry_filter_input_backspace();
    assert_eq!(app.get_current_registry_models().len(), 2);
    app.registry_filter_cursor_left();
    assert_eq!(app.registry_filter_cursor_pos, 4);
    app.registry_filter_cursor_right();
    app.registry_filter_cursor_right();
    assert_eq!(app.registry_filter_cursor_pos, 5);
    app.clear_registry_filter();
    assert_eq!(app.registry_filter_input, "");
    assert!(!app.is_registry_filtered);
    assert_eq!(app.get_current_registry_models().len(), 3);
    assert_eq!(app.registry_model_list_state.selected(), Some(0));
}

#[test]
fn applying_the_registry_filter_twice_changes_nothing() {
    let mut app = AppState::new();
    app.registry_models = vec!["gemma".to_string(), "llama3".to_string()];
    app.registry_filter_input_char('g');
    let once = app.get_current_registry_models().to_vec();
    app.apply_registry_filter();
    assert_eq!(app.get_current_registry_models().to_vec(), once);
    assert_eq!(app.registry_model_list_state.selected(), Some(0));
}
