//! The two handlers: what a key does in each mode, and what the completion
//! of a background task does to the session state.
//!
//! Both are first spec functions on the mathematical value of the state
//! (`key_step`, `event_step`); the executable handlers are proved to compute
//! them. A handler never starts a task itself: it returns the request.

use crate::app::{cycle_next, cycle_previous, AppMode, AppState, AppStateView};
use crate::error::AppError;
use crate::events::AppEvent;
use crate::input::{KeyCode, KeyInput, KeyKind};
use crate::laws::{lemma_event_step_keeps_invariant, lemma_key_step_keeps_invariant};
use crate::ollama_api::{ModelInfo, ModelInfoView, ShowModelResponse};
use crate::tasks::{TaskRequest, TaskRequestView};
use crate::text::{decimal, push_decimal};
use vstd::prelude::*;
use vstd::string::*;

verus! {

/// What the control loop has to do after a key: leave the loop, or start a task.
#[derive(Debug)]
pub struct KeyOutcome {
    pub quit: bool,
    pub task: Option<TaskRequest>,
}

/// The mathematical value of a `KeyOutcome`.
pub struct KeyOutcomeView {
    pub quit: bool,
    pub task: Option<TaskRequestView>,
}

impl View for KeyOutcome {
    type V = KeyOutcomeView;

    open spec fn view(&self) -> KeyOutcomeView {
        KeyOutcomeView { quit: self.quit, task: self.task.deep_view() }
    }
}

/// The state after a key, with what the control loop has to do.
pub struct KeyStep {
    pub state: AppStateView,
    pub outcome: KeyOutcomeView,
}

/// The step that leaves the loop running and starts nothing.
pub open spec fn stay(state: AppStateView) -> KeyStep {
    KeyStep { state, outcome: KeyOutcomeView { quit: false, task: None } }
}

/// The step that starts a task.
pub open spec fn start(state: AppStateView, task: TaskRequestView) -> KeyStep {
    KeyStep { state, outcome: KeyOutcomeView { quit: false, task: Some(task) } }
}

/// The key is the given character.
pub open spec fn is_char(key: KeyInput, c: char) -> bool {
    key.code == KeyCode::Char(c)
}

/// The status text that sums up a confirmed filter.
pub open spec fn filter_summary(text: Seq<char>, count: nat) -> Seq<char> {
    "Filter: '"@ + text + "' ("@ + decimal(count) + " models)"@
}

/// The status text while a model is being deleted.
pub open spec fn deleting_text(name: Seq<char>) -> Seq<char> {
    "Deleting "@ + name + "..."@
}

/// The status text when a pull starts.
pub open spec fn starting_pull_text(model: Seq<char>, tag: Seq<char>) -> Seq<char> {
    "Starting pull for "@ + model + ":"@ + tag + "..."@
}

/// The key opens the help: a help key, in a mode that does not take
/// character input for itself.
pub open spec fn opens_help(s: AppStateView, key: KeyInput) -> bool {
    s.is_global_key_handling_enabled() && (is_char(key, 'h') || is_char(key, '?'))
}

/// A key in mode `Normal`.
pub open spec fn normal_step(s: AppStateView, key: KeyInput) -> KeyStep {
    if is_char(key, 'q') {
        KeyStep { state: s, outcome: KeyOutcomeView { quit: true, task: None } }
    } else if is_char(key, 'j') || key.code == KeyCode::Down {
        stay(s.next_model())
    } else if is_char(key, 'k') || key.code == KeyCode::Up {
        stay(s.previous_model())
    } else if is_char(key, '/') {
        stay(
            AppStateView {
                current_mode: AppMode::Filter,
                filter_input: Seq::empty(),
                filter_cursor_pos: 0,
                status_message: None,
                ..s
            },
        )
    } else if is_char(key, 'c') && key.control {
        stay(
            if s.is_filtered {
                s.clear_filter()
            } else {
                s
            },
        )
    } else if is_char(key, 'd') {
        stay(
            if s.list_state is Some {
                AppStateView { current_mode: AppMode::ConfirmDelete, status_message: None, ..s }
            } else {
                s
            },
        )
    } else if is_char(key, 'i') {
        start(
            AppStateView {
                current_mode: AppMode::InstallSelectModel,
                is_fetching_registry: true,
                install_error: None,
                registry_models: Seq::empty(),
                registry_model_list_state: None,
                ..s
            },
            TaskRequestView::FetchRegistryModels,
        )
    } else if key.code == KeyCode::Enter {
        match s.selected_model_name() {
            Some(name) => start(
                AppStateView { current_mode: AppMode::RunningOllama, status_message: None, ..s },
                TaskRequestView::Run(name),
            ),
            None => stay(s),
        }
    } else {
        stay(s)
    }
}

/// A key in mode `Filter`.
pub open spec fn filter_step(s: AppStateView, key: KeyInput) -> AppStateView {
    if is_char(key, 'c') && key.control {
        AppStateView { filter_input: Seq::empty(), filter_cursor_pos: 0, ..s }.apply_filter()
    } else if key.code is Char {
        s.filter_input_char(key.code->Char_0)
    } else if key.code == KeyCode::Backspace {
        s.filter_input_backspace()
    } else if key.code == KeyCode::Left {
        s.filter_cursor_left()
    } else if key.code == KeyCode::Right {
        s.filter_cursor_right()
    } else if key.code == KeyCode::Enter {
        AppStateView {
            current_mode: AppMode::Normal,
            status_message: if s.is_filtered {
                Some(filter_summary(s.filter_input, s.visible_models().len()))
            } else {
                None
            },
            ..s
        }
    } else if key.code == KeyCode::Esc {
        AppStateView {
            current_mode: AppMode::Normal,
            status_message: Some("Filter cleared"@),
            ..s.clear_filter()
        }
    } else {
        s
    }
}

/// A key in mode `ConfirmDelete`.
pub open spec fn confirm_delete_step(s: AppStateView, key: KeyInput) -> KeyStep {
    if is_char(key, 'y') || is_char(key, 'Y') {
        match s.selected_model_name() {
            Some(name) => start(
                AppStateView {
                    current_mode: AppMode::Normal,
                    status_message: Some(deleting_text(name)),
                    ..s
                },
                TaskRequestView::Delete(name),
            ),
            None => stay(AppStateView { current_mode: AppMode::Normal, ..s }),
        }
    } else if is_char(key, 'n') || is_char(key, 'N') || key.code == KeyCode::Esc {
        stay(AppStateView { current_mode: AppMode::Normal, status_message: None, ..s })
    } else {
        stay(s)
    }
}

/// A key in mode `InstallSelectModel`.
pub open spec fn install_select_model_step(s: AppStateView, key: KeyInput) -> KeyStep {
    if is_char(key, '/') {
        stay(
            AppStateView {
                current_mode: AppMode::InstallSelectModelFilter,
                registry_filter_input: Seq::empty(),
                registry_filter_cursor_pos: 0,
                install_error: None,
                ..s
            },
        )
    } else if is_char(key, 'c') && key.control {
        stay(
            if s.is_registry_filtered {
                s.clear_registry_filter()
            } else {
                s
            },
        )
    } else if is_char(key, 'j') || key.code == KeyCode::Down {
        stay(
            AppStateView {
                registry_model_list_state: cycle_next(
                    s.registry_model_list_state,
                    s.visible_registry_models().len(),
                ),
                ..s
            },
        )
    } else if is_char(key, 'k') || key.code == KeyCode::Up {
        stay(
            AppStateView {
                registry_model_list_state: cycle_previous(
                    s.registry_model_list_state,
                    s.visible_registry_models().len(),
                ),
                ..s
            },
        )
    } else if key.code == KeyCode::Enter {
        match s.selected_registry_name() {
            Some(name) => start(
                AppStateView {
                    selected_registry_model: Some(name),
                    current_mode: AppMode::InstallSelectTag,
                    is_fetching_registry: true,
                    install_error: None,
                    registry_tags: Seq::empty(),
                    registry_tag_list_state: None,
                    ..s
                },
                TaskRequestView::FetchRegistryTags(name),
            ),
            None => stay(s),
        }
    } else if is_char(key, 'q') || key.code == KeyCode::Esc {
        stay(
            AppStateView {
                current_mode: AppMode::Normal,
                install_error: None,
                is_fetching_registry: false,
                ..s
            }.clear_registry_filter(),
        )
    } else {
        stay(s)
    }
}

/// A key in mode `InstallSelectTag`.
pub open spec fn install_select_tag_step(s: AppStateView, key: KeyInput) -> AppStateView {
    if is_char(key, 'j') || key.code == KeyCode::Down {
        AppStateView {
            registry_tag_list_state: cycle_next(s.registry_tag_list_state, s.registry_tags.len()),
            ..s
        }
    } else if is_char(key, 'k') || key.code == KeyCode::Up {
        AppStateView {
            registry_tag_list_state: cycle_previous(
                s.registry_tag_list_state,
                s.registry_tags.len(),
            ),
            ..s
        }
    } else if key.code == KeyCode::Enter {
        match s.selected_tag_name() {
            Some(tag) => AppStateView {
                selected_registry_tag: Some(tag),
                current_mode: AppMode::InstallConfirm,
                install_error: None,
                ..s
            },
            None => s,
        }
    } else if is_char(key, 'q') || key.code == KeyCode::Esc {
        AppStateView {
            current_mode: AppMode::InstallSelectModel,
            selected_registry_model: None,
            registry_tags: Seq::empty(),
            install_error: None,
            is_fetching_registry: false,
            ..s
        }
    } else {
        s
    }
}

/// A key in mode `InstallConfirm`.
pub open spec fn install_confirm_step(s: AppStateView, key: KeyInput) -> KeyStep {
    if is_char(key, 'y') || is_char(key, 'Y') {
        if s.selected_registry_model is Some && s.selected_registry_tag is Some {
            let model = s.selected_registry_model->0;
            let tag = s.selected_registry_tag->0;
            start(
                AppStateView {
                    current_mode: AppMode::Installing,
                    install_status: Some(starting_pull_text(model, tag)),
                    install_error: None,
                    ..s
                },
                TaskRequestView::Pull(model, tag),
            )
        } else {
            stay(
                AppStateView {
                    install_error: Some("Model or tag not selected."@),
                    current_mode: AppMode::InstallSelectTag,
                    ..s
                },
            )
        }
    } else if is_char(key, 'n') || is_char(key, 'N') || key.code == KeyCode::Esc {
        stay(
            AppStateView {
                current_mode: AppMode::InstallSelectTag,
                selected_registry_tag: None,
                install_error: None,
                ..s
            },
        )
    } else {
        stay(s)
    }
}

/// A key in mode `InstallSelectModelFilter`.
pub open spec fn install_filter_step(s: AppStateView, key: KeyInput) -> AppStateView {
    if is_char(key, 'c') && key.control {
        AppStateView {
            registry_filter_input: Seq::empty(),
            registry_filter_cursor_pos: 0,
            ..s
        }.apply_registry_filter()
    } else if key.code is Char {
        s.registry_filter_input_char(key.code->Char_0)
    } else if key.code == KeyCode::Backspace {
        s.registry_filter_input_backspace()
    } else if key.code == KeyCode::Left {
        s.registry_filter_cursor_left()
    } else if key.code == KeyCode::Right {
        s.registry_filter_cursor_right()
    } else if key.code == KeyCode::Enter {
        AppStateView {
            current_mode: AppMode::InstallSelectModel,
            install_error: if s.is_registry_filtered {
                Some(filter_summary(s.registry_filter_input, s.visible_registry_models().len()))
            } else {
                None
            },
            ..s
        }
    } else if key.code == KeyCode::Esc {
        AppStateView {
            current_mode: AppMode::InstallSelectModel,
            install_error: Some("Filter cleared"@),
            ..s.clear_registry_filter()
        }
    } else {
        s
    }
}

/// A key in mode `Help`: a dismiss key goes back to the mode that the help
/// interrupted.
pub open spec fn help_step(s: AppStateView, key: KeyInput) -> AppStateView {
    if is_char(key, 'h') || is_char(key, '?') || is_char(key, 'q') || key.code == KeyCode::Esc {
        AppStateView {
            current_mode: match s.previous_mode {
                Some(mode) => mode,
                None => AppMode::Normal,
            },
            previous_mode: None,
            status_message: None,
            ..s
        }
    } else {
        s
    }
}

/// What a key event does. A release does nothing. A help key opens the help
/// wherever the mode leaves character input alone. Every other key acts by
/// the mode; `Installing` and `RunningOllama` take no key.
pub open spec fn key_step(s: AppStateView, key: KeyInput) -> KeyStep {
    if !key.is_down() {
        stay(s)
    } else if opens_help(s, key) {
        stay(
            AppStateView {
                previous_mode: Some(s.current_mode),
                current_mode: AppMode::Help,
                status_message: None,
                ..s
            },
        )
    } else {
        match s.current_mode {
            AppMode::Normal => normal_step(s, key),
            AppMode::Filter => stay(filter_step(s, key)),
            AppMode::ConfirmDelete => confirm_delete_step(s, key),
            AppMode::InstallSelectModel => install_select_model_step(s, key),
            AppMode::InstallSelectModelFilter => stay(install_filter_step(s, key)),
            AppMode::InstallSelectTag => stay(install_select_tag_step(s, key)),
            AppMode::InstallConfirm => install_confirm_step(s, key),
            AppMode::Installing => stay(s),
            AppMode::RunningOllama => stay(s),
            AppMode::Help => stay(help_step(s, key)),
        }
    }
}

/// The key is the given character.
fn key_is(key: &KeyInput, c: char) -> (r: bool)
    ensures
        r == is_char(*key, c),
{
    match key.code {
        KeyCode::Char(k) => k == c,
        _ => false,
    }
}

/// The outcome that leaves the loop running and starts nothing.
fn idle() -> (out: KeyOutcome)
    ensures
        out@ == (KeyOutcomeView { quit: false, task: None }),
{
    KeyOutcome { quit: false, task: None }
}

/// The outcome that starts a task.
fn starting(task: TaskRequest) -> (out: KeyOutcome)
    ensures
        out@ == (KeyOutcomeView { quit: false, task: Some(task@) }),
{
    KeyOutcome { quit: false, task: Some(task) }
}

/// The status text that sums up a confirmed filter.
fn filter_summary_text(text: &str, count: usize) -> (r: String)
    ensures
        r@ == filter_summary(text@, count as nat),
{
    let mut r = String::from_str("Filter: '");
    r.append(text);
    r.append("' (");
    push_decimal(&mut r, count);
    r.append(" models)");
    r
}

/// Handles a key in mode `Normal`.
fn on_normal_key(key: KeyInput, app: &mut AppState) -> (out: KeyOutcome)
    ensures
        final(app)@ == normal_step(old(app)@, key).state,
        out@ == normal_step(old(app)@, key).outcome,
{
    if key_is(&key, 'q') {
        KeyOutcome { quit: true, task: None }
    } else if key_is(&key, 'j') || key.code == KeyCode::Down {
        app.next_model();
        idle()
    } else if key_is(&key, 'k') || key.code == KeyCode::Up {
        app.previous_model();
        idle()
    } else if key_is(&key, '/') {
        app.current_mode = AppMode::Filter;
        app.filter_input = String::new();
        app.filter_cursor_pos = 0;
        app.status_message = None;
        idle()
    } else if key_is(&key, 'c') && key.control {
        if app.is_filtered {
            app.clear_filter();
        }
        idle()
    } else if key_is(&key, 'd') {
        if app.list_state.selected().is_some() {
            app.current_mode = AppMode::ConfirmDelete;
            app.status_message = None;
        }
        idle()
    } else if key_is(&key, 'i') {
        app.current_mode = AppMode::InstallSelectModel;
        app.is_fetching_registry = true;
        app.install_error = None;
        app.registry_models = Vec::new();
        app.registry_model_list_state.select(None);
        assert(app.registry_models.deep_view() =~= Seq::empty());
        starting(TaskRequest::FetchRegistryModels)
    } else if key.code == KeyCode::Enter {
        match app.get_selected_model_name() {
            Some(name) => {
                app.current_mode = AppMode::RunningOllama;
                app.status_message = None;
                starting(TaskRequest::Run(name))
            },
            None => idle(),
        }
    } else {
        idle()
    }
}

/// Handles a key in mode `Filter`.
fn on_filter_key(key: KeyInput, app: &mut AppState)
    requires
        old(app)@.cursors_in_bounds(),
    ensures
        final(app)@ == filter_step(old(app)@, key),
{
    if key_is(&key, 'c') && key.control {
        app.filter_input = String::new();
        app.filter_cursor_pos = 0;
        app.apply_filter();
    } else {
        match key.code {
            KeyCode::Char(c) => {
                app.filter_input_char(c);
            },
            KeyCode::Backspace => {
                app.filter_input_backspace();
            },
            KeyCode::Left => {
                app.filter_cursor_left();
            },
            KeyCode::Right => {
                app.filter_cursor_right();
            },
            KeyCode::Enter => {
                app.current_mode = AppMode::Normal;
                if app.is_filtered {
                    let count = app.get_current_models().len();
                    app.status_message = Some(
                        filter_summary_text(app.filter_input.as_str(), count),
                    );
                } else {
                    app.status_message = None;
                }
            },
            KeyCode::Esc => {
                app.clear_filter();
                app.current_mode = AppMode::Normal;
                app.status_message = Some(String::from_str("Filter cleared"));
            },
            _ => {},
        }
    }
}

/// Handles a key in mode `ConfirmDelete`.
fn on_confirm_delete_key(key: KeyInput, app: &mut AppState) -> (out: KeyOutcome)
    ensures
        final(app)@ == confirm_delete_step(old(app)@, key).state,
        out@ == confirm_delete_step(old(app)@, key).outcome,
{
    if key_is(&key, 'y') || key_is(&key, 'Y') {
        let selected = app.get_selected_model_name();
        app.current_mode = AppMode::Normal;
        match selected {
            Some(name) => {
                let mut status = String::from_str("Deleting ");
                status.append(name.as_str());
                status.append("...");
                app.status_message = Some(status);
                starting(TaskRequest::Delete(name))
            },
            None => idle(),
        }
    } else if key_is(&key, 'n') || key_is(&key, 'N') || key.code == KeyCode::Esc {
        app.current_mode = AppMode::Normal;
        app.status_message = None;
        idle()
    } else {
        idle()
    }
}

/// The name of the selected registry model.
fn selected_registry_name(app: &AppState) -> (name: Option<String>)
    ensures
        name.deep_view() == app@.selected_registry_name(),
{
    let visible = app.get_current_registry_models();
    match app.registry_model_list_state.selected() {
        Some(i) => if i < visible.len() {
            Some(visible[i].clone())
        } else {
            None
        },
        None => None,
    }
}

/// The name of the selected tag.
fn selected_tag_name(app: &AppState) -> (name: Option<String>)
    ensures
        name.deep_view() == app@.selected_tag_name(),
{
    match app.registry_tag_list_state.selected() {
        Some(i) => if i < app.registry_tags.len() {
            Some(app.registry_tags[i].clone())
        } else {
            None
        },
        None => None,
    }
}

/// Handles a key in mode `InstallSelectModel`.
fn on_install_select_model_key(key: KeyInput, app: &mut AppState) -> (out: KeyOutcome)
    ensures
        final(app)@ == install_select_model_step(old(app)@, key).state,
        out@ == install_select_model_step(old(app)@, key).outcome,
{
    if key_is(&key, '/') {
        app.current_mode = AppMode::InstallSelectModelFilter;
        app.registry_filter_input = String::new();
        app.registry_filter_cursor_pos = 0;
        app.install_error = None;
        idle()
    } else if key_is(&key, 'c') && key.control {
        if app.is_registry_filtered {
            app.clear_registry_filter();
        }
        idle()
    } else if key_is(&key, 'j') || key.code == KeyCode::Down {
        let len = app.get_current_registry_models().len();
        app.registry_model_list_state.select_next(len);
        idle()
    } else if key_is(&key, 'k') || key.code == KeyCode::Up {
        let len = app.get_current_registry_models().len();
        app.registry_model_list_state.select_previous(len);
        idle()
    } else if key.code == KeyCode::Enter {
        match selected_registry_name(app) {
            Some(name) => {
                app.selected_registry_model = Some(name.clone());
                app.current_mode = AppMode::InstallSelectTag;
                app.is_fetching_registry = true;
                app.install_error = None;
                app.registry_tags = Vec::new();
                app.registry_tag_list_state.select(None);
                assert(app.registry_tags.deep_view() =~= Seq::empty());
                starting(TaskRequest::FetchRegistryTags(name))
            },
            None => idle(),
        }
    } else if key_is(&key, 'q') || key.code == KeyCode::Esc {
        app.current_mode = AppMode::Normal;
        app.install_error = None;
        app.is_fetching_registry = false;
        app.clear_registry_filter();
        idle()
    } else {
        idle()
    }
}

/// Handles a key in mode `InstallSelectTag`.
fn on_install_select_tag_key(key: KeyInput, app: &mut AppState)
    ensures
        final(app)@ == install_select_tag_step(old(app)@, key),
{
    if key_is(&key, 'j') || key.code == KeyCode::Down {
        let len = app.registry_tags.len();
        app.registry_tag_list_state.select_next(len);
    } else if key_is(&key, 'k') || key.code == KeyCode::Up {
        let len = app.registry_tags.len();
        app.registry_tag_list_state.select_previous(len);
    } else if key.code == KeyCode::Enter {
        match selected_tag_name(app) {
            Some(tag) => {
                app.selected_registry_tag = Some(tag);
                app.current_mode = AppMode::InstallConfirm;
                app.install_error = None;
            },
            None => {},
        }
    } else if key_is(&key, 'q') || key.code == KeyCode::Esc {
        app.current_mode = AppMode::InstallSelectModel;
        app.selected_registry_model = None;
        app.registry_tags = Vec::new();
        app.install_error = None;
        app.is_fetching_registry = false;
        assert(app.registry_tags.deep_view() =~= Seq::empty());
    }
}

/// The model and the tag that were chosen, where both were.
fn chosen_model_and_tag(app: &AppState) -> (chosen: Option<(String, String)>)
    ensures
        match chosen {
            Some((model, tag)) => app@.selected_registry_model == Some(model@)
                && app@.selected_registry_tag == Some(tag@),
            None => app@.selected_registry_model is None || app@.selected_registry_tag is None,
        },
{
    match &app.selected_registry_model {
        Some(model) => match &app.selected_registry_tag {
            Some(tag) => Some((model.clone(), tag.clone())),
            None => None,
        },
        None => None,
    }
}

/// Handles a key in mode `InstallConfirm`.
fn on_install_confirm_key(key: KeyInput, app: &mut AppState) -> (out: KeyOutcome)
    ensures
        final(app)@ == install_confirm_step(old(app)@, key).state,
        out@ == install_confirm_step(old(app)@, key).outcome,
{
    if key_is(&key, 'y') || key_is(&key, 'Y') {
        match chosen_model_and_tag(app) {
            Some((model, tag)) => {
                let mut status = String::from_str("Starting pull for ");
                status.append(model.as_str());
                status.append(":");
                status.append(tag.as_str());
                status.append("...");
                app.current_mode = AppMode::Installing;
                app.install_status = Some(status);
                app.install_error = None;
                starting(TaskRequest::Pull(model, tag))
            },
            None => {
                app.install_error = Some(String::from_str("Model or tag not selected."));
                app.current_mode = AppMode::InstallSelectTag;
                idle()
            },
        }
    } else if key_is(&key, 'n') || key_is(&key, 'N') || key.code == KeyCode::Esc {
        app.current_mode = AppMode::InstallSelectTag;
        app.selected_registry_tag = None;
        app.install_error = None;
        idle()
    } else {
        idle()
    }
}

/// Handles a key in mode `InstallSelectModelFilter`.
fn on_install_filter_key(key: KeyInput, app: &mut AppState)
    requires
        old(app)@.cursors_in_bounds(),
    ensures
        final(app)@ == install_filter_step(old(app)@, key),
{
    if key_is(&key, 'c') && key.control {
        app.registry_filter_input = String::new();
        app.registry_filter_cursor_pos = 0;
        app.apply_registry_filter();
    } else {
        match key.code {
            KeyCode::Char(c) => {
                app.registry_filter_input_char(c);
            },
            KeyCode::Backspace => {
                app.registry_filter_input_backspace();
            },
            KeyCode::Left => {
                app.registry_filter_cursor_left();
            },
            KeyCode::Right => {
                app.registry_filter_cursor_right();
            },
            KeyCode::Enter => {
                app.current_mode = AppMode::InstallSelectModel;
                if app.is_registry_filtered {
                    let count = app.get_current_registry_models().len();
                    app.install_error = Some(
                        filter_summary_text(app.registry_filter_input.as_str(), count),
                    );
                } else {
                    app.install_error = None;
                }
            },
            KeyCode::Esc => {
                app.clear_registry_filter();
                app.current_mode = AppMode::InstallSelectModel;
                app.install_error = Some(String::from_str("Filter cleared"));
            },
            _ => {},
        }
    }
}

/// Handles a key in mode `Help`.
fn on_help_key(key: KeyInput, app: &mut AppState)
    ensures
        final(app)@ == help_step(old(app)@, key),
{
    if key_is(&key, 'h') || key_is(&key, '?') || key_is(&key, 'q') || key.code == KeyCode::Esc {
        app.current_mode = match app.previous_mode {
            Some(mode) => mode,
            None => AppMode::Normal,
        };
        app.previous_mode = None;
        app.status_message = None;
    }
}

/// Handles one key event of the terminal: changes the session state by the
/// mode, and returns whether the loop ends and which task it has to start.
pub fn handle_key_event(key: KeyInput, app: &mut AppState) -> (out: KeyOutcome)
    requires
        old(app)@.cursors_in_bounds(),
    ensures
        final(app)@ == key_step(old(app)@, key).state,
        out@ == key_step(old(app)@, key).outcome,
        old(app)@.wf() ==> final(app)@.wf(),
{
    proof {
        if app@.wf() {
            lemma_key_step_keeps_invariant(app@, key);
        }
    }
    if !(key.kind == KeyKind::Press || key.kind == KeyKind::Repeat) {
        return idle();
    }
    if app.is_global_key_handling_enabled() && (key_is(&key, 'h') || key_is(&key, '?')) {
        app.previous_mode = Some(app.current_mode);
        app.current_mode = AppMode::Help;
        app.status_message = None;
        return idle();
    }
    match app.current_mode {
        AppMode::Normal => on_normal_key(key, app),
        AppMode::Filter => {
            on_filter_key(key, app);
            idle()
        },
        AppMode::ConfirmDelete => on_confirm_delete_key(key, app),
        AppMode::InstallSelectModel => on_install_select_model_key(key, app),
        AppMode::InstallSelectModelFilter => {
            on_install_filter_key(key, app);
            idle()
        },
        AppMode::InstallSelectTag => {
            on_install_select_tag_key(key, app);
            idle()
        },
        AppMode::InstallConfirm => on_install_confirm_key(key, app),
        AppMode::Installing => idle(),
        AppMode::RunningOllama => idle(),
        AppMode::Help => {
            on_help_key(key, app);
            idle()
        },
    }
}

/// The status text after a successful pull, until the refreshed list arrives.
pub open spec fn pull_succeeded_text() -> Seq<char> {
    "Model pull successful! Refreshing list..."@
}

/// The details of a model arrived, or failed to. Either way no fetch is in
/// flight any more. The result is stored as it comes: the event does not say
/// which model it is about.
pub open spec fn details_fetched_step(
    s: AppStateView,
    result: Result<ShowModelResponse, AppError>,
) -> AppStateView {
    match result {
        Ok(details) => AppStateView {
            is_fetching_details: false,
            selected_model_details: Some(details@),
            status_message: None,
            ..s
        },
        Err(e) => AppStateView {
            is_fetching_details: false,
            selected_model_details: None,
            status_message: Some("Error fetching details: "@ + e.text()),
            ..s
        },
    }
}

/// The names of the registry's models arrived, or failed to. A failure
/// falls back to mode `Normal`.
pub open spec fn registry_models_fetched_step(
    s: AppStateView,
    result: Result<Vec<String>, AppError>,
) -> AppStateView {
    match result {
        Ok(models) => {
            let loaded = AppStateView {
                is_fetching_registry: false,
                registry_models: models.deep_view(),
                ..s
            };
            let selected = if loaded.is_registry_filtered {
                loaded.apply_registry_filter()
            } else {
                AppStateView {
                    registry_model_list_state: if models.deep_view().len() == 0 {
                        None
                    } else {
                        Some(0)
                    },
                    ..loaded
                }
            };
            AppStateView { install_error: None, ..selected }
        },
        Err(e) => AppStateView {
            is_fetching_registry: false,
            install_error: Some("Failed to fetch models: "@ + e.text()),
            current_mode: AppMode::Normal,
            ..s
        },
    }
}

/// The tags of a registry model arrived, or failed to. A failure, and an
/// empty list of tags, fall back to mode `InstallSelectModel` with an error
/// message.
pub open spec fn registry_tags_fetched_step(
    s: AppStateView,
    result: Result<Vec<String>, AppError>,
) -> AppStateView {
    match result {
        Ok(tags) => if tags.deep_view().len() == 0 {
            AppStateView {
                is_fetching_registry: false,
                registry_tags: Seq::empty(),
                registry_tag_list_state: None,
                install_error: Some("No tags found for this model."@),
                current_mode: AppMode::InstallSelectModel,
                ..s
            }
        } else {
            AppStateView {
                is_fetching_registry: false,
                registry_tags: tags.deep_view(),
                registry_tag_list_state: Some(0),
                install_error: None,
                ..s
            }
        },
        Err(e) => AppStateView {
            is_fetching_registry: false,
            install_error: Some("Failed to fetch tags: "@ + e.text()),
            current_mode: AppMode::InstallSelectModel,
            ..s
        },
    }
}

/// A pull ended, or a delete failed. A failure falls back to mode `Normal`
/// with an error message. The chosen model and tag are forgotten.
pub open spec fn pull_completed_step(s: AppStateView, result: Result<(), AppError>) -> AppStateView {
    match result {
        Ok(_) => AppStateView {
            install_status: None,
            status_message: Some(pull_succeeded_text()),
            selected_registry_model: None,
            selected_registry_tag: None,
            ..s
        },
        Err(e) => AppStateView {
            install_status: None,
            install_error: Some("Model pull/delete failed: "@ + e.text()),
            current_mode: AppMode::Normal,
            selected_registry_model: None,
            selected_registry_tag: None,
            ..s
        },
    }
}

/// The list of local models arrived again, or failed to. A new list replaces
/// the inventory; an active filter is applied to it again, and the selection
/// stays on its row as far as the visible models reach. A failure is shown
/// only where no install error is on display. Either way the mode is
/// `Normal` afterwards.
pub open spec fn models_refreshed_step(
    s: AppStateView,
    result: Result<Vec<ModelInfo>, AppError>,
) -> AppStateView {
    match result {
        Ok(models) => {
            let selected = inventory_replaced(s, models.deep_view());
            AppStateView {
                status_message: if selected.status_message == Some(pull_succeeded_text()) {
                    None
                } else {
                    selected.status_message
                },
                current_mode: AppMode::Normal,
                install_status: None,
                ..selected
            }
        },
        Err(e) => AppStateView {
            status_message: if s.install_error is None {
                Some("Error refreshing models: "@ + e.text())
            } else {
                s.status_message
            },
            current_mode: AppMode::Normal,
            install_status: None,
            ..s
        },
    }
}

/// What the completion of a background task does to the state.
pub open spec fn event_step(s: AppStateView, event: AppEvent) -> AppStateView {
    match event {
        AppEvent::ModelDetailsFetched(result) => details_fetched_step(s, result),
        AppEvent::RegistryModelsFetched(result) => registry_models_fetched_step(s, result),
        AppEvent::RegistryTagsFetched(result) => registry_tags_fetched_step(s, result),
        AppEvent::ModelPullCompleted(result) => pull_completed_step(s, result),
        AppEvent::LocalModelsRefreshed(result) => models_refreshed_step(s, result),
        AppEvent::OllamaRunCompleted(_) => AppStateView { current_mode: AppMode::Normal, ..s },
    }
}

/// What the end of the foreground program does to the state: back to mode
/// `Normal`, with the failure, if any, as status.
pub open spec fn run_completed_step(s: AppStateView, result: Result<(), AppError>) -> AppStateView {
    AppStateView {
        current_mode: AppMode::Normal,
        status_message: match result {
            Ok(_) => None,
            Err(e) => Some("'ollama run' failed: "@ + e.text()),
        },
        ..s
    }
}

/// The text `prefix` followed by the message of the error.
fn error_text(prefix: &str, e: &AppError) -> (r: String)
    ensures
        r@ == prefix@ + e.text(),
{
    let message = e.message();
    String::from_str(prefix).concat(message.as_str())
}

/// Takes in the details of a model, or the failure to fetch them.
fn on_details_fetched(result: Result<ShowModelResponse, AppError>, app: &mut AppState)
    ensures
        final(app)@ == details_fetched_step(old(app)@, result),
{
    app.is_fetching_details = false;
    match result {
        Ok(details) => {
            app.selected_model_details = Some(details);
            app.status_message = None;
        },
        Err(e) => {
            app.selected_model_details = None;
            app.status_message = Some(error_text("Error fetching details: ", &e));
        },
    }
}

/// Takes in the names of the registry's models, or the failure to fetch them.
fn on_registry_models_fetched(result: Result<Vec<String>, AppError>, app: &mut AppState)
    ensures
        final(app)@ == registry_models_fetched_step(old(app)@, result),
{
    app.is_fetching_registry = false;
    match result {
        Ok(models) => {
            app.registry_models = models;
            if app.is_registry_filtered {
                app.apply_registry_filter();
            } else if app.registry_models.len() != 0 {
                app.registry_model_list_state.select(Some(0));
            } else {
                app.registry_model_list_state.select(None);
            }
            app.install_error = None;
        },
        Err(e) => {
            app.install_error = Some(error_text("Failed to fetch models: ", &e));
            app.current_mode = AppMode::Normal;
        },
    }
}

/// Takes in the tags of a registry model, or the failure to fetch them.
fn on_registry_tags_fetched(result: Result<Vec<String>, AppError>, app: &mut AppState)
    ensures
        final(app)@ == registry_tags_fetched_step(old(app)@, result),
{
    app.is_fetching_registry = false;
    match result {
        Ok(tags) => {
            if tags.len() != 0 {
                app.registry_tags = tags;
                app.registry_tag_list_state.select(Some(0));
                app.install_error = None;
            } else {
                app.registry_tags = tags;
                app.registry_tag_list_state.select(None);
                app.install_error = Some(String::from_str("No tags found for this model."));
                app.current_mode = AppMode::InstallSelectModel;
                assert(app.registry_tags.deep_view() =~= Seq::empty());
            }
        },
        Err(e) => {
            app.install_error = Some(error_text("Failed to fetch tags: ", &e));
            app.current_mode = AppMode::InstallSelectModel;
        },
    }
}

/// Takes in the end of a pull, or the failure of a delete.
fn on_pull_completed(result: Result<(), AppError>, app: &mut AppState)
    ensures
        final(app)@ == pull_completed_step(old(app)@, result),
{
    app.install_status = None;
    match result {
        Ok(_) => {
            app.status_message = Some(
                String::from_str("Model pull successful! Refreshing list..."),
            );
        },
        Err(e) => {
            app.install_error = Some(error_text("Model pull/delete failed: ", &e));
            app.current_mode = AppMode::Normal;
        },
    }
    app.selected_registry_model = None;
    app.selected_registry_tag = None;
}

/// The state with a refreshed inventory: the list is replaced, an active
/// filter is applied to it again, and the selection stays on its row as far
/// as the visible models reach.
pub open spec fn inventory_replaced(s: AppStateView, models: Seq<ModelInfoView>) -> AppStateView {
    let loaded = AppStateView { models, ..s };
    let filtered = if loaded.is_filtered {
        loaded.apply_filter()
    } else {
        loaded
    };
    filtered.select_and_prepare_fetch(s.list_state)
}

/// Replaces the inventory by a refreshed list.
fn replace_inventory(models: Vec<ModelInfo>, app: &mut AppState)
    ensures
        final(app)@ == inventory_replaced(old(app)@, models.deep_view()),
{
    let old_selection = app.list_state.selected();
    app.models = models;
    if app.is_filtered {
        app.apply_filter();
    }
    app.select_and_prepare_fetch(old_selection);
}

/// Takes in the refreshed list of local models, or the failure to fetch it.
fn on_models_refreshed(result: Result<Vec<ModelInfo>, AppError>, app: &mut AppState)
    ensures
        final(app)@ == models_refreshed_step(old(app)@, result),
{
    match result {
        Ok(models) => {
            replace_inventory(models, app);
            let pull_succeeded = match &app.status_message {
                Some(status) => *status == String::from_str(
                    "Model pull successful! Refreshing list...",
                ),
                None => false,
            };
            if pull_succeeded {
                app.status_message = None;
            }
        },
        Err(e) => {
            if app.install_error.is_none() {
                app.status_message = Some(error_text("Error refreshing models: ", &e));
            }
        },
    }
    app.current_mode = AppMode::Normal;
    app.install_status = None;
}

/// Handles the completion event of a background task.
pub fn handle_app_event(event: AppEvent, app: &mut AppState)
    ensures
        final(app)@ == event_step(old(app)@, event),
        old(app)@.wf() ==> final(app)@.wf(),
{
    proof {
        if app@.wf() {
            lemma_event_step_keeps_invariant(app@, event);
        }
    }
    match event {
        AppEvent::ModelDetailsFetched(result) => on_details_fetched(result, app),
        AppEvent::RegistryModelsFetched(result) => on_registry_models_fetched(result, app),
        AppEvent::RegistryTagsFetched(result) => on_registry_tags_fetched(result, app),
        AppEvent::ModelPullCompleted(result) => on_pull_completed(result, app),
        AppEvent::LocalModelsRefreshed(result) => on_models_refreshed(result, app),
        AppEvent::OllamaRunCompleted(_) => {
            app.current_mode = AppMode::Normal;
        },
    }
}

/// Handles the end of the foreground program. The caller redraws the whole
/// screen afterwards.
pub fn handle_ollama_run_completion(result: Result<(), AppError>, app: &mut AppState)
    ensures
        final(app)@ == run_completed_step(old(app)@, result),
        old(app)@.wf() ==> final(app)@.wf(),
{
    app.current_mode = AppMode::Normal;
    match result {
        Ok(_) => {
            app.status_message = None;
        },
        Err(e) => {
            app.status_message = Some(error_text("'ollama run' failed: ", &e));
        },
    }
}

} // verus!
