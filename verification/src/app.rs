//! The session state: modes, the inventory of local models with its filter
//! and selection, and the state of the install flow.
//!
//! `AppStateView` is the mathematical value of the state. Every operation is
//! first a spec function on that value; the executable method of `AppState`
//! with the same name is proved to compute it.

use crate::ollama_api::{ModelInfo, ModelInfoView, ShowModelResponse, ShowModelResponseView};
use crate::text::{insert_char, is_substring, lowercase, matches_lowered, remove_char, to_lowercase};
use vstd::prelude::*;
use vstd::string::*;

verus! {

/// What the application is doing. Exactly one mode is active at a time.
#[derive(Debug, PartialEq, Eq, Clone, Copy, Structural)]
pub enum AppMode {
    Normal,
    Filter,
    ConfirmDelete,
    InstallSelectModel,
    InstallSelectModelFilter,
    InstallSelectTag,
    InstallConfirm,
    Installing,
    RunningOllama,
    Help,
}

/// The selection of a list: the index of the highlighted row, if any.
#[derive(Debug, Clone, Copy)]
pub struct ListState {
    pub selected: Option<usize>,
}

impl ListState {
    /// A list with no row selected.
    pub fn new() -> (s: ListState)
        ensures
            s.selected is None,
    {
        ListState { selected: None }
    }

    /// Selects the given row, or none.
    pub fn select(&mut self, index: Option<usize>)
        ensures
            final(self).selected == index,
    {
        self.selected = index;
    }

    /// The selected row.
    pub fn selected(&self) -> (r: Option<usize>)
        ensures
            r == self.selected,
    {
        self.selected
    }

    /// Moves the selection to the next row of a list of `len` rows, going
    /// round at the end.
    pub fn select_next(&mut self, len: usize)
        ensures
            final(self).row() == cycle_next(old(self).row(), len as nat),
    {
        if len > 0 {
            let row: usize = match self.selected {
                Some(i) => {
                    let r: usize = i % len;
                    assert(((i + 1) as int) % (len as int) == if r + 1 == len {
                        0
                    } else {
                        r + 1
                    }) by (nonlinear_arith)
                        requires
                            r == (i as int) % (len as int),
                            len > 0,
                            i >= 0,
                    ;
                    if r + 1 == len {
                        0
                    } else {
                        r + 1
                    }
                },
                None => 0,
            };
            self.selected = Some(row);
        }
    }

    /// Moves the selection to the previous row of a list of `len` rows,
    /// going round at the start.
    pub fn select_previous(&mut self, len: usize)
        ensures
            final(self).row() == cycle_previous(old(self).row(), len as nat),
    {
        if len > 0 {
            let row: usize = match self.selected {
                Some(i) => {
                    let r: usize = i % len;
                    assert(((i + len - 1) as int) % (len as int) == if r == 0 {
                        len - 1
                    } else {
                        r - 1
                    }) by (nonlinear_arith)
                        requires
                            r == (i as int) % (len as int),
                            len > 0,
                            i >= 0,
                    ;
                    if r == 0 {
                        len - 1
                    } else {
                        r - 1
                    }
                },
                None => len - 1,
            };
            self.selected = Some(row);
        }
    }

    /// The selected row as a natural number.
    pub open spec fn row(&self) -> Option<nat> {
        match self.selected {
            Some(i) => Some(i as nat),
            None => None,
        }
    }
}

/// The predicate that keeps the models whose name, in lower case, contains
/// the given text.
pub open spec fn model_contains(lowered: Seq<char>) -> spec_fn(ModelInfoView) -> bool {
    |m: ModelInfoView| is_substring(lowered, lowercase(m.name))
}

/// The predicate that keeps the names that, in lower case, contain the given
/// text.
pub open spec fn name_contains(lowered: Seq<char>) -> spec_fn(Seq<char>) -> bool {
    |n: Seq<char>| is_substring(lowered, lowercase(n))
}

/// The models whose name matches the filter text, in the order in which they are listed.
pub open spec fn matching_models(models: Seq<ModelInfoView>, filter: Seq<char>) -> Seq<
    ModelInfoView,
> {
    models.filter(model_contains(lowercase(filter)))
}

/// `filtered` holds the models of `models` that match some filter text, in
/// the order in which they are listed.
pub open spec fn is_filter_of(filtered: Seq<ModelInfoView>, models: Seq<ModelInfoView>) -> bool {
    exists|text: Seq<char>| filtered == #[trigger] matching_models(models, text)
}

/// The names that match the filter text, in the order in which they are listed.
pub open spec fn matching_names(names: Seq<Seq<char>>, filter: Seq<char>) -> Seq<Seq<char>> {
    names.filter(name_contains(lowercase(filter)))
}

/// A selection fits a list of `len` rows: no row is selected exactly when the
/// list is empty, and a selected row exists.
pub open spec fn selection_fits(selected: Option<nat>, len: nat) -> bool {
    match selected {
        Some(i) => i < len,
        None => len == 0,
    }
}

/// A selection, if there is one, names an existing row of a list of `len` rows.
pub open spec fn selection_in_bounds(selected: Option<nat>, len: nat) -> bool {
    match selected {
        Some(i) => i < len,
        None => true,
    }
}

/// The row after `selected` in a list of `len` rows, going round from the
/// last row to the first. From no selection it is the first row.
pub open spec fn next_row(selected: Option<nat>, len: nat) -> nat {
    match selected {
        Some(i) => if i + 1 >= len {
            0
        } else {
            i + 1
        },
        None => 0,
    }
}

/// The row before `selected` in a list of `len` rows, going round from the
/// first row to the last. From no selection it is the first row.
pub open spec fn previous_row(selected: Option<nat>, len: nat) -> nat {
    match selected {
        Some(i) => if i == 0 {
            if len == 0 {
                0
            } else {
                (len - 1) as nat
            }
        } else {
            (i - 1) as nat
        },
        None => 0,
    }
}

/// The row after `selected` in a list that goes round: the remainder of the
/// next index by the length. From no selection it is the first row. An empty
/// list keeps its selection.
pub open spec fn cycle_next(selected: Option<nat>, len: nat) -> Option<nat> {
    if len == 0 {
        selected
    } else {
        match selected {
            Some(i) => Some((((i + 1) as int) % (len as int)) as nat),
            None => Some(0),
        }
    }
}

/// The row before `selected` in a list that goes round. From no selection it
/// is the last row. An empty list keeps its selection.
pub open spec fn cycle_previous(selected: Option<nat>, len: nat) -> Option<nat> {
    if len == 0 {
        selected
    } else {
        match selected {
            Some(i) => Some((((i + len - 1) as int) % (len as int)) as nat),
            None => Some((len - 1) as nat),
        }
    }
}

/// The mathematical value of the session state.
pub struct AppStateView {
    pub models: Seq<ModelInfoView>,
    pub filtered_models: Seq<ModelInfoView>,
    pub list_state: Option<nat>,
    pub selected_model_details: Option<ShowModelResponseView>,
    pub status_message: Option<Seq<char>>,
    pub current_mode: AppMode,
    pub should_quit: bool,
    pub is_fetching_details: bool,
    pub filter_input: Seq<char>,
    pub is_filtered: bool,
    pub filter_cursor_pos: nat,
    pub registry_models: Seq<Seq<char>>,
    pub filtered_registry_models: Seq<Seq<char>>,
    pub registry_tags: Seq<Seq<char>>,
    pub registry_model_list_state: Option<nat>,
    pub registry_tag_list_state: Option<nat>,
    pub selected_registry_model: Option<Seq<char>>,
    pub selected_registry_tag: Option<Seq<char>>,
    pub is_fetching_registry: bool,
    pub install_error: Option<Seq<char>>,
    pub install_status: Option<Seq<char>>,
    pub previous_mode: Option<AppMode>,
    pub registry_filter_input: Seq<char>,
    pub is_registry_filtered: bool,
    pub registry_filter_cursor_pos: nat,
}

impl AppStateView {
    /// The state at startup.
    pub open spec fn initial() -> AppStateView {
        AppStateView {
            models: Seq::empty(),
            filtered_models: Seq::empty(),
            list_state: None,
            selected_model_details: None,
            status_message: Some("Loading models..."@),
            current_mode: AppMode::Normal,
            should_quit: false,
            is_fetching_details: false,
            filter_input: Seq::empty(),
            is_filtered: false,
            filter_cursor_pos: 0,
            registry_models: Seq::empty(),
            filtered_registry_models: Seq::empty(),
            registry_tags: Seq::empty(),
            registry_model_list_state: None,
            registry_tag_list_state: None,
            selected_registry_model: None,
            selected_registry_tag: None,
            is_fetching_registry: false,
            install_error: None,
            install_status: None,
            previous_mode: None,
            registry_filter_input: Seq::empty(),
            is_registry_filtered: false,
            registry_filter_cursor_pos: 0,
        }
    }

    /// The local models on display: the filtered ones while a filter is
    /// active, all of them otherwise.
    pub open spec fn visible_models(self) -> Seq<ModelInfoView> {
        if self.is_filtered {
            self.filtered_models
        } else {
            self.models
        }
    }

    /// The registry models on display.
    pub open spec fn visible_registry_models(self) -> Seq<Seq<char>> {
        if self.is_registry_filtered {
            self.filtered_registry_models
        } else {
            self.registry_models
        }
    }

    /// While a filter is active, the filtered models are the full inventory
    /// filtered by some text.
    pub open spec fn filter_consistent(self) -> bool {
        self.is_filtered ==> is_filter_of(self.filtered_models, self.models)
    }

    /// Both cursors lie within their texts.
    pub open spec fn cursors_in_bounds(self) -> bool {
        &&& self.filter_cursor_pos <= self.filter_input.len()
        &&& self.registry_filter_cursor_pos <= self.registry_filter_input.len()
    }

    /// The invariant of the session state: both cursors lie within their
    /// texts, the selection of local models fits the visible models, the
    /// selection of registry models is within the visible registry models,
    /// and the filtered models are a filter of the inventory.
    pub open spec fn wf(self) -> bool {
        &&& self.cursors_in_bounds()
        &&& selection_fits(self.list_state, self.visible_models().len())
        &&& selection_in_bounds(
            self.registry_model_list_state,
            self.visible_registry_models().len(),
        )
        &&& self.filter_consistent()
    }

    /// The name of the selected local model.
    pub open spec fn selected_model_name(self) -> Option<Seq<char>> {
        match self.list_state {
            Some(i) => if i < self.visible_models().len() {
                Some(self.visible_models()[i as int].name)
            } else {
                None
            },
            None => None,
        }
    }

    /// The name of the selected registry model.
    pub open spec fn selected_registry_name(self) -> Option<Seq<char>> {
        match self.registry_model_list_state {
            Some(i) => if i < self.visible_registry_models().len() {
                Some(self.visible_registry_models()[i as int])
            } else {
                None
            },
            None => None,
        }
    }

    /// The name of the selected tag.
    pub open spec fn selected_tag_name(self) -> Option<Seq<char>> {
        match self.registry_tag_list_state {
            Some(i) => if i < self.registry_tags.len() {
                Some(self.registry_tags[i as int])
            } else {
                None
            },
            None => None,
        }
    }

    /// Recomputes the visible models from the filter text. An empty text
    /// switches the filter off. The selection goes to the first visible
    /// model, or to none where no model is visible; the cached details are
    /// dropped, and where a model is visible a new fetch is permitted.
    pub open spec fn apply_filter(self) -> AppStateView {
        let is_filtered = self.filter_input.len() != 0;
        let filtered = if is_filtered {
            matching_models(self.models, self.filter_input)
        } else {
            Seq::empty()
        };
        let visible = if is_filtered {
            filtered
        } else {
            self.models
        };
        AppStateView {
            filtered_models: filtered,
            is_filtered,
            list_state: if visible.len() == 0 {
                None
            } else {
                Some(0)
            },
            selected_model_details: None,
            is_fetching_details: visible.len() == 0 && self.is_fetching_details,
            ..self
        }
    }

    /// Empties the filter text and switches the filter off. The selection
    /// goes to the first model of the inventory.
    pub open spec fn clear_filter(self) -> AppStateView {
        let none = self.models.len() == 0;
        AppStateView {
            filter_input: Seq::empty(),
            filter_cursor_pos: 0,
            is_filtered: false,
            filtered_models: Seq::empty(),
            list_state: if none {
                None
            } else {
                Some(0)
            },
            selected_model_details: if none {
                self.selected_model_details
            } else {
                None
            },
            is_fetching_details: none && self.is_fetching_details,
            ..self
        }
    }

    /// Types a character at the cursor and filters again.
    pub open spec fn filter_input_char(self, c: char) -> AppStateView {
        AppStateView {
            filter_input: self.filter_input.insert(self.filter_cursor_pos as int, c),
            filter_cursor_pos: self.filter_cursor_pos + 1,
            ..self
        }.apply_filter()
    }

    /// Deletes the character before the cursor and filters again. At the
    /// start of the text nothing changes.
    pub open spec fn filter_input_backspace(self) -> AppStateView {
        if self.filter_cursor_pos > 0 {
            AppStateView {
                filter_input: self.filter_input.remove(self.filter_cursor_pos - 1),
                filter_cursor_pos: (self.filter_cursor_pos - 1) as nat,
                ..self
            }.apply_filter()
        } else {
            self
        }
    }

    /// Moves the cursor one character to the left, if it is not at the start.
    pub open spec fn filter_cursor_left(self) -> AppStateView {
        if self.filter_cursor_pos > 0 {
            AppStateView { filter_cursor_pos: (self.filter_cursor_pos - 1) as nat, ..self }
        } else {
            self
        }
    }

    /// Moves the cursor one character to the right, if it is not at the end.
    pub open spec fn filter_cursor_right(self) -> AppStateView {
        if self.filter_cursor_pos < self.filter_input.len() {
            AppStateView { filter_cursor_pos: self.filter_cursor_pos + 1, ..self }
        } else {
            self
        }
    }

    /// Selects a row of the visible models, by default the first, and at most
    /// the last. Where the row changes, or no details are cached, the cached
    /// details are dropped, the status says that a fetch is under way, and a
    /// new fetch is permitted. With no visible model the selection is
    /// cleared.
    pub open spec fn select_and_prepare_fetch(self, index: Option<nat>) -> AppStateView {
        let len = self.visible_models().len();
        if len == 0 {
            AppStateView {
                list_state: None,
                selected_model_details: None,
                is_fetching_details: false,
                ..self
            }
        } else {
            let wanted = match index {
                Some(i) => i,
                None => 0,
            };
            let row = if wanted < len {
                wanted
            } else {
                (len - 1) as nat
            };
            if self.list_state != Some(row) || self.selected_model_details is None {
                AppStateView {
                    list_state: Some(row),
                    selected_model_details: None,
                    status_message: Some("Fetching details..."@),
                    is_fetching_details: false,
                    ..self
                }
            } else {
                self
            }
        }
    }

    /// Selects the next visible model, going round at the end.
    pub open spec fn next_model(self) -> AppStateView {
        self.select_and_prepare_fetch(
            Some(next_row(self.list_state, self.visible_models().len())),
        )
    }

    /// Selects the previous visible model, going round at the start.
    pub open spec fn previous_model(self) -> AppStateView {
        self.select_and_prepare_fetch(
            Some(previous_row(self.list_state, self.visible_models().len())),
        )
    }

    /// Recomputes the visible registry models from the registry filter text.
    pub open spec fn apply_registry_filter(self) -> AppStateView {
        let is_filtered = self.registry_filter_input.len() != 0;
        let filtered = if is_filtered {
            matching_names(self.registry_models, self.registry_filter_input)
        } else {
            Seq::empty()
        };
        let visible = if is_filtered {
            filtered
        } else {
            self.registry_models
        };
        AppStateView {
            filtered_registry_models: filtered,
            is_registry_filtered: is_filtered,
            registry_model_list_state: if visible.len() == 0 {
                None
            } else {
                Some(0)
            },
            ..self
        }
    }

    /// Empties the registry filter text and switches the registry filter off.
    pub open spec fn clear_registry_filter(self) -> AppStateView {
        AppStateView {
            registry_filter_input: Seq::empty(),
            registry_filter_cursor_pos: 0,
            is_registry_filtered: false,
            filtered_registry_models: Seq::empty(),
            registry_model_list_state: if self.registry_models.len() == 0 {
                None
            } else {
                Some(0)
            },
            ..self
        }
    }

    /// Types a character at the cursor of the registry filter and filters again.
    pub open spec fn registry_filter_input_char(self, c: char) -> AppStateView {
        AppStateView {
            registry_filter_input: self.registry_filter_input.insert(
                self.registry_filter_cursor_pos as int,
                c,
            ),
            registry_filter_cursor_pos: self.registry_filter_cursor_pos + 1,
            ..self
        }.apply_registry_filter()
    }

    /// Deletes the character before the cursor of the registry filter and
    /// filters again. At the start of the text nothing changes.
    pub open spec fn registry_filter_input_backspace(self) -> AppStateView {
        if self.registry_filter_cursor_pos > 0 {
            AppStateView {
                registry_filter_input: self.registry_filter_input.remove(
                    self.registry_filter_cursor_pos - 1,
                ),
                registry_filter_cursor_pos: (self.registry_filter_cursor_pos - 1) as nat,
                ..self
            }.apply_registry_filter()
        } else {
            self
        }
    }

    /// Moves the cursor of the registry filter one character to the left.
    pub open spec fn registry_filter_cursor_left(self) -> AppStateView {
        if self.registry_filter_cursor_pos > 0 {
            AppStateView {
                registry_filter_cursor_pos: (self.registry_filter_cursor_pos - 1) as nat,
                ..self
            }
        } else {
            self
        }
    }

    /// Moves the cursor of the registry filter one character to the right.
    pub open spec fn registry_filter_cursor_right(self) -> AppStateView {
        if self.registry_filter_cursor_pos < self.registry_filter_input.len() {
            AppStateView { registry_filter_cursor_pos: self.registry_filter_cursor_pos + 1, ..self }
        } else {
            self
        }
    }

    /// The help shortcut is live: the mode does not take character input for
    /// itself.
    pub open spec fn is_global_key_handling_enabled(self) -> bool {
        !(self.current_mode == AppMode::RunningOllama || self.current_mode == AppMode::Help
            || self.current_mode == AppMode::Filter || self.current_mode
            == AppMode::InstallSelectModelFilter)
    }
}

/// The session state: the single value that the control loop owns and the
/// handlers change.
#[derive(Debug, Clone)]
pub struct AppState {
    pub models: Vec<ModelInfo>,
    pub filtered_models: Vec<ModelInfo>,
    pub list_state: ListState,
    pub selected_model_details: Option<ShowModelResponse>,
    pub status_message: Option<String>,
    pub current_mode: AppMode,
    pub should_quit: bool,
    pub is_fetching_details: bool,
    pub filter_input: String,
    pub is_filtered: bool,
    /// Offset of the cursor in `filter_input`, in characters.
    pub filter_cursor_pos: usize,
    pub registry_models: Vec<String>,
    pub filtered_registry_models: Vec<String>,
    pub registry_tags: Vec<String>,
    pub registry_model_list_state: ListState,
    pub registry_tag_list_state: ListState,
    pub selected_registry_model: Option<String>,
    pub selected_registry_tag: Option<String>,
    pub is_fetching_registry: bool,
    pub install_error: Option<String>,
    pub install_status: Option<String>,
    pub previous_mode: Option<AppMode>,
    pub registry_filter_input: String,
    pub is_registry_filtered: bool,
    /// Offset of the cursor in `registry_filter_input`, in characters.
    pub registry_filter_cursor_pos: usize,
}

impl View for AppState {
    type V = AppStateView;

    open spec fn view(&self) -> AppStateView {
        AppStateView {
            models: self.models.deep_view(),
            filtered_models: self.filtered_models.deep_view(),
            list_state: self.list_state.row(),
            selected_model_details: self.selected_model_details.deep_view(),
            status_message: self.status_message.deep_view(),
            current_mode: self.current_mode,
            should_quit: self.should_quit,
            is_fetching_details: self.is_fetching_details,
            filter_input: self.filter_input@,
            is_filtered: self.is_filtered,
            filter_cursor_pos: self.filter_cursor_pos as nat,
            registry_models: self.registry_models.deep_view(),
            filtered_registry_models: self.filtered_registry_models.deep_view(),
            registry_tags: self.registry_tags.deep_view(),
            registry_model_list_state: self.registry_model_list_state.row(),
            registry_tag_list_state: self.registry_tag_list_state.row(),
            selected_registry_model: self.selected_registry_model.deep_view(),
            selected_registry_tag: self.selected_registry_tag.deep_view(),
            is_fetching_registry: self.is_fetching_registry,
            install_error: self.install_error.deep_view(),
            install_status: self.install_status.deep_view(),
            previous_mode: self.previous_mode,
            registry_filter_input: self.registry_filter_input@,
            is_registry_filtered: self.is_registry_filtered,
            registry_filter_cursor_pos: self.registry_filter_cursor_pos as nat,
        }
    }
}

/// The models of `models` whose name, in lower case, contains `lowered`.
fn models_containing(models: &Vec<ModelInfo>, lowered: &str) -> (out: Vec<ModelInfo>)
    ensures
        out.deep_view() == models.deep_view().filter(model_contains(lowered@)),
{
    let ghost all = models.deep_view();
    let ghost keep = model_contains(lowered@);
    let mut out: Vec<ModelInfo> = Vec::new();
    let mut i: usize = 0;
    assert(all.take(0) =~= Seq::empty());
    assert(out.deep_view() =~= Seq::empty());
    while i < models.len()
        invariant
            i <= models.len(),
            all == models.deep_view(),
            keep == model_contains(lowered@),
            out.deep_view() == all.take(i as int).filter(keep),
        decreases models.len() - i,
    {
        let model = &models[i];
        let ghost before = out.deep_view();
        let hit = matches_lowered(model.name.as_str(), lowered);
        if hit {
            out.push(model.clone());
            assert(out.deep_view() =~= before.push(model@));
        }
        proof {
            assert(all.take(i + 1) =~= all.take(i as int).push(all[i as int]));
            all.take(i as int).lemma_filter_push(all[i as int], keep);
        }
        i += 1;
    }
    assert(all.take(models.len() as int) =~= all);
    out
}

/// The names of `names` that, in lower case, contain `lowered`.
fn names_containing(names: &Vec<String>, lowered: &str) -> (out: Vec<String>)
    ensures
        out.deep_view() == names.deep_view().filter(name_contains(lowered@)),
{
    let ghost all = names.deep_view();
    let ghost keep = name_contains(lowered@);
    let mut out: Vec<String> = Vec::new();
    let mut i: usize = 0;
    assert(all.take(0) =~= Seq::empty());
    assert(out.deep_view() =~= Seq::empty());
    while i < names.len()
        invariant
            i <= names.len(),
            all == names.deep_view(),
            keep == name_contains(lowered@),
            out.deep_view() == all.take(i as int).filter(keep),
        decreases names.len() - i,
    {
        let name = &names[i];
        let ghost before = out.deep_view();
        let hit = matches_lowered(name.as_str(), lowered);
        if hit {
            out.push(name.clone());
            assert(out.deep_view() =~= before.push(name@));
        }
        proof {
            assert(all.take(i + 1) =~= all.take(i as int).push(all[i as int]));
            all.take(i as int).lemma_filter_push(all[i as int], keep);
        }
        i += 1;
    }
    assert(all.take(names.len() as int) =~= all);
    out
}

impl AppState {
    /// The state at startup: no models yet, mode `Normal`.
    pub fn new() -> (app: AppState)
        ensures
            app@ == AppStateView::initial(),
            app@.wf(),
    {
        let app = AppState {
            models: Vec::new(),
            filtered_models: Vec::new(),
            list_state: ListState::new(),
            selected_model_details: None,
            status_message: Some(String::from_str("Loading models...")),
            current_mode: AppMode::Normal,
            should_quit: false,
            is_fetching_details: false,
            filter_input: String::new(),
            is_filtered: false,
            filter_cursor_pos: 0,
            registry_models: Vec::new(),
            filtered_registry_models: Vec::new(),
            registry_tags: Vec::new(),
            registry_model_list_state: ListState::new(),
            registry_tag_list_state: ListState::new(),
            selected_registry_model: None,
            selected_registry_tag: None,
            is_fetching_registry: false,
            install_error: None,
            install_status: None,
            previous_mode: None,
            registry_filter_input: String::new(),
            is_registry_filtered: false,
            registry_filter_cursor_pos: 0,
        };
        assert(app@.models =~= Seq::empty());
        assert(app@.filtered_models =~= Seq::empty());
        assert(app@.registry_models =~= Seq::empty());
        assert(app@.filtered_registry_models =~= Seq::empty());
        assert(app@.registry_tags =~= Seq::empty());
        app
    }

    /// The local models on display.
    pub fn get_current_models(&self) -> (visible: &[ModelInfo])
        ensures
            visible.deep_view() == self@.visible_models(),
    {
        if self.is_filtered {
            self.filtered_models.as_slice()
        } else {
            self.models.as_slice()
        }
    }

    /// Recomputes the visible models from the filter text.
    pub fn apply_filter(&mut self)
        ensures
            final(self)@ == old(self)@.apply_filter(),
            old(self)@.wf() ==> final(self)@.wf(),
    {
        if self.filter_input.as_str().is_empty() {
            self.filtered_models = Vec::new();
            self.is_filtered = false;
            assert(self.filtered_models.deep_view() =~= Seq::empty());
        } else {
            let lowered = to_lowercase(self.filter_input.as_str());
            self.filtered_models = models_containing(&self.models, lowered.as_str());
            self.is_filtered = true;
        }
        if self.get_current_models().len() == 0 {
            self.list_state.select(None);
            self.selected_model_details = None;
        } else {
            self.list_state.select(Some(0));
            self.selected_model_details = None;
            self.is_fetching_details = false;
        }
    }

    /// Empties the filter text and switches the filter off.
    pub fn clear_filter(&mut self)
        ensures
            final(self)@ == old(self)@.clear_filter(),
            old(self)@.wf() ==> final(self)@.wf(),
    {
        self.filter_input = String::new();
        self.filter_cursor_pos = 0;
        self.is_filtered = false;
        self.filtered_models = Vec::new();
        assert(self.filtered_models.deep_view() =~= Seq::empty());
        if self.models.len() == 0 {
            self.list_state.select(None);
        } else {
            self.list_state.select(Some(0));
            self.selected_model_details = None;
            self.is_fetching_details = false;
        }
    }

    /// Types a character at the cursor and filters again.
    pub fn filter_input_char(&mut self, c: char)
        requires
            old(self)@.filter_cursor_pos <= old(self)@.filter_input.len(),
        ensures
            final(self)@ == old(self)@.filter_input_char(c),
            old(self)@.wf() ==> final(self)@.wf(),
    {
        self.filter_input = insert_char(self.filter_input.as_str(), self.filter_cursor_pos, c);
        self.filter_cursor_pos += 1;
        self.apply_filter();
    }

    /// Deletes the character before the cursor and filters again.
    pub fn filter_input_backspace(&mut self)
        requires
            old(self)@.filter_cursor_pos <= old(self)@.filter_input.len(),
        ensures
            final(self)@ == old(self)@.filter_input_backspace(),
            old(self)@.wf() ==> final(self)@.wf(),
    {
        if self.filter_cursor_pos > 0 {
            self.filter_cursor_pos -= 1;
            self.filter_input = remove_char(self.filter_input.as_str(), self.filter_cursor_pos);
            self.apply_filter();
        }
    }

    /// Moves the cursor one character to the left.
    pub fn filter_cursor_left(&mut self)
        ensures
            final(self)@ == old(self)@.filter_cursor_left(),
            old(self)@.wf() ==> final(self)@.wf(),
    {
        if self.filter_cursor_pos > 0 {
            self.filter_cursor_pos -= 1;
        }
    }

    /// Moves the cursor one character to the right.
    pub fn filter_cursor_right(&mut self)
        ensures
            final(self)@ == old(self)@.filter_cursor_right(),
            old(self)@.wf() ==> final(self)@.wf(),
    {
        if self.filter_cursor_pos < self.filter_input.as_str().unicode_len() {
            self.filter_cursor_pos += 1;
        }
    }

    /// Selects a row of the visible models and permits a fetch of its details.
    pub fn select_and_prepare_fetch(&mut self, index: Option<usize>)
        ensures
            final(self)@ == old(self)@.select_and_prepare_fetch(
                match index {
                    Some(i) => Some(i as nat),
                    None => None,
                },
            ),
            old(self)@.wf() ==> final(self)@.wf(),
    {
        let len = self.get_current_models().len();
        if len == 0 {
            self.list_state.select(None);
            self.selected_model_details = None;
            self.is_fetching_details = false;
        } else {
            let wanted: usize = match index {
                Some(i) => i,
                None => 0,
            };
            let row: usize = if wanted < len {
                wanted
            } else {
                len - 1
            };
            let same = match self.list_state.selected() {
                Some(current) => current == row,
                None => false,
            };
            if !same || self.selected_model_details.is_none() {
                self.list_state.select(Some(row));
                self.selected_model_details = None;
                self.status_message = Some(String::from_str("Fetching details..."));
                self.is_fetching_details = false;
            }
        }
    }

    /// Selects the next visible model, going round at the end.
    pub fn next_model(&mut self)
        ensures
            final(self)@ == old(self)@.next_model(),
            old(self)@.wf() ==> final(self)@.wf(),
    {
        let len = self.get_current_models().len();
        let row: usize = match self.list_state.selected() {
            Some(i) => if len == 0 || i >= len - 1 {
                0
            } else {
                i + 1
            },
            None => 0,
        };
        self.select_and_prepare_fetch(Some(row));
    }

    /// Selects the previous visible model, going round at the start.
    pub fn previous_model(&mut self)
        ensures
            final(self)@ == old(self)@.previous_model(),
            old(self)@.wf() ==> final(self)@.wf(),
    {
        let len = self.get_current_models().len();
        let row: usize = match self.list_state.selected() {
            Some(i) => if i == 0 {
                if len == 0 {
                    0
                } else {
                    len - 1
                }
            } else {
                i - 1
            },
            None => 0,
        };
        self.select_and_prepare_fetch(Some(row));
    }

    /// The name of the selected local model.
    pub fn get_selected_model_name(&self) -> (name: Option<String>)
        ensures
            name.deep_view() == self@.selected_model_name(),
    {
        let visible = self.get_current_models();
        match self.list_state.selected() {
            Some(i) => if i < visible.len() {
                Some(visible[i].name.clone())
            } else {
                None
            },
            None => None,
        }
    }

    /// The registry models on display.
    pub fn get_current_registry_models(&self) -> (visible: &[String])
        ensures
            visible.deep_view() == self@.visible_registry_models(),
    {
        if self.is_registry_filtered {
            self.filtered_registry_models.as_slice()
        } else {
            self.registry_models.as_slice()
        }
    }

    /// Recomputes the visible registry models from the registry filter text.
    pub fn apply_registry_filter(&mut self)
        ensures
            final(self)@ == old(self)@.apply_registry_filter(),
            old(self)@.wf() ==> final(self)@.wf(),
    {
        if self.registry_filter_input.as_str().is_empty() {
            self.filtered_registry_models = Vec::new();
            self.is_registry_filtered = false;
            assert(self.filtered_registry_models.deep_view() =~= Seq::empty());
        } else {
            let lowered = to_lowercase(self.registry_filter_input.as_str());
            self.filtered_registry_models = names_containing(
                &self.registry_models,
                lowered.as_str(),
            );
            self.is_registry_filtered = true;
        }
        if self.get_current_registry_models().len() == 0 {
            self.registry_model_list_state.select(None);
        } else {
            self.registry_model_list_state.select(Some(0));
        }
    }

    /// Empties the registry filter text and switches the registry filter off.
    pub fn clear_registry_filter(&mut self)
        ensures
            final(self)@ == old(self)@.clear_registry_filter(),
            old(self)@.wf() ==> final(self)@.wf(),
    {
        self.registry_filter_input = String::new();
        self.registry_filter_cursor_pos = 0;
        self.is_registry_filtered = false;
        self.filtered_registry_models = Vec::new();
        assert(self.filtered_registry_models.deep_view() =~= Seq::empty());
        if self.registry_models.len() == 0 {
            self.registry_model_list_state.select(None);
        } else {
            self.registry_model_list_state.select(Some(0));
        }
    }

    /// Types a character at the cursor of the registry filter and filters again.
    pub fn registry_filter_input_char(&mut self, c: char)
        requires
            old(self)@.registry_filter_cursor_pos <= old(self)@.registry_filter_input.len(),
        ensures
            final(self)@ == old(self)@.registry_filter_input_char(c),
            old(self)@.wf() ==> final(self)@.wf(),
    {
        self.registry_filter_input = insert_char(
            self.registry_filter_input.as_str(),
            self.registry_filter_cursor_pos,
            c,
        );
        self.registry_filter_cursor_pos += 1;
        self.apply_registry_filter();
    }

    /// Deletes the character before the cursor of the registry filter and
    /// filters again.
    pub fn registry_filter_input_backspace(&mut self)
        requires
            old(self)@.registry_filter_cursor_pos <= old(self)@.registry_filter_input.len(),
        ensures
            final(self)@ == old(self)@.registry_filter_input_backspace(),
            old(self)@.wf() ==> final(self)@.wf(),
    {
        if self.registry_filter_cursor_pos > 0 {
            self.registry_filter_cursor_pos -= 1;
            self.registry_filter_input = remove_char(
                self.registry_filter_input.as_str(),
                self.registry_filter_cursor_pos,
            );
            self.apply_registry_filter();
        }
    }

    /// Moves the cursor of the registry filter one character to the left.
    pub fn registry_filter_cursor_left(&mut self)
        ensures
            final(self)@ == old(self)@.registry_filter_cursor_left(),
            old(self)@.wf() ==> final(self)@.wf(),
    {
        if self.registry_filter_cursor_pos > 0 {
            self.registry_filter_cursor_pos -= 1;
        }
    }

    /// Moves the cursor of the registry filter one character to the right.
    pub fn registry_filter_cursor_right(&mut self)
        ensures
            final(self)@ == old(self)@.registry_filter_cursor_right(),
            old(self)@.wf() ==> final(self)@.wf(),
    {
        if self.registry_filter_cursor_pos < self.registry_filter_input.as_str().unicode_len() {
            self.registry_filter_cursor_pos += 1;
        }
    }

    /// The help shortcut is live in the current mode.
    pub fn is_global_key_handling_enabled(&self) -> (enabled: bool)
        ensures
            enabled == self@.is_global_key_handling_enabled(),
    {
        !(self.current_mode == AppMode::RunningOllama || self.current_mode == AppMode::Help
            || self.current_mode == AppMode::Filter || self.current_mode
            == AppMode::InstallSelectModelFilter)
    }
}

} // verus!
