//! Laws of the session state: what holds of every state that keys and
//! completion events can reach, stated over the mathematical value of the
//! state and proved for all inputs.

use crate::app::{
    cycle_next, cycle_previous, matching_models, selection_fits, selection_in_bounds, AppMode,
    AppStateView,
};
use crate::control::{detail_fetch_step, initial_models_step, loop_step, LoopInput};
use crate::error::{ApiError, AppError};
use crate::events::AppEvent;
use crate::handlers::{
    event_step, filter_step, install_filter_step, install_select_model_step, key_step, normal_step,
    run_completed_step,
};
use crate::input::KeyInput;
use crate::ollama_api::{ModelInfo, ShowModelResponse};
use vstd::prelude::*;

verus! {

/// Filtering establishes the part of the invariant that concerns the local
/// models, whatever the selection and the filtered models were before: the
/// selection fits the visible models, and the filtered models are a filter
/// of the inventory.
pub proof fn lemma_apply_filter_fits(s: AppStateView)
    ensures
        selection_fits(s.apply_filter().list_state, s.apply_filter().visible_models().len()),
        s.apply_filter().filter_consistent(),
        s.apply_filter().list_state == if s.apply_filter().visible_models().len() == 0 {
            None
        } else {
            Some(0nat)
        },
{
    let r = s.apply_filter();
    if r.is_filtered {
        assert(r.filtered_models == matching_models(r.models, s.filter_input));
    }
}

/// Selecting a row establishes that the selection fits the visible models,
/// whatever it was before.
pub proof fn lemma_select_fits(s: AppStateView, index: Option<nat>)
    ensures
        selection_fits(
            s.select_and_prepare_fetch(index).list_state,
            s.select_and_prepare_fetch(index).visible_models().len(),
        ),
        s.select_and_prepare_fetch(index).visible_models() == s.visible_models(),
{
}

/// A key in mode `Normal` keeps the invariant.
proof fn lemma_normal_step_keeps_invariant(s: AppStateView, key: KeyInput)
    requires
        s.wf(),
    ensures
        normal_step(s, key).state.wf(),
{
}

/// A key in mode `Filter` keeps the invariant.
proof fn lemma_filter_step_keeps_invariant(s: AppStateView, key: KeyInput)
    requires
        s.wf(),
    ensures
        filter_step(s, key).wf(),
{
    lemma_apply_filter_fits(AppStateView { filter_input: Seq::empty(), filter_cursor_pos: 0, ..s });
    if key.code is Char {
        lemma_apply_filter_fits(
            AppStateView {
                filter_input: s.filter_input.insert(s.filter_cursor_pos as int, key.code->Char_0),
                filter_cursor_pos: s.filter_cursor_pos + 1,
                ..s
            },
        );
    }
    if s.filter_cursor_pos > 0 {
        lemma_apply_filter_fits(
            AppStateView {
                filter_input: s.filter_input.remove(s.filter_cursor_pos - 1),
                filter_cursor_pos: (s.filter_cursor_pos - 1) as nat,
                ..s
            },
        );
    }
}

/// A key in mode `InstallSelectModel` keeps the invariant.
proof fn lemma_install_select_model_step_keeps_invariant(s: AppStateView, key: KeyInput)
    requires
        s.wf(),
    ensures
        install_select_model_step(s, key).state.wf(),
{
}

/// A key in mode `InstallSelectModelFilter` keeps the invariant.
proof fn lemma_install_filter_step_keeps_invariant(s: AppStateView, key: KeyInput)
    requires
        s.wf(),
    ensures
        install_filter_step(s, key).wf(),
{
}

/// Every key keeps the invariant of the session state.
pub proof fn lemma_key_step_keeps_invariant(s: AppStateView, key: KeyInput)
    requires
        s.wf(),
    ensures
        key_step(s, key).state.wf(),
{
    lemma_normal_step_keeps_invariant(s, key);
    lemma_filter_step_keeps_invariant(s, key);
    lemma_install_select_model_step_keeps_invariant(s, key);
    lemma_install_filter_step_keeps_invariant(s, key);
}

/// Every completion event keeps the invariant of the session state.
pub proof fn lemma_event_step_keeps_invariant(s: AppStateView, event: AppEvent)
    requires
        s.wf(),
    ensures
        event_step(s, event).wf(),
{
    match event {
        AppEvent::LocalModelsRefreshed(Ok(models)) => {
            let loaded = AppStateView { models: models.deep_view(), ..s };
            lemma_apply_filter_fits(loaded);
            let filtered = if loaded.is_filtered {
                loaded.apply_filter()
            } else {
                loaded
            };
            lemma_select_fits(filtered, s.list_state);
            assert(filtered.filter_consistent());
        },
        _ => {},
    }
}

/// The end of the foreground program keeps the invariant of the session state.
pub proof fn lemma_run_completed_keeps_invariant(s: AppStateView, result: Result<(), AppError>)
    requires
        s.wf(),
    ensures
        run_completed_step(s, result).wf(),
        run_completed_step(s, result).current_mode == AppMode::Normal,
{
}

/// Filtering twice with the same text is filtering once: the second pass
/// changes nothing, so the visible models and the selection are the same.
pub proof fn lemma_apply_filter_idempotent(s: AppStateView)
    ensures
        s.apply_filter().apply_filter() == s.apply_filter(),
{
}

/// Filtering the registry models twice with the same text is filtering once.
pub proof fn lemma_apply_registry_filter_idempotent(s: AppStateView)
    ensures
        s.apply_registry_filter().apply_registry_filter() == s.apply_registry_filter(),
        selection_fits(
            s.apply_registry_filter().registry_model_list_state,
            s.apply_registry_filter().visible_registry_models().len(),
        ),
{
}

/// One change of the filter text.
pub enum FilterEdit {
    /// A character is typed at the cursor.
    Insert(char),
    /// The character before the cursor is deleted.
    Backspace,
    /// The text is emptied and the filter applied again.
    Empty,
    /// The filter is cleared.
    Clear,
}

/// The state after one change of the filter text.
pub open spec fn apply_edit(s: AppStateView, edit: FilterEdit) -> AppStateView {
    match edit {
        FilterEdit::Insert(c) => s.filter_input_char(c),
        FilterEdit::Backspace => s.filter_input_backspace(),
        FilterEdit::Empty => AppStateView {
            filter_input: Seq::empty(),
            filter_cursor_pos: 0,
            ..s
        }.apply_filter(),
        FilterEdit::Clear => s.clear_filter(),
    }
}

/// The state after a sequence of changes of the filter text, first to last.
pub open spec fn apply_edits(s: AppStateView, edits: Seq<FilterEdit>) -> AppStateView
    decreases edits.len(),
{
    if edits.len() == 0 {
        s
    } else {
        apply_edit(apply_edits(s, edits.drop_last()), edits.last())
    }
}

/// After any sequence of insertions, deletions and clearings of the filter
/// text, no model is selected exactly when no model is visible, and a
/// selected row is a row of the visible models. The whole invariant of the
/// session state holds as well.
pub proof fn lemma_filter_edits_keep_selection(s: AppStateView, edits: Seq<FilterEdit>)
    requires
        s.wf(),
    ensures
        apply_edits(s, edits).wf(),
        apply_edits(s, edits).list_state is None <==> apply_edits(s, edits).visible_models().len()
            == 0,
        apply_edits(s, edits).list_state matches Some(row) ==> row < apply_edits(
            s,
            edits,
        ).visible_models().len(),
    decreases edits.len(),
{
    if edits.len() > 0 {
        lemma_filter_edits_keep_selection(s, edits.drop_last());
        let before = apply_edits(s, edits.drop_last());
        match edits.last() {
            FilterEdit::Insert(c) => {
                lemma_apply_filter_fits(
                    AppStateView {
                        filter_input: before.filter_input.insert(
                            before.filter_cursor_pos as int,
                            c,
                        ),
                        filter_cursor_pos: before.filter_cursor_pos + 1,
                        ..before
                    },
                );
            },
            FilterEdit::Backspace => {
                if before.filter_cursor_pos > 0 {
                    lemma_apply_filter_fits(
                        AppStateView {
                            filter_input: before.filter_input.remove(before.filter_cursor_pos - 1),
                            filter_cursor_pos: (before.filter_cursor_pos - 1) as nat,
                            ..before
                        },
                    );
                }
            },
            FilterEdit::Empty => {
                lemma_apply_filter_fits(
                    AppStateView { filter_input: Seq::empty(), filter_cursor_pos: 0, ..before },
                );
            },
            FilterEdit::Clear => {},
        }
    }
}

/// The state after `n` steps to the next model.
pub open spec fn next_times(s: AppStateView, n: nat) -> AppStateView
    decreases n,
{
    if n == 0 {
        s
    } else {
        next_times(s, (n - 1) as nat).next_model()
    }
}

/// The state after `n` steps to the previous model.
pub open spec fn previous_times(s: AppStateView, n: nat) -> AppStateView
    decreases n,
{
    if n == 0 {
        s
    } else {
        previous_times(s, (n - 1) as nat).previous_model()
    }
}

/// After `n` steps forward the selected row is `n` rows further, going round.
proof fn lemma_next_times_row(s: AppStateView, n: nat)
    requires
        s.wf(),
        s.visible_models().len() > 0,
    ensures
        next_times(s, n).visible_models() == s.visible_models(),
        next_times(s, n).list_state == Some(
            (((s.list_state->0 + n) as int) % (s.visible_models().len() as int)) as nat,
        ),
    decreases n,
{
    let len = s.visible_models().len() as int;
    let start = s.list_state->0 as int;
    if n == 0 {
        assert(start % len == start) by (nonlinear_arith)
            requires
                0 <= start < len,
        ;
    } else {
        lemma_next_times_row(s, (n - 1) as nat);
        let before = (start + n - 1) % len;
        assert(0 <= before < len && (start + n) % len == if before + 1 >= len {
            0
        } else {
            before + 1
        }) by (nonlinear_arith)
            requires
                before == (start + n - 1) % len,
                len > 0,
                start >= 0,
                n >= 1,
        ;
    }
}

/// After `n` steps backward the selected row is `n` rows back, going round.
proof fn lemma_previous_times_row(s: AppStateView, n: nat)
    requires
        s.wf(),
        s.visible_models().len() > 0,
        n <= s.visible_models().len(),
    ensures
        previous_times(s, n).visible_models() == s.visible_models(),
        previous_times(s, n).list_state == Some(
            (((s.list_state->0 + s.visible_models().len() - n) as int) % (
            s.visible_models().len() as int)) as nat,
        ),
    decreases n,
{
    let len = s.visible_models().len() as int;
    let start = s.list_state->0 as int;
    if n == 0 {
        assert((start + len) % len == start) by (nonlinear_arith)
            requires
                0 <= start < len,
        ;
    } else {
        lemma_previous_times_row(s, (n - 1) as nat);
        let before = (start + len - (n - 1)) % len;
        assert(0 <= before < len && (start + len - n) % len == if before == 0 {
            len - 1
        } else {
            before - 1
        }) by (nonlinear_arith)
            requires
                before == (start + len - (n - 1)) % len,
                len > 0,
                start >= 0,
                1 <= n <= len,
        ;
    }
}

/// Going to the next model as many times as there are visible models comes
/// back to the selection it started from.
pub proof fn lemma_next_wraps_around(s: AppStateView)
    requires
        s.wf(),
    ensures
        next_times(s, s.visible_models().len()).list_state == s.list_state,
        next_times(s, s.visible_models().len()).visible_models() == s.visible_models(),
{
    let len = s.visible_models().len();
    if len > 0 {
        lemma_next_times_row(s, len);
        let start = s.list_state->0 as int;
        assert((start + len) % (len as int) == start) by (nonlinear_arith)
            requires
                0 <= start < len,
        ;
    }
}

/// Going to the previous model as many times as there are visible models
/// comes back to the selection it started from.
pub proof fn lemma_previous_wraps_around(s: AppStateView)
    requires
        s.wf(),
    ensures
        previous_times(s, s.visible_models().len()).list_state == s.list_state,
        previous_times(s, s.visible_models().len()).visible_models() == s.visible_models(),
{
    let len = s.visible_models().len();
    if len > 0 {
        lemma_previous_times_row(s, len);
        let start = s.list_state->0 as int;
        assert(start % (len as int) == start) by (nonlinear_arith)
            requires
                0 <= start < len,
        ;
    }
}

/// The selection of a list that goes round, after `n` steps forward.
pub open spec fn cycle_next_times(selected: Option<nat>, len: nat, n: nat) -> Option<nat>
    decreases n,
{
    if n == 0 {
        selected
    } else {
        cycle_next(cycle_next_times(selected, len, (n - 1) as nat), len)
    }
}

/// The selection of a list that goes round, after `n` steps backward.
pub open spec fn cycle_previous_times(selected: Option<nat>, len: nat, n: nat) -> Option<nat>
    decreases n,
{
    if n == 0 {
        selected
    } else {
        cycle_previous(cycle_previous_times(selected, len, (n - 1) as nat), len)
    }
}

/// After `n` steps the selected row of a list that goes round is `n` rows away.
proof fn lemma_cycle_times_row(row: nat, len: nat, n: nat)
    requires
        row < len,
        n <= len,
    ensures
        cycle_next_times(Some(row), len, n) == Some((((row + n) as int) % (len as int)) as nat),
        cycle_previous_times(Some(row), len, n) == Some(
            (((row + len - n) as int) % (len as int)) as nat,
        ),
    decreases n,
{
    let l = len as int;
    let r = row as int;
    if n == 0 {
        assert(r % l == r && (r + l) % l == r) by (nonlinear_arith)
            requires
                0 <= r < l,
        ;
    } else {
        lemma_cycle_times_row(row, len, (n - 1) as nat);
        let forward = (r + n - 1) % l;
        let backward = (r + l - (n - 1)) % l;
        assert(0 <= forward < l && 0 <= backward < l && (forward + 1) % l == (r + n) % l && (
        backward + l - 1) % l == (r + l - n) % l) by (nonlinear_arith)
            requires
                forward == (r + n - 1) % l,
                backward == (r + l - (n - 1)) % l,
                0 <= r < l,
                1 <= n <= l,
        ;
    }
}

/// In the lists of the install flow, going forward as many times as the
/// list has rows comes back to the selected row, and so does going backward.
pub proof fn lemma_cycle_wraps_around(row: nat, len: nat)
    requires
        row < len,
    ensures
        cycle_next_times(Some(row), len, len) == Some(row),
        cycle_previous_times(Some(row), len, len) == Some(row),
{
    lemma_cycle_times_row(row, len, len);
    let l = len as int;
    let r = row as int;
    assert((r + l) % l == r && r % l == r) by (nonlinear_arith)
        requires
            0 <= r < l,
    ;
}

/// The table of mode transitions that a key can cause. A key may always
/// leave the mode as it is. `resume` is the mode that the help interrupted.
pub open spec fn key_transition(from: AppMode, to: AppMode, resume: Option<AppMode>) -> bool {
    to == from || match from {
        AppMode::Normal => to == AppMode::ConfirmDelete || to == AppMode::InstallSelectModel || to
            == AppMode::RunningOllama || to == AppMode::Filter || to == AppMode::Help,
        AppMode::Filter => to == AppMode::Normal,
        AppMode::ConfirmDelete => to == AppMode::Normal || to == AppMode::Help,
        AppMode::InstallSelectModel => to == AppMode::InstallSelectTag || to
            == AppMode::InstallSelectModelFilter || to == AppMode::Normal || to == AppMode::Help,
        AppMode::InstallSelectModelFilter => to == AppMode::InstallSelectModel,
        AppMode::InstallSelectTag => to == AppMode::InstallConfirm || to
            == AppMode::InstallSelectModel || to == AppMode::Help,
        AppMode::InstallConfirm => to == AppMode::Installing || to == AppMode::InstallSelectTag
            || to == AppMode::Help,
        AppMode::Installing => to == AppMode::Help,
        AppMode::RunningOllama => false,
        AppMode::Help => to == match resume {
            Some(mode) => mode,
            None => AppMode::Normal,
        },
    }
}

/// The table of mode transitions that a completion event can cause: the mode
/// stays, or falls back to `Normal` or to `InstallSelectModel`.
pub open spec fn event_transition(from: AppMode, to: AppMode) -> bool {
    to == from || to == AppMode::Normal || to == AppMode::InstallSelectModel
}

/// From every mode, every key leads to a mode that the table of transitions
/// allows for it. A key that opens the help remembers the mode it
/// interrupted; no other key enters the help.
pub proof fn lemma_key_step_follows_table(s: AppStateView, key: KeyInput)
    ensures
        key_transition(s.current_mode, key_step(s, key).state.current_mode, s.previous_mode),
        s.current_mode != AppMode::Help && key_step(s, key).state.current_mode == AppMode::Help
            ==> key_step(s, key).state.previous_mode == Some(s.current_mode),
        key_step(s, key).outcome.quit ==> s.current_mode == AppMode::Normal && key_step(
            s,
            key,
        ).state == s && key_step(s, key).outcome.task is None,
{
}

/// Every completion event leads to a mode that the table of transitions
/// allows for it; the end of a pull, and of a refresh, leaves `Installing`
/// for `Normal` where it reports a failure or a refreshed list.
pub proof fn lemma_event_step_follows_table(s: AppStateView, event: AppEvent)
    ensures
        event_transition(s.current_mode, event_step(s, event).current_mode),
        event is LocalModelsRefreshed ==> event_step(s, event).current_mode == AppMode::Normal,
        event is OllamaRunCompleted ==> event_step(s, event).current_mode == AppMode::Normal,
{
}

/// A detail fetch that completes after the selection has moved leaves the
/// selection where it moved to: the selected row, the visible models, the
/// name of the selected model and the mode are those of the moved state, no
/// fetch counts as in flight any more, and a failed fetch leaves no details
/// cached.
pub proof fn lemma_late_details_keep_selection(
    s: AppStateView,
    index: Option<nat>,
    result: Result<ShowModelResponse, AppError>,
)
    requires
        s.wf(),
    ensures
        ({
            let moved = s.select_and_prepare_fetch(index);
            let after = event_step(moved, AppEvent::ModelDetailsFetched(result));
            &&& after.wf()
            &&& after.list_state == moved.list_state
            &&& after.visible_models() == moved.visible_models()
            &&& after.selected_model_name() == moved.selected_model_name()
            &&& after.current_mode == moved.current_mode
            &&& !after.is_fetching_details
            &&& (result is Err ==> after.selected_model_details is None)
            &&& (result matches Ok(details) ==> after.selected_model_details == Some(details@))
        }),
{
    lemma_select_fits(s, index);
}

/// Every turn of the control loop keeps the invariant of the session state.
pub proof fn lemma_loop_step_keeps_invariant(s: AppStateView, input: LoopInput)
    requires
        s.wf(),
    ensures
        loop_step(s, input).state.wf(),
{
    match input {
        LoopInput::Key(key) => {
            lemma_key_step_keeps_invariant(s, key);
        },
        LoopInput::Event(event) => {
            lemma_event_step_keeps_invariant(s, event);
        },
        _ => {},
    }
}

/// The first inventory keeps the invariant of a session state in which no
/// model is selected yet, and requesting a due fetch of details keeps it in
/// every state.
pub proof fn lemma_startup_keeps_invariant(s: AppStateView, result: Result<Vec<ModelInfo>, ApiError>)
    requires
        s.wf(),
    ensures
        s.list_state is None ==> initial_models_step(s, result).wf(),
        detail_fetch_step(s).wf(),
        AppStateView::initial().wf(),
{
}

} // verus!
