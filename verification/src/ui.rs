//! The texts on the screen that depend on the session state: the status
//! bar, the titles of the lists, the filter line with its cursor. Drawing
//! them is the caller's.

use crate::app::{AppMode, AppState, AppStateView};
use crate::text::{chars_of, decimal, insert_char, push_decimal, text_of};
use vstd::prelude::*;
use vstd::string::*;

verus! {

/// The character that marks the cursor in a filter line.
pub const CURSOR_CHAR: char = '_';

/// The keys that the status bar names in mode `Normal`.
pub const NORMAL_HINT: &'static str =
    "q: Quit | \u{2193}/j: Down | \u{2191}/k: Up | d: Delete | i: Install | Enter: Run | /: Filter";

/// The keys that the status bar names while a filter text is typed.
pub const FILTER_HINT: &'static str =
    "Filter Mode: Type to search | Enter: Confirm | Esc: Cancel | Ctrl+C: Clear";

/// The keys that the status bar names while a registry model is chosen.
pub const SELECT_MODEL_HINT: &'static str =
    "\u{2191}/\u{2193}: Select | Enter: Choose Tags | /: Filter | Esc: Cancel";

/// The status text for an active filter: the filter text, the number of
/// visible items, and the keys that are live.
pub open spec fn filtered_status(text: Seq<char>, count: nat, keys: Seq<char>) -> Seq<char> {
    "Filter: '"@ + text + "' ("@ + decimal(count) + " models) | "@ + keys
}

/// The text of the status bar. An install error comes before everything
/// else, then the install status, then the text of the mode.
pub open spec fn status_bar(s: AppStateView) -> Seq<char> {
    if s.install_error is Some {
        "Error: "@ + s.install_error->0
    } else if s.install_status is Some {
        s.install_status->0
    } else {
        match s.current_mode {
            AppMode::Normal => if s.is_filtered {
                filtered_status(
                    s.filter_input,
                    s.visible_models().len(),
                    "/: Filter | Ctrl+C: Clear | q: Quit"@,
                )
            } else {
                match s.status_message {
                    Some(status) => status,
                    None => NORMAL_HINT@,
                }
            },
            AppMode::Filter => FILTER_HINT@,
            AppMode::ConfirmDelete => "Confirm delete? (y/N)"@,
            AppMode::InstallSelectModel => if s.is_registry_filtered {
                filtered_status(
                    s.registry_filter_input,
                    s.visible_registry_models().len(),
                    "/: Filter | Ctrl+C: Clear | \u{2191}/\u{2193}: Select | Enter: Choose Tags | Esc: Cancel"@,
                )
            } else {
                SELECT_MODEL_HINT@
            },
            AppMode::InstallSelectModelFilter => FILTER_HINT@,
            AppMode::InstallSelectTag => "\u{2191}/\u{2193}: Select | Enter: Confirm | Esc: Back"@,
            AppMode::InstallConfirm => "Confirm install? (y/N) | Esc: Back"@,
            AppMode::Installing => "Installing..."@,
            AppMode::RunningOllama => "Running ollama... (TUI Suspended)"@,
            AppMode::Help => "h/?/q/Esc: Close Help"@,
        }
    }
}

/// The title of a list: its name, and while a filter is active how many of
/// its items are visible.
pub open spec fn list_title(name: Seq<char>, filtered: bool, visible: nat, all: nat) -> Seq<char> {
    if filtered {
        name + " (filtered: "@ + decimal(visible) + "/"@ + decimal(all) + ")"@
    } else {
        name
    }
}

/// The line that shows a filter text: while the text is edited, the cursor
/// mark stands at the cursor.
pub open spec fn filter_line(text: Seq<char>, cursor: nat, editing: bool) -> Seq<char> {
    if editing {
        text.insert(cursor as int, CURSOR_CHAR)
    } else {
        text
    }
}

/// The start of a digest, up to twelve characters, and an ellipsis.
pub open spec fn digest_preview(digest: Seq<char>) -> Seq<char> {
    if digest.len() <= 12 {
        digest + "..."@
    } else {
        digest.take(12) + "..."@
    }
}

/// The status text for an active filter.
fn filtered_status_text(text: &str, count: usize, keys: &str) -> (r: String)
    ensures
        r@ == filtered_status(text@, count as nat, keys@),
{
    let mut r = String::from_str("Filter: '");
    r.append(text);
    r.append("' (");
    push_decimal(&mut r, count);
    r.append(" models) | ");
    r.append(keys);
    r
}

/// The title of a list.
fn list_title_text(name: &str, filtered: bool, visible: usize, all: usize) -> (r: String)
    ensures
        r@ == list_title(name@, filtered, visible as nat, all as nat),
{
    let mut r = String::from_str(name);
    if filtered {
        r.append(" (filtered: ");
        push_decimal(&mut r, visible);
        r.append("/");
        push_decimal(&mut r, all);
        r.append(")");
    }
    r
}

/// The text of the status bar where no install error or status is on display.
fn mode_status_text(app: &AppState) -> (r: String)
    ensures
        app@.install_error is None && app@.install_status is None ==> r@ == status_bar(app@),
{
    match app.current_mode {
        AppMode::Normal => {
            if app.is_filtered {
                filtered_status_text(
                    app.filter_input.as_str(),
                    app.get_current_models().len(),
                    "/: Filter | Ctrl+C: Clear | q: Quit",
                )
            } else {
                match &app.status_message {
                    Some(status) => status.clone(),
                    None => String::from_str(NORMAL_HINT),
                }
            }
        },
        AppMode::Filter => String::from_str(FILTER_HINT),
        AppMode::ConfirmDelete => String::from_str("Confirm delete? (y/N)"),
        AppMode::InstallSelectModel => {
            if app.is_registry_filtered {
                filtered_status_text(
                    app.registry_filter_input.as_str(),
                    app.get_current_registry_models().len(),
                    "/: Filter | Ctrl+C: Clear | \u{2191}/\u{2193}: Select | Enter: Choose Tags | Esc: Cancel",
                )
            } else {
                String::from_str(SELECT_MODEL_HINT)
            }
        },
        AppMode::InstallSelectModelFilter => String::from_str(FILTER_HINT),
        AppMode::InstallSelectTag => String::from_str(
            "\u{2191}/\u{2193}: Select | Enter: Confirm | Esc: Back",
        ),
        AppMode::InstallConfirm => String::from_str("Confirm install? (y/N) | Esc: Back"),
        AppMode::Installing => String::from_str("Installing..."),
        AppMode::RunningOllama => String::from_str("Running ollama... (TUI Suspended)"),
        AppMode::Help => String::from_str("h/?/q/Esc: Close Help"),
    }
}

/// The text of the status bar.
pub fn status_bar_text(app: &AppState) -> (r: String)
    ensures
        r@ == status_bar(app@),
{
    match &app.install_error {
        Some(error) => String::from_str("Error: ").concat(error.as_str()),
        None => match &app.install_status {
            Some(status) => status.clone(),
            None => mode_status_text(app),
        },
    }
}

/// The title of the list of local models.
pub fn model_list_title(app: &AppState) -> (r: String)
    ensures
        r@ == list_title(
            "Models"@,
            app@.is_filtered,
            app@.visible_models().len(),
            app@.models.len(),
        ),
{
    list_title_text("Models", app.is_filtered, app.get_current_models().len(), app.models.len())
}

/// The title of the list of registry models.
pub fn registry_list_title(app: &AppState) -> (r: String)
    ensures
        r@ == list_title(
            "Install Model: Select Model"@,
            app@.is_registry_filtered,
            app@.visible_registry_models().len(),
            app@.registry_models.len(),
        ),
{
    list_title_text(
        "Install Model: Select Model",
        app.is_registry_filtered,
        app.get_current_registry_models().len(),
        app.registry_models.len(),
    )
}

/// The line that shows the filter of the local models.
pub fn filter_input_line(app: &AppState) -> (r: String)
    requires
        app@.cursors_in_bounds(),
    ensures
        r@ == filter_line(
            app@.filter_input,
            app@.filter_cursor_pos,
            app@.current_mode == AppMode::Filter,
        ),
{
    if app.current_mode == AppMode::Filter {
        insert_char(app.filter_input.as_str(), app.filter_cursor_pos, CURSOR_CHAR)
    } else {
        app.filter_input.clone()
    }
}

/// The line that shows the filter of the registry models.
pub fn registry_filter_input_line(app: &AppState) -> (r: String)
    requires
        app@.cursors_in_bounds(),
    ensures
        r@ == filter_line(
            app@.registry_filter_input,
            app@.registry_filter_cursor_pos,
            app@.current_mode == AppMode::InstallSelectModelFilter,
        ),
{
    if app.current_mode == AppMode::InstallSelectModelFilter {
        insert_char(
            app.registry_filter_input.as_str(),
            app.registry_filter_cursor_pos,
            CURSOR_CHAR,
        )
    } else {
        app.registry_filter_input.clone()
    }
}

/// The start of a digest, for display.
pub fn digest_preview_text(digest: &str) -> (r: String)
    ensures
        r@ == digest_preview(digest@),
{
    let mut chars = chars_of(digest);
    if chars.len() > 12 {
        chars.truncate(12);
    }
    let mut r = text_of(&chars);
    r.append("...");
    r
}

} // verus!
