//! The modal controller: a finite state machine over the five input modes
//! that interprets one abstract key command against the current mode and
//! dispatches to the matching state operation or mode transition.
//!
//! [`step_spec`] is the full transition table; [`App::handle_command`] is
//! proved to implement it and to preserve the state invariant.

use vstd::prelude::*;

use crate::selection::{clamp_sel, down_sel, sel_of, up_sel};
use crate::state::{first_match, App, InputMode};
use crate::text::{filter_items, pop_char, push_char};

verus! {

/// The abstract key-command alphabet. A collaborator outside this crate
/// decodes raw terminal key presses into these commands.
#[derive(Clone, Copy, Debug, PartialEq, Eq, Structural)]
pub enum Command {
    Quit,
    StartSearch,
    StartAdd,
    StartEdit,
    StartDelete,
    MoveUp,
    MoveDown,
    Char(char),
    Backspace,
    Confirm,
    Cancel,
    ConfirmYes,
    ConfirmNo,
}

/// Only the selection cursor moved, to `sel`; every other field is kept.
pub open spec fn moved(pre: App, post: App, sel: Option<int>) -> bool {
    &&& post.todos == pre.todos
    &&& post.search_input == pre.search_input
    &&& post.filtered_todos == pre.filtered_todos
    &&& post.input_buffer == pre.input_buffer
    &&& post.input_mode == pre.input_mode
    &&& post.show_confirmation == pre.show_confirmation
    &&& sel_of(post.selected_index) == sel
}

/// Only the scratch buffer changed, to `buf`; every other field is kept.
pub open spec fn buffer_edited(pre: App, post: App, buf: Seq<char>) -> bool {
    &&& post.input_buffer@ == buf
    &&& post.todos == pre.todos
    &&& post.search_input == pre.search_input
    &&& post.filtered_todos == pre.filtered_todos
    &&& post.selected_index == pre.selected_index
    &&& post.input_mode == pre.input_mode
    &&& post.show_confirmation == pre.show_confirmation
}

/// The scratch buffer was discarded and the session returned to normal
/// mode; the list, filter, view and cursor are kept.
pub open spec fn buffer_cleared_normal(pre: App, post: App) -> bool {
    &&& post.input_buffer@ == Seq::<char>::empty()
    &&& post.input_mode is Normal
    &&& post.todos == pre.todos
    &&& post.search_input == pre.search_input
    &&& post.filtered_todos == pre.filtered_todos
    &&& post.selected_index == pre.selected_index
    &&& post.show_confirmation == pre.show_confirmation
}

/// The filter text became `search`, the view was recomputed from the
/// unchanged items, the cursor was re-clamped, and the mode became `mode`.
pub open spec fn search_refiltered(
    pre: App,
    post: App,
    search: Seq<char>,
    mode: InputMode,
) -> bool {
    &&& post.search_input@ == search
    &&& post.todos == pre.todos
    &&& post.input_buffer == pre.input_buffer
    &&& post.input_mode == mode
    &&& post.show_confirmation == pre.show_confirmation
    &&& post.view_items() == filter_items(pre.items(), search)
    &&& sel_of(post.selected_index) == clamp_sel(
        sel_of(pre.selected_index),
        post.view_items().len() as int,
    )
}

/// The items, view and cursor are kept as they were.
pub open spec fn list_kept(pre: App, post: App) -> bool {
    &&& post.todos == pre.todos
    &&& post.filtered_todos == pre.filtered_todos
    &&& post.selected_index == pre.selected_index
}

/// The scratch buffer was committed as a new item: appended to the items,
/// the buffer cleared, the view recomputed and the cursor re-clamped.
pub open spec fn added_item(pre: App, post: App) -> bool {
    &&& post.items() == pre.items().push(pre.input_buffer@)
    &&& post.input_buffer@ == Seq::<char>::empty()
    &&& post.view_items() == filter_items(post.items(), pre.search_input@)
    &&& sel_of(post.selected_index) == clamp_sel(
        sel_of(pre.selected_index),
        post.view_items().len() as int,
    )
}

/// The first item equal to the view entry under cursor `i` was overwritten
/// with the scratch buffer's text; the view was recomputed and the cursor
/// re-clamped.
pub open spec fn edited_item(pre: App, post: App, i: int) -> bool {
    let target = pre.view_items()[i];
    let j = first_match(pre.items(), target);
    &&& post.items() == pre.items().update(j, pre.input_buffer@)
    &&& post.view_items() == filter_items(post.items(), pre.search_input@)
    &&& sel_of(post.selected_index) == clamp_sel(
        Option::Some(i),
        post.view_items().len() as int,
    )
}

/// The first item equal to the view entry under cursor `i` was removed; the
/// view was recomputed and the cursor re-clamped.
pub open spec fn deleted_item(pre: App, post: App, i: int) -> bool {
    let target = pre.view_items()[i];
    let j = first_match(pre.items(), target);
    &&& post.items() == pre.items().remove(j)
    &&& post.items().len() == pre.items().len() - 1
    &&& post.view_items() == filter_items(post.items(), pre.search_input@)
    &&& sel_of(post.selected_index) == clamp_sel(
        Option::Some(i),
        post.view_items().len() as int,
    )
}

/// Transitions out of normal mode: quit is signalled to the caller, the
/// text-entry and confirmation modes are entered, the cursor moves.
pub open spec fn step_normal(pre: App, cmd: Command, post: App) -> bool {
    match cmd {
        Command::Quit => post == pre,
        Command::StartSearch => post == (App { input_mode: InputMode::Searching, ..pre }),
        Command::StartAdd => {
            &&& post.input_buffer@ == Seq::<char>::empty()
            &&& post.input_mode is Adding
            &&& post.search_input == pre.search_input
            &&& post.show_confirmation == pre.show_confirmation
            &&& list_kept(pre, post)
        },
        Command::StartDelete => if pre.selected_index is Some {
            post == (App { input_mode: InputMode::Confirming, show_confirmation: true, ..pre })
        } else {
            post == pre
        },
        Command::StartEdit => match sel_of(pre.selected_index) {
            Option::None => post == pre,
            Option::Some(i) => {
                &&& post.input_buffer@ == pre.view_items()[i]
                &&& post.input_mode is Editing
                &&& post.search_input == pre.search_input
                &&& post.show_confirmation == pre.show_confirmation
                &&& list_kept(pre, post)
            },
        },
        Command::MoveUp => moved(
            pre,
            post,
            up_sel(sel_of(pre.selected_index), pre.view_items().len() as int),
        ),
        Command::MoveDown => moved(
            pre,
            post,
            down_sel(sel_of(pre.selected_index), pre.view_items().len() as int),
        ),
        _ => post == pre,
    }
}

/// Transitions while the filter text is being typed: every edit refilters
/// the view at once; confirming keeps the filter, cancelling clears it.
pub open spec fn step_searching(pre: App, cmd: Command, post: App) -> bool {
    match cmd {
        Command::Confirm => post == (App { input_mode: InputMode::Normal, ..pre }),
        Command::Cancel => {
            &&& search_refiltered(pre, post, Seq::<char>::empty(), InputMode::Normal)
            &&& post.view_items() == pre.items()
        },
        Command::Char(c) => search_refiltered(
            pre,
            post,
            pre.search_input@.push(c),
            InputMode::Searching,
        ),
        Command::Backspace => search_refiltered(
            pre,
            post,
            if pre.search_input@.len() > 0 {
                pre.search_input@.drop_last()
            } else {
                pre.search_input@
            },
            InputMode::Searching,
        ),
        _ => post == pre,
    }
}

/// Transitions while a new item is being composed in the scratch buffer.
pub open spec fn step_adding(pre: App, cmd: Command, post: App) -> bool {
    match cmd {
        Command::Confirm => {
            &&& post.input_mode is Normal
            &&& post.search_input == pre.search_input
            &&& post.show_confirmation == pre.show_confirmation
            &&& if pre.input_buffer@.len() == 0 {
                list_kept(pre, post) && post.input_buffer == pre.input_buffer
            } else {
                added_item(pre, post)
            }
        },
        Command::Cancel => buffer_cleared_normal(pre, post),
        Command::Char(c) => buffer_edited(pre, post, pre.input_buffer@.push(c)),
        Command::Backspace => buffer_edited(
            pre,
            post,
            if pre.input_buffer@.len() > 0 {
                pre.input_buffer@.drop_last()
            } else {
                pre.input_buffer@
            },
        ),
        _ => post == pre,
    }
}

/// Transitions while an existing item is being edited in the scratch
/// buffer. Confirming commits the buffer (unless it is empty or no entry is
/// selected), discards it and returns to normal mode.
pub open spec fn step_editing(pre: App, cmd: Command, post: App) -> bool {
    match cmd {
        Command::Confirm => {
            &&& post.input_mode is Normal
            &&& post.input_buffer@ == Seq::<char>::empty()
            &&& post.search_input == pre.search_input
            &&& post.show_confirmation == pre.show_confirmation
            &&& match sel_of(pre.selected_index) {
                Option::None => list_kept(pre, post),
                Option::Some(i) => if pre.input_buffer@.len() == 0 {
                    list_kept(pre, post)
                } else {
                    edited_item(pre, post, i)
                },
            }
        },
        Command::Cancel => buffer_cleared_normal(pre, post),
        Command::Char(c) => buffer_edited(pre, post, pre.input_buffer@.push(c)),
        Command::Backspace => buffer_edited(
            pre,
            post,
            if pre.input_buffer@.len() > 0 {
                pre.input_buffer@.drop_last()
            } else {
                pre.input_buffer@
            },
        ),
        _ => post == pre,
    }
}

/// Transitions while the delete-confirmation dialog is shown.
pub open spec fn step_confirming(pre: App, cmd: Command, post: App) -> bool {
    match cmd {
        Command::ConfirmYes => {
            &&& post.input_mode is Normal
            &&& !post.show_confirmation
            &&& post.search_input == pre.search_input
            &&& post.input_buffer == pre.input_buffer
            &&& match sel_of(pre.selected_index) {
                Option::None => list_kept(pre, post),
                Option::Some(i) => deleted_item(pre, post, i),
            }
        },
        Command::ConfirmNo | Command::Cancel => post == (App {
            input_mode: InputMode::Normal,
            show_confirmation: false,
            ..pre
        }),
        _ => post == pre,
    }
}

/// The whole transition table: what one command does to the state, and when
/// the caller's loop is asked to terminate. Commands with no meaning in the
/// current mode change nothing.
pub open spec fn step_spec(pre: App, cmd: Command, post: App, quit: bool) -> bool {
    &&& quit == (pre.input_mode is Normal && cmd is Quit)
    &&& match pre.input_mode {
        InputMode::Normal => step_normal(pre, cmd, post),
        InputMode::Searching => step_searching(pre, cmd, post),
        InputMode::Adding => step_adding(pre, cmd, post),
        InputMode::Editing => step_editing(pre, cmd, post),
        InputMode::Confirming => step_confirming(pre, cmd, post),
    }
}

impl App {
    /// Interprets one key command against the current mode, per
    /// [`step_spec`]. Returns whether the caller's loop should terminate.
    pub fn handle_command(&mut self, cmd: Command) -> (quit: bool)
        requires
            old(self).wf(),
        ensures
            final(self).wf(),
            step_spec(*old(self), cmd, *final(self), quit),
    {
        match self.input_mode {
            InputMode::Normal => match cmd {
                Command::Quit => {
                    return true;
                },
                Command::StartSearch => {
                    self.input_mode = InputMode::Searching;
                },
                Command::StartAdd => {
                    self.input_buffer = String::new();
                    self.input_mode = InputMode::Adding;
                },
                Command::StartDelete => {
                    self.start_delete_confirmation();
                },
                Command::StartEdit => {
                    self.start_editing();
                },
                Command::MoveUp => {
                    self.move_selection_up();
                },
                Command::MoveDown => {
                    self.move_selection_down();
                },
                _ => {},
            },
            InputMode::Searching => match cmd {
                Command::Confirm => {
                    self.input_mode = InputMode::Normal;
                },
                Command::Cancel => {
                    self.search_input = String::new();
                    self.input_mode = InputMode::Normal;
                    self.filter_todos();
                    proof {
                        crate::state::lemma_empty_filter_shows_all(*self);
                    }
                },
                Command::Char(c) => {
                    push_char(&mut self.search_input, c);
                    self.filter_todos();
                },
                Command::Backspace => {
                    pop_char(&mut self.search_input);
                    self.filter_todos();
                },
                _ => {},
            },
            InputMode::Adding => match cmd {
                Command::Confirm => {
                    self.add_todo();
                    self.input_mode = InputMode::Normal;
                },
                Command::Cancel => {
                    self.input_buffer = String::new();
                    self.input_mode = InputMode::Normal;
                },
                Command::Char(c) => {
                    push_char(&mut self.input_buffer, c);
                },
                Command::Backspace => {
                    pop_char(&mut self.input_buffer);
                },
                _ => {},
            },
            InputMode::Editing => match cmd {
                Command::Confirm => {
                    self.save_edit();
                    self.input_buffer = String::new();
                    self.input_mode = InputMode::Normal;
                },
                Command::Cancel => {
                    self.cancel_edit();
                },
                Command::Char(c) => {
                    push_char(&mut self.input_buffer, c);
                },
                Command::Backspace => {
                    pop_char(&mut self.input_buffer);
                },
                _ => {},
            },
            InputMode::Confirming => match cmd {
                Command::ConfirmYes => {
                    self.delete_selected_todo();
                    self.cancel_delete();
                },
                Command::ConfirmNo | Command::Cancel => {
                    self.cancel_delete();
                },
                _ => {},
            },
        }
        false
    }
}

} // verus!
