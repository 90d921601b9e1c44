//! The application state: the item list, the filter text, the derived
//! filtered view, the selection cursor and the scratch buffer, together with
//! every mutation the user interface performs on them.
//!
//! The governing invariant is [`App::list_wf`]: the filtered view is always
//! exactly the items passing the current filter, and the selection cursor is
//! `None` exactly when the view is empty and a valid index into it otherwise.

use vstd::prelude::*;

use crate::selection::{clamp_sel, down_sel, lemma_clamp_ok, sel_of, sel_ok, up_sel};
use crate::text::{
    contains_substring, filter_items, item_matches, lemma_filter_empty_identity,
    lemma_filter_items_in_source, lower_of, lowercase, match_pred,
};

verus! {

/// The interpretation context for incoming key commands.
#[derive(Clone, Copy, Debug, PartialEq, Eq, Structural)]
pub enum InputMode {
    Normal,
    Editing,
    Searching,
    Adding,
    Confirming,
}

impl Default for InputMode {
    /// The mode a fresh session starts in.
    fn default() -> (r: Self)
        ensures
            r is Normal,
    {
        InputMode::Normal
    }
}

/// The list editor's whole state.
pub struct App {
    pub input_mode: InputMode,
    pub search_input: String,
    pub todos: Vec<String>,
    pub filtered_todos: Vec<String>,
    pub selected_index: Option<usize>,
    pub input_buffer: String,
    pub show_confirmation: bool,
}

/// The index of the first element of `items` equal to `target`; meaningful
/// only when such an element exists.
pub open spec fn first_match(items: Seq<Seq<char>>, target: Seq<char>) -> int
    decreases items.len(),
{
    if items.len() == 0 {
        0
    } else if items[0] == target {
        0
    } else {
        1 + first_match(items.drop_first(), target)
    }
}

proof fn lemma_first_match_at(items: Seq<Seq<char>>, target: Seq<char>, j: int)
    requires
        0 <= j < items.len(),
        items[j] == target,
        forall|k: int| 0 <= k < j ==> items[k] != target,
    ensures
        first_match(items, target) == j,
    decreases j,
{
    if j > 0 {
        assert(items[0] != target);
        lemma_first_match_at(items.drop_first(), target, j - 1);
    }
}

/// The five items a fresh session starts with.
pub open spec fn seed_items() -> Seq<Seq<char>> {
    seq![
        "Learn Rust"@,
        "Build a TUI app"@,
        "Share with others"@,
        "Write documentation"@,
        "Add more features"@,
    ]
}

impl App {
    /// The stored items, as sequences of characters.
    pub open spec fn items(self) -> Seq<Seq<char>> {
        self.todos.deep_view()
    }

    /// The filtered view, as sequences of characters.
    pub open spec fn view_items(self) -> Seq<Seq<char>> {
        self.filtered_todos.deep_view()
    }

    /// The list invariant: the filtered view is exactly the items passing
    /// the current filter, and the selection cursor is `None` exactly when
    /// the view is empty and otherwise a valid index into it.
    pub open spec fn list_wf(self) -> bool {
        &&& self.view_items() == filter_items(self.items(), self.search_input@)
        &&& sel_ok(sel_of(self.selected_index), self.view_items().len() as int)
    }

    /// The full invariant: the list invariant, and the confirmation dialog
    /// flag shown exactly while a delete awaits confirmation.
    pub open spec fn wf(self) -> bool {
        &&& self.list_wf()
        &&& self.show_confirmation <==> self.input_mode is Confirming
    }
}

/// Clones every item of `v`, preserving the sequence of values.
fn clone_items(v: &Vec<String>) -> (r: Vec<String>)
    ensures
        r@ == v@,
{
    let mut r: Vec<String> = Vec::new();
    let mut i: usize = 0;
    while i < v.len()
        invariant
            i <= v.len(),
            r@ == v@.take(i as int),
        decreases v.len() - i,
    {
        r.push(v[i].clone());
        proof {
            v@.lemma_take_succ_push(i as int);
            assert(r@ =~= v@.take(i as int + 1));
        }
        i += 1;
    }
    proof {
        v@.lemma_take_len();
    }
    r
}

/// Recomputes the filtered view: keeps, in order, exactly the items whose
/// lowercase form contains the lowercase filter text; an empty filter keeps
/// everything.
fn recompute_filtered(todos: &Vec<String>, search: &String) -> (r: Vec<String>)
    ensures
        r.deep_view() == filter_items(todos.deep_view(), search@),
{
    let mut r: Vec<String> = Vec::new();
    let use_all = search.as_str().is_empty();
    let needle = if use_all {
        String::new()
    } else {
        lowercase(search)
    };
    let mut i: usize = 0;
    while i < todos.len()
        invariant
            i <= todos.len(),
            use_all == (search@.len() == 0),
            !use_all ==> needle@ == lower_of(search@),
            r.deep_view() == todos.deep_view().take(i as int).filter(match_pred(search@)),
        decreases todos.len() - i,
    {
        let ghost dv = todos.deep_view();
        let ghost r_before = r.deep_view();
        let keep = if use_all {
            true
        } else {
            let hay = lowercase(&todos[i]);
            contains_substring(&hay, &needle)
        };
        proof {
            assert(keep == item_matches(dv[i as int], search@));
        }
        if keep {
            r.push(todos[i].clone());
            proof {
                assert(r.deep_view() =~= r_before.push(dv[i as int]));
            }
        }
        proof {
            dv.lemma_take_succ_push(i as int);
            Seq::lemma_filter_push(dv.take(i as int), dv[i as int], match_pred(search@));
        }
        i += 1;
    }
    proof {
        todos.deep_view().lemma_take_len();
    }
    r
}

/// Finds the first element of `todos` equal to `target`, if any.
fn find_first(todos: &Vec<String>, target: &String) -> (r: Option<usize>)
    ensures
        match r {
            Option::Some(j) => {
                &&& (j as int) < todos@.len()
                &&& todos.deep_view()[j as int] == target@
                &&& first_match(todos.deep_view(), target@) == j as int
            },
            Option::None => forall|k: int|
                0 <= k < todos@.len() ==> todos.deep_view()[k] != target@,
        },
{
    let mut j: usize = 0;
    while j < todos.len()
        invariant
            j <= todos.len(),
            forall|k: int| 0 <= k < j ==> todos.deep_view()[k] != target@,
        decreases todos.len() - j,
    {
        if todos[j] == *target {
            proof {
                lemma_first_match_at(todos.deep_view(), target@, j as int);
            }
            return Option::Some(j);
        }
        j += 1;
    }
    Option::None
}

impl App {
    /// A fresh session: the seed items, no filter, the first item selected,
    /// an empty scratch buffer, normal mode.
    pub fn new() -> (r: App)
        ensures
            r.wf(),
            r.items() == seed_items(),
            r.view_items() == seed_items(),
            r.search_input@ == Seq::<char>::empty(),
            r.input_buffer@ == Seq::<char>::empty(),
            sel_of(r.selected_index) == Option::Some(0int),
            r.input_mode is Normal,
            !r.show_confirmation,
    {
        let mut todos: Vec<String> = Vec::new();
        todos.push("Learn Rust".to_owned());
        todos.push("Build a TUI app".to_owned());
        todos.push("Share with others".to_owned());
        todos.push("Write documentation".to_owned());
        todos.push("Add more features".to_owned());
        let filtered_todos = clone_items(&todos);
        let r = App {
            input_mode: InputMode::Normal,
            search_input: String::new(),
            todos,
            filtered_todos,
            selected_index: Option::Some(0),
            input_buffer: String::new(),
            show_confirmation: false,
        };
        proof {
            assert(r.items() =~= seed_items());
            lemma_filter_empty_identity(r.items(), r.search_input@);
        }
        r
    }

    /// Recomputes the filtered view from the current items and filter text,
    /// then re-clamps the selection cursor. Total: callable from any state;
    /// it restores the list invariant.
    pub fn filter_todos(&mut self)
        ensures
            final(self).list_wf(),
            final(self).todos == old(self).todos,
            final(self).search_input == old(self).search_input,
            final(self).input_buffer == old(self).input_buffer,
            final(self).input_mode == old(self).input_mode,
            final(self).show_confirmation == old(self).show_confirmation,
            final(self).view_items() == filter_items(old(self).items(), old(self).search_input@),
            sel_of(final(self).selected_index) == clamp_sel(
                sel_of(old(self).selected_index),
                final(self).view_items().len() as int,
            ),
    {
        let filtered = recompute_filtered(&self.todos, &self.search_input);
        self.filtered_todos = filtered;
        let len = self.filtered_todos.len();
        if len == 0 {
            self.selected_index = Option::None;
        } else {
            match self.selected_index {
                Option::None => {
                    self.selected_index = Option::Some(0);
                },
                Option::Some(i) => {
                    if i >= len {
                        self.selected_index = Option::Some(len - 1);
                    }
                },
            }
        }
        proof {
            lemma_clamp_ok(
                sel_of(old(self).selected_index),
                self.view_items().len() as int,
            );
        }
    }

    /// Moves the selection cursor one entry up, wrapping from the first
    /// entry to the last; from a missing cursor it lands on the first entry.
    /// A no-op on an empty view. Only the cursor changes.
    pub fn move_selection_up(&mut self)
        requires
            old(self).list_wf(),
        ensures
            final(self).list_wf(),
            final(self).todos == old(self).todos,
            final(self).search_input == old(self).search_input,
            final(self).filtered_todos == old(self).filtered_todos,
            final(self).input_buffer == old(self).input_buffer,
            final(self).input_mode == old(self).input_mode,
            final(self).show_confirmation == old(self).show_confirmation,
            sel_of(final(self).selected_index) == up_sel(
                sel_of(old(self).selected_index),
                old(self).view_items().len() as int,
            ),
    {
        self.selected_index = match self.selected_index {
            Option::Some(i) => {
                if i > 0 {
                    Option::Some(i - 1)
                } else {
                    Option::Some(self.filtered_todos.len() - 1)
                }
            },
            Option::None => {
                if self.filtered_todos.len() > 0 {
                    Option::Some(0)
                } else {
                    Option::None
                }
            },
        };
    }

    /// Moves the selection cursor one entry down, wrapping from the last
    /// entry to the first; from a missing cursor it lands on the first entry.
    /// A no-op on an empty view. Only the cursor changes.
    pub fn move_selection_down(&mut self)
        requires
            old(self).list_wf(),
        ensures
            final(self).list_wf(),
            final(self).todos == old(self).todos,
            final(self).search_input == old(self).search_input,
            final(self).filtered_todos == old(self).filtered_todos,
            final(self).input_buffer == old(self).input_buffer,
            final(self).input_mode == old(self).input_mode,
            final(self).show_confirmation == old(self).show_confirmation,
            sel_of(final(self).selected_index) == down_sel(
                sel_of(old(self).selected_index),
                old(self).view_items().len() as int,
            ),
    {
        let len = self.filtered_todos.len();
        self.selected_index = match self.selected_index {
            Option::Some(i) => {
                if i < len - 1 {
                    Option::Some(i + 1)
                } else {
                    Option::Some(0)
                }
            },
            Option::None => {
                if len > 0 {
                    Option::Some(0)
                } else {
                    Option::None
                }
            },
        };
    }

    /// Commits the scratch buffer as a new item at the end of the list, then
    /// clears the buffer and refreshes the view. An empty buffer changes
    /// nothing: no empty item is ever inserted, and the item count is kept.
    pub fn add_todo(&mut self)
        requires
            old(self).list_wf(),
        ensures
            final(self).list_wf(),
            final(self).search_input == old(self).search_input,
            final(self).input_mode == old(self).input_mode,
            final(self).show_confirmation == old(self).show_confirmation,
            old(self).input_buffer@.len() == 0 ==> *final(self) == *old(self),
            old(self).input_buffer@.len() > 0 ==> {
                &&& final(self).items() == old(self).items().push(old(self).input_buffer@)
                &&& final(self).items().len() == old(self).items().len() + 1
                &&& final(self).input_buffer@ == Seq::<char>::empty()
                &&& final(self).view_items() == filter_items(
                    final(self).items(),
                    old(self).search_input@,
                )
                &&& sel_of(final(self).selected_index) == clamp_sel(
                    sel_of(old(self).selected_index),
                    final(self).view_items().len() as int,
                )
            },
    {
        if !self.input_buffer.as_str().is_empty() {
            let ghost items_before = self.items();
            let text = self.input_buffer.clone();
            self.todos.push(text);
            self.input_buffer = String::new();
            proof {
                assert(self.items() =~= items_before.push(old(self).input_buffer@));
            }
            self.filter_todos();
        }
    }

    /// Deletes the first item equal to the selected entry of the view, then
    /// refreshes the view and re-clamps the cursor. A no-op without a
    /// selection. With one, the item count drops by exactly one and the
    /// removed item is the one the cursor pointed at.
    pub fn delete_selected_todo(&mut self)
        requires
            old(self).list_wf(),
        ensures
            final(self).list_wf(),
            final(self).search_input == old(self).search_input,
            final(self).input_buffer == old(self).input_buffer,
            final(self).input_mode == old(self).input_mode,
            final(self).show_confirmation == old(self).show_confirmation,
            old(self).selected_index is None ==> *final(self) == *old(self),
            old(self).selected_index matches Option::Some(i) ==> {
                let target = old(self).view_items()[i as int];
                let j = first_match(old(self).items(), target);
                &&& 0 <= j < old(self).items().len()
                &&& old(self).items()[j] == target
                &&& final(self).items() == old(self).items().remove(j)
                &&& final(self).items().len() == old(self).items().len() - 1
                &&& final(self).view_items() == filter_items(
                    final(self).items(),
                    old(self).search_input@,
                )
                &&& sel_of(final(self).selected_index) == clamp_sel(
                    Option::Some(i as int),
                    final(self).view_items().len() as int,
                )
            },
    {
        match self.selected_index {
            Option::None => {},
            Option::Some(selected) => {
                let target = self.filtered_todos[selected].clone();
                proof {
                    lemma_filter_items_in_source(
                        self.items(),
                        self.search_input@,
                        selected as int,
                    );
                }
                match find_first(&self.todos, &target) {
                    Option::Some(j) => {
                        let ghost items_before = self.items();
                        self.todos.remove(j);
                        proof {
                            assert(self.items() =~= items_before.remove(j as int));
                        }
                        self.filter_todos();
                    },
                    Option::None => {
                        // Unreachable: the view is a filtering of the items,
                        // so the selected entry always has a source item.
                        proof {
                            assert(false);
                        }
                    },
                }
            },
        }
    }

    /// Raises the delete-confirmation dialog for the selected entry. A no-op
    /// without a selection.
    pub fn start_delete_confirmation(&mut self)
        requires
            old(self).list_wf(),
        ensures
            final(self).list_wf(),
            old(self).selected_index is None ==> *final(self) == *old(self),
            old(self).selected_index is Some ==> *final(self) == (App {
                input_mode: InputMode::Confirming,
                show_confirmation: true,
                ..*old(self)
            }),
    {
        if self.selected_index.is_some() {
            self.input_mode = InputMode::Confirming;
            self.show_confirmation = true;
        }
    }

    /// Dismisses the delete-confirmation dialog and returns to normal mode.
    pub fn cancel_delete(&mut self)
        ensures
            *final(self) == (App {
                input_mode: InputMode::Normal,
                show_confirmation: false,
                ..*old(self)
            }),
    {
        self.input_mode = InputMode::Normal;
        self.show_confirmation = false;
    }

    /// Copies the selected entry's text into the scratch buffer and enters
    /// editing mode. A no-op without a selection.
    pub fn start_editing(&mut self)
        requires
            old(self).list_wf(),
        ensures
            final(self).list_wf(),
            old(self).selected_index is None ==> *final(self) == *old(self),
            old(self).selected_index matches Option::Some(i) ==> {
                &&& final(self).input_buffer@ == old(self).view_items()[i as int]
                &&& final(self).input_mode is Editing
                &&& final(self).todos == old(self).todos
                &&& final(self).filtered_todos == old(self).filtered_todos
                &&& final(self).search_input == old(self).search_input
                &&& final(self).selected_index == old(self).selected_index
                &&& final(self).show_confirmation == old(self).show_confirmation
            },
    {
        match self.selected_index {
            Option::None => {},
            Option::Some(selected) => {
                self.input_buffer = self.filtered_todos[selected].clone();
                self.input_mode = InputMode::Editing;
            },
        }
    }

    /// Overwrites the first item equal to the selected entry of the view
    /// with the scratch buffer's text, then refreshes the view and re-clamps
    /// the cursor. A no-op without a selection or with an empty buffer; the
    /// buffer itself is kept.
    pub fn save_edit(&mut self)
        requires
            old(self).list_wf(),
        ensures
            final(self).list_wf(),
            final(self).search_input == old(self).search_input,
            final(self).input_buffer == old(self).input_buffer,
            final(self).input_mode == old(self).input_mode,
            final(self).show_confirmation == old(self).show_confirmation,
            (old(self).selected_index is None || old(self).input_buffer@.len() == 0)
                ==> *final(self) == *old(self),
            old(self).selected_index matches Option::Some(i) ==> old(self).input_buffer@.len() > 0
                ==> {
                let target = old(self).view_items()[i as int];
                let j = first_match(old(self).items(), target);
                &&& 0 <= j < old(self).items().len()
                &&& old(self).items()[j] == target
                &&& final(self).items() == old(self).items().update(j, old(self).input_buffer@)
                &&& final(self).view_items() == filter_items(
                    final(self).items(),
                    old(self).search_input@,
                )
                &&& sel_of(final(self).selected_index) == clamp_sel(
                    Option::Some(i as int),
                    final(self).view_items().len() as int,
                )
            },
    {
        match self.selected_index {
            Option::None => {},
            Option::Some(selected) => {
                if !self.input_buffer.as_str().is_empty() {
                    let target = self.filtered_todos[selected].clone();
                    proof {
                        lemma_filter_items_in_source(
                            self.items(),
                            self.search_input@,
                            selected as int,
                        );
                    }
                    match find_first(&self.todos, &target) {
                        Option::Some(j) => {
                            let ghost items_before = self.items();
                            let text = self.input_buffer.clone();
                            self.todos.set(j, text);
                            proof {
                                assert(self.items() =~= items_before.update(
                                    j as int,
                                    old(self).input_buffer@,
                                ));
                            }
                            self.filter_todos();
                        },
                        Option::None => {
                            // Unreachable: the view is a filtering of the
                            // items, so the selected entry always has a
                            // source item.
                            proof {
                                assert(false);
                            }
                        },
                    }
                }
            },
        }
    }

    /// Discards the scratch buffer and returns to normal mode.
    pub fn cancel_edit(&mut self)
        ensures
            final(self).input_buffer@ == Seq::<char>::empty(),
            final(self).input_mode is Normal,
            final(self).todos == old(self).todos,
            final(self).search_input == old(self).search_input,
            final(self).filtered_todos == old(self).filtered_todos,
            final(self).selected_index == old(self).selected_index,
            final(self).show_confirmation == old(self).show_confirmation,
    {
        self.input_buffer = String::new();
        self.input_mode = InputMode::Normal;
    }
}

/// Law: with empty filter text the filtered view is the item list itself.
pub proof fn lemma_empty_filter_shows_all(s: App)
    requires
        s.list_wf(),
        s.search_input@.len() == 0,
    ensures
        s.view_items() == s.items(),
{
    lemma_filter_empty_identity(s.items(), s.search_input@);
}

/// Law: in a well-formed state every entry of the filtered view passes the
/// filter, and every item passing the filter appears in the view.
pub proof fn lemma_filter_characterization(s: App)
    requires
        s.list_wf(),
    ensures
        forall|k: int|
            0 <= k < s.view_items().len() ==> item_matches(
                #[trigger] s.view_items()[k],
                s.search_input@,
            ),
        forall|k: int|
            0 <= k < s.items().len() && item_matches(#[trigger] s.items()[k], s.search_input@)
                ==> s.view_items().contains(s.items()[k]),
{
    broadcast use vstd::seq_lib::group_filter_ensures;

    assert forall|k: int| 0 <= k < s.view_items().len() implies item_matches(
        #[trigger] s.view_items()[k],
        s.search_input@,
    ) by {
        Seq::lemma_filter_pred(s.items(), match_pred(s.search_input@), k);
    }
    assert forall|k: int|
        0 <= k < s.items().len() && item_matches(
            #[trigger] s.items()[k],
            s.search_input@,
        ) implies s.view_items().contains(s.items()[k]) by {
        Seq::lemma_filter_contains(s.items(), match_pred(s.search_input@), k);
    }
}

} // verus!
