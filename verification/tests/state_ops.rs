use todo_tui::state::{App, InputMode};

fn mk_app(items: &[&str]) -> App {
    let todos: Vec<String> = items.iter().map(|s| s.to_string()).collect();
    App {
        input_mode: InputMode::Normal,
        search_input: String::new(),
        filtered_todos: todos.clone(),
        todos,
        selected_index: if items.is_empty() { None } else { Some(0) },
        input_buffer: String::new(),
        show_confirmation: false,
    }
}

fn views(app: &App) -> Vec<&str> {
    app.filtered_todos.iter().map(|s| s.as_str()).collect()
}

#[test]
fn new_starts_with_seed_items() {
    let app = App::new();
    assert_eq!(
        views(&app),
        vec![
            "Learn Rust",
            "Build a TUI app",
            "Share with others",
            "Write documentation",
            "Add more features"
        ]
    );
    assert_eq!(app.todos, app.filtered_todos);
    assert_eq!(app.selected_index, Some(0));
    assert_eq!(app.input_mode, InputMode::Normal);
    assert_eq!(app.search_input, "");
    assert_eq!(app.input_buffer, "");
    assert!(!app.show_confirmation);
}

#[test]
fn default_mode_is_normal() {
    assert_eq!(InputMode::default(), InputMode::Normal);
}

#[test]
fn filter_is_case_insensitive_substring() {
    let mut app = mk_app(&["Learn Rust", "Build a TUI app"]);
    app.search_input = "tui".to_string();
    app.filter_todos();
    assert_eq!(views(&app), vec!["Build a TUI app"]);
    assert_eq!(app.selected_index, Some(0));
}

#[test]
fn filter_uppercase_query_matches_lowercase_item() {
    let mut app = mk_app(&["learn rust", "build things"]);
    app.search_input = "RUST".to_string();
    app.filter_todos();
    assert_eq!(views(&app), vec!["learn rust"]);
}

#[test]
fn filter_without_match_empties_view_and_selection() {
    let mut app = mk_app(&["a", "b"]);
    app.search_input = "xyz".to_string();
    app.filter_todos();
    assert!(app.filtered_todos.is_empty());
    assert_eq!(app.selected_index, None);
}

#[test]
fn empty_filter_shows_all_items() {
    let mut app = mk_app(&["Learn Rust", "Build a TUI app", "Share with others"]);
    app.search_input = "rust".to_string();
    app.filter_todos();
    assert_eq!(views(&app), vec!["Learn Rust"]);
    app.search_input = String::new();
    app.filter_todos();
    assert_eq!(app.filtered_todos, app.todos);
}

#[test]
fn filter_reverting_keeps_index_not_item() {
    // The documented quirk: re-clamping preserves the index, so after the
    // filter is cleared the cursor points at whatever now sits at index 0.
    let mut app = mk_app(&["Build a TUI app", "Learn Rust"]);
    app.search_input = "rust".to_string();
    app.filter_todos();
    assert_eq!(views(&app), vec!["Learn Rust"]);
    assert_eq!(app.selected_index, Some(0));
    app.search_input = String::new();
    app.filter_todos();
    assert_eq!(app.filtered_todos, app.todos);
    assert_eq!(app.selected_index, Some(0));
    assert_eq!(app.filtered_todos[0], "Build a TUI app");
}

#[test]
fn filter_clamps_out_of_range_selection() {
    let mut app = mk_app(&["apple pie", "banana", "apricot"]);
    app.selected_index = Some(2);
    app.search_input = "ap".to_string();
    app.filter_todos();
    assert_eq!(views(&app), vec!["apple pie", "apricot"]);
    assert_eq!(app.selected_index, Some(1));
}

#[test]
fn move_down_wraps_to_start() {
    let mut app = mk_app(&["a", "b", "c"]);
    app.selected_index = Some(2);
    app.move_selection_down();
    assert_eq!(app.selected_index, Some(0));
}

#[test]
fn move_up_wraps_to_end() {
    let mut app = mk_app(&["a", "b", "c"]);
    app.move_selection_up();
    assert_eq!(app.selected_index, Some(2));
}

#[test]
fn full_cycle_of_moves_returns_to_start() {
    let mut app = mk_app(&["a", "b", "c", "d"]);
    app.selected_index = Some(1);
    for _ in 0..app.filtered_todos.len() {
        app.move_selection_down();
    }
    assert_eq!(app.selected_index, Some(1));
    for _ in 0..app.filtered_todos.len() {
        app.move_selection_up();
    }
    assert_eq!(app.selected_index, Some(1));
}

#[test]
fn moves_on_empty_view_are_noops() {
    let mut app = mk_app(&[]);
    app.move_selection_down();
    assert_eq!(app.selected_index, None);
    app.move_selection_up();
    assert_eq!(app.selected_index, None);
}

#[test]
fn add_with_empty_buffer_keeps_item_count() {
    let mut app = mk_app(&["a", "b"]);
    app.add_todo();
    assert_eq!(app.todos.len(), 2);
    assert_eq!(views(&app), vec!["a", "b"]);
}

#[test]
fn add_appends_and_clears_buffer() {
    let mut app = mk_app(&["a"]);
    app.input_buffer = "new entry".to_string();
    app.add_todo();
    assert_eq!(views(&app), vec!["a", "new entry"]);
    assert_eq!(app.input_buffer, "");
}

#[test]
fn delete_removes_selected_item_and_reduces_count() {
    let mut app = mk_app(&["a", "b", "c"]);
    app.selected_index = Some(1);
    app.delete_selected_todo();
    assert_eq!(app.todos.len(), 2);
    assert_eq!(views(&app), vec!["a", "c"]);
    assert_eq!(app.selected_index, Some(1));
}

#[test]
fn delete_last_item_clamps_selection_back() {
    let mut app = mk_app(&["a", "b"]);
    app.selected_index = Some(1);
    app.delete_selected_todo();
    assert_eq!(views(&app), vec!["a"]);
    assert_eq!(app.selected_index, Some(0));
}

#[test]
fn delete_only_item_clears_selection() {
    let mut app = mk_app(&["solo"]);
    app.delete_selected_todo();
    assert!(app.todos.is_empty());
    assert_eq!(app.selected_index, None);
}

#[test]
fn delete_without_selection_is_noop() {
    let mut app = mk_app(&[]);
    app.delete_selected_todo();
    assert!(app.todos.is_empty());
    assert_eq!(app.selected_index, None);
}

#[test]
fn delete_with_duplicates_removes_first_occurrence() {
    let mut app = mk_app(&["x", "dup", "dup"]);
    app.selected_index = Some(2);
    app.delete_selected_todo();
    assert_eq!(views(&app), vec!["x", "dup"]);
}

#[test]
fn delete_under_filter_removes_from_full_list() {
    let mut app = mk_app(&["apple", "banana", "apricot"]);
    app.search_input = "ap".to_string();
    app.filter_todos();
    app.selected_index = Some(1);
    app.delete_selected_todo();
    assert_eq!(app.todos, vec!["apple".to_string(), "banana".to_string()]);
    assert_eq!(views(&app), vec!["apple"]);
    assert_eq!(app.selected_index, Some(0));
}

#[test]
fn start_editing_copies_selected_text() {
    let mut app = mk_app(&["first", "second"]);
    app.selected_index = Some(1);
    app.start_editing();
    assert_eq!(app.input_buffer, "second");
    assert_eq!(app.input_mode, InputMode::Editing);
}

#[test]
fn save_edit_replaces_first_matching_item() {
    let mut app = mk_app(&["keep", "change me"]);
    app.selected_index = Some(1);
    app.start_editing();
    app.input_buffer = "changed".to_string();
    app.save_edit();
    assert_eq!(app.todos, vec!["keep".to_string(), "changed".to_string()]);
    assert_eq!(views(&app), vec!["keep", "changed"]);
}

#[test]
fn save_edit_with_empty_buffer_is_noop() {
    let mut app = mk_app(&["keep"]);
    app.start_editing();
    app.input_buffer = String::new();
    app.save_edit();
    assert_eq!(views(&app), vec!["keep"]);
}

#[test]
fn cancel_edit_discards_buffer() {
    let mut app = mk_app(&["keep"]);
    app.start_editing();
    app.input_buffer = "half typed".to_string();
    app.cancel_edit();
    assert_eq!(app.input_buffer, "");
    assert_eq!(app.input_mode, InputMode::Normal);
    assert_eq!(views(&app), vec!["keep"]);
}

#[test]
fn selection_stays_valid_across_operations() {
    let mut app = App::new();
    let check = |app: &App| match app.selected_index {
        None => assert!(app.filtered_todos.is_empty()),
        Some(i) => assert!(i < app.filtered_todos.len()),
    };
    check(&app);
    app.search_input = "zzz".to_string();
    app.filter_todos();
    check(&app);
    app.search_input = String::new();
    app.filter_todos();
    check(&app);
    app.move_selection_up();
    check(&app);
    app.input_buffer = "another".to_string();
    app.add_todo();
    check(&app);
    app.delete_selected_todo();
    check(&app);
}
