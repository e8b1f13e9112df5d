use todo_list::state::restore;
use todo_list::state::MyApp;
use todo_list::state::Todo;

fn item(text: &str, completed: bool) -> Todo {
    Todo { todo_text: String::from(text), completed }
}

fn empty_app() -> MyApp {
    MyApp { todo_input_text: String::new(), todos: Vec::new() }
}

#[test]
fn add_three_items_in_order_all_unfinished() {
    let mut app = empty_app();
    for text in ["first", "second", "third"] {
        app.todo_input_text = String::from(text);
        app.add_todo();
    }
    assert_eq!(app.todos.len(), 3);
    assert_eq!(app.todos[0].todo_text, "first");
    assert_eq!(app.todos[1].todo_text, "second");
    assert_eq!(app.todos[2].todo_text, "third");
    assert!(app.todos.iter().all(|t| !t.completed));
}

#[test]
fn add_clears_pending_input() {
    let mut app = empty_app();
    app.todo_input_text = String::from("anything at all");
    app.add_todo();
    assert_eq!(app.todo_input_text, "");

    app.todo_input_text = String::from("");
    app.add_todo();
    assert_eq!(app.todo_input_text, "");
    assert_eq!(app.todos.len(), 2);
    assert_eq!(app.todos[1].todo_text, "");
}

#[test]
fn toggle_flips_only_its_index() {
    let mut app = empty_app();
    app.todo_input_text = String::from("keep me");
    app.todos = vec![item("a", false), item("b", true), item("c", false)];
    app.toggle(1);
    assert_eq!(app.todos[0].completed, false);
    assert_eq!(app.todos[1].completed, false);
    assert_eq!(app.todos[2].completed, false);
    assert_eq!(app.todos[0].todo_text, "a");
    assert_eq!(app.todos[1].todo_text, "b");
    assert_eq!(app.todos[2].todo_text, "c");
    assert_eq!(app.todo_input_text, "keep me");
}

#[test]
fn toggle_twice_restores_the_flag() {
    let mut app = empty_app();
    app.todos = vec![item("a", false), item("b", true)];
    app.toggle(0);
    app.toggle(0);
    assert_eq!(app.todos[0].completed, false);
    app.toggle(1);
    app.toggle(1);
    assert_eq!(app.todos[1].completed, true);
}

#[test]
fn remove_shifts_later_items_down() {
    let mut app = empty_app();
    app.todos = vec![item("a", false), item("b", true), item("c", false), item("d", true)];
    app.remove(1);
    assert_eq!(app.todos.len(), 3);
    assert_eq!(app.todos[0].todo_text, "a");
    assert_eq!(app.todos[1].todo_text, "c");
    assert_eq!(app.todos[2].todo_text, "d");
    assert_eq!(app.todos[0].completed, false);
    assert_eq!(app.todos[1].completed, false);
    assert_eq!(app.todos[2].completed, true);
}

#[test]
fn remove_all_finished_keeps_unfinished_in_order() {
    let mut app = empty_app();
    app.todos = vec![
        item("a", true),
        item("b", false),
        item("c", true),
        item("d", false),
        item("e", true),
    ];
    app.remove_all_finished();
    assert_eq!(app.todos.len(), 2);
    assert_eq!(app.todos[0].todo_text, "b");
    assert_eq!(app.todos[1].todo_text, "d");
    assert!(app.todos.iter().all(|t| !t.completed));
}

#[test]
fn remove_all_finished_is_idempotent() {
    let mut once = empty_app();
    once.todos = vec![item("a", true), item("b", false), item("c", true)];
    let mut twice = empty_app();
    twice.todos = vec![item("a", true), item("b", false), item("c", true)];

    once.remove_all_finished();
    twice.remove_all_finished();
    twice.remove_all_finished();

    assert_eq!(once.todos.len(), twice.todos.len());
    for (a, b) in once.todos.iter().zip(twice.todos.iter()) {
        assert_eq!(a.todo_text, b.todo_text);
        assert_eq!(a.completed, b.completed);
    }
}

#[test]
fn remove_all_finished_on_empty_list() {
    let mut app = empty_app();
    app.remove_all_finished();
    assert!(app.todos.is_empty());
}

#[test]
fn end_to_end_scenario() {
    let mut app = empty_app();

    app.todo_input_text = String::from("Buy milk");
    app.add_todo();
    assert_eq!(app.todos.len(), 1);
    assert_eq!(app.todos[0].todo_text, "Buy milk");
    assert_eq!(app.todos[0].completed, false);
    assert_eq!(app.todo_input_text, "");

    app.todo_input_text = String::from("Walk dog");
    app.add_todo();
    assert_eq!(app.todos.len(), 2);
    assert_eq!(app.todos[0].todo_text, "Buy milk");
    assert_eq!(app.todos[0].completed, false);
    assert_eq!(app.todos[1].todo_text, "Walk dog");
    assert_eq!(app.todos[1].completed, false);

    app.toggle(0);
    assert_eq!(app.todos[0].completed, true);
    assert_eq!(app.todos[1].completed, false);

    app.remove_all_finished();
    assert_eq!(app.todos.len(), 1);
    assert_eq!(app.todos[0].todo_text, "Walk dog");
    assert_eq!(app.todos[0].completed, false);

    app.remove(0);
    assert!(app.todos.is_empty());
}

#[test]
fn restore_round_trips_a_snapshot() {
    let mut app = empty_app();
    app.todo_input_text = String::from("abc");
    app.todos = vec![item("done one", true), item("still open", false)];

    let snapshot = app.clone();
    let restored = restore(Some(snapshot));

    assert_eq!(restored.todo_input_text, "abc");
    assert_eq!(restored.todos.len(), 2);
    assert_eq!(restored.todos[0].todo_text, "done one");
    assert_eq!(restored.todos[0].completed, true);
    assert_eq!(restored.todos[1].todo_text, "still open");
    assert_eq!(restored.todos[1].completed, false);
}

#[test]
fn restore_without_a_blob_gives_the_default() {
    let restored = restore(None);
    assert_eq!(restored.todo_input_text, "");
    assert!(restored.todos.is_empty());

    let default_state = MyApp::default();
    assert_eq!(default_state.todo_input_text, "");
    assert!(default_state.todos.is_empty());
}
