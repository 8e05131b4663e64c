use todomvc::{init, update, Filter, Model, Msg};

fn with_two(a_done: bool, b_done: bool) -> Model {
    let mut m = init();
    update(Msg::NewTodoTitleChanged("A".to_string()), &mut m);
    m.create_todo_with_id(1);
    update(Msg::NewTodoTitleChanged("B".to_string()), &mut m);
    m.create_todo_with_id(2);
    if a_done {
        update(Msg::ToggleTodo(1), &mut m);
    }
    if b_done {
        update(Msg::ToggleTodo(2), &mut m);
    }
    m
}

fn flags(m: &Model) -> Vec<bool> {
    m.todos.iter().map(|t| t.completed).collect()
}

fn ids(m: &Model) -> Vec<u128> {
    m.todos.iter().map(|t| t.id).collect()
}

#[test]
fn starts_empty() {
    let m = init();
    assert!(m.todos.is_empty());
    assert_eq!(m.new_todo_title, "");
    assert!(m.selected_todo.is_none());
    assert_eq!(m.filter, Filter::All);
}

#[test]
fn create_buy_milk() {
    let mut m = init();
    update(Msg::NewTodoTitleChanged("Buy milk".to_string()), &mut m);
    update(Msg::CreateTodo, &mut m);
    assert_eq!(m.todos.len(), 1);
    assert_eq!(m.todos[0].title, "Buy milk");
    assert!(!m.todos[0].completed);
    assert_eq!(m.new_todo_title, "");
}

#[test]
fn create_trims_the_draft() {
    let mut m = init();
    update(Msg::NewTodoTitleChanged("  Buy milk \t".to_string()), &mut m);
    let id = m.create_todo();
    assert_eq!(m.todos.len(), 1);
    assert_eq!(m.todos[0].id, id);
    assert_eq!(m.todos[0].title, "Buy milk");
    assert_eq!(m.new_todo_title, "");
}

#[test]
fn create_appends_in_order() {
    let m = with_two(false, false);
    assert_eq!(ids(&m), vec![1, 2]);
    assert_eq!(m.todos[1].title, "B");
}

#[test]
fn create_from_empty_draft_does_nothing() {
    let mut m = init();
    update(Msg::CreateTodo, &mut m);
    assert!(m.todos.is_empty());
    assert_eq!(m.new_todo_title, "");
}

#[test]
fn create_from_blank_draft_does_nothing() {
    let mut m = with_two(false, false);
    update(Msg::NewTodoTitleChanged(" \t\n ".to_string()), &mut m);
    update(Msg::CreateTodo, &mut m);
    assert_eq!(ids(&m), vec![1, 2]);
    assert_eq!(m.new_todo_title, " \t\n ");
}

#[test]
fn create_under_taken_id_does_nothing() {
    let mut m = with_two(false, false);
    update(Msg::NewTodoTitleChanged("C".to_string()), &mut m);
    m.create_todo_with_id(2);
    assert_eq!(ids(&m), vec![1, 2]);
    assert_eq!(m.todos[1].title, "B");
    assert_eq!(m.new_todo_title, "C");
}

#[test]
fn toggle_twice_restores() {
    let mut m = with_two(false, true);
    update(Msg::ToggleTodo(1), &mut m);
    assert_eq!(flags(&m), vec![true, true]);
    update(Msg::ToggleTodo(1), &mut m);
    assert_eq!(flags(&m), vec![false, true]);
}

#[test]
fn toggle_unknown_id_does_nothing() {
    let mut m = with_two(false, true);
    update(Msg::ToggleTodo(7), &mut m);
    assert_eq!(flags(&m), vec![false, true]);
}

#[test]
fn remove_twice_same_as_once() {
    let mut m = with_two(false, true);
    update(Msg::RemoveTodo(1), &mut m);
    assert_eq!(ids(&m), vec![2]);
    update(Msg::RemoveTodo(1), &mut m);
    assert_eq!(ids(&m), vec![2]);
    assert_eq!(m.todos[0].title, "B");
}

#[test]
fn remove_ends_rename_of_that_task() {
    let mut m = with_two(false, false);
    update(Msg::SelectTodo(Some(2)), &mut m);
    update(Msg::RemoveTodo(1), &mut m);
    assert_eq!(m.selected_todo.as_ref().map(|s| s.id), Some(2));
    update(Msg::RemoveTodo(2), &mut m);
    assert!(m.selected_todo.is_none());
    assert!(m.todos.is_empty());
}

#[test]
fn toggle_all_checks_then_unchecks() {
    let mut m = with_two(false, true);
    update(Msg::CheckOrUncheckAll, &mut m);
    assert_eq!(flags(&m), vec![true, true]);
    update(Msg::CheckOrUncheckAll, &mut m);
    assert_eq!(flags(&m), vec![false, false]);
}

#[test]
fn toggle_all_twice_from_all_completed() {
    let mut m = with_two(true, true);
    update(Msg::CheckOrUncheckAll, &mut m);
    assert_eq!(flags(&m), vec![false, false]);
    update(Msg::CheckOrUncheckAll, &mut m);
    assert_eq!(flags(&m), vec![true, true]);
}

#[test]
fn toggle_all_on_empty_list() {
    let mut m = init();
    assert!(m.all_completed());
    update(Msg::CheckOrUncheckAll, &mut m);
    assert!(m.todos.is_empty());
}

#[test]
fn clear_completed_keeps_open_tasks() {
    let mut m = with_two(true, false);
    update(Msg::NewTodoTitleChanged("C".to_string()), &mut m);
    m.create_todo_with_id(3);
    assert_eq!(m.active_count(), 2);
    assert_eq!(m.completed_count(), 1);
    update(Msg::ClearCompleted, &mut m);
    assert_eq!(ids(&m), vec![2, 3]);
    assert_eq!(m.active_count(), 2);
    assert_eq!(m.completed_count(), 0);
}

#[test]
fn clear_completed_ends_rename_of_cleared_task() {
    let mut m = with_two(true, false);
    update(Msg::SelectTodo(Some(1)), &mut m);
    update(Msg::ClearCompleted, &mut m);
    assert!(m.selected_todo.is_none());
}

#[test]
fn counts() {
    let m = with_two(false, true);
    assert_eq!(m.active_count(), 1);
    assert_eq!(m.completed_count(), 1);
    assert!(!m.all_completed());
    let m = with_two(true, true);
    assert!(m.all_completed());
    assert_eq!(m.active_count(), 0);
}

#[test]
fn completed_filter_shows_completed() {
    let mut m = with_two(true, false);
    update(Msg::FilterChanged(Filter::Completed), &mut m);
    assert_eq!(m.filter, Filter::Completed);
    let v = m.visible_todos();
    assert_eq!(v.len(), 1);
    assert_eq!(v[0].id, 1);
    assert_eq!(v[0].title, "A");
}

#[test]
fn active_and_all_filters() {
    let mut m = with_two(true, false);
    update(Msg::FilterChanged(Filter::Active), &mut m);
    let v: Vec<u128> = m.visible_todos().iter().map(|t| t.id).collect();
    assert_eq!(v, vec![2]);
    update(Msg::FilterChanged(Filter::All), &mut m);
    let v: Vec<u128> = m.visible_todos().iter().map(|t| t.id).collect();
    assert_eq!(v, vec![1, 2]);
    assert_eq!(m.todos.len(), 2);
}

#[test]
fn rename_and_save() {
    let mut m = with_two(false, false);
    update(Msg::SelectTodo(Some(2)), &mut m);
    assert_eq!(m.selected_todo.as_ref().map(|s| s.title.clone()), Some("B".to_string()));
    update(Msg::SelectedTodoTitleChanged("New title".to_string()), &mut m);
    update(Msg::SaveSelectedTodo, &mut m);
    assert_eq!(m.todos[1].title, "New title");
    assert_eq!(m.todos[0].title, "A");
    assert!(m.selected_todo.is_none());
}

#[test]
fn save_trims_title() {
    let mut m = with_two(false, true);
    update(Msg::SelectTodo(Some(1)), &mut m);
    update(Msg::SelectedTodoTitleChanged("  Walk  ".to_string()), &mut m);
    update(Msg::SaveSelectedTodo, &mut m);
    assert_eq!(m.todos[0].title, "Walk");
    assert_eq!(flags(&m), vec![false, true]);
}

#[test]
fn save_blank_title_removes_task() {
    let mut m = with_two(false, false);
    update(Msg::SelectTodo(Some(1)), &mut m);
    update(Msg::SelectedTodoTitleChanged("   ".to_string()), &mut m);
    update(Msg::SaveSelectedTodo, &mut m);
    assert_eq!(ids(&m), vec![2]);
    assert!(m.selected_todo.is_none());
}

#[test]
fn save_without_session_does_nothing() {
    let mut m = with_two(false, false);
    update(Msg::SaveSelectedTodo, &mut m);
    update(Msg::SelectedTodoTitleChanged("x".to_string()), &mut m);
    assert!(m.selected_todo.is_none());
    assert_eq!(m.todos[0].title, "A");
}

#[test]
fn select_unknown_or_none_deselects() {
    let mut m = with_two(false, false);
    update(Msg::SelectTodo(Some(1)), &mut m);
    update(Msg::SelectTodo(Some(9)), &mut m);
    assert!(m.selected_todo.is_none());
    update(Msg::SelectTodo(Some(1)), &mut m);
    update(Msg::SelectTodo(None), &mut m);
    assert!(m.selected_todo.is_none());
}

#[test]
fn mock_data() {
    let m = init().add_mock_data(10, 20);
    assert_eq!(ids(&m), vec![10, 20]);
    assert_eq!(m.todos[0].title, "I'm a todo");
    assert_eq!(flags(&m), vec![false, true]);
    assert_eq!(m.new_todo_title, "I'm a new todo title");
    let s = m.selected_todo.as_ref().unwrap();
    assert_eq!(s.id, 20);
    assert_eq!(s.title, "I'm a better B todo");
}
