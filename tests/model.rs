use todolist::model::{Effect, Filter, Model, Msg, Update, STORAGE_KEY};
use todolist::TodoItem;

fn model_of(items: &[(&str, bool)]) -> Model {
    let list = items
        .iter()
        .map(|(c, d)| TodoItem { content: c.to_string(), completed: *d })
        .collect();
    Model::create(Some(list))
}

fn contents(m: &Model) -> Vec<String> {
    m.todolist.iter().map(|t| t.content.clone()).collect()
}

fn flags(m: &Model) -> Vec<bool> {
    m.todolist.iter().map(|t| t.completed).collect()
}

#[test]
fn add_then_count() {
    let mut m = Model::create(None);
    assert_eq!(m.active_count(), 0);
    let u = m.update(Msg::AddTodo("x".to_string()));
    assert_eq!(u, Update { render: true, effect: Effect::QueueSave });
    m.update(Msg::AddTodo("y".to_string()));
    assert_eq!(m.active_count(), 2);
    assert_eq!(m.todolist.len(), 2);
    assert_eq!(contents(&m), vec!["x", "y"]);
    assert_eq!(flags(&m), vec![false, false]);
}

#[test]
fn add_accepts_empty_text() {
    let mut m = Model::create(None);
    m.update(Msg::AddTodo(String::new()));
    assert_eq!(contents(&m), vec![""]);
}

#[test]
fn toggle_twice_restores() {
    let mut m = model_of(&[("a", false), ("b", true), ("c", false)]);
    assert_eq!(m.active_count(), 2);
    let u = m.update(Msg::ToggleCompleted(1));
    assert_eq!(u, Update { render: true, effect: Effect::QueueSave });
    assert_eq!(flags(&m), vec![false, false, false]);
    assert_eq!(m.active_count(), 3);
    m.update(Msg::ToggleCompleted(1));
    assert_eq!(flags(&m), vec![false, true, false]);
    assert_eq!(m.active_count(), 2);
}

#[test]
fn toggle_invalid_index_is_ignored() {
    let mut m = model_of(&[("a", false)]);
    let u = m.update(Msg::ToggleCompleted(5));
    assert_eq!(u, Update { render: false, effect: Effect::Nothing });
    assert_eq!(flags(&m), vec![false]);
}

#[test]
fn update_content_replaces_text() {
    let mut m = model_of(&[("a", true), ("b", false)]);
    let u = m.update(Msg::UpdateContent(0, "z".to_string()));
    assert_eq!(u, Update { render: true, effect: Effect::QueueSave });
    assert_eq!(contents(&m), vec!["z", "b"]);
    assert_eq!(flags(&m), vec![true, false]);
    let u = m.update(Msg::UpdateContent(2, "q".to_string()));
    assert_eq!(u, Update { render: false, effect: Effect::Nothing });
    assert_eq!(contents(&m), vec!["z", "b"]);
}

#[test]
fn clear_completed_keeps_open_items_in_order() {
    let mut m = model_of(&[("a", true), ("b", false), ("c", true), ("d", false)]);
    let u = m.update(Msg::ClearCompleted);
    assert_eq!(u, Update { render: true, effect: Effect::Nothing });
    assert_eq!(contents(&m), vec!["b", "d"]);
    assert_eq!(flags(&m), vec![false, false]);
}

#[test]
fn clear_completed_on_empty_list() {
    let mut m = Model::create(None);
    m.update(Msg::ClearCompleted);
    assert!(m.todolist.is_empty());
}

#[test]
fn toggle_all_twice_restores_uniform_flags() {
    let mut m = model_of(&[("a", true), ("b", true)]);
    assert!(m.all_completed());
    m.update(Msg::ToggleAllCompleted);
    assert_eq!(flags(&m), vec![false, false]);
    m.update(Msg::ToggleAllCompleted);
    assert_eq!(flags(&m), vec![true, true]);
}

#[test]
fn toggle_all_on_mixed_flags_completes_everything() {
    let mut m = model_of(&[("a", true), ("b", false)]);
    assert!(!m.all_completed());
    let u = m.update(Msg::ToggleAllCompleted);
    assert_eq!(u, Update { render: true, effect: Effect::Nothing });
    assert_eq!(flags(&m), vec![true, true]);
    m.update(Msg::ToggleAllCompleted);
    assert_eq!(flags(&m), vec![false, false]);
}

#[test]
fn all_completed_is_true_for_empty_list() {
    let m = Model::create(None);
    assert!(m.all_completed());
}

#[test]
fn filters_select_shown_items() {
    let mut m = model_of(&[("a", true), ("b", false), ("c", true)]);
    let all = m.shown_items();
    assert_eq!(all.iter().map(|e| e.0).collect::<Vec<_>>(), vec![0, 1, 2]);
    assert_eq!(all[2].1.content, "c");
    let u = m.update(Msg::ChangeFilter(Filter::Active));
    assert_eq!(u, Update { render: true, effect: Effect::Nothing });
    assert_eq!(m.filter, Filter::Active);
    let active = m.shown_items();
    assert_eq!(active.len(), 1);
    assert_eq!(active[0].0, 1);
    assert_eq!(active[0].1.content, "b");
    m.update(Msg::ChangeFilter(Filter::Completed));
    let done = m.shown_items();
    assert_eq!(done.iter().map(|e| e.0).collect::<Vec<_>>(), vec![0, 2]);
    assert!(done.iter().all(|e| e.1.completed));
}

#[test]
fn destroy_then_toggle_targets_shifted_item() {
    let mut m = model_of(&[("a", false), ("b", false), ("c", false)]);
    let u = m.update(Msg::Destroy(0));
    assert_eq!(u, Update { render: true, effect: Effect::QueueSave });
    assert_eq!(contents(&m), vec!["b", "c"]);
    m.update(Msg::ToggleCompleted(0));
    assert_eq!(m.todolist[0].content, "b");
    assert!(m.todolist[0].completed);
    assert!(!m.todolist[1].completed);
}

#[test]
fn save_asks_for_storage() {
    let mut m = model_of(&[("a", false)]);
    let u = m.update(Msg::Save);
    assert_eq!(u, Update { render: false, effect: Effect::Store });
    assert_eq!(contents(&m), vec!["a"]);
    assert_eq!(STORAGE_KEY, "yew-todo-app");
}

#[test]
fn restore_starts_with_all_filter() {
    let m = Model::create(None);
    assert!(m.todolist.is_empty());
    assert_eq!(m.filter, Filter::All);
    let m = model_of(&[("a", true), ("b", false)]);
    assert_eq!(m.filter, Filter::All);
    let saved = m.saved_list();
    let again = Model::create(Some(saved));
    assert_eq!(again.todolist, m.todolist);
}

#[test]
fn new_item_is_open() {
    let t = TodoItem::new("milk".to_string());
    assert_eq!(t.content, "milk");
    assert!(!t.completed);
    assert_eq!(t.duplicate(), t);
}
