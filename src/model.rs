use vstd::prelude::*;

use crate::todoitem::TodoItem;

verus! {

/// Key of the storage slot that holds the saved task list.
pub const STORAGE_KEY: &'static str = "yew-todo-app";

/// Which items the list shows.
#[derive(Clone, Copy, Debug, PartialEq, Eq, Structural)]
pub enum Filter {
    All,
    Active,
    Completed,
}

/// Intents the root applies to its state.
pub enum Msg {
    AddTodo(String),
    Destroy(usize),
    ToggleCompleted(usize),
    ToggleAllCompleted,
    UpdateContent(usize, String),
    ClearCompleted,
    ChangeFilter(Filter),
    Save,
}

/// Work that the embedding application performs after an intent.
#[derive(Clone, Copy, Debug, PartialEq, Eq, Structural)]
pub enum Effect {
    /// Nothing further.
    Nothing,
    /// Queue a [`Msg::Save`] before any later intent.
    QueueSave,
    /// Write the current list to storage under [`STORAGE_KEY`].
    Store,
}

/// The result of applying one intent.
#[derive(Clone, Copy, Debug, PartialEq, Eq, Structural)]
pub struct Update {
    /// Whether the view must be rendered again.
    pub render: bool,
    pub effect: Effect,
}

/// Root state: the task list, in order of addition, and the active filter.
pub struct Model {
    pub todolist: Vec<TodoItem>,
    pub filter: Filter,
}

/// Number of items in `items` that are not completed.
pub open spec fn count_active(items: Seq<TodoItem>) -> nat
    decreases items.len(),
{
    if items.len() == 0 {
        0
    } else {
        count_active(items.drop_last()) + if items.last().completed { 0nat } else { 1nat }
    }
}

/// Whether every item of `items` is completed (true of an empty list).
pub open spec fn every_completed(items: Seq<TodoItem>) -> bool {
    forall|i: int| 0 <= i < items.len() ==> #[trigger] items[i].completed
}

/// Whether `filter` lets `item` be shown.
pub open spec fn passes(filter: Filter, item: TodoItem) -> bool {
    match filter {
        Filter::All => true,
        Filter::Active => !item.completed,
        Filter::Completed => item.completed,
    }
}

/// The items that `filter` lets through, in list order, each with its index
/// in the unfiltered list.
pub open spec fn shown(items: Seq<TodoItem>, filter: Filter) -> Seq<(usize, TodoItem)>
    decreases items.len(),
{
    if items.len() == 0 {
        Seq::empty()
    } else {
        let rest = shown(items.drop_last(), filter);
        if passes(filter, items.last()) {
            rest.push(((items.len() - 1) as usize, items.last()))
        } else {
            rest
        }
    }
}

/// The items that survive a clear of completed items, in order.
pub open spec fn without_completed(items: Seq<TodoItem>) -> Seq<TodoItem> {
    items.filter(|t: TodoItem| !t.completed)
}

/// `items` with every completion flag set to `flag`, contents unchanged.
pub open spec fn all_set_to(items: Seq<TodoItem>, flag: bool) -> Seq<TodoItem> {
    items.map_values(|t: TodoItem| TodoItem { content: t.content, completed: flag })
}

/// The list a model starts from, given what storage yielded.
pub open spec fn restored(saved: Option<Seq<TodoItem>>) -> Seq<TodoItem> {
    match saved {
        Some(items) => items,
        None => Seq::empty(),
    }
}

/// Whether applying `msg` to a model holding `items` is defined.
pub open spec fn msg_allowed(items: Seq<TodoItem>, msg: Msg) -> bool {
    match msg {
        Msg::Destroy(id) => id < items.len(),
        _ => true,
    }
}

/// The list and filter after `msg` is applied to `items` under `filter`.
pub open spec fn next_list(items: Seq<TodoItem>, msg: Msg) -> Seq<TodoItem> {
    match msg {
        Msg::AddTodo(text) => items.push(TodoItem { content: text, completed: false }),
        Msg::Destroy(id) => items.remove(id as int),
        Msg::ToggleCompleted(id) => if id < items.len() {
            items.update(id as int, TodoItem { content: items[id as int].content, completed: !items[id as int].completed })
        } else {
            items
        },
        Msg::UpdateContent(id, text) => if id < items.len() {
            items.update(id as int, TodoItem { content: text, completed: items[id as int].completed })
        } else {
            items
        },
        Msg::ToggleAllCompleted => all_set_to(items, !every_completed(items)),
        Msg::ClearCompleted => without_completed(items),
        Msg::ChangeFilter(_) => items,
        Msg::Save => items,
    }
}

/// The render flag and follow-up effect of `msg` on a list of `len` items.
pub open spec fn next_update(len: nat, msg: Msg) -> Update {
    match msg {
        Msg::AddTodo(_) => Update { render: true, effect: Effect::QueueSave },
        Msg::Destroy(_) => Update { render: true, effect: Effect::QueueSave },
        Msg::ToggleCompleted(id) => if id < len {
            Update { render: true, effect: Effect::QueueSave }
        } else {
            Update { render: false, effect: Effect::Nothing }
        },
        Msg::UpdateContent(id, _) => if id < len {
            Update { render: true, effect: Effect::QueueSave }
        } else {
            Update { render: false, effect: Effect::Nothing }
        },
        Msg::ToggleAllCompleted => Update { render: true, effect: Effect::Nothing },
        Msg::ClearCompleted => Update { render: true, effect: Effect::Nothing },
        Msg::ChangeFilter(_) => Update { render: true, effect: Effect::Nothing },
        Msg::Save => Update { render: false, effect: Effect::Store },
    }
}

/// The filter after `msg`.
pub open spec fn next_filter(filter: Filter, msg: Msg) -> Filter {
    match msg {
        Msg::ChangeFilter(f) => f,
        _ => filter,
    }
}

impl Model {
    /// A model over the list that storage yielded, or over an empty list
    /// when nothing could be read; the filter starts at `All`.
    pub fn create(saved: Option<Vec<TodoItem>>) -> (r: Self)
        ensures
            r.todolist@ == restored(
                match saved {
                    Some(v) => Some(v@),
                    None => None,
                },
            ),
            r.filter == Filter::All,
    {
        let todolist = match saved {
            Some(v) => v,
            None => Vec::new(),
        };
        Model { todolist, filter: Filter::All }
    }

    /// Number of items that are not completed.
    pub fn active_count(&self) -> (r: usize)
        ensures
            r == count_active(self.todolist@),
    {
        let mut n: usize = 0;
        let mut i: usize = 0;
        while i < self.todolist.len()
            invariant
                i <= self.todolist@.len(),
                n == count_active(self.todolist@.take(i as int)),
                n <= i,
            decreases self.todolist@.len() - i,
        {
            proof {
                assert(self.todolist@.take(i + 1).drop_last() =~= self.todolist@.take(i as int));
            }
            if !self.todolist[i].completed {
                n = n + 1;
            }
            i = i + 1;
        }
        proof {
            assert(self.todolist@.take(i as int) =~= self.todolist@);
        }
        n
    }

    /// Whether every item is completed; true of an empty list.
    pub fn all_completed(&self) -> (r: bool)
        ensures
            r == every_completed(self.todolist@),
    {
        let mut i: usize = 0;
        while i < self.todolist.len()
            invariant
                i <= self.todolist@.len(),
                forall|k: int| 0 <= k < i ==> #[trigger] self.todolist@[k].completed,
            decreases self.todolist@.len() - i,
        {
            if !self.todolist[i].completed {
                return false;
            }
            i = i + 1;
        }
        true
    }

    /// The items that the active filter shows, in list order, each with its
    /// index in the unfiltered list.
    pub fn shown_items(&self) -> (r: Vec<(usize, TodoItem)>)
        ensures
            r@ == shown(self.todolist@, self.filter),
    {
        let mut out: Vec<(usize, TodoItem)> = Vec::new();
        let mut i: usize = 0;
        while i < self.todolist.len()
            invariant
                i <= self.todolist@.len(),
                out@ == shown(self.todolist@.take(i as int), self.filter),
            decreases self.todolist@.len() - i,
        {
            proof {
                assert(self.todolist@.take(i + 1).drop_last() =~= self.todolist@.take(i as int));
            }
            let item = &self.todolist[i];
            let keep = match self.filter {
                Filter::All => true,
                Filter::Active => !item.completed,
                Filter::Completed => item.completed,
            };
            if keep {
                out.push((i, item.duplicate()));
            }
            i = i + 1;
        }
        proof {
            assert(self.todolist@.take(i as int) =~= self.todolist@);
        }
        out
    }

    /// A copy of the task list, as it is written to storage.
    pub fn saved_list(&self) -> (r: Vec<TodoItem>)
        ensures
            r@ == self.todolist@,
    {
        let mut out: Vec<TodoItem> = Vec::new();
        let mut i: usize = 0;
        while i < self.todolist.len()
            invariant
                i <= self.todolist@.len(),
                out@ == self.todolist@.take(i as int),
            decreases self.todolist@.len() - i,
        {
            out.push(self.todolist[i].duplicate());
            proof {
                assert(out@ =~= self.todolist@.take(i + 1));
            }
            i = i + 1;
        }
        proof {
            assert(self.todolist@.take(i as int) =~= self.todolist@);
        }
        out
    }
    /// Sets every item's completion flag to `flag`.
    fn set_all_completed(&mut self, flag: bool)
        ensures
            final(self).todolist@ == all_set_to(old(self).todolist@, flag),
            final(self).filter == old(self).filter,
    {
        let ghost before = self.todolist@;
        let mut i: usize = 0;
        while i < self.todolist.len()
            invariant
                i <= self.todolist@.len(),
                self.todolist@.len() == before.len(),
                self.filter == old(self).filter,
                before == old(self).todolist@,
                forall|k: int|
                    0 <= k < i ==> #[trigger] self.todolist@[k] == (TodoItem {
                        content: before[k].content,
                        completed: flag,
                    }),
                forall|k: int| i <= k < before.len() ==> #[trigger] self.todolist@[k] == before[k],
            decreases self.todolist@.len() - i,
        {
            let content = self.todolist[i].content.clone();
            self.todolist.set(i, TodoItem { content, completed: flag });
            i = i + 1;
        }
        proof {
            assert(self.todolist@ =~= all_set_to(before, flag));
        }
    }

    /// Keeps the items that are not completed, in their order.
    fn clear_completed(&mut self)
        ensures
            final(self).todolist@ == without_completed(old(self).todolist@),
            final(self).filter == old(self).filter,
    {
        let mut out: Vec<TodoItem> = Vec::new();
        let mut i: usize = 0;
        proof {
            reveal(Seq::filter);
            assert(self.todolist@.take(0) =~= Seq::<TodoItem>::empty());
        }
        while i < self.todolist.len()
            invariant
                i <= self.todolist@.len(),
                out@ == without_completed(self.todolist@.take(i as int)),
            decreases self.todolist@.len() - i,
        {
            proof {
                reveal(Seq::filter);
                let s1 = self.todolist@.take(i + 1);
                assert(s1.drop_last() =~= self.todolist@.take(i as int));
                assert(s1.last() == self.todolist@[i as int]);
                assert(without_completed(s1) == if !s1.last().completed {
                    without_completed(s1.drop_last()).push(s1.last())
                } else {
                    without_completed(s1.drop_last())
                });
            }
            if !self.todolist[i].completed {
                out.push(self.todolist[i].duplicate());
            }
            i = i + 1;
        }
        proof {
            assert(self.todolist@.take(i as int) =~= self.todolist@);
        }
        self.todolist = out;
    }

    /// Applies one intent.  The returned [`Update`] says whether to render
    /// again and what to do next: list edits by index, additions and
    /// removals queue a save; a save asks for the list to be stored.
    /// An index past the end makes toggling and editing do nothing.
    pub fn update(&mut self, msg: Msg) -> (r: Update)
        requires
            msg_allowed(old(self).todolist@, msg),
        ensures
            final(self).todolist@ == next_list(old(self).todolist@, msg),
            final(self).filter == next_filter(old(self).filter, msg),
            r == next_update(old(self).todolist@.len(), msg),
    {
        match msg {
            Msg::AddTodo(content) => {
                self.todolist.push(TodoItem::new(content));
                Update { render: true, effect: Effect::QueueSave }
            },
            Msg::Destroy(id) => {
                self.todolist.remove(id);
                Update { render: true, effect: Effect::QueueSave }
            },
            Msg::Save => Update { render: false, effect: Effect::Store },
            Msg::ToggleCompleted(id) => {
                if id < self.todolist.len() {
                    let content = self.todolist[id].content.clone();
                    let completed = !self.todolist[id].completed;
                    self.todolist.set(id, TodoItem { content, completed });
                    Update { render: true, effect: Effect::QueueSave }
                } else {
                    Update { render: false, effect: Effect::Nothing }
                }
            },
            Msg::UpdateContent(id, content) => {
                if id < self.todolist.len() {
                    let completed = self.todolist[id].completed;
                    self.todolist.set(id, TodoItem { content, completed });
                    Update { render: true, effect: Effect::QueueSave }
                } else {
                    Update { render: false, effect: Effect::Nothing }
                }
            },
            Msg::ToggleAllCompleted => {
                let checked = self.all_completed();
                self.set_all_completed(!checked);
                Update { render: true, effect: Effect::Nothing }
            },
            Msg::ClearCompleted => {
                self.clear_completed();
                Update { render: true, effect: Effect::Nothing }
            },
            Msg::ChangeFilter(filter) => {
                self.filter = filter;
                Update { render: true, effect: Effect::Nothing }
            },
        }
    }
}

} // verus!
