use vstd::prelude::*;

use crate::cmp::str_equal;

verus! {

/// One entry of the task list.
#[derive(Clone, Debug)]
pub struct TodoItem {
    pub content: String,
    pub completed: bool,
}

impl TodoItem {
    /// A new, not yet completed item holding `content`.
    pub fn new(content: String) -> (r: Self)
        ensures
            r.content == content,
            !r.completed,
    {
        TodoItem { content, completed: false }
    }

    /// A copy of this item with the same content and flag.
    pub fn duplicate(&self) -> (r: Self)
        ensures
            r == *self,
    {
        TodoItem { content: self.content.clone(), completed: self.completed }
    }
}

impl PartialEq for TodoItem {
    fn eq(&self, o: &TodoItem) -> (r: bool) {
        self.content == o.content && self.completed == o.completed
    }
}

impl vstd::std_specs::cmp::PartialEqSpecImpl for TodoItem {
    open spec fn obeys_eq_spec() -> bool {
        true
    }

    open spec fn eq_spec(&self, o: &TodoItem) -> bool {
        self.content@ == o.content@ && self.completed == o.completed
    }
}

/// What a list entry hands to the list entry's owner.
#[derive(Clone, Debug)]
pub struct Props {
    /// Position of the item in the unfiltered list.
    pub id: usize,
    pub todoitem: TodoItem,
}

impl PartialEq for Props {
    fn eq(&self, o: &Props) -> (r: bool) {
        self.id == o.id && self.todoitem == o.todoitem
    }
}

impl vstd::std_specs::cmp::PartialEqSpecImpl for Props {
    open spec fn obeys_eq_spec() -> bool {
        true
    }

    open spec fn eq_spec(&self, o: &Props) -> bool {
        same_props(*self, *o)
    }
}

/// Two property sets are the same when index, content and flag agree.
pub open spec fn same_props(a: Props, b: Props) -> bool {
    a.id == b.id && a.todoitem.content@ == b.todoitem.content@
        && a.todoitem.completed == b.todoitem.completed
}

/// Events a list entry reacts to.
pub enum Msg {
    /// The destroy control was clicked.
    Delete,
    /// The label was double-clicked: enter edit mode.
    Edit,
    /// The pointer moved over the edit field.
    Focus,
    /// The edit field lost focus, or Enter or Escape was pressed in it.
    /// Carries the edit field's current text, or `None` when the field
    /// could not be found.
    Submit(Option<String>),
}

/// What a list entry asks of its owner after handling a [`Msg`].
#[derive(Debug)]
pub enum Output {
    /// Nothing to do.
    Nothing,
    /// Move the keyboard focus to the edit field.
    FocusEditField,
    /// Remove the item at this index.
    Destroy(usize),
    /// Replace the content of the item at this index.
    Commit(usize, String),
}

/// Style markers of a list entry.
#[derive(Clone, Copy, Debug, PartialEq, Eq, Structural)]
pub enum ItemClass {
    Completed,
    Editing,
}

/// The markers of an entry: `Completed` for a completed item, then
/// `Editing` while the entry is in edit mode.
pub open spec fn item_classes(completed: bool, editing: bool) -> Seq<ItemClass> {
    let a = if completed { seq![ItemClass::Completed] } else { Seq::empty() };
    if editing { a.push(ItemClass::Editing) } else { a }
}

/// State of one rendered list entry.
pub struct TodoItemComponent {
    pub props: Props,
    pub is_editing: bool,
}

impl TodoItemComponent {
    /// A fresh entry, not in edit mode.
    pub fn create(props: Props) -> (r: Self)
        ensures
            r.props == props,
            !r.is_editing,
    {
        TodoItemComponent { props, is_editing: false }
    }

    /// Applies `msg` and returns what the owner is asked to do.  The entry
    /// is re-rendered after every message.
    pub fn update(&mut self, msg: Msg) -> (r: Output)
        ensures
            final(self).props == old(self).props,
            match msg {
                Msg::Delete => final(self).is_editing == old(self).is_editing
                    && r == Output::Destroy(old(self).props.id),
                Msg::Edit => final(self).is_editing && r == Output::FocusEditField,
                Msg::Focus => final(self).is_editing == old(self).is_editing
                    && r == Output::FocusEditField,
                Msg::Submit(Some(text)) => !final(self).is_editing
                    && r == Output::Commit(old(self).props.id, text),
                Msg::Submit(None) => final(self).is_editing == old(self).is_editing
                    && r == Output::Nothing,
            },
    {
        match msg {
            Msg::Delete => Output::Destroy(self.props.id),
            Msg::Edit => {
                self.is_editing = true;
                Output::FocusEditField
            },
            Msg::Focus => Output::FocusEditField,
            Msg::Submit(Some(text)) => {
                self.is_editing = false;
                Output::Commit(self.props.id, text)
            },
            Msg::Submit(None) => Output::Nothing,
        }
    }

    /// Takes new properties from the owner; `true` (re-render) exactly when
    /// they differ from the current ones.
    pub fn change(&mut self, props: Props) -> (r: bool)
        ensures
            r == !same_props(old(self).props, props),
            final(self).is_editing == old(self).is_editing,
            r ==> final(self).props == props,
            !r ==> final(self).props == old(self).props,
    {
        if self.props != props {
            self.props = props;
            true
        } else {
            false
        }
    }

    /// The style markers to apply to this entry.
    pub fn classes(&self) -> (r: Vec<ItemClass>)
        ensures
            r@ == item_classes(self.props.todoitem.completed, self.is_editing),
    {
        let mut classes: Vec<ItemClass> = Vec::new();
        if self.props.todoitem.completed {
            classes.push(ItemClass::Completed);
        }
        if self.is_editing {
            classes.push(ItemClass::Editing);
        }
        proof {
            assert(classes@ =~= item_classes(self.props.todoitem.completed, self.is_editing));
        }
        classes
    }
}

/// Whether a key released in the edit field commits the edit: Enter and
/// Escape both do, so there is no way to leave edit mode without saving.
pub fn commits_edit(key: &str) -> (r: bool)
    ensures
        r == (key@ == "Enter"@ || key@ == "Escape"@),
{
    str_equal(key, "Enter") || str_equal(key, "Escape")
}

} // verus!
