use vstd::prelude::*;

use crate::cmp::str_equal;

verus! {

/// What the header takes from its owner: nothing but the channel for new
/// items, which here is the value that [`HeaderComponent::update`] returns.
#[derive(Clone, Copy, Debug, PartialEq, Eq, Structural)]
pub struct Props {}

/// Events the header reacts to.
pub enum Msg {
    /// The new-item field now holds this text.
    Input(String),
    /// Enter was released in the new-item field.
    Submit,
}

/// The new-item field and its buffer.
pub struct HeaderComponent {
    pub props: Props,
    pub input_value: String,
}

impl HeaderComponent {
    /// A header with an empty buffer.
    pub fn create(props: Props) -> (r: Self)
        ensures
            r.props == props,
            r.input_value@ == Seq::<char>::empty(),
    {
        HeaderComponent { props, input_value: String::new() }
    }

    /// Applies `msg`.  A submit hands back the buffer's text, whatever it
    /// is (an empty or blank text included), as the text of a new item, and
    /// empties the buffer.  The header is re-rendered after every message.
    pub fn update(&mut self, msg: Msg) -> (r: Option<String>)
        ensures
            final(self).props == old(self).props,
            match msg {
                Msg::Input(value) => final(self).input_value == value && r is None,
                Msg::Submit => r == Some(old(self).input_value)
                    && final(self).input_value@ == Seq::<char>::empty(),
            },
    {
        match msg {
            Msg::Input(value) => {
                self.input_value = value;
                None
            },
            Msg::Submit => {
                let text = self.input_value.clone();
                self.input_value = String::new();
                Some(text)
            },
        }
    }

    /// New properties never change what the header shows.
    pub fn change(&mut self, props: Props) -> (r: bool)
        ensures
            !r,
            final(self).props == old(self).props,
            final(self).input_value == old(self).input_value,
    {
        false
    }
}

/// Whether a key released in the new-item field submits it: only Enter.
pub fn submits(key: &str) -> (r: bool)
    ensures
        r == (key@ == "Enter"@),
{
    str_equal(key, "Enter")
}

} // verus!
