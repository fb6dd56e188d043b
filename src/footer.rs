use vstd::prelude::*;

use crate::model::Filter;

verus! {

/// The decimal digit for `d`, for `d` below ten.
pub open spec fn digit(d: nat) -> char {
    seq!['0', '1', '2', '3', '4', '5', '6', '7', '8', '9'][d as int]
}

/// The decimal notation of `n`, without sign or leading zeros.
pub open spec fn decimal(n: nat) -> Seq<char>
    decreases n,
{
    if n < 10 {
        seq![digit(n)]
    } else {
        decimal(n / 10).push(digit(n % 10))
    }
}

/// Relies on `ToString` for `usize` (its `Display`): the number in decimal,
/// with no sign and no leading zeros.
#[verifier::external_body]
fn usize_to_decimal(n: usize) -> (r: String)
    ensures
        r@ == decimal(n as nat),
{
    n.to_string()
}

/// What the footer takes from its owner.
#[derive(Clone, Copy, Debug, PartialEq, Eq, Structural)]
pub struct Props {
    /// Number of items not yet completed.
    pub cnt_active: usize,
}

/// One of the three filter links of the footer.
#[derive(Clone, Copy, Debug)]
pub struct FilterLink {
    /// The filter that clicking the link selects.
    pub filter: Filter,
    pub href: &'static str,
    pub label: &'static str,
    /// Whether the link carries the "selected" marker.  Every link carries
    /// it, whatever filter is active.
    pub selected: bool,
}

/// The filter, target and label of the link at `i`.
pub open spec fn link_at(i: int) -> (Filter, Seq<char>, Seq<char>) {
    if i == 0 {
        (Filter::All, "#/"@, "All"@)
    } else if i == 1 {
        (Filter::Active, "#/active"@, "Active"@)
    } else {
        (Filter::Completed, "#/completed"@, "completed"@)
    }
}

/// Counter, filter links and clear action below the list.
pub struct FooterComponent {
    pub props: Props,
}

impl FooterComponent {
    pub fn create(props: Props) -> (r: Self)
        ensures
            r.props == props,
    {
        FooterComponent { props }
    }

    /// Takes new properties; `true` (re-render) exactly when they differ.
    pub fn change(&mut self, props: Props) -> (r: bool)
        ensures
            r == (old(self).props != props),
            final(self).props == props,
    {
        if self.props != props {
            self.props = props;
            true
        } else {
            false
        }
    }

    /// The counter text, "<n> items left".
    pub fn count_text(&self) -> (r: String)
        ensures
            r@ == decimal(self.props.cnt_active as nat) + " items left"@,
    {
        let n = usize_to_decimal(self.props.cnt_active);
        n.concat(" items left")
    }

    /// The filter links, in the order All, Active, Completed.
    pub fn filter_links(&self) -> (r: Vec<FilterLink>)
        ensures
            r@.len() == 3,
            forall|i: int|
                0 <= i < 3 ==> {
                    let l = #[trigger] r@[i];
                    &&& (l.filter, l.href@, l.label@) == link_at(i)
                    &&& l.selected
                },
    {
        let links = vec![
            FilterLink { filter: Filter::All, href: "#/", label: "All", selected: true },
            FilterLink { filter: Filter::Active, href: "#/active", label: "Active", selected: true },
            FilterLink {
                filter: Filter::Completed,
                href: "#/completed",
                label: "completed",
                selected: true,
            },
        ];
        links
    }
}

} // verus!
