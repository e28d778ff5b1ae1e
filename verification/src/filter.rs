//! Event filter for subscribers.

use vstd::prelude::*;

use crate::ws::event::Event;

verus! {

/// Type implements this trait can check if a event is wanted.
///
/// A filter decides by the event alone: asked twice about the same event, it
/// answers the same. What is proved of the combinators below holds of a
/// filter written elsewhere only as far as it keeps to that.
pub trait Filter {
    /// The events that this filter lets pass. A filter that does not say
    /// which they are leaves it open.
    open spec fn accepts(&self, event: Seq<u8>) -> bool {
        arbitrary()
    }

    /// true if event is wanted, otherwise false.
    fn filter_event(&self, event: &Event) -> (wanted: bool)
        ensures
            wanted == self.accepts(event@),
    ;
}

impl<F: Filter + ?Sized> Filter for Box<F> {
    open spec fn accepts(&self, event: Seq<u8>) -> bool {
        (**self).accepts(event)
    }

    fn filter_event(&self, event: &Event) -> (wanted: bool) {
        (**self).filter_event(event)
    }
}

/// Negative wrapper of a filter.
#[derive(Debug, Copy, Clone)]
pub struct Not<F> {
    filter: F,
}

impl<F: Filter> Filter for Not<F> {
    closed spec fn accepts(&self, event: Seq<u8>) -> bool {
        !self.filter.accepts(event)
    }

    fn filter_event(&self, event: &Event) -> (wanted: bool) {
        !self.filter.filter_event(event)
    }
}

/// If and only if a and b both pass, this filter will pass.
#[derive(Debug, Copy, Clone)]
pub struct And<FA, FB> {
    a: FA,
    b: FB,
}

impl<FA: Filter, FB: Filter> Filter for And<FA, FB> {
    closed spec fn accepts(&self, event: Seq<u8>) -> bool {
        self.a.accepts(event) && self.b.accepts(event)
    }

    fn filter_event(&self, event: &Event) -> (wanted: bool) {
        self.a.filter_event(event) && self.b.filter_event(event)
    }
}

/// If a or b pass, this filter will pass.
#[derive(Debug, Copy, Clone)]
pub struct Or<FA, FB> {
    a: FA,
    b: FB,
}

impl<FA: Filter, FB: Filter> Filter for Or<FA, FB> {
    closed spec fn accepts(&self, event: Seq<u8>) -> bool {
        self.a.accepts(event) || self.b.accepts(event)
    }

    fn filter_event(&self, event: &Event) -> (wanted: bool) {
        self.a.filter_event(event) || self.b.filter_event(event)
    }
}

/// Filter combinator.
pub trait FilterExt: Filter + Sized {
    /// Invert a filter.
    fn not(self) -> (inverted: Not<Self>)
        ensures
            forall|event: Seq<u8>| #[trigger] inverted.accepts(event) == !self.accepts(event),
    {
        Not { filter: self }
    }

    /// Return a new filter that pass a event only if self and other both pass it.
    fn and<F: Filter>(self, other: F) -> (both: And<Self, F>)
        ensures
            forall|event: Seq<u8>| #[trigger]
                both.accepts(event) == (self.accepts(event) && other.accepts(event)),
    {
        And { a: self, b: other }
    }

    /// Return a new filter that pass a event if self or other pass it.
    fn or<F: Filter>(self, other: F) -> (either: Or<Self, F>)
        ensures
            forall|event: Seq<u8>| #[trigger]
                either.accepts(event) == (self.accepts(event) || other.accepts(event)),
    {
        Or { a: self, b: other }
    }
}

impl<T: Filter> FilterExt for T {
}

/// Filter that will pass all events.
#[derive(Debug, Copy, Clone)]
pub struct All;

impl Filter for All {
    open spec fn accepts(&self, event: Seq<u8>) -> bool {
        true
    }

    fn filter_event(&self, _event: &Event) -> (wanted: bool) {
        true
    }
}

/// Create a filter that pass all events.
pub fn all() -> (filter: All)
    ensures
        forall|event: Seq<u8>| #[trigger] filter.accepts(event),
{
    All
}

/// Filter that will reject all events.
#[derive(Debug, Copy, Clone)]
pub struct Nothing;

impl Filter for Nothing {
    open spec fn accepts(&self, event: Seq<u8>) -> bool {
        false
    }

    fn filter_event(&self, _event: &Event) -> (wanted: bool) {
        false
    }
}

/// Create a filter that will reject all events.
pub fn none() -> (filter: Nothing)
    ensures
        forall|event: Seq<u8>| !#[trigger] filter.accepts(event),
{
    Nothing
}

/// The places of the filters that let an event pass, in their order.
pub open spec fn accepting<F: Filter>(filters: Seq<F>, event: Seq<u8>) -> Seq<usize>
    decreases filters.len(),
{
    if filters.len() == 0 {
        Seq::empty()
    } else if filters.last().accepts(event) {
        accepting(filters.drop_last(), event).push((filters.len() - 1) as usize)
    } else {
        accepting(filters.drop_last(), event)
    }
}

/// Asks each filter in turn whether it wants the event, and lists the
/// places of those that do.
pub fn filter_all<F: Filter>(filters: &Vec<F>, event: &Event) -> (wanted: Vec<usize>)
    ensures
        wanted@ == accepting(filters@, event@),
{
    let mut wanted: Vec<usize> = Vec::new();
    let mut i: usize = 0;
    while i < filters.len()
        invariant
            i <= filters.len(),
            wanted@ == accepting(filters@.subrange(0, i as int), event@),
        decreases filters.len() - i,
    {
        let ghost seen = filters@.subrange(0, i + 1);
        assert(seen.drop_last() =~= filters@.subrange(0, i as int));
        assert(seen.last() == filters@[i as int]);
        if filters[i].filter_event(event) {
            wanted.push(i);
        }
        i = i + 1;
    }
    assert(filters@.subrange(0, i as int) =~= filters@);
    wanted
}

} // verus!
