//! The closed set of outcome events produced by ring operations.

use vstd::prelude::*;

verus! {

use crate::item::{Item, Name, NamedItem};

/// Outcome of a ring operation.
///
/// Every request is answered with exactly one of these; lower-level
/// storage errors are mapped into them once, at the component boundary,
/// and never re-examined by higher layers.
#[derive(Debug, PartialEq, Eq)]
pub enum Event {
    Success,

    /// The named buffer is now empty.
    Empty(Name),

    /// The named buffer is used.
    Used(Name),

    /// The named buffer wrote(can be dirty; implementation may return before fdatasync).
    ItemWrote(Name),

    /// Named item got.
    ItemGot(NamedItem),

    /// Nothing to get or nothing to remove.
    NoEntry(Name),

    /// Unable to push an item(storage or buffer full).
    TooManyItemsAlready,

    /// Unexpected error(unable to check item existence, ...).
    NoPerm(String),

    /// Specified name already exists(retry with next name).
    Again,

    /// Invalid request
    BadRequest,

    /// Item names got.
    NamesGot(Vec<Name>),

    /// Item got, but its contents broken(power failure?).
    Broken(Name),

    /// Item got, but unreadable(bit rot?).
    InvalidItem(String),

    /// Broken items removed(vacuum result; the count of removals).
    BrokenItemsRemoved(u64),

    UnexpectedError(String),
}

/// Two events of the same variant whose payloads read the same.
pub open spec fn event_congruent(a: Event, b: Event) -> bool {
    match a {
        Event::Success => b == Event::Success,
        Event::Empty(n) => b matches Event::Empty(m) && m@ == n@,
        Event::Used(n) => b matches Event::Used(m) && m@ == n@,
        Event::ItemWrote(n) => b matches Event::ItemWrote(m) && m@ == n@,
        Event::ItemGot(ni) => b matches Event::ItemGot(nj) && nj.spec_name() == ni.spec_name()
            && nj.spec_item() == ni.spec_item(),
        Event::NoEntry(n) => b matches Event::NoEntry(m) && m@ == n@,
        Event::TooManyItemsAlready => b == Event::TooManyItemsAlready,
        Event::NoPerm(s) => b matches Event::NoPerm(t) && t@ == s@,
        Event::Again => b == Event::Again,
        Event::BadRequest => b == Event::BadRequest,
        Event::NamesGot(v) => b matches Event::NamesGot(w) && w.deep_view() == v.deep_view(),
        Event::Broken(n) => b matches Event::Broken(m) && m@ == n@,
        Event::InvalidItem(s) => b matches Event::InvalidItem(t) && t@ == s@,
        Event::BrokenItemsRemoved(c) => b == Event::BrokenItemsRemoved(c),
        Event::UnexpectedError(s) => b matches Event::UnexpectedError(t) && t@ == s@,
    }
}

/// Copies a vector of names, keeping what each name reads.
pub fn clone_names(v: &Vec<Name>) -> (r: Vec<Name>)
    ensures
        r.deep_view() == v.deep_view(),
{
    let mut out: Vec<Name> = Vec::new();
    let mut i: usize = 0;
    let len = v.len();
    while i < len
        invariant
            len == v@.len(),
            i <= len,
            out@.len() == i,
            forall|j: int| 0 <= j < i ==> (#[trigger] out@[j])@ == v@[j]@,
        decreases len - i,
    {
        out.push(v[i].clone());
        i = i + 1;
    }
    proof {
        assert forall|j: int| 0 <= j < len implies out.deep_view()[j] == v.deep_view()[j] by {
            assert(out@[j]@ == v@[j]@);
        }
        assert(out.deep_view() =~= v.deep_view());
    }
    out
}

impl Clone for Event {
    fn clone(&self) -> (r: Self)
        ensures
            event_congruent(*self, r),
    {
        match self {
            Event::Success => Event::Success,
            Event::Empty(n) => Event::Empty(n.clone()),
            Event::Used(n) => Event::Used(n.clone()),
            Event::ItemWrote(n) => Event::ItemWrote(n.clone()),
            Event::ItemGot(ni) => Event::ItemGot(ni.clone()),
            Event::NoEntry(n) => Event::NoEntry(n.clone()),
            Event::TooManyItemsAlready => Event::TooManyItemsAlready,
            Event::NoPerm(s) => Event::NoPerm(s.clone()),
            Event::Again => Event::Again,
            Event::BadRequest => Event::BadRequest,
            Event::NamesGot(v) => Event::NamesGot(clone_names(v)),
            Event::Broken(n) => Event::Broken(n.clone()),
            Event::InvalidItem(s) => Event::InvalidItem(s.clone()),
            Event::BrokenItemsRemoved(c) => Event::BrokenItemsRemoved(*c),
            Event::UnexpectedError(s) => Event::UnexpectedError(s.clone()),
        }
    }
}

impl Event {
    /// Extracts the listed names, as the list consumers do; any other
    /// event is rejected as `BadRequest`.
    pub fn try_into_names(self) -> (r: Result<Vec<Name>, Event>)
        ensures
            match self {
                Event::NamesGot(names) => r == Ok::<Vec<Name>, Event>(names),
                _ => r == Err::<Vec<Name>, Event>(Event::BadRequest),
            },
    {
        match self {
            Event::NamesGot(names) => Ok(names),
            _ => Err(Event::BadRequest),
        }
    }

    /// Extracts the got item; any other event is rejected as `BadRequest`.
    pub fn try_into_item(self) -> (r: Result<Item, Event>)
        ensures
            match self {
                Event::ItemGot(named) => r matches Ok(i) && i == named.item,
                _ => r == Err::<Item, Event>(Event::BadRequest),
            },
    {
        match self {
            Event::ItemGot(named) => Ok(named.into_item()),
            _ => Err(Event::BadRequest),
        }
    }

    /// Extracts the name an event speaks of; events that carry no name
    /// are rejected as `BadRequest`.
    pub fn try_into_name(self) -> (r: Result<Name, Event>)
        ensures
            match self {
                Event::Empty(name) => r == Ok::<Name, Event>(name),
                Event::Used(name) => r == Ok::<Name, Event>(name),
                Event::ItemWrote(name) => r == Ok::<Name, Event>(name),
                Event::NoEntry(name) => r == Ok::<Name, Event>(name),
                Event::Broken(name) => r == Ok::<Name, Event>(name),
                Event::ItemGot(named) => r matches Ok(n) && n == named.name,
                _ => r == Err::<Name, Event>(Event::BadRequest),
            },
    {
        match self {
            Event::Empty(name) => Ok(name),
            Event::Used(name) => Ok(name),
            Event::ItemWrote(name) => Ok(name),
            Event::NoEntry(name) => Ok(name),
            Event::Broken(name) => Ok(name),
            Event::ItemGot(named) => Ok(Name::from(named)),
            _ => Err(Event::BadRequest),
        }
    }
}

} // verus!
