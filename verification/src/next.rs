//! Next-name selection for pushes: draw a candidate name, consult the
//! emptiness oracle, and retry within a bounded budget.

use vstd::prelude::*;

pub mod u;

verus! {

use crate::evt::Event;
use crate::integer::u::is_hex_name;
use crate::item::Name;
use crate::list::{decides_all_names, NameFilter};
use crate::store::SlotStore;

/// A source of candidate slot names.
pub trait NameSource: Sized {
    /// Whether drawing always succeeds with a name of the alphabet.
    spec fn reliable(&self) -> bool;

    /// The one outcome every draw yields, for sources whose answer does
    /// not vary; `None` promises nothing of the draws.
    open spec fn fixed_draw(&self) -> Option<Result<Name, Event>> {
        None
    }

    /// Draws the next candidate name.  An error outcome is never
    /// `Success`.
    fn get_name(&mut self) -> (r: Result<Name, Event>)
        ensures
            final(self).reliable() == old(self).reliable(),
            final(self).fixed_draw() == old(self).fixed_draw(),
            old(self).reliable() ==> (r matches Ok(n) && is_hex_name(n@)),
            (match old(self).fixed_draw() {
                Some(Ok(n)) => r matches Ok(m) && m@ == n@,
                Some(Err(ev)) => r matches Err(e) && crate::evt::event_congruent(ev, e),
                None => true,
            }),
            r matches Err(e) ==> e != Event::Success,
    ;
}

/// A name source with a fixed outcome, for stubbing the draw out.
pub struct FixedNameSource {
    pub result: Result<Name, Event>,
}

impl NameSource for FixedNameSource {
    open spec fn reliable(&self) -> bool {
        false
    }

    open spec fn fixed_draw(&self) -> Option<Result<Name, Event>> {
        match self.result {
            Err(Event::Success) => None,
            _ => Some(self.result),
        }
    }

    fn get_name(&mut self) -> (r: Result<Name, Event>) {
        match &self.result {
            Ok(n) => Ok(n.clone()),
            Err(Event::Success) => Err(Event::BadRequest),
            Err(e) => Err(e.clone()),
        }
    }
}

/// Creates a name source that always yields the given outcome; a stored
/// `Success` is answered as `BadRequest`, an error outcome never being
/// `Success`.
pub fn name_source_fixed_new(result: Result<Name, Event>) -> (r: FixedNameSource)
    ensures
        r.result == result,
{
    FixedNameSource { result }
}

/// Draws names and hands out only those whose slot the oracle accepts.
pub struct GetNextChecked<G: NameSource, F: NameFilter> {
    pub src: G,
    pub is_empty: F,
}

impl<G: NameSource, F: NameFilter> GetNextChecked<G, F> {
    /// Whether the underlying name source is reliable.
    pub open spec fn src_reliable(&self) -> bool {
        self.src.reliable()
    }

    /// Draws one candidate: a name the oracle accepts is handed out, a
    /// refused name is reported `Used`, and failures propagate.
    pub fn next<S: SlotStore>(&mut self, store: &S) -> (r: Result<Name, Event>)
        ensures
            final(self).src_reliable() == old(self).src_reliable(),
            final(self).is_empty == old(self).is_empty,
            (store.reliable() || old(self).is_empty.store_independent()) && decides_all_names(
                old(self).is_empty,
                store.files(),
            ) ==> (r matches
                Ok(n) ==> old(self).is_empty.decision(store.files(), n@) == Some(true)),
            (store.reliable() || old(self).is_empty.store_independent()) && decides_all_names(
                old(self).is_empty,
                store.files(),
            ) && old(
                self,
            ).src_reliable() ==> (r matches Ok(n) || (r matches Err(e) && e matches Event::Used(_))),
            (store.reliable() || old(self).is_empty.store_independent()) && decides_all_names(
                old(self).is_empty,
                store.files(),
            ) && old(
                self,
            ).src_reliable() ==> (r matches Ok(n) ==> is_hex_name(n@)),
            (store.reliable() || old(self).is_empty.store_independent()) && decides_all_names(
                old(self).is_empty,
                store.files(),
            ) && old(
                self,
            ).src_reliable() ==> (r matches Err(e) ==> (e matches Event::Used(m) ==> old(
                self,
            ).is_empty.decision(store.files(), m@) == Some(false) && is_hex_name(m@))),
            old(self).src.fixed_draw() matches Some(outcome) ==> (outcome matches Err(ev) ==> (r
                matches Err(e) && crate::evt::event_congruent(ev, e))),
            (store.reliable() || old(self).is_empty.store_independent()) && decides_all_names(
                old(self).is_empty,
                store.files(),
            ) ==> (old(
                self,
            ).src.fixed_draw() matches Some(outcome) ==> (outcome matches Ok(n) ==> (if old(
                self,
            ).is_empty.decision(store.files(), n@) == Some(true) {
                r matches Ok(m) && m@ == n@
            } else {
                r matches Err(e) && e matches Event::Used(m) && m@ == n@
            }))),
            (store.reliable() || old(self).is_empty.store_independent()) ==> (old(
                self,
            ).src.fixed_draw() matches Some(outcome) ==> (outcome matches Ok(n) ==> (old(
                self,
            ).is_empty.decision(store.files(), n@) is None ==> (match old(
                self,
            ).is_empty.fixed_error() {
                Some(ev) => match ev {
                    Event::NoEntry(m0) => r matches Ok(m) && m@ == m0@,
                    _ => r matches Err(e) && crate::evt::event_congruent(ev, e),
                },
                None => true,
            })))),
            r matches Err(e) ==> e != Event::Success,
    {
        match self.src.get_name() {
            Ok(n) => {
                match self.is_empty.keep(store, &n) {
                    Ok(true) => Ok(n),
                    Ok(false) => {
                        proof {
                            if store.reliable() || self.is_empty.store_independent() {
                                assert(self.is_empty.decision(store.files(), n@) == Some(false));
                            }
                        }
                        Err(Event::Used(n))
                    },
                    Err(e) => {
                        proof {
                            if store.reliable() || self.is_empty.store_independent() {
                                assert(old(self).is_empty.decision(store.files(), n@) is None);
                            }
                        }
                        match e {
                            Event::NoEntry(m) => Ok(m),
                            other => Err(other),
                        }
                    },
                }
            },
            Err(e) => Err(e),
        }
    }
}

/// Creates checked name getter from a name source and an emptiness
/// oracle.
pub fn get_next_checked_new<G: NameSource, F: NameFilter>(
    get_next_unchecked: G,
    is_empty: F,
) -> (r: GetNextChecked<G, F>)
    ensures
        r.src == get_next_unchecked,
        r.is_empty == is_empty,
{
    GetNextChecked { src: get_next_unchecked, is_empty }
}

/// Attempts to produce a fresh name, one draw per call, until exhausted.
///
/// The three `always_*` functions describe sources whose behavior does
/// not vary between draws; a varying source leaves all three at their
/// defaults, promising nothing.
pub trait NameAttempts: Sized {
    /// Whether every draw answers `None`: the attempts are exhausted
    /// from the start.
    open spec fn always_exhausted(&self) -> bool {
        false
    }

    /// The name every draw yields as `Ok`, where there is one.
    open spec fn always_name(&self) -> Option<Seq<char>> {
        None
    }

    /// Whether every draw yields an error.
    open spec fn always_failing(&self) -> bool {
        false
    }

    /// Draws once; `None` means the attempts are exhausted.
    fn attempt(&mut self) -> (r: Option<Result<Name, Event>>)
        ensures
            final(self).always_exhausted() == old(self).always_exhausted(),
            final(self).always_name() == old(self).always_name(),
            final(self).always_failing() == old(self).always_failing(),
            old(self).always_exhausted() ==> r is None,
            (match old(self).always_name() {
                Some(v) => r matches Some(ok) && ok matches Ok(n) && n@ == v,
                None => true,
            }),
            old(self).always_failing() ==> (r matches Some(out) && out is Err),
    ;
}

/// An attempt source with a fixed outcome.
pub struct FixedAttempt {
    pub result: Option<Result<Name, Event>>,
}

impl NameAttempts for FixedAttempt {
    open spec fn always_exhausted(&self) -> bool {
        self.result is None
    }

    open spec fn always_name(&self) -> Option<Seq<char>> {
        match self.result {
            Some(Ok(n)) => Some(n@),
            _ => None,
        }
    }

    open spec fn always_failing(&self) -> bool {
        self.result matches Some(out) && out is Err
    }

    fn attempt(&mut self) -> (r: Option<Result<Name, Event>>) {
        match &self.result {
            None => None,
            Some(Ok(n)) => Some(Ok(n.clone())),
            Some(Err(e)) => Some(Err(e.clone())),
        }
    }
}

/// Creates an attempt source that always yields the given outcome.
pub fn name_attempts_fixed_new(result: Option<Result<Name, Event>>) -> (r: FixedAttempt)
    ensures
        r.result == result,
{
    FixedAttempt { result }
}

/// Draws candidates until one succeeds, within the given budget; an
/// exhausted budget means the ring is full.
///
/// The first `Ok` name drawn is handed out as `Empty`; failed draws are
/// skipped against the budget, and exhausted attempts end the search at
/// once.
pub fn get_next_simple_retry<N: NameAttempts>(get_next: &mut N, limit: usize) -> (e: Event)
    ensures
        (e matches Event::Empty(_)) || e == Event::TooManyItemsAlready,
        old(get_next).always_exhausted() ==> e == Event::TooManyItemsAlready,
        (match old(get_next).always_name() {
            Some(v) => limit > 0 ==> (e matches Event::Empty(n) && n@ == v),
            None => true,
        }),
        old(get_next).always_failing() ==> e == Event::TooManyItemsAlready,
    {
    let mut i: usize = 0;
    while i < limit
        invariant
            i <= limit,
            get_next.always_exhausted() == old(get_next).always_exhausted(),
            get_next.always_name() == old(get_next).always_name(),
            get_next.always_failing() == old(get_next).always_failing(),
            old(get_next).always_name() matches Some(_) ==> i == 0,
        decreases limit - i,
    {
        match get_next.attempt() {
            None => {
                return Event::TooManyItemsAlready;
            },
            Some(Ok(n)) => {
                return Event::Empty(n);
            },
            Some(Err(_)) => {},
        }
        i = i + 1;
    }
    Event::TooManyItemsAlready
}

} // verus!
