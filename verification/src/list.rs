//! The lister: enumerates candidate names and keeps those whose slot an
//! injectable filter accepts — canonically the occupied ones.
//!
//! A failing enumeration or filter fails the whole listing (fail-closed).

use vstd::prelude::*;

pub mod u;

verus! {

use crate::empty::{slot_empty, EmptyChecker, NonEmptyChecker};
use crate::evt::Event;
use crate::item::Name;
use crate::store::SlotStore;

/// A source of candidate names.
pub trait NameList: Sized {
    /// The names yielded, or `None` for an enumeration that fails.
    spec fn names_spec(&self) -> Option<Seq<Seq<char>>>;

    /// The one event every failure reports, for sources whose failures
    /// do not vary; `None` promises nothing of the failure.
    open spec fn fixed_error(&self) -> Option<Event> {
        None
    }

    /// Enumerates the candidate names.
    fn names(&self) -> (r: Result<Vec<Name>, Event>)
        ensures
            match r {
                Ok(v) => self.names_spec() matches Some(s) && v.deep_view() == s,
                Err(_) => self.names_spec() is None,
            },
            (match self.fixed_error() {
                Some(ev) => (r matches Err(e) ==> crate::evt::event_congruent(ev, e)),
                None => true,
            }),
    ;
}

/// Decides, per name, whether the lister keeps it.
pub trait NameFilter: Sized {
    /// What the filter decides for a name against the given files:
    /// keep or drop, or `None` where the decision itself fails.
    spec fn decision(&self, files: Map<Seq<char>, Seq<u8>>, n: Seq<char>) -> Option<bool>;

    /// Whether the decision ignores the store entirely.
    spec fn store_independent(&self) -> bool;

    /// The one event every failed decision reports, for filters whose
    /// failures do not vary; `None` promises nothing of the failure.
    open spec fn fixed_error(&self) -> Option<Event> {
        None
    }

    /// Decides for one name.  An error outcome is never `Success`.
    fn keep<S: SlotStore>(&self, store: &S, n: &Name) -> (r: Result<bool, Event>)
        ensures
            store.reliable() || self.store_independent() ==> (match r {
                Ok(b) => self.decision(store.files(), n@) == Some(b),
                Err(_) => self.decision(store.files(), n@) is None,
            }),
            (match self.fixed_error() {
                Some(ev) => (r matches Err(e) ==> crate::evt::event_congruent(ev, e)),
                None => true,
            }),
            r matches Err(e) ==> e != Event::Success,
    ;
}

/// Whether the filter decides every name against the given files.
pub open spec fn decides_all_names<F: NameFilter>(f: F, files: Map<Seq<char>, Seq<u8>>) -> bool {
    forall|k: Seq<char>| (#[trigger] f.decision(files, k)) is Some
}

/// The names of `l`, in order, whose decision is to keep them.
pub open spec fn kept_names<F: NameFilter>(
    f: F,
    files: Map<Seq<char>, Seq<u8>>,
    l: Seq<Seq<char>>,
) -> Seq<Seq<char>>
    decreases l.len(),
{
    if l.len() == 0 {
        Seq::empty()
    } else {
        let rest = kept_names(f, files, l.drop_last());
        if f.decision(files, l.last()) == Some(true) {
            rest.push(l.last())
        } else {
            rest
        }
    }
}

/// A kept name is one of the candidates, kept by decision.
pub proof fn lemma_kept_names_membership<F: NameFilter>(
    f: F,
    files: Map<Seq<char>, Seq<u8>>,
    l: Seq<Seq<char>>,
    k: Seq<char>,
)
    ensures
        kept_names(f, files, l).contains(k) <==> (l.contains(k) && f.decision(files, k) == Some(
            true,
        )),
    decreases l.len(),
{
    if l.len() == 0 {
    } else {
        lemma_kept_names_membership(f, files, l.drop_last(), k);
        assert(l.contains(k) <==> (l.drop_last().contains(k) || l.last() == k)) by {
            if l.contains(k) {
                let i = choose|i: int| 0 <= i < l.len() && l[i] == k;
                if i < l.len() - 1 {
                    assert(l.drop_last()[i] == k);
                }
            }
            if l.drop_last().contains(k) {
                let i = choose|i: int| 0 <= i < l.drop_last().len() && l.drop_last()[i] == k;
                assert(l[i] == k);
            }
        }
        let rest = kept_names(f, files, l.drop_last());
        if f.decision(files, l.last()) == Some(true) {
            assert forall|x: Seq<char>| rest.push(l.last()).contains(x) implies (rest.contains(x)
                || x == l.last()) by {
                let i = choose|i: int|
                    0 <= i < rest.push(l.last()).len() && rest.push(l.last())[i] == x;
                if i < rest.len() {
                    assert(rest[i] == x);
                }
            }
            assert(rest.push(l.last())[rest.len() as int] == l.last());
            assert(rest.push(l.last()).contains(l.last()));
            if rest.contains(k) {
                let i = choose|i: int| 0 <= i < rest.len() && rest[i] == k;
                assert(rest.push(l.last())[i] == k);
            }
        }
    }
}

/// Whether no name occurs twice.
pub open spec fn distinct_names(l: Seq<Seq<char>>) -> bool {
    forall|i: int, j: int| 0 <= i < j < l.len() ==> l[i] != l[j]
}

/// Filtering distinct candidates keeps them distinct.
pub proof fn lemma_kept_names_distinct<F: NameFilter>(
    f: F,
    files: Map<Seq<char>, Seq<u8>>,
    l: Seq<Seq<char>>,
)
    requires
        distinct_names(l),
    ensures
        distinct_names(kept_names(f, files, l)),
    decreases l.len(),
{
    if l.len() > 0 {
        assert(distinct_names(l.drop_last())) by {
            assert forall|i: int, j: int|
                0 <= i < j < l.drop_last().len() implies l.drop_last()[i] != l.drop_last()[j] by {
                assert(l[i] == l.drop_last()[i] && l[j] == l.drop_last()[j]);
            }
        }
        lemma_kept_names_distinct(f, files, l.drop_last());
        let rest = kept_names(f, files, l.drop_last());
        if f.decision(files, l.last()) == Some(true) {
            assert(!rest.contains(l.last())) by {
                lemma_kept_names_membership(f, files, l.drop_last(), l.last());
                if l.drop_last().contains(l.last()) {
                    let i = choose|i: int|
                        0 <= i < l.drop_last().len() && l.drop_last()[i] == l.last();
                    assert(l[i] == l[l.len() - 1]);
                }
            }
            assert forall|i: int, j: int|
                0 <= i < j < rest.push(l.last()).len() implies rest.push(l.last())[i] != rest.push(
                l.last(),
            )[j] by {
                if j < rest.len() {
                } else {
                    assert(rest.push(l.last())[j] == l.last());
                    assert(rest[i] == rest.push(l.last())[i]);
                    assert(rest.contains(rest[i])) by {
                        assert(0 <= i < rest.len() && rest[i] == rest[i]);
                    }
                }
            }
        }
    }
}

/// Keeps the candidates the filter accepts; the first failed decision
/// fails the whole listing.
pub fn names2checked<S: SlotStore, F: NameFilter>(
    store: &S,
    unchecked: Vec<Name>,
    check: &F,
) -> (r: Result<Vec<Name>, Event>)
    ensures
        store.reliable() || check.store_independent() ==> (match r {
            Ok(v) => decides_all_of(*check, store.files(), unchecked.deep_view()) && v.deep_view()
                == kept_names(*check, store.files(), unchecked.deep_view()),
            Err(_) => !decides_all_of(*check, store.files(), unchecked.deep_view()),
        }),
        (match check.fixed_error() {
            Some(ev) => (r matches Err(e) ==> crate::evt::event_congruent(ev, e)),
            None => true,
        }),
{
    let ghost l = unchecked.deep_view();
    let mut out: Vec<Name> = Vec::new();
    let mut i: usize = 0;
    let len = unchecked.len();
    proof {
        assert(l.take(0) =~= Seq::<Seq<char>>::empty());
    }
    while i < len
        invariant
            len == unchecked@.len(),
            l == unchecked.deep_view(),
            i <= len,
            store.reliable() || check.store_independent() ==> {
                &&& out.deep_view() == kept_names(*check, store.files(), l.take(i as int))
                &&& forall|j: int|
                    0 <= j < i ==> (#[trigger] check.decision(store.files(), l[j])) is Some
            },
        decreases len - i,
    {
        proof {
            assert(l[i as int] == unchecked@[i as int].deep_view());
            assert(l.take(i + 1).drop_last() =~= l.take(i as int));
            assert(l.take(i + 1).last() == l[i as int]);
        }
        match check.keep(store, &unchecked[i]) {
            Ok(true) => {
                let ghost prev = out.deep_view();
                out.push(unchecked[i].clone());
                proof {
                    assert(out.deep_view() =~= prev.push(l[i as int]));
                    if store.reliable() || check.store_independent() {
                        assert(out.deep_view() == kept_names(*check, store.files(), l.take(i + 1)));
                    }
                }
            },
            Ok(false) => {
                proof {
                    if store.reliable() || check.store_independent() {
                        assert(out.deep_view() == kept_names(*check, store.files(), l.take(i + 1)));
                    }
                }
            },
            Err(e) => {
                proof {
                    if store.reliable() || check.store_independent() {
                        assert(check.decision(store.files(), l[i as int]) is None);
                    }
                }
                return Err(e);
            },
        }
        i = i + 1;
    }
    proof {
        assert(l.take(len as int) =~= l);
    }
    Ok(out)
}

/// Whether every candidate's decision succeeds.
pub open spec fn decides_all_of<F: NameFilter>(
    f: F,
    files: Map<Seq<char>, Seq<u8>>,
    l: Seq<Seq<char>>,
) -> bool {
    forall|j: int| 0 <= j < l.len() ==> (#[trigger] f.decision(files, l[j])) is Some
}

/// Keeps occupied slots: the canonical lister filter.
pub struct NonEmptyFilter {
    pub inner: NonEmptyChecker,
}

impl NameFilter for NonEmptyFilter {
    open spec fn decision(&self, files: Map<Seq<char>, Seq<u8>>, n: Seq<char>) -> Option<bool> {
        Some(!slot_empty(files, n))
    }

    open spec fn store_independent(&self) -> bool {
        false
    }

    fn keep<S: SlotStore>(&self, store: &S, n: &Name) -> (r: Result<bool, Event>) {
        self.inner.check(store, n)
    }
}

/// Creates the filter that keeps occupied slots.
pub fn nonempty_filter_new() -> (r: NonEmptyFilter) {
    NonEmptyFilter { inner: NonEmptyChecker { inner: EmptyChecker {} } }
}

/// Keeps empty slots; used by the next-name generator.
pub struct EmptyFilter {
    pub inner: EmptyChecker,
}

impl NameFilter for EmptyFilter {
    open spec fn decision(&self, files: Map<Seq<char>, Seq<u8>>, n: Seq<char>) -> Option<bool> {
        Some(slot_empty(files, n))
    }

    open spec fn store_independent(&self) -> bool {
        false
    }

    fn keep<S: SlotStore>(&self, store: &S, n: &Name) -> (r: Result<bool, Event>) {
        self.inner.check(store, n)
    }
}

/// Creates the filter that keeps empty slots.
pub fn empty_filter_new() -> (r: EmptyFilter) {
    EmptyFilter { inner: EmptyChecker {} }
}

/// A filter with a fixed answer, for stubbing the decision out.
pub struct FixedFilter {
    pub result: Result<bool, Event>,
}

impl NameFilter for FixedFilter {
    open spec fn decision(&self, files: Map<Seq<char>, Seq<u8>>, n: Seq<char>) -> Option<bool> {
        match self.result {
            Ok(b) => Some(b),
            Err(_) => None,
        }
    }

    open spec fn store_independent(&self) -> bool {
        true
    }

    open spec fn fixed_error(&self) -> Option<Event> {
        match self.result {
            Err(Event::Success) => None,
            Err(ev) => Some(ev),
            Ok(_) => None,
        }
    }

    fn keep<S: SlotStore>(&self, store: &S, n: &Name) -> (r: Result<bool, Event>) {
        match &self.result {
            Ok(b) => Ok(*b),
            Err(Event::Success) => Err(Event::BadRequest),
            Err(e) => Err(e.clone()),
        }
    }
}

/// Creates a filter that always answers with the given result; a stored
/// `Success` is answered as `BadRequest`, an error outcome never being
/// `Success`.
pub fn fixed_filter_new(result: Result<bool, Event>) -> (r: FixedFilter)
    ensures
        r.result == result,
{
    FixedFilter { result }
}

/// Lists candidates and filters them.
pub struct ListFiltered<L: NameList, F: NameFilter> {
    pub list: L,
    pub filter: F,
}

impl<L: NameList, F: NameFilter> ListFiltered<L, F> {
    /// The filtered names, or the first failure.
    pub fn run<S: SlotStore>(&self, store: &S) -> (r: Result<Vec<Name>, Event>)
        ensures
            self.list.names_spec() is None ==> r is Err,
            store.reliable() || self.filter.store_independent() ==> (match r {
                Ok(v) => self.list.names_spec() matches Some(ns) && decides_all_of(
                    self.filter,
                    store.files(),
                    ns,
                ) && v.deep_view() == kept_names(self.filter, store.files(), ns),
                Err(_) => self.list.names_spec() is None || (self.list.names_spec() matches Some(
                    ns,
                ) && !decides_all_of(self.filter, store.files(), ns)),
            }),
            self.list.names_spec() is None ==> (match self.list.fixed_error() {
                Some(ev) => (r matches Err(e) ==> crate::evt::event_congruent(ev, e)),
                None => true,
            }),
            self.list.names_spec() matches Some(_) ==> (match self.filter.fixed_error() {
                Some(ev) => (r matches Err(e) ==> crate::evt::event_congruent(ev, e)),
                None => true,
            }),
    {
        match self.list.names() {
            Ok(unchecked) => names2checked(store, unchecked, &self.filter),
            Err(e) => Err(e),
        }
    }
}

/// Creates filtered list getter from a name source and a filter.
pub fn list_filtered_new<L: NameList, F: NameFilter>(list: L, filter: F) -> (r: ListFiltered<L, F>)
    ensures
        r.list == list,
        r.filter == filter,
{
    ListFiltered { list, filter }
}

/// Answers `List` requests.
pub struct ListHandler<L: NameList, F: NameFilter> {
    pub inner: ListFiltered<L, F>,
}

impl<L: NameList, F: NameFilter> ListHandler<L, F> {
    /// The filtered names as `NamesGot`, or the failure event unchanged.
    pub fn handle<S: SlotStore>(&self, store: &S) -> (e: Event)
        ensures
            (store.reliable() || self.inner.filter.store_independent())
                && (self.inner.list.names_spec() matches Some(ns) && decides_all_of(
                self.inner.filter,
                store.files(),
                ns,
            )) ==> (e matches Event::NamesGot(v) && v.deep_view() == kept_names(
                self.inner.filter,
                store.files(),
                self.inner.list.names_spec().unwrap(),
            )),
            self.inner.list.names_spec() is None ==> (self.inner.list.fixed_error() matches Some(
                ev,
            ) ==> crate::evt::event_congruent(ev, e)),
            (store.reliable() || self.inner.filter.store_independent())
                && (self.inner.list.names_spec() matches Some(ns) && !decides_all_of(
                self.inner.filter,
                store.files(),
                ns,
            )) ==> (self.inner.filter.fixed_error() matches Some(ev)
                ==> crate::evt::event_congruent(ev, e)),
    {
        match self.inner.run(store) {
            Ok(names) => Event::NamesGot(names),
            Err(e) => e,
        }
    }
}

/// Creates checked list handler from a name source and a filter.
pub fn list_request_handler_new<L: NameList, F: NameFilter>(list: L, filter: F) -> (r: ListHandler<
    L,
    F,
>)
    ensures
        r.inner.list == list,
        r.inner.filter == filter,
{
    ListHandler { inner: ListFiltered { list, filter } }
}

/// Creates checked list handler which keeps the occupied slots.
pub fn list_request_handler_new_default<L: NameList>(list: L) -> (r: ListHandler<
    L,
    NonEmptyFilter,
>)
    ensures
        r.inner.list == list,
{
    ListHandler { inner: ListFiltered { list, filter: nonempty_filter_new() } }
}

} // verus!
