//! The emptiness oracle: classifies a slot as empty or occupied from the
//! store's metadata alone.
//!
//! A slot is empty when its file is absent or has length zero, and
//! occupied otherwise; a slot whose state cannot be determined surfaces
//! as an `UnexpectedError` event.

use vstd::prelude::*;

verus! {

use crate::evt::Event;
use crate::item::Name;
use crate::store::{kind_text_of, FsErrorKind, SlotStore};

/// A slot is empty when its file is absent or holds no bytes.
pub open spec fn slot_empty(files: Map<Seq<char>, Seq<u8>>, n: Seq<char>) -> bool {
    !files.contains_key(n) || files[n].len() == 0
}

/// A zero length means empty.
pub fn len2empty(l: u64) -> (r: bool)
    ensures
        r == (l == 0),
{
    0 == l
}

/// Classifies a failed stat: an absent file is an empty slot, any other
/// failure surfaces as an `UnexpectedError`.
pub fn kind2empty(k: FsErrorKind) -> (r: Result<bool, Event>)
    ensures
        k == FsErrorKind::NotFound ==> r == Ok::<bool, Event>(true),
        k != FsErrorKind::NotFound ==> (r matches Err(e) && e matches Event::UnexpectedError(s)
            && s@ == kind_text_of(k)),
{
    match k {
        FsErrorKind::NotFound => Ok(true),
        _ => Err(Event::UnexpectedError(k.text())),
    }
}

/// Decides emptiness of named slots against a store.
pub struct EmptyChecker {}

impl EmptyChecker {
    /// Whether the named slot is empty.
    pub fn check<S: SlotStore>(&self, store: &S, n: &Name) -> (r: Result<bool, Event>)
        ensures
            r matches Ok(b) ==> b == slot_empty(store.files(), n@),
            r matches Err(e) ==> e matches Event::UnexpectedError(_),
            store.reliable() ==> r is Ok,
    {
        match store.stat_len(n) {
            Ok(Some(l)) => Ok(len2empty(l)),
            Ok(None) => Ok(true),
            Err(e) => kind2empty(e.kind),
        }
    }
}

/// Creates new empty checker which classifies slots from the store's
/// file metadata.
pub fn name2empty_fs_new() -> (r: EmptyChecker) {
    EmptyChecker {}
}

/// Creates default empty checker.
pub fn empty_checker_new_default() -> (r: EmptyChecker) {
    EmptyChecker {}
}

/// Decides non-emptiness: the negation with the same error propagation.
pub struct NonEmptyChecker {
    pub inner: EmptyChecker,
}

impl NonEmptyChecker {
    /// Whether the named slot is occupied.
    pub fn check<S: SlotStore>(&self, store: &S, n: &Name) -> (r: Result<bool, Event>)
        ensures
            r matches Ok(b) ==> b == !slot_empty(store.files(), n@),
            r matches Err(e) ==> e matches Event::UnexpectedError(_),
            store.reliable() ==> r is Ok,
    {
        match self.inner.check(store, n) {
            Ok(empty) => Ok(!empty),
            Err(e) => Err(e),
        }
    }
}

/// Creates non-empty checker which negates the given empty checker.
pub fn nonempty_checker_new(empty_checker: EmptyChecker) -> (r: NonEmptyChecker) {
    NonEmptyChecker { inner: empty_checker }
}

} // verus!
