//! The deleter: empties a slot, by removing its file or by truncating it
//! to zero length.
//!
//! Both strategies leave the slot empty and both succeed when the file
//! was already absent; the choice is made at construction time.

use vstd::prelude::*;

verus! {

use crate::empty::slot_empty;
use crate::evt::Event;
use crate::item::Name;
use crate::store::{agrees_except, SlotStore};

/// How a slot is emptied.
#[derive(Debug, Clone, Copy, PartialEq, Eq, Structural)]
pub enum DelStrategy {
    /// Remove the slot's file.
    Unlink,
    /// Truncate the slot's file to zero length, keeping the entry.
    Truncate,
}

/// The files after a successful delete of the named slot.
pub open spec fn del_effect(
    files: Map<Seq<char>, Seq<u8>>,
    n: Seq<char>,
    strategy: DelStrategy,
) -> Map<Seq<char>, Seq<u8>> {
    match strategy {
        DelStrategy::Unlink => files.remove(n),
        DelStrategy::Truncate => files.insert(n, Seq::<u8>::empty()),
    }
}

/// Empties named slots by the configured strategy.
pub struct DelHandler {
    pub strategy: DelStrategy,
}

impl DelHandler {
    /// Empties the named slot; a slot that was already empty, or whose
    /// file was absent, is a success as well.
    pub fn handle<S: SlotStore>(&self, store: &mut S, n: Name) -> (e: Event)
        ensures
            final(store).reliable() == old(store).reliable(),
            e == Event::Success ==> final(store).files() == del_effect(
                old(store).files(),
                n@,
                self.strategy,
            ) && slot_empty(final(store).files(), n@),
            e != Event::Success ==> (e matches Event::UnexpectedError(_)) && agrees_except(
                old(store).files(),
                final(store).files(),
                n@,
            ),
            old(store).reliable() ==> e == Event::Success,
    {
        let r = match self.strategy {
            DelStrategy::Unlink => store.unlink(&n),
            DelStrategy::Truncate => store.truncate(&n),
        };
        match r {
            Ok(_) => Event::Success,
            Err(err) => Event::UnexpectedError(err.text),
        }
    }
}

/// Creates new delete handler with the given strategy.
pub fn del_handler_new(strategy: DelStrategy) -> (r: DelHandler)
    ensures
        r.strategy == strategy,
{
    DelHandler { strategy }
}

/// Creates new delete handler with the default strategy: removing the
/// slot's file.
pub fn del_handler_new_default() -> (r: DelHandler)
    ensures
        r.strategy == DelStrategy::Unlink,
{
    DelHandler { strategy: DelStrategy::Unlink }
}

} // verus!
