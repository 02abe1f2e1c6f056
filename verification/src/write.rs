//! The writer: serializes payload plus trailing checksum into a slot's
//! file.
//!
//! The unchecked writer overwrites whatever the slot holds; the checked
//! writer consults the emptiness oracle first and refuses an occupied
//! slot with `Again`, so that a push never overwrites an item.

use vstd::prelude::*;

verus! {

use crate::checksum::{checksum_nop, Checksum, NopChecksum};
use crate::empty::{slot_empty, EmptyChecker};
use crate::evt::Event;
use crate::item::{Name, NamedItem};
use crate::store::{agrees_except, SlotStore};

/// The bytes a slot's file holds for a payload: the payload followed by
/// its checksum.
pub open spec fn stored_bytes(data: Seq<u8>, chk: Seq<u8>) -> Seq<u8> {
    data + chk
}

/// Writes a named item into its slot, overwriting any previous contents.
pub struct WriterUnchecked<C: Checksum> {
    pub checksum: C,
}

impl<C: Checksum> WriterUnchecked<C> {
    /// Serializes payload then checksum and stores both under the name.
    pub fn write<S: SlotStore>(&self, store: &mut S, named: NamedItem) -> (r: Result<Name, Event>)
        ensures
            final(store).reliable() == old(store).reliable(),
            r matches Ok(n) ==> n@ == named.spec_name() && final(store).files() == old(
                store,
            ).files().insert(
                named.spec_name(),
                stored_bytes(named.spec_item(), self.checksum.model(named.spec_item())),
            ),
            r matches Err(e) ==> (e matches Event::UnexpectedError(_)) && agrees_except(
                old(store).files(),
                final(store).files(),
                named.spec_name(),
            ),
            old(store).reliable() ==> r is Ok,
    {
        let (name, item) = named.into_pair();
        let mut dat = item.into_vec();
        let mut chk = self.checksum.compute(&dat);
        proof {
            assert(dat@ + chk@ == stored_bytes(named.spec_item(), self.checksum.model(
                named.spec_item(),
            )));
        }
        dat.append(&mut chk);
        match store.write_all(&name, &dat) {
            Ok(_) => Ok(name),
            Err(e) => Err(Event::UnexpectedError(e.text)),
        }
    }
}

/// Creates new unchecked writer which appends the given checksum.
pub fn writer_unchecked_new_checksum<C: Checksum>(checksum: C) -> (r: WriterUnchecked<C>)
    ensures
        r.checksum == checksum,
{
    WriterUnchecked { checksum }
}

/// Creates new unchecked writer which appends no checksum.
pub fn writer_unchecked_new() -> (r: WriterUnchecked<NopChecksum>) {
    WriterUnchecked { checksum: checksum_nop() }
}

/// Creates new unchecked writer with the given checksum.
pub fn writer_unchecked_new_default_with_checksum<C: Checksum>(checksum: C) -> (r: WriterUnchecked<
    C,
>)
    ensures
        r.checksum == checksum,
{
    WriterUnchecked { checksum }
}

/// Creates new unchecked writer which appends no checksum.
pub fn writer_unchecked_new_default() -> (r: WriterUnchecked<NopChecksum>) {
    WriterUnchecked { checksum: checksum_nop() }
}

/// Writes a named item only into an empty slot.
pub struct WriterChecked<C: Checksum> {
    pub unchecked: WriterUnchecked<C>,
    pub is_empty: EmptyChecker,
}

impl<C: Checksum> WriterChecked<C> {
    /// Writes the item if its slot is empty; an occupied slot is refused
    /// with `Again` and left untouched.
    pub fn write<S: SlotStore>(&self, store: &mut S, named: NamedItem) -> (r: Result<Name, Event>)
        ensures
            final(store).reliable() == old(store).reliable(),
            r matches Ok(n) ==> n@ == named.spec_name() && slot_empty(
                old(store).files(),
                named.spec_name(),
            ) && final(store).files() == old(store).files().insert(
                named.spec_name(),
                stored_bytes(named.spec_item(), self.unchecked.checksum.model(named.spec_item())),
            ),
            r is Err ==> agrees_except(old(store).files(), final(store).files(), named.spec_name()),
            r == Err::<Name, Event>(Event::Again) ==> !slot_empty(
                old(store).files(),
                named.spec_name(),
            ) && final(store).files() == old(store).files(),
            r matches Err(e) ==> e == Event::Again || e matches Event::UnexpectedError(_),
            old(store).reliable() ==> (slot_empty(old(store).files(), named.spec_name()) ==> r
                is Ok) && (!slot_empty(old(store).files(), named.spec_name()) ==> r == Err::<
                Name,
                Event,
            >(Event::Again)),
    {
        match self.is_empty.check(store, named.as_name()) {
            Ok(true) => self.unchecked.write(store, named),
            Ok(false) => Err(Event::Again),
            Err(e) => Err(e),
        }
    }
}

/// Creates checked writer from an unchecked writer and an empty checker.
pub fn writer_checked_new<C: Checksum>(unchecked: WriterUnchecked<C>, is_empty: EmptyChecker) -> (r:
    WriterChecked<C>)
    ensures
        r.unchecked == unchecked,
{
    WriterChecked { unchecked, is_empty }
}

/// Creates new checked writer which appends the given checksum.
pub fn writer_checked_new_default_with_checksum<C: Checksum>(checksum: C) -> (r: WriterChecked<C>)
    ensures
        r.unchecked.checksum == checksum,
{
    WriterChecked { unchecked: WriterUnchecked { checksum }, is_empty: EmptyChecker {} }
}

/// Creates new checked writer which appends no checksum.
pub fn writer_checked_new_default() -> (r: WriterChecked<NopChecksum>) {
    writer_checked_new_default_with_checksum(checksum_nop())
}

} // verus!
