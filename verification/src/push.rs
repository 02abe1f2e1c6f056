//! The pusher: picks a fresh slot name and writes the item through the
//! checked writer, so that no push overwrites an occupied slot.
//!
//! Single-attempt handlers report a collision as `Again`; the retrying
//! pusher probes randomly within a budget of 256 draws and reports an
//! exhausted budget as `TooManyItemsAlready` (the ring is full).

use vstd::prelude::*;

verus! {

use crate::checksum::{checksum_nop, Checksum, NopChecksum};
use crate::empty::slot_empty;
use crate::evt::Event;
use crate::integer::u::{hex_byte_of, hex_name_of, is_hex_name};
use crate::item::{Item, Name, NamedItem};
use crate::list::{empty_filter_new, EmptyFilter, NameFilter};
use crate::next::{GetNextChecked, NameSource};
use crate::next::u::{NextRandomU8, U8Source};
use crate::store::{agrees_except, SlotStore};
use crate::write::{stored_bytes, writer_checked_new_default_with_checksum, WriterChecked};

/// Every slot of the alphabet is occupied.
pub open spec fn ring_full(files: Map<Seq<char>, Seq<u8>>) -> bool {
    forall|b: u8| !slot_empty(files, #[trigger] hex_name_of(b))
}

/// A push turned exactly the one empty slot `nm` into an occupied slot
/// holding `stored`, leaving every other slot alone.
pub open spec fn push_wrote(
    pre: Map<Seq<char>, Seq<u8>>,
    post: Map<Seq<char>, Seq<u8>>,
    nm: Seq<char>,
    stored: Seq<u8>,
) -> bool {
    slot_empty(pre, nm) && post == pre.insert(nm, stored)
}

/// One push attempt: draw a name, write the item into its empty slot.
pub struct PushHandlerUnmanaged<G: NameSource, C: Checksum> {
    pub get_name: G,
    pub wtr: WriterChecked<C>,
}

impl<G: NameSource, C: Checksum> PushHandlerUnmanaged<G, C> {
    /// Pushes the item into the slot the source names; an occupied slot
    /// answers `Again`, and failures propagate.
    pub fn handle<S: SlotStore>(&mut self, store: &mut S, item: Item) -> (e: Event)
        ensures
            final(store).reliable() == old(store).reliable(),
            e == Event::Success ==> exists|nm: Seq<char>|
                #[trigger] push_wrote(
                    old(store).files(),
                    final(store).files(),
                    nm,
                    stored_bytes(item@, old(self).wtr.unchecked.checksum.model(item@)),
                ),
            e == Event::Again ==> final(store).files() == old(store).files(),
            old(self).get_name.reliable() && old(store).reliable() ==> (e == Event::Success || e
                == Event::Again),
            old(self).get_name.reliable() && old(store).reliable() && e == Event::Again
                ==> exists|b: u8| !slot_empty(old(store).files(), #[trigger] hex_name_of(b)),
            exists|nm: Seq<char>| agrees_except(old(store).files(), final(store).files(), nm),
    {
        let ghost files0 = store.files();
        match self.get_name.get_name() {
            Ok(name) => {
                let named = NamedItem::new(item, name);
                match self.wtr.write(store, named) {
                    Ok(n) => {
                        proof {
                            assert(agrees_except(files0, store.files(), n@));
                            assert(push_wrote(
                                old(store).files(),
                                store.files(),
                                n@,
                                stored_bytes(item@, old(self).wtr.unchecked.checksum.model(item@)),
                            ));
                        }
                        Event::Success
                    },
                    Err(e) => {
                        proof {
                            assert(agrees_except(files0, store.files(), named.spec_name()));
                            if old(self).get_name.reliable() && old(store).reliable() {
                                crate::integer::u::lemma_hex_name_complete(named.spec_name());
                                assert(!slot_empty(
                                    old(store).files(),
                                    hex_name_of(hex_byte_of(named.spec_name())),
                                ));
                            }
                        }
                        e
                    },
                }
            },
            Err(e) => {
                proof {
                    assert(agrees_except(files0, store.files(), Seq::<char>::empty()));
                }
                e
            },
        }
    }
}

/// Creates new unmanaged push handler from a name source and a checked
/// writer.
pub fn push_handler_new_unmanaged<G: NameSource, C: Checksum>(
    get_name: G,
    wtr: WriterChecked<C>,
) -> (r: PushHandlerUnmanaged<G, C>)
    ensures
        r.get_name == get_name,
        r.wtr == wtr,
{
    PushHandlerUnmanaged { get_name, wtr }
}

/// Creates new unmanaged push handler which appends the given checksum.
pub fn push_handler_new_unmanaged_default_with_checksum<G: NameSource, C: Checksum>(
    get_name: G,
    checksum: C,
) -> (r: PushHandlerUnmanaged<G, C>)
    ensures
        r.get_name == get_name,
        r.wtr.unchecked.checksum == checksum,
{
    PushHandlerUnmanaged { get_name, wtr: writer_checked_new_default_with_checksum(checksum) }
}

/// Creates new unmanaged push handler which appends no checksum.
pub fn push_handler_new_unmanaged_default<G: NameSource>(get_name: G) -> (r: PushHandlerUnmanaged<
    G,
    NopChecksum,
>)
    ensures
        r.get_name == get_name,
{
    push_handler_new_unmanaged_default_with_checksum(get_name, checksum_nop())
}

/// A name source that can be told which name was just consumed, for
/// sequential probing.
pub trait NameCursor: Sized {
    /// Whether drawing always yields a name of the alphabet and noting
    /// a consumed name of the alphabet always succeeds.  Defaults to
    /// promising nothing, for implementations outside the verifier's
    /// view.
    open spec fn reliable(&self) -> bool {
        false
    }

    /// The one outcome every draw yields, for cursors whose answer does
    /// not vary; `None` promises nothing of the draws.
    open spec fn fixed_draw(&self) -> Option<Result<Name, Event>> {
        None
    }

    /// Draws the next candidate name.  An error outcome is never
    /// `Success`.
    fn get_name(&mut self) -> (r: Result<Name, Event>)
        ensures
            final(self).reliable() == old(self).reliable(),
            final(self).fixed_draw() == old(self).fixed_draw(),
            old(self).reliable() ==> (r matches Ok(n) && is_hex_name(n@)),
            (match old(self).fixed_draw() {
                Some(Ok(n)) => r matches Ok(m) && m@ == n@,
                Some(Err(ev)) => r matches Err(e) && crate::evt::event_congruent(ev, e),
                None => true,
            }),
            r matches Err(e) ==> e != Event::Success,
    ;

    /// Notes the name a successful write consumed.  An error outcome is
    /// never `Success`.
    fn set_next(&mut self, prev: Name) -> (r: Result<(), Event>)
        ensures
            final(self).reliable() == old(self).reliable(),
            final(self).fixed_draw() == old(self).fixed_draw(),
            old(self).reliable() && is_hex_name(prev@) ==> r is Ok,
            r matches Err(e) ==> e != Event::Success,
    ;
}

/// A cursor that steps through the alphabet cyclically.
pub struct CyclicNameCursor {
    pub next: u8,
}

impl NameCursor for CyclicNameCursor {
    open spec fn reliable(&self) -> bool {
        true
    }

    fn get_name(&mut self) -> (r: Result<Name, Event>) {
        let n = crate::integer::u::u2n3_hex(self.next);
        proof {
            crate::integer::u::lemma_hex_name_roundtrip(self.next);
        }
        Ok(n)
    }

    fn set_next(&mut self, prev: Name) -> (r: Result<(), Event>) {
        match crate::integer::u::n2u3_hex(&prev) {
            Ok(b) => {
                self.next = crate::next::u::get_next_u8(b);
                Ok(())
            },
            Err(e) => Err(e),
        }
    }
}

/// A cursor with a fixed outcome that ignores consumed names; a stored
/// `Success` error is answered as `BadRequest`, an error outcome never
/// being `Success`.
pub struct FixedNameCursor {
    pub result: Result<Name, Event>,
}

impl NameCursor for FixedNameCursor {
    open spec fn fixed_draw(&self) -> Option<Result<Name, Event>> {
        match self.result {
            Err(Event::Success) => None,
            _ => Some(self.result),
        }
    }

    fn get_name(&mut self) -> (r: Result<Name, Event>) {
        match &self.result {
            Ok(n) => Ok(n.clone()),
            Err(Event::Success) => Err(Event::BadRequest),
            Err(e) => Err(e.clone()),
        }
    }

    fn set_next(&mut self, prev: Name) -> (r: Result<(), Event>) {
        Ok(())
    }
}

/// A managed pusher: draws from a cursor, writes, and hands the consumed
/// name back to the cursor.
pub struct PushManaged<G: NameCursor, C: Checksum> {
    pub cursor: G,
    pub wtr: WriterChecked<C>,
}

impl<G: NameCursor, C: Checksum> PushManaged<G, C> {
    /// Pushes the item into the slot the cursor names, then advances the
    /// cursor past the consumed name.
    pub fn push<S: SlotStore>(&mut self, store: &mut S, item: Item) -> (r: Result<(), Event>)
        ensures
            final(store).reliable() == old(store).reliable(),
            final(self).wtr == old(self).wtr,
            r is Ok ==> exists|nm: Seq<char>|
                #[trigger] push_wrote(
                    old(store).files(),
                    final(store).files(),
                    nm,
                    stored_bytes(item@, old(self).wtr.unchecked.checksum.model(item@)),
                ),
            (match old(self).cursor.fixed_draw() {
                Some(Err(ev)) => (r matches Err(e) && crate::evt::event_congruent(ev, e))
                    && final(store).files() == old(store).files(),
                _ => true,
            }),
            old(self).cursor.reliable() && old(store).reliable() ==> (r is Ok || r == Err::<
                (),
                Event,
            >(Event::Again)),
            old(self).cursor.reliable() && old(store).reliable() && r == Err::<(), Event>(
                Event::Again,
            ) ==> final(store).files() == old(store).files() && exists|b: u8|
                !slot_empty(old(store).files(), #[trigger] hex_name_of(b)),
            exists|nm: Seq<char>| agrees_except(old(store).files(), final(store).files(), nm),
    {
        let ghost files0 = store.files();
        match self.cursor.get_name() {
            Ok(name) => {
                let named = NamedItem::new(item, name);
                match self.wtr.write(store, named) {
                    Ok(prev) => {
                        proof {
                            assert(agrees_except(files0, store.files(), prev@));
                            assert(push_wrote(
                                old(store).files(),
                                store.files(),
                                prev@,
                                stored_bytes(item@, old(self).wtr.unchecked.checksum.model(item@)),
                            ));
                        }
                        match self.cursor.set_next(prev) {
                            Ok(_) => Ok(()),
                            Err(e) => Err(e),
                        }
                    },
                    Err(e) => {
                        proof {
                            assert(agrees_except(files0, store.files(), named.spec_name()));
                            if old(self).cursor.reliable() && old(store).reliable() {
                                crate::integer::u::lemma_hex_name_complete(named.spec_name());
                                assert(!slot_empty(
                                    old(store).files(),
                                    hex_name_of(hex_byte_of(named.spec_name())),
                                ));
                            }
                        }
                        Err(e)
                    },
                }
            },
            Err(e) => {
                proof {
                    assert(agrees_except(files0, store.files(), Seq::<char>::empty()));
                }
                Err(e)
            },
        }
    }
}

/// Creates new managed pusher from a cursor and a checked writer.
pub fn push_new<G: NameCursor, C: Checksum>(get_name: G, wtr: WriterChecked<C>) -> (r: PushManaged<
    G,
    C,
>)
    ensures
        r.cursor == get_name,
        r.wtr == wtr,
{
    PushManaged { cursor: get_name, wtr }
}

/// The retrying pusher: probes randomly drawn slots within a budget of
/// `limit` draws and writes into the first empty one.
pub struct PushRetry<E: U8Source, C: Checksum> {
    pub next: GetNextChecked<NextRandomU8<E>, EmptyFilter>,
    pub wtr: WriterChecked<C>,
    pub limit: usize,
}

/// What one push through the retrying pusher promises: a success wrote
/// exactly one previously empty slot, a full ring on reliable parts
/// answers `TooManyItemsAlready`, and at most one slot is ever touched.
pub open spec fn push_retry_post<E: U8Source, C: Checksum>(
    pre: PushRetry<E, C>,
    pre_files: Map<Seq<char>, Seq<u8>>,
    post_files: Map<Seq<char>, Seq<u8>>,
    store_reliable: bool,
    item: Seq<u8>,
    e: Event,
) -> bool {
    &&& (e == Event::Success ==> exists|nm: Seq<char>|
        #[trigger] push_wrote(
            pre_files,
            post_files,
            nm,
            stored_bytes(item, pre.wtr.unchecked.checksum.model(item)),
        ) && (store_reliable && pre.entropy_reliable() ==> is_hex_name(nm)))
    &&& (e == Event::TooManyItemsAlready ==> post_files == pre_files)
    &&& (e == Event::Again ==> post_files == pre_files)
    &&& (store_reliable && pre.entropy_reliable() && ring_full(pre_files) ==> e
        == Event::TooManyItemsAlready)
    &&& (store_reliable && pre.entropy_reliable() ==> (e == Event::Success || e
        == Event::TooManyItemsAlready))
    &&& (store_reliable && pre.entropy_reliable() && pre.limit > 0 && e
        == Event::TooManyItemsAlready ==> exists|b: u8|
        !slot_empty(pre_files, #[trigger] hex_name_of(b)))
    &&& (exists|nm: Seq<char>| agrees_except(pre_files, post_files, nm))
}

/// A push on a wholly empty ring, over a reliable store and entropy
/// source, succeeds: the budget cannot be exhausted when every probe
/// lands on an empty slot.
///
/// Law: together with the round-trip and listing laws this carries the
/// fresh-ring scenario — push, then list exactly one name, then get the
/// pushed bytes back.
pub proof fn lemma_push_succeeds_on_empty_ring<E: U8Source, C: Checksum>(
    pre: PushRetry<E, C>,
    pre_files: Map<Seq<char>, Seq<u8>>,
    post_files: Map<Seq<char>, Seq<u8>>,
    item: Seq<u8>,
    e: Event,
)
    requires
        push_retry_post(pre, pre_files, post_files, true, item, e),
        pre.entropy_reliable(),
        pre.limit > 0,
        forall|b: u8| slot_empty(pre_files, #[trigger] hex_name_of(b)),
    ensures
        e == Event::Success,
{
}

impl<E: U8Source, C: Checksum> PushRetry<E, C> {
    /// Whether the entropy source never fails.
    pub open spec fn entropy_reliable(&self) -> bool {
        self.next.src.reliable()
    }

    /// Pushes the item into a randomly probed empty slot.
    ///
    /// A full ring — every probe refused — answers
    /// `TooManyItemsAlready`; entropy or storage failures propagate.
    pub fn handle<S: SlotStore>(&mut self, store: &mut S, item: Item) -> (e: Event)
        ensures
            final(store).reliable() == old(store).reliable(),
            final(self).entropy_reliable() == old(self).entropy_reliable(),
            final(self).wtr == old(self).wtr,
            final(self).next.is_empty == old(self).next.is_empty,
            final(self).limit == old(self).limit,
            push_retry_post(
                *old(self),
                old(store).files(),
                final(store).files(),
                old(store).reliable(),
                item@,
                e,
            ),
    {
        let mut found: Option<crate::item::Name> = None;
        let mut i: usize = 0;
        let limit = self.limit;
        while i < limit && found.is_none()
            invariant
                i <= limit,
                *store == *old(store),
                self.wtr == old(self).wtr,
                self.next.is_empty == old(self).next.is_empty,
                self.limit == old(self).limit,
                self.entropy_reliable() == old(self).entropy_reliable(),
                match found {
                    Some(n) => (old(store).reliable() ==> slot_empty(old(store).files(), n@)) && (
                    old(store).reliable() && old(self).entropy_reliable() ==> is_hex_name(n@)),
                    None => true,
                },
                old(store).reliable() && old(self).entropy_reliable() && i > 0 && found is None
                    ==> exists|b: u8| !slot_empty(old(store).files(), #[trigger] hex_name_of(b)),
            decreases limit - i,
        {
            proof {
                assert(crate::list::decides_all_names(self.next.is_empty, store.files())) by {
                    assert forall|k: Seq<char>|
                        (#[trigger] self.next.is_empty.decision(store.files(), k)) is Some by {}
                }
            }
            match self.next.next(store) {
                Ok(n) => {
                    found = Some(n);
                    i = i + 1;
                },
                Err(e) => {
                    match e {
                        Event::Used(m) => {
                            proof {
                                if old(store).reliable() && old(self).entropy_reliable() {
                                    crate::integer::u::lemma_hex_name_complete(m@);
                                    assert(!slot_empty(
                                        old(store).files(),
                                        hex_name_of(hex_byte_of(m@)),
                                    ));
                                }
                            }
                            i = i + 1;
                        },
                        other => {
                            proof {
                                assert(agrees_except(
                                    old(store).files(),
                                    store.files(),
                                    Seq::<char>::empty(),
                                ));
                            }
                            return other;
                        },
                    }
                },
            }
        }
        match found {
            None => {
                proof {
                    assert(agrees_except(old(store).files(), store.files(), Seq::<char>::empty()));
                }
                Event::TooManyItemsAlready
            },
            Some(n) => {
                proof {
                    if old(store).reliable() && old(self).entropy_reliable() && ring_full(
                        old(store).files(),
                    ) {
                        crate::integer::u::lemma_hex_name_complete(n@);
                        assert(!slot_empty(old(store).files(), hex_name_of(hex_byte_of(n@))));
                        assert(false);
                    }
                }
                let named = NamedItem::new(item, n);
                match self.wtr.write(store, named) {
                    Ok(m) => {
                        proof {
                            assert(agrees_except(old(store).files(), store.files(), m@));
                            assert(push_wrote(
                                old(store).files(),
                                store.files(),
                                m@,
                                stored_bytes(item@, old(self).wtr.unchecked.checksum.model(item@)),
                            ) && (old(store).reliable() && old(self).entropy_reliable()
                                ==> is_hex_name(m@)));
                        }
                        Event::Success
                    },
                    Err(e) => {
                        proof {
                            assert(agrees_except(old(store).files(), store.files(), named.spec_name()));
                        }
                        e
                    },
                }
            },
        }
    }
}

/// Creates the retrying pusher with the canonical budget of 256 draws.
pub fn push_retry_new<E: U8Source, C: Checksum>(entropy: E, checksum: C) -> (r: PushRetry<E, C>)
    ensures
        r.wtr.unchecked.checksum == checksum,
        r.next.src.src == entropy,
        r.limit == 256,
{
    PushRetry {
        next: GetNextChecked {
            src: crate::next::u::next_random_u8_new(entropy),
            is_empty: empty_filter_new(),
        },
        wtr: writer_checked_new_default_with_checksum(checksum),
        limit: 256,
    }
}

} // verus!
