//! A filesystem-backed ring buffer for small opaque binary items.
//!
//! Each item occupies one slot in a fixed ring of 256 slots, named by the
//! two-character lowercase hexadecimal renderings `00`..`ff` of a byte.
//! A slot is empty when its file is absent or has length zero, and
//! occupied otherwise.  Producers push arbitrary byte blobs into randomly
//! probed empty slots; consumers list occupied slots, fetch items by
//! name, and delete slots after processing.  The ring is lossy at its
//! capacity boundary: when every slot is occupied, a push fails rather
//! than overwriting.
//!
//! An optional trailing checksum is appended to every payload on write
//! and verified on read; slots whose contents fail the check read as
//! `Broken` and are reclaimed by the vacuum sweep.
//!
//! Storage is reached through the [`store::SlotStore`] trait, whose
//! in-memory implementation [`store::MemStore`] models a fault-free
//! directory; an embedder supplies a directory-backed implementation to
//! run the ring against a real filesystem.

pub mod checksum;
pub mod compose;
pub mod del;
pub mod empty;
pub mod err;
pub mod evt;
pub mod full;
pub mod integer;
pub mod item;
pub mod list;
pub mod next;
pub mod push;
pub mod read;
pub mod request;
pub mod store;
pub mod u;
pub mod write;

use vstd::prelude::*;

verus! {

use vstd::string::StringExecFns;

use crate::checksum::Checksum;
use crate::del::{del_effect, DelHandler, DelStrategy};
use crate::empty::slot_empty;
use crate::evt::Event;
use crate::integer::u::{is_hex_name, n2u3_hex};
use crate::item::{Item, Name};
use crate::list::{kept_names, ListHandler, NonEmptyFilter};
use crate::list::u::{all_hex_names, AllNamesU8};
use crate::next::u::U8Source;
use crate::push::{push_retry_post, push_wrote, PushRetry};
use crate::read::{payload_of, read_post, stored_check_of, ReadHandler};
use crate::request::Request;
use crate::store::{agrees_except, SlotStore};
use crate::write::stored_bytes;

/// The canonical lister filter, as a value the specifications share.
pub open spec fn the_nonempty_filter() -> NonEmptyFilter {
    NonEmptyFilter {
        inner: crate::empty::NonEmptyChecker { inner: crate::empty::EmptyChecker {  } },
    }
}

/// The occupied slots, in enumeration order of the alphabet.
pub open spec fn occupied_names(files: Map<Seq<char>, Seq<u8>>) -> Seq<Seq<char>> {
    kept_names(the_nonempty_filter(), files, all_hex_names())
}

/// The occupied slots are exactly the names of the alphabet whose slot
/// holds bytes.
pub proof fn lemma_occupied_names_membership(files: Map<Seq<char>, Seq<u8>>, n: Seq<char>)
    ensures
        occupied_names(files).contains(n) <==> (is_hex_name(n) && !slot_empty(files, n)),
{
    crate::list::lemma_kept_names_membership(the_nonempty_filter(), files, all_hex_names(), n);
    crate::list::u::lemma_all_hex_names_contains(n);
}

/// A slot whose occupied contents fail the integrity check.
pub open spec fn slot_broken<C: Checksum>(
    files: Map<Seq<char>, Seq<u8>>,
    n: Seq<char>,
    width: int,
    c: C,
) -> bool {
    &&& files.contains_key(n)
    &&& files[n].len() > 0
    &&& width != 0
    &&& (files[n].len() < width || c.model(payload_of(files[n], width)) != stored_check_of(
        files[n],
        width,
    ))
}

/// How many of the given slots are broken.
pub open spec fn count_broken<C: Checksum>(
    files: Map<Seq<char>, Seq<u8>>,
    names: Seq<Seq<char>>,
    width: int,
    c: C,
) -> int
    decreases names.len(),
{
    if names.len() == 0 {
        0
    } else {
        count_broken(files, names.drop_last(), width, c) + if slot_broken(
            files,
            names.last(),
            width,
            c,
        ) {
            1int
        } else {
            0int
        }
    }
}

/// The files after a vacuum: every broken slot of the alphabet emptied
/// by the delete strategy, everything else untouched.
pub open spec fn vacuumed<C: Checksum>(
    files: Map<Seq<char>, Seq<u8>>,
    width: int,
    c: C,
    strategy: DelStrategy,
) -> Map<Seq<char>, Seq<u8>> {
    match strategy {
        DelStrategy::Unlink => Map::new(
            |k: Seq<char>|
                files.contains_key(k) && !(is_hex_name(k) && slot_broken(files, k, width, c)),
            |k: Seq<char>| files[k],
        ),
        DelStrategy::Truncate => Map::new(
            |k: Seq<char>| files.contains_key(k),
            |k: Seq<char>|
                if is_hex_name(k) && slot_broken(files, k, width, c) {
                    Seq::<u8>::empty()
                } else {
                    files[k]
                },
        ),
    }
}

/// What a vacuum promises on a reliable store: the count of broken
/// occupied slots, and their reclamation.
pub open spec fn vacuum_post<C: Checksum>(
    pre: Map<Seq<char>, Seq<u8>>,
    post: Map<Seq<char>, Seq<u8>>,
    width: int,
    c: C,
    strategy: DelStrategy,
    reliable: bool,
    e: Event,
) -> bool {
    reliable ==> (e matches Event::BrokenItemsRemoved(cnt) && cnt == count_broken(
        pre,
        occupied_names(pre),
        width,
        c,
    ) && post == vacuumed(pre, width, c, strategy))
}

/// Walks the occupied slots, reads each, and deletes those that read
/// broken; the count of deletions is the result.
///
/// A failing listing, or a failing deletion, surfaces as
/// `UnexpectedError`; a slot that reads as anything but `Broken` —
/// including `NoEntry` — counts as zero and is not an error.
pub fn vacuum_run<S: SlotStore, CR: Checksum>(
    store: &mut S,
    get: &ReadHandler<CR>,
    del: &DelHandler,
    list: &ListHandler<AllNamesU8, NonEmptyFilter>,
) -> (e: Event)
    ensures
        final(store).reliable() == old(store).reliable(),
        vacuum_post(
            old(store).files(),
            final(store).files(),
            get.checksize as int,
            get.checksum,
            del.strategy,
            old(store).reliable(),
            e,
        ),
        (e matches Event::BrokenItemsRemoved(_)) || (e matches Event::UnexpectedError(_)),
{
    let ghost files0 = store.files();
    let ghost width = get.checksize as int;
    let ghost c = get.checksum;
    let listed = list.handle(store);
    let names = match listed {
        Event::NamesGot(names) => names,
        _ => {
            return Event::UnexpectedError(String::from_str("Unable to remove broken items"));
        },
    };
    let ghost ns = names.deep_view();
    proof {
        if old(store).reliable() {
            assert(ns == occupied_names(files0));
            crate::list::u::lemma_all_hex_names_distinct();
            crate::list::lemma_kept_names_distinct(the_nonempty_filter(), files0, all_hex_names());
            assert forall|j: int| 0 <= j < ns.len() implies is_hex_name(#[trigger] ns[j])
                && !slot_empty(files0, ns[j]) by {
                assert(ns.contains(ns[j]));
                lemma_occupied_names_membership(files0, ns[j]);
            }
        }
        assert(ns.take(0) =~= Seq::<Seq<char>>::empty());
    }
    let mut cnt: u64 = 0;
    let mut i: usize = 0;
    let len = names.len();
    while i < len
        invariant
            len == names@.len(),
            ns == names.deep_view(),
            width == get.checksize as int,
            c == get.checksum,
            i <= len,
            cnt <= i,
            store.reliable() == old(store).reliable(),
            old(store).reliable() ==> {
                &&& ns == occupied_names(files0)
                &&& files0 == old(store).files()
                &&& crate::list::distinct_names(ns)
                &&& forall|j: int|
                    0 <= j < ns.len() ==> is_hex_name(#[trigger] ns[j]) && !slot_empty(
                        files0,
                        ns[j],
                    )
                &&& cnt == count_broken(files0, ns.take(i as int), width, c)
                &&& forall|k: Seq<char>|
                    !(#[trigger] ns.take(i as int).contains(k) && slot_broken(files0, k, width, c))
                        ==> (store.files().contains_key(k) == files0.contains_key(k) && (
                    files0.contains_key(k) ==> store.files()[k] == files0[k]))
                &&& forall|j: int|
                    0 <= j < i && slot_broken(files0, #[trigger] ns[j], width, c) ==> (match del.strategy {
                        DelStrategy::Unlink => !store.files().contains_key(ns[j]),
                        DelStrategy::Truncate => store.files().contains_key(ns[j])
                            && store.files()[ns[j]].len() == 0,
                    })
            },
        decreases len - i,
    {
        proof {
            assert(ns[i as int] == names@[i as int].deep_view());
            assert(ns.take(i + 1).drop_last() =~= ns.take(i as int));
            assert(ns.take(i + 1).last() == ns[i as int]);
            if old(store).reliable() {
                assert(!ns.take(i as int).contains(ns[i as int])) by {
                    if ns.take(i as int).contains(ns[i as int]) {
                        let j = choose|j: int| 0 <= j < i && ns.take(i as int)[j] == ns[i as int];
                        assert(ns[j] == ns[i as int]);
                    }
                }
            }
        }
        let got = get.handle(store, names[i].clone());
        proof {
            if old(store).reliable() {
                assert(store.files().contains_key(ns[i as int]) == files0.contains_key(
                    ns[i as int],
                ) && (files0.contains_key(ns[i as int]) ==> store.files()[ns[i as int]]
                    == files0[ns[i as int]]));
                assert(files0.contains_key(ns[i as int]) && files0[ns[i as int]].len() > 0);
                assert(slot_broken(store.files(), ns[i as int], width, c) == slot_broken(
                    files0,
                    ns[i as int],
                    width,
                    c,
                ));
            }
        }
        match got {
            Event::Broken(bn) => {
                proof {
                    if old(store).reliable() {
                        assert(bn@ == ns[i as int]);
                        assert(slot_broken(files0, ns[i as int], width, c));
                    }
                }
                let ghost files_pre = store.files();
                let deleted = del.handle(store, bn);
                match deleted {
                    Event::Success => {
                        cnt = cnt + 1;
                        proof {
                            if old(store).reliable() {
                                assert(store.files() == del_effect(
                                    files_pre,
                                    ns[i as int],
                                    del.strategy,
                                ));
                                assert forall|k: Seq<char>|
                                    !(#[trigger] ns.take(i + 1).contains(k) && slot_broken(
                                        files0,
                                        k,
                                        width,
                                        c,
                                    )) implies (store.files().contains_key(k)
                                    == files0.contains_key(k) && (files0.contains_key(k)
                                    ==> store.files()[k] == files0[k])) by {
                                    if k == ns[i as int] {
                                        assert(ns.take(i + 1)[i as int] == k);
                                        assert(ns.take(i + 1).contains(k));
                                    } else {
                                        if ns.take(i as int).contains(k) {
                                            let j = choose|j: int|
                                                0 <= j < i && ns.take(i as int)[j] == k;
                                            assert(ns.take(i + 1)[j] == k);
                                            assert(ns.take(i + 1).contains(k));
                                        }
                                        assert(!(ns.take(i as int).contains(k) && slot_broken(
                                            files0,
                                            k,
                                            width,
                                            c,
                                        )));
                                        assert(store.files().contains_key(k)
                                            == files_pre.contains_key(k) && (
                                        files_pre.contains_key(k) ==> store.files()[k]
                                            == files_pre[k]));
                                    }
                                }
                                assert forall|j: int|
                                    0 <= j < i + 1 && slot_broken(
                                        files0,
                                        #[trigger] ns[j],
                                        width,
                                        c,
                                    ) implies (match del.strategy {
                                    DelStrategy::Unlink => !store.files().contains_key(ns[j]),
                                    DelStrategy::Truncate => store.files().contains_key(ns[j])
                                        && store.files()[ns[j]].len() == 0,
                                }) by {
                                    if j < i {
                                        assert(ns[j] != ns[i as int]);
                                    }
                                }
                                assert(cnt == count_broken(files0, ns.take(i + 1), width, c));
                            }
                        }
                    },
                    e => {
                        return e;
                    },
                }
            },
            _ => {
                proof {
                    if old(store).reliable() {
                        assert(!slot_broken(store.files(), ns[i as int], width, c));
                        assert(!slot_broken(files0, ns[i as int], width, c));
                        assert forall|k: Seq<char>|
                            !(#[trigger] ns.take(i + 1).contains(k) && slot_broken(
                                files0,
                                k,
                                width,
                                c,
                            )) implies (store.files().contains_key(k) == files0.contains_key(k) && (
                        files0.contains_key(k) ==> store.files()[k] == files0[k])) by {
                            if ns.take(i as int).contains(k) {
                                let j = choose|j: int| 0 <= j < i && ns.take(i as int)[j] == k;
                                assert(ns.take(i + 1)[j] == k);
                                assert(ns.take(i + 1).contains(k));
                            }
                        }
                        assert(cnt == count_broken(files0, ns.take(i + 1), width, c));
                    }
                }
            },
        }
        i = i + 1;
    }
    proof {
        if old(store).reliable() {
            assert(ns.take(len as int) =~= ns);
            let post = vacuumed(files0, width, c, del.strategy);
            assert forall|k: Seq<char>| #[trigger] post.contains_key(k)
                == store.files().contains_key(k) by {
                lemma_occupied_names_membership(files0, k);
                if is_hex_name(k) && slot_broken(files0, k, width, c) {
                    assert(occupied_names(files0).contains(k));
                    let j = choose|j: int| 0 <= j < ns.len() && ns[j] == k;
                    assert(slot_broken(files0, ns[j], width, c));
                    if del.strategy == DelStrategy::Truncate {
                        assert(store.files()[k] =~= Seq::<u8>::empty());
                    }
                } else {
                    assert(!(ns.take(len as int).contains(k) && slot_broken(files0, k, width, c)))
                        by {
                        if ns.take(len as int).contains(k) && slot_broken(files0, k, width, c) {
                            let j = choose|j: int| 0 <= j < len && ns.take(len as int)[j] == k;
                            assert(ns[j] == k);
                            assert(is_hex_name(k));
                        }
                    }
                    assert(store.files().contains_key(k) == files0.contains_key(k) && (
                    files0.contains_key(k) ==> store.files()[k] == files0[k]));
                }
            }
            assert forall|k: Seq<char>| store.files().contains_key(k) && post.contains_key(k)
                implies #[trigger] store.files()[k] == #[trigger] post[k] by {
                lemma_occupied_names_membership(files0, k);
                if is_hex_name(k) && slot_broken(files0, k, width, c) {
                    assert(occupied_names(files0).contains(k));
                    let j = choose|j: int| 0 <= j < ns.len() && ns[j] == k;
                    assert(slot_broken(files0, ns[j], width, c));
                    if del.strategy == DelStrategy::Truncate {
                        assert(store.files()[k] =~= Seq::<u8>::empty());
                    }
                } else {
                    assert(!(ns.take(len as int).contains(k) && slot_broken(files0, k, width, c)))
                        by {
                        if ns.take(len as int).contains(k) && slot_broken(files0, k, width, c) {
                            let j = choose|j: int| 0 <= j < len && ns.take(len as int)[j] == k;
                            assert(ns[j] == k);
                            assert(is_hex_name(k));
                        }
                    }
                    assert(store.files().contains_key(k) == files0.contains_key(k) && (
                    files0.contains_key(k) ==> store.files()[k] == files0[k]));
                }
            }
            assert(store.files() =~= post);
        }
    }
    Event::BrokenItemsRemoved(cnt)
}

/// An interface for request handlers.
///
/// The trait itself carries no contract: it is the extension point for
/// embedders.  The verified dispatcher behind it is
/// [`FsRingBuffer::handle`].
pub trait RingBuffer {
    /// Consumes one request and produces its outcome event.
    fn handle(&mut self, req: Request) -> Event;
}

/// What one dispatched request promises, relating the ring before and
/// after to the outcome event.
pub open spec fn dispatch_post<S: SlotStore, E: U8Source, CR: Checksum, CW: Checksum>(
    pre: FsRingBuffer<S, E, CR, CW>,
    post: FsRingBuffer<S, E, CR, CW>,
    req: Request,
    e: Event,
) -> bool {
    &&& post.store.reliable() == pre.store.reliable()
    &&& post.push.entropy_reliable() == pre.push.entropy_reliable()
    &&& post.get == pre.get && post.del == pre.del && post.list == pre.list && post.check_names
        == pre.check_names
    &&& post.push.wtr == pre.push.wtr
    &&& match req {
        Request::Get(n) => {
            &&& post.store.files() == pre.store.files()
            &&& (e matches Event::ItemGot(named) ==> named.spec_name() == n@)
            &&& (pre.check_names && !is_hex_name(n@) ==> e == Event::BadRequest)
            &&& ((!pre.check_names || is_hex_name(n@)) && pre.store.reliable() ==> read_post(
                pre.store.files(),
                n@,
                pre.get.checksize as int,
                pre.get.checksum,
                e,
            ))
        },
        Request::Del(n) => {
            &&& (pre.check_names && !is_hex_name(n@) ==> e == Event::BadRequest
                && post.store.files() == pre.store.files())
            &&& ((!pre.check_names || is_hex_name(n@)) ==> {
                &&& (e == Event::Success ==> post.store.files() == del_effect(
                    pre.store.files(),
                    n@,
                    pre.del.strategy,
                ) && slot_empty(post.store.files(), n@))
                &&& (e != Event::Success ==> (e matches Event::UnexpectedError(_))
                    && agrees_except(pre.store.files(), post.store.files(), n@))
                &&& (pre.store.reliable() ==> e == Event::Success)
            })
        },
        Request::Push(item) => push_retry_post(
            pre.push,
            pre.store.files(),
            post.store.files(),
            pre.store.reliable(),
            item@,
            e,
        ),
        Request::List => {
            &&& post.store.files() == pre.store.files()
            &&& (pre.store.reliable() ==> (e matches Event::NamesGot(v) && v.deep_view()
                == occupied_names(pre.store.files())))
        },
        Request::Vacuum => vacuum_post(
            pre.store.files(),
            post.store.files(),
            pre.get.checksize as int,
            pre.get.checksum,
            pre.del.strategy,
            pre.store.reliable(),
            e,
        ),
    }
}

/// The verified request dispatcher over a slot store.
///
/// Routes each request to the one component that serves it, and is the
/// only place that turns component successes into terminal events.
pub struct FsRingBuffer<S: SlotStore, E: U8Source, CR: Checksum, CW: Checksum> {
    pub store: S,
    pub get: ReadHandler<CR>,
    pub del: DelHandler,
    pub push: PushRetry<E, CW>,
    pub list: ListHandler<AllNamesU8, NonEmptyFilter>,
    /// Whether `Get` and `Del` reject names outside the alphabet with
    /// `BadRequest` before touching storage.
    pub check_names: bool,
}

impl<S: SlotStore, E: U8Source, CR: Checksum, CW: Checksum> FsRingBuffer<S, E, CR, CW> {
    /// Whether the store and the entropy source never fail.
    pub open spec fn reliable(&self) -> bool {
        self.store.reliable() && self.push.entropy_reliable()
    }

    pub fn handle_get(&mut self, name: Name) -> (e: Event)
        ensures
            *final(self) == *old(self),
            old(self).store.reliable() ==> read_post(
                old(self).store.files(),
                name@,
                old(self).get.checksize as int,
                old(self).get.checksum,
                e,
            ),
            e matches Event::ItemGot(named) ==> named.spec_name() == name@,
    {
        self.get.handle(&self.store, name)
    }

    pub fn handle_del(&mut self, name: Name) -> (e: Event)
        ensures
            final(self).store.reliable() == old(self).store.reliable(),
            final(self).get == old(self).get && final(self).del == old(self).del && final(self).list == old(self).list && final(self).check_names == old(self).check_names,
            final(self).push == old(self).push,
            e == Event::Success ==> final(self).store.files() == del_effect(
                old(self).store.files(),
                name@,
                old(self).del.strategy,
            ) && slot_empty(final(self).store.files(), name@),
            e != Event::Success ==> (e matches Event::UnexpectedError(_)) && agrees_except(
                old(self).store.files(),
                final(self).store.files(),
                name@,
            ),
            old(self).store.reliable() ==> e == Event::Success,
    {
        self.del.handle(&mut self.store, name)
    }

    pub fn handle_push(&mut self, item: Item) -> (e: Event)
        ensures
            final(self).store.reliable() == old(self).store.reliable(),
            final(self).push.entropy_reliable() == old(self).push.entropy_reliable(),
            final(self).get == old(self).get && final(self).del == old(self).del && final(self).list == old(self).list && final(self).check_names == old(self).check_names,
            final(self).push.wtr == old(self).push.wtr,
            push_retry_post(
                old(self).push,
                old(self).store.files(),
                final(self).store.files(),
                old(self).store.reliable(),
                item@,
                e,
            ),
    {
        self.push.handle(&mut self.store, item)
    }

    pub fn handle_list(&mut self) -> (e: Event)
        ensures
            *final(self) == *old(self),
            old(self).store.reliable() ==> (e matches Event::NamesGot(v) && v.deep_view()
                == occupied_names(old(self).store.files())),
    {
        self.list.handle(&self.store)
    }

    fn handle_vacuum(&mut self) -> (e: Event)
        ensures
            final(self).store.reliable() == old(self).store.reliable(),
            final(self).push.entropy_reliable() == old(self).push.entropy_reliable(),
            final(self).get == old(self).get && final(self).del == old(self).del && final(self).list == old(self).list && final(self).check_names == old(self).check_names,
            final(self).push.wtr == old(self).push.wtr,
            vacuum_post(
                old(self).store.files(),
                final(self).store.files(),
                old(self).get.checksize as int,
                old(self).get.checksum,
                old(self).del.strategy,
                old(self).store.reliable(),
                e,
            ),
            (e matches Event::BrokenItemsRemoved(_)) || (e matches Event::UnexpectedError(_)),
    {
        vacuum_run(&mut self.store, &self.get, &self.del, &self.list)
    }

    /// Dispatches one request.
    ///
    /// `Get` reads a slot, `Del` empties one, `Push` probes for an empty
    /// slot and writes, `List` yields the occupied names, and `Vacuum`
    /// reclaims broken slots.  With `check_names` set, `Get` and `Del`
    /// reject names outside the alphabet as `BadRequest`, storage
    /// untouched.
    pub fn handle(&mut self, req: Request) -> (e: Event)
        ensures
            dispatch_post(*old(self), *final(self), req, e),
    {
        match req {
            Request::Get(name) => {
                if self.check_names {
                    match n2u3_hex(&name) {
                        Err(e) => {
                            return e;
                        },
                        Ok(_) => {},
                    }
                }
                self.handle_get(name)
            },
            Request::Del(name) => {
                if self.check_names {
                    match n2u3_hex(&name) {
                        Err(e) => {
                            return e;
                        },
                        Ok(_) => {},
                    }
                }
                self.handle_del(name)
            },
            Request::Push(item) => self.handle_push(item),
            Request::List => self.handle_list(),
            Request::Vacuum => self.handle_vacuum(),
        }
    }
}

impl<S: SlotStore, E: U8Source, CR: Checksum, CW: Checksum> RingBuffer for FsRingBuffer<
    S,
    E,
    CR,
    CW,
> {
    fn handle(&mut self, req: Request) -> Event {
        self.handle(req)
    }
}

/// A request handler callable like a function, wrapping any ring buffer.
pub struct RingHandler<R: RingBuffer> {
    pub inner: R,
}

impl<R: RingBuffer> RingHandler<R> {
    /// Consumes one request through the wrapped ring buffer's trait
    /// method, which carries no contract; a handler over the verified
    /// dispatcher answers with its promises through
    /// [`RingHandler::handle`].
    pub fn call(&mut self, req: Request) -> Event {
        self.inner.handle(req)
    }
}

impl<S: SlotStore, E: U8Source, CR: Checksum, CW: Checksum> RingHandler<
    FsRingBuffer<S, E, CR, CW>,
> {
    /// Consumes one request with the verified dispatcher's promises.
    pub fn handle(&mut self, req: Request) -> (e: Event)
        ensures
            dispatch_post(old(self).inner, final(self).inner, req, e),
    {
        self.inner.handle(req)
    }
}

/// Creates new request handler from any ring buffer.
pub fn ring_buffer_new<R: RingBuffer>(r: R) -> (h: RingHandler<R>)
    ensures
        h.inner == r,
{
    RingHandler { inner: r }
}

fn remove_item<R: RingBuffer>(buf: &mut R, n: Name) -> (r: Result<u64, Event>)
    ensures
        r matches Ok(c) ==> c == 1,
{
    match buf.handle(Request::Del(n)) {
        Event::Success => Ok(1),
        e => Err(e),
    }
}

fn remove_broken_item<R: RingBuffer>(buf: &mut R, n: Name) -> (r: Result<u64, Event>)
    ensures
        r matches Ok(c) ==> c <= 1,
{
    match buf.handle(Request::Get(n)) {
        Event::Broken(broken_name) => remove_item(buf, broken_name),
        _ => Ok(0),
    }
}

fn remove_broken_items<R: RingBuffer>(buf: &mut R, names: Vec<Name>) -> (r: Result<u64, Event>)
    ensures
        r matches Ok(c) ==> c <= names@.len(),
{
    let mut tot: u64 = 0;
    let mut i: usize = 0;
    let len = names.len();
    while i < len
        invariant
            len == names@.len(),
            i <= len,
            tot <= i,
        decreases len - i,
    {
        let n = names[i].clone();
        match remove_broken_item(buf, n) {
            Ok(c) => {
                tot = tot + c;
            },
            Err(e) => {
                return Err(e);
            },
        }
        i = i + 1;
    }
    Ok(tot)
}

fn remove_broken_items_from_list<R: RingBuffer>(buf: &mut R) -> (r: Result<u64, Event>) {
    match buf.handle(Request::List) {
        Event::NamesGot(names) => remove_broken_items(buf, names),
        e => Err(e),
    }
}

/// Removes broken buffer items through any ring buffer: lists, reads
/// each name, and deletes those that read broken.
///
/// The count of removals is reported as `BrokenItemsRemoved`; any
/// failure along the way surfaces as `UnexpectedError`.  For the exact
/// promises of the verified dispatcher's own sweep, see
/// [`FsRingBuffer::handle`] with [`Request::Vacuum`].
pub fn remove_broken_buffers<R: RingBuffer>(buf: &mut R) -> (e: Event)
    ensures
        (e matches Event::BrokenItemsRemoved(_)) || (e matches Event::UnexpectedError(_)),
{
    match remove_broken_items_from_list(buf) {
        Ok(cnt) => Event::BrokenItemsRemoved(cnt),
        Err(_) => Event::UnexpectedError(String::from_str("Unable to remove broken items")),
    }
}

/// A get of a freshly pushed slot yields exactly the pushed bytes.
///
/// Law: for an item pushed successfully under a checksum of width
/// `width`, reading the written slot back with the same checksum
/// configuration answers `ItemGot` carrying the slot's name and the
/// original payload, whatever the payload was.
pub proof fn lemma_push_then_get<C: Checksum>(
    pre: Map<Seq<char>, Seq<u8>>,
    post: Map<Seq<char>, Seq<u8>>,
    nm: Seq<char>,
    data: Seq<u8>,
    c: C,
    width: int,
    e: Event,
)
    requires
        push_wrote(pre, post, nm, stored_bytes(data, c.model(data))),
        c.model(data).len() == width,
        read_post(post, nm, width, c, e),
    ensures
        e matches Event::ItemGot(ni) && ni.spec_name() == nm && ni.spec_item() == data,
{
    let chk = c.model(data);
    let raw = post[nm];
    assert(raw == data + chk);
    if width == 0 {
        assert(raw =~= data);
    } else {
        assert(raw.len() == data.len() + width);
        assert(payload_of(raw, width) =~= data);
        assert(stored_check_of(raw, width) =~= chk);
    }
}

/// A successful push of a non-trivial record occupies exactly one new
/// slot of the alphabet.
///
/// Law: after a push wrote `nm`, the listing holds `nm`, did not hold it
/// before, and holds any other name exactly as before.
pub proof fn lemma_push_then_list<C: Checksum>(
    pre: Map<Seq<char>, Seq<u8>>,
    post: Map<Seq<char>, Seq<u8>>,
    nm: Seq<char>,
    data: Seq<u8>,
    c: C,
)
    requires
        push_wrote(pre, post, nm, stored_bytes(data, c.model(data))),
        is_hex_name(nm),
        data.len() + c.model(data).len() > 0,
    ensures
        occupied_names(post).contains(nm),
        !occupied_names(pre).contains(nm),
        forall|k: Seq<char>|
            #[trigger] occupied_names(post).contains(k) <==> (occupied_names(pre).contains(k) || k
                == nm),
{
    assert forall|k: Seq<char>|
        #[trigger] occupied_names(post).contains(k) <==> (occupied_names(pre).contains(k) || k
            == nm) by {
        lemma_occupied_names_membership(pre, k);
        lemma_occupied_names_membership(post, k);
    }
    lemma_occupied_names_membership(pre, nm);
    lemma_occupied_names_membership(post, nm);
}

/// Deleting a slot twice is the same as deleting it once, and leaves
/// the slot empty.
///
/// Law: together with the dispatcher's promise that a delete on a
/// reliable store always answers `Success` — whether or not the slot
/// held anything — two consecutive deletes of one name both succeed and
/// end in the same state as one.
pub proof fn lemma_del_idempotent(files: Map<Seq<char>, Seq<u8>>, n: Seq<char>, strategy: DelStrategy)
    ensures
        del_effect(del_effect(files, n, strategy), n, strategy) == del_effect(files, n, strategy),
        slot_empty(del_effect(files, n, strategy), n),
{
    match strategy {
        DelStrategy::Unlink => {
            assert(del_effect(del_effect(files, n, strategy), n, strategy) =~= del_effect(
                files,
                n,
                strategy,
            ));
        },
        DelStrategy::Truncate => {
            assert(del_effect(del_effect(files, n, strategy), n, strategy) =~= del_effect(
                files,
                n,
                strategy,
            ));
        },
    }
}

/// After an unlinking delete, a get of the name answers `NoEntry`.
///
/// Law: a slot removed by the unlink strategy reads as absent.  (Under
/// the truncate strategy the file remains, empty: a read then answers
/// `ItemGot` of an empty item without integrity checking, or `Broken`
/// with it, not `NoEntry`.)
pub proof fn lemma_get_after_del<C: Checksum>(
    files: Map<Seq<char>, Seq<u8>>,
    n: Seq<char>,
    width: int,
    c: C,
    e: Event,
)
    requires
        read_post(del_effect(files, n, DelStrategy::Unlink), n, width, c, e),
    ensures
        e matches Event::NoEntry(m) && m@ == n,
{
}

/// How many of the given slots hold bytes.
pub open spec fn count_occupied(files: Map<Seq<char>, Seq<u8>>, names: Seq<Seq<char>>) -> int
    decreases names.len(),
{
    if names.len() == 0 {
        0
    } else {
        count_occupied(files, names.drop_last()) + if !slot_empty(files, names.last()) {
            1int
        } else {
            0int
        }
    }
}

/// How many slots of the ring are occupied.
pub open spec fn occupied_count(files: Map<Seq<char>, Seq<u8>>) -> int {
    count_occupied(files, all_hex_names())
}

proof fn lemma_count_occupied_update(
    pre: Map<Seq<char>, Seq<u8>>,
    post: Map<Seq<char>, Seq<u8>>,
    nm: Seq<char>,
    l: Seq<Seq<char>>,
)
    requires
        forall|k: Seq<char>| k != nm ==> #[trigger] slot_empty(post, k) == slot_empty(pre, k),
        slot_empty(pre, nm),
        !slot_empty(post, nm),
        crate::list::distinct_names(l),
    ensures
        count_occupied(post, l) == count_occupied(pre, l) + if l.contains(nm) {
            1int
        } else {
            0int
        },
    decreases l.len(),
{
    if l.len() == 0 {
        if l.contains(nm) {
            let j = choose|j: int| 0 <= j < l.len() && l[j] == nm;
        }
    } else {
        assert(crate::list::distinct_names(l.drop_last())) by {
            assert forall|i: int, j: int|
                0 <= i < j < l.drop_last().len() implies l.drop_last()[i] != l.drop_last()[j] by {
                assert(l[i] == l.drop_last()[i] && l[j] == l.drop_last()[j]);
            }
        }
        lemma_count_occupied_update(pre, post, nm, l.drop_last());
        if l.last() == nm {
            assert(!l.drop_last().contains(nm)) by {
                if l.drop_last().contains(nm) {
                    let j = choose|j: int| 0 <= j < l.drop_last().len() && l.drop_last()[j] == nm;
                    assert(l[j] == l[l.len() - 1]);
                }
            }
            assert(l.contains(nm)) by {
                assert(l[l.len() - 1] == nm);
            }
        } else {
            assert(l.contains(nm) <==> l.drop_last().contains(nm)) by {
                if l.contains(nm) {
                    let j = choose|j: int| 0 <= j < l.len() && l[j] == nm;
                    assert(l.drop_last()[j] == nm);
                }
                if l.drop_last().contains(nm) {
                    let j = choose|j: int| 0 <= j < l.drop_last().len() && l.drop_last()[j] == nm;
                    assert(l[j] == nm);
                }
            }
        }
    }
}

/// A successful push of a non-trivial record raises the number of
/// occupied slots by exactly one.
///
/// Law: each push claims one slot; 256 successful pushes into a fresh
/// ring therefore leave every slot occupied, and the dispatcher then
/// promises `TooManyItemsAlready` for the next push.
pub proof fn lemma_push_occupancy_count<C: Checksum>(
    pre: Map<Seq<char>, Seq<u8>>,
    post: Map<Seq<char>, Seq<u8>>,
    nm: Seq<char>,
    data: Seq<u8>,
    c: C,
)
    requires
        push_wrote(pre, post, nm, stored_bytes(data, c.model(data))),
        is_hex_name(nm),
        data.len() + c.model(data).len() > 0,
    ensures
        occupied_count(post) == occupied_count(pre) + 1,
{
    crate::list::u::lemma_all_hex_names_distinct();
    assert forall|k: Seq<char>| k != nm implies #[trigger] slot_empty(post, k) == slot_empty(
        pre,
        k,
    ) by {}
    lemma_count_occupied_update(pre, post, nm, all_hex_names());
    crate::list::u::lemma_all_hex_names_contains(nm);
}

proof fn lemma_count_occupied_le(files: Map<Seq<char>, Seq<u8>>, l: Seq<Seq<char>>)
    ensures
        0 <= count_occupied(files, l) <= l.len(),
    decreases l.len(),
{
    if l.len() > 0 {
        lemma_count_occupied_le(files, l.drop_last());
    }
}

proof fn lemma_count_occupied_all(files: Map<Seq<char>, Seq<u8>>, l: Seq<Seq<char>>)
    requires
        count_occupied(files, l) == l.len(),
    ensures
        forall|j: int| 0 <= j < l.len() ==> !slot_empty(files, #[trigger] l[j]),
    decreases l.len(),
{
    if l.len() > 0 {
        lemma_count_occupied_le(files, l.drop_last());
        lemma_count_occupied_all(files, l.drop_last());
        assert forall|j: int| 0 <= j < l.len() implies !slot_empty(files, #[trigger] l[j]) by {
            if j < l.len() - 1 {
                assert(l.drop_last()[j] == l[j]);
            }
        }
    }
}

/// A ring with 256 occupied slots is full.
///
/// Law: once the occupancy count reaches the alphabet's size, every
/// slot is occupied, and a reliable push can only answer
/// `TooManyItemsAlready`.
pub proof fn lemma_full_when_count_reaches_ring(files: Map<Seq<char>, Seq<u8>>)
    requires
        occupied_count(files) == 256,
    ensures
        crate::push::ring_full(files),
{
    lemma_count_occupied_all(files, all_hex_names());
    assert forall|b: u8| !slot_empty(files, #[trigger] crate::integer::u::hex_name_of(b)) by {
        assert(all_hex_names()[b as int] == crate::integer::u::hex_name_of(b));
    }
}

/// A slot just written by a push with matching writer and reader
/// checksums is not broken.
pub proof fn lemma_pushed_slot_not_broken<C: Checksum>(
    pre: Map<Seq<char>, Seq<u8>>,
    post: Map<Seq<char>, Seq<u8>>,
    nm: Seq<char>,
    data: Seq<u8>,
    c: C,
    width: int,
)
    requires
        push_wrote(pre, post, nm, stored_bytes(data, c.model(data))),
        c.model(data).len() == width,
    ensures
        !slot_broken(post, nm, width, c),
{
    let chk = c.model(data);
    let raw = post[nm];
    assert(raw == data + chk);
    if width != 0 && raw.len() >= width {
        assert(payload_of(raw, width) =~= data);
        assert(stored_check_of(raw, width) =~= chk);
    }
}

proof fn lemma_count_broken_zero<C: Checksum>(
    files: Map<Seq<char>, Seq<u8>>,
    l: Seq<Seq<char>>,
    width: int,
    c: C,
)
    requires
        forall|k: Seq<char>| !slot_broken(files, k, width, c),
    ensures
        count_broken(files, l, width, c) == 0,
    decreases l.len(),
{
    if l.len() > 0 {
        lemma_count_broken_zero(files, l.drop_last(), width, c);
    }
}

/// A vacuum of a ring without broken slots removes nothing.
///
/// Law: on a healthy ring — one where no slot fails its integrity check
/// — the vacuum count is zero and the files are left exactly as they
/// were.
pub proof fn lemma_vacuum_healthy<C: Checksum>(
    files: Map<Seq<char>, Seq<u8>>,
    width: int,
    c: C,
    strategy: DelStrategy,
)
    requires
        ring_healthy(files, width, c),
    ensures
        count_broken(files, occupied_names(files), width, c) == 0,
        vacuumed(files, width, c, strategy) == files,
{
    lemma_count_broken_zero(files, occupied_names(files), width, c);
    assert(vacuumed(files, width, c, strategy) =~= files);
}

proof fn lemma_count_broken_nonneg<C: Checksum>(
    files: Map<Seq<char>, Seq<u8>>,
    l: Seq<Seq<char>>,
    width: int,
    c: C,
)
    ensures
        count_broken(files, l, width, c) >= 0,
    decreases l.len(),
{
    if l.len() > 0 {
        lemma_count_broken_nonneg(files, l.drop_last(), width, c);
    }
}

proof fn lemma_count_broken_pos<C: Checksum>(
    files: Map<Seq<char>, Seq<u8>>,
    l: Seq<Seq<char>>,
    width: int,
    c: C,
    n: Seq<char>,
)
    requires
        l.contains(n),
        slot_broken(files, n, width, c),
    ensures
        count_broken(files, l, width, c) >= 1,
    decreases l.len(),
{
    lemma_count_broken_nonneg(files, l.drop_last(), width, c);
    if l.last() == n {
    } else {
        assert(l.drop_last().contains(n)) by {
            let j = choose|j: int| 0 <= j < l.len() && l[j] == n;
            assert(l.drop_last()[j] == n);
        }
        lemma_count_broken_pos(files, l.drop_last(), width, c, n);
    }
}

/// A vacuum over a ring holding a broken slot counts at least that slot
/// and leaves it empty.
///
/// Law: a file whose contents fail the integrity check is reclaimed by
/// one vacuum: the reported count is at least one, and the slot is
/// empty afterwards.
pub proof fn lemma_vacuum_reclaims<C: Checksum>(
    files: Map<Seq<char>, Seq<u8>>,
    n: Seq<char>,
    width: int,
    c: C,
    strategy: DelStrategy,
)
    requires
        is_hex_name(n),
        slot_broken(files, n, width, c),
    ensures
        count_broken(files, occupied_names(files), width, c) >= 1,
        slot_empty(vacuumed(files, width, c, strategy), n),
{
    lemma_occupied_names_membership(files, n);
    lemma_count_broken_pos(files, occupied_names(files), width, c, n);
}

/// A ring without files has no occupied slot, and no ring holds more
/// than the alphabet's 256.
pub proof fn lemma_occupied_count_bounds(files: Map<Seq<char>, Seq<u8>>)
    ensures
        0 <= occupied_count(files) <= 256,
        files == Map::<Seq<char>, Seq<u8>>::empty() ==> occupied_count(files) == 0,
{
    lemma_count_occupied_le(files, all_hex_names());
    if files == Map::<Seq<char>, Seq<u8>>::empty() {
        lemma_count_occupied_none(files, all_hex_names());
    }
}

proof fn lemma_count_occupied_none(files: Map<Seq<char>, Seq<u8>>, l: Seq<Seq<char>>)
    requires
        forall|k: Seq<char>| slot_empty(files, k),
    ensures
        count_occupied(files, l) == 0,
    decreases l.len(),
{
    if l.len() > 0 {
        lemma_count_occupied_none(files, l.drop_last());
    }
}

/// No slot of the ring fails its integrity check.
pub open spec fn ring_healthy<C: Checksum>(
    files: Map<Seq<char>, Seq<u8>>,
    width: int,
    c: C,
) -> bool {
    forall|k: Seq<char>| !slot_broken(files, k, width, c)
}

/// A ring with no files is healthy.
pub proof fn lemma_empty_ring_healthy<C: Checksum>(width: int, c: C)
    ensures
        ring_healthy(Map::<Seq<char>, Seq<u8>>::empty(), width, c),
{
}

/// A push whose writer checksum matches the reader's configuration
/// keeps the ring healthy.
///
/// Law: a ring built entirely via pushes under one checksum
/// configuration has no broken slot, so its vacuum removes nothing.
pub proof fn lemma_push_preserves_health<C: Checksum>(
    pre: Map<Seq<char>, Seq<u8>>,
    post: Map<Seq<char>, Seq<u8>>,
    nm: Seq<char>,
    data: Seq<u8>,
    c: C,
    width: int,
)
    requires
        ring_healthy(pre, width, c),
        push_wrote(pre, post, nm, stored_bytes(data, c.model(data))),
        c.model(data).len() == width,
    ensures
        ring_healthy(post, width, c),
{
    lemma_pushed_slot_not_broken(pre, post, nm, data, c, width);
    assert forall|k: Seq<char>| !slot_broken(post, k, width, c) by {
        if k != nm {
            assert(!slot_broken(pre, k, width, c));
        }
    }
}

/// A delete keeps the ring healthy: an absent or empty slot is never
/// broken.
pub proof fn lemma_del_preserves_health<C: Checksum>(
    files: Map<Seq<char>, Seq<u8>>,
    n: Seq<char>,
    strategy: DelStrategy,
    width: int,
    c: C,
)
    requires
        ring_healthy(files, width, c),
    ensures
        ring_healthy(del_effect(files, n, strategy), width, c),
{
    assert forall|k: Seq<char>| !slot_broken(del_effect(files, n, strategy), k, width, c) by {
        if k != n {
            assert(!slot_broken(files, k, width, c));
        }
    }
}

/// The fresh-ring scenario: on a ring whose every slot is empty, a push
/// through reliable storage and entropy answers `Success`, the listing
/// then holds exactly the one written name, and a get of that name
/// yields exactly the pushed bytes.
pub proof fn lemma_fresh_ring_scenario<E: U8Source, CW: Checksum, CR: Checksum>(
    p: PushRetry<E, CW>,
    pre: Map<Seq<char>, Seq<u8>>,
    post: Map<Seq<char>, Seq<u8>>,
    item: Seq<u8>,
    e_push: Event,
    rchk: CR,
    width: int,
    e_get: Event,
)
    requires
        push_retry_post(p, pre, post, true, item, e_push),
        p.entropy_reliable(),
        p.limit > 0,
        forall|b: u8| slot_empty(pre, #[trigger] crate::integer::u::hex_name_of(b)),
        item.len() + p.wtr.unchecked.checksum.model(item).len() > 0,
        rchk.model(item) == p.wtr.unchecked.checksum.model(item),
        width == rchk.model(item).len(),
    ensures
        e_push == Event::Success,
        occupied_names(pre) == Seq::<Seq<char>>::empty(),
        exists|nm: Seq<char>|
            #[trigger] push_wrote(
                pre,
                post,
                nm,
                stored_bytes(item, p.wtr.unchecked.checksum.model(item)),
            ) && is_hex_name(nm) && occupied_names(post) == seq![nm] && (read_post(
                post,
                nm,
                width,
                rchk,
                e_get,
            ) ==> (e_get matches Event::ItemGot(ni) && ni.spec_name() == nm && ni.spec_item()
                == item)),
{
    crate::push::lemma_push_succeeds_on_empty_ring(p, pre, post, item, e_push);
    let wchk = p.wtr.unchecked.checksum;
    let nm = choose|nm: Seq<char>|
        #[trigger] push_wrote(pre, post, nm, stored_bytes(item, wchk.model(item))) && (true
            && p.entropy_reliable() ==> is_hex_name(nm));
    assert(is_hex_name(nm));
    assert(occupied_names(pre) =~= Seq::<Seq<char>>::empty()) by {
        if occupied_names(pre).len() > 0 {
            let k = occupied_names(pre)[0];
            assert(occupied_names(pre).contains(k));
            lemma_occupied_names_membership(pre, k);
            crate::integer::u::lemma_hex_name_complete(k);
        }
    }
    lemma_push_then_list(pre, post, nm, item, wchk);
    crate::list::u::lemma_all_hex_names_distinct();
    crate::list::lemma_kept_names_distinct(the_nonempty_filter(), post, all_hex_names());
    assert(occupied_names(post) =~= seq![nm]) by {
        assert(occupied_names(post).contains(nm));
        assert(!occupied_names(pre).contains(nm));
        assert forall|i: int| 0 <= i < occupied_names(post).len() implies occupied_names(post)[i]
            == nm by {
            assert(occupied_names(post).contains(occupied_names(post)[i]));
            assert(!occupied_names(pre).contains(occupied_names(post)[i])) by {
                if occupied_names(pre).contains(occupied_names(post)[i]) {
                    let j = choose|j: int|
                        0 <= j < occupied_names(pre).len() && occupied_names(pre)[j]
                            == occupied_names(post)[i];
                }
            }
        }
        if occupied_names(post).len() >= 2 {
            assert(occupied_names(post)[0] == nm && occupied_names(post)[1] == nm);
            assert(crate::list::distinct_names(occupied_names(post)));
        }
    }
    if read_post(post, nm, width, rchk, e_get) {
        assert(stored_bytes(item, wchk.model(item)) == stored_bytes(item, rchk.model(item)));
        lemma_push_then_get(pre, post, nm, item, rchk, width, e_get);
    }
}

} // verus!
