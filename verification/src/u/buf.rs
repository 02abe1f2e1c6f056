//! Assembled ring buffers over the canonical u8 alphabet: a store, an
//! entropy source, and the default component wiring.

use vstd::prelude::*;

verus! {

use crate::checksum::{checksum_nop, Checksum, NopChecksum};
use crate::del::del_handler_new_default;
use crate::list::{list_request_handler_new_default, NonEmptyFilter};
use crate::list::u::{list_names_u8_all_new, AllNamesU8};
use crate::next::u::U8Source;
use crate::push::push_retry_new;
use crate::read::{read_handler_new_default_with_checksum, ReadHandler};
use crate::{FsRingBuffer, RingBuffer, RingHandler};
use crate::store::SlotStore;

/// Creates default checked random ring buffer impl which uses u8 names.
///
/// The reader verifies `checksize` trailing bytes against `check_read`;
/// the writer appends `check_write`'s bytes.  The two must compute the
/// same checksum, or every pushed item reads back broken.
pub fn ring_buffer_impl_u8_new_default_with_checksum<
    S: SlotStore,
    E: U8Source,
    CR: Checksum,
    CW: Checksum,
>(
    store: S,
    entropy: E,
    checksize: usize,
    check_read: CR,
    check_write: CW,
) -> (r: FsRingBuffer<S, E, CR, CW>)
    ensures
        r.store == store,
        r.get.checksize == checksize,
        r.get.checksum == check_read,
        r.push.wtr.unchecked.checksum == check_write,
        r.push.next.src.src == entropy,
        r.push.limit == 256,
        r.del.strategy == crate::del::DelStrategy::Unlink,
        r.check_names == false,
{
    FsRingBuffer {
        store,
        get: read_handler_new_default_with_checksum(checksize, check_read),
        del: del_handler_new_default(),
        push: push_retry_new(entropy, check_write),
        list: list_request_handler_new_default(list_names_u8_all_new()),
        check_names: false,
    }
}

/// Creates default random ring buffer impl which uses u8 names, with
/// integrity checking off.
pub fn ring_buffer_impl_u8_new_default<S: SlotStore, E: U8Source>(store: S, entropy: E) -> (r:
    FsRingBuffer<S, E, NopChecksum, NopChecksum>)
    ensures
        r.store == store,
        r.get.checksize == 0,
        r.push.limit == 256,
        r.del.strategy == crate::del::DelStrategy::Unlink,
        r.check_names == false,
{
    ring_buffer_impl_u8_new_default_with_checksum(store, entropy, 0, checksum_nop(), checksum_nop())
}

/// Creates a checked-dispatch ring buffer impl: names outside the
/// alphabet are rejected as `BadRequest`.
pub fn ring_buffer_impl_u8_new_checked_with_checksum<
    S: SlotStore,
    E: U8Source,
    CR: Checksum,
    CW: Checksum,
>(
    store: S,
    entropy: E,
    checksize: usize,
    check_read: CR,
    check_write: CW,
) -> (r: FsRingBuffer<S, E, CR, CW>)
    ensures
        r.store == store,
        r.get.checksize == checksize,
        r.get.checksum == check_read,
        r.push.wtr.unchecked.checksum == check_write,
        r.push.limit == 256,
        r.del.strategy == crate::del::DelStrategy::Unlink,
        r.check_names == true,
{
    let mut r = ring_buffer_impl_u8_new_default_with_checksum(
        store,
        entropy,
        checksize,
        check_read,
        check_write,
    );
    r.check_names = true;
    r
}

/// Creates default checked random ring buffer which uses u8 names,
/// wrapped as a request handler.
pub fn ring_buffer_u8_new_default_with_checksum<
    S: SlotStore,
    E: U8Source,
    CR: Checksum,
    CW: Checksum,
>(
    store: S,
    entropy: E,
    checksize: usize,
    check_read: CR,
    check_write: CW,
) -> (r: RingHandler<FsRingBuffer<S, E, CR, CW>>)
    ensures
        r.inner.store == store,
        r.inner.get.checksize == checksize,
        r.inner.get.checksum == check_read,
        r.inner.push.wtr.unchecked.checksum == check_write,
{
    let rb = ring_buffer_impl_u8_new_default_with_checksum(
        store,
        entropy,
        checksize,
        check_read,
        check_write,
    );
    crate::ring_buffer_new(rb)
}

/// Creates default random ring buffer which uses u8 names, wrapped as a
/// request handler, with integrity checking off.
pub fn ring_buffer_u8_new_default<S: SlotStore, E: U8Source>(store: S, entropy: E) -> (r:
    RingHandler<FsRingBuffer<S, E, NopChecksum, NopChecksum>>)
    ensures
        r.inner.store == store,
        r.inner.get.checksize == 0,
{
    let rb = ring_buffer_impl_u8_new_default(store, entropy);
    crate::ring_buffer_new(rb)
}

} // verus!
