//! End-to-end scenarios through the dispatcher: pushes, round trips,
//! deletes, integrity violations, vacuum sweeps and ring exhaustion.

use rs_fsring::checksum::checksum_const_new;
use rs_fsring::checksum::checksum_sum_new;
use rs_fsring::evt::Event;
use rs_fsring::item::{Item, Name};
use rs_fsring::next::u::cyclic_u8_source_new;
use rs_fsring::remove_broken_buffers;
use rs_fsring::request::Request;
use rs_fsring::store::{mem_store_new, MemStore, SlotStore};
use rs_fsring::u::buf::{
    ring_buffer_impl_u8_new_checked_with_checksum, ring_buffer_impl_u8_new_default,
    ring_buffer_u8_new_default, ring_buffer_u8_new_default_with_checksum,
};

#[test]
fn buf_test_push() {
    let mut f = ring_buffer_u8_new_default(mem_store_new(), cyclic_u8_source_new(0));
    let req: Request = Request::Push(Item::from(vec![]));
    let evt: Event = f.handle(req);
    assert_eq!(evt, Event::Success);
}

#[test]
fn test_list() {
    let mut f = ring_buffer_u8_new_default(mem_store_new(), cyclic_u8_source_new(0));
    let evt: Event = f.handle(Request::Push(Item::from(vec![0x42])));
    assert_eq!(evt, Event::Success);

    let lst: Event = f.handle(Request::List);
    assert_eq!(lst, Event::NamesGot(vec![Name::from("00")]));
}

#[test]
fn test_get() {
    let mut f = ring_buffer_u8_new_default(mem_store_new(), cyclic_u8_source_new(0));
    let evt: Event = f.handle(Request::Push(Item::from(b"299792458".as_slice())));
    assert_eq!(evt, Event::Success);

    let lst: Event = f.handle(Request::List);
    let names: Vec<Name> = lst.try_into_names().unwrap();
    let n: Name = names.into_iter().next().unwrap();

    let got: Event = f.handle(Request::Get(n));
    let i: Item = got.try_into_item().unwrap();
    assert_eq!(i, Item::from(b"299792458".as_slice()));
}

#[test]
fn test_del() {
    let mut f = ring_buffer_u8_new_default(mem_store_new(), cyclic_u8_source_new(0));
    let evt: Event = f.handle(Request::Push(Item::from(b"299792458".as_slice())));
    assert_eq!(evt, Event::Success);

    let lst: Event = f.handle(Request::List);
    let names: Vec<Name> = lst.try_into_names().unwrap();
    let n: Name = names.into_iter().next().unwrap();

    let got: Event = f.handle(Request::Get(n));
    let tgt: Name = got.try_into_name().unwrap();

    let rmv: Event = f.handle(Request::Del(tgt));
    assert_eq!(rmv, Event::Success);
}

#[test]
fn test_push_del_get() {
    // Push, delete, get: the deleted slot reads as absent and the
    // listing is empty again.
    let mut f = ring_buffer_u8_new_default(mem_store_new(), cyclic_u8_source_new(0));
    assert_eq!(
        f.handle(Request::Push(Item::from(b"299792458".as_slice()))),
        Event::Success
    );
    let names = f.handle(Request::List).try_into_names().unwrap();
    assert_eq!(names.len(), 1);
    let n = names.into_iter().next().unwrap();
    assert_eq!(f.handle(Request::Del(n.clone())), Event::Success);
    assert_eq!(f.handle(Request::Get(n.clone())), Event::NoEntry(n));
    assert_eq!(f.handle(Request::List), Event::NamesGot(vec![]));
}

#[test]
fn test_del_idempotent() {
    let mut f = ring_buffer_u8_new_default(mem_store_new(), cyclic_u8_source_new(0));
    assert_eq!(f.handle(Request::Push(Item::from(vec![1]))), Event::Success);
    assert_eq!(f.handle(Request::Del(Name::from("00"))), Event::Success);
    assert_eq!(f.handle(Request::Del(Name::from("00"))), Event::Success);
    assert_eq!(f.handle(Request::Del(Name::from("c3"))), Event::Success);
    assert_eq!(f.handle(Request::Del(Name::from("c3"))), Event::Success);
}

#[test]
fn test_roundtrip_with_checksum() {
    let mut f = ring_buffer_u8_new_default_with_checksum(
        mem_store_new(),
        cyclic_u8_source_new(7),
        1,
        checksum_sum_new(),
        checksum_sum_new(),
    );
    assert_eq!(
        f.handle(Request::Push(Item::from(b"299792458".as_slice()))),
        Event::Success
    );
    let names = f.handle(Request::List).try_into_names().unwrap();
    assert_eq!(names, vec![Name::from("07")]);
    let got = f.handle(Request::Get(Name::from("07")));
    assert_eq!(
        got.try_into_item().unwrap(),
        Item::from(b"299792458".as_slice())
    );
}

#[test]
fn test_checksum_valid() {
    // The stored checksum is the trailing constant; the payload is what
    // stands before it.
    let mut store = mem_store_new();
    store
        .write_all(
            &Name::from("42"),
            &b"FFcafef00ddeadbeafface864299792458".to_vec(),
        )
        .unwrap();
    let chk = b"cafef00ddeadbeafface864299792458".to_vec();
    let mut f = ring_buffer_u8_new_default_with_checksum(
        store,
        cyclic_u8_source_new(0),
        32,
        checksum_const_new(chk.clone()),
        checksum_const_new(chk),
    );
    let evt = f.handle(Request::Get(Name::from("42")));
    match evt {
        Event::ItemGot(named) => {
            let (name, item) = named.into_pair();
            assert_eq!(item, Item::from(b"FF".as_slice()));
            assert_eq!(name, Name::from("42"));
        }
        _ => {
            panic!("Unexpected event: {:#?}", evt)
        }
    }
}

#[test]
fn test_integrity_broken() {
    // A slot whose trailing bytes do not equal the configured constant
    // reads as broken.
    let mut store = mem_store_new();
    store.write_all(&Name::from("42"), &vec![0u8; 32]).unwrap();
    let chk = b"cafef00ddeadbeafface864299792458".to_vec();
    let mut f = ring_buffer_u8_new_default_with_checksum(
        store,
        cyclic_u8_source_new(0),
        32,
        checksum_const_new(chk.clone()),
        checksum_const_new(chk),
    );
    let evt = f.handle(Request::Get(Name::from("42")));
    assert_eq!(evt, Event::Broken(Name::from("42")));
}

#[test]
fn test_checksum_width_boundary() {
    // Contents of exactly the checksum's width whose bytes equal the
    // constant: the payload is empty and the check passes.
    let mut store = mem_store_new();
    let chk = b"cafef00ddeadbeafface864299792458".to_vec();
    store.write_all(&Name::from("42"), &chk).unwrap();
    let mut f = ring_buffer_u8_new_default_with_checksum(
        store,
        cyclic_u8_source_new(0),
        32,
        checksum_const_new(chk.clone()),
        checksum_const_new(chk),
    );
    let evt = f.handle(Request::Get(Name::from("42")));
    match evt {
        Event::ItemGot(named) => {
            assert_eq!(named.into_pair().1, Item::from(vec![]));
        }
        _ => {
            panic!("Unexpected event: {:#?}", evt)
        }
    }
}

#[test]
fn test_vacuum_removes_broken() {
    let mut store = mem_store_new();
    store.write_all(&Name::from("42"), &vec![0u8; 32]).unwrap();
    let chk = b"cafef00ddeadbeafface864299792458".to_vec();
    let mut f = ring_buffer_u8_new_default_with_checksum(
        store,
        cyclic_u8_source_new(0),
        32,
        checksum_const_new(chk.clone()),
        checksum_const_new(chk),
    );
    assert_eq!(f.handle(Request::Vacuum), Event::BrokenItemsRemoved(1));
    assert_eq!(f.handle(Request::List), Event::NamesGot(vec![]));
}

#[test]
fn test_vacuum_healthy() {
    // A ring built entirely by pushes with integrity on has nothing to
    // reclaim.
    let mut f = ring_buffer_u8_new_default_with_checksum(
        mem_store_new(),
        cyclic_u8_source_new(0),
        1,
        checksum_sum_new(),
        checksum_sum_new(),
    );
    for i in 0..5u8 {
        assert_eq!(f.handle(Request::Push(Item::from(vec![i]))), Event::Success);
    }
    assert_eq!(f.handle(Request::Vacuum), Event::BrokenItemsRemoved(0));
    let names = f.handle(Request::List).try_into_names().unwrap();
    assert_eq!(names.len(), 5);
}

#[test]
fn test_ring_fills() {
    let mut f = ring_buffer_u8_new_default(mem_store_new(), cyclic_u8_source_new(0));
    for i in 0..=255u8 {
        assert_eq!(f.handle(Request::Push(Item::from(vec![i]))), Event::Success);
    }
    let names = f.handle(Request::List).try_into_names().unwrap();
    assert_eq!(names.len(), 256);
    assert_eq!(
        f.handle(Request::Push(Item::from(vec![1]))),
        Event::TooManyItemsAlready
    );
}

#[test]
fn test_bad_name() {
    let mut rb = ring_buffer_impl_u8_new_checked_with_checksum(
        mem_store_new(),
        cyclic_u8_source_new(0),
        0,
        rs_fsring::checksum::checksum_nop(),
        rs_fsring::checksum::checksum_nop(),
    );
    assert_eq!(rb.handle(Request::Get(Name::from("zz"))), Event::BadRequest);
    assert_eq!(rb.handle(Request::Del(Name::from("0"))), Event::BadRequest);
    assert_eq!(
        rb.handle(Request::Get(Name::from("42"))),
        Event::NoEntry(Name::from("42"))
    );
}

#[test]
fn test_list_filters_empty_files() {
    // A present file of length zero is an empty slot: not listed.
    let mut store = mem_store_new();
    store.truncate(&Name::from("aa")).unwrap();
    store.write_all(&Name::from("bb"), &vec![1]).unwrap();
    let mut f = ring_buffer_u8_new_default(store, cyclic_u8_source_new(0));
    assert_eq!(f.handle(Request::List), Event::NamesGot(vec![Name::from("bb")]));
}

#[test]
fn test_remove_broken_buffers_healthy() {
    let mut rb: rs_fsring::FsRingBuffer<MemStore, _, _, _> =
        ring_buffer_impl_u8_new_default(mem_store_new(), cyclic_u8_source_new(0));
    assert_eq!(rb.handle(Request::Push(Item::from(vec![1]))), Event::Success);
    assert_eq!(remove_broken_buffers(&mut rb), Event::BrokenItemsRemoved(0));
}

#[test]
fn test_remove_broken_buffers_reclaims() {
    let mut store = mem_store_new();
    store.write_all(&Name::from("42"), &vec![0u8; 32]).unwrap();
    let chk = b"cafef00ddeadbeafface864299792458".to_vec();
    let mut rb = rs_fsring::u::buf::ring_buffer_impl_u8_new_default_with_checksum(
        store,
        cyclic_u8_source_new(0),
        32,
        checksum_const_new(chk.clone()),
        checksum_const_new(chk),
    );
    assert_eq!(remove_broken_buffers(&mut rb), Event::BrokenItemsRemoved(1));
}

#[test]
fn test_push_empty_item_no_checksum_stays_empty() {
    // An empty payload with integrity off writes an empty file: the
    // slot remains empty and is not listed.
    let mut f = ring_buffer_u8_new_default(mem_store_new(), cyclic_u8_source_new(0));
    assert_eq!(f.handle(Request::Push(Item::from(vec![]))), Event::Success);
    assert_eq!(f.handle(Request::List), Event::NamesGot(vec![]));
}

#[test]
fn test_push_managed_cyclic() {
    // The managed pusher with a cyclic cursor fills slots in order.
    let mut store = mem_store_new();
    let cursor = rs_fsring::push::CyclicNameCursor { next: 0 };
    let wtr = rs_fsring::write::writer_checked_new_default();
    let mut p = rs_fsring::push::push_new(cursor, wtr);
    assert_eq!(p.push(&mut store, Item::from(vec![1])), Ok(()));
    assert_eq!(p.push(&mut store, Item::from(vec![2])), Ok(()));
    assert_eq!(store.read_all(&Name::from("00")), Ok(vec![1]));
    assert_eq!(store.read_all(&Name::from("01")), Ok(vec![2]));
}
