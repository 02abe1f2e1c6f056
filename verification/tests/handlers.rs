//! Tests for the per-request handlers: listing, next-name selection,
//! reading, writing and single-attempt pushes.

use rs_fsring::evt::Event;
use rs_fsring::item::{Item, Name, NamedItem};
use rs_fsring::list::{fixed_filter_new, list_request_handler_new};
use rs_fsring::list::u::{list_names_fixed_new, list_names_u8_all_new};
use rs_fsring::list::NameList;
use rs_fsring::next::u::next_random_u8_new_from_read;
use rs_fsring::next::{
    get_next_checked_new, get_next_simple_retry, name_attempts_fixed_new, name_source_fixed_new,
};
use rs_fsring::next::NameSource;
use rs_fsring::push::{push_new, FixedNameCursor};
use rs_fsring::read::{read_handler_new_default, read_handler_new_default_with_checksum};
use rs_fsring::store::{mem_store_new, SlotStore};
use rs_fsring::write::{
    writer_checked_new, writer_checked_new_default, writer_unchecked_new,
};

#[test]
fn list_test_empty() {
    let store = mem_store_new();
    let flist = list_names_fixed_new(Ok(vec![]));
    let filter = fixed_filter_new(Ok(true));
    let f = list_request_handler_new(flist, filter);
    let evt: Event = f.handle(&store);
    assert_eq!(evt, Event::NamesGot(vec![]));
}

#[test]
fn test_unable2get_list() {
    let store = mem_store_new();
    let flist = list_names_fixed_new(Err(Event::NoPerm("".into())));
    let filter = fixed_filter_new(Ok(true));
    let f = list_request_handler_new(flist, filter);
    let evt: Event = f.handle(&store);
    assert_eq!(evt, Event::NoPerm("".into()));
}

#[test]
fn test_empty_all() {
    let store = mem_store_new();
    let flist = list_names_fixed_new(Ok(vec![Name::from("00"), Name::from("01")]));
    let filter = fixed_filter_new(Ok(false));
    let f = list_request_handler_new(flist, filter);
    let evt: Event = f.handle(&store);
    assert_eq!(evt, Event::NamesGot(vec![]));
}

#[test]
fn test_nonempty_all() {
    let store = mem_store_new();
    let flist = list_names_fixed_new(Ok(vec![Name::from("00"), Name::from("01")]));
    let filter = fixed_filter_new(Ok(true));
    let f = list_request_handler_new(flist, filter);
    let evt: Event = f.handle(&store);
    assert_eq!(
        evt,
        Event::NamesGot(vec![Name::from("00"), Name::from("01")])
    );
}

#[test]
fn test_filter_err() {
    let store = mem_store_new();
    let flist = list_names_fixed_new(Ok(vec![Name::from("00")]));
    let filter = fixed_filter_new(Err(Event::NoPerm("".into())));
    let f = list_request_handler_new(flist, filter);
    let evt: Event = f.handle(&store);
    assert_eq!(evt, Event::NoPerm("".into()));
}

#[test]
fn test_len() {
    let f = list_names_u8_all_new();
    let v: Vec<Name> = f.names().unwrap();
    assert_eq!(v.len(), 256);
}

#[test]
fn test_empty_candidates() {
    let mut get_next = name_attempts_fixed_new(None);
    let limit = 256;
    let evt: Event = get_next_simple_retry(&mut get_next, limit);
    assert_eq!(evt, Event::TooManyItemsAlready);
}

#[test]
fn test_no_empty() {
    let mut get_next = name_attempts_fixed_new(Some(Err(Event::Used(Name::from("")))));
    let limit = 256;
    let evt: Event = get_next_simple_retry(&mut get_next, limit);
    assert_eq!(evt, Event::TooManyItemsAlready);
}

#[test]
fn test_empty1st() {
    let mut get_next = name_attempts_fixed_new(Some(Ok(Name::from("42"))));
    let limit = 256;
    let evt: Event = get_next_simple_retry(&mut get_next, limit);
    assert_eq!(evt, Event::Empty(Name::from("42")));
}

#[test]
fn next_test_empty() {
    let store = mem_store_new();
    let get_next_unchecked = name_source_fixed_new(Ok(Name::from("42")));
    let is_empty = fixed_filter_new(Ok(true));
    let mut f = get_next_checked_new(get_next_unchecked, is_empty);
    let n: Name = f.next(&store).unwrap();
    assert_eq!(n, Name::from("42"));
}

#[test]
fn next_test_noent() {
    let store = mem_store_new();
    let get_next_unchecked = name_source_fixed_new(Ok(Name::from("")));
    let is_empty = fixed_filter_new(Err(Event::NoEntry(Name::from("42"))));
    let mut f = get_next_checked_new(get_next_unchecked, is_empty);
    let n: Name = f.next(&store).unwrap();
    assert_eq!(n, Name::from("42"));
}

#[test]
fn test_used() {
    let store = mem_store_new();
    let get_next_unchecked = name_source_fixed_new(Ok(Name::from("42")));
    let is_empty = fixed_filter_new(Ok(false));
    let mut f = get_next_checked_new(get_next_unchecked, is_empty);
    let r = f.next(&store);
    assert_eq!(r, Err(Event::Used(Name::from("42"))));
}

#[test]
fn test_unexpected() {
    let store = mem_store_new();
    let get_next_unchecked = name_source_fixed_new(Ok(Name::from("")));
    let is_empty = fixed_filter_new(Err(Event::Broken(Name::from("42"))));
    let mut f = get_next_checked_new(get_next_unchecked, is_empty);
    let r = f.next(&store);
    assert_eq!(r, Err(Event::Broken(Name::from("42"))));
}

#[test]
fn test_number() {
    let rs: Vec<u8> = vec![0x29, 0x97, 0x92, 0x45, 0x80];
    let mut f = next_random_u8_new_from_read(rs);
    assert_eq!(f.get_name(), Ok(Name::from("29")));
    assert_eq!(f.get_name(), Ok(Name::from("97")));
    assert_eq!(f.get_name(), Ok(Name::from("92")));
    assert_eq!(f.get_name(), Ok(Name::from("45")));
    assert_eq!(f.get_name(), Ok(Name::from("80")));
    assert_eq!(f.get_name().is_err(), true);
}

#[test]
fn test_256() {
    let v: Vec<Name> = rs_fsring::next::u::next_u8_iter_new(0x43);
    assert_eq!(v.len(), 256);
    assert_eq!(v[255], Name::from("42"));
}

#[test]
fn test_no_next() {
    let mut store = mem_store_new();
    let get_name = FixedNameCursor {
        result: Err(Event::TooManyItemsAlready),
    };
    let wtr = writer_checked_new_default();
    let mut p = push_new(get_name, wtr);
    let r = p.push(&mut store, Item::from(vec![]));
    assert_eq!(r, Err(Event::TooManyItemsAlready));
}

#[test]
fn write_test_non_empty() {
    let mut store = mem_store_new();
    store.write_all(&Name::from(""), &vec![120]).unwrap();
    let unchecked = writer_unchecked_new();
    let is_empty = rs_fsring::empty::name2empty_fs_new();
    let f = writer_checked_new(unchecked, is_empty);
    let r = f.write(&mut store, NamedItem::new(Item::from(vec![]), Name::from("")));
    assert_eq!(r, Err(Event::Again));
}

#[test]
fn read_test_empty() {
    let store = mem_store_new();
    let f = read_handler_new_default();
    let evt: Event = f.handle(&store, Name::from("not-exist.dat"));
    assert_eq!(evt, Event::NoEntry(Name::from("not-exist.dat")));
}

#[test]
fn read_test_empty_with_checksum() {
    let store = mem_store_new();
    let f = read_handler_new_default_with_checksum(0, rs_fsring::checksum::checksum_nop());
    let evt: Event = f.handle(&store, Name::from("not-exist.dat"));
    assert_eq!(evt, Event::NoEntry(Name::from("not-exist.dat")));
}

#[test]
fn test_read_too_short_is_broken() {
    let mut store = mem_store_new();
    store.write_all(&Name::from("42"), &vec![1]).unwrap();
    let f = read_handler_new_default_with_checksum(2, rs_fsring::checksum::checksum_nop());
    let evt: Event = f.handle(&store, Name::from("42"));
    assert_eq!(evt, Event::Broken(Name::from("42")));
}

#[test]
fn test_write_appends_checksum() {
    // Would fail if the writer handed its payload through unchanged:
    // the stored file must carry the one-byte sum behind the payload.
    let mut store = mem_store_new();
    let wtr = rs_fsring::write::writer_unchecked_new_checksum(
        rs_fsring::checksum::checksum_sum_new(),
    );
    let named = NamedItem::new(Item::from(vec![1, 2, 3]), Name::from("a0"));
    let n = wtr.write(&mut store, named).unwrap();
    assert_eq!(n, Name::from("a0"));
    assert_eq!(store.read_all(&Name::from("a0")), Ok(vec![1, 2, 3, 6]));
}
