//! Unit tests for the leaf components: the alphabet, emptiness
//! classification, path building, checksums, errors and the store.

use rs_fsring::checksum::{checksum_const_new, checksum_nop, checksum_sum_new, Checksum};
use rs_fsring::empty::{empty_checker_new_default, kind2empty, len2empty, nonempty_checker_new};
use rs_fsring::err::RingError;
use rs_fsring::evt::Event;
use rs_fsring::full::fullpath_builder_new;
use rs_fsring::integer::u::{n2u3_hex, name_checker_u8_new, next_gen_by_prev_u8_hex};
use rs_fsring::integer::u::{next_gen_by_prev_u8_new, u2n3_hex};
use rs_fsring::item::{Item, Name, NamedItem};
use rs_fsring::store::{mem_store_new, FsErrorKind, SlotStore};

#[test]
fn empty_test_zero() {
    assert_eq!(true, len2empty(0));
}

#[test]
fn test_non0() {
    assert_eq!(false, len2empty(42));
}

#[test]
fn empty_test_noent() {
    assert_eq!(true, kind2empty(FsErrorKind::NotFound).unwrap());
}

#[test]
fn test_err() {
    let r = kind2empty(FsErrorKind::PermissionDenied);
    assert_eq!(true, r.is_err());
}

#[test]
fn empty_test_empty() {
    let store = mem_store_new();
    let nchk = nonempty_checker_new(empty_checker_new_default());
    let not_empty: bool = nchk.check(&store, &Name::from("")).unwrap();
    assert_eq!(not_empty, false);
}

#[test]
fn test_u8() {
    let dirname: String = "./test.d".into();
    let f = fullpath_builder_new(dirname);
    let pb: String = f.build(&Name::from("42"));
    assert_eq!(pb.as_str(), "./test.d/42");
}

#[test]
fn test_dir_with_slash() {
    let f = fullpath_builder_new("./test.d/".into());
    assert_eq!(f.build(&Name::from("42")).as_str(), "./test.d/42");
}

#[test]
fn test_dir_empty() {
    let f = fullpath_builder_new(String::new());
    assert_eq!(f.build(&Name::from("42")).as_str(), "42");
}

#[test]
fn u_test_zero() {
    // A single digit is not a name of the two-digit alphabet.
    let chk = name_checker_u8_new();
    let r = chk.check(Name::from("0"));
    assert_eq!(r, Err(Event::BadRequest));
}

#[test]
fn u_test_invalid() {
    let chk = name_checker_u8_new();
    let r = chk.check(Name::from("invalid"));
    assert_eq!(r, Err(Event::BadRequest));
}

#[test]
fn test_all_valid() {
    let chk = name_checker_u8_new();
    for u in 0..255 {
        let nam: Name = chk.check(Name::from(format!("{:02x}", u))).unwrap();
        let ns: &str = nam.as_str();
        let nu: u8 = u8::from_str_radix(ns, 16).unwrap();
        assert_eq!(nu, u);
    }
}

#[test]
fn test_uppercase_rejected() {
    let chk = name_checker_u8_new();
    assert_eq!(chk.check(Name::from("4A")), Err(Event::BadRequest));
}

#[test]
fn test_three_digits_rejected() {
    assert_eq!(n2u3_hex(&Name::from("123")), Err(Event::BadRequest));
}

#[test]
fn test_n2u3_value() {
    assert_eq!(n2u3_hex(&Name::from("ff")), Ok(255));
    assert_eq!(n2u3_hex(&Name::from("00")), Ok(0));
    assert_eq!(n2u3_hex(&Name::from("42")), Ok(0x42));
}

#[test]
fn u_test_valid_name() {
    let f = next_gen_by_prev_u8_new();
    let n: Name = f.next(Name::from("41")).unwrap();
    assert_eq!(n, Name::from("42"));
}

#[test]
fn next_gen_hex_wraps() {
    let f = next_gen_by_prev_u8_hex();
    let n: Name = f.next(Name::from("ff")).unwrap();
    assert_eq!(n, Name::from("00"));
}

#[test]
fn u2n3_hex_test_zero() {
    let n: Name = u2n3_hex(0);
    assert_eq!(n, Name::from("00"));
}

#[test]
fn test_max() {
    let n: Name = u2n3_hex(255);
    assert_eq!(n, Name::from("ff"));
}

#[test]
fn test_checksum_nop_is_empty() {
    let c = checksum_nop();
    assert_eq!(c.compute(&vec![1, 2, 3]), Vec::<u8>::new());
}

#[test]
fn test_checksum_const_ignores_payload() {
    let c = checksum_const_new(vec![7, 8]);
    assert_eq!(c.compute(&vec![]), vec![7, 8]);
    assert_eq!(c.compute(&vec![1, 2, 3]), vec![7, 8]);
}

#[test]
fn test_checksum_sum_value() {
    let c = checksum_sum_new();
    assert_eq!(c.compute(&vec![1, 2, 3]), vec![6]);
    assert_eq!(c.compute(&vec![200, 100]), vec![44]);
    assert_eq!(c.compute(&vec![]), vec![0]);
}

#[test]
fn test_ring_error_message() {
    let s: String = RingError::Broken("slot".into()).into();
    assert_eq!(s.as_str(), "Broken item: slot");
    let t: String = RingError::NoEntry.message();
    assert_eq!(t.as_str(), "No such item");
}

#[test]
fn test_named_item_pair() {
    let named = NamedItem::new(Item::from(vec![1, 2]), Name::from("42"));
    assert_eq!(named.as_name(), &Name::from("42"));
    let (n, i) = named.into_pair();
    assert_eq!(n, Name::from("42"));
    assert_eq!(i, Item::from(vec![1, 2]));
}

#[test]
fn test_event_try_into_name() {
    assert_eq!(
        Event::NoEntry(Name::from("42")).try_into_name(),
        Ok(Name::from("42"))
    );
    assert_eq!(Event::Success.try_into_name(), Err(Event::BadRequest));
}

#[test]
fn test_event_try_into_item() {
    let got = Event::ItemGot(NamedItem::new(Item::from(vec![9]), Name::from("00")));
    assert_eq!(got.try_into_item(), Ok(Item::from(vec![9])));
    assert_eq!(Event::Again.try_into_item(), Err(Event::BadRequest));
}

#[test]
fn test_event_try_into_names() {
    let got = Event::NamesGot(vec![Name::from("00")]);
    assert_eq!(got.try_into_names(), Ok(vec![Name::from("00")]));
    assert_eq!(Event::Success.try_into_names(), Err(Event::BadRequest));
}

#[test]
fn test_store_roundtrip() {
    let mut store = mem_store_new();
    let n = Name::from("42");
    assert_eq!(store.stat_len(&n), Ok(None));
    store.write_all(&n, &vec![1, 2, 3]).unwrap();
    assert_eq!(store.stat_len(&n), Ok(Some(3)));
    assert_eq!(store.read_all(&n), Ok(vec![1, 2, 3]));
    store.truncate(&n).unwrap();
    assert_eq!(store.stat_len(&n), Ok(Some(0)));
    store.unlink(&n).unwrap();
    assert_eq!(store.stat_len(&n), Ok(None));
    assert_eq!(store.read_all(&n).unwrap_err().kind, FsErrorKind::NotFound);
}

#[test]
fn test_compose() {
    let f = rs_fsring::compose::compose(|x: u8| x / 2, |y: u8| y + 1);
    assert_eq!(f(8), 5);
}

#[test]
fn test_store_fault() {
    let mut store = mem_store_new();
    store.add_fault(Name::from("42"));
    let e = rs_fsring::empty::name2empty_fs_new()
        .check(&store, &Name::from("42"))
        .unwrap_err();
    assert!(matches!(e, Event::UnexpectedError(_)));
}
