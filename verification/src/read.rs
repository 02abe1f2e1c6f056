//! The reader: fetches a slot's file, splits off the trailing checksum,
//! verifies it and produces the item — or classifies the slot.
//!
//! Storage failures are mapped into events exactly once, here: an absent
//! file is `NoEntry`, unreadable or structurally impossible contents are
//! `Broken`, transient conditions are `Again`, anything else surfaces as
//! `UnexpectedError`.

use vstd::prelude::*;

verus! {

use vstd::string::StringExecFns;

use crate::checksum::{checksum_nop, Checksum, NopChecksum};
use crate::evt::Event;
use crate::item::{Item, Name, NamedItem};
use crate::store::{FsError, FsErrorKind, SlotStore};

/// The platform's generic I/O error number on the reference platform.
pub const GENERIC_IO_ERROR_NUM: i32 = 5;

/// What the read error mapping yields for each error kind.
pub open spec fn kind2event_matches(n: Seq<char>, k: FsErrorKind, e: Event) -> bool {
    match k {
        FsErrorKind::NotFound => e matches Event::NoEntry(m) && m@ == n,
        FsErrorKind::PermissionDenied => e matches Event::Broken(m) && m@ == n,
        FsErrorKind::InvalidInput => e matches Event::Broken(m) && m@ == n,
        FsErrorKind::InvalidData => e matches Event::Broken(m) && m@ == n,
        FsErrorKind::Unsupported => e matches Event::Broken(m) && m@ == n,
        FsErrorKind::UnexpectedEof => e matches Event::Broken(m) && m@ == n,
        FsErrorKind::TimedOut => e == Event::Again,
        FsErrorKind::OutOfMemory => e == Event::Again,
        FsErrorKind::Other => e matches Event::UnexpectedError(_),
    }
}

/// Maps a read failure's kind into the outcome event for the named slot.
pub fn kind2event(n: Name, k: FsErrorKind) -> (e: Event)
    ensures
        kind2event_matches(n@, k, e),
{
    match k {
        // the buffer empty.
        FsErrorKind::NotFound => Event::NoEntry(n),
        // permanent error. the buffer must be removed.
        FsErrorKind::PermissionDenied => Event::Broken(n),
        // may be broken(bit rot detected by the filesystem?)
        FsErrorKind::InvalidInput => Event::Broken(n),
        FsErrorKind::InvalidData => Event::Broken(n),
        FsErrorKind::Unsupported => Event::Broken(n),
        FsErrorKind::UnexpectedEof => Event::Broken(n),
        // Try again(network file system?).
        FsErrorKind::TimedOut => Event::Again,
        // Try again.
        FsErrorKind::OutOfMemory => Event::Again,
        _ => {
            let t = k.text();
            Event::UnexpectedError(
                String::from_str("Unable to get named item: ").concat(t.as_str()),
            )
        },
    }
}

/// What the read error mapping yields for a storage failure: the
/// platform's generic I/O error number means a broken slot, any other
/// failure goes by its kind.
pub open spec fn err2event_matches(n: Seq<char>, err: FsError, io_error_num: i32, e: Event) -> bool {
    if err.raw_os_error == Some(io_error_num) {
        e matches Event::Broken(m) && m@ == n
    } else {
        kind2event_matches(n, err.kind, e)
    }
}

/// Maps a storage failure into the outcome event for the named slot.
pub fn err2event(n: Name, err: FsError, io_error_num: i32) -> (e: Event)
    ensures
        err2event_matches(n@, err, io_error_num, e),
{
    match err.raw_os_error {
        Some(raw) => {
            if raw == io_error_num {
                Event::Broken(n)
            } else {
                kind2event(n, err.kind)
            }
        },
        None => kind2event(n, err.kind),
    }
}

/// The payload part of a slot's raw bytes: all but the trailing checksum.
pub open spec fn payload_of(raw: Seq<u8>, width: int) -> Seq<u8> {
    raw.take(raw.len() - width)
}

/// The stored checksum part of a slot's raw bytes: the trailing `width`
/// bytes.
pub open spec fn stored_check_of(raw: Seq<u8>, width: int) -> Seq<u8> {
    raw.skip(raw.len() - width)
}

/// Whether two byte vectors hold the same bytes.
pub fn bytes_eq(a: &Vec<u8>, b: &Vec<u8>) -> (r: bool)
    ensures
        r == (a@ == b@),
{
    if a.len() != b.len() {
        return false;
    }
    let len = a.len();
    let mut i: usize = 0;
    while i < len
        invariant
            len == a@.len(),
            len == b@.len(),
            i <= len,
            forall|j: int| 0 <= j < i ==> a@[j] == b@[j],
        decreases len - i,
    {
        if a[i] != b[i] {
            return false;
        }
        i = i + 1;
    }
    proof {
        assert(a@ =~= b@);
    }
    true
}

/// Accepts the payload when the stored checksum equals the computed one;
/// otherwise the named slot is broken.
pub fn data2checked(n: Name, data: Vec<u8>, checksum: Vec<u8>, computed: Vec<u8>) -> (r: Result<
    Item,
    Event,
>)
    ensures
        checksum@ == computed@ ==> (r matches Ok(i) && i@ == data@),
        checksum@ != computed@ ==> (r matches Err(e) && e matches Event::Broken(m) && m == n),
{
    if bytes_eq(&checksum, &computed) {
        Ok(Item::from(data))
    } else {
        Err(Event::Broken(n))
    }
}

/// Splits raw slot contents into payload and stored checksum, verifies
/// the checksum, and yields the item.
///
/// With `checksize` zero the whole contents are the payload and the
/// integrity step is skipped.  Contents shorter than `checksize` are
/// structurally impossible for this ring and classify the slot broken.
pub fn raw2item_with_checksum<C: Checksum>(
    n: Name,
    raw: Vec<u8>,
    checksize: usize,
    checksum: &C,
) -> (r: Result<Item, Event>)
    ensures
        checksize == 0 ==> (r matches Ok(i) && i@ == raw@),
        raw@.len() < checksize ==> (r matches Err(e) && e matches Event::Broken(m) && m@ == n@),
        0 < checksize <= raw@.len() ==> {
            if checksum.model(payload_of(raw@, checksize as int)) == stored_check_of(
                raw@,
                checksize as int,
            ) {
                r matches Ok(i) && i@ == payload_of(raw@, checksize as int)
            } else {
                r matches Err(e) && e matches Event::Broken(m) && m@ == n@
            }
        },
{
    if checksize == 0 {
        return Ok(Item::from(raw));
    }
    if raw.len() < checksize {
        return Err(Event::Broken(n));
    }
    let mut data = raw;
    let split_point = data.len() - checksize;
    let chk = data.split_off(split_point);
    let computed = checksum.compute(&data);
    data2checked(n, data, chk, computed)
}

/// What a read of the named slot yields, given the files present and the
/// reader's integrity configuration.
pub open spec fn read_post<C: Checksum>(
    files: Map<Seq<char>, Seq<u8>>,
    n: Seq<char>,
    checksize: int,
    c: C,
    e: Event,
) -> bool {
    if !files.contains_key(n) {
        e matches Event::NoEntry(m) && m@ == n
    } else {
        let raw = files[n];
        if checksize == 0 {
            e matches Event::ItemGot(named) && named.spec_name() == n && named.spec_item() == raw
        } else if raw.len() < checksize {
            e matches Event::Broken(m) && m@ == n
        } else if c.model(payload_of(raw, checksize)) == stored_check_of(raw, checksize) {
            e matches Event::ItemGot(named) && named.spec_name() == n && named.spec_item()
                == payload_of(raw, checksize)
        } else {
            e matches Event::Broken(m) && m@ == n
        }
    }
}

/// Reads named slots and verifies their integrity.
pub struct ReadHandler<C: Checksum> {
    pub checksize: usize,
    pub checksum: C,
    pub io_error_num: i32,
}

impl<C: Checksum> ReadHandler<C> {
    /// Fetches the named slot's item, classifying the slot on failure.
    pub fn handle<S: SlotStore>(&self, store: &S, n: Name) -> (e: Event)
        ensures
            store.reliable() ==> read_post(
                store.files(),
                n@,
                self.checksize as int,
                self.checksum,
                e,
            ),
            e matches Event::ItemGot(named) ==> named.spec_name() == n@,
    {
        match store.read_all(&n) {
            Ok(raw) => {
                let nc = n.clone();
                match raw2item_with_checksum(n, raw, self.checksize, &self.checksum) {
                    Ok(item) => Event::ItemGot(NamedItem::new(item, nc)),
                    Err(e) => e,
                }
            },
            Err(err) => err2event(n, err, self.io_error_num),
        }
    }
}

/// Creates checked read handler with the given integrity configuration.
pub fn read_handler_new_with_checksum<C: Checksum>(checksize: usize, checksum: C) -> (r: ReadHandler<
    C,
>)
    ensures
        r.checksize == checksize,
        r.checksum == checksum,
        r.io_error_num == GENERIC_IO_ERROR_NUM,
{
    ReadHandler { checksize, checksum, io_error_num: GENERIC_IO_ERROR_NUM }
}

/// Creates default checked read handler with the given integrity
/// configuration.
pub fn read_handler_new_default_with_checksum<C: Checksum>(checksize: usize, checksum: C) -> (r:
    ReadHandler<C>)
    ensures
        r.checksize == checksize,
        r.checksum == checksum,
        r.io_error_num == GENERIC_IO_ERROR_NUM,
{
    read_handler_new_with_checksum(checksize, checksum)
}

/// Creates new read handler with integrity checking off.
pub fn read_handler_new() -> (r: ReadHandler<NopChecksum>)
    ensures
        r.checksize == 0,
        r.io_error_num == GENERIC_IO_ERROR_NUM,
{
    read_handler_new_with_checksum(0, checksum_nop())
}

/// Creates default read handler with integrity checking off.
pub fn read_handler_new_default() -> (r: ReadHandler<NopChecksum>)
    ensures
        r.checksize == 0,
        r.io_error_num == GENERIC_IO_ERROR_NUM,
{
    read_handler_new()
}

} // verus!
