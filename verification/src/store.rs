//! The slot storage a ring runs against.
//!
//! Every component observes and changes slots only through the
//! [`SlotStore`] trait, whose view is the map from file names to byte
//! contents.  [`MemStore`] is the verified in-memory implementation, a
//! model of a fault-free directory; embedders supply a directory-backed
//! implementation to run against a real filesystem.

use vstd::prelude::*;

verus! {

use vstd::string::StringExecFns;

use crate::item::Name;

/// The error kinds the ring's error mapping distinguishes.
#[derive(Debug, Clone, Copy, PartialEq, Eq, Structural)]
pub enum FsErrorKind {
    NotFound,
    PermissionDenied,
    InvalidInput,
    InvalidData,
    Unsupported,
    UnexpectedEof,
    TimedOut,
    OutOfMemory,
    /// Any kind the mapping does not single out.
    Other,
}

/// The diagnostic text a kind is rendered as.
pub open spec fn kind_text_of(k: FsErrorKind) -> Seq<char> {
    match k {
        FsErrorKind::NotFound => "entity not found"@,
        FsErrorKind::PermissionDenied => "permission denied"@,
        FsErrorKind::InvalidInput => "invalid input parameter"@,
        FsErrorKind::InvalidData => "invalid data"@,
        FsErrorKind::Unsupported => "unsupported"@,
        FsErrorKind::UnexpectedEof => "unexpected end of file"@,
        FsErrorKind::TimedOut => "timed out"@,
        FsErrorKind::OutOfMemory => "out of memory"@,
        FsErrorKind::Other => "uncategorized error"@,
    }
}

impl FsErrorKind {
    /// Renders the kind as a diagnostic line.
    pub fn text(&self) -> (r: String)
        ensures
            r@ == kind_text_of(*self),
    {
        match self {
            FsErrorKind::NotFound => String::from_str("entity not found"),
            FsErrorKind::PermissionDenied => String::from_str("permission denied"),
            FsErrorKind::InvalidInput => String::from_str("invalid input parameter"),
            FsErrorKind::InvalidData => String::from_str("invalid data"),
            FsErrorKind::Unsupported => String::from_str("unsupported"),
            FsErrorKind::UnexpectedEof => String::from_str("unexpected end of file"),
            FsErrorKind::TimedOut => String::from_str("timed out"),
            FsErrorKind::OutOfMemory => String::from_str("out of memory"),
            FsErrorKind::Other => String::from_str("uncategorized error"),
        }
    }
}

/// A storage-level failure: the mapped kind, the platform's raw error
/// number where one exists, and diagnostic text.
#[derive(Debug, PartialEq, Eq)]
pub struct FsError {
    pub kind: FsErrorKind,
    pub raw_os_error: Option<i32>,
    pub text: String,
}

impl FsError {
    /// A failure of the given kind, rendered with the kind's own text.
    pub fn new(kind: FsErrorKind) -> (r: FsError)
        ensures
            r.kind == kind,
            r.raw_os_error is None,
    {
        let text = kind.text();
        FsError { kind, raw_os_error: None, text }
    }
}

/// Two file maps that agree everywhere but possibly at one name.
pub open spec fn agrees_except(
    a: Map<Seq<char>, Seq<u8>>,
    b: Map<Seq<char>, Seq<u8>>,
    n: Seq<char>,
) -> bool {
    forall|k: Seq<char>|
        k != n ==> {
            &&& #[trigger] b.contains_key(k) == a.contains_key(k)
            &&& (a.contains_key(k) ==> b[k] == a[k])
        }
}

/// Storage for slots: a flat namespace of files, each holding bytes.
///
/// `files()` is the store's view — the names present, each with its
/// contents.  A `reliable()` store never fails: operations succeed, and
/// only a read of an absent file reports `NotFound`.  Mutations may fail
/// on an unreliable store, but even a failed write touches no file other
/// than the named one.
pub trait SlotStore: Sized {
    /// The present files: each name maps to its byte contents.  An
    /// implementation outside the verifier's view may leave the
    /// default, of which nothing is promised.
    open spec fn files(&self) -> Map<Seq<char>, Seq<u8>> {
        Map::empty()
    }

    /// Whether every operation on this store succeeds.  Defaults to
    /// promising nothing.
    open spec fn reliable(&self) -> bool {
        false
    }

    /// Length of the named file, `None` when the file is absent.
    fn stat_len(&self, n: &Name) -> (r: Result<Option<u64>, FsError>)
        ensures
            (match r {
                Ok(Some(l)) => self.files().contains_key(n@) && l == self.files()[n@].len(),
                Ok(None) => !self.files().contains_key(n@),
                Err(e) => e.kind == FsErrorKind::NotFound ==> !self.files().contains_key(n@),
            }),
            self.reliable() ==> r is Ok,
    ;

    /// The entire contents of the named file.
    fn read_all(&self, n: &Name) -> (r: Result<Vec<u8>, FsError>)
        ensures
            (match r {
                Ok(v) => self.files().contains_key(n@) && v@ == self.files()[n@],
                Err(e) => e.kind == FsErrorKind::NotFound ==> !self.files().contains_key(n@),
            }),
            self.reliable() ==> (r is Ok <==> self.files().contains_key(n@)),
            self.reliable() && !self.files().contains_key(n@) ==> (r matches Err(e) && e.kind
                == FsErrorKind::NotFound && e.raw_os_error is None),
    ;

    /// Create-or-truncate, write `data` and sync: afterwards the named
    /// file holds exactly `data`.
    fn write_all(&mut self, n: &Name, data: &Vec<u8>) -> (r: Result<(), FsError>)
        ensures
            final(self).reliable() == old(self).reliable(),
            r is Ok ==> final(self).files() == old(self).files().insert(n@, data@),
            r is Err ==> agrees_except(old(self).files(), final(self).files(), n@),
            old(self).reliable() ==> r is Ok,
    ;

    /// Truncate the named file to length zero, creating it if absent.
    fn truncate(&mut self, n: &Name) -> (r: Result<(), FsError>)
        ensures
            final(self).reliable() == old(self).reliable(),
            r is Ok ==> final(self).files() == old(self).files().insert(n@, Seq::<u8>::empty()),
            r is Err ==> agrees_except(old(self).files(), final(self).files(), n@),
            old(self).reliable() ==> r is Ok,
    ;

    /// Remove the named file, succeeding also when it was absent.
    fn unlink(&mut self, n: &Name) -> (r: Result<(), FsError>)
        ensures
            final(self).reliable() == old(self).reliable(),
            r is Ok ==> final(self).files() == old(self).files().remove(n@),
            r is Err ==> agrees_except(old(self).files(), final(self).files(), n@),
            old(self).reliable() ==> r is Ok,
    ;
}

/// The map a write log denotes: later entries win, `None` removes.
pub open spec fn log_view(l: Seq<(String, Option<Vec<u8>>)>) -> Map<Seq<char>, Seq<u8>>
    decreases l.len(),
{
    if l.len() == 0 {
        Map::empty()
    } else {
        let prev = log_view(l.drop_last());
        match l.last().1 {
            Some(v) => prev.insert(l.last().0@, v@),
            None => prev.remove(l.last().0@),
        }
    }
}

/// The last entry for a name settles what the log's map holds at it.
proof fn lemma_log_lookup(l: Seq<(String, Option<Vec<u8>>)>, j: int, k: Seq<char>)
    requires
        0 <= j < l.len(),
        l[j].0@ == k,
        forall|m: int| j < m < l.len() ==> (#[trigger] l[m].0@) != k,
    ensures
        match l[j].1 {
            Some(v) => log_view(l).contains_key(k) && log_view(l)[k] == v@,
            None => !log_view(l).contains_key(k),
        },
    decreases l.len(),
{
    if j == l.len() - 1 {
    } else {
        assert(l.drop_last()[j] == l[j]);
        lemma_log_lookup(l.drop_last(), j, k);
        assert(l.last().0@ != k);
    }
}

/// A name no entry mentions is absent from the log's map.
proof fn lemma_log_absent(l: Seq<(String, Option<Vec<u8>>)>, k: Seq<char>)
    requires
        forall|m: int| 0 <= m < l.len() ==> (#[trigger] l[m].0@) != k,
    ensures
        !log_view(l).contains_key(k),
    decreases l.len(),
{
    if l.len() == 0 {
    } else {
        assert forall|m: int| 0 <= m < l.drop_last().len() implies (#[trigger] l.drop_last()[m].0@)
            != k by {
            assert(l.drop_last()[m] == l[m]);
        }
        lemma_log_absent(l.drop_last(), k);
    }
}

/// A fault-free directory held in memory: the verified store.
///
/// Mutations are appended to a write log whose later entries win; the
/// view is the map the log denotes.  A name put on the fault list makes
/// every operation on it fail, for exercising error paths.
pub struct MemStore {
    log: Vec<(String, Option<Vec<u8>>)>,
    faults: Vec<String>,
}

/// Creates an empty in-memory store.
pub fn mem_store_new() -> (r: MemStore)
    ensures
        r.files() == Map::<Seq<char>, Seq<u8>>::empty(),
        r.reliable(),
{
    MemStore { log: Vec::new(), faults: Vec::new() }
}

impl MemStore {
    /// Makes every operation on the given name fail from now on.
    pub fn add_fault(&mut self, name: Name)
        ensures
            final(self).files() == old(self).files(),
            !final(self).reliable(),
    {
        self.faults.push(String::from(name));
    }

    fn fault_hit(&self, n: &Name) -> (r: bool)
        ensures
            self.faults@.len() == 0 ==> r == false,
    {
        let mut i: usize = 0;
        let len = self.faults.len();
        while i < len
            invariant
                len == self.faults.len(),
            decreases len - i,
        {
            if self.faults[i] == n.name {
                return true;
            }
            i = i + 1;
        }
        false
    }

    /// Index of the last (winning) log entry for the name, if any.
    fn find_last(&self, n: &Name) -> (r: Option<usize>)
        ensures
            match r {
                Some(j) => j < self.log.len() && self.log@[j as int].0@ == n@ && forall|m: int|
                    j < m < self.log.len() ==> (#[trigger] self.log@[m].0@) != n@,
                None => forall|m: int|
                    0 <= m < self.log.len() ==> (#[trigger] self.log@[m].0@) != n@,
            },
    {
        let mut i = self.log.len();
        while i > 0
            invariant
                i <= self.log.len(),
                forall|m: int| i <= m < self.log.len() ==> (#[trigger] self.log@[m].0@) != n@,
            decreases i,
        {
            i = i - 1;
            if self.log[i].0 == n.name {
                return Some(i);
            }
        }
        None
    }

    fn put(&mut self, n: &Name, entry: Option<Vec<u8>>)
        ensures
            final(self).reliable() == old(self).reliable(),
            match entry {
                Some(v) => final(self).files() == old(self).files().insert(n@, v@),
                None => final(self).files() == old(self).files().remove(n@),
            },
    {
        let key = String::from_str(n.as_str());
        self.log.push((key, entry));
        proof {
            assert(self.log@.drop_last() =~= old(self).log@);
        }
    }
}

impl SlotStore for MemStore {
    closed spec fn files(&self) -> Map<Seq<char>, Seq<u8>> {
        log_view(self.log@)
    }

    closed spec fn reliable(&self) -> bool {
        self.faults@.len() == 0
    }

    fn stat_len(&self, n: &Name) -> (r: Result<Option<u64>, FsError>) {
        if self.fault_hit(n) {
            return Err(FsError::new(FsErrorKind::PermissionDenied));
        }
        match self.find_last(n) {
            Some(j) => {
                proof {
                    lemma_log_lookup(self.log@, j as int, n@);
                }
                match &self.log[j].1 {
                    Some(v) => Ok(Some(v.len() as u64)),
                    None => Ok(None),
                }
            },
            None => {
                proof {
                    lemma_log_absent(self.log@, n@);
                }
                Ok(None)
            },
        }
    }

    fn read_all(&self, n: &Name) -> (r: Result<Vec<u8>, FsError>) {
        if self.fault_hit(n) {
            return Err(FsError::new(FsErrorKind::PermissionDenied));
        }
        match self.find_last(n) {
            Some(j) => {
                proof {
                    lemma_log_lookup(self.log@, j as int, n@);
                }
                match &self.log[j].1 {
                    Some(v) => {
                        let r = v.clone();
                        proof {
                            assert(r@ =~= v@);
                        }
                        Ok(r)
                    },
                    None => Err(FsError::new(FsErrorKind::NotFound)),
                }
            },
            None => {
                proof {
                    lemma_log_absent(self.log@, n@);
                }
                Err(FsError::new(FsErrorKind::NotFound))
            },
        }
    }

    fn write_all(&mut self, n: &Name, data: &Vec<u8>) -> (r: Result<(), FsError>) {
        if self.fault_hit(n) {
            return Err(FsError::new(FsErrorKind::PermissionDenied));
        }
        let copy = data.clone();
        proof {
            assert(copy@ =~= data@);
        }
        self.put(n, Some(copy));
        Ok(())
    }

    fn truncate(&mut self, n: &Name) -> (r: Result<(), FsError>) {
        if self.fault_hit(n) {
            return Err(FsError::new(FsErrorKind::PermissionDenied));
        }
        let empty: Vec<u8> = Vec::new();
        proof {
            assert(empty@ =~= Seq::<u8>::empty());
        }
        self.put(n, Some(empty));
        Ok(())
    }

    fn unlink(&mut self, n: &Name) -> (r: Result<(), FsError>) {
        if self.fault_hit(n) {
            return Err(FsError::new(FsErrorKind::PermissionDenied));
        }
        self.put(n, None);
        Ok(())
    }
}

} // verus!
