//! Byte-driven name sources over the canonical alphabet: sequential
//! enumeration, an injectable byte stream, and a cyclic deterministic
//! stream for reproducible runs.

use vstd::prelude::*;

verus! {

use vstd::string::StringExecFns;

use crate::evt::Event;
use crate::integer::u::{hex_name_of, succ_byte, u2n3_hex};
use crate::item::Name;
use crate::next::NameSource;

/// The byte reached from `init` after `k` cyclic increments.
pub open spec fn byte_after(init: u8, k: int) -> u8
    decreases k,
{
    if k <= 0 {
        init
    } else {
        succ_byte(byte_after(init, k - 1))
    }
}

/// Cyclic successor: byte plus one, wrapping to zero.
pub fn get_next_u8(prev: u8) -> (r: u8)
    ensures
        r == succ_byte(prev),
{
    if prev == 255 {
        0
    } else {
        prev + 1
    }
}

/// The 256 names of the alphabet starting at `init`, in cyclic order.
pub fn next_u8_iter_new(init: u8) -> (r: Vec<Name>)
    ensures
        r@.len() == 256,
        forall|j: int| 0 <= j < 256 ==> (#[trigger] r@[j])@ == hex_name_of(byte_after(init, j)),
{
    let mut out: Vec<Name> = Vec::new();
    let mut cur = init;
    let mut i: usize = 0;
    while i < 256
        invariant
            i <= 256,
            out@.len() == i,
            cur == byte_after(init, i as int),
            forall|j: int| 0 <= j < i ==> (#[trigger] out@[j])@ == hex_name_of(byte_after(init, j)),
        decreases 256 - i,
    {
        out.push(u2n3_hex(cur));
        cur = get_next_u8(cur);
        i = i + 1;
    }
    out
}

/// A source of bytes driving random slot probing.
pub trait U8Source: Sized {
    /// Whether drawing bytes can never fail.  Defaults to promising
    /// nothing, for implementations outside the verifier's view.
    open spec fn reliable(&self) -> bool {
        false
    }

    /// Draws the next byte.  An error outcome is never `Success`.
    fn next_u8(&mut self) -> (r: Result<u8, Event>)
        ensures
            final(self).reliable() == old(self).reliable(),
            old(self).reliable() ==> r is Ok,
            r matches Err(e) ==> e != Event::Success,
    ;
}

/// Draws bytes from a finite buffer, in order; exhaustion fails.
pub struct BufSource {
    pub bytes: Vec<u8>,
    pub pos: usize,
}

impl U8Source for BufSource {
    open spec fn reliable(&self) -> bool {
        false
    }

    fn next_u8(&mut self) -> (r: Result<u8, Event>) {
        if self.pos < self.bytes.len() {
            let b = self.bytes[self.pos];
            self.pos = self.pos + 1;
            Ok(b)
        } else {
            Err(Event::UnexpectedError(String::from_str("Unable to read next u8 from source")))
        }
    }
}

/// A byte counter that wraps around: a deterministic stream that never
/// fails, for reproducible runs.
pub struct CyclicU8Source {
    pub state: u8,
}

impl U8Source for CyclicU8Source {
    open spec fn reliable(&self) -> bool {
        true
    }

    fn next_u8(&mut self) -> (r: Result<u8, Event>) {
        let b = self.state;
        self.state = get_next_u8(b);
        Ok(b)
    }
}

/// Creates the deterministic wrapping byte source starting at `init`.
pub fn cyclic_u8_source_new(init: u8) -> (r: CyclicU8Source)
    ensures
        r.state == init,
{
    CyclicU8Source { state: init }
}

/// Renders drawn bytes as names of the alphabet.
pub struct NextRandomU8<R: U8Source> {
    pub src: R,
}

impl<R: U8Source> NameSource for NextRandomU8<R> {
    open spec fn reliable(&self) -> bool {
        self.src.reliable()
    }

    fn get_name(&mut self) -> (r: Result<Name, Event>) {
        match self.src.next_u8() {
            Ok(b) => {
                let n = u2n3_hex(b);
                proof {
                    crate::integer::u::lemma_hex_name_roundtrip(b);
                }
                Ok(n)
            },
            Err(e) => Err(e),
        }
    }
}

/// Creates new next generator which renders bytes of the given source as
/// names.
pub fn next_random_u8_new<R: U8Source>(random_source: R) -> (r: NextRandomU8<R>)
    ensures
        r.src == random_source,
{
    NextRandomU8 { src: random_source }
}

/// Creates new next generator which draws the given bytes in order.
pub fn next_random_u8_new_from_read(bytes: Vec<u8>) -> (r: NextRandomU8<BufSource>)
    ensures
        r.src.bytes == bytes,
        r.src.pos == 0,
{
    NextRandomU8 { src: BufSource { bytes, pos: 0 } }
}

} // verus!
