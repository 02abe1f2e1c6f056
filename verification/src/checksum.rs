//! The pluggable integrity layer: a checksum computed over a payload and
//! appended to it on write, re-computed and compared on read.

use vstd::prelude::*;

verus! {

/// Computes the trailing checksum for item payloads.
///
/// `model` names the checksum bytes for every payload; `compute`
/// realizes exactly that.  Writer and reader of one ring must be
/// configured with equal checksum functions, or every occupied slot
/// reads as broken.
pub trait Checksum: Sized {
    /// The checksum bytes for the given payload.
    spec fn model(&self, data: Seq<u8>) -> Seq<u8>;

    /// Computes the checksum of a payload.
    fn compute(&self, data: &Vec<u8>) -> (r: Vec<u8>)
        ensures
            r@ == self.model(data@),
    ;
}

/// The empty checksum: integrity off.
pub struct NopChecksum {}

impl Checksum for NopChecksum {
    open spec fn model(&self, data: Seq<u8>) -> Seq<u8> {
        Seq::empty()
    }

    fn compute(&self, data: &Vec<u8>) -> (r: Vec<u8>) {
        let r: Vec<u8> = Vec::new();
        proof {
            assert(r@ =~= Seq::<u8>::empty());
        }
        r
    }
}

/// Creates the checksum that appends nothing.
pub fn checksum_nop() -> (r: NopChecksum) {
    NopChecksum {}
}

/// A fixed byte string appended regardless of the payload.
pub struct ConstChecksum {
    pub bytes: Vec<u8>,
}

impl Checksum for ConstChecksum {
    open spec fn model(&self, data: Seq<u8>) -> Seq<u8> {
        self.bytes@
    }

    fn compute(&self, data: &Vec<u8>) -> (r: Vec<u8>) {
        let r = self.bytes.clone();
        proof {
            assert(r@ =~= self.bytes@);
        }
        r
    }
}

/// Creates a checksum that always yields the given bytes.
pub fn checksum_const_new(bytes: Vec<u8>) -> (r: ConstChecksum)
    ensures
        r.bytes == bytes,
{
    ConstChecksum { bytes }
}

/// The byte sum of a payload, modulo 256.
pub open spec fn byte_sum_of(data: Seq<u8>) -> int
    decreases data.len(),
{
    if data.len() == 0 {
        0
    } else {
        (byte_sum_of(data.drop_last()) + data.last()) % 256
    }
}

/// A one-byte additive checksum: the payload's byte sum modulo 256.
pub struct SumChecksum {}

impl Checksum for SumChecksum {
    open spec fn model(&self, data: Seq<u8>) -> Seq<u8> {
        seq![byte_sum_of(data) as u8]
    }

    fn compute(&self, data: &Vec<u8>) -> (r: Vec<u8>) {
        let mut acc: u8 = 0;
        let mut i: usize = 0;
        let len = data.len();
        while i < len
            invariant
                len == data@.len(),
                i <= len,
                acc == byte_sum_of(data@.take(i as int)),
            decreases len - i,
        {
            proof {
                assert(data@.take(i + 1).drop_last() =~= data@.take(i as int));
                assert(data@.take(i + 1).last() == data@[i as int]);
            }
            let s: u16 = acc as u16 + data[i] as u16;
            acc = (s % 256) as u8;
            i = i + 1;
        }
        proof {
            assert(data@.take(len as int) =~= data@);
        }
        let mut r: Vec<u8> = Vec::new();
        r.push(acc);
        proof {
            assert(r@ =~= seq![byte_sum_of(data@) as u8]);
        }
        r
    }
}

/// Creates the one-byte additive checksum.
pub fn checksum_sum_new() -> (r: SumChecksum) {
    SumChecksum {}
}

} // verus!
