//! Candidate name sources for the lister.

use vstd::prelude::*;

verus! {

use crate::evt::Event;
use crate::integer::u::{hex_name_of, u2n3_hex};
use crate::item::Name;
use crate::list::NameList;

/// Every name of the canonical alphabet, in enumeration order `00`..`ff`.
pub open spec fn all_hex_names() -> Seq<Seq<char>> {
    Seq::new(256, |i: int| hex_name_of(i as u8))
}

/// Yields all 256 names of the canonical alphabet, independent of the
/// directory's contents.
pub struct AllNamesU8 {}

impl NameList for AllNamesU8 {
    open spec fn names_spec(&self) -> Option<Seq<Seq<char>>> {
        Some(all_hex_names())
    }

    fn names(&self) -> (r: Result<Vec<Name>, Event>) {
        let mut out: Vec<Name> = Vec::new();
        let mut i: usize = 0;
        while i < 256
            invariant
                i <= 256,
                out@.len() == i,
                forall|j: int| 0 <= j < i ==> (#[trigger] out@[j])@ == hex_name_of(j as u8),
            decreases 256 - i,
        {
            out.push(u2n3_hex(i as u8));
            i = i + 1;
        }
        proof {
            assert forall|j: int| 0 <= j < 256 implies out.deep_view()[j] == all_hex_names()[j] by {
                assert(out@[j]@ == hex_name_of(j as u8));
            }
            assert(out.deep_view() =~= all_hex_names());
        }
        Ok(out)
    }
}

/// The enumeration holds exactly the names of the alphabet.
pub proof fn lemma_all_hex_names_contains(n: Seq<char>)
    ensures
        all_hex_names().contains(n) <==> crate::integer::u::is_hex_name(n),
{
    if all_hex_names().contains(n) {
        let i = choose|i: int| 0 <= i < 256 && all_hex_names()[i] == n;
        crate::integer::u::lemma_hex_name_roundtrip(i as u8);
    }
    if crate::integer::u::is_hex_name(n) {
        crate::integer::u::lemma_hex_name_complete(n);
        let b = crate::integer::u::hex_byte_of(n);
        assert(all_hex_names()[b as int] == n);
    }
}

/// The enumeration names each slot once.
pub proof fn lemma_all_hex_names_distinct()
    ensures
        forall|i: int, j: int|
            0 <= i < j < 256 ==> #[trigger] all_hex_names()[i] != #[trigger] all_hex_names()[j],
{
    assert forall|i: int, j: int|
        0 <= i < j < 256 implies #[trigger] all_hex_names()[i] != #[trigger] all_hex_names()[j] by {
        if all_hex_names()[i] == all_hex_names()[j] {
            crate::integer::u::lemma_hex_name_injective(i as u8, j as u8);
        }
    }
}

/// Creates new trivial list getter over the whole alphabet.
pub fn list_names_u8_all_new() -> (r: AllNamesU8) {
    AllNamesU8 {}
}

/// A name source with a fixed outcome, for stubbing enumeration out.
pub struct FixedNames {
    pub result: Result<Vec<Name>, Event>,
}

impl NameList for FixedNames {
    open spec fn names_spec(&self) -> Option<Seq<Seq<char>>> {
        match self.result {
            Ok(v) => Some(v.deep_view()),
            Err(_) => None,
        }
    }

    open spec fn fixed_error(&self) -> Option<Event> {
        match self.result {
            Err(ev) => Some(ev),
            Ok(_) => None,
        }
    }

    fn names(&self) -> (r: Result<Vec<Name>, Event>) {
        match &self.result {
            Ok(v) => {
                let mut out: Vec<Name> = Vec::new();
                let mut i: usize = 0;
                let len = v.len();
                while i < len
                    invariant
                        len == v@.len(),
                        i <= len,
                        out@.len() == i,
                        forall|j: int| 0 <= j < i ==> (#[trigger] out@[j])@ == v@[j]@,
                    decreases len - i,
                {
                    out.push(v[i].clone());
                    i = i + 1;
                }
                proof {
                    assert forall|j: int| 0 <= j < len implies out.deep_view()[j]
                        == v.deep_view()[j] by {
                        assert(out@[j]@ == v@[j]@);
                    }
                    assert(out.deep_view() =~= v.deep_view());
                }
                Ok(out)
            },
            Err(e) => Err(e.clone()),
        }
    }
}

/// Creates a name source that always yields the given outcome.
pub fn list_names_fixed_new(result: Result<Vec<Name>, Event>) -> (r: FixedNames)
    ensures
        r.result == result,
{
    FixedNames { result }
}

} // verus!
