//! The data carried by the ring: opaque byte items, slot names, and the
//! pairing of the two produced by reads and consumed by writes.

use vstd::prelude::*;

verus! {

use vstd::std_specs::convert::FromSpecImpl;
use vstd::string::StringExecFns;

/// Contains raw bytes.
#[derive(Debug, PartialEq, Eq)]
pub struct Item {
    pub raw: Vec<u8>,
}

impl View for Item {
    type V = Seq<u8>;

    open spec fn view(&self) -> Seq<u8> {
        self.raw@
    }
}

impl Clone for Item {
    fn clone(&self) -> (r: Self)
        ensures
            r@ == self@,
    {
        Item { raw: self.raw.clone() }
    }
}

impl Item {
    /// Returns the payload length in bytes.
    pub fn raw_len(&self) -> (r: usize)
        ensures
            r == self@.len(),
    {
        self.raw.len()
    }

    /// Consumes the item and hands back its bytes.
    pub fn into_vec(self) -> (r: Vec<u8>)
        ensures
            r@ == self@,
    {
        self.raw
    }

    /// Borrows the payload bytes.
    pub fn as_bytes(&self) -> (r: &Vec<u8>)
        ensures
            r@ == self@,
    {
        &self.raw
    }
}

impl From<Vec<u8>> for Item {
    fn from(raw: Vec<u8>) -> (r: Self) {
        Item { raw }
    }
}

impl FromSpecImpl<Vec<u8>> for Item {
    open spec fn obeys_from_spec() -> bool {
        true
    }

    open spec fn from_spec(raw: Vec<u8>) -> Item {
        Item { raw }
    }
}

impl From<&[u8]> for Item {
    /// Copies the bytes; the resulting item's view equals the slice's.
    fn from(bytes: &[u8]) -> (r: Self) {
        Item { raw: vstd::slice::slice_to_vec(bytes) }
    }
}

impl FromSpecImpl<&[u8]> for Item {
    open spec fn obeys_from_spec() -> bool {
        false
    }

    open spec fn from_spec(bytes: &[u8]) -> Item {
        arbitrary()
    }
}

/// Contains a name string.
#[derive(Debug, PartialEq, Eq)]
pub struct Name {
    pub name: String,
}

impl View for Name {
    type V = Seq<char>;

    open spec fn view(&self) -> Seq<char> {
        self.name@
    }
}

impl DeepView for Name {
    type V = Seq<char>;

    open spec fn deep_view(&self) -> Seq<char> {
        self.name@
    }
}

impl Clone for Name {
    fn clone(&self) -> (r: Self)
        ensures
            r@ == self@,
    {
        Name { name: self.name.clone() }
    }
}

impl Name {
    pub fn as_str(&self) -> (r: &str)
        ensures
            r@ == self@,
    {
        self.name.as_str()
    }
}

impl From<String> for Name {
    fn from(name: String) -> (r: Self) {
        Name { name }
    }
}

impl FromSpecImpl<String> for Name {
    open spec fn obeys_from_spec() -> bool {
        true
    }

    open spec fn from_spec(name: String) -> Name {
        Name { name }
    }
}

impl From<&str> for Name {
    /// Copies the string; the resulting name's view equals the argument's.
    fn from(s: &str) -> (r: Self) {
        Name { name: String::from_str(s) }
    }
}

impl FromSpecImpl<&str> for Name {
    open spec fn obeys_from_spec() -> bool {
        false
    }

    open spec fn from_spec(s: &str) -> Name {
        arbitrary()
    }
}

impl From<Name> for String {
    fn from(n: Name) -> (r: Self) {
        n.name
    }
}

impl FromSpecImpl<Name> for String {
    open spec fn obeys_from_spec() -> bool {
        true
    }

    open spec fn from_spec(n: Name) -> String {
        n.name
    }
}

/// A named `Item` with `Name`.
#[derive(Debug, PartialEq, Eq)]
pub struct NamedItem {
    pub item: Item,
    pub name: Name,
}

impl Clone for NamedItem {
    fn clone(&self) -> (r: Self)
        ensures
            r.name@ == self.name@,
            r.item@ == self.item@,
    {
        NamedItem { item: self.item.clone(), name: self.name.clone() }
    }
}

impl NamedItem {
    pub fn new(item: Item, name: Name) -> (r: Self)
        ensures
            r.name == name,
            r.item == item,
    {
        Self { item, name }
    }

    pub fn as_name(&self) -> (r: &Name)
        ensures
            r == self.name,
    {
        &self.name
    }

    /// Borrows the item half of the pair.
    pub fn as_item(&self) -> (r: &Item)
        ensures
            r == self.item,
    {
        &self.item
    }

    pub fn into_pair(self) -> (r: (Name, Item))
        ensures
            r.0 == self.name,
            r.1 == self.item,
    {
        (self.name, self.item)
    }

    pub fn into_item(self) -> (r: Item)
        ensures
            r == self.item,
    {
        self.item
    }

    /// The name's view.
    pub open spec fn spec_name(&self) -> Seq<char> {
        self.name@
    }

    /// The item's view.
    pub open spec fn spec_item(&self) -> Seq<u8> {
        self.item@
    }
}

impl From<NamedItem> for Item {
    fn from(named: NamedItem) -> (r: Self) {
        named.item
    }
}

impl FromSpecImpl<NamedItem> for Item {
    open spec fn obeys_from_spec() -> bool {
        true
    }

    open spec fn from_spec(named: NamedItem) -> Item {
        named.item
    }
}

impl From<NamedItem> for Name {
    fn from(named: NamedItem) -> (r: Self) {
        named.name
    }
}

impl FromSpecImpl<NamedItem> for Name {
    open spec fn obeys_from_spec() -> bool {
        true
    }

    open spec fn from_spec(named: NamedItem) -> Name {
        named.name
    }
}

} // verus!
