//! Error taxonomy shared by embedders that report ring failures as text.

use vstd::prelude::*;

verus! {

use vstd::std_specs::convert::FromSpecImpl;
use vstd::string::StringExecFns;

/// A ring-level failure, for embedders that prefer errors over events.
#[derive(Debug)]
pub enum RingError {
    /// Nothing to get, list or remove.
    NoEntry,

    /// No space to push an item.
    NoSpace,

    /// Must not overwrite.
    Exist,

    /// Unable to check item existence(I/O error?).
    ItemMayExists(String),

    /// An item exists, but broken(power failure?).
    Broken(String),

    /// An item exists, but unreadable(bit rot?).
    InvalidItem(String),

    /// No perm to write/remove an item.
    Locked(String),
}

/// The text an error is rendered as.
pub open spec fn ring_error_text(e: RingError) -> Seq<char> {
    match e {
        RingError::NoEntry => "No such item"@,
        RingError::NoSpace => "No more space"@,
        RingError::Exist => "Must not overwrite"@,
        RingError::Broken(s) => "Broken item: "@ + s@,
        RingError::ItemMayExists(s) => "Item may exists or missing: "@ + s@,
        RingError::InvalidItem(s) => "Item unreadable: "@ + s@,
        RingError::Locked(s) => "Unable to remove: "@ + s@,
    }
}

impl RingError {
    /// Renders the error as a diagnostic line.
    pub fn message(self) -> (r: String)
        ensures
            r@ == ring_error_text(self),
    {
        match self {
            RingError::NoEntry => String::from_str("No such item"),
            RingError::NoSpace => String::from_str("No more space"),
            RingError::Exist => String::from_str("Must not overwrite"),
            RingError::Broken(s) => String::from_str("Broken item: ").concat(s.as_str()),
            RingError::ItemMayExists(s) => String::from_str("Item may exists or missing: ").concat(
                s.as_str(),
            ),
            RingError::InvalidItem(s) => String::from_str("Item unreadable: ").concat(s.as_str()),
            RingError::Locked(s) => String::from_str("Unable to remove: ").concat(s.as_str()),
        }
    }
}

impl From<RingError> for String {
    /// Renders as `RingError::message` does.
    fn from(e: RingError) -> (r: Self) {
        e.message()
    }
}

impl FromSpecImpl<RingError> for String {
    open spec fn obeys_from_spec() -> bool {
        false
    }

    open spec fn from_spec(e: RingError) -> String {
        arbitrary()
    }
}

} // verus!
