//! The path builder: joins the ring's directory with a slot name.
//!
//! The verified components key the store by slot name alone; a
//! directory-backed store uses this builder to place each slot's file.

use vstd::prelude::*;

verus! {

use vstd::string::StrSliceExecFns;
use vstd::string::StringExecFns;

use crate::item::Name;

/// A single-level join of a directory and a basename.
pub open spec fn joined_path(dir: Seq<char>, name: Seq<char>) -> Seq<char> {
    if dir.len() == 0 {
        name
    } else if dir.last() == '/' {
        dir + name
    } else {
        dir + "/"@ + name
    }
}

/// Joins a configured directory with slot names.
pub struct FullpathBuilder {
    pub dir: String,
}

/// Creates fullpath builder which converts a name into a path below
/// `dirname`.
pub fn fullpath_builder_new(dirname: String) -> (r: FullpathBuilder)
    ensures
        r.dir == dirname,
{
    FullpathBuilder { dir: dirname }
}

impl FullpathBuilder {
    /// The path of the named slot's file.
    pub fn build(&self, name: &Name) -> (r: String)
        ensures
            r@ == joined_path(self.dir@, name@),
    {
        let len = self.dir.as_str().unicode_len();
        if len == 0 {
            return String::from_str(name.as_str());
        }
        let last = self.dir.as_str().get_char(len - 1);
        if last == '/' {
            self.dir.clone().concat(name.as_str())
        } else {
            let r = self.dir.clone().concat("/").concat(name.as_str());
            proof {
                assert(r@ =~= joined_path(self.dir@, name@));
            }
            r
        }
    }
}

} // verus!
