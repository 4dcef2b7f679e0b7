//! Resolution of resource names against a root directory.  Opening and
//! reading the resolved files is the host program's business; the
//! library only computes paths.

use vstd::prelude::*;

use vstd::string::StringExecFns;
use vstd::string::StrSliceExecFns;

verus! {

/// A path is absolute when it starts with the separator, as on
/// Unix-like hosts; such a name is taken as is instead of being
/// resolved against the root.
pub open spec fn is_absolute_path(s: Seq<char>) -> bool {
    s.len() > 0 && s[0] == '/'
}

/// A root directory against which resource names are resolved.
#[derive(Debug)]
pub struct Resource {
    pub root: String,
}

impl Resource {
    /// A resolver rooted at the given directory.
    pub fn new(root: String) -> (r: Self)
        ensures
            r.root@ == root@,
    {
        Resource { root }
    }

    /// Resolves `file` against the root: an absolute name is returned
    /// unchanged, a relative one is appended to the root behind a
    /// separator.
    pub fn join(&self, file: &str) -> (r: String)
        ensures
            is_absolute_path(file@) ==> r@ == file@,
            !is_absolute_path(file@) ==> r@ == self.root@ + "/"@ + file@,
    {
        let len = file.unicode_len();
        if len > 0 && file.get_char(0) == '/' {
            file.to_owned()
        } else {
            let mut r = self.root.clone();
            r.append("/");
            r.append(file);
            r
        }
    }
}

} // verus!
