//! The allowlist that is kept in a file beside the server.
//!
//! Reading and writing the file is the caller's part. This module holds the
//! entries, the rule for adding one and the name of the temporary file
//! through which the list is replaced.
use vstd::prelude::*;
use vstd::string::*;

use crate::text::same_text;

verus! {

/// One player on the allowlist.
#[derive(Debug, Clone, PartialEq, Eq)]
pub struct AllowlistEntry {
    pub name: String,
    pub ignores_player_limit: bool,
}

/// Whether some entry of the list has the name `name`.
pub open spec fn has_name(entries: Seq<AllowlistEntry>, name: Seq<char>) -> bool {
    exists|i: int| 0 <= i < entries.len() && (#[trigger] entries[i]).name@ == name
}

/// Whether no name occurs twice in the list.
pub open spec fn distinct_names(entries: Seq<AllowlistEntry>) -> bool {
    forall|i: int, j: int|
        0 <= i < j < entries.len() ==> (#[trigger] entries[i]).name@ != (#[trigger] entries[j]).name@
}

/// Keeper of the allowlist file at a path.
pub struct AllowlistManager {
    path: String,
}

impl AllowlistManager {
    /// The path of the allowlist file.
    pub closed spec fn file(&self) -> Seq<char> {
        self.path@
    }

    /// A manager for the allowlist file at `path`.
    pub fn new(path: String) -> (r: Self)
        ensures
            r.file() == path@,
    {
        Self { path }
    }

    /// The path of the allowlist file.
    pub fn path(&self) -> (r: &str)
        ensures
            r@ == self.file(),
    {
        self.path.as_str()
    }

    /// The path of the temporary file that a new list is written to before
    /// it takes the place of the old one: the path of the list with `.tmp`
    /// behind it.
    pub fn temp_path(&self) -> (r: String)
        ensures
            r@ == self.file() + ".tmp"@,
    {
        let mut r = String::from_str(self.path.as_str());
        r.append(".tmp");
        r
    }

    /// Puts the player `name` on the list, unless an entry of that name is
    /// there already. A new entry goes to the end and does not ignore the
    /// player limit. Returns whether the list has changed and has to be
    /// written back.
    pub fn add_entry(&self, entries: &mut Vec<AllowlistEntry>, name: String) -> (added: bool)
        ensures
            added == !has_name(old(entries)@, name@),
            added ==> final(entries)@ == old(entries)@.push(
                AllowlistEntry { name, ignores_player_limit: false },
            ),
            !added ==> final(entries)@ == old(entries)@,
            has_name(final(entries)@, name@),
            distinct_names(old(entries)@) ==> distinct_names(final(entries)@),
    {
        let mut i: usize = 0;
        while i < entries.len()
            invariant
                i <= entries@.len(),
                entries@ == old(entries)@,
                forall|k: int| 0 <= k < i ==> (#[trigger] entries@[k]).name@ != name@,
            decreases entries@.len() - i,
        {
            if same_text(entries[i].name.as_str(), name.as_str()) {
                return false;
            }
            i += 1;
        }
        entries.push(AllowlistEntry { name, ignores_player_limit: false });
        assert(entries@.last().name@ == name@);
        true
    }
}

} // verus!
