//! The dynamic configuration document: a tree of string scalars, lists and
//! tables, as parsed from a structured-data file. Scalars of other kinds are
//! kept as `Other` so that extraction can report a precise type mismatch.

use vstd::prelude::*;

verus! {

/// One node of the dynamic document tree.
pub enum DocValue {
    /// A string scalar.
    Str(String),
    /// An ordered list of nodes.
    List(Vec<DocValue>),
    /// A nested table of key/value entries, in document order.
    Table(Vec<DocEntry>),
    /// A scalar of a kind the schema never accepts (number, boolean, date).
    Other,
}

/// One key/value entry of a table.
pub struct DocEntry {
    pub key: String,
    pub value: DocValue,
}

/// A whole document: the top-level table.
pub struct Document {
    pub entries: Vec<DocEntry>,
}

/// The value bound to `key` in `entries`, first binding wins.
pub open spec fn spec_lookup(entries: Seq<DocEntry>, key: Seq<char>) -> Option<DocValue>
    decreases entries.len(),
{
    if entries.len() == 0 {
        None
    } else if entries[0].key@ == key {
        Some(entries[0].value)
    } else {
        spec_lookup(entries.drop_first(), key)
    }
}

impl Document {
    /// Look a top-level key up, first binding wins.
    pub fn lookup<'a>(&'a self, key: &String) -> (r: Option<&'a DocValue>)
        ensures
            match r {
                Some(v) => spec_lookup(self.entries@, key@) == Some(*v),
                None => spec_lookup(self.entries@, key@) is None,
            },
    {
        lookup_in(&self.entries, key)
    }
}

/// Look `key` up in a table's entries, first binding wins.
pub fn lookup_in<'a>(entries: &'a Vec<DocEntry>, key: &String) -> (r: Option<&'a DocValue>)
    ensures
        match r {
            Some(v) => spec_lookup(entries@, key@) == Some(*v),
            None => spec_lookup(entries@, key@) is None,
        },
{
    let n = entries.len();
    proof {
        assert(entries@.skip(0) =~= entries@);
    }
    for i in 0..n
        invariant
            n == entries@.len(),
            spec_lookup(entries@, key@) == spec_lookup(entries@.skip(i as int), key@),
    {
        proof {
            assert(entries@.skip(i as int).len() > 0);
            assert(entries@.skip(i as int)[0] == entries@[i as int]);
        }
        if entries[i].key == *key {
            return Some(&entries[i].value);
        }
        proof {
            assert(entries@.skip(i as int).drop_first() =~= entries@.skip(i + 1));
        }
    }
    proof {
        assert(entries@.skip(n as int).len() == 0);
    }
    None
}

} // verus!
