//! The caller-supplied table that resolves short type names to qualified
//! paths.

use crate::syntax::{Path, PathView};
use crate::text::str_eq;
use vstd::prelude::*;

verus! {

/// One entry of the table.
#[derive(Debug)]
struct Mapping {
    ident: String,
    path: Path,
}

/// A map from a short type identifier to its fully qualified path.
///
/// No identifier occurs twice.
#[derive(Debug)]
pub struct QualifiedMappings {
    entries: Vec<Mapping>,
}

/// Whether no identifier occurs twice among `entries`.
spec fn idents_distinct(entries: Seq<Mapping>) -> bool {
    forall|i: int, j: int| 0 <= i < j < entries.len() ==> entries[i].ident@ != entries[j].ident@
}

/// Whether `entries` has an entry for `ident`.
spec fn has_entry(entries: Seq<Mapping>, ident: Seq<char>) -> bool {
    exists|i: int| 0 <= i < entries.len() && #[trigger] entries[i].ident@ == ident
}

/// The index of an entry for `ident`.
spec fn entry_index(entries: Seq<Mapping>, ident: Seq<char>) -> int {
    choose|i: int| 0 <= i < entries.len() && #[trigger] entries[i].ident@ == ident
}

/// The map that `entries` stands for.
spec fn entries_map(entries: Seq<Mapping>) -> Map<Seq<char>, PathView> {
    Map::new(
        |ident: Seq<char>| has_entry(entries, ident),
        |ident: Seq<char>| entries[entry_index(entries, ident)].path@,
    )
}

/// Among distinct identifiers each entry is the one found for its own
/// identifier.
proof fn lemma_entry_found(entries: Seq<Mapping>, at: int)
    requires
        idents_distinct(entries),
        0 <= at < entries.len(),
    ensures
        has_entry(entries, entries[at].ident@),
        entry_index(entries, entries[at].ident@) == at,
        entries_map(entries).contains_key(entries[at].ident@),
        entries_map(entries)[entries[at].ident@] == entries[at].path@,
{
    let ident = entries[at].ident@;
    assert(entries[at].ident@ == ident);
    let found = entry_index(entries, ident);
    assert(0 <= found < entries.len() && entries[found].ident@ == ident);
    if found < at {
        assert(entries[found].ident@ != entries[at].ident@);
    } else if at < found {
        assert(entries[at].ident@ != entries[found].ident@);
    }
}

impl View for QualifiedMappings {
    type V = Map<Seq<char>, PathView>;

    closed spec fn view(&self) -> Map<Seq<char>, PathView> {
        entries_map(self.entries@)
    }
}

impl QualifiedMappings {
    #[verifier::type_invariant]
    spec fn well_formed(self) -> bool {
        idents_distinct(self.entries@)
    }

    /// An empty table.
    pub fn new() -> (mappings: QualifiedMappings)
        ensures
            mappings@ == Map::<Seq<char>, PathView>::empty(),
    {
        let mappings = QualifiedMappings { entries: Vec::new() };
        assert(mappings@ =~= Map::<Seq<char>, PathView>::empty());
        mappings
    }

    /// The index of the entry for `ident`, or the number of entries if there
    /// is none.
    fn find(&self, ident: &str) -> (at: usize)
        ensures
            at <= self.entries.len(),
            at < self.entries.len() ==> self.entries[at as int].ident@ == ident@,
            at == self.entries.len() ==> !has_entry(self.entries@, ident@),
    {
        let mut i: usize = 0;
        while i < self.entries.len()
            invariant
                i <= self.entries.len(),
                forall|j: int| 0 <= j < i ==> self.entries[j].ident@ != ident@,
            decreases self.entries.len() - i,
        {
            if str_eq(self.entries[i].ident.as_str(), ident) {
                return i;
            }
            i += 1;
        }
        i
    }

    /// The path that `ident` is mapped to, if any.
    pub fn get(&self, ident: &str) -> (found: Option<&Path>)
        ensures
            match found {
                Some(path) => self@.contains_key(ident@) && path@ == self@[ident@],
                None => !self@.contains_key(ident@),
            },
    {
        proof {
            use_type_invariant(self);
        }
        let at = self.find(ident);
        if at < self.entries.len() {
            proof {
                lemma_entry_found(self.entries@, at as int);
            }
            Some(&self.entries[at].path)
        } else {
            None
        }
    }

    /// Maps `ident` to `path` and returns the path that it was mapped to
    /// before, if any.
    pub fn insert(&mut self, ident: String, path: Path) -> (previous: Option<Path>)
        ensures
            final(self)@ == old(self)@.insert(ident@, path@),
            match previous {
                Some(before) => old(self)@.contains_key(ident@) && before@ == old(self)@[ident@],
                None => !old(self)@.contains_key(ident@),
            },
    {
        proof {
            use_type_invariant(&*self);
        }
        let at = self.find(ident.as_str());
        // The entries are taken out and put back as a whole, so that `self`
        // is a table with distinct identifiers at every point.
        let mut taken = QualifiedMappings { entries: Vec::new() };
        std::mem::swap(self, &mut taken);
        let QualifiedMappings { mut entries } = taken;
        let ghost before = entries@;
        let ghost key = ident@;
        let ghost value = path@;
        let previous = if at < entries.len() {
            proof {
                lemma_entry_found(before, at as int);
            }
            let mut entry = Mapping { ident, path };
            std::mem::swap(&mut entries[at], &mut entry);
            Some(entry.path)
        } else {
            entries.push(Mapping { ident, path });
            None
        };
        let ghost after = entries@;
        proof {
            let slot = at as int;
            assert(forall|i: int|
                0 <= i < before.len() ==> #[trigger] after[i].ident@ == before[i].ident@);
            assert forall|other: Seq<char>|
                #![trigger entries_map(after).contains_key(other)]
                #![trigger entries_map(after)[other]]
                {
                    &&& entries_map(after).contains_key(other) == entries_map(before).insert(
                        key,
                        value,
                    ).contains_key(other)
                    &&& entries_map(after).contains_key(other) ==> entries_map(after)[other]
                        == entries_map(before).insert(key, value)[other]
                } by {
                if other == key {
                    lemma_entry_found(after, slot);
                } else if has_entry(before, other) {
                    let found = entry_index(before, other);
                    lemma_entry_found(before, found);
                    lemma_entry_found(after, found);
                } else if has_entry(after, other) {
                    let found = entry_index(after, other);
                    assert(before[found].ident@ == other);
                }
            }
            assert(entries_map(after) =~= entries_map(before).insert(key, value));
        }
        *self = QualifiedMappings { entries };
        previous
    }
}

impl Default for QualifiedMappings {
    fn default() -> (mappings: QualifiedMappings)
        ensures
            mappings@ == Map::<Seq<char>, PathView>::empty(),
    {
        QualifiedMappings::new()
    }
}

} // verus!
