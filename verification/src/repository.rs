//! The repository of address lookup tables: for the key of a table, the
//! addresses that the table was seen to hold, in order.
//!
//! The library reads one snapshot of the repository per block. Whoever owns
//! the repository fills the snapshot.

use crate::views::lemma_deep_view_push;
use vstd::prelude::*;

verus! {

/// The content that a repository holds for one table.
#[derive(Clone, Debug, PartialEq, Eq)]
pub struct TableEntry {
    pub key: String,
    pub addresses: Vec<String>,
}

/// The model of [`TableEntry`].
pub struct TableEntryView {
    pub key: Seq<char>,
    pub addresses: Seq<Seq<char>>,
}

impl View for TableEntry {
    type V = TableEntryView;

    open spec fn view(&self) -> TableEntryView {
        TableEntryView { key: self.key@, addresses: self.addresses.deep_view() }
    }
}

impl DeepView for TableEntry {
    type V = TableEntryView;

    open spec fn deep_view(&self) -> TableEntryView {
        self@
    }
}

/// The map that a list of entries stands for: a later entry replaces an
/// earlier one with the same key.
pub open spec fn entries_map(entries: Seq<TableEntryView>) -> Map<Seq<char>, Seq<Seq<char>>>
    decreases entries.len(),
{
    if entries.len() == 0 {
        Map::empty()
    } else {
        entries_map(entries.drop_last()).insert(entries.last().key, entries.last().addresses)
    }
}

/// A snapshot of the repository. Its model is a map from table keys to table
/// contents.
#[derive(Clone, Debug, PartialEq, Eq)]
pub struct LookupRepository {
    entries: Vec<TableEntry>,
}

impl View for LookupRepository {
    type V = Map<Seq<char>, Seq<Seq<char>>>;

    closed spec fn view(&self) -> Map<Seq<char>, Seq<Seq<char>>> {
        entries_map(self.entries.deep_view())
    }
}

impl LookupRepository {
    /// A snapshot that knows no table.
    pub fn new() -> (repository: LookupRepository)
        ensures
            repository@ == Map::<Seq<char>, Seq<Seq<char>>>::empty(),
    {
        LookupRepository { entries: Vec::new() }
    }

    /// Records the content of a table, in place of what was recorded for it
    /// before.
    pub fn insert(&mut self, key: String, addresses: Vec<String>)
        ensures
            final(self)@ == old(self)@.insert(key@, addresses.deep_view()),
    {
        let entry = TableEntry { key, addresses };
        let ghost before = self.entries;
        self.entries.push(entry);
        proof {
            lemma_deep_view_push(before, self.entries, entry);
            assert(self.entries.deep_view().drop_last() =~= before.deep_view());
        }
    }

    /// The content recorded for the table with this key, if any.
    pub fn get_resolved(&self, table_key: &String) -> (content: Option<&Vec<String>>)
        ensures
            match content {
                Some(addresses) => self@.contains_key(table_key@) && addresses.deep_view()
                    == self@[table_key@],
                None => !self@.contains_key(table_key@),
            },
    {
        let ghost all = self.entries.deep_view();
        let mut i: usize = self.entries.len();
        assert(all.take(i as int) =~= all);
        while i > 0
            invariant
                i <= self.entries.len(),
                all == self.entries.deep_view(),
                entries_map(all).contains_key(table_key@) == entries_map(
                    all.take(i as int),
                ).contains_key(table_key@),
                entries_map(all).contains_key(table_key@) ==> entries_map(all)[table_key@]
                    == entries_map(all.take(i as int))[table_key@],
            decreases i,
        {
            i -= 1;
            assert(all.take(i + 1).drop_last() =~= all.take(i as int));
            if self.entries[i].key == *table_key {
                return Some(&self.entries[i].addresses);
            }
        }
        None
    }
}

} // verus!
