//! The assets that can be served: a table from path to content and digest.

use vstd::prelude::*;
use vstd::string::*;

verus! {

/// What is served for a path: the content, and the digest that was computed
/// from it when the table was made.
pub struct AssetModel {
    pub bytes: Seq<u8>,
    pub digest: Seq<u8>,
}

/// One asset: its path, relative and without a leading `/`, its content,
/// and the digest of the content.
#[derive(Debug, Clone)]
pub struct AssetEntry {
    pub path: String,
    pub bytes: Vec<u8>,
    pub digest: Vec<u8>,
}

impl View for AssetEntry {
    type V = AssetModel;

    open spec fn view(&self) -> AssetModel {
        AssetModel { bytes: self.bytes@, digest: self.digest@ }
    }
}

impl AssetEntry {
    /// An asset with the given path, content and digest of the content.
    pub fn new(path: &str, bytes: Vec<u8>, digest: Vec<u8>) -> (entry: AssetEntry)
        ensures
            entry.path@ == path@,
            entry@ == (AssetModel { bytes: bytes@, digest: digest@ }),
    {
        AssetEntry { path: String::from_str(path), bytes, digest }
    }
}

/// The table that a list of entries stands for: each path is mapped to what
/// the last entry with that path holds.
pub open spec fn table_of(entries: Seq<AssetEntry>) -> Map<Seq<char>, AssetModel>
    decreases entries.len(),
{
    if entries.len() == 0 {
        Map::empty()
    } else {
        table_of(entries.drop_last()).insert(entries.last().path@, entries.last()@)
    }
}

/// A path that no entry has is not in the table.
pub proof fn lemma_table_of_absent(entries: Seq<AssetEntry>, path: Seq<char>)
    requires
        forall|k: int| 0 <= k < entries.len() ==> entries[k].path@ != path,
    ensures
        !table_of(entries).contains_key(path),
    decreases entries.len(),
{
    if entries.len() > 0 {
        lemma_table_of_absent(entries.drop_last(), path);
    }
}

/// The table maps a path to what the last entry with that path holds.
pub proof fn lemma_table_of_present(entries: Seq<AssetEntry>, path: Seq<char>, at: int)
    requires
        0 <= at < entries.len(),
        entries[at].path@ == path,
        forall|k: int| at < k < entries.len() ==> entries[k].path@ != path,
    ensures
        table_of(entries).contains_key(path),
        table_of(entries)[path] == entries[at]@,
    decreases entries.len(),
{
    if at < entries.len() - 1 {
        lemma_table_of_present(entries.drop_last(), path, at);
    }
}

/// A fixed set of assets, found by their exact path.
#[derive(Debug, Clone)]
pub struct Assets {
    entries: Vec<AssetEntry>,
}

impl View for Assets {
    type V = Map<Seq<char>, AssetModel>;

    closed spec fn view(&self) -> Map<Seq<char>, AssetModel> {
        table_of(self.entries@)
    }
}

impl Assets {
    /// A table without assets.
    pub fn new() -> (assets: Assets)
        ensures
            assets@ == Map::<Seq<char>, AssetModel>::empty(),
    {
        Assets { entries: Vec::new() }
    }

    /// Puts an asset into the table, in place of the one that had its path,
    /// if there was one.
    pub fn insert(&mut self, entry: AssetEntry)
        ensures
            final(self)@ == old(self)@.insert(entry.path@, entry@),
    {
        let ghost before = self.entries@;
        self.entries.push(entry);
        assert(self.entries@.drop_last() =~= before);
    }

    /// Looks an asset up by its path. The path has to match exactly: no
    /// letter is folded, and no part of a path stands for the whole.
    pub fn get(&self, path: &str) -> (found: Option<&AssetEntry>)
        ensures
            found.is_some() == self@.contains_key(path@),
            found matches Some(entry) ==> entry.path@ == path@ && entry@ == self@[path@],
    {
        let key: String = String::from_str(path);
        let mut i: usize = self.entries.len();
        while i > 0
            invariant
                i <= self.entries@.len(),
                key@ == path@,
                forall|k: int| i <= k < self.entries@.len() ==> self.entries@[k].path@ != path@,
            decreases i,
        {
            i = i - 1;
            if self.entries[i].path == key {
                proof {
                    lemma_table_of_present(self.entries@, path@, i as int);
                }
                return Some(&self.entries[i]);
            }
        }
        proof {
            lemma_table_of_absent(self.entries@, path@);
        }
        None
    }
}

} // verus!
