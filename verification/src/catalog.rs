use vstd::prelude::*;

use crate::stem::{stem_of, stem_spec};

verus! {

/// The in-memory index of one resource category: a mapping from resource
/// name to the path of the file that holds it. Built once from a directory
/// listing and read-only afterwards.
pub struct Catalog {
    entries: Vec<(String, String)>,
}

/// The catalog a directory listing yields. Each listing entry is a pair of
/// file name and file path; its key is the stem of the file name and its
/// value the path. An entry whose file name has no stem is skipped, and of
/// two entries with the same stem the later one wins.
pub open spec fn catalog_of(listing: Seq<(String, String)>) -> Map<Seq<char>, Seq<char>>
    decreases listing.len(),
{
    if listing.len() == 0 {
        Map::empty()
    } else {
        let prev = catalog_of(listing.drop_last());
        match stem_spec(listing.last().0@) {
            Some(key) => prev.insert(key, listing.last().1@),
            None => prev,
        }
    }
}

/// The mapping held by a sequence of already-keyed entries; a later entry
/// shadows an earlier one with the same key.
spec fn entries_map(s: Seq<(String, String)>) -> Map<Seq<char>, Seq<char>>
    decreases s.len(),
{
    if s.len() == 0 {
        Map::empty()
    } else {
        entries_map(s.drop_last()).insert(s.last().0@, s.last().1@)
    }
}

impl View for Catalog {
    type V = Map<Seq<char>, Seq<char>>;

    closed spec fn view(&self) -> Map<Seq<char>, Seq<char>> {
        entries_map(self.entries@)
    }
}

proof fn lemma_entries_map_found(s: Seq<(String, String)>, i: int)
    requires
        0 <= i < s.len(),
        forall|j: int| i < j < s.len() ==> s[j].0@ != s[i].0@,
    ensures
        entries_map(s).contains_key(s[i].0@),
        entries_map(s)[s[i].0@] == s[i].1@,
    decreases s.len(),
{
    if i < s.len() - 1 {
        lemma_entries_map_found(s.drop_last(), i);
    }
}

proof fn lemma_entries_map_not_found(s: Seq<(String, String)>, key: Seq<char>)
    requires
        forall|j: int| 0 <= j < s.len() ==> s[j].0@ != key,
    ensures
        !entries_map(s).contains_key(key),
    decreases s.len(),
{
    if s.len() > 0 {
        lemma_entries_map_not_found(s.drop_last(), key);
    }
}

impl Catalog {
    /// Builds the catalog of one category subdirectory from its listing:
    /// pairs of file name and file path, in the order the directory handed
    /// them out. An empty listing yields an empty catalog.
    pub fn from_entries(listing: &Vec<(String, String)>) -> (r: Catalog)
        ensures
            r@ == catalog_of(listing@),
    {
        let mut cat = Catalog { entries: Vec::new() };
        let n = listing.len();
        let mut i: usize = 0;
        while i < n
            invariant
                i <= n,
                n == listing@.len(),
                cat@ == catalog_of(listing@.take(i as int)),
            decreases n - i,
        {
            let ghost before = cat.entries@;
            match stem_of(listing[i].0.as_str()) {
                Some(key) => {
                    cat.entries.push((key, listing[i].1.clone()));
                }
                None => {}
            }
            proof {
                assert(listing@.take(i + 1).drop_last() =~= listing@.take(i as int));
                assert(listing@.take(i + 1).last() == listing@[i as int]);
                if cat.entries@.len() > before.len() {
                    assert(cat.entries@.drop_last() =~= before);
                    assert(cat.entries@.last() == cat.entries@[before.len() as int]);
                }
            }
            i = i + 1;
        }
        proof {
            assert(listing@.take(n as int) =~= listing@);
        }
        cat
    }

    /// Pure lookup of a resource name. Returns the path registered for the
    /// name, or nothing when the catalog has no entry for it; touches no
    /// file.
    pub fn get(&self, name: &str) -> (r: Option<&String>)
        ensures
            r is Some <==> self@.contains_key(name@),
            r matches Some(p) ==> p@ == self@[name@],
    {
        let key = name.to_owned();
        let mut i: usize = self.entries.len();
        while i > 0
            invariant
                i <= self.entries@.len(),
                key@ == name@,
                forall|j: int| i <= j < self.entries@.len() ==> self.entries@[j].0@ != name@,
            decreases i,
        {
            i = i - 1;
            if self.entries[i].0 == key {
                proof {
                    lemma_entries_map_found(self.entries@, i as int);
                }
                return Some(&self.entries[i].1);
            }
        }
        proof {
            lemma_entries_map_not_found(self.entries@, name@);
        }
        None
    }

    /// Whether the catalog holds no entry at all.
    pub fn is_empty(&self) -> (r: bool)
        ensures
            r <==> self@.dom() == Set::<Seq<char>>::empty(),
    {
        let r = self.entries.len() == 0;
        proof {
            if self.entries@.len() == 0 {
                assert(self@.dom() =~= Set::<Seq<char>>::empty());
            } else {
                let s = self.entries@;
                assert(entries_map(s) == entries_map(s.drop_last()).insert(s.last().0@, s.last().1@));
                assert(self@.dom().contains(s.last().0@));
            }
        }
        r
    }
}

/// An empty directory is no error: its listing yields the catalog with no
/// entries.
pub proof fn lemma_empty_listing_yields_empty_catalog()
    ensures
        catalog_of(Seq::<(String, String)>::empty()) == Map::<Seq<char>, Seq<char>>::empty(),
{
}

/// A name that is the stem of no listing entry is never inserted: the
/// catalog built from the listing has no entry for it.
pub proof fn lemma_absent_stem_never_inserted(listing: Seq<(String, String)>, name: Seq<char>)
    requires
        forall|i: int| 0 <= i < listing.len() ==> stem_spec(listing[i].0@) != Some(name),
    ensures
        !catalog_of(listing).contains_key(name),
    decreases listing.len(),
{
    if listing.len() > 0 {
        lemma_absent_stem_never_inserted(listing.drop_last(), name);
    }
}

} // verus!
