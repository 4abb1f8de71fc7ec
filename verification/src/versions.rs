//! The reference table that gives each compiler build its release label.

use vstd::prelude::*;
use crate::text::{str_equal, text_of};

verus! {

/// The map that a list of pairs builds when each pair is entered in turn: a
/// later pair replaces an earlier one with the same key.
pub open spec fn pairs_map(pairs: Seq<(Seq<char>, Seq<char>)>) -> Map<Seq<char>, Seq<char>>
    decreases pairs.len(),
{
    if pairs.len() == 0 {
        Map::empty()
    } else {
        pairs_map(pairs.drop_last()).insert(pairs.last().0, pairs.last().1)
    }
}

/// The text of a list of string pairs.
pub open spec fn pair_texts(pairs: Seq<(String, String)>) -> Seq<(Seq<char>, Seq<char>)> {
    pairs.map_values(|p: (String, String)| (p.0@, p.1@))
}

/// No two pairs share a key.
pub open spec fn distinct_keys(pairs: Seq<(Seq<char>, Seq<char>)>) -> bool {
    forall|i: int, j: int| 0 <= i < j < pairs.len() ==> pairs[i].0 != pairs[j].0
}

/// A key that no pair has is not in the map.
pub proof fn lemma_pairs_map_absent(pairs: Seq<(Seq<char>, Seq<char>)>, key: Seq<char>)
    requires
        forall|i: int| 0 <= i < pairs.len() ==> pairs[i].0 != key,
    ensures
        !pairs_map(pairs).contains_key(key),
    decreases pairs.len(),
{
    if pairs.len() > 0 {
        lemma_pairs_map_absent(pairs.drop_last(), key);
    }
}

/// Among distinct keys, each pair's key leads to that pair's value.
pub proof fn lemma_pairs_map_lookup(pairs: Seq<(Seq<char>, Seq<char>)>, at: int)
    requires
        distinct_keys(pairs),
        0 <= at < pairs.len(),
    ensures
        pairs_map(pairs).contains_key(pairs[at].0),
        pairs_map(pairs)[pairs[at].0] == pairs[at].1,
    decreases pairs.len(),
{
    if at < pairs.len() - 1 {
        lemma_pairs_map_lookup(pairs.drop_last(), at);
    }
}

/// Among distinct keys, a new value written over a pair's old one is the
/// new value entered under that key.
pub proof fn lemma_pairs_map_update(pairs: Seq<(Seq<char>, Seq<char>)>, at: int, value: Seq<char>)
    requires
        distinct_keys(pairs),
        0 <= at < pairs.len(),
    ensures
        distinct_keys(pairs.update(at, (pairs[at].0, value))),
        pairs_map(pairs.update(at, (pairs[at].0, value))) == pairs_map(pairs).insert(
            pairs[at].0,
            value,
        ),
    decreases pairs.len(),
{
    let updated = pairs.update(at, (pairs[at].0, value));
    if at == pairs.len() - 1 {
        assert(updated.drop_last() =~= pairs.drop_last());
        assert(pairs_map(updated) =~= pairs_map(pairs).insert(pairs[at].0, value));
    } else {
        assert(updated.drop_last() =~= pairs.drop_last().update(at, (pairs[at].0, value)));
        lemma_pairs_map_update(pairs.drop_last(), at, value);
        assert(updated.last() == pairs.last());
        assert(pairs.last().0 != pairs[at].0);
        assert(pairs_map(updated) =~= pairs_map(pairs).insert(pairs[at].0, value));
    }
}

/// Among distinct keys, the map has as many keys as there are pairs.
pub proof fn lemma_pairs_map_len(pairs: Seq<(Seq<char>, Seq<char>)>)
    requires
        distinct_keys(pairs),
    ensures
        pairs_map(pairs).dom().finite(),
        pairs_map(pairs).dom().len() == pairs.len(),
    decreases pairs.len(),
{
    if pairs.len() > 0 {
        lemma_pairs_map_len(pairs.drop_last());
        lemma_pairs_map_absent(pairs.drop_last(), pairs.last().0);
    }
}

/// A table from build hashes to release labels. No hash is listed twice.
#[derive(Debug, Clone)]
pub struct VersionTable {
    entries: Vec<(String, String)>,
}

impl View for VersionTable {
    type V = Map<Seq<char>, Seq<char>>;

    /// The label of each hash.
    open spec fn view(&self) -> Map<Seq<char>, Seq<char>> {
        pairs_map(self.pairs())
    }
}

impl VersionTable {
    /// The table's entries, hash first, in the order in which their hashes
    /// were first entered.
    pub closed spec fn pairs(&self) -> Seq<(Seq<char>, Seq<char>)> {
        pair_texts(self.entries@)
    }

    /// No hash is listed twice.
    pub open spec fn wf(&self) -> bool {
        distinct_keys(self.pairs())
    }

    /// The empty table.
    pub fn new() -> (table: VersionTable)
        ensures
            table.wf(),
            table.pairs() == Seq::<(Seq<char>, Seq<char>)>::empty(),
            table@ == Map::<Seq<char>, Seq<char>>::empty(),
    {
        let table = VersionTable { entries: Vec::new() };
        assert(table.pairs() =~= Seq::<(Seq<char>, Seq<char>)>::empty());
        table
    }

    /// Where `hash` stands in the list of entries.
    fn position(&self, hash: &str) -> (at: Option<usize>)
        ensures
            match at {
                Some(i) => i < self.pairs().len() && self.pairs()[i as int].0 == hash@,
                None => forall|j: int| 0 <= j < self.pairs().len() ==> self.pairs()[j].0 != hash@,
            },
            self.pairs().len() == self.entries@.len(),
    {
        let mut i: usize = 0;
        while i < self.entries.len()
            invariant
                i <= self.entries.len(),
                self.pairs().len() == self.entries@.len(),
                forall|j: int| 0 <= j < i ==> self.pairs()[j].0 != hash@,
            decreases self.entries.len() - i,
        {
            if str_equal(self.entries[i].0.as_str(), hash) {
                return Some(i);
            }
            i += 1;
        }
        None
    }

    /// The label of `hash`, if the table lists it.
    pub fn get(&self, hash: &str) -> (label: Option<&String>)
        requires
            self.wf(),
        ensures
            match label {
                Some(l) => self@.contains_key(hash@) && self@[hash@] == l@,
                None => !self@.contains_key(hash@),
            },
    {
        match self.position(hash) {
            Some(i) => {
                proof {
                    lemma_pairs_map_lookup(self.pairs(), i as int);
                }
                Some(&self.entries[i].1)
            },
            None => {
                proof {
                    lemma_pairs_map_absent(self.pairs(), hash@);
                }
                None
            },
        }
    }

    /// Whether the table lists `hash`.
    pub fn contains_key(&self, hash: &str) -> (found: bool)
        requires
            self.wf(),
        ensures
            found == self@.contains_key(hash@),
    {
        self.get(hash).is_some()
    }

    /// Enters `label` under `hash`, in place of the label that the hash had.
    pub fn insert(&mut self, hash: String, label: String)
        requires
            old(self).wf(),
        ensures
            final(self).wf(),
            final(self)@ == old(self)@.insert(hash@, label@),
    {
        let ghost before = self.pairs();
        match self.position(hash.as_str()) {
            Some(i) => {
                proof {
                    lemma_pairs_map_update(before, i as int, label@);
                }
                self.entries.set(i, (hash, label));
                assert(self.pairs() =~= before.update(i as int, (hash@, label@)));
            },
            None => {
                self.entries.push((hash, label));
                assert(self.pairs() =~= before.push((hash@, label@)));
                assert(self.pairs().drop_last() =~= before);
            },
        }
    }

    /// The number of hashes that the table lists.
    pub fn len(&self) -> (n: usize)
        requires
            self.wf(),
        ensures
            n == self@.dom().len(),
            n == self.pairs().len(),
    {
        proof {
            lemma_pairs_map_len(self.pairs());
        }
        self.entries.len()
    }

    /// The table's entries, hash first.
    pub fn entries(&self) -> (entries: &[(String, String)])
        ensures
            pair_texts(entries@) == self.pairs(),
    {
        self.entries.as_slice()
    }
}

/// The text of an optional table.
pub open spec fn table_of(table: Option<VersionTable>) -> Option<Map<Seq<char>, Seq<char>>> {
    match table {
        Some(t) => Some(t@),
        None => None,
    }
}

/// The release label of a build: the table's entry for its hash. There is
/// none without a hash, without a table, or where the table does not list
/// the hash.
pub open spec fn resolved_version(
    hash: Option<Seq<char>>,
    table: Option<Map<Seq<char>, Seq<char>>>,
) -> Option<Seq<char>> {
    match (hash, table) {
        (Some(h), Some(t)) => if t.contains_key(h) {
            Some(t[h])
        } else {
            None
        },
        _ => None,
    }
}

/// Without a table no build has a label, whether or not its hash is known.
pub proof fn lemma_no_table_no_version(hash: Option<Seq<char>>)
    ensures
        resolved_version(hash, None) is None,
{
}

/// A label is found only for a known hash that the table lists.
pub proof fn lemma_version_needs_hash_and_entry(
    hash: Option<Seq<char>>,
    table: Option<Map<Seq<char>, Seq<char>>>,
)
    requires
        resolved_version(hash, table) is Some,
    ensures
        hash is Some,
        table is Some,
        table->0.contains_key(hash->0),
{
}

/// Looks the build hash up in the reference table.
pub fn resolve_rust_version(rustc_hash: &Option<String>, version_mappings: &Option<VersionTable>) -> (version:
    Option<String>)
    requires
        version_mappings matches Some(t) ==> t.wf(),
    ensures
        text_of(version) == resolved_version(text_of(*rustc_hash), table_of(*version_mappings)),
{
    match (rustc_hash, version_mappings) {
        (Some(hash), Some(table)) => match table.get(hash.as_str()) {
            Some(label) => Some(label.clone()),
            None => None,
        },
        _ => None,
    }
}

/// What a JSON document holds, read as an object whose values are all
/// strings: absent where the document is anything else.
pub uninterp spec fn json_string_map(content: Seq<char>) -> Option<Map<Seq<char>, Seq<char>>>;

/// Calls `serde_json::from_str` for a `HashMap<String, String>` and lists
/// the map's entries. The contract claims that whether the document is
/// accepted, and which value each key then has, depends on the document
/// alone; it claims nothing of the order of the list.
#[verifier::external_body]
pub(crate) fn json_string_pairs(content: &str) -> (pairs: Option<Vec<(String, String)>>)
    ensures
        match pairs {
            Some(list) => json_string_map(content@) == Some(pairs_map(pair_texts(list@))),
            None => json_string_map(content@) is None,
        },
{
    serde_json::from_str::<std::collections::HashMap<String, String>>(content)
        .ok()
        .map(|m| m.into_iter().collect())
}

/// Builds the table that a list of pairs describes, entering each in turn.
pub fn table_from_pairs(pairs: &[(String, String)]) -> (table: VersionTable)
    ensures
        table.wf(),
        table@ == pairs_map(pair_texts(pairs@)),
{
    let mut table = VersionTable::new();
    let mut i: usize = 0;
    assert(pair_texts(pairs@.take(0)) =~= Seq::<(Seq<char>, Seq<char>)>::empty());
    while i < pairs.len()
        invariant
            i <= pairs.len(),
            table.wf(),
            table@ == pairs_map(pair_texts(pairs@.take(i as int))),
        decreases pairs.len() - i,
    {
        table.insert(pairs[i].0.clone(), pairs[i].1.clone());
        proof {
            let longer = pair_texts(pairs@.take(i + 1));
            assert(longer.drop_last() =~= pair_texts(pairs@.take(i as int)));
            assert(longer.last() == (pairs@[i as int].0@, pairs@[i as int].1@));
        }
        i += 1;
    }
    assert(pairs@.take(pairs@.len() as int) =~= pairs@);
    table
}

/// Reads a reference table from a JSON document: an object that gives each
/// build hash its release label. Any other document yields no table.
pub fn parse_version_mappings(content: &str) -> (table: Option<VersionTable>)
    ensures
        table_of(table) == json_string_map(content@),
        table matches Some(t) ==> t.wf(),
{
    match json_string_pairs(content) {
        Some(pairs) => Some(table_from_pairs(pairs.as_slice())),
        None => None,
    }
}

} // verus!
