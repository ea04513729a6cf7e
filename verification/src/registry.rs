//! The registry of tables: which table key is served by which file, and the
//! cell that will hold the opened table.

use once_cell::sync::OnceCell;
use vstd::prelude::*;

use crate::types::TableKey;

verus! {

/// The cell of `once_cell` that is initialised at most once, also when
/// several threads try at the same time. Nothing is stated of what it holds.
#[verifier::external_type_specification]
#[verifier::external_body]
#[verifier::reject_recursive_types(T)]
pub struct ExOnceCell<T>(OnceCell<T>);

/// Calls `OnceCell::new` of `once_cell`, which makes an empty cell. The
/// contract claims nothing.
#[verifier::external_body]
fn new_cell<H>() -> OnceCell<H> {
    OnceCell::new()
}

/// One registered table: its key, the file that holds it, and the cell for
/// the opened table of type `H`.
#[verifier::reject_recursive_types(H)]
pub struct Entry<H> {
    key: TableKey,
    path: String,
    table: OnceCell<H>,
}

impl<H> Entry<H> {
    /// The key of the table.
    pub closed spec fn key_spec(&self) -> TableKey {
        self.key
    }

    /// The path of the file, as characters.
    pub closed spec fn path_spec(&self) -> Seq<char> {
        self.path@
    }

    /// The cell of the entry, in which the opened table is kept.
    pub closed spec fn table_spec(&self) -> OnceCell<H> {
        self.table
    }

    /// The key of the table.
    #[verifier::when_used_as_spec(key_spec)]
    pub fn key(&self) -> (k: TableKey)
        ensures
            k == self.key_spec(),
    {
        self.key
    }

    /// The path of the file.
    pub fn path(&self) -> (p: &str)
        ensures
            p@ == self.path_spec(),
    {
        self.path.as_str()
    }

    /// The cell for the opened table: the entry's own cell, the same one
    /// at every call. The caller initialises it with the table read from
    /// `path`, and every later caller finds that table.
    pub fn table(&self) -> (cell: &OnceCell<H>)
        ensures
            *cell == self.table_spec(),
    {
        &self.table
    }
}

/// The map from key to path that a sequence of entries stands for. A later
/// entry overrides an earlier one with the same key.
pub open spec fn paths_of<H>(entries: Seq<Entry<H>>) -> Map<TableKey, Seq<char>>
    decreases entries.len(),
{
    if entries.len() == 0 {
        Map::empty()
    } else {
        paths_of(entries.drop_last()).insert(entries.last().key_spec(), entries.last().path_spec())
    }
}

/// No two entries have the same key.
pub open spec fn distinct_keys<H>(entries: Seq<Entry<H>>) -> bool {
    forall|i: int, j: int|
        0 <= i < j < entries.len() ==> (#[trigger] entries[i]).key_spec() != (
        #[trigger] entries[j]).key_spec()
}

/// A key is in the map exactly when some entry has it.
pub proof fn lemma_paths_contains<H>(entries: Seq<Entry<H>>, key: TableKey)
    ensures
        paths_of(entries).contains_key(key) <==> exists|i: int|
            0 <= i < entries.len() && (#[trigger] entries[i]).key_spec() == key,
    decreases entries.len(),
{
    if entries.len() > 0 {
        let front = entries.drop_last();
        lemma_paths_contains(front, key);
        if paths_of(entries).contains_key(key) {
            if entries.last().key_spec() == key {
                assert(entries[entries.len() - 1].key_spec() == key);
            } else {
                let i = choose|i: int| 0 <= i < front.len() && (#[trigger] front[i]).key_spec() == key;
                assert(entries[i].key_spec() == key);
            }
        }
        if exists|i: int| 0 <= i < entries.len() && (#[trigger] entries[i]).key_spec() == key {
            let i = choose|i: int| 0 <= i < entries.len() && (#[trigger] entries[i]).key_spec() == key;
            if i < entries.len() - 1 {
                assert(front[i].key_spec() == key);
            }
        }
    }
}

/// With distinct keys, the map sends the key of each entry to its path.
pub proof fn lemma_paths_at<H>(entries: Seq<Entry<H>>, i: int)
    requires
        distinct_keys(entries),
        0 <= i < entries.len(),
    ensures
        paths_of(entries).contains_key(entries[i].key_spec()),
        paths_of(entries)[entries[i].key_spec()] == entries[i].path_spec(),
    decreases entries.len(),
{
    let front = entries.drop_last();
    if i < entries.len() - 1 {
        assert(distinct_keys(front)) by {
            assert forall|a: int, b: int| 0 <= a < b < front.len() implies (#[trigger] front[a]).key_spec()
                != (#[trigger] front[b]).key_spec() by {
                assert(entries[a].key_spec() != entries[b].key_spec());
            }
        }
        lemma_paths_at(front, i);
        assert(front[i] == entries[i]);
        assert(entries[i].key_spec() != entries[entries.len() - 1].key_spec());
    }
}

/// With distinct keys, replacing an entry by one with the same key is an
/// insertion into the map.
pub proof fn lemma_paths_update<H>(entries: Seq<Entry<H>>, i: int, entry: Entry<H>)
    requires
        distinct_keys(entries),
        0 <= i < entries.len(),
        entry.key_spec() == entries[i].key_spec(),
    ensures
        distinct_keys(entries.update(i, entry)),
        paths_of(entries.update(i, entry)) == paths_of(entries).insert(
            entry.key_spec(),
            entry.path_spec(),
        ),
    decreases entries.len(),
{
    let updated = entries.update(i, entry);
    assert(distinct_keys(updated)) by {
        assert forall|a: int, b: int| 0 <= a < b < updated.len() implies (#[trigger] updated[a]).key_spec()
            != (#[trigger] updated[b]).key_spec() by {
            assert(entries[a].key_spec() != entries[b].key_spec());
        }
    }
    let front = entries.drop_last();
    if i == entries.len() - 1 {
        assert(updated.drop_last() == front);
        assert(paths_of(updated) == paths_of(entries).insert(entry.key_spec(), entry.path_spec()));
    } else {
        assert(distinct_keys(front)) by {
            assert forall|a: int, b: int| 0 <= a < b < front.len() implies (#[trigger] front[a]).key_spec()
                != (#[trigger] front[b]).key_spec() by {
                assert(entries[a].key_spec() != entries[b].key_spec());
            }
        }
        lemma_paths_update(front, i, entry);
        assert(updated.drop_last() == front.update(i, entry));
        assert(updated.last() == entries.last());
        assert(entries[i].key_spec() != entries[entries.len() - 1].key_spec());
        assert(paths_of(updated) == paths_of(entries).insert(entry.key_spec(), entry.path_spec()));
    }
}

/// The registry: for each registered key the file of its table and the cell
/// for the opened table of type `H`. Its view is the map from key to path.
#[verifier::reject_recursive_types(H)]
pub struct Tablebase<H> {
    tables: Vec<Entry<H>>,
}

impl<H> View for Tablebase<H> {
    type V = Map<TableKey, Seq<char>>;

    closed spec fn view(&self) -> Map<TableKey, Seq<char>> {
        paths_of(self.tables@)
    }
}

impl<H> Tablebase<H> {
    #[verifier::type_invariant]
    spec fn well_formed(self) -> bool {
        distinct_keys(self.tables@)
    }

    /// A registry without tables.
    pub fn new() -> (r: Tablebase<H>)
        ensures
            r@ == Map::<TableKey, Seq<char>>::empty(),
    {
        Tablebase { tables: Vec::new() }
    }

    /// The place of the entry with this key, if there is one.
    fn find(&self, key: &TableKey) -> (r: Option<usize>)
        ensures
            match r {
                Some(i) => i < self.tables@.len() && self.tables@[i as int].key_spec() == *key,
                None => forall|i: int|
                    0 <= i < self.tables@.len() ==> (#[trigger] self.tables@[i]).key_spec() != *key,
            },
    {
        let mut i: usize = 0;
        while i < self.tables.len()
            invariant
                i <= self.tables@.len(),
                forall|j: int| 0 <= j < i ==> (#[trigger] self.tables@[j]).key_spec() != *key,
            decreases self.tables@.len() - i,
        {
            if self.tables[i].key() == *key {
                return Some(i);
            }
            i = i + 1;
        }
        None
    }

    /// Whether a table is registered under this key.
    pub fn contains(&self, key: &TableKey) -> (r: bool)
        ensures
            r == self@.contains_key(*key),
    {
        proof {
            lemma_paths_contains(self.tables@, *key);
        }
        self.find(key).is_some()
    }

    /// The entry registered under this key: `None` exactly when there is
    /// none, else the entry with this key and the registered path.
    pub fn lookup(&self, key: &TableKey) -> (r: Option<&Entry<H>>)
        ensures
            r is Some <==> self@.contains_key(*key),
            r matches Some(entry) ==> entry.key_spec() == *key && entry.path_spec() == self@[*key],
    {
        proof {
            use_type_invariant(self);
            lemma_paths_contains(self.tables@, *key);
        }
        match self.find(key) {
            Some(i) => {
                proof {
                    lemma_paths_at(self.tables@, i as int);
                }
                Some(&self.tables[i])
            },
            None => None,
        }
    }

    /// Registers `path` under `key`, in place of what was registered under
    /// it before, with an empty cell for the table.
    pub fn insert(&mut self, key: TableKey, path: String)
        ensures
            final(self)@ == old(self)@.insert(key, path@),
    {
        proof {
            use_type_invariant(&*self);
        }
        let entry = Entry { key, path, table: new_cell() };
        let place = self.find(&key);
        let mut tables: Vec<Entry<H>> = Vec::new();
        std::mem::swap(&mut self.tables, &mut tables);
        match place {
            Some(i) => {
                proof {
                    lemma_paths_update(tables@, i as int, entry);
                }
                tables.set(i, entry);
            },
            None => {
                proof {
                    let pushed = tables@.push(entry);
                    assert(pushed.drop_last() == tables@);
                    assert(distinct_keys(pushed));
                }
                tables.push(entry);
            },
        }
        self.tables = tables;
    }
}

} // verus!
