//! The persisted value store: an associative table from composite
//! `(identity, label)` keys to string values, modeled as a map from the
//! views of the key parts to the view of the value.

use vstd::prelude::*;

verus! {

/// One stored row: a composite key and its value.
struct Row {
    id: String,
    label: String,
    value: String,
}

spec fn row_key(r: Row) -> (Seq<char>, Seq<char>) {
    (r.id@, r.label@)
}

spec fn rows_map(s: Seq<Row>) -> Map<(Seq<char>, Seq<char>), Seq<char>>
    decreases s.len(),
{
    if s.len() == 0 {
        Map::empty()
    } else {
        rows_map(s.drop_last()).insert(row_key(s.last()), s.last().value@)
    }
}

spec fn unique_keys(s: Seq<Row>) -> bool {
    forall|i: int, j: int| 0 <= i < j < s.len() ==> row_key(#[trigger] s[i]) != row_key(#[trigger] s[j])
}

proof fn lemma_rows_map_contains(s: Seq<Row>, k: (Seq<char>, Seq<char>))
    ensures
        rows_map(s).contains_key(k) <==> exists|i: int| 0 <= i < s.len() && row_key(#[trigger] s[i]) == k,
    decreases s.len(),
{
    if s.len() > 0 {
        lemma_rows_map_contains(s.drop_last(), k);
        if row_key(s.last()) == k {
            assert(row_key(s[s.len() - 1]) == k);
        } else {
            assert forall|i: int| 0 <= i < s.len() && row_key(#[trigger] s[i]) == k implies
                rows_map(s).contains_key(k) by {
                assert(s.drop_last()[i] == s[i]);
            }
            if rows_map(s).contains_key(k) {
                let i = choose|i: int| 0 <= i < s.drop_last().len() && row_key(
                    #[trigger] s.drop_last()[i],
                ) == k;
                assert(s.drop_last()[i] == s[i]);
            }
        }
    }
}

proof fn lemma_rows_map_index(s: Seq<Row>, i: int)
    requires
        unique_keys(s),
        0 <= i < s.len(),
    ensures
        rows_map(s).contains_key(row_key(s[i])),
        rows_map(s)[row_key(s[i])] == s[i].value@,
    decreases s.len(),
{
    if i == s.len() - 1 {
    } else {
        assert(unique_keys(s.drop_last())) by {
            assert(forall|x: int| 0 <= x < s.len() - 1 ==> s.drop_last()[x] == s[x]);
        }
        lemma_rows_map_index(s.drop_last(), i);
        assert(s.drop_last()[i] == s[i]);
        assert(row_key(s[i]) != row_key(s[s.len() - 1]));
    }
}

proof fn lemma_rows_map_remove(s: Seq<Row>, i: int)
    requires
        unique_keys(s),
        0 <= i < s.len(),
    ensures
        rows_map(s.remove(i)) == rows_map(s).remove(row_key(s[i])),
    decreases s.len(),
{
    let k = row_key(s[i]);
    if i == s.len() - 1 {
        assert(s.remove(i) =~= s.drop_last());
        assert(!rows_map(s.drop_last()).contains_key(k)) by {
            lemma_rows_map_contains(s.drop_last(), k);
            if exists|x: int| 0 <= x < s.drop_last().len() && row_key(
                #[trigger] s.drop_last()[x],
            ) == k {
                let x = choose|x: int| 0 <= x < s.drop_last().len() && row_key(
                    #[trigger] s.drop_last()[x],
                ) == k;
                assert(s.drop_last()[x] == s[x]);
            }
        }
        assert(rows_map(s.drop_last()) =~= rows_map(s).remove(k));
    } else {
        assert(unique_keys(s.drop_last())) by {
            assert(forall|x: int| 0 <= x < s.len() - 1 ==> s.drop_last()[x] == s[x]);
        }
        lemma_rows_map_remove(s.drop_last(), i);
        assert(s.remove(i).drop_last() =~= s.drop_last().remove(i)) by {
            assert(forall|x: int|
                0 <= x < s.len() - 2 ==> s.remove(i)[x] == #[trigger] s.drop_last().remove(i)[x]);
        }
        assert(s.remove(i).last() == s.last());
        assert(row_key(s.drop_last()[i]) == k);
        assert(rows_map(s.remove(i)) == rows_map(s.drop_last()).remove(k).insert(
            row_key(s.last()),
            s.last().value@,
        ));
        assert(k != row_key(s.last()));
        assert(rows_map(s.drop_last()).remove(k).insert(row_key(s.last()), s.last().value@)
            =~= rows_map(s.drop_last()).insert(row_key(s.last()), s.last().value@).remove(k));
    }
}

/// The associative table of stored values, keyed by exact composite key.
pub struct PairTable {
    rows: Vec<Row>,
}

impl View for PairTable {
    type V = Map<(Seq<char>, Seq<char>), Seq<char>>;

    closed spec fn view(&self) -> Map<(Seq<char>, Seq<char>), Seq<char>> {
        rows_map(self.rows@)
    }
}

impl PairTable {
    /// Each composite key appears in at most one row.
    pub closed spec fn wf(self) -> bool {
        unique_keys(self.rows@)
    }

    /// An empty table.
    pub fn new() -> (t: PairTable)
        ensures
            t.wf(),
            t@ == Map::<(Seq<char>, Seq<char>), Seq<char>>::empty(),
    {
        PairTable { rows: Vec::new() }
    }

    fn find_index(&self, id: &String, label: &String) -> (r: Option<usize>)
        ensures
            match r {
                Some(i) => i < self.rows@.len() && row_key(self.rows@[i as int]) == (id@, label@),
                None => forall|i: int|
                    0 <= i < self.rows@.len() ==> row_key(#[trigger] self.rows@[i]) != (id@, label@),
            },
    {
        let mut i: usize = 0;
        while i < self.rows.len()
            invariant
                0 <= i <= self.rows@.len(),
                forall|j: int| 0 <= j < i ==> row_key(#[trigger] self.rows@[j]) != (id@, label@),
            decreases self.rows@.len() - i,
        {
            let row = &self.rows[i];
            if row.id == *id && row.label == *label {
                return Some(i);
            }
            i += 1;
        }
        None
    }

    /// Looks up the value stored under the key, if any.
    pub fn get(&self, id: &String, label: &String) -> (r: Option<&String>)
        requires
            self.wf(),
        ensures
            match r {
                Some(v) => self@.contains_key((id@, label@)) && v@ == self@[(id@, label@)],
                None => !self@.contains_key((id@, label@)),
            },
    {
        match self.find_index(id, label) {
            Some(i) => {
                proof {
                    lemma_rows_map_index(self.rows@, i as int);
                }
                Some(&self.rows[i].value)
            },
            None => {
                proof {
                    lemma_rows_map_contains(self.rows@, (id@, label@));
                }
                None
            },
        }
    }

    /// Removes the row under the key; absence of the row is the terminal
    /// state, whether or not one was there.
    pub fn remove(&mut self, id: &String, label: &String)
        requires
            old(self).wf(),
        ensures
            final(self).wf(),
            final(self)@ == old(self)@.remove((id@, label@)),
    {
        match self.find_index(id, label) {
            Some(i) => {
                proof {
                    lemma_rows_map_remove(self.rows@, i as int);
                }
                let ghost s = self.rows@;
                self.rows.remove(i);
                proof {
                    assert(unique_keys(s.remove(i as int))) by {
                        assert(forall|x: int|
                            0 <= x < s.len() - 1 ==> s.remove(i as int)[x] == (if x < i {
                                s[x]
                            } else {
                                s[x + 1]
                            }));
                    }
                }
            },
            None => {
                proof {
                    lemma_rows_map_contains(self.rows@, (id@, label@));
                    assert(self@ =~= self@.remove((id@, label@)));
                }
            },
        }
    }

    /// Stores the value under the key, replacing any prior value.
    pub fn insert(&mut self, id: String, label: String, value: String)
        requires
            old(self).wf(),
        ensures
            final(self).wf(),
            final(self)@ == old(self)@.insert((id@, label@), value@),
    {
        self.remove(&id, &label);
        proof {
            lemma_rows_map_contains(self.rows@, (id@, label@));
        }
        let ghost mid = self.rows@;
        let ghost k = (id@, label@);
        self.rows.push(Row { id, label, value });
        proof {
            assert(self.rows@.drop_last() =~= mid);
            assert(row_key(self.rows@.last()) == k);
            assert(unique_keys(self.rows@)) by {
                assert(forall|x: int| 0 <= x < mid.len() ==> self.rows@[x] == mid[x]);
            }
            assert(old(self)@.remove(k).insert(k, self.rows@.last().value@) =~= old(self)@.insert(
                k,
                self.rows@.last().value@,
            ));
        }
    }
}

} // verus!
