use vstd::prelude::*;
use crate::t2sdk::{default_stock, stock_wf, StockModel, StockRecord};
use crate::utils::str_eq;

verus! {

/// Mathematical form of a stock table: codes and records, position by position.
pub struct TableModel {
    pub keys: Seq<Seq<char>>,
    pub records: Seq<StockModel>,
}

/// Codes are distinct, there is one record per code, and every record is well formed.
pub open spec fn table_wf(t: TableModel) -> bool {
    &&& t.keys.len() == t.records.len()
    &&& forall|i: int, j: int| 0 <= i < j < t.keys.len() ==> t.keys[i] != t.keys[j]
    &&& forall|i: int| 0 <= i < t.records.len() ==> stock_wf(#[trigger] t.records[i])
}

/// Position of the code `k`, if the table holds it.
pub open spec fn key_index(t: TableModel, k: Seq<char>) -> int {
    choose|i: int| 0 <= i < t.keys.len() && t.keys[i] == k
}

/// Record stored under `k`.
pub open spec fn lookup(t: TableModel, k: Seq<char>) -> Option<StockModel> {
    if t.keys.contains(k) {
        Some(t.records[key_index(t, k)])
    } else {
        None
    }
}

/// Record stored under `k`, or the empty record.
pub open spec fn lookup_or_default(t: TableModel, k: Seq<char>) -> StockModel {
    match lookup(t, k) {
        Some(r) => r,
        None => default_stock(),
    }
}

/// The table with `r` stored under `k`: in place when `k` is present, appended otherwise.
pub open spec fn upsert(t: TableModel, k: Seq<char>, r: StockModel) -> TableModel {
    if t.keys.contains(k) {
        TableModel { keys: t.keys, records: t.records.update(key_index(t, k), r) }
    } else {
        TableModel { keys: t.keys.push(k), records: t.records.push(r) }
    }
}

/// Records keyed by security code (the stocks map of the feed).
pub struct StockTable {
    _codes: Vec<String>,
    _records: Vec<StockRecord>,
}

impl View for StockTable {
    type V = TableModel;

    closed spec fn view(&self) -> TableModel {
        TableModel {
            keys: self._codes@.map_values(|s: String| s@),
            records: self._records@.map_values(|r: StockRecord| r@),
        }
    }
}

impl StockTable {
    /// An empty table.
    pub fn new() -> (t: StockTable)
        ensures
            t@ == (TableModel { keys: seq![], records: seq![] }),
            table_wf(t@),
    {
        let t = StockTable { _codes: Vec::new(), _records: Vec::new() };
        assert(t@.keys =~= seq![]);
        assert(t@.records =~= seq![]);
        t
    }

    /// Number of codes held.
    pub fn len(&self) -> (n: usize)
        requires
            table_wf(self@),
        ensures
            n == self@.keys.len(),
    {
        self._codes.len()
    }

    /// Code at position `i`.
    pub fn code_at(&self, i: usize) -> (c: &String)
        requires
            table_wf(self@),
            i < self@.keys.len(),
        ensures
            c@ == self@.keys[i as int],
    {
        &self._codes[i]
    }

    /// Record at position `i`.
    pub fn record_at(&self, i: usize) -> (r: &StockRecord)
        requires
            table_wf(self@),
            i < self@.keys.len(),
        ensures
            r@ == self@.records[i as int],
    {
        &self._records[i]
    }

    /// Position of `code`, if present.
    pub fn find(&self, code: &str) -> (r: Option<usize>)
        requires
            table_wf(self@),
        ensures
            r matches Some(i) ==> i < self@.keys.len() && self@.keys[i as int] == code@,
            r is None ==> !self@.keys.contains(code@),
    {
        let mut i: usize = 0;
        while i < self._codes.len()
            invariant
                i <= self._codes@.len(),
                table_wf(self@),
                forall|j: int| 0 <= j < i ==> self@.keys[j] != code@,
            decreases self._codes@.len() - i,
        {
            if str_eq(self._codes[i].as_str(), code) {
                return Some(i);
            }
            i = i + 1;
        }
        assert forall|j: int| 0 <= j < self@.keys.len() implies self@.keys[j] != code@ by {}
        None
    }

    /// Record stored under `code`, if any.
    pub fn get(&self, code: &str) -> (r: Option<&StockRecord>)
        requires
            table_wf(self@),
        ensures
            r matches Some(x) ==> lookup(self@, code@) == Some(x@),
            r is None ==> lookup(self@, code@) is None,
    {
        match self.find(code) {
            Some(i) => {
                proof {
                    lemma_key_index(self@, code@, i as int);
                }
                Some(&self._records[i])
            },
            None => None,
        }
    }

    /// Mutable access to the record under `code`, inserting the empty record first when the
    /// code is absent (`entry(code).or_insert(default)`).
    pub fn entry(&mut self, code: String) -> (r: &mut StockRecord)
        requires
            table_wf(old(self)@),
        ensures
            r@ == lookup_or_default(old(self)@, code@),
            final(self)@ == upsert(old(self)@, code@, final(r)@),
    {
        let ghost k = code@;
        let i = match self.find(code.as_str()) {
            Some(i) => {
                proof {
                    lemma_key_index(self@, k, i as int);
                }
                assert(old(self)@.keys.contains(k));
                i
            },
            None => {
                let n = self._codes.len();
                self._codes.push(code);
                self._records.push(StockRecord::default());
                proof {
                    assert(self@.keys =~= old(self)@.keys.push(k));
                    assert(self@.records =~= old(self)@.records.push(default_stock()));
                }
                n
            },
        };
        let ghost recs = self._records@;
        let ghost t = self@;
        let r = &mut self._records[i];
        proof {
            lemma_map_update(recs, i as int, *final(r));
            let x = final(r)@;
            if old(self)@.keys.contains(k) {
                lemma_key_index(old(self)@, k, i as int);
            } else {
                assert(t.records.update(i as int, x) =~= old(self)@.records.push(x));
            }
        }
        r
    }
}

proof fn lemma_map_update(s: Seq<StockRecord>, i: int, x: StockRecord)
    requires
        0 <= i < s.len(),
    ensures
        s.update(i, x).map_values(|r: StockRecord| r@) == s.map_values(|r: StockRecord| r@).update(
            i,
            x@,
        ),
{
    assert(s.update(i, x).map_values(|r: StockRecord| r@) =~= s.map_values(|r: StockRecord| r@).update(
        i,
        x@,
    ));
}

/// The code found at `i` is the one `key_index` chooses, since codes are distinct.
pub proof fn lemma_key_index(t: TableModel, k: Seq<char>, i: int)
    requires
        table_wf(t),
        0 <= i < t.keys.len(),
        t.keys[i] == k,
    ensures
        t.keys.contains(k),
        key_index(t, k) == i,
{
    assert(t.keys.contains(k));
    let j = key_index(t, k);
    if j != i {
        if j < i {
            assert(t.keys[j] != t.keys[i]);
        } else {
            assert(t.keys[i] != t.keys[j]);
        }
    }
}

/// Storing a well-formed record keeps the table well formed; afterwards the code reads back
/// that record and every other code reads back what it held.
pub proof fn upsert_then_lookup(t: TableModel, k: Seq<char>, r: StockModel, other: Seq<char>)
    requires
        table_wf(t),
        stock_wf(r),
    ensures
        table_wf(upsert(t, k, r)),
        lookup(upsert(t, k, r), k) == Some(r),
        other != k ==> lookup(upsert(t, k, r), other) == lookup(t, other),
{
    let u = upsert(t, k, r);
    if t.keys.contains(k) {
        let i = key_index(t, k);
        assert(u.keys == t.keys);
        lemma_key_index(u, k, i);
        if t.keys.contains(other) && other != k {
            let j = key_index(t, other);
            lemma_key_index(u, other, j);
        }
    } else {
        let n = t.keys.len() as int;
        assert forall|i: int, j: int| 0 <= i < j < u.keys.len() implies u.keys[i] != u.keys[j] by {
            if j == n {
                assert(t.keys.contains(t.keys[i]));
            }
        }
        assert forall|i: int| 0 <= i < u.records.len() implies stock_wf(#[trigger] u.records[i]) by {
            if i < n {
                assert(u.records[i] == t.records[i]);
            }
        }
        lemma_key_index(u, k, n);
        if t.keys.contains(other) && other != k {
            let j = key_index(t, other);
            assert(u.keys[j] == other);
            lemma_key_index(u, other, j);
            assert(u.records[j] == t.records[j]);
        }
        if !t.keys.contains(other) && other != k {
            assert forall|j: int| 0 <= j < u.keys.len() implies u.keys[j] != other by {
                if j < n {
                    assert(u.keys[j] == t.keys[j]);
                }
            }
        }
    }
}

} // verus!
