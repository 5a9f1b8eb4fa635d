use vstd::prelude::*;

use crate::mapper::{convert_value, converted, rule_for, rule_of, Decoded, DecodedView, OnDecodeError};
use crate::value::{GenericValue, ValueView};

verus! {

/// The name and declared type name of one column of a result set.
#[derive(Debug)]
pub struct ColumnDescriptor {
    pub name: String,
    pub declared: String,
}

/// The entries of a row mapping, in the order their names first came.
pub type Entries = Seq<(Seq<char>, ValueView)>;

/// Whether no two entries share a name.
pub open spec fn names_unique(s: Entries) -> bool {
    forall|i: int, j: int| 0 <= i < s.len() && 0 <= j < s.len() && i != j ==> s[i].0 != s[j].0
}

/// Whether some entry is named `k`.
pub open spec fn has_name(s: Entries, k: Seq<char>) -> bool {
    exists|i: int| 0 <= i < s.len() && s[i].0 == k
}

/// The mapping after setting `k` to `v`: an entry named `k` keeps its place
/// and takes the new value; else the entry comes last.
pub open spec fn row_insert(s: Entries, k: Seq<char>, v: ValueView) -> Entries {
    if has_name(s, k) {
        let i = choose|i: int| 0 <= i < s.len() && s[i].0 == k;
        s.update(i, (k, v))
    } else {
        s.push((k, v))
    }
}

/// The mapping that setting each named value in turn builds from empty.
pub open spec fn assemble(cols: Entries) -> Entries
    decreases cols.len(),
{
    if cols.len() == 0 {
        seq![]
    } else {
        row_insert(assemble(cols.drop_last()), cols.last().0, cols.last().1)
    }
}

/// One row of a result: a mapping from column name to value, in column order,
/// where a later column overwrites an earlier one of the same name.
#[derive(Debug, PartialEq)]
pub struct RowResult {
    entries: Vec<(String, GenericValue)>,
}

impl View for RowResult {
    type V = Entries;

    closed spec fn view(&self) -> Entries {
        self.entries@.map_values(|e: (String, GenericValue)| (e.0@, e.1@))
    }
}

impl RowResult {
    /// The row's invariant: names are unique.
    pub open spec fn wf(&self) -> bool {
        names_unique(self@)
    }

    /// An empty row.
    pub fn new() -> (r: RowResult)
        ensures
            r@ == Seq::<(Seq<char>, ValueView)>::empty(),
            r.wf(),
    {
        let r = RowResult { entries: Vec::new() };
        assert(r@ =~= Seq::<(Seq<char>, ValueView)>::empty());
        r
    }

    /// The number of entries.
    pub fn len(&self) -> (r: usize)
        ensures
            r == self@.len(),
    {
        self.entries.len()
    }

    /// The name of the entry at `i`.
    pub fn name_at(&self, i: usize) -> (r: &String)
        requires
            i < self@.len(),
        ensures
            r@ == self@[i as int].0,
    {
        &self.entries[i].0
    }

    /// The value of the entry at `i`.
    pub fn value_at(&self, i: usize) -> (r: &GenericValue)
        requires
            i < self@.len(),
        ensures
            r@ == self@[i as int].1,
    {
        &self.entries[i].1
    }

    /// The value under `name`, if any.
    pub fn get(&self, name: &str) -> (r: Option<&GenericValue>)
        requires
            self.wf(),
        ensures
            match r {
                Some(v) => lookup(self@, name@) == Some(v@),
                None => lookup(self@, name@) is None,
            },
    {
        let n = self.entries.len();
        let mut i: usize = 0;
        while i < n
            invariant
                n == self@.len(),
                i <= n,
                self.wf(),
                forall|j: int| 0 <= j < i ==> self@[j].0 != name@,
            decreases n - i,
        {
            let key = self.entries[i].0.as_str();
            if crate::common::text_eq(key, name) {
                proof {
                    assert(self@[i as int].0 == name@);
                    let c = choose|c: int| 0 <= c < self@.len() && self@[c].0 == name@;
                    if c != i {
                        assert(self@[c].0 != self@[i as int].0);
                    }
                }
                return Some(&self.entries[i].1);
            }
            assert(self@[i as int].0 != name@);
            i = i + 1;
        }
        None
    }

    /// Sets `name` to `value`: an entry of that name takes the new value in
    /// its place; else the entry is added last.
    pub fn insert(&mut self, name: String, value: GenericValue)
        requires
            old(self).wf(),
        ensures
            final(self).wf(),
            final(self)@ == row_insert(old(self)@, name@, value@),
    {
        let n = self.entries.len();
        let mut i: usize = 0;
        while i < n
            invariant
                n == self@.len(),
                i <= n,
                self.wf(),
                self@ == old(self)@,
                forall|j: int| 0 <= j < i ==> self@[j].0 != name@,
            decreases n - i,
        {
            if self.entries[i].0 == name {
                let ghost before = self@;
                proof {
                    assert(before[i as int].0 == name@);
                    let c = choose|c: int| 0 <= c < before.len() && before[c].0 == name@;
                    assert(c == i);
                }
                self.entries.set(i, (name, value));
                assert(self@ =~= before.update(i as int, (name@, value@)));
                assert(names_unique(self@)) by {
                    assert forall|a: int, b: int|
                        0 <= a < self@.len() && 0 <= b < self@.len() && a != b implies
                        self@[a].0 != self@[b].0 by {
                        if a != i && b != i {
                            assert(before[a].0 != before[b].0);
                        } else if a == i {
                            assert(before[a].0 != before[b].0);
                        } else {
                            assert(before[a].0 != before[b].0);
                        }
                    }
                }
                return;
            }
            assert(self@[i as int].0 != name@);
            i = i + 1;
        }
        let ghost before = self@;
        self.entries.push((name, value));
        assert(self@ =~= before.push((name@, value@)));
        assert(!has_name(before, name@));
        assert(names_unique(self@)) by {
            assert forall|a: int, b: int|
                0 <= a < self@.len() && 0 <= b < self@.len() && a != b implies
                self@[a].0 != self@[b].0 by {
                if a < n && b < n {
                    assert(before[a].0 != before[b].0);
                }
            }
        }
    }
}

/// The named values of a row before assembly: each column's name with the
/// value its rule gives for what the driver read.
pub open spec fn column_values(
    cols: Seq<ColumnDescriptor>,
    cells: Seq<DecodedView>,
    policy: OnDecodeError,
) -> Entries
    recommends
        cols.len() == cells.len(),
{
    Seq::new(
        cols.len(),
        |i: int| (cols[i].name@, converted(rule_of(cols[i].declared@), cols[i].declared@, cells[i], policy)),
    )
}

/// Converts one row: each column in order, by the rule of its declared type,
/// into a mapping where a later column overwrites an earlier one of the same
/// name. A failed decode is handled by `policy`.
pub fn convert_row(
    columns: &Vec<ColumnDescriptor>,
    cells: &Vec<Decoded>,
    policy: OnDecodeError,
) -> (r: RowResult)
    requires
        columns@.len() == cells@.len(),
    ensures
        r.wf(),
        r@ == assemble(column_values(columns@, cells@.map_values(|d: Decoded| d@), policy)),
{
    let ghost vals = column_values(columns@, cells@.map_values(|d: Decoded| d@), policy);
    let mut row = RowResult::new();
    let n = columns.len();
    let mut i: usize = 0;
    while i < n
        invariant
            n == columns@.len(),
            n == cells@.len(),
            i <= n,
            vals == column_values(columns@, cells@.map_values(|d: Decoded| d@), policy),
            row.wf(),
            row@ == assemble(vals.subrange(0, i as int)),
        decreases n - i,
    {
        let col = &columns[i];
        let rule = rule_for(col.declared.as_str());
        let value = convert_value(rule, col.declared.as_str(), &cells[i], policy);
        row.insert(col.name.clone(), value);
        proof {
            let p = vals.subrange(0, i + 1);
            assert(p.drop_last() =~= vals.subrange(0, i as int));
            assert(p.last() == vals[i as int]);
        }
        i = i + 1;
    }
    proof {
        assert(vals.subrange(0, n as int) =~= vals);
    }
    row
}

/// Setting a name twice keeps the later value, in the place the name first
/// took.
pub proof fn lemma_last_write_wins(s: Entries, k: Seq<char>, v1: ValueView, v2: ValueView)
    requires
        names_unique(s),
    ensures
        row_insert(row_insert(s, k, v1), k, v2) == row_insert(s, k, v2),
{
    let t = row_insert(s, k, v1);
    if has_name(s, k) {
        let i = choose|i: int| 0 <= i < s.len() && s[i].0 == k;
        assert(t[i].0 == k);
        let j = choose|j: int| 0 <= j < t.len() && t[j].0 == k;
        assert(j == i) by {
            if j != i {
                assert(s[j].0 == k);
            }
        }
        assert(t.update(i, (k, v2)) =~= s.update(i, (k, v2)));
    } else {
        assert(t[s.len() as int].0 == k);
        let j = choose|j: int| 0 <= j < t.len() && t[j].0 == k;
        assert(j == s.len()) by {
            if j < s.len() {
                assert(s[j].0 == k);
            }
        }
        assert(t.update(j, (k, v2)) =~= s.push((k, v2)));
    }
}

/// Two columns of one name make a single entry that holds the later value.
pub proof fn lemma_duplicate_column_name(k: Seq<char>, v1: ValueView, v2: ValueView)
    ensures
        assemble(seq![(k, v1), (k, v2)]) == seq![(k, v2)],
{
    let cols = seq![(k, v1), (k, v2)];
    assert(cols.drop_last() =~= seq![(k, v1)]);
    assert(seq![(k, v1)].drop_last() =~= Seq::<(Seq<char>, ValueView)>::empty());
    let empty = Seq::<(Seq<char>, ValueView)>::empty();
    assert(!has_name(empty, k));
    assert(row_insert(empty, k, v1) =~= seq![(k, v1)]);
    let one = seq![(k, v1)];
    assert(one[0].0 == k);
    assert(has_name(one, k));
    assert(row_insert(one, k, v2) =~= seq![(k, v2)]);
    assert(assemble(empty) == empty);
    assert(assemble(one) == row_insert(assemble(empty), k, v1));
    assert(assemble(cols) == row_insert(assemble(one), k, v2));
}

/// The value under `k` in a mapping, if any.
pub open spec fn lookup(s: Entries, k: Seq<char>) -> Option<ValueView> {
    if has_name(s, k) {
        Some(s[choose|i: int| 0 <= i < s.len() && s[i].0 == k].1)
    } else {
        None
    }
}

/// The value of the last of `cols` named `k`, if any.
pub open spec fn last_value(cols: Entries, k: Seq<char>) -> Option<ValueView>
    decreases cols.len(),
{
    if cols.len() == 0 {
        None
    } else if cols.last().0 == k {
        Some(cols.last().1)
    } else {
        last_value(cols.drop_last(), k)
    }
}

/// Setting a name keeps names unique, gives that name the new value and
/// leaves every other name as it was.
pub proof fn lemma_insert_lookup(s: Entries, k: Seq<char>, v: ValueView, k2: Seq<char>)
    requires
        names_unique(s),
    ensures
        names_unique(row_insert(s, k, v)),
        lookup(row_insert(s, k, v), k2) == (if k2 == k { Some(v) } else { lookup(s, k2) }),
{
    let t = row_insert(s, k, v);
    if has_name(s, k) {
        let i = choose|i: int| 0 <= i < s.len() && s[i].0 == k;
        assert(t.len() == s.len());
        assert forall|a: int, b: int|
            0 <= a < t.len() && 0 <= b < t.len() && a != b implies t[a].0 != t[b].0 by {
            assert(s[a].0 != s[b].0);
        }
        assert(forall|a: int| 0 <= a < t.len() ==> t[a].0 == s[a].0);
        if k2 == k {
            assert(t[i].0 == k);
            let j = choose|j: int| 0 <= j < t.len() && t[j].0 == k2;
            if j != i {
                assert(s[j].0 == k);
            }
        } else if has_name(s, k2) {
            let j = choose|j: int| 0 <= j < s.len() && s[j].0 == k2;
            assert(t[j].0 == k2);
            let j2 = choose|j2: int| 0 <= j2 < t.len() && t[j2].0 == k2;
            assert(j2 == j) by {
                if j2 != j {
                    assert(s[j2].0 == k2);
                }
            }
        } else {
            assert(!has_name(t, k2)) by {
                if has_name(t, k2) {
                    let j = choose|j: int| 0 <= j < t.len() && t[j].0 == k2;
                    assert(s[j].0 == k2);
                }
            }
        }
    } else {
        assert(t == s.push((k, v)));
        assert forall|a: int, b: int|
            0 <= a < t.len() && 0 <= b < t.len() && a != b implies t[a].0 != t[b].0 by {
            if a < s.len() && b < s.len() {
                assert(s[a].0 != s[b].0);
            } else if a < s.len() {
                assert(s[a].0 != k);
            } else {
                assert(s[b].0 != k);
            }
        }
        if k2 == k {
            assert(t[s.len() as int].0 == k);
            let j = choose|j: int| 0 <= j < t.len() && t[j].0 == k2;
            if j < s.len() {
                assert(s[j].0 == k);
            }
        } else if has_name(s, k2) {
            let j = choose|j: int| 0 <= j < s.len() && s[j].0 == k2;
            assert(t[j].0 == k2);
            let j2 = choose|j2: int| 0 <= j2 < t.len() && t[j2].0 == k2;
            assert(j2 == j) by {
                if j2 != j {
                    if j2 < s.len() {
                        assert(s[j2].0 == k2);
                    }
                }
            }
        } else {
            assert(!has_name(t, k2)) by {
                if has_name(t, k2) {
                    let j = choose|j: int| 0 <= j < t.len() && t[j].0 == k2;
                    if j < s.len() {
                        assert(s[j].0 == k2);
                    }
                }
            }
        }
    }
}

/// In an assembled row every name holds the value of the last column of that
/// name, and names are unique.
pub proof fn lemma_assembled_value_is_last(cols: Entries, k: Seq<char>)
    ensures
        names_unique(assemble(cols)),
        lookup(assemble(cols), k) == last_value(cols, k),
    decreases cols.len(),
{
    if cols.len() == 0 {
        let e = Seq::<(Seq<char>, ValueView)>::empty();
        assert(assemble(cols) == e);
        assert(!has_name(e, k));
    } else {
        let prefix = cols.drop_last();
        lemma_assembled_value_is_last(prefix, k);
        lemma_insert_lookup(assemble(prefix), cols.last().0, cols.last().1, k);
    }
}

} // verus!
