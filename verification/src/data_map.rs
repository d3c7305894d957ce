use vstd::prelude::*;

use crate::data_types::{DataTypes, DATA_TYPE_COUNT};
use crate::data_value::{
    duplicate_entries, entries_spelled, entry_models, lemma_entries_spelled_index,
    lemma_entry_models_index, lemma_entry_models_push, markers_spelled, model, DataValue, Value,
};

verus! {

/// Keys strictly increase (by wire byte) along the entries: a map, held in key order,
/// with each key at most once.
pub open spec fn keys_ascending(m: Seq<(DataTypes, Value)>) -> bool {
    forall|i: int, j: int| 0 <= i < j < m.len() ==> m[i].0.code() < m[j].0.code()
}

/// The value held under `k`, if any.
pub open spec fn lookup(m: Seq<(DataTypes, Value)>, k: DataTypes) -> Option<Value>
    decreases m.len(),
{
    if m.len() == 0 {
        None
    } else if m[0].0 == k {
        Some(m[0].1)
    } else {
        lookup(m.drop_first(), k)
    }
}

/// The entries with `k` set to `v`: its entry replaced in place, or a new entry put where
/// the key order wants it.
pub open spec fn map_insert(m: Seq<(DataTypes, Value)>, k: DataTypes, v: Value) -> Seq<
    (DataTypes, Value),
>
    decreases m.len(),
{
    if m.len() == 0 {
        seq![(k, v)]
    } else if k.code() < m[0].0.code() {
        seq![(k, v)] + m
    } else if k == m[0].0 {
        seq![(k, v)] + m.drop_first()
    } else {
        seq![m[0]] + map_insert(m.drop_first(), k, v)
    }
}

/// The map that the entries give when set one after the other, from the empty map: a
/// later entry for a key overrides an earlier one.
pub open spec fn map_of_entries(es: Seq<(DataTypes, Value)>) -> Seq<(DataTypes, Value)>
    decreases es.len(),
{
    if es.len() == 0 {
        Seq::empty()
    } else {
        map_insert(map_of_entries(es.drop_last()), es.last().0, es.last().1)
    }
}

/// Distinct keys have distinct wire bytes.
pub proof fn lemma_code_injective(a: DataTypes, b: DataTypes)
    ensures
        a.code() == b.code() ==> a == b,
{
    crate::data_types::lemma_data_type_code_roundtrip(a, 0);
    crate::data_types::lemma_data_type_code_roundtrip(b, 0);
}

/// Where `map_insert` puts the entry, for a map in key order.
pub proof fn lemma_map_insert_split(m: Seq<(DataTypes, Value)>, k: DataTypes, v: Value, i: int)
    requires
        keys_ascending(m),
        0 <= i <= m.len(),
        forall|j: int| 0 <= j < i ==> #[trigger] m[j].0.code() < k.code(),
        i < m.len() ==> m[i].0.code() >= k.code(),
    ensures
        i < m.len() && m[i].0 == k ==> map_insert(m, k, v) == m.take(i) + seq![(k, v)] + m.skip(
            i + 1,
        ),
        !(i < m.len() && m[i].0 == k) ==> map_insert(m, k, v) == m.take(i) + seq![(k, v)]
            + m.skip(i),
    decreases m.len(),
{
    if m.len() == 0 {
        assert(m.take(i) + seq![(k, v)] + m.skip(i) =~= seq![(k, v)]);
    } else if i == 0 {
        if m[0].0 == k {
            assert(m.take(0) + seq![(k, v)] + m.skip(1) =~= seq![(k, v)] + m.drop_first());
        } else {
            lemma_code_injective(m[0].0, k);
            assert(m.take(0) + seq![(k, v)] + m.skip(0) =~= seq![(k, v)] + m);
        }
    } else {
        let rest = m.drop_first();
        assert forall|j: int| 0 <= j < i - 1 implies #[trigger] rest[j].0.code() < k.code() by {
            assert(rest[j] == m[j + 1]);
        }
        lemma_map_insert_split(rest, k, v, i - 1);
        assert(m[0].0.code() < k.code());
        if i < m.len() && m[i].0 == k {
            assert(m.take(i) + seq![(k, v)] + m.skip(i + 1) =~= seq![m[0]] + (rest.take(i - 1)
                + seq![(k, v)] + rest.skip(i)));
        } else {
            assert(m.take(i) + seq![(k, v)] + m.skip(i) =~= seq![m[0]] + (rest.take(i - 1) + seq![
                (k, v),
            ] + rest.skip(i - 1)));
        }
    }
}

/// Setting a key keeps the map in key order, gives the key its new value and leaves every
/// other key as it was.
pub proof fn lemma_map_insert(m: Seq<(DataTypes, Value)>, k: DataTypes, v: Value)
    requires
        keys_ascending(m),
    ensures
        keys_ascending(map_insert(m, k, v)),
        lookup(map_insert(m, k, v), k) == Some(v),
        forall|k2: DataTypes| k2 != k ==> #[trigger] lookup(map_insert(m, k, v), k2) == lookup(m, k2),
    decreases m.len(),
{
    let r = map_insert(m, k, v);
    if m.len() == 0 {
    } else {
        let rest = m.drop_first();
        assert forall|i: int, j: int| 0 <= i < j < rest.len() implies rest[i].0.code()
            < rest[j].0.code() by {
            assert(rest[i] == m[i + 1] && rest[j] == m[j + 1]);
        }
        lemma_map_insert(rest, k, v);
        if k.code() < m[0].0.code() {
            assert(r.drop_first() =~= m);
            assert forall|i: int, j: int| 0 <= i < j < r.len() implies r[i].0.code()
                < r[j].0.code() by {
                if i > 0 {
                    assert(r[i] == m[i - 1]);
                }
                assert(r[j] == m[j - 1]);
            }
        } else if k == m[0].0 {
            assert(r.drop_first() =~= rest);
            assert forall|i: int, j: int| 0 <= i < j < r.len() implies r[i].0.code()
                < r[j].0.code() by {
                assert(r[j] == m[j]);
                if i > 0 {
                    assert(r[i] == m[i]);
                }
            }
        } else {
            lemma_code_injective(k, m[0].0);
            assert(r.drop_first() =~= map_insert(rest, k, v));
            lemma_map_insert_keys(rest, k, v);
            assert forall|i: int, j: int| 0 <= i < j < r.len() implies r[i].0.code()
                < r[j].0.code() by {
                if i == 0 {
                    assert(r[j] == map_insert(rest, k, v)[j - 1]);
                } else {
                    assert(r[i] == map_insert(rest, k, v)[i - 1]);
                    assert(r[j] == map_insert(rest, k, v)[j - 1]);
                }
            }
        }
    }
}

/// Every key of `map_insert(m, k, v)` is `k` or a key of `m`.
pub proof fn lemma_map_insert_keys(m: Seq<(DataTypes, Value)>, k: DataTypes, v: Value)
    ensures
        forall|i: int|
            0 <= i < map_insert(m, k, v).len() ==> (#[trigger] map_insert(m, k, v)[i].0 == k
                || exists|j: int| 0 <= j < m.len() && m[j].0 == map_insert(m, k, v)[i].0),
    decreases m.len(),
{
    let r = map_insert(m, k, v);
    if m.len() > 0 {
        let rest = m.drop_first();
        lemma_map_insert_keys(rest, k, v);
        assert forall|i: int| 0 <= i < r.len() implies (#[trigger] r[i].0 == k || exists|j: int|
            0 <= j < m.len() && m[j].0 == r[i].0) by {
            if k.code() < m[0].0.code() {
                if i > 0 {
                    assert(m[i - 1].0 == r[i].0);
                }
            } else if k == m[0].0 {
                if i > 0 {
                    assert(m[i].0 == r[i].0);
                }
            } else {
                if i == 0 {
                    assert(m[0].0 == r[0].0);
                } else {
                    let q = map_insert(rest, k, v);
                    assert(r[i] == q[i - 1]);
                    if q[i - 1].0 != k {
                        let j = choose|j: int| 0 <= j < rest.len() && rest[j].0 == q[i - 1].0;
                        assert(m[j + 1].0 == r[i].0);
                    }
                }
            }
        }
    }
}

/// A key that does not occur has no value.
pub proof fn lemma_lookup_absent(m: Seq<(DataTypes, Value)>, k: DataTypes)
    requires
        forall|i: int| 0 <= i < m.len() ==> #[trigger] m[i].0 != k,
    ensures
        lookup(m, k) is None,
    decreases m.len(),
{
    if m.len() > 0 {
        assert forall|i: int| 0 <= i < m.drop_first().len() implies #[trigger] m.drop_first()[i].0
            != k by {
            assert(m.drop_first()[i] == m[i + 1]);
        }
        lemma_lookup_absent(m.drop_first(), k);
    }
}

/// Entries already in key order give themselves as a map.
pub proof fn lemma_map_of_ascending(m: Seq<(DataTypes, Value)>)
    requires
        keys_ascending(m),
    ensures
        map_of_entries(m) == m,
    decreases m.len(),
{
    if m.len() > 0 {
        let d = m.drop_last();
        lemma_map_of_ascending(d);
        let i = d.len() as int;
        assert forall|j: int| 0 <= j < i implies #[trigger] d[j].0.code() < m.last().0.code() by {
            assert(d[j] == m[j]);
        }
        lemma_map_insert_split(d, m.last().0, m.last().1, i);
        assert(d.take(i) + seq![(m.last().0, m.last().1)] + d.skip(i) =~= m);
    }
}

/// A map in key order has at most one entry per key, so at most `DATA_TYPE_COUNT`.
pub proof fn lemma_ascending_len(m: Seq<(DataTypes, Value)>)
    requires
        keys_ascending(m),
    ensures
        m.len() <= DATA_TYPE_COUNT,
{
    if m.len() > 0 {
        lemma_code_at_least_index(m, m.len() - 1);
        crate::data_types::lemma_data_type_code_roundtrip(m[m.len() - 1].0, 0);
        assert(m[m.len() - 1].0.code() < DATA_TYPE_COUNT);
    }
}

proof fn lemma_code_at_least_index(m: Seq<(DataTypes, Value)>, i: int)
    requires
        keys_ascending(m),
        0 <= i < m.len(),
    ensures
        m[i].0.code() >= i,
    decreases i,
{
    if i > 0 {
        lemma_code_at_least_index(m, i - 1);
    }
}

/// Position of the entry for `k`, if the map holds one.
pub fn map_find(m: &Vec<(DataTypes, DataValue)>, k: DataTypes) -> (r: Option<usize>)
    ensures
        r matches Some(i) ==> i < m@.len() && m@[i as int].0 == k && lookup(entry_models(m@), k)
            == Some(model(m@[i as int].1)),
        r is None ==> lookup(entry_models(m@), k) is None,
{
    let ghost mm = entry_models(m@);
    proof {
        lemma_entry_models_index(m@);
    }
    let mut i: usize = 0;
    proof {
        assert(mm.skip(0) =~= mm);
    }
    while i < m.len()
        invariant
            i <= m@.len(),
            mm == entry_models(m@),
            mm.len() == m@.len(),
            forall|j: int| 0 <= j < m@.len() ==> #[trigger] mm[j] == (m@[j].0, model(m@[j].1)),
            lookup(mm, k) == lookup(mm.skip(i as int), k),
        decreases m@.len() - i,
    {
        proof {
            assert(mm.skip(i as int).drop_first() =~= mm.skip(i + 1));
        }
        if m[i].0 == k {
            return Some(i);
        }
        i += 1;
    }
    proof {
        assert(mm.skip(i as int) =~= Seq::<(DataTypes, Value)>::empty());
    }
    None
}

/// Sets `k` to `v` in a map held in key order.
pub fn map_set(m: &mut Vec<(DataTypes, DataValue)>, k: DataTypes, v: DataValue)
    requires
        keys_ascending(entry_models(old(m)@)),
    ensures
        entry_models(final(m)@) == map_insert(entry_models(old(m)@), k, v@),
        keys_ascending(entry_models(final(m)@)),
        entries_spelled(old(m)@) && markers_spelled(v) ==> entries_spelled(final(m)@),
{
    let ghost mm = entry_models(m@);
    let ghost vv = v@;
    proof {
        lemma_entry_models_index(m@);
        lemma_map_insert(mm, k, vv);
    }
    let kn = k.as_number();
    let mut i: usize = 0;
    while i < m.len() && m[i].0.as_number() < kn
        invariant
            i <= m@.len(),
            mm == entry_models(m@),
            mm.len() == m@.len(),
            forall|j: int| 0 <= j < m@.len() ==> #[trigger] mm[j] == (m@[j].0, model(m@[j].1)),
            forall|j: int| 0 <= j < i ==> #[trigger] mm[j].0.code() < k.code(),
            kn == k.code(),
        decreases m@.len() - i,
    {
        i += 1;
    }
    proof {
        lemma_map_insert_split(mm, k, vv, i as int);
    }
    let ghost old_m = m@;
    proof {
        lemma_entries_spelled_index(old_m);
    }
    if i < m.len() && m[i].0 == k {
        m.set(i, (k, v));
        proof {
            lemma_entry_models_index(m@);
            assert(entry_models(m@) =~= mm.take(i as int) + seq![(k, vv)] + mm.skip(i + 1));
            lemma_entries_spelled_index(m@);
        }
    } else {
        m.insert(i, (k, v));
        proof {
            lemma_entry_models_index(m@);
            assert(entry_models(m@) =~= mm.take(i as int) + seq![(k, vv)] + mm.skip(i as int));
            lemma_entries_spelled_index(m@);
        }
    }
}

/// The map that the entries give when set one after the other.
pub fn map_from_entries(es: &Vec<(DataTypes, DataValue)>) -> (r: Vec<(DataTypes, DataValue)>)
    ensures
        entry_models(r@) == map_of_entries(entry_models(es@)),
        keys_ascending(entry_models(r@)),
        entries_spelled(es@) ==> entries_spelled(r@),
{
    let ghost me = entry_models(es@);
    proof {
        lemma_entry_models_index(es@);
    }
    let mut out: Vec<(DataTypes, DataValue)> = Vec::new();
    let mut i: usize = 0;
    proof {
        lemma_entries_spelled_index(es@);
        assert(me.take(0) =~= Seq::<(DataTypes, Value)>::empty());
        assert(entry_models(out@) =~= Seq::<(DataTypes, Value)>::empty());
    }
    while i < es.len()
        invariant
            i <= es@.len(),
            me == entry_models(es@),
            me.len() == es@.len(),
            forall|j: int| 0 <= j < es@.len() ==> #[trigger] me[j] == (es@[j].0, model(es@[j].1)),
            entry_models(out@) == map_of_entries(me.take(i as int)),
            keys_ascending(entry_models(out@)),
            entries_spelled(es@) ==> entries_spelled(out@),
            entries_spelled(es@) ==> forall|j: int|
                0 <= j < es@.len() ==> markers_spelled(#[trigger] es@[j].1),
        decreases es@.len() - i,
    {
        proof {
            assert(me.take(i + 1).drop_last() =~= me.take(i as int));
        }
        let v = es[i].1.duplicate();
        map_set(&mut out, es[i].0, v);
        i += 1;
    }
    proof {
        assert(me.take(es@.len() as int) =~= me);
    }
    out
}

impl DataValue {
    /// The entries of a container as a map in key order (a later entry for a key wins).
    pub fn as_map(&self) -> (r: Option<Vec<(DataTypes, DataValue)>>)
        ensures
            r is Some <==> self@ is Container,
            r matches Some(m) ==> (self@ matches Value::Container(c) && entry_models(m@)
                == map_of_entries(c)),
            r matches Some(m) ==> keys_ascending(entry_models(m@)),
            markers_spelled(*self) ==> (r matches Some(m) ==> entries_spelled(m@)),
    {
        match self {
            DataValue::Container(c) => Some(map_from_entries(c)),
            _ => None,
        }
    }
}

} // verus!
