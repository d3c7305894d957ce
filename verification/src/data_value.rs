use vstd::prelude::*;

use crate::data_types::DataTypes;

verus! {

/// Shape of a data value, as a key expects it and as `DataValue::kind` reports it.
#[derive(Debug, PartialEq, Eq)]
pub enum DataKind {
    Bool,
    Number,
    Str,
    Array(Box<DataKind>),
    Container,
    Null,
}

impl DataKind {
    /// A copy of the kind, equal to it.
    pub fn duplicate(&self) -> (r: DataKind)
        ensures
            r == *self,
        decreases self,
    {
        match self {
            DataKind::Bool => DataKind::Bool,
            DataKind::Number => DataKind::Number,
            DataKind::Str => DataKind::Str,
            DataKind::Array(inner) => DataKind::Array(Box::new(inner.duplicate())),
            DataKind::Container => DataKind::Container,
            DataKind::Null => DataKind::Null,
        }
    }
}

impl Clone for DataKind {
    fn clone(&self) -> (r: Self)
        ensures
            r == *self,
    {
        self.duplicate()
    }
}

/// A value carried in a message: a boolean (three spellings of it), a number, a
/// text, an array of values, a container of keyed values, or nothing.
#[derive(Debug)]
pub enum DataValue {
    BoolTrue,
    BoolFalse,
    Bool(bool),
    Number(i64),
    Str(String),
    Array(Vec<DataValue>),
    Container(Vec<(DataTypes, DataValue)>),
    Null,
}

/// What a `DataValue` means: the three boolean spellings are one boolean, a text is
/// its characters.
pub enum Value {
    Bool(bool),
    Number(i64),
    Str(Seq<char>),
    Array(Seq<Value>),
    Container(Seq<(DataTypes, Value)>),
    Null,
}

/// The meaning of a data value.
pub open spec fn model(v: DataValue) -> Value
    decreases v,
{
    match v {
        DataValue::BoolTrue => Value::Bool(true),
        DataValue::BoolFalse => Value::Bool(false),
        DataValue::Bool(b) => Value::Bool(b),
        DataValue::Number(n) => Value::Number(n),
        DataValue::Str(s) => Value::Str(s@),
        DataValue::Array(a) => Value::Array(models(a@)),
        DataValue::Container(c) => Value::Container(entry_models(c@)),
        DataValue::Null => Value::Null,
    }
}

/// The meanings of a sequence of data values.
pub open spec fn models(s: Seq<DataValue>) -> Seq<Value>
    decreases s,
{
    if s.len() == 0 {
        Seq::empty()
    } else {
        models(s.drop_last()).push(model(s.last()))
    }
}

/// The meanings of a sequence of keyed data values.
pub open spec fn entry_models(s: Seq<(DataTypes, DataValue)>) -> Seq<(DataTypes, Value)>
    decreases s,
{
    if s.len() == 0 {
        Seq::empty()
    } else {
        entry_models(s.drop_last()).push((s.last().0, model(s.last().1)))
    }
}

/// Every boolean inside the value is spelled `BoolTrue` or `BoolFalse`, as decoding
/// gives them; none is spelled `Bool(_)`. With the meaning, this fixes the variant of
/// every part of the value.
pub open spec fn markers_spelled(v: DataValue) -> bool
    decreases v,
{
    match v {
        DataValue::Bool(_) => false,
        DataValue::Array(a) => items_spelled(a@),
        DataValue::Container(c) => entries_spelled(c@),
        _ => true,
    }
}

/// `markers_spelled` holds of every item.
pub open spec fn items_spelled(s: Seq<DataValue>) -> bool
    decreases s,
{
    if s.len() == 0 {
        true
    } else {
        items_spelled(s.drop_last()) && markers_spelled(s.last())
    }
}

/// `markers_spelled` holds of every entry's value.
pub open spec fn entries_spelled(s: Seq<(DataTypes, DataValue)>) -> bool
    decreases s,
{
    if s.len() == 0 {
        true
    } else {
        entries_spelled(s.drop_last()) && markers_spelled(s.last().1)
    }
}

/// Adding a spelled item keeps a sequence spelled.
pub proof fn lemma_items_spelled_push(s: Seq<DataValue>, x: DataValue)
    ensures
        items_spelled(s.push(x)) == (items_spelled(s) && markers_spelled(x)),
{
    assert(s.push(x).drop_last() =~= s);
}

/// Adding a spelled entry keeps entries spelled.
pub proof fn lemma_entries_spelled_push(s: Seq<(DataTypes, DataValue)>, x: (DataTypes, DataValue))
    ensures
        entries_spelled(s.push(x)) == (entries_spelled(s) && markers_spelled(x.1)),
{
    assert(s.push(x).drop_last() =~= s);
}

/// Entries are spelled exactly when each entry's value is.
pub proof fn lemma_entries_spelled_index(s: Seq<(DataTypes, DataValue)>)
    ensures
        entries_spelled(s) <==> forall|i: int| 0 <= i < s.len() ==> markers_spelled(#[trigger] s[i].1),
    decreases s.len(),
{
    if s.len() > 0 {
        lemma_entries_spelled_index(s.drop_last());
        assert forall|i: int| 0 <= i < s.len() - 1 implies s.drop_last()[i] == s[i] by {}
    }
}

impl View for DataValue {
    type V = Value;

    open spec fn view(&self) -> Value {
        model(*self)
    }
}

/// The meanings of a sequence are the meanings of its items, one by one.
pub proof fn lemma_models_index(s: Seq<DataValue>)
    ensures
        models(s).len() == s.len(),
        forall|i: int| 0 <= i < s.len() ==> #[trigger] models(s)[i] == model(s[i]),
    decreases s.len(),
{
    if s.len() > 0 {
        lemma_models_index(s.drop_last());
    }
}

/// The meanings of keyed values are those of each entry, key kept.
pub proof fn lemma_entry_models_index(s: Seq<(DataTypes, DataValue)>)
    ensures
        entry_models(s).len() == s.len(),
        forall|i: int|
            0 <= i < s.len() ==> #[trigger] entry_models(s)[i] == (s[i].0, model(s[i].1)),
    decreases s.len(),
{
    if s.len() > 0 {
        lemma_entry_models_index(s.drop_last());
    }
}

/// The meanings grow with the sequence.
pub proof fn lemma_models_push(s: Seq<DataValue>, x: DataValue)
    ensures
        models(s.push(x)) == models(s).push(model(x)),
{
    assert(s.push(x).drop_last() =~= s);
}

/// The meanings of keyed values grow with the entries.
pub proof fn lemma_entry_models_push(s: Seq<(DataTypes, DataValue)>, x: (DataTypes, DataValue))
    ensures
        entry_models(s.push(x)) == entry_models(s).push((x.0, model(x.1))),
{
    assert(s.push(x).drop_last() =~= s);
}

impl DataValue {
    /// A copy of the value with the same meaning and the same boolean spellings.
    pub fn duplicate(&self) -> (r: DataValue)
        ensures
            r@ == self@,
            markers_spelled(r) == markers_spelled(*self),
        decreases self,
    {
        match self {
            DataValue::BoolTrue => DataValue::BoolTrue,
            DataValue::BoolFalse => DataValue::BoolFalse,
            DataValue::Bool(b) => DataValue::Bool(*b),
            DataValue::Number(n) => DataValue::Number(*n),
            DataValue::Str(s) => DataValue::Str(s.clone()),
            DataValue::Array(a) => DataValue::Array(duplicate_values(a)),
            DataValue::Container(c) => DataValue::Container(duplicate_entries(c)),
            DataValue::Null => DataValue::Null,
        }
    }
}

/// Copies of the values, in order, with the same meanings.
pub fn duplicate_values(a: &Vec<DataValue>) -> (r: Vec<DataValue>)
    ensures
        models(r@) == models(a@),
        items_spelled(r@) == items_spelled(a@),
    decreases a,
{
    let mut out: Vec<DataValue> = Vec::new();
    let mut i: usize = 0;
    while i < a.len()
        invariant
            i <= a@.len(),
            models(out@) == models(a@.take(i as int)),
            items_spelled(out@) == items_spelled(a@.take(i as int)),
        decreases a@.len() - i,
    {
        proof {
            assert(decreases_to!(a => a@[i as int]));
            lemma_models_push(out@, a@[i as int]);
            assert(a@.take(i + 1) =~= a@.take(i as int).push(a@[i as int]));
            lemma_models_push(a@.take(i as int), a@[i as int]);
            lemma_items_spelled_push(a@.take(i as int), a@[i as int]);
        }
        let d = a[i].duplicate();
        proof {
            lemma_models_push(out@, d);
            lemma_items_spelled_push(out@, d);
        }
        out.push(d);
        i += 1;
    }
    proof {
        assert(a@.take(a@.len() as int) =~= a@);
    }
    out
}

/// Copies of the keyed values, in order, with the same keys and meanings.
pub fn duplicate_entries(c: &Vec<(DataTypes, DataValue)>) -> (r: Vec<(DataTypes, DataValue)>)
    ensures
        entry_models(r@) == entry_models(c@),
        entries_spelled(r@) == entries_spelled(c@),
    decreases c,
{
    let mut out: Vec<(DataTypes, DataValue)> = Vec::new();
    let mut i: usize = 0;
    while i < c.len()
        invariant
            i <= c@.len(),
            entry_models(out@) == entry_models(c@.take(i as int)),
            entries_spelled(out@) == entries_spelled(c@.take(i as int)),
        decreases c@.len() - i,
    {
        proof {
            assert(decreases_to!(c => c@[i as int].1));
            assert(c@.take(i + 1) =~= c@.take(i as int).push(c@[i as int]));
            lemma_entry_models_push(c@.take(i as int), c@[i as int]);
            lemma_entries_spelled_push(c@.take(i as int), c@[i as int]);
        }
        let d = c[i].1.duplicate();
        let e = (c[i].0, d);
        proof {
            lemma_entry_models_push(out@, e);
            lemma_entries_spelled_push(out@, e);
        }
        out.push(e);
        i += 1;
    }
    proof {
        assert(c@.take(c@.len() as int) =~= c@);
    }
    out
}

impl Clone for DataValue {
    fn clone(&self) -> (r: Self)
        ensures
            r@ == self@,
    {
        self.duplicate()
    }
}

/// Whether two values mean the same: the equality of `DataValue`.
pub fn values_equal(a: &DataValue, b: &DataValue) -> (r: bool)
    ensures
        r == (a@ == b@),
    decreases a,
{
    match (a, b) {
        (DataValue::Number(x), DataValue::Number(y)) => *x == *y,
        (DataValue::Str(x), DataValue::Str(y)) => x.eq(y),
        (DataValue::Array(x), DataValue::Array(y)) => arrays_equal(x, y),
        (DataValue::Container(x), DataValue::Container(y)) => containers_equal(x, y),
        (DataValue::Null, DataValue::Null) => true,
        _ => {
            match (a.as_bool(), b.as_bool()) {
                (Some(x), Some(y)) => x == y,
                _ => false,
            }
        }
    }
}

/// Whether two arrays hold values with the same meanings, in the same order.
pub fn arrays_equal(x: &Vec<DataValue>, y: &Vec<DataValue>) -> (r: bool)
    ensures
        r == (models(x@) == models(y@)),
    decreases x,
{
    proof {
        lemma_models_index(x@);
        lemma_models_index(y@);
    }
    if x.len() != y.len() {
        return false;
    }
    let mut i: usize = 0;
    while i < x.len()
        invariant
            i <= x@.len(),
            x@.len() == y@.len(),
            models(x@).len() == x@.len(),
            models(y@).len() == y@.len(),
            forall|j: int| 0 <= j < x@.len() ==> #[trigger] models(x@)[j] == model(x@[j]),
            forall|j: int| 0 <= j < y@.len() ==> #[trigger] models(y@)[j] == model(y@[j]),
            forall|j: int| 0 <= j < i ==> models(x@)[j] == models(y@)[j],
        decreases x@.len() - i,
    {
        proof {
            assert(decreases_to!(x => x@[i as int]));
        }
        if !values_equal(&x[i], &y[i]) {
            assert(models(x@)[i as int] != models(y@)[i as int]);
            return false;
        }
        i += 1;
    }
    assert(models(x@) =~= models(y@));
    true
}

/// Whether two containers hold the same keys with values of the same meanings, in the
/// same order.
pub fn containers_equal(x: &Vec<(DataTypes, DataValue)>, y: &Vec<(DataTypes, DataValue)>) -> (r:
    bool)
    ensures
        r == (entry_models(x@) == entry_models(y@)),
    decreases x,
{
    proof {
        lemma_entry_models_index(x@);
        lemma_entry_models_index(y@);
    }
    if x.len() != y.len() {
        return false;
    }
    let mut i: usize = 0;
    while i < x.len()
        invariant
            i <= x@.len(),
            x@.len() == y@.len(),
            entry_models(x@).len() == x@.len(),
            entry_models(y@).len() == y@.len(),
            forall|j: int|
                0 <= j < x@.len() ==> #[trigger] entry_models(x@)[j] == (x@[j].0, model(x@[j].1)),
            forall|j: int|
                0 <= j < y@.len() ==> #[trigger] entry_models(y@)[j] == (y@[j].0, model(y@[j].1)),
            forall|j: int| 0 <= j < i ==> entry_models(x@)[j] == entry_models(y@)[j],
        decreases x@.len() - i,
    {
        proof {
            assert(decreases_to!(x => x@[i as int].1));
        }
        if x[i].0 != y[i].0 || !values_equal(&x[i].1, &y[i].1) {
            assert(entry_models(x@)[i as int] != entry_models(y@)[i as int]);
            return false;
        }
        i += 1;
    }
    assert(entry_models(x@) =~= entry_models(y@));
    true
}

impl PartialEq for DataValue {
    fn eq(&self, other: &Self) -> (r: bool) {
        values_equal(self, other)
    }
}

impl vstd::std_specs::cmp::PartialEqSpecImpl for DataValue {
    open spec fn obeys_eq_spec() -> bool {
        true
    }

    open spec fn eq_spec(&self, other: &Self) -> bool {
        self@ == other@
    }
}

impl Eq for DataValue {

}

/// The kind a value reports: an array reports the kind of its first item (`Null`
/// when it is empty).
pub open spec fn kind_of_value(v: Value) -> DataKind
    decreases v,
{
    match v {
        Value::Bool(_) => DataKind::Bool,
        Value::Number(_) => DataKind::Number,
        Value::Str(_) => DataKind::Str,
        Value::Array(a) => if a.len() > 0 {
            DataKind::Array(Box::new(kind_of_value(a[0])))
        } else {
            DataKind::Array(Box::new(DataKind::Null))
        },
        Value::Container(_) => DataKind::Container,
        Value::Null => DataKind::Null,
    }
}

/// The kind of an array is an array of its first item's kind, whatever items follow; only
/// an array without items has the kind of an array of nulls. Every other value's kind is
/// its own shape.
pub proof fn lemma_value_kinds(
    x: Value,
    rest: Seq<Value>,
    n: i64,
    b: bool,
    t: Seq<char>,
    c: Seq<(DataTypes, Value)>,
)
    ensures
        kind_of_value(Value::Array(seq![x] + rest)) == DataKind::Array(Box::new(kind_of_value(x))),
        kind_of_value(Value::Array(seq![x] + rest)) == kind_of_value(Value::Array(seq![x])),
        kind_of_value(Value::Array(Seq::empty())) == DataKind::Array(Box::new(DataKind::Null)),
        kind_of_value(Value::Bool(b)) == DataKind::Bool,
        kind_of_value(Value::Number(n)) == DataKind::Number,
        kind_of_value(Value::Str(t)) == DataKind::Str,
        kind_of_value(Value::Null) == DataKind::Null,
        kind_of_value(Value::Container(c)) == DataKind::Container,
{
    assert((seq![x] + rest)[0] == x);
    assert(seq![x][0] == x);
}

impl DataValue {
    /// A container holding copies of the given entries, in their order.
    pub fn container_from_map(map: &Vec<(DataTypes, DataValue)>) -> (r: DataValue)
        ensures
            r@ == Value::Container(entry_models(map@)),
    {
        DataValue::Container(duplicate_entries(map))
    }

    /// The shape of the value; an array takes the shape of its first item (`Null` when
    /// it is empty).
    pub fn kind(&self) -> (r: DataKind)
        ensures
            r == kind_of_value(self@),
        decreases self,
    {
        match self {
            DataValue::Bool(_) | DataValue::BoolTrue | DataValue::BoolFalse => DataKind::Bool,
            DataValue::Number(_) => DataKind::Number,
            DataValue::Str(_) => DataKind::Str,
            DataValue::Array(a) => {
                proof {
                    lemma_models_index(a@);
                }
                if a.len() > 0 {
                    proof {
                        assert(decreases_to!(self => a@[0]));
                    }
                    DataKind::Array(Box::new(a[0].kind()))
                } else {
                    DataKind::Array(Box::new(DataKind::Null))
                }
            },
            DataValue::Container(_) => DataKind::Container,
            DataValue::Null => DataKind::Null,
        }
    }

    /// The boolean, in any of its spellings.
    pub fn as_bool(&self) -> (r: Option<bool>)
        ensures
            r == (match self@ {
                Value::Bool(b) => Some(b),
                _ => None::<bool>,
            }),
    {
        match self {
            DataValue::BoolTrue => Some(true),
            DataValue::BoolFalse => Some(false),
            DataValue::Bool(v) => Some(*v),
            _ => None,
        }
    }

    /// The text, borrowed.
    pub fn as_str(&self) -> (r: Option<&str>)
        ensures
            r is Some <==> self@ is Str,
            r matches Some(s) ==> self@ == Value::Str(s@),
    {
        match self {
            DataValue::Str(s) => Some(s.as_str()),
            _ => None,
        }
    }

    /// The text, copied.
    pub fn as_string(&self) -> (r: Option<String>)
        ensures
            r is Some <==> self@ is Str,
            r matches Some(s) ==> self@ == Value::Str(s@),
    {
        match self.as_str() {
            Some(s) => Some(s.to_string()),
            None => None,
        }
    }

    /// The number.
    pub fn as_number(&self) -> (r: Option<i64>)
        ensures
            r == (match self@ {
                Value::Number(n) => Some(n),
                _ => None::<i64>,
            }),
    {
        match self {
            DataValue::Number(n) => Some(*n),
            _ => None,
        }
    }

    /// Copies of the items of an array.
    pub fn as_array(&self) -> (r: Option<Vec<DataValue>>)
        ensures
            r is Some <==> self@ is Array,
            r matches Some(items) ==> self@ == Value::Array(models(items@)),
    {
        match self {
            DataValue::Array(a) => Some(duplicate_values(a)),
            _ => None,
        }
    }

    /// Copies of the entries of a container, in their order.
    pub fn as_container(&self) -> (r: Option<Vec<(DataTypes, DataValue)>>)
        ensures
            r is Some <==> self@ is Container,
            r matches Some(entries) ==> self@ == Value::Container(entry_models(entries@)),
    {
        match self {
            DataValue::Container(c) => Some(duplicate_entries(c)),
            _ => None,
        }
    }
}

} // verus!
