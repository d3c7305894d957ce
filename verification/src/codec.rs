use vstd::prelude::*;
use vstd::utf8::{decode_utf8, encode_utf8, valid_utf8};

use crate::data_types::{lemma_data_type_code_roundtrip, DataTypes};
use crate::data_value::{
    entries_spelled, entry_models, items_spelled, lemma_entries_spelled_push,
    lemma_entry_models_index, lemma_entry_models_push, lemma_items_spelled_push,
    lemma_models_index, lemma_models_push, markers_spelled, model, models, DataValue, Value,
};
use vstd::slice::slice_subrange;

use crate::wire::{
    be_bytes, i64_bytes, i64_of_bytes, lemma_be_bytes_len, lemma_be_roundtrip, lemma_i64_roundtrip,
    lemma_pow256_facts, push_be, push_i64, read_i64, u16_at,
};

verus! {

/// Marker byte of a `true` boolean.
pub const KIND_BOOL_TRUE: u8 = 1;

/// Marker byte of a `false` boolean.
pub const KIND_BOOL_FALSE: u8 = 2;

/// Marker byte of a number.
pub const KIND_NUMBER: u8 = 3;

/// Marker byte of a text.
pub const KIND_STR: u8 = 4;

/// Marker byte of an array.
pub const KIND_ARRAY: u8 = 5;

/// Marker byte of a container.
pub const KIND_CONTAINER: u8 = 6;

/// Marker byte of the empty value.
pub const KIND_NULL: u8 = 7;

/// The marker byte that announces a value in an array or a container.
pub open spec fn marker(v: Value) -> u8 {
    match v {
        Value::Bool(b) => if b {
            KIND_BOOL_TRUE
        } else {
            KIND_BOOL_FALSE
        },
        Value::Number(_) => KIND_NUMBER,
        Value::Str(_) => KIND_STR,
        Value::Array(_) => KIND_ARRAY,
        Value::Container(_) => KIND_CONTAINER,
        Value::Null => KIND_NULL,
    }
}

/// The item count written in a header: the count itself when it fits in two bytes,
/// 0 otherwise.
pub open spec fn count16(n: nat) -> nat {
    if n <= 0xffff {
        n
    } else {
        0
    }
}

/// Bytes of a value without marker or length: eight big-endian bytes for a number,
/// UTF-8 for a text, the encoded array or container, nothing for a boolean or null.
pub open spec fn payload_bytes(v: Value) -> Seq<u8>
    decreases v, 2int,
{
    match v {
        Value::Number(n) => i64_bytes(n),
        Value::Str(s) => encode_utf8(s),
        Value::Array(a) => array_bytes(a),
        Value::Container(c) => container_bytes(c),
        _ => Seq::empty(),
    }
}

/// One array item: the marker alone for a boolean; otherwise the marker, the
/// payload length in two bytes and the payload.  None when the payload is longer
/// than two bytes can say.
pub open spec fn array_item_bytes(v: Value) -> Option<Seq<u8>>
    decreases v, 3int,
{
    if v is Bool {
        Some(seq![marker(v)])
    } else {
        let p = payload_bytes(v);
        if p.len() > 0xffff {
            None
        } else {
            Some(seq![marker(v)] + be_bytes(p.len(), 2) + p)
        }
    }
}

/// The items of an array one after the other; None when one of them cannot be written.
pub open spec fn array_items_bytes(a: Seq<Value>) -> Option<Seq<u8>>
    decreases a, 0int,
{
    if a.len() == 0 {
        Some(Seq::empty())
    } else {
        match (array_items_bytes(a.drop_last()), array_item_bytes(a.last())) {
            (Some(x), Some(y)) => Some(x + y),
            _ => None,
        }
    }
}

/// An encoded array: the item count in two bytes, then the items; nothing at all when
/// an item cannot be written.
pub open spec fn array_bytes(a: Seq<Value>) -> Seq<u8>
    decreases a, 1int,
{
    match array_items_bytes(a) {
        Some(b) => be_bytes(count16(a.len()), 2) + b,
        None => Seq::empty(),
    }
}

/// One container entry: marker and key byte for a boolean; otherwise the marker, the
/// payload length in two bytes, the key byte and the payload.  None when the payload
/// is longer than two bytes can say.
pub open spec fn container_item_bytes(k: DataTypes, v: Value) -> Option<Seq<u8>>
    decreases v, 3int,
{
    if v is Bool {
        Some(seq![marker(v), k.code()])
    } else {
        let p = payload_bytes(v);
        if p.len() > 0xffff {
            None
        } else {
            Some(seq![marker(v)] + be_bytes(p.len(), 2) + seq![k.code()] + p)
        }
    }
}

/// The entries of a container one after the other; None when one cannot be written.
pub open spec fn container_items_bytes(c: Seq<(DataTypes, Value)>) -> Option<Seq<u8>>
    decreases c, 0int,
{
    if c.len() == 0 {
        Some(Seq::empty())
    } else {
        match (container_items_bytes(c.drop_last()), container_item_bytes(c.last().0, c.last().1)) {
            (Some(x), Some(y)) => Some(x + y),
            _ => None,
        }
    }
}

/// An encoded container: the entry count in two bytes, then the entries; nothing at all
/// when an entry cannot be written.
pub open spec fn container_bytes(c: Seq<(DataTypes, Value)>) -> Seq<u8>
    decreases c, 1int,
{
    match container_items_bytes(c) {
        Some(b) => be_bytes(count16(c.len()), 2) + b,
        None => Seq::empty(),
    }
}

/// The value of the given kind that a payload holds, when the payload is exactly one
/// such value.
pub open spec fn read_payload(kind: u8, p: Seq<u8>) -> Option<Value>
    decreases p.len(), 2int, 0int,
{
    if kind == KIND_NUMBER {
        if p.len() == 8 {
            Some(Value::Number(i64_of_bytes(p)))
        } else {
            None
        }
    } else if kind == KIND_STR {
        if valid_utf8(p) {
            Some(Value::Str(decode_utf8(p)))
        } else {
            None
        }
    } else if kind == KIND_ARRAY {
        match read_array(p) {
            Some((v, n)) => if n == p.len() {
                Some(v)
            } else {
                None
            },
            None => None,
        }
    } else if kind == KIND_CONTAINER {
        match read_container(p) {
            Some((v, n)) => if n == p.len() {
                Some(v)
            } else {
                None
            },
            None => None,
        }
    } else if kind == KIND_NULL {
        if p.len() == 0 {
            Some(Value::Null)
        } else {
            None
        }
    } else {
        None
    }
}

/// An array read from the front of `s`, with the number of bytes it took.
pub open spec fn read_array(s: Seq<u8>) -> Option<(Value, int)>
    decreases s.len(), 1int, 0int,
{
    if s.len() < 2 {
        None
    } else {
        match read_array_items(s, u16_at(s, 0)) {
            Some((items, end)) => Some((Value::Array(items), end)),
            None => None,
        }
    }
}

/// The first `n` array items of `s`, read from position 2 on, with the position after them.
pub open spec fn read_array_items(s: Seq<u8>, n: nat) -> Option<(Seq<Value>, int)>
    decreases s.len(), 0int, n + 1,
{
    if n == 0 {
        Some((Seq::empty(), 2))
    } else {
        match read_array_items(s, (n - 1) as nat) {
            Some((items, p)) => match read_array_item(s, p) {
                Some((v, q)) => Some((items.push(v), q)),
                None => None,
            },
            None => None,
        }
    }
}

/// The array item that starts at position `p` of `s`, with the position after it.
pub open spec fn read_array_item(s: Seq<u8>, p: int) -> Option<(Value, int)>
    decreases s.len(), 0int, 0int,
{
    if p < 0 || p >= s.len() {
        None
    } else if s[p] == KIND_BOOL_TRUE {
        Some((Value::Bool(true), p + 1))
    } else if s[p] == KIND_BOOL_FALSE {
        Some((Value::Bool(false), p + 1))
    } else if p + 3 > s.len() {
        None
    } else {
        let end = p + 3 + u16_at(s, p + 1);
        if end > s.len() {
            None
        } else {
            match read_payload(s[p], s.subrange(p + 3, end)) {
                Some(v) => Some((v, end)),
                None => None,
            }
        }
    }
}

/// A container read from the front of `s`, with the number of bytes it took.
pub open spec fn read_container(s: Seq<u8>) -> Option<(Value, int)>
    decreases s.len(), 1int, 0int,
{
    if s.len() < 2 {
        None
    } else {
        match read_container_items(s, u16_at(s, 0)) {
            Some((items, end)) => Some((Value::Container(items), end)),
            None => None,
        }
    }
}

/// The first `n` container entries of `s`, read from position 2 on, with the position
/// after them.
pub open spec fn read_container_items(s: Seq<u8>, n: nat) -> Option<(Seq<(DataTypes, Value)>, int)>
    decreases s.len(), 0int, n + 1,
{
    if n == 0 {
        Some((Seq::empty(), 2))
    } else {
        match read_container_items(s, (n - 1) as nat) {
            Some((items, p)) => match read_container_item(s, p) {
                Some((e, q)) => Some((items.push(e), q)),
                None => None,
            },
            None => None,
        }
    }
}

/// The container entry that starts at position `p` of `s`, with the position after it.
pub open spec fn read_container_item(s: Seq<u8>, p: int) -> Option<((DataTypes, Value), int)>
    decreases s.len(), 0int, 0int,
{
    if p < 0 || p >= s.len() {
        None
    } else if s[p] == KIND_BOOL_TRUE || s[p] == KIND_BOOL_FALSE {
        if p + 2 > s.len() {
            None
        } else {
            Some(((DataTypes::of_code(s[p + 1]), Value::Bool(s[p] == KIND_BOOL_TRUE)), p + 2))
        }
    } else if p + 4 > s.len() {
        None
    } else {
        let end = p + 4 + u16_at(s, p + 1);
        if end > s.len() {
            None
        } else {
            match read_payload(s[p], s.subrange(p + 4, end)) {
                Some(v) => Some(((DataTypes::of_code(s[p + 3]), v), end)),
                None => None,
            }
        }
    }
}

/// The value a whole byte string decodes to: a container when one reads from the front
/// (it must then take every byte), else an array that takes every byte.
pub open spec fn read_value(s: Seq<u8>) -> Option<Value> {
    if s.len() < 2 {
        None
    } else {
        match read_container(s) {
            Some((v, n)) => if n == s.len() {
                Some(v)
            } else {
                None
            },
            None => match read_array(s) {
                Some((v, n)) => if n == s.len() {
                    Some(v)
                } else {
                    None
                },
                None => None,
            },
        }
    }
}

/// A failing item stays failing when more items follow it.
pub proof fn lemma_array_items_none(a: Seq<Value>, i: int)
    requires
        0 <= i <= a.len(),
        array_items_bytes(a.take(i)) is None,
    ensures
        array_items_bytes(a) is None,
    decreases a.len() - i,
{
    if i < a.len() {
        assert(a.take(i + 1).drop_last() =~= a.take(i));
        lemma_array_items_none(a, i + 1);
    } else {
        assert(a.take(i) =~= a);
    }
}

/// A failing entry stays failing when more entries follow it.
pub proof fn lemma_container_items_none(c: Seq<(DataTypes, Value)>, i: int)
    requires
        0 <= i <= c.len(),
        container_items_bytes(c.take(i)) is None,
    ensures
        container_items_bytes(c) is None,
    decreases c.len() - i,
{
    if i < c.len() {
        assert(c.take(i + 1).drop_last() =~= c.take(i));
        lemma_container_items_none(c, i + 1);
    } else {
        assert(c.take(i) =~= c);
    }
}

/// Appends the bytes of `b` to `out`.
pub fn append_bytes(out: &mut Vec<u8>, b: &[u8])
    ensures
        final(out)@ == old(out)@ + b@,
{
    let n = b.len();
    let mut i: usize = 0;
    while i < n
        invariant
            n == b@.len(),
            i <= n,
            out@ == old(out)@ + b@.take(i as int),
        decreases n - i,
    {
        proof {
            assert(b@.take(i + 1) =~= b@.take(i as int).push(b@[i as int]));
        }
        out.push(b[i]);
        i += 1;
    }
    proof {
        assert(b@.take(n as int) =~= b@);
    }
}

/// Appends the payload bytes of `v` to `out`.
pub fn encode_payload(v: &DataValue, out: &mut Vec<u8>)
    ensures
        final(out)@ == old(out)@ + payload_bytes(v@),
    decreases v, 1int,
{
    match v {
        DataValue::Number(n) => push_i64(out, *n),
        DataValue::Str(s) => append_bytes(out, s.as_str().as_bytes()),
        DataValue::Array(a) => {
            let b = encode_array(a);
            append_bytes(out, b.as_slice());
        },
        DataValue::Container(c) => {
            let b = encode_container(c);
            append_bytes(out, b.as_slice());
        },
        _ => {
            proof {
                assert(old(out)@ + payload_bytes(v@) =~= old(out)@);
            }
        },
    }
}

/// The bytes of one array item, when it can be written.
pub fn encode_array_item(v: &DataValue) -> (r: Option<Vec<u8>>)
    ensures
        r is None <==> array_item_bytes(v@) is None,
        r matches Some(b) ==> array_item_bytes(v@) == Some(b@),
    decreases v, 2int,
{
    let kind = kind_marker(v);
    let mut out: Vec<u8> = Vec::new();
    out.push(kind);
    if kind == KIND_BOOL_TRUE || kind == KIND_BOOL_FALSE {
        proof {
            assert(out@ =~= seq![marker(v@)]);
        }
        return Some(out);
    }
    let mut payload: Vec<u8> = Vec::new();
    encode_payload(v, &mut payload);
    if payload.len() > 0xffff {
        return None;
    }
    push_be(&mut out, payload.len() as u64, 2);
    append_bytes(&mut out, payload.as_slice());
    proof {
        assert(payload@ =~= payload_bytes(v@));
        assert(out@ =~= seq![marker(v@)] + be_bytes(payload@.len(), 2) + payload_bytes(v@));
    }
    Some(out)
}

/// The bytes of one container entry, when it can be written.
pub fn encode_container_item(k: DataTypes, v: &DataValue) -> (r: Option<Vec<u8>>)
    ensures
        r is None <==> container_item_bytes(k, v@) is None,
        r matches Some(b) ==> container_item_bytes(k, v@) == Some(b@),
    decreases v, 2int,
{
    let kind = kind_marker(v);
    let mut out: Vec<u8> = Vec::new();
    out.push(kind);
    if kind == KIND_BOOL_TRUE || kind == KIND_BOOL_FALSE {
        out.push(k.as_number());
        proof {
            assert(out@ =~= seq![marker(v@), k.code()]);
        }
        return Some(out);
    }
    let mut payload: Vec<u8> = Vec::new();
    encode_payload(v, &mut payload);
    if payload.len() > 0xffff {
        return None;
    }
    push_be(&mut out, payload.len() as u64, 2);
    out.push(k.as_number());
    append_bytes(&mut out, payload.as_slice());
    proof {
        assert(payload@ =~= payload_bytes(v@));
        assert(out@ =~= seq![marker(v@)] + be_bytes(payload@.len(), 2) + seq![k.code()]
            + payload_bytes(v@));
    }
    Some(out)
}

/// The encoded array: item count, then the items; empty when an item cannot be written.
pub fn encode_array(a: &Vec<DataValue>) -> (r: Vec<u8>)
    ensures
        r@ == array_bytes(models(a@)),
    decreases a, 0int,
{
    let ghost ma = models(a@);
    proof {
        lemma_models_index(a@);
    }
    let count: u64 = if a.len() <= 0xffff {
        a.len() as u64
    } else {
        0
    };
    let mut out: Vec<u8> = Vec::new();
    push_be(&mut out, count, 2);
    let ghost header = out@;
    let ghost mut items: Seq<u8> = Seq::empty();
    let mut i: usize = 0;
    proof {
        assert(ma.take(0) =~= Seq::<Value>::empty());
        assert(out@ =~= header + items);
    }
    while i < a.len()
        invariant
            i <= a@.len(),
            ma == models(a@),
            ma.len() == a@.len(),
            forall|j: int| 0 <= j < a@.len() ==> #[trigger] ma[j] == model(a@[j]),
            header == be_bytes(count16(a@.len()), 2),
            array_items_bytes(ma.take(i as int)) == Some(items),
            out@ == header + items,
        decreases a@.len() - i,
    {
        proof {
            assert(decreases_to!(a => a@[i as int]));
            assert(ma.take(i + 1).drop_last() =~= ma.take(i as int));
            assert(ma.take(i + 1).last() == ma[i as int]);
        }
        match encode_array_item(&a[i]) {
            Some(b) => {
                append_bytes(&mut out, b.as_slice());
                proof {
                    items = items + b@;
                    assert(out@ =~= header + items);
                }
            },
            None => {
                proof {
                    lemma_array_items_none(ma, i + 1);
                }
                return Vec::new();
            },
        }
        i += 1;
    }
    proof {
        assert(ma.take(a@.len() as int) =~= ma);
    }
    out
}

/// The encoded container: entry count, then the entries; empty when an entry cannot be
/// written.
pub fn encode_container(c: &Vec<(DataTypes, DataValue)>) -> (r: Vec<u8>)
    ensures
        r@ == container_bytes(entry_models(c@)),
    decreases c, 0int,
{
    let ghost mc = entry_models(c@);
    proof {
        lemma_entry_models_index(c@);
    }
    let count: u64 = if c.len() <= 0xffff {
        c.len() as u64
    } else {
        0
    };
    let mut out: Vec<u8> = Vec::new();
    push_be(&mut out, count, 2);
    let ghost header = out@;
    let ghost mut items: Seq<u8> = Seq::empty();
    let mut i: usize = 0;
    proof {
        assert(mc.take(0) =~= Seq::<(DataTypes, Value)>::empty());
        assert(out@ =~= header + items);
    }
    while i < c.len()
        invariant
            i <= c@.len(),
            mc == entry_models(c@),
            mc.len() == c@.len(),
            forall|j: int| 0 <= j < c@.len() ==> #[trigger] mc[j] == (c@[j].0, model(c@[j].1)),
            header == be_bytes(count16(c@.len()), 2),
            container_items_bytes(mc.take(i as int)) == Some(items),
            out@ == header + items,
        decreases c@.len() - i,
    {
        proof {
            assert(decreases_to!(c => c@[i as int].1));
            assert(mc.take(i + 1).drop_last() =~= mc.take(i as int));
            assert(mc.take(i + 1).last() == mc[i as int]);
        }
        match encode_container_item(c[i].0, &c[i].1) {
            Some(b) => {
                append_bytes(&mut out, b.as_slice());
                proof {
                    items = items + b@;
                    assert(out@ =~= header + items);
                }
            },
            None => {
                proof {
                    lemma_container_items_none(mc, i + 1);
                }
                return Vec::new();
            },
        }
        i += 1;
    }
    proof {
        assert(mc.take(c@.len() as int) =~= mc);
    }
    out
}

/// The marker byte of a value.
pub fn kind_marker(v: &DataValue) -> (r: u8)
    ensures
        r == marker(v@),
{
    match v {
        DataValue::BoolTrue => KIND_BOOL_TRUE,
        DataValue::BoolFalse => KIND_BOOL_FALSE,
        DataValue::Bool(b) => if *b {
            KIND_BOOL_TRUE
        } else {
            KIND_BOOL_FALSE
        },
        DataValue::Number(_) => KIND_NUMBER,
        DataValue::Str(_) => KIND_STR,
        DataValue::Array(_) => KIND_ARRAY,
        DataValue::Container(_) => KIND_CONTAINER,
        DataValue::Null => KIND_NULL,
    }
}

/// Once an array item fails to read, reading more items fails too.
pub proof fn lemma_read_array_items_none(s: Seq<u8>, i: nat, m: nat)
    requires
        i <= m,
        read_array_items(s, i) is None,
    ensures
        read_array_items(s, m) is None,
    decreases m - i,
{
    if i < m {
        lemma_read_array_items_none(s, i, (m - 1) as nat);
    }
}

/// Once a container entry fails to read, reading more entries fails too.
pub proof fn lemma_read_container_items_none(s: Seq<u8>, i: nat, m: nat)
    requires
        i <= m,
        read_container_items(s, i) is None,
    ensures
        read_container_items(s, m) is None,
    decreases m - i,
{
    if i < m {
        lemma_read_container_items_none(s, i, (m - 1) as nat);
    }
}

/// `String::from_utf8` on a copy of the bytes: a text exactly when the bytes are valid
/// UTF-8, and then the text they encode.
#[verifier::external_body]
fn string_from_utf8(bytes: &[u8]) -> (r: Option<String>)
    ensures
        r is Some <==> valid_utf8(bytes@),
        r matches Some(s) ==> s@ == decode_utf8(bytes@),
{
    String::from_utf8(bytes.to_vec()).ok()
}

/// The two big-endian bytes at `p` and `p + 1`, as a number.
pub fn read_u16_at(s: &[u8], p: usize) -> (r: usize)
    requires
        p + 2 <= s@.len(),
    ensures
        r as nat == u16_at(s@, p as int),
        r <= 0xffff,
{
    (s[p] as usize) * 256 + (s[p + 1] as usize)
}

/// The value of the given kind that a payload holds, when it is exactly one such value.
pub fn decode_payload(kind: u8, p: &[u8]) -> (r: Option<DataValue>)
    ensures
        r is Some <==> read_payload(kind, p@) is Some,
        r matches Some(v) ==> read_payload(kind, p@) == Some(v@) && markers_spelled(v),
    decreases p@.len(), 2int,
{
    if kind == KIND_NUMBER {
        if p.len() == 8 {
            let n = read_i64(p, 0);
            proof {
                assert(p@.subrange(0, 8) =~= p@);
            }
            Some(DataValue::Number(n))
        } else {
            None
        }
    } else if kind == KIND_STR {
        match string_from_utf8(p) {
            Some(s) => Some(DataValue::Str(s)),
            None => None,
        }
    } else if kind == KIND_ARRAY {
        match decode_array(p) {
            Some((v, n)) => if n == p.len() {
                Some(v)
            } else {
                None
            },
            None => None,
        }
    } else if kind == KIND_CONTAINER {
        match decode_container(p) {
            Some((v, n)) => if n == p.len() {
                Some(v)
            } else {
                None
            },
            None => None,
        }
    } else if kind == KIND_NULL {
        if p.len() == 0 {
            Some(DataValue::Null)
        } else {
            None
        }
    } else {
        None
    }
}

/// The array item that starts at position `p`, with the position after it.
pub fn decode_array_item(s: &[u8], p: usize) -> (r: Option<(DataValue, usize)>)
    ensures
        r is Some <==> read_array_item(s@, p as int) is Some,
        r matches Some((v, q)) ==> read_array_item(s@, p as int) == Some((v@, q as int))
            && markers_spelled(v),
    decreases s@.len(), 0int,
{
    let n = s.len();
    if p >= n {
        return None;
    }
    let kind = s[p];
    if kind == KIND_BOOL_TRUE {
        return Some((DataValue::BoolTrue, p + 1));
    }
    if kind == KIND_BOOL_FALSE {
        return Some((DataValue::BoolFalse, p + 1));
    }
    if n - p < 3 {
        return None;
    }
    let len = read_u16_at(s, p + 1);
    if len > n - p - 3 {
        return None;
    }
    let end = p + 3 + len;
    let sub = slice_subrange(s, p + 3, end);
    match decode_payload(kind, sub) {
        Some(v) => Some((v, end)),
        None => None,
    }
}

/// The container entry that starts at position `p`, with the position after it.
pub fn decode_container_item(s: &[u8], p: usize) -> (r: Option<((DataTypes, DataValue), usize)>)
    ensures
        r is Some <==> read_container_item(s@, p as int) is Some,
        r matches Some((e, q)) ==> read_container_item(s@, p as int) == Some(((e.0, e.1@), q as int))
            && markers_spelled(e.1),
    decreases s@.len(), 0int,
{
    let n = s.len();
    if p >= n {
        return None;
    }
    let kind = s[p];
    if kind == KIND_BOOL_TRUE || kind == KIND_BOOL_FALSE {
        if n - p < 2 {
            return None;
        }
        let key = DataTypes::from_number(s[p + 1]);
        let value = if kind == KIND_BOOL_TRUE {
            DataValue::BoolTrue
        } else {
            DataValue::BoolFalse
        };
        return Some(((key, value), p + 2));
    }
    if n - p < 4 {
        return None;
    }
    let len = read_u16_at(s, p + 1);
    let key = DataTypes::from_number(s[p + 3]);
    if len > n - p - 4 {
        return None;
    }
    let end = p + 4 + len;
    let sub = slice_subrange(s, p + 4, end);
    match decode_payload(kind, sub) {
        Some(v) => Some(((key, v), end)),
        None => None,
    }
}

/// An array read from the front of `s`, with the number of bytes it took.
pub fn decode_array(s: &[u8]) -> (r: Option<(DataValue, usize)>)
    ensures
        r is Some <==> read_array(s@) is Some,
        r matches Some((v, n)) ==> read_array(s@) == Some((v@, n as int)) && markers_spelled(v),
    decreases s@.len(), 1int,
{
    if s.len() < 2 {
        return None;
    }
    let count = read_u16_at(s, 0);
    let mut items: Vec<DataValue> = Vec::new();
    let mut pos: usize = 2;
    let mut i: usize = 0;
    while i < count
        invariant
            s@.len() >= 2,
            count as nat == u16_at(s@, 0),
            i <= count,
            read_array_items(s@, i as nat) == Some((models(items@), pos as int)),
            items_spelled(items@),
        decreases count - i,
    {
        match decode_array_item(s, pos) {
            Some((v, q)) => {
                proof {
                    lemma_models_push(items@, v);
                    lemma_items_spelled_push(items@, v);
                }
                items.push(v);
                pos = q;
            },
            None => {
                proof {
                    lemma_read_array_items_none(s@, (i + 1) as nat, count as nat);
                }
                return None;
            },
        }
        i += 1;
    }
    Some((DataValue::Array(items), pos))
}

/// A container read from the front of `s`, with the number of bytes it took.
pub fn decode_container(s: &[u8]) -> (r: Option<(DataValue, usize)>)
    ensures
        r is Some <==> read_container(s@) is Some,
        r matches Some((v, n)) ==> read_container(s@) == Some((v@, n as int)) && markers_spelled(
            v,
        ),
    decreases s@.len(), 1int,
{
    if s.len() < 2 {
        return None;
    }
    let count = read_u16_at(s, 0);
    let mut items: Vec<(DataTypes, DataValue)> = Vec::new();
    let mut pos: usize = 2;
    let mut i: usize = 0;
    while i < count
        invariant
            s@.len() >= 2,
            count as nat == u16_at(s@, 0),
            i <= count,
            read_container_items(s@, i as nat) == Some((entry_models(items@), pos as int)),
            entries_spelled(items@),
        decreases count - i,
    {
        match decode_container_item(s, pos) {
            Some((e, q)) => {
                proof {
                    lemma_entry_models_push(items@, e);
                    lemma_entries_spelled_push(items@, e);
                }
                items.push(e);
                pos = q;
            },
            None => {
                proof {
                    lemma_read_container_items_none(s@, (i + 1) as nat, count as nat);
                }
                return None;
            },
        }
        i += 1;
    }
    Some((DataValue::Container(items), pos))
}

impl DataValue {
    /// The bytes of the value: a container or an array with its header and items; for
    /// any other value its bare payload.
    pub fn to_bytes(&self) -> (r: Vec<u8>)
        ensures
            r@ == payload_bytes(self@),
    {
        match self {
            DataValue::Container(entries) => encode_container(entries),
            DataValue::Array(arr) => encode_array(arr),
            _ => {
                let mut out: Vec<u8> = Vec::new();
                encode_payload(self, &mut out);
                proof {
                    assert(out@ =~= payload_bytes(self@));
                }
                out
            },
        }
    }

    /// The container or array that the bytes encode, when they encode exactly one; its
    /// booleans are spelled `BoolTrue` and `BoolFalse`.
    pub fn from_bytes(bytes: &[u8]) -> (r: Option<DataValue>)
        ensures
            r is Some <==> read_value(bytes@) is Some,
            r matches Some(v) ==> read_value(bytes@) == Some(v@) && markers_spelled(v),
    {
        if bytes.len() < 2 {
            return None;
        }
        match decode_container(bytes) {
            Some((v, n)) => {
                if n == bytes.len() {
                    Some(v)
                } else {
                    None
                }
            },
            None => match decode_array(bytes) {
                Some((v, n)) => if n == bytes.len() {
                    Some(v)
                } else {
                    None
                },
                None => None,
            },
        }
    }
}

/// Every array and container inside the value has at most 65535 items, and every item
/// that is not a boolean has a payload of at most 65535 bytes: what the format can hold.
pub open spec fn fits(v: Value) -> bool
    decreases v, 1int,
{
    match v {
        Value::Array(a) => a.len() <= 0xffff && items_fit(a),
        Value::Container(c) => c.len() <= 0xffff && entries_fit(c),
        _ => true,
    }
}

/// An item fits, and its payload fits in a two-byte length unless it is a boolean.
pub open spec fn item_fits(v: Value) -> bool
    decreases v, 2int,
{
    fits(v) && (v is Bool || payload_bytes(v).len() <= 0xffff)
}

/// Every item of the sequence fits.
pub open spec fn items_fit(a: Seq<Value>) -> bool
    decreases a, 0int,
{
    a.len() == 0 || (items_fit(a.drop_last()) && item_fits(a.last()))
}

/// Every value of the entry sequence fits.
pub open spec fn entries_fit(c: Seq<(DataTypes, Value)>) -> bool
    decreases c, 0int,
{
    c.len() == 0 || (entries_fit(c.drop_last()) && item_fits(c.last().1))
}

proof fn lemma_items_prefix(a: Seq<Value>, i: int, j: int)
    requires
        0 <= i <= j <= a.len(),
        array_items_bytes(a.take(j)) is Some,
    ensures
        array_items_bytes(a.take(i)) is Some,
        array_items_bytes(a.take(i))->0.len() <= array_items_bytes(a.take(j))->0.len(),
        array_items_bytes(a.take(j))->0.take(array_items_bytes(a.take(i))->0.len() as int)
            == array_items_bytes(a.take(i))->0,
    decreases j - i,
{
    if i < j {
        assert(a.take(j).drop_last() =~= a.take(j - 1));
        lemma_items_prefix(a, i, j - 1);
        let x = array_items_bytes(a.take(j - 1))->0;
        let y = array_items_bytes(a.take(i))->0;
        assert((x + array_item_bytes(a.take(j).last())->0).take(y.len() as int) =~= x.take(
            y.len() as int,
        ));
    } else {
        let y = array_items_bytes(a.take(i))->0;
        assert(y.take(y.len() as int) =~= y);
    }
}

proof fn lemma_entries_prefix(c: Seq<(DataTypes, Value)>, i: int, j: int)
    requires
        0 <= i <= j <= c.len(),
        container_items_bytes(c.take(j)) is Some,
    ensures
        container_items_bytes(c.take(i)) is Some,
        container_items_bytes(c.take(i))->0.len() <= container_items_bytes(c.take(j))->0.len(),
        container_items_bytes(c.take(j))->0.take(container_items_bytes(c.take(i))->0.len() as int)
            == container_items_bytes(c.take(i))->0,
    decreases j - i,
{
    if i < j {
        assert(c.take(j).drop_last() =~= c.take(j - 1));
        lemma_entries_prefix(c, i, j - 1);
        let x = container_items_bytes(c.take(j - 1))->0;
        let y = container_items_bytes(c.take(i))->0;
        let last = c.take(j).last();
        assert((x + container_item_bytes(last.0, last.1)->0).take(y.len() as int) =~= x.take(
            y.len() as int,
        ));
    } else {
        let y = container_items_bytes(c.take(i))->0;
        assert(y.take(y.len() as int) =~= y);
    }
}

proof fn lemma_items_fit_take(a: Seq<Value>, i: int)
    requires
        0 <= i <= a.len(),
        items_fit(a),
    ensures
        items_fit(a.take(i)),
        array_items_bytes(a.take(i)) is Some,
        i < a.len() ==> item_fits(a[i]),
    decreases a.len() - i,
{
    if i < a.len() {
        assert(a.take(i + 1).drop_last() =~= a.take(i));
        lemma_items_fit_take(a, i + 1);
        if i + 1 < a.len() {
        } else {
            assert(a.take(i + 1) =~= a);
        }
    } else {
        assert(a.take(i) =~= a);
        lemma_items_fit_some(a);
    }
}

proof fn lemma_items_fit_some(a: Seq<Value>)
    requires
        items_fit(a),
    ensures
        array_items_bytes(a) is Some,
    decreases a.len(),
{
    if a.len() > 0 {
        lemma_items_fit_some(a.drop_last());
        assert(item_fits(a.last()));
        assert(array_item_bytes(a.last()) is Some);
    }
}

proof fn lemma_entries_fit_take(c: Seq<(DataTypes, Value)>, i: int)
    requires
        0 <= i <= c.len(),
        entries_fit(c),
    ensures
        entries_fit(c.take(i)),
        container_items_bytes(c.take(i)) is Some,
        i < c.len() ==> item_fits(c[i].1),
    decreases c.len() - i,
{
    if i < c.len() {
        assert(c.take(i + 1).drop_last() =~= c.take(i));
        lemma_entries_fit_take(c, i + 1);
        if i + 1 < c.len() {
        } else {
            assert(c.take(i + 1) =~= c);
        }
    } else {
        assert(c.take(i) =~= c);
        lemma_entries_fit_some(c);
    }
}

proof fn lemma_entries_fit_some(c: Seq<(DataTypes, Value)>)
    requires
        entries_fit(c),
    ensures
        container_items_bytes(c) is Some,
    decreases c.len(),
{
    if c.len() > 0 {
        lemma_entries_fit_some(c.drop_last());
        assert(item_fits(c.last().1));
        assert(container_item_bytes(c.last().0, c.last().1) is Some);
    }
}

/// The two big-endian bytes of a number below 65536, and the number they read as.
pub proof fn lemma_be2(n: nat)
    requires
        n <= 0xffff,
    ensures
        be_bytes(n, 2) == seq![(n / 256) as u8, (n % 256) as u8],
        u16_at(be_bytes(n, 2), 0) == n,
{
    reveal_with_fuel(be_bytes, 3);
    assert(be_bytes(n, 2) =~= seq![(n / 256) as u8, (n % 256) as u8]);
}

/// A payload that fits reads back, under its marker, as the value it was written from.
pub proof fn lemma_payload_roundtrip(v: Value)
    requires
        fits(v),
        !(v is Bool),
    ensures
        read_payload(marker(v), payload_bytes(v)) == Some(v),
    decreases v, 2int, 0int,
{
    match v {
        Value::Number(n) => {
            lemma_i64_roundtrip(n);
        },
        Value::Str(s) => {
            vstd::utf8::encode_utf8_valid_utf8(s);
            vstd::utf8::encode_utf8_decode_utf8(s);
        },
        Value::Array(a) => {
            lemma_array_roundtrip(a);
        },
        Value::Container(c) => {
            lemma_container_roundtrip(c);
        },
        _ => {},
    }
}

/// An array that fits reads back, from its own bytes, as itself, taking all of them.
pub proof fn lemma_array_roundtrip(a: Seq<Value>)
    requires
        a.len() <= 0xffff,
        items_fit(a),
    ensures
        array_items_bytes(a) is Some,
        read_array(array_bytes(a)) == Some((Value::Array(a), array_bytes(a).len() as int)),
    decreases a, 1int, 0int,
{
    lemma_items_fit_some(a);
    lemma_pow256_facts(2);
    lemma_be2(a.len());
    let s = array_bytes(a);
    assert(s.len() >= 2);
    assert(s[0] == be_bytes(a.len(), 2)[0] && s[1] == be_bytes(a.len(), 2)[1]);
    assert(u16_at(s, 0) == a.len());
    lemma_array_items_read(a, a.len() as int);
    assert(a.take(a.len() as int) =~= a);
}

/// Reading the first `i` items of an array's bytes gives its first `i` items.
proof fn lemma_array_items_read(a: Seq<Value>, i: int)
    requires
        a.len() <= 0xffff,
        items_fit(a),
        0 <= i <= a.len(),
    ensures
        array_items_bytes(a.take(i)) is Some,
        read_array_items(array_bytes(a), i as nat) == Some(
            (a.take(i), 2 + array_items_bytes(a.take(i))->0.len() as int),
        ),
    decreases a, 0int, i + 1,
{
    lemma_items_fit_take(a, i);
    if i == 0 {
        assert(a.take(0) =~= Seq::<Value>::empty());
    } else {
        lemma_array_items_read(a, i - 1);
        lemma_array_item_read(a, i - 1);
        assert(a.take(i - 1).push(a[i - 1]) =~= a.take(i));
    }
}

/// Item `j` of an array, read at the position where its bytes start, is the item.
#[verifier::spinoff_prover]
#[verifier::rlimit(40)]
proof fn lemma_array_item_read(a: Seq<Value>, j: int)
    requires
        a.len() <= 0xffff,
        items_fit(a),
        0 <= j < a.len(),
    ensures
        array_items_bytes(a.take(j)) is Some,
        array_item_bytes(a[j]) is Some,
        array_items_bytes(a.take(j + 1))->0 == array_items_bytes(a.take(j))->0
            + array_item_bytes(a[j])->0,
        read_array_item(array_bytes(a), 2 + array_items_bytes(a.take(j))->0.len() as int) == Some(
            (
                a[j],
                2 + array_items_bytes(a.take(j))->0.len() as int + array_item_bytes(a[j])->0.len()
                    as int,
            ),
        ),
    decreases a, 0int, 0int,
{
    lemma_items_fit_some(a);
    lemma_items_fit_take(a, j);
    lemma_items_fit_take(a, j + 1);
    assert(a.take(a.len() as int) =~= a);
    lemma_items_prefix(a, j + 1, a.len() as int);
    let s = array_bytes(a);
    let whole = array_items_bytes(a)->0;
    lemma_be2(a.len());
    assert(s =~= be_bytes(a.len(), 2) + whole);
    let before = array_items_bytes(a.take(j))->0;
    let upto = array_items_bytes(a.take(j + 1))->0;
    let v = a[j];
    assert(a.take(j + 1).drop_last() =~= a.take(j));
    assert(a.take(j + 1).last() == v);
    let e = array_item_bytes(v)->0;
    assert(upto == before + e);
    let p: int = 2 + before.len() as int;
    assert(whole.take(upto.len() as int) == upto);
    assert forall|k: int| 0 <= k < e.len() implies #[trigger] s[p + k] == e[k] by {
        assert(s[p + k] == whole[before.len() + k]);
        assert(whole[before.len() + k] == upto[before.len() + k]);
        assert(upto[before.len() + k] == e[k]);
    }
    assert(decreases_to!(a => a[j]));
    if v is Bool {
        assert(s[p + 0] == e[0]);
    } else {
        let pl = payload_bytes(v);
        lemma_be2(pl.len());
        assert(e =~= seq![marker(v)] + be_bytes(pl.len(), 2) + pl);
        assert(s[p + 0] == e[0]);
        assert(s[p + 1] == e[1]);
        assert(s[p + 2] == e[2]);
        assert(u16_at(s, p + 1) == pl.len());
        assert(s.subrange(p + 3, p + e.len()) =~= pl) by {
            assert forall|k: int| 0 <= k < pl.len() implies s.subrange(p + 3, p + e.len())[k]
                == pl[k] by {
                assert(s[p + (3 + k)] == e[3 + k]);
            }
        }
        lemma_payload_roundtrip(v);
    }
}

/// A container that fits reads back, from its own bytes, as itself, taking all of them.
pub proof fn lemma_container_roundtrip(c: Seq<(DataTypes, Value)>)
    requires
        c.len() <= 0xffff,
        entries_fit(c),
    ensures
        container_items_bytes(c) is Some,
        read_container(container_bytes(c)) == Some(
            (Value::Container(c), container_bytes(c).len() as int),
        ),
    decreases c, 1int, 0int,
{
    lemma_entries_fit_some(c);
    lemma_pow256_facts(2);
    lemma_be2(c.len());
    let s = container_bytes(c);
    assert(s.len() >= 2);
    assert(s[0] == be_bytes(c.len(), 2)[0] && s[1] == be_bytes(c.len(), 2)[1]);
    assert(u16_at(s, 0) == c.len());
    lemma_container_items_read(c, c.len() as int);
    assert(c.take(c.len() as int) =~= c);
}

/// Reading the first `i` entries of a container's bytes gives its first `i` entries.
proof fn lemma_container_items_read(c: Seq<(DataTypes, Value)>, i: int)
    requires
        c.len() <= 0xffff,
        entries_fit(c),
        0 <= i <= c.len(),
    ensures
        container_items_bytes(c.take(i)) is Some,
        read_container_items(container_bytes(c), i as nat) == Some(
            (c.take(i), 2 + container_items_bytes(c.take(i))->0.len() as int),
        ),
    decreases c, 0int, i + 1,
{
    lemma_entries_fit_take(c, i);
    if i == 0 {
        assert(c.take(0) =~= Seq::<(DataTypes, Value)>::empty());
    } else {
        lemma_container_items_read(c, i - 1);
        lemma_container_item_read(c, i - 1);
        assert(c.take(i - 1).push(c[i - 1]) =~= c.take(i));
    }
}

/// Entry `j` of a container, read at the position where its bytes start, is the entry.
#[verifier::spinoff_prover]
#[verifier::rlimit(40)]
proof fn lemma_container_item_read(c: Seq<(DataTypes, Value)>, j: int)
    requires
        c.len() <= 0xffff,
        entries_fit(c),
        0 <= j < c.len(),
    ensures
        container_items_bytes(c.take(j)) is Some,
        container_item_bytes(c[j].0, c[j].1) is Some,
        container_items_bytes(c.take(j + 1))->0 == container_items_bytes(c.take(j))->0
            + container_item_bytes(c[j].0, c[j].1)->0,
        read_container_item(
            container_bytes(c),
            2 + container_items_bytes(c.take(j))->0.len() as int,
        ) == Some(
            (
                c[j],
                2 + container_items_bytes(c.take(j))->0.len() as int + container_item_bytes(
                    c[j].0,
                    c[j].1,
                )->0.len() as int,
            ),
        ),
    decreases c, 0int, 0int,
{
    lemma_entries_fit_some(c);
    lemma_entries_fit_take(c, j);
    lemma_entries_fit_take(c, j + 1);
    assert(c.take(c.len() as int) =~= c);
    lemma_entries_prefix(c, j + 1, c.len() as int);
    let s = container_bytes(c);
    let whole = container_items_bytes(c)->0;
    lemma_be2(c.len());
    assert(s =~= be_bytes(c.len(), 2) + whole);
    let before = container_items_bytes(c.take(j))->0;
    let upto = container_items_bytes(c.take(j + 1))->0;
    let k = c[j].0;
    let v = c[j].1;
    assert(c.take(j + 1).drop_last() =~= c.take(j));
    assert(c.take(j + 1).last() == c[j]);
    let e = container_item_bytes(k, v)->0;
    assert(upto == before + e);
    let p: int = 2 + before.len() as int;
    assert(whole.take(upto.len() as int) == upto);
    assert forall|m: int| 0 <= m < e.len() implies #[trigger] s[p + m] == e[m] by {
        assert(s[p + m] == whole[before.len() + m]);
        assert(whole[before.len() + m] == upto[before.len() + m]);
        assert(upto[before.len() + m] == e[m]);
    }
    assert(DataTypes::of_code(k.code()) == k) by {
        lemma_data_type_code_roundtrip(k, 0);
    }
    assert(decreases_to!(c => c[j].1));
    if v is Bool {
        assert(s[p + 0] == e[0]);
        assert(s[p + 1] == e[1]);
    } else {
        let pl = payload_bytes(v);
        lemma_be2(pl.len());
        assert(e =~= seq![marker(v)] + be_bytes(pl.len(), 2) + seq![k.code()] + pl);
        assert(s[p + 0] == e[0]);
        assert(s[p + 1] == e[1]);
        assert(s[p + 2] == e[2]);
        assert(s[p + 3] == e[3]);
        assert(u16_at(s, p + 1) == pl.len());
        assert(s.subrange(p + 4, p + e.len()) =~= pl) by {
            assert forall|m: int| 0 <= m < pl.len() implies s.subrange(p + 4, p + e.len())[m]
                == pl[m] by {
                assert(s[p + (4 + m)] == e[4 + m]);
            }
        }
        lemma_payload_roundtrip(v);
    }
}

/// A container that fits, written by `DataValue::to_bytes`, is read back by
/// `DataValue::from_bytes` as the same container.
pub proof fn lemma_container_value_roundtrip(c: Seq<(DataTypes, Value)>)
    requires
        c.len() <= 0xffff,
        entries_fit(c),
    ensures
        read_value(payload_bytes(Value::Container(c))) == Some(Value::Container(c)),
{
    lemma_container_roundtrip(c);
    lemma_be_bytes_len(count16(c.len()), 2);
}

/// A container entry read from the front of some bytes reads the same when more bytes
/// follow.
pub proof fn lemma_container_item_prefix(s: Seq<u8>, t: Seq<u8>, p: int)
    requires
        s.len() <= t.len(),
        t.subrange(0, s.len() as int) == s,
        read_container_item(s, p) is Some,
    ensures
        read_container_item(t, p) == read_container_item(s, p),
{
    assert(forall|i: int| 0 <= i < s.len() ==> t[i] == #[trigger] s[i]) by {
        assert forall|i: int| 0 <= i < s.len() implies t[i] == #[trigger] s[i] by {
            assert(t.subrange(0, s.len() as int)[i] == t[i]);
        }
    }
    if !(s[p] == KIND_BOOL_TRUE || s[p] == KIND_BOOL_FALSE) {
        let end = p + 4 + u16_at(s, p + 1);
        assert(u16_at(t, p + 1) == u16_at(s, p + 1));
        assert(t.subrange(p + 4, end) =~= s.subrange(p + 4, end));
    }
}

/// The first entries of a container read from the front of some bytes read the same when
/// more bytes follow.
pub proof fn lemma_container_items_prefix(s: Seq<u8>, t: Seq<u8>, n: nat)
    requires
        s.len() <= t.len(),
        t.subrange(0, s.len() as int) == s,
        read_container_items(s, n) is Some,
    ensures
        read_container_items(t, n) == read_container_items(s, n),
    decreases n,
{
    if n > 0 {
        lemma_container_items_prefix(s, t, (n - 1) as nat);
        let (items, p) = read_container_items(s, (n - 1) as nat)->0;
        lemma_container_item_prefix(s, t, p);
    }
}

/// Bytes left over after a container make the whole unreadable: a container that fits,
/// followed by any further bytes, decodes to nothing.
pub proof fn lemma_trailing_bytes_rejected(c: Seq<(DataTypes, Value)>, extra: Seq<u8>)
    requires
        c.len() <= 0xffff,
        entries_fit(c),
        extra.len() > 0,
    ensures
        read_value(payload_bytes(Value::Container(c)) + extra) is None,
{
    lemma_container_roundtrip(c);
    lemma_be_bytes_len(count16(c.len()), 2);
    let s = container_bytes(c);
    let t = s + extra;
    assert(payload_bytes(Value::Container(c)) == s);
    assert(t.subrange(0, s.len() as int) =~= s);
    assert(u16_at(t, 0) == u16_at(s, 0));
    lemma_container_items_prefix(s, t, u16_at(s, 0));
    assert(read_container(t) == read_container(s));
}

/// An array that fits, written by `DataValue::to_bytes`, is read back by
/// `DataValue::from_bytes` as the same array, unless its bytes also read as the start of
/// a container (containers are tried first).
pub proof fn lemma_array_value_roundtrip(a: Seq<Value>)
    requires
        a.len() <= 0xffff,
        items_fit(a),
        read_container(array_bytes(a)) is None,
    ensures
        read_value(payload_bytes(Value::Array(a))) == Some(Value::Array(a)),
{
    lemma_array_roundtrip(a);
    lemma_be_bytes_len(count16(a.len()), 2);
}

/// The bytes of a container's entries take at most 65539 bytes per entry.
pub proof fn lemma_container_items_len(c: Seq<(DataTypes, Value)>)
    requires
        container_items_bytes(c) is Some,
    ensures
        container_items_bytes(c)->0.len() <= c.len() * 65539,
    decreases c.len(),
{
    if c.len() > 0 {
        let d = c.drop_last();
        let k = c.last().0;
        let v = c.last().1;
        assert(container_items_bytes(d) is Some);
        assert(container_item_bytes(k, v) is Some);
        lemma_container_items_len(d);
        if !(v is Bool) {
            lemma_be_bytes_len(payload_bytes(v).len(), 2);
        }
        assert(container_item_bytes(k, v)->0.len() <= 65539);
        assert(container_items_bytes(c)->0 == container_items_bytes(d)->0 + container_item_bytes(
            k,
            v,
        )->0);
    }
}

/// What `base64::engine::general_purpose::STANDARD.encode` returns for the bytes.
pub uninterp spec fn base64_text(b: Seq<u8>) -> Seq<char>;

/// What `base64::engine::general_purpose::STANDARD.decode` returns for the text: the
/// decoded bytes, or None for a decoding error.
pub uninterp spec fn base64_data(s: Seq<char>) -> Option<Seq<u8>>;

/// `STANDARD.encode` (standard alphabet, padded).  Its result is named by
/// `base64_text`; the engine's decoder takes that text back to the same bytes.  The
/// encoder panics when the encoded length overflows `usize`, which `requires` rules out.
#[verifier::external_body]
fn base64_encode(b: &[u8]) -> (r: String)
    requires
        b@.len() / 3 * 4 + 4 <= usize::MAX,
    ensures
        r@ == base64_text(b@),
        base64_data(r@) == Some(b@),
{
    base64::Engine::encode(&base64::engine::general_purpose::STANDARD, b)
}

/// `STANDARD.decode` (standard alphabet, padding required).  Its result is named by
/// `base64_data`.
#[verifier::external_body]
fn base64_decode(s: &str) -> (r: Option<Vec<u8>>)
    ensures
        r is None <==> base64_data(s@) is None,
        r matches Some(v) ==> base64_data(s@) == Some(v@),
{
    base64::Engine::decode(&base64::engine::general_purpose::STANDARD, s).ok()
}

impl DataValue {
    /// The value's bytes (`to_bytes`) in standard padded base64.  Decoding the text gives
    /// those bytes back.
    pub fn to_base64(&self) -> (r: String)
        requires
            payload_bytes(self@).len() / 3 * 4 + 4 <= usize::MAX,
        ensures
            r@ == base64_text(payload_bytes(self@)),
            base64_data(r@) == Some(payload_bytes(self@)),
    {
        let bytes = self.to_bytes();
        base64_encode(bytes.as_slice())
    }

    /// The value whose bytes the base64 text holds: None when the text does not decode,
    /// or when its bytes do not hold exactly one container or array (see `from_bytes`).
    pub fn from_base64(base64_str: &str) -> (r: Option<DataValue>)
        ensures
            r is Some <==> (base64_data(base64_str@) matches Some(b) && read_value(b) is Some),
            r matches Some(v) ==> read_value(base64_data(base64_str@)->0) == Some(v@),
    {
        match base64_decode(base64_str) {
            Some(bytes) => DataValue::from_bytes(bytes.as_slice()),
            None => None,
        }
    }
}

} // verus!
