use vstd::prelude::*;
use vstd::string::StringExecFns;

use crate::communication_value::{CommunicationValue, Message};
use crate::data_types::DataTypes;
use crate::data_value::{
    entry_models, lemma_entry_models_index, lemma_models_index, model, models, DataValue, Value,
};

verus! {

/// `n` copies of two spaces.
pub open spec fn spaces(n: nat) -> Seq<char>
    decreases n,
{
    if n == 0 {
        Seq::empty()
    } else {
        spaces((n - 1) as nat) + "  "@
    }
}

/// The text of one decimal digit.
pub open spec fn digit_text(d: nat) -> Seq<char> {
    if d == 0 {
        "0"@
    } else if d == 1 {
        "1"@
    } else if d == 2 {
        "2"@
    } else if d == 3 {
        "3"@
    } else if d == 4 {
        "4"@
    } else if d == 5 {
        "5"@
    } else if d == 6 {
        "6"@
    } else if d == 7 {
        "7"@
    } else if d == 8 {
        "8"@
    } else {
        "9"@
    }
}

/// Decimal digits of `n`, without leading zeros ("0" for zero).
pub open spec fn decimal(n: nat) -> Seq<char>
    decreases n,
{
    if n < 10 {
        digit_text(n)
    } else {
        decimal(n / 10) + digit_text(n % 10)
    }
}

/// Decimal text of a signed number, with a leading '-' when it is negative.
pub open spec fn signed_decimal(n: int) -> Seq<char> {
    if n < 0 {
        "-"@ + decimal((-n) as nat)
    } else {
        decimal(n as nat)
    }
}

/// How deeply arrays and containers nest inside the value.
pub open spec fn depth(v: Value) -> nat
    decreases v, 1int,
{
    match v {
        Value::Array(a) => 1 + items_depth(a),
        Value::Container(c) => 1 + entries_depth(c),
        _ => 0,
    }
}

/// The largest depth among the items.
pub open spec fn items_depth(a: Seq<Value>) -> nat
    decreases a, 0int,
{
    if a.len() == 0 {
        0
    } else {
        let d = items_depth(a.drop_last());
        let e = depth(a.last());
        if d >= e {
            d
        } else {
            e
        }
    }
}

/// The largest depth among the entries' values.
pub open spec fn entries_depth(c: Seq<(DataTypes, Value)>) -> nat
    decreases c, 0int,
{
    if c.len() == 0 {
        0
    } else {
        let d = entries_depth(c.drop_last());
        let e = depth(c.last().1);
        if d >= e {
            d
        } else {
            e
        }
    }
}

/// How a value is written at the given indentation: numbers in decimal, texts in double
/// quotes, booleans and null as words; a non-empty array or container opens a bracket,
/// puts each item on a line of its own one level deeper, and closes the bracket one level
/// up.
pub open spec fn format_value(v: Value, indent: nat) -> Seq<char>
    decreases v, 1int,
{
    match v {
        Value::Number(n) => signed_decimal(n as int),
        Value::Str(s) => "\""@ + s + "\""@,
        Value::Bool(b) => if b {
            "true"@
        } else {
            "false"@
        },
        Value::Null => "null"@,
        Value::Array(a) => if a.len() == 0 {
            "[]"@
        } else {
            "[\n"@ + format_items(a, indent) + spaces((indent - 1) as nat) + "]"@
        },
        Value::Container(c) => if c.len() == 0 {
            "{}"@
        } else {
            "{\n"@ + format_entries(c, indent) + spaces((indent - 1) as nat) + "}"@
        },
    }
}

/// The lines of an array's items.
pub open spec fn format_items(a: Seq<Value>, indent: nat) -> Seq<char>
    decreases a, 0int,
{
    if a.len() == 0 {
        Seq::empty()
    } else {
        format_items(a.drop_last(), indent) + spaces(indent) + "  "@ + format_value(
            a.last(),
            indent + 1,
        ) + "\n"@
    }
}

/// The lines of a container's entries.
pub open spec fn format_entries(c: Seq<(DataTypes, Value)>, indent: nat) -> Seq<char>
    decreases c, 0int,
{
    if c.len() == 0 {
        Seq::empty()
    } else {
        format_entries(c.drop_last(), indent) + spaces(indent) + "  "@ + c.last().0.name()
            + ": "@ + format_value(c.last().1, indent + 1) + "\n"@
    }
}

/// The data lines of a message.
pub open spec fn format_data_lines(c: Seq<(DataTypes, Value)>) -> Seq<char>
    decreases c.len(),
{
    if c.len() == 0 {
        Seq::empty()
    } else {
        format_data_lines(c.drop_last()) + "    "@ + c.last().0.name() + ": "@ + format_value(
            c.last().1,
            2,
        ) + "\n"@
    }
}

/// A message written out: its type, the id, sender and receiver that are not 0, and one
/// line per data entry.
pub open spec fn format_message(m: Message) -> Seq<char> {
    format_head(m) + format_data_lines(m.data) + "  }\n"@ + "}"@
}

/// The lines of a written message before its data entries.
pub open spec fn format_head(m: Message) -> Seq<char> {
    "CommunicationValue {\n"@ + "  type: "@ + m.comm_type.name() + "\n"@ + (if m.id != 0 {
        "  id: "@ + decimal(m.id as nat) + "\n"@
    } else {
        Seq::empty()
    }) + (if m.sender != 0 {
        "  sender: "@ + decimal(m.sender as nat) + "\n"@
    } else {
        Seq::empty()
    }) + (if m.receiver != 0 {
        "  receiver: "@ + decimal(m.receiver as nat) + "\n"@
    } else {
        Seq::empty()
    }) + "  data: {\n"@
}

/// `t` occurs in `s` as a run of consecutive characters.
pub open spec fn contains_text(s: Seq<char>, t: Seq<char>) -> bool {
    exists|i: int| 0 <= i && i + t.len() <= s.len() && #[trigger] s.subrange(i, i + t.len()) == t
}

proof fn lemma_contains_at(s: Seq<char>, t: Seq<char>, a: Seq<char>, b: Seq<char>)
    requires
        s == a + t + b,
    ensures
        contains_text(s, t),
{
    assert(s.subrange(a.len() as int, a.len() + t.len() as int) =~= t);
}

/// A written message shows each of its fields on a line under that field's own label:
/// the type's name after "  type: ", and every id, sender and receiver that is not 0 in
/// decimal after "  id: ", "  sender: " and "  receiver: ".
pub proof fn lemma_header_lines(m: Message)
    ensures
        contains_text(format_message(m), "  type: "@ + m.comm_type.name() + "\n"@),
        m.id != 0 ==> contains_text(format_message(m), "  id: "@ + decimal(m.id as nat) + "\n"@),
        m.sender != 0 ==> contains_text(
            format_message(m),
            "  sender: "@ + decimal(m.sender as nat) + "\n"@,
        ),
        m.receiver != 0 ==> contains_text(
            format_message(m),
            "  receiver: "@ + decimal(m.receiver as nat) + "\n"@,
        ),
{
    let a = "CommunicationValue {\n"@;
    let t = "  type: "@ + m.comm_type.name() + "\n"@;
    let c = if m.id != 0 {
        "  id: "@ + decimal(m.id as nat) + "\n"@
    } else {
        Seq::empty()
    };
    let d = if m.sender != 0 {
        "  sender: "@ + decimal(m.sender as nat) + "\n"@
    } else {
        Seq::empty()
    };
    let e = if m.receiver != 0 {
        "  receiver: "@ + decimal(m.receiver as nat) + "\n"@
    } else {
        Seq::empty()
    };
    let rest = "  data: {\n"@ + format_data_lines(m.data) + "  }\n"@ + "}"@;
    let s = format_message(m);
    assert(s =~= a + t + c + d + e + rest);
    assert(s =~= a + t + (c + d + e + rest));
    lemma_contains_at(s, t, a, c + d + e + rest);
    assert(s =~= (a + t) + c + (d + e + rest));
    lemma_contains_at(s, c, a + t, d + e + rest);
    assert(s =~= (a + t + c) + d + (e + rest));
    lemma_contains_at(s, d, a + t + c, e + rest);
    assert(s =~= (a + t + c + d) + e + rest);
    lemma_contains_at(s, e, a + t + c + d, rest);
}

/// No item nests deeper than the array.
pub proof fn lemma_items_depth(a: Seq<Value>)
    ensures
        forall|i: int| 0 <= i < a.len() ==> depth(#[trigger] a[i]) <= items_depth(a),
    decreases a.len(),
{
    if a.len() > 0 {
        lemma_items_depth(a.drop_last());
        assert forall|i: int| 0 <= i < a.len() implies depth(#[trigger] a[i]) <= items_depth(a) by {
            if i < a.len() - 1 {
                assert(a[i] == a.drop_last()[i]);
            }
        }
    }
}

/// No entry nests deeper than the container.
pub proof fn lemma_entries_depth(c: Seq<(DataTypes, Value)>)
    ensures
        forall|i: int| 0 <= i < c.len() ==> depth(#[trigger] c[i].1) <= entries_depth(c),
    decreases c.len(),
{
    if c.len() > 0 {
        lemma_entries_depth(c.drop_last());
        assert forall|i: int| 0 <= i < c.len() implies depth(#[trigger] c[i].1) <= entries_depth(
            c,
        ) by {
            if i < c.len() - 1 {
                assert(c[i] == c.drop_last()[i]);
            }
        }
    }
}

/// `n` copies of two spaces.
pub fn spaces_string(n: usize) -> (r: String)
    ensures
        r@ == spaces(n as nat),
{
    let mut s = String::new();
    let mut i: usize = 0;
    while i < n
        invariant
            i <= n,
            s@ == spaces(i as nat),
        decreases n - i,
    {
        s.append("  ");
        i += 1;
    }
    s
}

/// The text of one decimal digit.
pub fn digit_string(d: u64) -> (r: &'static str)
    requires
        d < 10,
    ensures
        r@ == digit_text(d as nat),
{
    match d {
        0 => "0",
        1 => "1",
        2 => "2",
        3 => "3",
        4 => "4",
        5 => "5",
        6 => "6",
        7 => "7",
        8 => "8",
        _ => "9",
    }
}

/// Decimal digits of `n`.
pub fn decimal_string(n: u64) -> (r: String)
    ensures
        r@ == decimal(n as nat),
    decreases n,
{
    if n < 10 {
        String::from_str(digit_string(n))
    } else {
        let mut s = decimal_string(n / 10);
        s.append(digit_string(n % 10));
        s
    }
}

/// Decimal text of a signed number.
pub fn signed_decimal_string(n: i64) -> (r: String)
    ensures
        r@ == signed_decimal(n as int),
{
    if n < 0 {
        let magnitude: u64 = ((-(n + 1)) as u64) + 1;
        let mut s = String::from_str("-");
        let digits = decimal_string(magnitude);
        s.append(digits.as_str());
        s
    } else {
        decimal_string(n as u64)
    }
}

/// Whether a value is written over several lines: a non-empty array or container, whose
/// closing bracket stands one level up from `indent`.
pub open spec fn spans_lines(v: Value) -> bool {
    match v {
        Value::Array(a) => a.len() > 0,
        Value::Container(c) => c.len() > 0,
        _ => false,
    }
}

/// A value written at the given indentation. A value written over several lines needs an
/// indentation of at least one level, to close its bracket one level up.
pub fn format_data_value(value: &DataValue, indent: usize) -> (r: String)
    requires
        spans_lines(value@) ==> indent >= 1,
        indent + depth(value@) <= usize::MAX,
    ensures
        r@ == format_value(value@, indent as nat),
    decreases value,
{
    match value {
        DataValue::Number(n) => signed_decimal_string(*n),
        DataValue::Str(s) => {
            let mut out = String::from_str("\"");
            out.append(s.as_str());
            out.append("\"");
            out
        },
        DataValue::Bool(b) => if *b {
            String::from_str("true")
        } else {
            String::from_str("false")
        },
        DataValue::BoolTrue => String::from_str("true"),
        DataValue::BoolFalse => String::from_str("false"),
        DataValue::Null => String::from_str("null"),
        DataValue::Array(arr) => {
            let ghost ma = models(arr@);
            proof {
                lemma_models_index(arr@);
                lemma_items_depth(ma);
            }
            if arr.len() == 0 {
                return String::from_str("[]");
            }
            let indent_str = spaces_string(indent);
            let mut out = String::from_str("[\n");
            let mut i: usize = 0;
            proof {
                assert(ma.take(0) =~= Seq::<Value>::empty());
            }
            while i < arr.len()
                invariant
                    i <= arr@.len(),
                    ma == models(arr@),
                    ma.len() == arr@.len(),
                    forall|j: int| 0 <= j < arr@.len() ==> #[trigger] ma[j] == model(arr@[j]),
                    forall|j: int| 0 <= j < ma.len() ==> depth(#[trigger] ma[j]) <= items_depth(ma),
                    value@ == Value::Array(ma),
                    *value == DataValue::Array(*arr),
                    indent >= 1,
                    indent + depth(value@) <= usize::MAX,
                    indent_str@ == spaces(indent as nat),
                    out@ == "[\n"@ + format_items(ma.take(i as int), indent as nat),
                decreases arr@.len() - i,
            {
                proof {
                    assert(decreases_to!(value => arr@[i as int]));
                    assert(ma.take(i + 1).drop_last() =~= ma.take(i as int));
                    assert(depth(ma[i as int]) <= items_depth(ma));
                }
                out.append(indent_str.as_str());
                out.append("  ");
                let item = format_data_value(&arr[i], indent + 1);
                out.append(item.as_str());
                out.append("\n");
                i += 1;
            }
            proof {
                assert(ma.take(arr@.len() as int) =~= ma);
            }
            let closing = spaces_string(indent - 1);
            out.append(closing.as_str());
            out.append("]");
            out
        },
        DataValue::Container(entries) => {
            let ghost mc = entry_models(entries@);
            proof {
                lemma_entry_models_index(entries@);
                lemma_entries_depth(mc);
            }
            if entries.len() == 0 {
                return String::from_str("{}");
            }
            let indent_str = spaces_string(indent);
            let mut out = String::from_str("{\n");
            let mut i: usize = 0;
            proof {
                assert(mc.take(0) =~= Seq::<(DataTypes, Value)>::empty());
            }
            while i < entries.len()
                invariant
                    i <= entries@.len(),
                    mc == entry_models(entries@),
                    mc.len() == entries@.len(),
                    forall|j: int|
                        0 <= j < entries@.len() ==> #[trigger] mc[j] == (
                            entries@[j].0,
                            model(entries@[j].1),
                        ),
                    forall|j: int|
                        0 <= j < mc.len() ==> depth(#[trigger] mc[j].1) <= entries_depth(mc),
                    value@ == Value::Container(mc),
                    *value == DataValue::Container(*entries),
                    indent >= 1,
                    indent + depth(value@) <= usize::MAX,
                    indent_str@ == spaces(indent as nat),
                    out@ == "{\n"@ + format_entries(mc.take(i as int), indent as nat),
                decreases entries@.len() - i,
            {
                proof {
                    assert(decreases_to!(value => entries@[i as int].1));
                    assert(mc.take(i + 1).drop_last() =~= mc.take(i as int));
                    assert(depth(mc[i as int].1) <= entries_depth(mc));
                }
                out.append(indent_str.as_str());
                out.append("  ");
                let key = entries[i].0.to_string();
                out.append(key.as_str());
                out.append(": ");
                let item = format_data_value(&entries[i].1, indent + 1);
                out.append(item.as_str());
                out.append("\n");
                i += 1;
            }
            proof {
                assert(mc.take(entries@.len() as int) =~= mc);
            }
            let closing = spaces_string(indent - 1);
            out.append(closing.as_str());
            out.append("}");
            out
        },
    }
}

/// The lines of a written message before its data entries.
#[verifier::spinoff_prover]
#[verifier::rlimit(40)]
fn message_head(cv: &CommunicationValue) -> (r: String)
    ensures
        r@ == format_head(cv@),
{
    let mut output = String::new();
    output.append("CommunicationValue {\n");
    output.append("  type: ");
    let kind_text = cv.get_type().to_string();
    output.append(kind_text.as_str());
    output.append("\n");
    let ghost head = output@;
    if cv.get_id() != 0 {
        output.append("  id: ");
        let t = decimal_string(cv.get_id() as u64);
        output.append(t.as_str());
        output.append("\n");
    }
    let ghost after_id = output@;
    if cv.get_sender() != 0 {
        output.append("  sender: ");
        let t = decimal_string(cv.get_sender());
        output.append(t.as_str());
        output.append("\n");
    }
    let ghost after_sender = output@;
    if cv.get_receiver() != 0 {
        output.append("  receiver: ");
        let t = decimal_string(cv.get_receiver());
        output.append(t.as_str());
        output.append("\n");
    }
    let ghost after_receiver = output@;
    output.append("  data: {\n");
    proof {
        let m = cv@;
        if m.id == 0 {
            assert(after_id =~= head + Seq::<char>::empty());
        }
        if m.sender == 0 {
            assert(after_sender =~= after_id + Seq::<char>::empty());
        }
        if m.receiver == 0 {
            assert(after_receiver =~= after_sender + Seq::<char>::empty());
        }
        assert(output@ =~= format_head(m));
    }
    output
}

/// A readable rendering of a message: its type, the id, sender and receiver that are not
/// 0, and each data entry on a line of its own.
#[verifier::spinoff_prover]
pub fn format_cv(cv: &CommunicationValue) -> (r: String)
    requires
        entries_depth(cv@.data) + 2 <= usize::MAX,
    ensures
        r@ == format_message(cv@),
{
    let mut output = message_head(cv);
    let ghost before_data = output@;
    let data = cv.get_data_container();
    let ghost mc = entry_models(data@);
    proof {
        lemma_entry_models_index(data@);
        lemma_entries_depth(mc);
        assert(mc.take(0) =~= Seq::<(DataTypes, Value)>::empty());
        assert(before_data + format_data_lines(mc.take(0)) =~= before_data);
    }
    let mut i: usize = 0;
    while i < data.len()
        invariant
            i <= data@.len(),
            mc == entry_models(data@),
            mc == cv@.data,
            mc.len() == data@.len(),
            forall|j: int|
                0 <= j < data@.len() ==> #[trigger] mc[j] == (data@[j].0, model(data@[j].1)),
            forall|j: int| 0 <= j < mc.len() ==> depth(#[trigger] mc[j].1) <= entries_depth(mc),
            entries_depth(mc) + 2 <= usize::MAX,
            output@ == before_data + format_data_lines(mc.take(i as int)),
        decreases data@.len() - i,
    {
        proof {
            assert(mc.take(i + 1).drop_last() =~= mc.take(i as int));
            assert(depth(mc[i as int].1) <= entries_depth(mc));
        }
        output.append("    ");
        let key = data[i].0.to_string();
        output.append(key.as_str());
        output.append(": ");
        let value_text = format_data_value(&data[i].1, 2);
        output.append(value_text.as_str());
        output.append("\n");
        i += 1;
    }
    proof {
        assert(mc.take(data@.len() as int) =~= mc);
    }
    output.append("  }\n");
    output.append("}");
    output
}

} // verus!
