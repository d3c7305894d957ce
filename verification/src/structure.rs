use vstd::prelude::*;
use vstd::string::StringExecFns;

use crate::data_types::DataTypes;
use crate::data_value::{lemma_entry_models_index, lemma_models_index, DataValue};
use crate::logger::{
    decimal, decimal_string, entries_depth, items_depth, lemma_entries_depth,
    lemma_items_depth, signed_decimal, signed_decimal_string,
};

verus! {

/// The colour a line's value is shown in.
#[derive(Clone, Copy, Debug, PartialEq, Eq, Structural)]
pub enum Tone {
    Green,
    Red,
    Cyan,
    DarkGray,
    White,
}

/// What stands before a line's value: the key of a container entry, the position of an
/// array item, or nothing (the line that marks an empty container).
#[derive(Clone, Copy, Debug, PartialEq, Eq, Structural)]
pub enum LineLabel {
    Key(DataTypes),
    Index(usize),
    Nothing,
}

/// One line of the tree that shows a message's data: how deep it stands, whether it is
/// the last of its siblings, its label, and its value's text and colour.
#[derive(Debug)]
pub struct TreeLine {
    pub depth: usize,
    pub last: bool,
    pub label: LineLabel,
    pub text: String,
    pub tone: Tone,
}

/// What a tree line says.
pub struct LineSpec {
    pub depth: nat,
    pub last: bool,
    pub label: LineLabel,
    pub text: Seq<char>,
    pub tone: Tone,
}

/// What a tree line says.
pub open spec fn line_spec(l: TreeLine) -> LineSpec {
    LineSpec { depth: l.depth as nat, last: l.last, label: l.label, text: l.text@, tone: l.tone }
}

/// What tree lines say, in order.
pub open spec fn lines_spec(ls: Seq<TreeLine>) -> Seq<LineSpec> {
    ls.map_values(|l: TreeLine| line_spec(l))
}

/// How a container entry's value is shown: numbers in decimal and texts in double quotes,
/// in green; booleans as words, green when true and red when false; null in grey; an
/// array by its number of items and a container by "{...}", in cyan.
pub open spec fn entry_text_spec(v: DataValue) -> (Seq<char>, Tone) {
    match v {
        DataValue::Number(n) => (signed_decimal(n as int), Tone::Green),
        DataValue::Str(s) => ("\""@ + s@ + "\""@, Tone::Green),
        DataValue::Bool(b) => if b {
            ("true"@, Tone::Green)
        } else {
            ("false"@, Tone::Red)
        },
        DataValue::BoolTrue => ("true"@, Tone::Green),
        DataValue::BoolFalse => ("false"@, Tone::Red),
        DataValue::Null => ("null"@, Tone::DarkGray),
        DataValue::Array(a) => ("["@ + decimal(a@.len()) + " items]"@, Tone::Cyan),
        DataValue::Container(_) => ("{...}"@, Tone::Cyan),
    }
}

/// How an array item is shown: numbers, texts, arrays and containers as in a container;
/// booleans and null by their variant's name, in white.
pub open spec fn item_text_spec(v: DataValue) -> (Seq<char>, Tone) {
    match v {
        DataValue::Bool(b) => if b {
            ("Bool(true)"@, Tone::White)
        } else {
            ("Bool(false)"@, Tone::White)
        },
        DataValue::BoolTrue => ("BoolTrue"@, Tone::White),
        DataValue::BoolFalse => ("BoolFalse"@, Tone::White),
        DataValue::Null => ("Null"@, Tone::White),
        _ => entry_text_spec(v),
    }
}

/// The position of the last entry with key `k`.
pub open spec fn last_index(es: Seq<(DataTypes, DataValue)>, k: DataTypes) -> Option<int>
    decreases es.len(),
{
    if es.len() == 0 {
        None
    } else if es.last().0 == k {
        Some(es.len() - 1)
    } else {
        last_index(es.drop_last(), k)
    }
}

/// For each key below position `c` of the declaration order that occurs in the entries,
/// in that order, the position of its last entry.
pub open spec fn present_upto(es: Seq<(DataTypes, DataValue)>, c: nat) -> Seq<int>
    decreases c,
{
    if c == 0 {
        Seq::empty()
    } else {
        let p = present_upto(es, (c - 1) as nat);
        match last_index(es, DataTypes::of_code((c - 1) as u8)) {
            Some(j) => p.push(j),
            None => p,
        }
    }
}

/// The entries as a map would hold them: one per key, the last one given, in key order
/// (as positions in `es`).
pub open spec fn present(es: Seq<(DataTypes, DataValue)>) -> Seq<int> {
    present_upto(es, 88)
}

/// The lines under a value: its items for an array, its entries for a container, none
/// for the rest.
pub open spec fn value_tree(v: DataValue, depth: nat) -> Seq<LineSpec>
    decreases v, 0nat, 0nat,
{
    match v {
        DataValue::Array(a) => items_tree(a@, a@.len(), depth),
        DataValue::Container(c) => container_tree(c@, depth),
        _ => Seq::empty(),
    }
}

/// The lines of the first items of an array of `n` items: each item's line, labelled with
/// its position, then the lines under it one level deeper.
pub open spec fn items_tree(a: Seq<DataValue>, n: nat, depth: nat) -> Seq<LineSpec>
    decreases a, 0nat, 0nat,
{
    if a.len() == 0 {
        Seq::empty()
    } else {
        let i = a.len() - 1;
        let shown = item_text_spec(a.last());
        items_tree(a.drop_last(), n, depth).push(
            LineSpec {
                depth,
                last: i == n - 1,
                label: LineLabel::Index(i as usize),
                text: shown.0,
                tone: shown.1,
            },
        ) + value_tree(a.last(), depth + 1)
    }
}

/// The lines of a container: its entries as a map holds them, each entry's line labelled
/// with its key and followed by the lines under it one level deeper; an empty container
/// shows one line, "(empty)".
pub open spec fn container_tree(es: Seq<(DataTypes, DataValue)>, depth: nat) -> Seq<LineSpec>
    decreases es, 1nat, 0nat,
{
    let ps = present(es);
    if ps.len() == 0 {
        seq![
            LineSpec {
                depth,
                last: true,
                label: LineLabel::Nothing,
                text: "(empty)"@,
                tone: Tone::DarkGray,
            },
        ]
    } else {
        listed_tree(es, ps, ps.len(), depth)
    }
}

/// The lines of the entries at the first of `n` listed positions.
pub open spec fn listed_tree(es: Seq<(DataTypes, DataValue)>, ps: Seq<int>, n: nat, depth: nat) -> Seq<
    LineSpec,
>
    decreases es, 0nat, ps.len(),
{
    if ps.len() == 0 {
        Seq::empty()
    } else {
        let i = ps.len() - 1;
        let j = ps.last();
        if 0 <= j < es.len() {
            let shown = entry_text_spec(es[j].1);
            listed_tree(es, ps.drop_last(), n, depth).push(
                LineSpec {
                    depth,
                    last: i == n - 1,
                    label: LineLabel::Key(es[j].0),
                    text: shown.0,
                    tone: shown.1,
                },
            ) + value_tree(es[j].1, depth + 1)
        } else {
            listed_tree(es, ps.drop_last(), n, depth)
        }
    }
}

/// The positions `present_upto` lists lie within the entries and are at most one per key.
pub proof fn lemma_present_upto(es: Seq<(DataTypes, DataValue)>, c: nat)
    ensures
        present_upto(es, c).len() <= c,
        forall|i: int|
            0 <= i < present_upto(es, c).len() ==> 0 <= #[trigger] present_upto(es, c)[i] < es.len(),
    decreases c,
{
    if c > 0 {
        lemma_present_upto(es, (c - 1) as nat);
        lemma_last_index(es, DataTypes::of_code((c - 1) as u8));
    }
}

/// A last position found lies within the entries and has the key.
pub proof fn lemma_last_index(es: Seq<(DataTypes, DataValue)>, k: DataTypes)
    ensures
        last_index(es, k) matches Some(j) ==> 0 <= j < es.len() && es[j].0 == k,
    decreases es.len(),
{
    if es.len() > 0 && es.last().0 != k {
        lemma_last_index(es.drop_last(), k);
    }
}

/// How a container entry's value is shown.
pub fn entry_text(v: &DataValue) -> (r: (String, Tone))
    ensures
        (r.0@, r.1) == entry_text_spec(*v),
{
    match v {
        DataValue::Number(n) => (signed_decimal_string(*n), Tone::Green),
        DataValue::Str(s) => {
            let mut out = String::from_str("\"");
            out.append(s.as_str());
            out.append("\"");
            (out, Tone::Green)
        },
        DataValue::Bool(b) => if *b {
            (String::from_str("true"), Tone::Green)
        } else {
            (String::from_str("false"), Tone::Red)
        },
        DataValue::BoolTrue => (String::from_str("true"), Tone::Green),
        DataValue::BoolFalse => (String::from_str("false"), Tone::Red),
        DataValue::Null => (String::from_str("null"), Tone::DarkGray),
        DataValue::Array(a) => {
            let mut out = String::from_str("[");
            let count = decimal_string(a.len() as u64);
            out.append(count.as_str());
            out.append(" items]");
            (out, Tone::Cyan)
        },
        DataValue::Container(_) => (String::from_str("{...}"), Tone::Cyan),
    }
}

/// How an array item is shown.
pub fn item_text(v: &DataValue) -> (r: (String, Tone))
    ensures
        (r.0@, r.1) == item_text_spec(*v),
{
    match v {
        DataValue::Bool(b) => if *b {
            (String::from_str("Bool(true)"), Tone::White)
        } else {
            (String::from_str("Bool(false)"), Tone::White)
        },
        DataValue::BoolTrue => (String::from_str("BoolTrue"), Tone::White),
        DataValue::BoolFalse => (String::from_str("BoolFalse"), Tone::White),
        DataValue::Null => (String::from_str("Null"), Tone::White),
        _ => entry_text(v),
    }
}

/// The position of the last entry with key `k`, if there is one.
pub fn last_index_of(es: &Vec<(DataTypes, DataValue)>, k: DataTypes) -> (r: Option<usize>)
    ensures
        r matches Some(j) ==> last_index(es@, k) == Some(j as int),
        r is None ==> last_index(es@, k) is None,
{
    let mut i: usize = es.len();
    proof {
        assert(es@.take(i as int) =~= es@);
    }
    while i > 0
        invariant
            i <= es@.len(),
            last_index(es@, k) == last_index(es@.take(i as int), k),
        decreases i,
    {
        proof {
            assert(es@.take(i as int).drop_last() =~= es@.take(i - 1));
        }
        if es[i - 1].0 == k {
            return Some(i - 1);
        }
        i -= 1;
    }
    None
}

/// The positions of the entries a map built from them would hold, in key order.
pub fn present_positions(es: &Vec<(DataTypes, DataValue)>) -> (r: Vec<usize>)
    ensures
        r@.len() == present(es@).len(),
        forall|i: int| 0 <= i < r@.len() ==> #[trigger] r@[i] as int == present(es@)[i],
{
    let mut out: Vec<usize> = Vec::new();
    let mut c: u8 = 0;
    while c < 88
        invariant
            c <= 88,
            out@.len() == present_upto(es@, c as nat).len(),
            forall|i: int|
                0 <= i < out@.len() ==> #[trigger] out@[i] as int == present_upto(es@, c as nat)[i],
        decreases 88 - c,
    {
        let k = DataTypes::from_number(c);
        match last_index_of(es, k) {
            Some(j) => {
                out.push(j);
            },
            None => {},
        }
        c += 1;
    }
    out
}

/// The tree line with the given parts.
fn tree_line(depth: usize, last: bool, label: LineLabel, shown: (String, Tone)) -> (r: TreeLine)
    ensures
        line_spec(r) == (LineSpec {
            depth: depth as nat,
            last,
            label,
            text: shown.0@,
            tone: shown.1,
        }),
{
    TreeLine { depth, last, label, text: shown.0, tone: shown.1 }
}

/// Adds the lines under a value, at the given depth.
pub fn push_value_tree(lines: &mut Vec<TreeLine>, v: &DataValue, depth: usize)
    requires
        depth + crate::logger::depth(v@) <= usize::MAX,
    ensures
        lines_spec(final(lines)@) == lines_spec(old(lines)@) + value_tree(*v, depth as nat),
    decreases v, 0nat,
{
    match v {
        DataValue::Array(arr) => {
            proof {
                assert(decreases_to!(v => arr@));
            }
            push_items_tree(lines, arr, depth);
        },
        DataValue::Container(entries) => {
            push_container_tree(lines, entries, depth);
        },
        _ => {
            proof {
                assert(lines_spec(old(lines)@) + value_tree(*v, depth as nat) =~= lines_spec(
                    old(lines)@,
                ));
            }
        },
    }
}

/// Adds the lines of an array's items, at the given depth.
pub fn push_items_tree(lines: &mut Vec<TreeLine>, arr: &Vec<DataValue>, depth: usize)
    requires
        depth + 1 + items_depth(crate::data_value::models(arr@)) <= usize::MAX,
    ensures
        lines_spec(final(lines)@) == lines_spec(old(lines)@) + items_tree(arr@, arr@.len(), depth as nat),
    decreases arr@, 0nat,
{
    let ghost ma = crate::data_value::models(arr@);
    proof {
        lemma_models_index(arr@);
        lemma_items_depth(ma);
    }
    let ghost start = lines_spec(lines@);
    let n = arr.len();
    let mut i: usize = 0;
    proof {
        assert(start + items_tree(arr@.take(0), n as nat, depth as nat) =~= start);
    }
    while i < n
        invariant
            n == arr@.len(),
            i <= n,
            ma == crate::data_value::models(arr@),
            ma.len() == arr@.len(),
            forall|j: int| 0 <= j < arr@.len() ==> #[trigger] ma[j] == arr@[j]@,
            forall|j: int| 0 <= j < ma.len() ==> crate::logger::depth(#[trigger] ma[j]) <= items_depth(ma),
            depth + 1 + items_depth(ma) <= usize::MAX,
            lines_spec(lines@) == start + items_tree(arr@.take(i as int), n as nat, depth as nat),
        decreases n - i,
    {
        proof {
            assert(decreases_to!(arr@ => arr@[i as int]));
            assert(arr@.take(i + 1).drop_last() =~= arr@.take(i as int));
            assert(arr@.take(i + 1).last() == arr@[i as int]);
            assert(crate::logger::depth(ma[i as int]) <= items_depth(ma));
        }
        let shown = item_text(&arr[i]);
        let line = tree_line(depth, i == n - 1, LineLabel::Index(i), shown);
        let ghost before = lines@;
        lines.push(line);
        proof {
            assert(lines_spec(lines@) =~= lines_spec(before).push(line_spec(line)));
        }
        push_value_tree(lines, &arr[i], depth + 1);
        proof {
            let t = arr@.take(i + 1);
            assert(items_tree(t, n as nat, depth as nat) == items_tree(
                t.drop_last(),
                n as nat,
                depth as nat,
            ).push(line_spec(line)) + value_tree(t.last(), depth as nat + 1));
            assert(lines_spec(lines@) =~= start + items_tree(t, n as nat, depth as nat));
        }
        i += 1;
    }
    proof {
        assert(arr@.take(n as int) =~= arr@);
    }
}

/// Adds the lines of a container, at the given depth.
pub fn push_container_tree(
    lines: &mut Vec<TreeLine>,
    es: &Vec<(DataTypes, DataValue)>,
    depth: usize,
)
    requires
        depth + 1 + entries_depth(crate::data_value::entry_models(es@)) <= usize::MAX,
    ensures
        lines_spec(final(lines)@) == lines_spec(old(lines)@) + container_tree(es@, depth as nat),
    decreases es@, 1nat,
{
    let ghost me = crate::data_value::entry_models(es@);
    proof {
        lemma_entry_models_index(es@);
        lemma_entries_depth(me);
        lemma_present_upto(es@, 88);
    }
    let ps = present_positions(es);
    let ghost sp = present(es@);
    let ghost start = lines_spec(lines@);
    if ps.len() == 0 {
        let line = tree_line(depth, true, LineLabel::Nothing, (String::from_str("(empty)"), Tone::DarkGray));
        let ghost before = lines@;
        lines.push(line);
        proof {
            assert(lines_spec(lines@) =~= lines_spec(before).push(line_spec(line)));
            assert(container_tree(es@, depth as nat) =~= seq![line_spec(line)]);
        }
        return;
    }
    let n = ps.len();
    let mut i: usize = 0;
    proof {
        assert(start + listed_tree(es@, sp.take(0), n as nat, depth as nat) =~= start);
    }
    while i < n
        invariant
            n == ps@.len(),
            n == sp.len(),
            n > 0,
            i <= n,
            sp == present(es@),
            forall|j: int| 0 <= j < ps@.len() ==> #[trigger] ps@[j] as int == sp[j],
            forall|j: int| 0 <= j < sp.len() ==> 0 <= #[trigger] sp[j] < es@.len(),
            me == crate::data_value::entry_models(es@),
            me.len() == es@.len(),
            forall|j: int|
                0 <= j < es@.len() ==> #[trigger] me[j] == (es@[j].0, es@[j].1@),
            forall|j: int| 0 <= j < me.len() ==> crate::logger::depth(#[trigger] me[j].1) <= entries_depth(me),
            depth + 1 + entries_depth(me) <= usize::MAX,
            lines_spec(lines@) == start + listed_tree(es@, sp.take(i as int), n as nat, depth as nat),
        decreases n - i,
    {
        let j = ps[i];
        proof {
            assert(sp[i as int] == j as int);
            assert(decreases_to!(es@ => es@[j as int]));
            assert(decreases_to!(es@[j as int] => es@[j as int].1));
            assert(sp.take(i + 1).drop_last() =~= sp.take(i as int));
            assert(sp.take(i + 1).last() == j as int);
            assert(crate::logger::depth(me[j as int].1) <= entries_depth(me));
        }
        let shown = entry_text(&es[j].1);
        let line = tree_line(depth, i == n - 1, LineLabel::Key(es[j].0), shown);
        let ghost before = lines@;
        lines.push(line);
        proof {
            assert(lines_spec(lines@) =~= lines_spec(before).push(line_spec(line)));
        }
        push_value_tree(lines, &es[j].1, depth + 1);
        proof {
            let t = sp.take(i + 1);
            assert(listed_tree(es@, t, n as nat, depth as nat) == listed_tree(
                es@,
                t.drop_last(),
                n as nat,
                depth as nat,
            ).push(line_spec(line)) + value_tree(es@[j as int].1, depth as nat + 1));
            assert(lines_spec(lines@) =~= start + listed_tree(es@, t, n as nat, depth as nat));
        }
        i += 1;
    }
    proof {
        assert(sp.take(n as int) =~= sp);
    }
}

/// The lines that show a container: its entries as a map holds them, in key order, each
/// followed by the lines under its value.
pub fn render_container(container: &Vec<(DataTypes, DataValue)>, indent: usize) -> (r: Vec<
    TreeLine,
>)
    requires
        indent + 1 + entries_depth(crate::data_value::entry_models(container@)) <= usize::MAX,
    ensures
        lines_spec(r@) == container_tree(container@, indent as nat),
{
    let mut lines: Vec<TreeLine> = Vec::new();
    proof {
        assert(lines_spec(lines@) =~= Seq::<LineSpec>::empty());
    }
    push_container_tree(&mut lines, container, indent);
    proof {
        assert(lines_spec(lines@) =~= container_tree(container@, indent as nat));
    }
    lines
}

/// The lines that show an array: each item, labelled with its position, followed by the
/// lines under it.
pub fn render_array(arr: &Vec<DataValue>, indent: usize) -> (r: Vec<TreeLine>)
    requires
        indent + 1 + items_depth(crate::data_value::models(arr@)) <= usize::MAX,
    ensures
        lines_spec(r@) == items_tree(arr@, arr@.len(), indent as nat),
{
    let mut lines: Vec<TreeLine> = Vec::new();
    proof {
        assert(lines_spec(lines@) =~= Seq::<LineSpec>::empty());
    }
    push_items_tree(&mut lines, arr, indent);
    proof {
        assert(lines_spec(lines@) =~= items_tree(arr@, arr@.len(), indent as nat));
    }
    lines
}

} // verus!
