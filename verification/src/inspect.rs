use vstd::prelude::*;

use crate::communication_types::CommunicationType;
use crate::communication_value::{read_message, CommunicationValue, Message};
use crate::data_map::map_of_entries;
use crate::data_types::DataTypes;
use crate::data_value::{
    entry_models, lemma_entry_models_index, lemma_models_push, model, models, DataKind, DataValue,
    Value,
};
use crate::names::{chars_of, same_chars};
use crate::text::{
    ascii_eq_ignore_case, chars_eq_ignore_ascii_case, i64_text, parse_i64, parse_unsigned,
    split_commas, split_on, string_from_chars, trim_chars, trimmed, unsigned_text,
};

verus! {

/// The numbers that the trimmed pieces spell, when every piece spells one.
pub open spec fn numbers_from_pieces(ps: Seq<Seq<char>>) -> Option<Seq<Value>>
    decreases ps.len(),
{
    if ps.len() == 0 {
        Some(Seq::empty())
    } else {
        match (numbers_from_pieces(ps.drop_last()), i64_text(trimmed(ps.last()))) {
            (Some(vs), Some(n)) => Some(vs.push(Value::Number(n))),
            _ => None,
        }
    }
}

/// The trimmed pieces as texts.
pub open spec fn texts_from_pieces(ps: Seq<Seq<char>>) -> Seq<Value>
    decreases ps.len(),
{
    if ps.len() == 0 {
        Seq::empty()
    } else {
        texts_from_pieces(ps.drop_last()).push(Value::Str(trimmed(ps.last())))
    }
}

/// The value a text stands for, for a key of the given kind: a number in `i64` range;
/// the text itself; a boolean from "true"/"false" in any ASCII case or "1"/"0"; null;
/// comma-separated numbers or texts (each trimmed) for arrays of numbers or texts.
/// Containers and other arrays cannot be written as text.
pub open spec fn value_from_text(kind: DataKind, s: Seq<char>) -> Option<Value> {
    match kind {
        DataKind::Number => match i64_text(s) {
            Some(n) => Some(Value::Number(n)),
            None => None,
        },
        DataKind::Str => Some(Value::Str(s)),
        DataKind::Bool => if ascii_eq_ignore_case(s, "true"@) || s == "1"@ {
            Some(Value::Bool(true))
        } else if ascii_eq_ignore_case(s, "false"@) || s == "0"@ {
            Some(Value::Bool(false))
        } else {
            None
        },
        DataKind::Null => Some(Value::Null),
        DataKind::Array(inner) => match *inner {
            DataKind::Number => match numbers_from_pieces(split_on(s, ',')) {
                Some(vs) => Some(Value::Array(vs)),
                None => None,
            },
            DataKind::Str => Some(Value::Array(texts_from_pieces(split_on(s, ',')))),
            _ => None,
        },
        DataKind::Container => None,
    }
}

/// How booleans are typed: "1" and every ASCII-case spelling of "true" stand for true,
/// "0" and every ASCII-case spelling of "false" for false, and no other text stands for a
/// boolean. So each text stands for at most one boolean, and every boolean can be typed.
pub proof fn lemma_boolean_texts(s: Seq<char>)
    ensures
        value_from_text(DataKind::Bool, "1"@) == Some(Value::Bool(true)),
        value_from_text(DataKind::Bool, "0"@) == Some(Value::Bool(false)),
        ascii_eq_ignore_case(s, "true"@) ==> value_from_text(DataKind::Bool, s) == Some(
            Value::Bool(true),
        ),
        ascii_eq_ignore_case(s, "false"@) ==> value_from_text(DataKind::Bool, s) == Some(
            Value::Bool(false),
        ),
        value_from_text(DataKind::Bool, s) == Some(Value::Bool(true)) ==> (ascii_eq_ignore_case(
            s,
            "true"@,
        ) || s == "1"@),
        value_from_text(DataKind::Bool, s) == Some(Value::Bool(false)) ==> (ascii_eq_ignore_case(
            s,
            "false"@,
        ) || s == "0"@),
        value_from_text(DataKind::Bool, s) matches Some(v) ==> v is Bool,
{
    reveal_strlit("1");
    reveal_strlit("0");
    reveal_strlit("true");
    reveal_strlit("false");
    if s == "1"@ {
        assert(!ascii_eq_ignore_case(s, "true"@));
    }
    if s == "0"@ {
        assert(!ascii_eq_ignore_case(s, "true"@));
    }
    if ascii_eq_ignore_case(s, "false"@) {
        assert(s.len() == 5);
        assert(!ascii_eq_ignore_case(s, "true"@));
        assert(s != "1"@);
    }
}

/// The value that `s` stands for under `key`'s expected kind; a boolean is spelled
/// `Bool(_)`.
pub fn parse_value_for_key(key: &DataTypes, s: &str) -> (r: Option<DataValue>)
    ensures
        r is Some <==> value_from_text(key.kind_of(), s@) is Some,
        r matches Some(v) ==> value_from_text(key.kind_of(), s@) == Some(v@),
        r matches Some(v) ==> (v@ matches Value::Bool(b) ==> v == DataValue::Bool(b)),
{
    let kind = key.expected_kind();
    let cs = chars_of(s);
    match kind {
        DataKind::Number => match parse_i64(&cs) {
            Some(n) => Some(DataValue::Number(n)),
            None => None,
        },
        DataKind::Str => Some(DataValue::Str(s.to_string())),
        DataKind::Bool => {
            let t = chars_of("true");
            let f = chars_of("false");
            let one = chars_of("1");
            let zero = chars_of("0");
            if chars_eq_ignore_ascii_case(&cs, &t) || same_chars(&cs, &one) {
                Some(DataValue::Bool(true))
            } else if chars_eq_ignore_ascii_case(&cs, &f) || same_chars(&cs, &zero) {
                Some(DataValue::Bool(false))
            } else {
                None
            }
        },
        DataKind::Null => Some(DataValue::Null),
        DataKind::Array(inner) => match *inner {
            DataKind::Number => {
                let pieces = split_commas(&cs);
                let ghost ps = split_on(s@, ',');
                let mut out: Vec<DataValue> = Vec::new();
                let mut i: usize = 0;
                proof {
                    assert(ps.take(0) =~= Seq::<Seq<char>>::empty());
                }
                while i < pieces.len()
                    invariant
                        i <= pieces@.len(),
                        cs@ == s@,
                        ps == split_on(s@, ','),
                        pieces@.len() == ps.len(),
                        forall|j: int| 0 <= j < pieces@.len() ==> #[trigger] pieces@[j]@ == ps[j],
                        numbers_from_pieces(ps.take(i as int)) == Some(models(out@)),
                        key.kind_of() == DataKind::Array(Box::new(DataKind::Number)),
                    decreases pieces@.len() - i,
                {
                    proof {
                        assert(ps.take(i + 1).drop_last() =~= ps.take(i as int));
                    }
                    let t = trim_chars(&pieces[i]);
                    match parse_i64(&t) {
                        Some(n) => {
                            proof {
                                lemma_models_push(out@, DataValue::Number(n));
                            }
                            out.push(DataValue::Number(n));
                        },
                        None => {
                            proof {
                                assert(ps.take(i + 1).last() == ps[i as int]);
                                assert(i64_text(trimmed(ps[i as int])) is None);
                                lemma_numbers_none(ps, i as int + 1);
                            }
                            return None;
                        },
                    }
                    i += 1;
                }
                proof {
                    assert(ps.take(pieces@.len() as int) =~= ps);
                }
                Some(DataValue::Array(out))
            },
            DataKind::Str => {
                let pieces = split_commas(&cs);
                let ghost ps = split_on(s@, ',');
                let mut out: Vec<DataValue> = Vec::new();
                let mut i: usize = 0;
                proof {
                    assert(ps.take(0) =~= Seq::<Seq<char>>::empty());
                }
                while i < pieces.len()
                    invariant
                        i <= pieces@.len(),
                        cs@ == s@,
                        ps == split_on(s@, ','),
                        pieces@.len() == ps.len(),
                        forall|j: int| 0 <= j < pieces@.len() ==> #[trigger] pieces@[j]@ == ps[j],
                        texts_from_pieces(ps.take(i as int)) == models(out@),
                    decreases pieces@.len() - i,
                {
                    proof {
                        assert(ps.take(i + 1).drop_last() =~= ps.take(i as int));
                    }
                    let t = trim_chars(&pieces[i]);
                    let text = string_from_chars(t.as_slice());
                    let v = DataValue::Str(text);
                    proof {
                        lemma_models_push(out@, v);
                    }
                    out.push(v);
                    i += 1;
                }
                proof {
                    assert(ps.take(pieces@.len() as int) =~= ps);
                }
                Some(DataValue::Array(out))
            },
            _ => None,
        },
        DataKind::Container => None,
    }
}

proof fn lemma_numbers_none(ps: Seq<Seq<char>>, i: int)
    requires
        0 <= i <= ps.len(),
        numbers_from_pieces(ps.take(i)) is None,
    ensures
        numbers_from_pieces(ps) is None,
    decreases ps.len() - i,
{
    if i < ps.len() {
        assert(ps.take(i + 1).drop_last() =~= ps.take(i));
        lemma_numbers_none(ps, i + 1);
    } else {
        assert(ps.take(i) =~= ps);
    }
}

/// The entry that the value being typed adds, when a key is chosen, the text is not
/// empty and it stands for a value of the key's kind.
pub open spec fn pending_entry(key: Option<DataTypes>, text: Seq<char>) -> Seq<(DataTypes, Value)> {
    match key {
        Some(k) => if text.len() > 0 && value_from_text(k.kind_of(), text) is Some {
            seq![(k, value_from_text(k.kind_of(), text)->0)]
        } else {
            Seq::empty()
        },
        None => Seq::empty(),
    }
}

/// A message built from form fields: the type; the id typed when it is a `u32` (0 meaning
/// none), else `fallback_id`; sender and receiver when their texts are `u64`s (else 0);
/// the entries in order, then the entry being typed, each set as with `add_data`.
pub fn build_message(
    comm_type: CommunicationType,
    fallback_id: u32,
    id: &str,
    sender: &str,
    receiver: &str,
    entries: &Vec<(DataTypes, DataValue)>,
    current_key: Option<DataTypes>,
    current_value: &str,
) -> (r: CommunicationValue)
    ensures
        r@.comm_type == comm_type,
        r@.id == (match unsigned_text(id@, u32::MAX as nat) {
            Some(n) => n as u32,
            None => fallback_id,
        }),
        r@.sender == (match unsigned_text(sender@, u64::MAX as nat) {
            Some(n) => n as u64,
            None => 0u64,
        }),
        r@.receiver == (match unsigned_text(receiver@, u64::MAX as nat) {
            Some(n) => n as u64,
            None => 0u64,
        }),
        r@.data == map_of_entries(entry_models(entries@) + pending_entry(current_key, current_value@)),
{
    let mut cv = CommunicationValue::new_with_id(comm_type, fallback_id);
    match parse_unsigned(&chars_of(id), 0xffff_ffff) {
        Some(n) => {
            cv = cv.with_id(n as u32);
        },
        None => {},
    }
    match parse_unsigned(&chars_of(sender), 0xffff_ffff_ffff_ffff) {
        Some(n) => {
            if n != 0 {
                cv = cv.with_sender(n);
            }
        },
        None => {},
    }
    match parse_unsigned(&chars_of(receiver), 0xffff_ffff_ffff_ffff) {
        Some(n) => {
            if n != 0 {
                cv = cv.with_receiver(n);
            }
        },
        None => {},
    }
    let ghost me = entry_models(entries@);
    let ghost head = cv@;
    proof {
        lemma_entry_models_index(entries@);
        assert(me.take(0) =~= Seq::<(DataTypes, Value)>::empty());
    }
    let mut i: usize = 0;
    while i < entries.len()
        invariant
            i <= entries@.len(),
            me == entry_models(entries@),
            me.len() == entries@.len(),
            forall|j: int|
                0 <= j < entries@.len() ==> #[trigger] me[j] == (entries@[j].0, model(entries@[j].1)),
            cv@ == (Message { data: map_of_entries(me.take(i as int)), ..head }),
        decreases entries@.len() - i,
    {
        proof {
            assert(me.take(i + 1).drop_last() =~= me.take(i as int));
        }
        let v = entries[i].1.duplicate();
        cv = cv.add_data(entries[i].0, v);
        i += 1;
    }
    proof {
        assert(me.take(entries@.len() as int) =~= me);
    }
    let ghost before = cv@;
    match current_key {
        Some(key) => {
            if !current_value.is_empty() {
                match parse_value_for_key(&key, current_value) {
                    Some(value) => {
                        cv = cv.add_data(key, value);
                    },
                    None => {},
                }
            }
        },
        None => {},
    }
    proof {
        let all = me + pending_entry(current_key, current_value@);
        if pending_entry(current_key, current_value@).len() == 0 {
            assert(all =~= me);
        } else {
            assert(all.drop_last() =~= me);
            assert(all.last() == pending_entry(current_key, current_value@)[0]);
        }
        if current_key is Some && current_value@.len() == 0 {
            assert(current_value@.len() == 0);
        }
    }
    cv
}

/// ASCII hexadecimal digit.
pub open spec fn is_hex_digit(c: char) -> bool {
    ('0' <= c && c <= '9') || ('a' <= c && c <= 'f') || ('A' <= c && c <= 'F')
}

/// Value of a hexadecimal digit.
pub open spec fn hex_value(c: char) -> nat {
    if '0' <= c && c <= '9' {
        ((c as u32) - 48) as nat
    } else if 'a' <= c && c <= 'f' {
        ((c as u32) - 87) as nat
    } else {
        ((c as u32) - 55) as nat
    }
}

/// The hexadecimal digits of `s`, in order, every other character left out.
pub open spec fn hex_digits(s: Seq<char>) -> Seq<char>
    decreases s.len(),
{
    if s.len() == 0 {
        Seq::empty()
    } else if is_hex_digit(s.last()) {
        hex_digits(s.drop_last()).push(s.last())
    } else {
        hex_digits(s.drop_last())
    }
}

/// The bytes that consecutive pairs of digits spell; a last unpaired digit is left out.
pub open spec fn hex_pairs(d: Seq<char>) -> Seq<u8> {
    Seq::new(d.len() / 2, |i: int| (hex_value(d[2 * i]) * 16 + hex_value(d[2 * i + 1])) as u8)
}

/// Why hex input does not give a message.
#[derive(Clone, Copy, Debug, PartialEq, Eq, Structural)]
pub enum HexInputError {
    /// An odd number of hex digits.
    IncompleteByte,
    /// No hex digits at all.
    NoBytes,
    /// The bytes do not hold a message.
    NotAMessage,
}

impl HexInputError {
    /// The text shown for the error.
    pub fn message(&self) -> (r: String)
        ensures
            r@ == (match self {
                HexInputError::IncompleteByte => "Incomplete byte (odd number of hex digits)"@,
                HexInputError::NoBytes => "No bytes to parse"@,
                HexInputError::NotAMessage => "Failed to parse CommunicationValue"@,
            }),
    {
        match self {
            HexInputError::IncompleteByte => "Incomplete byte (odd number of hex digits)".to_string(),
            HexInputError::NoBytes => "No bytes to parse".to_string(),
            HexInputError::NotAMessage => "Failed to parse CommunicationValue".to_string(),
        }
    }
}

/// Whether `c` is an ASCII hexadecimal digit.
pub fn hex_digit(c: char) -> (r: bool)
    ensures
        r == is_hex_digit(c),
{
    ('0' <= c && c <= '9') || ('a' <= c && c <= 'f') || ('A' <= c && c <= 'F')
}

/// The value of a hexadecimal digit.
pub fn hex_digit_value(c: char) -> (r: u8)
    requires
        is_hex_digit(c),
    ensures
        r as nat == hex_value(c),
        r < 16,
{
    if '0' <= c && c <= '9' {
        ((c as u32) - 48) as u8
    } else if 'a' <= c && c <= 'f' {
        ((c as u32) - 87) as u8
    } else {
        ((c as u32) - 55) as u8
    }
}

/// The hexadecimal digits of a text, in order.
pub fn hex_digits_of(input: &str) -> (r: Vec<char>)
    ensures
        r@ == hex_digits(input@),
        forall|i: int| 0 <= i < r@.len() ==> is_hex_digit(#[trigger] r@[i]),
{
    let cs = chars_of(input);
    let mut out: Vec<char> = Vec::new();
    let mut i: usize = 0;
    while i < cs.len()
        invariant
            i <= cs@.len(),
            cs@ == input@,
            out@ == hex_digits(cs@.take(i as int)),
            forall|j: int| 0 <= j < out@.len() ==> is_hex_digit(#[trigger] out@[j]),
        decreases cs@.len() - i,
    {
        proof {
            assert(cs@.take(i + 1).drop_last() =~= cs@.take(i as int));
        }
        if hex_digit(cs[i]) {
            out.push(cs[i]);
        }
        i += 1;
    }
    proof {
        assert(cs@.take(cs@.len() as int) =~= cs@);
    }
    out
}

/// The bytes that the pairs of hex digits in the text spell (a last unpaired digit is
/// left out; every character that is not a hex digit is skipped).
pub fn hex_input_bytes(input: &str) -> (r: Vec<u8>)
    ensures
        r@ == hex_pairs(hex_digits(input@)),
{
    let d = hex_digits_of(input);
    let mut out: Vec<u8> = Vec::new();
    let mut i: usize = 0;
    while i < d.len() / 2
        invariant
            i <= d@.len() / 2,
            d@ == hex_digits(input@),
            forall|j: int| 0 <= j < d@.len() ==> is_hex_digit(#[trigger] d@[j]),
            out@ =~= hex_pairs(d@).take(i as int),
        decreases d@.len() / 2 - i,
    {
        let hi = hex_digit_value(d[2 * i]);
        let lo = hex_digit_value(d[2 * i + 1]);
        out.push(hi * 16 + lo);
        i += 1;
    }
    proof {
        assert(hex_pairs(d@).take((d@.len() / 2) as int) =~= hex_pairs(d@));
    }
    out
}

/// The message that hex input spells: the hex digits of the text (everything else is
/// skipped) taken in pairs as bytes, read as a message frame.
pub fn parse_hex_input(input: &str) -> (r: Result<CommunicationValue, HexInputError>)
    ensures
        hex_digits(input@).len() % 2 == 1 ==> r == Err::<CommunicationValue, HexInputError>(
            HexInputError::IncompleteByte,
        ),
        hex_digits(input@).len() == 0 ==> r == Err::<CommunicationValue, HexInputError>(
            HexInputError::NoBytes,
        ),
        hex_digits(input@).len() % 2 == 0 && hex_digits(input@).len() > 0 ==> match read_message(
            hex_pairs(hex_digits(input@)),
        ) {
            Some(m) => r matches Ok(cv) && cv@ == m,
            None => r == Err::<CommunicationValue, HexInputError>(HexInputError::NotAMessage),
        },
        r matches Ok(cv) ==> cv.booleans_spelled(),
{
    let d = hex_digits_of(input);
    if d.len() % 2 != 0 {
        return Err(HexInputError::IncompleteByte);
    }
    let bytes = hex_input_bytes(input);
    if bytes.len() == 0 {
        return Err(HexInputError::NoBytes);
    }
    match CommunicationValue::from_bytes(bytes.as_slice()) {
        Some(cv) => Ok(cv),
        None => Err(HexInputError::NotAMessage),
    }
}

/// What a byte of a frame is, by its position, in the layout the byte views colour:
/// type, flags, then id (4 bytes), sender (6), receiver (6) when present, a 4-byte data
/// length, then data.  `Unknown` where nothing is known of the layout.
#[derive(Clone, Copy, Debug, PartialEq, Eq, Structural)]
pub enum ByteRole {
    Type,
    Flags,
    Id,
    Sender,
    Receiver,
    DataLength,
    Data,
    Unknown,
}

/// The role of the byte at `idx` in that layout.
pub open spec fn role_at(idx: nat, has_id: bool, has_sender: bool, has_receiver: bool) -> ByteRole {
    let id_end = 2 + (if has_id { 4nat } else { 0nat });
    let sender_end = id_end + (if has_sender { 6nat } else { 0nat });
    let receiver_end = sender_end + (if has_receiver { 6nat } else { 0nat });
    if idx == 0 {
        ByteRole::Type
    } else if idx == 1 {
        ByteRole::Flags
    } else if idx < id_end {
        ByteRole::Id
    } else if idx < sender_end {
        ByteRole::Sender
    } else if idx < receiver_end {
        ByteRole::Receiver
    } else if idx < receiver_end + 4 {
        ByteRole::DataLength
    } else {
        ByteRole::Data
    }
}

/// The role of the byte at `idx`, given which optional fields are present.
pub fn byte_role(idx: usize, has_id: bool, has_sender: bool, has_receiver: bool) -> (r: ByteRole)
    ensures
        r == role_at(idx as nat, has_id, has_sender, has_receiver),
{
    if idx == 0 {
        return ByteRole::Type;
    }
    if idx == 1 {
        return ByteRole::Flags;
    }
    let mut pos: usize = 2;
    if has_id {
        if idx >= pos && idx < pos + 4 {
            return ByteRole::Id;
        }
        pos += 4;
    }
    if has_sender && idx >= pos && idx < pos + 6 {
        return ByteRole::Sender;
    }
    pos += if has_sender {
        6
    } else {
        0
    };
    if has_receiver && idx >= pos && idx < pos + 6 {
        return ByteRole::Receiver;
    }
    pos += if has_receiver {
        6
    } else {
        0
    };
    if idx >= pos + 4 {
        ByteRole::Data
    } else {
        ByteRole::DataLength
    }
}

/// The role of a byte in the raw view of parsed input: type and flags first; the rest
/// by the fields of the parsed message, or `Unknown` when nothing was parsed.
pub fn parsed_byte_role(idx: usize, parsed: Option<&CommunicationValue>) -> (r: ByteRole)
    ensures
        idx == 0 ==> r == ByteRole::Type,
        idx == 1 ==> r == ByteRole::Flags,
        idx >= 2 ==> r == (match parsed {
            Some(cv) => role_at(idx as nat, cv@.id != 0, cv@.sender != 0, cv@.receiver != 0),
            None => ByteRole::Unknown,
        }),
{
    if idx == 0 {
        ByteRole::Type
    } else if idx == 1 {
        ByteRole::Flags
    } else {
        match parsed {
            Some(cv) => byte_role(idx, cv.get_id() != 0, cv.get_sender() != 0, cv.get_receiver() != 0),
            None => ByteRole::Unknown,
        }
    }
}

/// The role of a byte in the generated-output view, which reads the optional fields off
/// the second byte: bit 5 for the id, bit 7 for the sender, bit 6 for the receiver (0 when
/// there is no second byte).
pub fn flagged_byte_role(idx: usize, bytes: &[u8]) -> (r: ByteRole)
    ensures
        ({
            let flags: nat = if bytes@.len() > 1 {
                bytes@[1] as nat
            } else {
                0
            };
            r == role_at(
                idx as nat,
                (flags / 32) % 2 == 1,
                (flags / 128) % 2 == 1,
                (flags / 64) % 2 == 1,
            )
        }),
{
    let flags: u8 = if bytes.len() > 1 {
        bytes[1]
    } else {
        0
    };
    let has_id = (flags & 0b0010_0000) != 0;
    let has_sender = (flags & 0b1000_0000) != 0;
    let has_receiver = (flags & 0b0100_0000) != 0;
    proof {
        assert(has_id == ((flags / 32) % 2 == 1)) by (bit_vector)
            requires
                has_id == ((flags & 0b0010_0000) != 0),
        ;
        assert(has_sender == ((flags / 128) % 2 == 1)) by (bit_vector)
            requires
                has_sender == ((flags & 0b1000_0000) != 0),
        ;
        assert(has_receiver == ((flags / 64) % 2 == 1)) by (bit_vector)
            requires
                has_receiver == ((flags & 0b0100_0000) != 0),
        ;
    }
    byte_role(idx, has_id, has_sender, has_receiver)
}

/// A lowercase hexadecimal digit.
pub open spec fn hex_char(n: nat) -> char {
    if n < 10 {
        ((48 + n) as u8) as char
    } else {
        ((87 + n) as u8) as char
    }
}

/// The bytes as two lowercase hex digits each, separated by ", ", in square brackets.
pub open spec fn hex_list_text(b: Seq<u8>) -> Seq<char> {
    seq!['['] + hex_items(b) + seq![']']
}

/// The bytes as two lowercase hex digits each, separated by ", ".
pub open spec fn hex_items(b: Seq<u8>) -> Seq<char>
    decreases b.len(),
{
    if b.len() == 0 {
        Seq::empty()
    } else if b.len() == 1 {
        seq![hex_char((b[0] / 16) as nat), hex_char((b[0] % 16) as nat)]
    } else {
        hex_items(b.drop_last()) + seq![',', ' ', hex_char((b.last() / 16) as nat), hex_char(
            (b.last() % 16) as nat,
        )]
    }
}

/// One lowercase hex digit.
pub fn hex_digit_char(n: u8) -> (r: char)
    requires
        n < 16,
    ensures
        r == hex_char(n as nat),
{
    if n < 10 {
        (48 + n) as char
    } else {
        (87 + n) as char
    }
}

/// The bytes written as a bracketed list of two-digit lowercase hex numbers.
pub fn hex_list(bytes: &[u8]) -> (r: String)
    ensures
        r@ == hex_list_text(bytes@),
{
    let mut cs: Vec<char> = Vec::new();
    cs.push('[');
    let mut i: usize = 0;
    while i < bytes.len()
        invariant
            i <= bytes@.len(),
            cs@ == seq!['['] + hex_items(bytes@.take(i as int)),
        decreases bytes@.len() - i,
    {
        proof {
            assert(bytes@.take(i + 1).drop_last() =~= bytes@.take(i as int));
        }
        if i > 0 {
            cs.push(',');
            cs.push(' ');
        }
        cs.push(hex_digit_char(bytes[i] / 16));
        cs.push(hex_digit_char(bytes[i] % 16));
        proof {
            if i == 0 {
                assert(bytes@.take(1) =~= seq![bytes@[0]]);
                assert(cs@ =~= seq!['['] + hex_items(bytes@.take(1)));
            } else {
                assert(cs@ =~= seq!['['] + hex_items(bytes@.take(i + 1)));
            }
        }
        i += 1;
    }
    cs.push(']');
    proof {
        assert(bytes@.take(bytes@.len() as int) =~= bytes@);
        assert(cs@ =~= hex_list_text(bytes@));
    }
    string_from_chars(cs.as_slice())
}

/// A byte as two lowercase hex digits.
pub fn byte_hex(b: u8) -> (r: String)
    ensures
        r@ == seq![hex_char((b / 16) as nat), hex_char((b % 16) as nat)],
{
    let mut cs: Vec<char> = Vec::new();
    cs.push(hex_digit_char(b / 16));
    cs.push(hex_digit_char(b % 16));
    proof {
        assert(cs@ =~= seq![hex_char((b / 16) as nat), hex_char((b % 16) as nat)]);
    }
    string_from_chars(cs.as_slice())
}

/// How a byte shows in the text column of a byte view: printable ASCII characters and
/// the space as themselves, every other byte as '.'.
pub open spec fn shown_char(b: u8) -> char {
    if 0x20 <= b && b <= 0x7e {
        b as char
    } else {
        '.'
    }
}

/// How a byte shows in the text column of a byte view.
pub fn ascii_column_char(b: u8) -> (r: char)
    ensures
        r == shown_char(b),
{
    if 0x20 <= b && b <= 0x7e {
        b as char
    } else {
        '.'
    }
}

/// An uppercase hexadecimal digit.
pub open spec fn upper_hex_char(n: nat) -> char {
    if n < 10 {
        ((48 + n) as u8) as char
    } else {
        ((55 + n) as u8) as char
    }
}

/// The uppercase hexadecimal digits of `n`, without leading zeros ("0" for zero).
pub open spec fn upper_hex(n: nat) -> Seq<char>
    decreases n,
{
    if n < 16 {
        seq![upper_hex_char(n)]
    } else {
        upper_hex(n / 16).push(upper_hex_char(n % 16))
    }
}

/// `n` zero digits.
pub open spec fn zeros(n: nat) -> Seq<char>
    decreases n,
{
    if n == 0 {
        Seq::empty()
    } else {
        zeros((n - 1) as nat).push('0')
    }
}

/// The offset at the head of a byte-view row: uppercase hex, at least four digits.
pub open spec fn offset_text(n: nat) -> Seq<char> {
    let h = upper_hex(n);
    if h.len() < 4 {
        zeros((4 - h.len()) as nat) + h
    } else {
        h
    }
}

/// The uppercase hex digits of `n`.
pub fn upper_hex_digits(n: usize) -> (r: Vec<char>)
    ensures
        r@ == upper_hex(n as nat),
    decreases n,
{
    let d = (n % 16) as u8;
    let c = if d < 10 {
        (48 + d) as char
    } else {
        (55 + d) as char
    };
    if n < 16 {
        vec![c]
    } else {
        let mut out = upper_hex_digits(n / 16);
        out.push(c);
        out
    }
}

/// The offset of a byte-view row, in uppercase hex with at least four digits.
pub fn offset_label(offset: usize) -> (r: String)
    ensures
        r@ == offset_text(offset as nat),
{
    let h = upper_hex_digits(offset);
    let mut cs: Vec<char> = Vec::new();
    let pad: usize = if h.len() < 4 {
        4 - h.len()
    } else {
        0
    };
    let mut i: usize = 0;
    while i < pad
        invariant
            i <= pad,
            cs@ == zeros(i as nat),
        decreases pad - i,
    {
        cs.push('0');
        i += 1;
    }
    let mut j: usize = 0;
    while j < h.len()
        invariant
            j <= h@.len(),
            cs@ == zeros(pad as nat) + h@.take(j as int),
        decreases h@.len() - j,
    {
        cs.push(h[j]);
        j += 1;
        proof {
            assert(cs@ =~= zeros(pad as nat) + h@.take(j as int));
        }
    }
    proof {
        assert(h@.take(h@.len() as int) =~= h@);
        if h@.len() >= 4 {
            assert(zeros(0) =~= Seq::<char>::empty());
            assert(cs@ =~= h@);
        }
    }
    string_from_chars(cs.as_slice())
}

} // verus!
