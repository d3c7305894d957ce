use vstd::prelude::*;
use vstd::slice::slice_subrange;

use crate::codec::{
    append_bytes, container_bytes, container_items_bytes, count16, entries_fit,
    lemma_container_items_len, lemma_container_value_roundtrip, payload_bytes, read_value,
};
use crate::communication_types::CommunicationType;
use crate::data_map::{
    keys_ascending, lemma_ascending_len, lemma_map_of_ascending, lookup, map_find, map_insert,
    map_of_entries, map_set,
};
use crate::data_types::DataTypes;
use crate::data_value::{
    containers_equal, duplicate_entries, entries_spelled, entry_models,
    lemma_entries_spelled_index, markers_spelled, lemma_entry_models_index, model, DataValue,
    Value,
};
use crate::util::rand_u32;
use crate::wire::{
    be_bytes, be_value, lemma_be_bytes_len, lemma_be_roundtrip, lemma_be_value_bound,
    lemma_pow256_facts, push_be, read_be,
};

verus! {

/// What a message means: its fields, and its data as a map held in key order.
pub struct Message {
    pub id: u32,
    pub comm_type: CommunicationType,
    pub sender: u64,
    pub receiver: u64,
    pub data: Seq<(DataTypes, Value)>,
}

/// A message: a type, an optional id, sender and receiver (0 meaning absent), and a
/// data container whose entries are kept in key order, one per key.
#[derive(Debug)]
pub struct CommunicationValue {
    id: u32,
    comm_type: CommunicationType,
    sender: u64,
    receiver: u64,
    data: Vec<(DataTypes, DataValue)>,
}

impl View for CommunicationValue {
    type V = Message;

    closed spec fn view(&self) -> Message {
        Message {
            id: self.id,
            comm_type: self.comm_type,
            sender: self.sender,
            receiver: self.receiver,
            data: entry_models(self.data@),
        }
    }
}

/// The flags byte: bit 0 when there is a sender, bit 1 when there is a receiver, bit 2
/// when there is an id.
pub open spec fn flags_of(m: Message) -> u8 {
    ((if m.sender != 0 { 1int } else { 0int }) + (if m.receiver != 0 { 2int } else { 0int }) + (
    if m.id != 0 { 4int } else { 0int })) as u8
}

/// The bytes after the length field: type, flags, then the id (4 bytes), sender and
/// receiver (6 bytes each: their lowest 48 bits) for those that are not 0, then the data
/// container.
pub open spec fn message_body(m: Message) -> Seq<u8> {
    seq![m.comm_type.code(), flags_of(m)] + (if m.id != 0 {
        be_bytes(m.id as nat, 4)
    } else {
        Seq::empty()
    }) + (if m.sender != 0 {
        be_bytes(m.sender as nat, 6)
    } else {
        Seq::empty()
    }) + (if m.receiver != 0 {
        be_bytes(m.receiver as nat, 6)
    } else {
        Seq::empty()
    }) + container_bytes(m.data)
}

/// A message on the wire: the body length in four big-endian bytes (its lowest 32 bits),
/// then the body.
pub open spec fn message_bytes(m: Message) -> Seq<u8> {
    be_bytes(message_body(m).len(), 4) + message_body(m)
}

/// A field of `k` bytes at position `p` when `present`, with the position after it;
/// 0 and `p` itself when absent.
pub open spec fn read_field(b: Seq<u8>, p: int, present: bool, k: int) -> Option<(nat, int)> {
    if !present {
        Some((0, p))
    } else if p + k > b.len() {
        None
    } else {
        Some((be_value(b.subrange(p, p + k)), p + k))
    }
}

/// The message that the bytes hold: the length field must not promise more bytes than
/// there are; type, flags and present fields are read in order; the data between them and
/// the end of the frame must decode as a container, whose entries are then taken as a map.
pub open spec fn read_message(b: Seq<u8>) -> Option<Message> {
    if b.len() < 4 {
        None
    } else {
        let end: int = 4 + be_value(b.subrange(0, 4)) as int;
        if b.len() < end || b.len() < 6 {
            None
        } else {
            let flags = b[5];
            match read_field(b, 6, (flags / 4) % 2 == 1, 4) {
                Some((id, p1)) => match read_field(b, p1, flags % 2 == 1, 6) {
                    Some((sender, p2)) => match read_field(b, p2, (flags / 2) % 2 == 1, 6) {
                        Some((receiver, p3)) => if p3 > end {
                            None
                        } else {
                            match read_value(b.subrange(p3, end)) {
                                Some(Value::Container(es)) => Some(
                                    Message {
                                        id: id as u32,
                                        comm_type: CommunicationType::of_code(b[4]),
                                        sender: sender as u64,
                                        receiver: receiver as u64,
                                        data: map_of_entries(es),
                                    },
                                ),
                                _ => None,
                            }
                        },
                        None => None,
                    },
                    None => None,
                },
                None => None,
            }
        }
    }
}

impl CommunicationValue {
    #[verifier::type_invariant]
    spec fn data_in_key_order(self) -> bool {
        keys_ascending(entry_models(self.data@))
    }

    /// Every boolean in the message's data is spelled `BoolTrue` or `BoolFalse`, as
    /// decoding gives them.
    pub closed spec fn booleans_spelled(self) -> bool {
        entries_spelled(self.data@)
    }

    /// A message of the given type with a random id, no sender, no receiver and no data;
    /// `None` when the operating system's random source fails.
    pub fn new(comm_type: CommunicationType) -> (r: Option<Self>)
        ensures
            r matches Some(cv) ==> cv@.comm_type == comm_type && cv@.sender == 0
                && cv@.receiver == 0 && cv@.data == Seq::<(DataTypes, Value)>::empty(),
    {
        match rand_u32() {
            Some(id) => Some(CommunicationValue::new_with_id(comm_type, id)),
            None => None,
        }
    }

    /// A message of the given type with the given id (0 meaning none), no sender, no
    /// receiver and no data.
    pub fn new_with_id(comm_type: CommunicationType, id: u32) -> (r: Self)
        ensures
            r@ == (Message {
                id,
                comm_type,
                sender: 0,
                receiver: 0,
                data: Seq::<(DataTypes, Value)>::empty(),
            }),
    {
        let data: Vec<(DataTypes, DataValue)> = Vec::new();
        proof {
            assert(entry_models(data@) =~= Seq::<(DataTypes, Value)>::empty());
        }
        Self { id, comm_type, sender: 0, receiver: 0, data }
    }

    /// The message with the given id (0 meaning none).
    pub fn with_id(self, p0: u32) -> (r: Self)
        ensures
            r@ == (Message { id: p0, ..self@ }),
    {
        proof {
            use_type_invariant(&self);
        }
        let mut s = self;
        s.id = p0;
        s
    }

    /// The message id (0 when there is none).
    pub fn get_id(&self) -> (r: u32)
        ensures
            r == self@.id,
    {
        self.id
    }

    /// The message with the given sender (0 meaning none).
    pub fn with_sender(self, sender: u64) -> (r: Self)
        ensures
            r@ == (Message { sender, ..self@ }),
    {
        proof {
            use_type_invariant(&self);
        }
        let mut s = self;
        s.sender = sender;
        s
    }

    /// The sender (0 when there is none).
    pub fn get_sender(&self) -> (r: u64)
        ensures
            r == self@.sender,
    {
        self.sender
    }

    /// The message with the given receiver (0 meaning none).
    pub fn with_receiver(self, receiver: u64) -> (r: Self)
        ensures
            r@ == (Message { receiver, ..self@ }),
    {
        proof {
            use_type_invariant(&self);
        }
        let mut s = self;
        s.receiver = receiver;
        s
    }

    /// The receiver (0 when there is none).
    pub fn get_receiver(&self) -> (r: u64)
        ensures
            r == self@.receiver,
    {
        self.receiver
    }

    /// The message type.
    pub fn get_type(&self) -> (r: CommunicationType)
        ensures
            r == self@.comm_type,
    {
        self.comm_type
    }

    /// Whether the message has the given type.
    pub fn is_type(&self, p0: CommunicationType) -> (r: bool)
        ensures
            r == (self@.comm_type == p0),
    {
        self.comm_type == p0
    }

    /// The message with `data` set to `value` (replacing an earlier value for that key).
    pub fn add_data(self, data: DataTypes, value: DataValue) -> (r: Self)
        ensures
            r@ == (Message { data: map_insert(self@.data, data, value@), ..self@ }),
    {
        proof {
            use_type_invariant(&self);
        }
        let mut s = self;
        let mut d = Vec::new();
        std::mem::swap(&mut d, &mut s.data);
        map_set(&mut d, data, value);
        s.data = d;
        s
    }

    /// The value held under `data_type`, or `Null` when there is none.
    pub fn get_data(&self, data_type: DataTypes) -> (r: &DataValue)
        ensures
            r@ == (match lookup(self@.data, data_type) {
                Some(v) => v,
                None => Value::Null,
            }),
            self.booleans_spelled() ==> markers_spelled(*r),
    {
        proof {
            lemma_entries_spelled_index(self.data@);
        }
        match map_find(&self.data, data_type) {
            Some(i) => &self.data[i].1,
            None => &DataValue::Null,
        }
    }

    /// The data entries, in key order.
    pub fn get_data_container(&self) -> (r: &Vec<(DataTypes, DataValue)>)
        ensures
            entry_models(r@) == self@.data,
            keys_ascending(entry_models(r@)),
            entries_spelled(r@) == self.booleans_spelled(),
    {
        proof {
            use_type_invariant(self);
        }
        &self.data
    }
}

impl CommunicationValue {
    /// The frame: body length (4 bytes, big-endian), type, flags, the id, sender and
    /// receiver that are not 0, then the data container.
    pub fn to_bytes(&self) -> (r: Vec<u8>)
        ensures
            r@ == message_bytes(self@),
    {
        let has_sender = self.sender != 0;
        let has_receiver = self.receiver != 0;
        let has_id = self.id != 0;
        let flags: u8 = (if has_sender {
            1u8
        } else {
            0u8
        }) + (if has_receiver {
            2u8
        } else {
            0u8
        }) + (if has_id {
            4u8
        } else {
            0u8
        });
        let mut payload: Vec<u8> = Vec::new();
        payload.push(self.comm_type.as_number());
        payload.push(flags);
        let ghost p0 = payload@;
        if has_id {
            push_be(&mut payload, self.id as u64, 4);
        }
        let ghost p1 = payload@;
        if has_sender {
            push_be(&mut payload, self.sender, 6);
        }
        let ghost p2 = payload@;
        if has_receiver {
            push_be(&mut payload, self.receiver, 6);
        }
        let ghost p3 = payload@;
        let container_value = DataValue::container_from_map(&self.data);
        let container = container_value.to_bytes();
        append_bytes(&mut payload, container.as_slice());
        proof {
            assert(p0 =~= seq![self@.comm_type.code(), flags_of(self@)]);
            if !has_id {
                assert(p1 =~= p0 + Seq::<u8>::empty());
            }
            if !has_sender {
                assert(p2 =~= p1 + Seq::<u8>::empty());
            }
            if !has_receiver {
                assert(p3 =~= p2 + Seq::<u8>::empty());
            }
            assert(payload@ =~= message_body(self@));
        }
        let mut frame: Vec<u8> = Vec::new();
        push_be(&mut frame, payload.len() as u64, 4);
        append_bytes(&mut frame, payload.as_slice());
        proof {
            assert(frame@ =~= message_bytes(self@));
        }
        frame
    }

    /// The message that a frame holds, when it holds one.
    pub fn from_bytes(bytes: &[u8]) -> (r: Option<Self>)
        ensures
            r is Some <==> read_message(bytes@) is Some,
            r matches Some(cv) ==> read_message(bytes@) == Some(cv@),
            r matches Some(cv) ==> cv.booleans_spelled(),
    {
        let n = bytes.len();
        if n < 4 {
            return None;
        }
        let total = read_be(bytes, 0, 4);
        proof {
            lemma_be_value_bound(bytes@.subrange(0, 4));
            lemma_pow256_facts(4);
        }
        if ((n - 4) as u64) < total {
            return None;
        }
        let end: usize = 4 + total as usize;
        if n < 6 {
            return None;
        }
        let comm_type = CommunicationType::from_number(bytes[4]);
        let flags = bytes[5];
        let has_sender = flags & 1 != 0;
        let has_receiver = flags & 2 != 0;
        let has_id = flags & 4 != 0;
        proof {
            assert(has_sender == (flags % 2 == 1)) by (bit_vector)
                requires
                    has_sender == (flags & 1 != 0),
            ;
            assert(has_receiver == ((flags / 2) % 2 == 1)) by (bit_vector)
                requires
                    has_receiver == (flags & 2 != 0),
            ;
            assert(has_id == ((flags / 4) % 2 == 1)) by (bit_vector)
                requires
                    has_id == (flags & 4 != 0),
            ;
        }
        let mut pos: usize = 6;
        let mut id: u32 = 0;
        if has_id {
            if n - pos < 4 {
                return None;
            }
            let raw = read_be(bytes, pos, 4);
            proof {
                lemma_be_value_bound(bytes@.subrange(pos as int, pos + 4));
            }
            id = raw as u32;
            pos = pos + 4;
        }
        let ghost after_id = pos;
        let mut sender: u64 = 0;
        if has_sender {
            if n - pos < 6 {
                return None;
            }
            sender = read_be(bytes, pos, 6);
            pos = pos + 6;
        }
        let ghost after_sender = pos;
        let mut receiver: u64 = 0;
        if has_receiver {
            if n - pos < 6 {
                return None;
            }
            receiver = read_be(bytes, pos, 6);
            pos = pos + 6;
        }
        if pos > end {
            return None;
        }
        let data_bytes = slice_subrange(bytes, pos, end);
        let data_value = match DataValue::from_bytes(data_bytes) {
            Some(v) => v,
            None => {
                return None;
            },
        };
        let data = match data_value.as_map() {
            Some(m) => m,
            None => {
                return None;
            },
        };
        Some(Self { id, comm_type, sender, receiver, data })
    }
}

proof fn lemma_flags(m: Message)
    ensures
        ((flags_of(m) / 4) % 2 == 1) == (m.id != 0),
        (flags_of(m) % 2 == 1) == (m.sender != 0),
        ((flags_of(m) / 2) % 2 == 1) == (m.receiver != 0),
{
}

proof fn lemma_body_len(m: Message)
    requires
        keys_ascending(m.data),
        entries_fit(m.data),
    ensures
        message_body(m).len() < 0x1_0000_0000,
        container_items_bytes(m.data) is Some,
{
    lemma_ascending_len(m.data);
    lemma_container_value_roundtrip(m.data);
    lemma_container_items_len(m.data);
    lemma_be_bytes_len(count16(m.data.len()), 2);
    lemma_be_bytes_len(m.id as nat, 4);
    lemma_be_bytes_len(m.sender as nat, 6);
    lemma_be_bytes_len(m.receiver as nat, 6);
    assert(container_bytes(m.data).len() == 2 + container_items_bytes(m.data)->0.len());
}

impl Clone for CommunicationValue {
    fn clone(&self) -> (r: Self)
        ensures
            r@ == self@,
    {
        proof {
            use_type_invariant(self);
        }
        CommunicationValue {
            id: self.id,
            comm_type: self.comm_type,
            sender: self.sender,
            receiver: self.receiver,
            data: duplicate_entries(&self.data),
        }
    }
}

impl PartialEq for CommunicationValue {
    fn eq(&self, other: &Self) -> (r: bool) {
        self.id == other.id && self.comm_type == other.comm_type && self.sender == other.sender
            && self.receiver == other.receiver && containers_equal(&self.data, &other.data)
    }
}

impl vstd::std_specs::cmp::PartialEqSpecImpl for CommunicationValue {
    open spec fn obeys_eq_spec() -> bool {
        true
    }

    open spec fn eq_spec(&self, other: &Self) -> bool {
        self@ == other@
    }
}

impl Eq for CommunicationValue {

}

/// A message whose sender and receiver fit in 48 bits and whose data values fit the
/// format is read back by `from_bytes`, from the bytes `to_bytes` writes, as the same
/// message.
#[verifier::spinoff_prover]
#[verifier::rlimit(50)]
pub proof fn lemma_message_roundtrip(m: Message)
    requires
        m.sender < 0x1_0000_0000_0000,
        m.receiver < 0x1_0000_0000_0000,
        keys_ascending(m.data),
        entries_fit(m.data),
    ensures
        read_message(message_bytes(m)) == Some(m),
{
    lemma_body_len(m);
    lemma_flags(m);
    lemma_ascending_len(m.data);
    lemma_container_value_roundtrip(m.data);
    lemma_map_of_ascending(m.data);
    lemma_pow256_facts(4);
    let c = container_bytes(m.data);
    let a = seq![m.comm_type.code(), flags_of(m)];
    let i = if m.id != 0 {
        be_bytes(m.id as nat, 4)
    } else {
        Seq::empty()
    };
    let s = if m.sender != 0 {
        be_bytes(m.sender as nat, 6)
    } else {
        Seq::empty()
    };
    let r = if m.receiver != 0 {
        be_bytes(m.receiver as nat, 6)
    } else {
        Seq::empty()
    };
    lemma_be_bytes_len(m.id as nat, 4);
    lemma_be_bytes_len(m.sender as nat, 6);
    lemma_be_bytes_len(m.receiver as nat, 6);
    let body = message_body(m);
    assert(body == a + i + s + r + c);
    let h = be_bytes(body.len(), 4);
    lemma_be_roundtrip(body.len(), 4);
    let b = message_bytes(m);
    assert(b =~= h + a + i + s + r + c);
    assert(b.subrange(0, 4) =~= h);
    let end: int = 4 + body.len() as int;
    assert(b[4] == m.comm_type.code());
    assert(b[5] == flags_of(m));
    assert(crate::communication_types::CommunicationType::of_code(m.comm_type.code())
        == m.comm_type) by {
        crate::communication_types::lemma_communication_type_code_roundtrip(m.comm_type, 0);
    }
    let q1: int = 6 + i.len() as int;
    let q2: int = q1 + s.len() as int;
    let q3: int = q2 + r.len() as int;
    if m.id != 0 {
        assert(b.subrange(6, 10) =~= i);
        lemma_be_roundtrip(m.id as nat, 4);
    }
    if m.sender != 0 {
        assert(b.subrange(q1, q1 + 6) =~= s);
        lemma_pow256_facts(6);
        lemma_be_roundtrip(m.sender as nat, 6);
    }
    if m.receiver != 0 {
        assert(b.subrange(q2, q2 + 6) =~= r);
        lemma_pow256_facts(6);
        lemma_be_roundtrip(m.receiver as nat, 6);
    }
    assert(b.subrange(q3, end) =~= c);
    assert(payload_bytes(Value::Container(m.data)) == c);
}

} // verus!
