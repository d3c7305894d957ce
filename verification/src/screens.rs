use vstd::prelude::*;

use crate::communication_types::CommunicationType;
use crate::communication_value::{message_bytes, CommunicationValue, Message};
use crate::data_map::map_of_entries;
use crate::data_types::DataTypes;
use crate::data_value::{entry_models, lemma_entry_models_push, DataValue, Value};
use crate::communication_value::read_message;
use crate::inspect::{
    build_message, hex_digit, hex_digits, hex_pairs, is_hex_digit, parse_hex_input,
    parse_value_for_key, pending_entry, value_from_text, HexInputError,
};
use crate::text::{string_from_chars, unsigned_text};

verus! {

/// A key press, as the two screens tell keys apart.
#[derive(Clone, Copy, Debug, PartialEq, Eq, Structural)]
pub enum Key {
    Char(char),
    Enter,
    Esc,
    Up,
    Down,
    Tab,
    BackTab,
    Backspace,
    Other,
}

/// The note the message builder shows after a key press.
#[derive(Clone, Copy, Debug, PartialEq, Eq, Structural)]
pub enum Status {
    EntryAdded,
    EntryDeleted,
    InvalidValue,
    ValueMissing,
    KeyMissing,
}

impl Status {
    /// The note as shown.
    pub open spec fn text_spec(self) -> Seq<char> {
        match self {
            Status::EntryAdded => "Entry added!"@,
            Status::EntryDeleted => "Last entry deleted"@,
            Status::InvalidValue => "Invalid value for this DataKind"@,
            Status::ValueMissing => "Type a value first"@,
            Status::KeyMissing => "Select a key first (press Enter)"@,
        }
    }

    /// The note as shown.
    pub fn text(&self) -> (r: String)
        ensures
            r@ == self.text_spec(),
    {
        match self {
            Status::EntryAdded => "Entry added!".to_string(),
            Status::EntryDeleted => "Last entry deleted".to_string(),
            Status::InvalidValue => "Invalid value for this DataKind".to_string(),
            Status::ValueMissing => "Type a value first".to_string(),
            Status::KeyMissing => "Select a key first (press Enter)".to_string(),
        }
    }
}

/// What the message builder shows and edits: the fields of the message, the entries, the
/// entry being typed, the selected field (0 type, 1 sender, 2 receiver, 3 id, 4 data,
/// 5 the generate button), the open list and its selection, and the note.
pub struct Form {
    pub comm_type: CommunicationType,
    pub sender: Seq<char>,
    pub receiver: Seq<char>,
    pub id: Seq<char>,
    pub entries: Seq<(DataTypes, Value)>,
    pub current_key: Option<DataTypes>,
    pub current_value: Seq<char>,
    pub selected_field: nat,
    pub edit_mode: bool,
    pub comm_list: bool,
    pub data_list: bool,
    pub comm_selected: Option<nat>,
    pub data_selected: Option<nat>,
    pub show_help: bool,
    pub status: Option<Status>,
}

/// What a key press leads to besides the new form: nothing more, building the message
/// anew, or leaving the screen.
#[derive(Clone, Copy, Debug, PartialEq, Eq, Structural)]
pub enum Effect {
    Stay,
    Regenerate,
    Quit,
}

/// A text with its last character taken off, if it has one.
pub open spec fn backspaced(s: Seq<char>) -> Seq<char> {
    if s.len() == 0 {
        s
    } else {
        s.drop_last()
    }
}

/// A key while the list of message types is open: Esc closes it, Enter takes the selected
/// type and closes it, Up and Down move the selection within the list.
pub open spec fn comm_list_key(s: Form, key: Key) -> (Form, Effect) {
    let idx: nat = match s.comm_selected {
        Some(i) => i,
        None => 0,
    };
    match key {
        Key::Esc => (Form { comm_list: false, ..s }, Effect::Stay),
        Key::Enter => (
            Form {
                comm_type: match s.comm_selected {
                    Some(i) => CommunicationType::of_code(i as u8),
                    None => s.comm_type,
                },
                comm_list: false,
                ..s
            },
            Effect::Regenerate,
        ),
        Key::Up => if idx > 0 {
            (Form { comm_selected: Some((idx - 1) as nat), ..s }, Effect::Stay)
        } else {
            (s, Effect::Stay)
        },
        Key::Down => if idx < 89 {
            (Form { comm_selected: Some(idx + 1), ..s }, Effect::Stay)
        } else {
            (s, Effect::Stay)
        },
        _ => (s, Effect::Stay),
    }
}

/// A key while the list of keys is open: Esc closes it, Enter (with a selection) takes the
/// selected key, clears the value and starts typing it, Up and Down move the selection.
pub open spec fn data_list_key(s: Form, key: Key) -> (Form, Effect) {
    let idx: nat = match s.data_selected {
        Some(i) => i,
        None => 0,
    };
    match key {
        Key::Esc => (Form { data_list: false, ..s }, Effect::Stay),
        Key::Enter => match s.data_selected {
            Some(i) => (
                Form {
                    current_key: Some(DataTypes::of_code(i as u8)),
                    data_list: false,
                    current_value: Seq::empty(),
                    edit_mode: true,
                    ..s
                },
                Effect::Stay,
            ),
            None => (s, Effect::Stay),
        },
        Key::Up => if idx > 0 {
            (Form { data_selected: Some((idx - 1) as nat), ..s }, Effect::Stay)
        } else {
            (s, Effect::Stay)
        },
        Key::Down => if idx < 87 {
            (Form { data_selected: Some(idx + 1), ..s }, Effect::Stay)
        } else {
            (s, Effect::Stay)
        },
        _ => (s, Effect::Stay),
    }
}

/// A key while a field is being typed: Esc stops typing, Enter stops and builds the
/// message, a character goes to the end of the selected text (sender, receiver, id or the
/// value being typed), Backspace takes the last one off.
pub open spec fn edit_key(s: Form, key: Key) -> (Form, Effect) {
    match key {
        Key::Esc => (Form { edit_mode: false, ..s }, Effect::Stay),
        Key::Enter => (Form { edit_mode: false, ..s }, Effect::Regenerate),
        Key::Char(c) => (
            if s.selected_field == 1 {
                Form { sender: s.sender.push(c), ..s }
            } else if s.selected_field == 2 {
                Form { receiver: s.receiver.push(c), ..s }
            } else if s.selected_field == 3 {
                Form { id: s.id.push(c), ..s }
            } else if s.selected_field == 4 {
                Form { current_value: s.current_value.push(c), ..s }
            } else {
                s
            },
            Effect::Stay,
        ),
        Key::Backspace => (
            if s.selected_field == 1 {
                Form { sender: backspaced(s.sender), ..s }
            } else if s.selected_field == 2 {
                Form { receiver: backspaced(s.receiver), ..s }
            } else if s.selected_field == 3 {
                Form { id: backspaced(s.id), ..s }
            } else if s.selected_field == 4 {
                Form { current_value: backspaced(s.current_value), ..s }
            } else {
                s
            },
            Effect::Stay,
        ),
        _ => (s, Effect::Stay),
    }
}

/// Adding the entry being typed: it needs a key, a value and a value of the key's kind;
/// an added entry clears both and the message is built anew. Each outcome leaves its note.
pub open spec fn add_entry(s: Form) -> (Form, Effect) {
    match s.current_key {
        Some(k) => if s.current_value.len() > 0 {
            match value_from_text(k.kind_of(), s.current_value) {
                Some(v) => (
                    Form {
                        entries: s.entries.push((k, v)),
                        current_key: None,
                        current_value: Seq::empty(),
                        status: Some(Status::EntryAdded),
                        ..s
                    },
                    Effect::Regenerate,
                ),
                None => (Form { status: Some(Status::InvalidValue), ..s }, Effect::Stay),
            }
        } else {
            (Form { status: Some(Status::ValueMissing), ..s }, Effect::Stay)
        },
        None => (Form { status: Some(Status::KeyMissing), ..s }, Effect::Stay),
    }
}

/// A key on the form itself: q or Esc (or Ctrl-C) leave; h shows or hides the help; Tab
/// and Down select the next field, BackTab and Up the previous one, round the six; Enter
/// opens the type list on the type field, on the data field starts typing the value when
/// a key is chosen and else opens the key list, on the button builds the message, and
/// starts typing on the other fields; on the data field d deletes the last entry and a
/// adds the entry being typed.
pub open spec fn form_key(s: Form, key: Key, ctrl: bool) -> (Form, Effect) {
    match key {
        Key::Char(c) => if c == 'q' {
            (s, Effect::Quit)
        } else if c == 'h' {
            (Form { show_help: !s.show_help, ..s }, Effect::Stay)
        } else if c == 'c' && ctrl {
            (s, Effect::Quit)
        } else if c == 'd' {
            if s.selected_field == 4 && s.entries.len() > 0 {
                (
                    Form {
                        entries: s.entries.drop_last(),
                        status: Some(Status::EntryDeleted),
                        ..s
                    },
                    Effect::Regenerate,
                )
            } else {
                (s, Effect::Stay)
            }
        } else if c == 'a' {
            if s.selected_field == 4 {
                add_entry(s)
            } else {
                (s, Effect::Stay)
            }
        } else {
            (s, Effect::Stay)
        },
        Key::Esc => (s, Effect::Quit),
        Key::Tab | Key::Down => (
            Form { selected_field: (s.selected_field + 1) % 6, ..s },
            Effect::Stay,
        ),
        Key::BackTab | Key::Up => (
            Form {
                selected_field: if s.selected_field == 0 {
                    5
                } else {
                    (s.selected_field - 1) as nat
                },
                ..s
            },
            Effect::Stay,
        ),
        Key::Enter => if s.selected_field == 0 {
            (Form { comm_list: true, ..s }, Effect::Stay)
        } else if s.selected_field == 4 {
            if s.current_key is Some {
                (Form { edit_mode: true, ..s }, Effect::Stay)
            } else {
                (Form { data_list: true, ..s }, Effect::Stay)
            }
        } else if s.selected_field == 5 {
            (s, Effect::Regenerate)
        } else {
            (Form { edit_mode: true, ..s }, Effect::Stay)
        },
        _ => (s, Effect::Stay),
    }
}

/// The form after a key press, and what else the press leads to. The note is cleared
/// first; an open list, then typing, takes the key before the form does.
pub open spec fn after_key(s0: Form, key: Key, ctrl: bool) -> (Form, Effect) {
    let s = Form { status: None, ..s0 };
    if s.comm_list {
        comm_list_key(s, key)
    } else if s.data_list {
        data_list_key(s, key)
    } else if s.edit_mode {
        edit_key(s, key)
    } else {
        form_key(s, key, ctrl)
    }
}

/// The message the form describes: its type; the id typed when it is a `u32` (0 meaning
/// none), else `fallback_id`; sender and receiver when typed as `u64`s (else 0); the
/// entries, then the entry being typed, set in order as `add_data` sets them.
pub open spec fn form_message(s: Form, fallback_id: u32) -> Message {
    Message {
        id: match unsigned_text(s.id, u32::MAX as nat) {
            Some(n) => n as u32,
            None => fallback_id,
        },
        comm_type: s.comm_type,
        sender: match unsigned_text(s.sender, u64::MAX as nat) {
            Some(n) => n as u64,
            None => 0u64,
        },
        receiver: match unsigned_text(s.receiver, u64::MAX as nat) {
            Some(n) => n as u64,
            None => 0u64,
        },
        data: map_of_entries(s.entries + pending_entry(s.current_key, s.current_value)),
    }
}

/// The message builder: a form whose fields make up a message, and the bytes of the
/// message it last built.
pub struct CommToBinaryApp {
    comm_type: CommunicationType,
    sender: Vec<char>,
    receiver: Vec<char>,
    id: Vec<char>,
    data_entries: Vec<(DataTypes, DataValue)>,
    current_key: Option<DataTypes>,
    current_value: Vec<char>,
    selected_field: usize,
    edit_mode: bool,
    show_comm_type_list: bool,
    show_data_type_list: bool,
    comm_selected: Option<usize>,
    data_type_selected: Option<usize>,
    scroll_offset: usize,
    show_help: bool,
    generated_bytes: Option<Vec<u8>>,
    status_message: Option<Status>,
}

impl View for CommToBinaryApp {
    type V = Form;

    closed spec fn view(&self) -> Form {
        Form {
            comm_type: self.comm_type,
            sender: self.sender@,
            receiver: self.receiver@,
            id: self.id@,
            entries: entry_models(self.data_entries@),
            current_key: self.current_key,
            current_value: self.current_value@,
            selected_field: self.selected_field as nat,
            edit_mode: self.edit_mode,
            comm_list: self.show_comm_type_list,
            data_list: self.show_data_type_list,
            comm_selected: match self.comm_selected {
                Some(i) => Some(i as nat),
                None => None,
            },
            data_selected: match self.data_type_selected {
                Some(i) => Some(i as nat),
                None => None,
            },
            show_help: self.show_help,
            status: self.status_message,
        }
    }
}

impl CommToBinaryApp {
    #[verifier::type_invariant]
    spec fn in_range(self) -> bool {
        &&& self.selected_field < 6
        &&& self.scroll_offset == 0
        &&& (self.comm_selected matches Some(i) ==> i < 90)
        &&& (self.data_type_selected matches Some(i) ==> i < 88)
    }

    /// The bytes of the message the form last built, if it built one.
    pub closed spec fn generated(self) -> Option<Seq<u8>> {
        match self.generated_bytes {
            Some(b) => Some(b@),
            None => None,
        }
    }

    /// A form for a `ping` with sender, receiver and id "0", no entries, the type field
    /// selected, both lists at their first item, and nothing built yet.
    pub fn new() -> (r: Self)
        ensures
            r@ == (Form {
                comm_type: CommunicationType::ping,
                sender: seq!['0'],
                receiver: seq!['0'],
                id: seq!['0'],
                entries: Seq::empty(),
                current_key: None,
                current_value: Seq::empty(),
                selected_field: 0,
                edit_mode: false,
                comm_list: false,
                data_list: false,
                comm_selected: Some(0),
                data_selected: Some(0),
                show_help: false,
                status: None,
            }),
            r.generated() is None,
    {
        let r = CommToBinaryApp {
            comm_type: CommunicationType::ping,
            sender: vec!['0'],
            receiver: vec!['0'],
            id: vec!['0'],
            data_entries: Vec::new(),
            current_key: None,
            current_value: Vec::new(),
            selected_field: 0,
            edit_mode: false,
            show_comm_type_list: false,
            show_data_type_list: false,
            comm_selected: Some(0),
            data_type_selected: Some(0),
            scroll_offset: 0,
            show_help: false,
            generated_bytes: None,
            status_message: None,
        };
        proof {
            assert(r@.sender =~= seq!['0']);
            assert(r@.entries =~= Seq::<(DataTypes, Value)>::empty());
        }
        r
    }

    /// Builds the message the form describes and keeps its bytes; `fallback_id` is the id
    /// when the id field does not hold a `u32` (a fresh random id, as the caller draws it).
    pub fn generate_binary(&mut self, fallback_id: u32)
        ensures
            final(self)@ == old(self)@,
            final(self).generated() == Some(message_bytes(form_message(old(self)@, fallback_id))),
    {
        proof {
            use_type_invariant(&*self);
        }
        let id = string_from_chars(self.id.as_slice());
        let sender = string_from_chars(self.sender.as_slice());
        let receiver = string_from_chars(self.receiver.as_slice());
        let value = string_from_chars(self.current_value.as_slice());
        let cv = build_message(
            self.comm_type,
            fallback_id,
            id.as_str(),
            sender.as_str(),
            receiver.as_str(),
            &self.data_entries,
            self.current_key,
            value.as_str(),
        );
        let bytes = cv.to_bytes();
        proof {
            assert(cv@ == form_message(self@, fallback_id));
        }
        self.generated_bytes = Some(bytes);
    }

    fn handle_comm_list_input(&mut self, key: Key) -> (e: Effect)
        ensures
            (final(self)@, e) == comm_list_key(old(self)@, key),
            final(self).generated() == old(self).generated(),
    {
        proof {
            use_type_invariant(&*self);
        }
        let idx: usize = match self.comm_selected {
            Some(i) => i,
            None => 0,
        };
        match key {
            Key::Esc => {
                self.show_comm_type_list = false;
                Effect::Stay
            },
            Key::Enter => {
                match self.comm_selected {
                    Some(i) => {
                        self.comm_type = CommunicationType::from_number(i as u8);
                    },
                    None => {},
                }
                self.show_comm_type_list = false;
                Effect::Regenerate
            },
            Key::Up => {
                if idx > 0 {
                    self.comm_selected = Some(idx - 1);
                }
                Effect::Stay
            },
            Key::Down => {
                if idx < 89 {
                    self.comm_selected = Some(idx + 1);
                }
                Effect::Stay
            },
            _ => Effect::Stay,
        }
    }

    fn handle_data_type_list_input(&mut self, key: Key) -> (e: Effect)
        ensures
            (final(self)@, e) == data_list_key(old(self)@, key),
            final(self).generated() == old(self).generated(),
    {
        proof {
            use_type_invariant(&*self);
        }
        let idx: usize = match self.data_type_selected {
            Some(i) => i,
            None => 0,
        };
        match key {
            Key::Esc => {
                self.show_data_type_list = false;
            },
            Key::Enter => {
                match self.data_type_selected {
                    Some(i) => {
                        self.current_key = Some(DataTypes::from_number(i as u8));
                        self.show_data_type_list = false;
                        self.current_value = Vec::new();
                        self.edit_mode = true;
                    },
                    None => {},
                }
            },
            Key::Up => {
                if idx > 0 {
                    self.data_type_selected = Some(idx - 1);
                }
            },
            Key::Down => {
                if idx < 87 {
                    self.data_type_selected = Some(idx + 1);
                }
            },
            _ => {},
        }
        proof {
            assert(self@.current_value =~= old(self)@.current_value || self@.current_value
                =~= Seq::<char>::empty());
        }
        Effect::Stay
    }

    fn handle_edit_input(&mut self, key: Key) -> (e: Effect)
        ensures
            (final(self)@, e) == edit_key(old(self)@, key),
            final(self).generated() == old(self).generated(),
    {
        proof {
            use_type_invariant(&*self);
        }
        match key {
            Key::Esc => {
                self.edit_mode = false;
                Effect::Stay
            },
            Key::Enter => {
                self.edit_mode = false;
                Effect::Regenerate
            },
            Key::Char(c) => {
                if self.selected_field == 1 {
                    let mut v: Vec<char> = Vec::new();
                    std::mem::swap(&mut v, &mut self.sender);
                    v.push(c);
                    self.sender = v;
                } else if self.selected_field == 2 {
                    let mut v: Vec<char> = Vec::new();
                    std::mem::swap(&mut v, &mut self.receiver);
                    v.push(c);
                    self.receiver = v;
                } else if self.selected_field == 3 {
                    let mut v: Vec<char> = Vec::new();
                    std::mem::swap(&mut v, &mut self.id);
                    v.push(c);
                    self.id = v;
                } else if self.selected_field == 4 {
                    let mut v: Vec<char> = Vec::new();
                    std::mem::swap(&mut v, &mut self.current_value);
                    v.push(c);
                    self.current_value = v;
                }
                Effect::Stay
            },
            Key::Backspace => {
                if self.selected_field == 1 {
                    let mut v: Vec<char> = Vec::new();
                    std::mem::swap(&mut v, &mut self.sender);
                    v.pop();
                    self.sender = v;
                } else if self.selected_field == 2 {
                    let mut v: Vec<char> = Vec::new();
                    std::mem::swap(&mut v, &mut self.receiver);
                    v.pop();
                    self.receiver = v;
                } else if self.selected_field == 3 {
                    let mut v: Vec<char> = Vec::new();
                    std::mem::swap(&mut v, &mut self.id);
                    v.pop();
                    self.id = v;
                } else if self.selected_field == 4 {
                    let mut v: Vec<char> = Vec::new();
                    std::mem::swap(&mut v, &mut self.current_value);
                    v.pop();
                    self.current_value = v;
                }
                Effect::Stay
            },
            _ => Effect::Stay,
        }
    }

    fn add_current_entry(&mut self) -> (e: Effect)
        ensures
            (final(self)@, e) == add_entry(old(self)@),
            final(self).generated() == old(self).generated(),
    {
        proof {
            use_type_invariant(&*self);
        }
        match self.current_key {
            Some(key) => {
                if self.current_value.len() > 0 {
                    let text = string_from_chars(self.current_value.as_slice());
                    match parse_value_for_key(&key, text.as_str()) {
                        Some(value) => {
                            proof {
                                lemma_entry_models_push(self.data_entries@, (key, value));
                            }
                            let mut entries: Vec<(DataTypes, DataValue)> = Vec::new();
                            std::mem::swap(&mut entries, &mut self.data_entries);
                            entries.push((key, value));
                            self.data_entries = entries;
                            self.current_key = None;
                            self.current_value = Vec::new();
                            self.status_message = Some(Status::EntryAdded);
                            Effect::Regenerate
                        },
                        None => {
                            self.status_message = Some(Status::InvalidValue);
                            Effect::Stay
                        },
                    }
                } else {
                    self.status_message = Some(Status::ValueMissing);
                    Effect::Stay
                }
            },
            None => {
                self.status_message = Some(Status::KeyMissing);
                Effect::Stay
            },
        }
    }

    fn handle_form_input(&mut self, key: Key, ctrl: bool) -> (e: Effect)
        ensures
            (final(self)@, e) == form_key(old(self)@, key, ctrl),
            final(self).generated() == old(self).generated(),
    {
        proof {
            use_type_invariant(&*self);
        }
        match key {
            Key::Char(c) => {
                if c == 'q' {
                    Effect::Quit
                } else if c == 'h' {
                    self.show_help = !self.show_help;
                    Effect::Stay
                } else if c == 'c' && ctrl {
                    Effect::Quit
                } else if c == 'd' {
                    if self.selected_field == 4 && self.data_entries.len() > 0 {
                        let ghost before = self.data_entries@;
                        let mut entries: Vec<(DataTypes, DataValue)> = Vec::new();
                        std::mem::swap(&mut entries, &mut self.data_entries);
                        entries.pop();
                        self.data_entries = entries;
                        proof {
                            lemma_entry_models_push(self.data_entries@, before.last());
                            assert(before =~= self.data_entries@.push(before.last()));
                            assert(entry_models(self.data_entries@) =~= entry_models(
                                before,
                            ).drop_last());
                        }
                        self.status_message = Some(Status::EntryDeleted);
                        Effect::Regenerate
                    } else {
                        Effect::Stay
                    }
                } else if c == 'a' {
                    if self.selected_field == 4 {
                        self.add_current_entry()
                    } else {
                        Effect::Stay
                    }
                } else {
                    Effect::Stay
                }
            },
            Key::Esc => Effect::Quit,
            Key::Tab | Key::Down => {
                self.selected_field = (self.selected_field + 1) % 6;
                Effect::Stay
            },
            Key::BackTab | Key::Up => {
                if self.selected_field == 0 {
                    self.selected_field = 5;
                } else {
                    self.selected_field = self.selected_field - 1;
                }
                Effect::Stay
            },
            Key::Enter => {
                if self.selected_field == 0 {
                    self.show_comm_type_list = true;
                    Effect::Stay
                } else if self.selected_field == 4 {
                    if self.current_key.is_some() {
                        self.edit_mode = true;
                    } else {
                        self.show_data_type_list = true;
                    }
                    Effect::Stay
                } else if self.selected_field == 5 {
                    Effect::Regenerate
                } else {
                    self.edit_mode = true;
                    Effect::Stay
                }
            },
            _ => Effect::Stay,
        }
    }

    /// Takes one key press (`ctrl` when Control was held): the form becomes `after_key` of
    /// it, and the result is what else the press leads to. On `Regenerate` the caller builds
    /// the message anew with `generate_binary`; on `Quit` it leaves the screen.
    pub fn handle_key(&mut self, key: Key, ctrl: bool) -> (e: Effect)
        ensures
            (final(self)@, e) == after_key(old(self)@, key, ctrl),
            final(self).generated() == old(self).generated(),
    {
        proof {
            use_type_invariant(&*self);
        }
        self.status_message = None;
        if self.show_comm_type_list {
            self.handle_comm_list_input(key)
        } else if self.show_data_type_list {
            self.handle_data_type_list_input(key)
        } else if self.edit_mode {
            self.handle_edit_input(key)
        } else {
            self.handle_form_input(key, ctrl)
        }
    }

    /// The message type on the form.
    pub fn comm_type(&self) -> (r: CommunicationType)
        ensures
            r == self@.comm_type,
    {
        self.comm_type
    }

    /// The sender as typed.
    pub fn sender(&self) -> (r: &Vec<char>)
        ensures
            r@ == self@.sender,
    {
        &self.sender
    }

    /// The receiver as typed.
    pub fn receiver(&self) -> (r: &Vec<char>)
        ensures
            r@ == self@.receiver,
    {
        &self.receiver
    }

    /// The id as typed.
    pub fn id(&self) -> (r: &Vec<char>)
        ensures
            r@ == self@.id,
    {
        &self.id
    }

    /// The entries added so far, in order.
    pub fn data_entries(&self) -> (r: &Vec<(DataTypes, DataValue)>)
        ensures
            entry_models(r@) == self@.entries,
    {
        &self.data_entries
    }

    /// The key of the entry being typed, if one is chosen.
    pub fn current_key(&self) -> (r: Option<DataTypes>)
        ensures
            r == self@.current_key,
    {
        self.current_key
    }

    /// The value being typed.
    pub fn current_value(&self) -> (r: &Vec<char>)
        ensures
            r@ == self@.current_value,
    {
        &self.current_value
    }

    /// The selected field.
    pub fn selected_field(&self) -> (r: usize)
        ensures
            r == self@.selected_field,
            r < 6,
    {
        proof {
            use_type_invariant(self);
        }
        self.selected_field
    }

    /// Whether a field is being typed.
    pub fn edit_mode(&self) -> (r: bool)
        ensures
            r == self@.edit_mode,
    {
        self.edit_mode
    }

    /// Whether the list of message types is open.
    pub fn show_comm_type_list(&self) -> (r: bool)
        ensures
            r == self@.comm_list,
    {
        self.show_comm_type_list
    }

    /// Whether the list of keys is open.
    pub fn show_data_type_list(&self) -> (r: bool)
        ensures
            r == self@.data_list,
    {
        self.show_data_type_list
    }

    /// The selected item of the list of message types.
    pub fn comm_selected(&self) -> (r: Option<usize>)
        ensures
            r matches Some(i) ==> self@.comm_selected == Some(i as nat) && i < 90,
            r is None ==> self@.comm_selected is None,
    {
        proof {
            use_type_invariant(self);
        }
        self.comm_selected
    }

    /// The selected item of the list of keys.
    pub fn data_type_selected(&self) -> (r: Option<usize>)
        ensures
            r matches Some(i) ==> self@.data_selected == Some(i as nat) && i < 88,
            r is None ==> self@.data_selected is None,
    {
        proof {
            use_type_invariant(self);
        }
        self.data_type_selected
    }

    /// How far the output is scrolled: not at all, as no key of this screen moves it.
    pub fn scroll_offset(&self) -> (r: usize)
        ensures
            r == 0,
    {
        proof {
            use_type_invariant(self);
        }
        self.scroll_offset
    }

    /// Whether the help is shown.
    pub fn show_help(&self) -> (r: bool)
        ensures
            r == self@.show_help,
    {
        self.show_help
    }

    /// The bytes of the message last built.
    pub fn generated_bytes(&self) -> (r: Option<&Vec<u8>>)
        ensures
            r matches Some(b) ==> self.generated() == Some(b@),
            r is None ==> self.generated() is None,
    {
        match &self.generated_bytes {
            Some(b) => Some(b),
            None => None,
        }
    }

    /// The note shown after the last key press.
    pub fn status_message(&self) -> (r: Option<Status>)
        ensures
            r == self@.status,
    {
        self.status_message
    }
}

/// What hex input spells: `IncompleteByte` for an odd number of hex digits, `NoBytes`
/// for none, else the message its bytes hold or `NotAMessage`.
pub open spec fn hex_input_outcome(input: Seq<char>) -> Result<Message, HexInputError> {
    let d = hex_digits(input);
    if d.len() % 2 == 1 {
        Err(HexInputError::IncompleteByte)
    } else if d.len() == 0 {
        Err(HexInputError::NoBytes)
    } else {
        match read_message(hex_pairs(d)) {
            Some(m) => Ok(m),
            None => Err(HexInputError::NotAMessage),
        }
    }
}

/// What the message viewer shows: the input typed, the outcome of reading it (none before
/// the first edit), the view tab, how far the structure is scrolled, and the help.
pub struct Viewer {
    pub input: Seq<char>,
    pub outcome: Option<Result<Message, HexInputError>>,
    pub tab: nat,
    pub scroll: nat,
    pub show_help: bool,
}

/// The characters the viewer takes into its input: hex digits, commas, spaces and
/// square brackets.
pub open spec fn accepted_input_char(c: char) -> bool {
    is_hex_digit(c) || c == ',' || c == ' ' || c == '[' || c == ']'
}

/// The viewer after a key press, and whether to leave: q, Esc and Ctrl-C leave; h shows
/// or hides the help; an accepted character is typed and Backspace takes the last one
/// off, each followed by reading the input anew; Tab switches between the two views; Up
/// and Down scroll.
pub open spec fn viewer_key(s: Viewer, key: Key, ctrl: bool) -> (Viewer, bool) {
    match key {
        Key::Char(c) => if c == 'q' {
            (s, true)
        } else if c == 'h' {
            (Viewer { show_help: !s.show_help, ..s }, false)
        } else if c == 'c' && ctrl {
            (s, true)
        } else if accepted_input_char(c) {
            (
                Viewer {
                    input: s.input.push(c),
                    outcome: Some(hex_input_outcome(s.input.push(c))),
                    ..s
                },
                false,
            )
        } else {
            (s, false)
        },
        Key::Esc => (s, true),
        Key::Backspace => (
            Viewer {
                input: backspaced(s.input),
                outcome: Some(hex_input_outcome(backspaced(s.input))),
                ..s
            },
            false,
        ),
        Key::Tab => (Viewer { tab: (s.tab + 1) % 2, ..s }, false),
        Key::Up => if s.scroll > 0 {
            (Viewer { scroll: (s.scroll - 1) as nat, ..s }, false)
        } else {
            (s, false)
        },
        Key::Down => (Viewer { scroll: s.scroll + 1, ..s }, false),
        _ => (s, false),
    }
}

/// The message viewer: hex input, and the message or error it gives.
pub struct BinaryToCommApp {
    binary_input: Vec<char>,
    binary_error: Option<HexInputError>,
    parsed_value: Option<CommunicationValue>,
    selected_tab: usize,
    scroll_offset: usize,
    show_help: bool,
}

impl View for BinaryToCommApp {
    type V = Viewer;

    closed spec fn view(&self) -> Viewer {
        Viewer {
            input: self.binary_input@,
            outcome: match self.parsed_value {
                Some(cv) => Some(Ok(cv@)),
                None => match self.binary_error {
                    Some(e) => Some(Err(e)),
                    None => None,
                },
            },
            tab: self.selected_tab as nat,
            scroll: self.scroll_offset as nat,
            show_help: self.show_help,
        }
    }
}

impl BinaryToCommApp {
    #[verifier::type_invariant]
    spec fn consistent(self) -> bool {
        &&& self.selected_tab < 2
        &&& !(self.parsed_value is Some && self.binary_error is Some)
        &&& (self.parsed_value matches Some(cv) ==> cv.booleans_spelled())
    }

    /// An empty viewer: no input, nothing read, the first view, not scrolled.
    pub fn new() -> (r: Self)
        ensures
            r@ == (Viewer {
                input: Seq::empty(),
                outcome: None,
                tab: 0,
                scroll: 0,
                show_help: false,
            }),
    {
        BinaryToCommApp {
            binary_input: Vec::new(),
            binary_error: None,
            parsed_value: None,
            selected_tab: 0,
            scroll_offset: 0,
            show_help: false,
        }
    }

    /// Reads the input anew.
    fn try_parse(&mut self)
        ensures
            final(self)@ == (Viewer {
                outcome: Some(hex_input_outcome(old(self)@.input)),
                ..old(self)@
            }),
    {
        proof {
            use_type_invariant(&*self);
        }
        self.binary_error = None;
        self.parsed_value = None;
        let text = string_from_chars(self.binary_input.as_slice());
        match parse_hex_input(text.as_str()) {
            Ok(cv) => {
                self.parsed_value = Some(cv);
            },
            Err(e) => {
                self.binary_error = Some(e);
            },
        }
    }

    /// Takes one key press (`ctrl` when Control was held): the viewer becomes
    /// `viewer_key` of it; the result tells whether the screen is to be left. Down needs
    /// room to scroll further.
    pub fn handle_key(&mut self, key: Key, ctrl: bool) -> (quit: bool)
        requires
            key == Key::Down ==> old(self)@.scroll < usize::MAX,
        ensures
            (final(self)@, quit) == viewer_key(old(self)@, key, ctrl),
    {
        proof {
            use_type_invariant(&*self);
        }
        match key {
            Key::Char(c) => {
                if c == 'q' {
                    true
                } else if c == 'h' {
                    self.show_help = !self.show_help;
                    false
                } else if c == 'c' && ctrl {
                    true
                } else if hex_digit(c) || c == ',' || c == ' ' || c == '[' || c == ']' {
                    let mut v: Vec<char> = Vec::new();
                    std::mem::swap(&mut v, &mut self.binary_input);
                    v.push(c);
                    self.binary_input = v;
                    self.try_parse();
                    false
                } else {
                    false
                }
            },
            Key::Esc => true,
            Key::Backspace => {
                let mut v: Vec<char> = Vec::new();
                std::mem::swap(&mut v, &mut self.binary_input);
                v.pop();
                self.binary_input = v;
                self.try_parse();
                false
            },
            Key::Tab => {
                self.selected_tab = (self.selected_tab + 1) % 2;
                false
            },
            Key::Up => {
                if self.scroll_offset > 0 {
                    self.scroll_offset = self.scroll_offset - 1;
                }
                false
            },
            Key::Down => {
                self.scroll_offset = self.scroll_offset + 1;
                false
            },
            _ => false,
        }
    }

    /// The input as typed.
    pub fn binary_input(&self) -> (r: &Vec<char>)
        ensures
            r@ == self@.input,
    {
        &self.binary_input
    }

    /// Why the input gives no message, after it was read and failed.
    pub fn binary_error(&self) -> (r: Option<HexInputError>)
        ensures
            r == (match self@.outcome {
                Some(Err(e)) => Some(e),
                _ => None,
            }),
    {
        proof {
            use_type_invariant(self);
        }
        match &self.parsed_value {
            Some(_) => None,
            None => self.binary_error,
        }
    }

    /// The message the input gives, after it was read and held one.
    pub fn parsed_value(&self) -> (r: Option<&CommunicationValue>)
        ensures
            r matches Some(cv) ==> self@.outcome == Some(Ok::<Message, HexInputError>(cv@)),
            r matches Some(cv) ==> cv.booleans_spelled(),
            r is None ==> !(self@.outcome matches Some(Ok(_))),
    {
        proof {
            use_type_invariant(self);
        }
        match &self.parsed_value {
            Some(cv) => Some(cv),
            None => None,
        }
    }

    /// The view tab shown.
    pub fn selected_tab(&self) -> (r: usize)
        ensures
            r == self@.tab,
            r < 2,
    {
        proof {
            use_type_invariant(self);
        }
        self.selected_tab
    }

    /// How far the structure is scrolled.
    pub fn scroll_offset(&self) -> (r: usize)
        ensures
            r == self@.scroll,
    {
        self.scroll_offset
    }

    /// Whether the help is shown.
    pub fn show_help(&self) -> (r: bool)
        ensures
            r == self@.show_help,
    {
        self.show_help
    }
}

} // verus!
