use vstd::prelude::*;

use std::cmp::Ordering;
use vstd::std_specs::cmp::{PartialOrdSpec, PartialOrdSpecImpl};

use crate::data_value::DataKind;
use crate::names::{ascii_normalized, is_ascii_text, normalized, normalized_key, same_chars};

verus! {

/// Number of variants of `DataTypes`.
pub const DATA_TYPE_COUNT: u8 = 88;

/// Key of an entry in a data container.  On the wire a key is one byte: the
/// position of the variant in this declaration.
#[derive(Clone, Copy, Debug, PartialEq, Eq, Structural, Hash, Ord)]
#[allow(non_camel_case_types)]
pub enum DataTypes {
    error_type,
    error_protocol,
    accepted_ids,
    uuid,
    register_id,
    link,
    settings,
    settings_name,
    chat_partner_id,
    chat_partner_name,
    iota_id,
    user_id,
    user_ids,
    iota_ids,
    user_state,
    user_states,
    user_pings,
    call_state,
    screen_share,
    private_key_hash,
    accepted,
    accepted_profiles,
    denied_profiles,
    content,
    messages,
    notifications,
    send_time,
    get_time,
    get_variant,
    shared_secret_own,
    shared_secret_other,
    shared_secret_sign,
    shared_secret,
    call_id,
    call_token,
    untill,
    enabled,
    start_date,
    end_date,
    receiver_id,
    sender_id,
    signature,
    signed,
    message,
    message_state,
    last_ping,
    ping_iota,
    ping_clients,
    matches,
    omikron,
    offset,
    amount,
    position,
    name,
    path,
    codec,
    function,
    payload,
    result,
    interactables,
    want_to_watch,
    watcher,
    created_at,
    username,
    display,
    avatar,
    about,
    status,
    public_key,
    sub_level,
    sub_end,
    community_address,
    challenge,
    community_title,
    communities,
    rho_connections,
    user,
    online_status,
    omikron_id,
    omikron_connections,
    reset_token,
    new_token,
    call_invited,
    call_members,
    calls,
    timeout,
    has_admin,
    last_message_at,
}

impl DataTypes {
    /// Position of the variant in the declaration order (its wire byte).
    pub open spec fn code(self) -> u8 {
        match self {
            DataTypes::error_type => 0,
            DataTypes::error_protocol => 1,
            DataTypes::accepted_ids => 2,
            DataTypes::uuid => 3,
            DataTypes::register_id => 4,
            DataTypes::link => 5,
            DataTypes::settings => 6,
            DataTypes::settings_name => 7,
            DataTypes::chat_partner_id => 8,
            DataTypes::chat_partner_name => 9,
            DataTypes::iota_id => 10,
            DataTypes::user_id => 11,
            DataTypes::user_ids => 12,
            DataTypes::iota_ids => 13,
            DataTypes::user_state => 14,
            DataTypes::user_states => 15,
            DataTypes::user_pings => 16,
            DataTypes::call_state => 17,
            DataTypes::screen_share => 18,
            DataTypes::private_key_hash => 19,
            DataTypes::accepted => 20,
            DataTypes::accepted_profiles => 21,
            DataTypes::denied_profiles => 22,
            DataTypes::content => 23,
            DataTypes::messages => 24,
            DataTypes::notifications => 25,
            DataTypes::send_time => 26,
            DataTypes::get_time => 27,
            DataTypes::get_variant => 28,
            DataTypes::shared_secret_own => 29,
            DataTypes::shared_secret_other => 30,
            DataTypes::shared_secret_sign => 31,
            DataTypes::shared_secret => 32,
            DataTypes::call_id => 33,
            DataTypes::call_token => 34,
            DataTypes::untill => 35,
            DataTypes::enabled => 36,
            DataTypes::start_date => 37,
            DataTypes::end_date => 38,
            DataTypes::receiver_id => 39,
            DataTypes::sender_id => 40,
            DataTypes::signature => 41,
            DataTypes::signed => 42,
            DataTypes::message => 43,
            DataTypes::message_state => 44,
            DataTypes::last_ping => 45,
            DataTypes::ping_iota => 46,
            DataTypes::ping_clients => 47,
            DataTypes::matches => 48,
            DataTypes::omikron => 49,
            DataTypes::offset => 50,
            DataTypes::amount => 51,
            DataTypes::position => 52,
            DataTypes::name => 53,
            DataTypes::path => 54,
            DataTypes::codec => 55,
            DataTypes::function => 56,
            DataTypes::payload => 57,
            DataTypes::result => 58,
            DataTypes::interactables => 59,
            DataTypes::want_to_watch => 60,
            DataTypes::watcher => 61,
            DataTypes::created_at => 62,
            DataTypes::username => 63,
            DataTypes::display => 64,
            DataTypes::avatar => 65,
            DataTypes::about => 66,
            DataTypes::status => 67,
            DataTypes::public_key => 68,
            DataTypes::sub_level => 69,
            DataTypes::sub_end => 70,
            DataTypes::community_address => 71,
            DataTypes::challenge => 72,
            DataTypes::community_title => 73,
            DataTypes::communities => 74,
            DataTypes::rho_connections => 75,
            DataTypes::user => 76,
            DataTypes::online_status => 77,
            DataTypes::omikron_id => 78,
            DataTypes::omikron_connections => 79,
            DataTypes::reset_token => 80,
            DataTypes::new_token => 81,
            DataTypes::call_invited => 82,
            DataTypes::call_members => 83,
            DataTypes::calls => 84,
            DataTypes::timeout => 85,
            DataTypes::has_admin => 86,
            DataTypes::last_message_at => 87,
        }
    }

    /// Variant at the given position; `error_protocol` past the end of the list.
    pub open spec fn of_code(n: u8) -> DataTypes {
        match n {
            0 => DataTypes::error_type,
            1 => DataTypes::error_protocol,
            2 => DataTypes::accepted_ids,
            3 => DataTypes::uuid,
            4 => DataTypes::register_id,
            5 => DataTypes::link,
            6 => DataTypes::settings,
            7 => DataTypes::settings_name,
            8 => DataTypes::chat_partner_id,
            9 => DataTypes::chat_partner_name,
            10 => DataTypes::iota_id,
            11 => DataTypes::user_id,
            12 => DataTypes::user_ids,
            13 => DataTypes::iota_ids,
            14 => DataTypes::user_state,
            15 => DataTypes::user_states,
            16 => DataTypes::user_pings,
            17 => DataTypes::call_state,
            18 => DataTypes::screen_share,
            19 => DataTypes::private_key_hash,
            20 => DataTypes::accepted,
            21 => DataTypes::accepted_profiles,
            22 => DataTypes::denied_profiles,
            23 => DataTypes::content,
            24 => DataTypes::messages,
            25 => DataTypes::notifications,
            26 => DataTypes::send_time,
            27 => DataTypes::get_time,
            28 => DataTypes::get_variant,
            29 => DataTypes::shared_secret_own,
            30 => DataTypes::shared_secret_other,
            31 => DataTypes::shared_secret_sign,
            32 => DataTypes::shared_secret,
            33 => DataTypes::call_id,
            34 => DataTypes::call_token,
            35 => DataTypes::untill,
            36 => DataTypes::enabled,
            37 => DataTypes::start_date,
            38 => DataTypes::end_date,
            39 => DataTypes::receiver_id,
            40 => DataTypes::sender_id,
            41 => DataTypes::signature,
            42 => DataTypes::signed,
            43 => DataTypes::message,
            44 => DataTypes::message_state,
            45 => DataTypes::last_ping,
            46 => DataTypes::ping_iota,
            47 => DataTypes::ping_clients,
            48 => DataTypes::matches,
            49 => DataTypes::omikron,
            50 => DataTypes::offset,
            51 => DataTypes::amount,
            52 => DataTypes::position,
            53 => DataTypes::name,
            54 => DataTypes::path,
            55 => DataTypes::codec,
            56 => DataTypes::function,
            57 => DataTypes::payload,
            58 => DataTypes::result,
            59 => DataTypes::interactables,
            60 => DataTypes::want_to_watch,
            61 => DataTypes::watcher,
            62 => DataTypes::created_at,
            63 => DataTypes::username,
            64 => DataTypes::display,
            65 => DataTypes::avatar,
            66 => DataTypes::about,
            67 => DataTypes::status,
            68 => DataTypes::public_key,
            69 => DataTypes::sub_level,
            70 => DataTypes::sub_end,
            71 => DataTypes::community_address,
            72 => DataTypes::challenge,
            73 => DataTypes::community_title,
            74 => DataTypes::communities,
            75 => DataTypes::rho_connections,
            76 => DataTypes::user,
            77 => DataTypes::online_status,
            78 => DataTypes::omikron_id,
            79 => DataTypes::omikron_connections,
            80 => DataTypes::reset_token,
            81 => DataTypes::new_token,
            82 => DataTypes::call_invited,
            83 => DataTypes::call_members,
            84 => DataTypes::calls,
            85 => DataTypes::timeout,
            86 => DataTypes::has_admin,
            87 => DataTypes::last_message_at,
            _ => DataTypes::error_protocol,
        }
    }

    /// Name of the variant as written in its declaration.
    pub open spec fn name(self) -> Seq<char> {
        match self {
            DataTypes::error_type => "error_type"@,
            DataTypes::error_protocol => "error_protocol"@,
            DataTypes::accepted_ids => "accepted_ids"@,
            DataTypes::uuid => "uuid"@,
            DataTypes::register_id => "register_id"@,
            DataTypes::link => "link"@,
            DataTypes::settings => "settings"@,
            DataTypes::settings_name => "settings_name"@,
            DataTypes::chat_partner_id => "chat_partner_id"@,
            DataTypes::chat_partner_name => "chat_partner_name"@,
            DataTypes::iota_id => "iota_id"@,
            DataTypes::user_id => "user_id"@,
            DataTypes::user_ids => "user_ids"@,
            DataTypes::iota_ids => "iota_ids"@,
            DataTypes::user_state => "user_state"@,
            DataTypes::user_states => "user_states"@,
            DataTypes::user_pings => "user_pings"@,
            DataTypes::call_state => "call_state"@,
            DataTypes::screen_share => "screen_share"@,
            DataTypes::private_key_hash => "private_key_hash"@,
            DataTypes::accepted => "accepted"@,
            DataTypes::accepted_profiles => "accepted_profiles"@,
            DataTypes::denied_profiles => "denied_profiles"@,
            DataTypes::content => "content"@,
            DataTypes::messages => "messages"@,
            DataTypes::notifications => "notifications"@,
            DataTypes::send_time => "send_time"@,
            DataTypes::get_time => "get_time"@,
            DataTypes::get_variant => "get_variant"@,
            DataTypes::shared_secret_own => "shared_secret_own"@,
            DataTypes::shared_secret_other => "shared_secret_other"@,
            DataTypes::shared_secret_sign => "shared_secret_sign"@,
            DataTypes::shared_secret => "shared_secret"@,
            DataTypes::call_id => "call_id"@,
            DataTypes::call_token => "call_token"@,
            DataTypes::untill => "untill"@,
            DataTypes::enabled => "enabled"@,
            DataTypes::start_date => "start_date"@,
            DataTypes::end_date => "end_date"@,
            DataTypes::receiver_id => "receiver_id"@,
            DataTypes::sender_id => "sender_id"@,
            DataTypes::signature => "signature"@,
            DataTypes::signed => "signed"@,
            DataTypes::message => "message"@,
            DataTypes::message_state => "message_state"@,
            DataTypes::last_ping => "last_ping"@,
            DataTypes::ping_iota => "ping_iota"@,
            DataTypes::ping_clients => "ping_clients"@,
            DataTypes::matches => "matches"@,
            DataTypes::omikron => "omikron"@,
            DataTypes::offset => "offset"@,
            DataTypes::amount => "amount"@,
            DataTypes::position => "position"@,
            DataTypes::name => "name"@,
            DataTypes::path => "path"@,
            DataTypes::codec => "codec"@,
            DataTypes::function => "function"@,
            DataTypes::payload => "payload"@,
            DataTypes::result => "result"@,
            DataTypes::interactables => "interactables"@,
            DataTypes::want_to_watch => "want_to_watch"@,
            DataTypes::watcher => "watcher"@,
            DataTypes::created_at => "created_at"@,
            DataTypes::username => "username"@,
            DataTypes::display => "display"@,
            DataTypes::avatar => "avatar"@,
            DataTypes::about => "about"@,
            DataTypes::status => "status"@,
            DataTypes::public_key => "public_key"@,
            DataTypes::sub_level => "sub_level"@,
            DataTypes::sub_end => "sub_end"@,
            DataTypes::community_address => "community_address"@,
            DataTypes::challenge => "challenge"@,
            DataTypes::community_title => "community_title"@,
            DataTypes::communities => "communities"@,
            DataTypes::rho_connections => "rho_connections"@,
            DataTypes::user => "user"@,
            DataTypes::online_status => "online_status"@,
            DataTypes::omikron_id => "omikron_id"@,
            DataTypes::omikron_connections => "omikron_connections"@,
            DataTypes::reset_token => "reset_token"@,
            DataTypes::new_token => "new_token"@,
            DataTypes::call_invited => "call_invited"@,
            DataTypes::call_members => "call_members"@,
            DataTypes::calls => "calls"@,
            DataTypes::timeout => "timeout"@,
            DataTypes::has_admin => "has_admin"@,
            DataTypes::last_message_at => "last_message_at"@,
        }
    }

    /// The variant `parse` picks for a text `s`: the first one, from position `i` on,
    /// whose normalized name equals the normalized text; `error_type` when none does.
    pub open spec fn first_match(s: Seq<char>, i: int) -> DataTypes
        decreases 88 - i,
    {
        if i < 0 || i >= 88 {
            DataTypes::error_type
        } else if normalized(DataTypes::of_code(i as u8).name()) == normalized(s) {
            DataTypes::of_code(i as u8)
        } else {
            DataTypes::first_match(s, i + 1)
        }
    }

    /// `first_match` for ASCII text, where lowercasing is the ASCII case mapping.
    pub open spec fn first_match_ascii(s: Seq<char>, i: int) -> DataTypes
        decreases 88 - i,
    {
        if i < 0 || i >= 88 {
            DataTypes::error_type
        } else if ascii_normalized(DataTypes::of_code(i as u8).name()) == ascii_normalized(s) {
            DataTypes::of_code(i as u8)
        } else {
            DataTypes::first_match_ascii(s, i + 1)
        }
    }

    /// Kind of value a key is expected to carry.
    pub open spec fn kind_of(self) -> DataKind {
        match self {
            DataTypes::error_type => DataKind::Str,
            DataTypes::error_protocol => DataKind::Null,
            DataTypes::accepted_ids => DataKind::Array(Box::new(DataKind::Number)),
            DataTypes::uuid => DataKind::Str,
            DataTypes::register_id => DataKind::Number,
            DataTypes::link => DataKind::Str,
            DataTypes::settings => DataKind::Container,
            DataTypes::settings_name => DataKind::Str,
            DataTypes::chat_partner_id => DataKind::Number,
            DataTypes::chat_partner_name => DataKind::Str,
            DataTypes::iota_id => DataKind::Number,
            DataTypes::user_id => DataKind::Number,
            DataTypes::user_ids => DataKind::Array(Box::new(DataKind::Number)),
            DataTypes::iota_ids => DataKind::Array(Box::new(DataKind::Number)),
            DataTypes::user_state => DataKind::Str,
            DataTypes::user_states => DataKind::Array(Box::new(DataKind::Str)),
            DataTypes::user_pings => DataKind::Container,
            DataTypes::call_state => DataKind::Str,
            DataTypes::screen_share => DataKind::Bool,
            DataTypes::private_key_hash => DataKind::Str,
            DataTypes::accepted => DataKind::Bool,
            DataTypes::accepted_profiles => DataKind::Null,
            DataTypes::denied_profiles => DataKind::Null,
            DataTypes::content => DataKind::Str,
            DataTypes::messages => DataKind::Array(Box::new(DataKind::Container)),
            DataTypes::notifications => DataKind::Array(Box::new(DataKind::Number)),
            DataTypes::send_time => DataKind::Number,
            DataTypes::get_time => DataKind::Array(Box::new(DataKind::Number)),
            DataTypes::get_variant => DataKind::Null,
            DataTypes::shared_secret_own => DataKind::Str,
            DataTypes::shared_secret_other => DataKind::Str,
            DataTypes::shared_secret_sign => DataKind::Str,
            DataTypes::shared_secret => DataKind::Str,
            DataTypes::call_id => DataKind::Number,
            DataTypes::call_token => DataKind::Str,
            DataTypes::untill => DataKind::Number,
            DataTypes::enabled => DataKind::Bool,
            DataTypes::start_date => DataKind::Number,
            DataTypes::end_date => DataKind::Number,
            DataTypes::receiver_id => DataKind::Number,
            DataTypes::sender_id => DataKind::Number,
            DataTypes::signature => DataKind::Str,
            DataTypes::signed => DataKind::Bool,
            DataTypes::message => DataKind::Str,
            DataTypes::message_state => DataKind::Str,
            DataTypes::last_ping => DataKind::Array(Box::new(DataKind::Number)),
            DataTypes::ping_iota => DataKind::Array(Box::new(DataKind::Number)),
            DataTypes::ping_clients => DataKind::Container,
            DataTypes::matches => DataKind::Array(Box::new(DataKind::Container)),
            DataTypes::omikron => DataKind::Null,
            DataTypes::offset => DataKind::Number,
            DataTypes::amount => DataKind::Number,
            DataTypes::position => DataKind::Number,
            DataTypes::name => DataKind::Str,
            DataTypes::path => DataKind::Str,
            DataTypes::codec => DataKind::Str,
            DataTypes::function => DataKind::Str,
            DataTypes::payload => DataKind::Container,
            DataTypes::result => DataKind::Container,
            DataTypes::interactables => DataKind::Null,
            DataTypes::want_to_watch => DataKind::Null,
            DataTypes::watcher => DataKind::Null,
            DataTypes::created_at => DataKind::Null,
            DataTypes::username => DataKind::Str,
            DataTypes::display => DataKind::Str,
            DataTypes::avatar => DataKind::Str,
            DataTypes::about => DataKind::Str,
            DataTypes::status => DataKind::Null,
            DataTypes::public_key => DataKind::Str,
            DataTypes::sub_level => DataKind::Number,
            DataTypes::sub_end => DataKind::Null,
            DataTypes::community_address => DataKind::Null,
            DataTypes::challenge => DataKind::Str,
            DataTypes::community_title => DataKind::Null,
            DataTypes::communities => DataKind::Array(Box::new(DataKind::Container)),
            DataTypes::rho_connections => DataKind::Array(Box::new(DataKind::Container)),
            DataTypes::user => DataKind::Container,
            DataTypes::online_status => DataKind::Null,
            DataTypes::omikron_id => DataKind::Number,
            DataTypes::omikron_connections => DataKind::Array(Box::new(DataKind::Number)),
            DataTypes::reset_token => DataKind::Str,
            DataTypes::new_token => DataKind::Str,
            DataTypes::call_invited => DataKind::Null,
            DataTypes::call_members => DataKind::Null,
            DataTypes::calls => DataKind::Null,
            DataTypes::timeout => DataKind::Number,
            DataTypes::has_admin => DataKind::Bool,
            DataTypes::last_message_at => DataKind::Null,
        }
    }

    /// Kind of value the key is expected to carry.
    pub fn expected_kind(&self) -> (r: DataKind)
        ensures
            r == self.kind_of(),
    {
        match self {
            DataTypes::error_type => DataKind::Str,
            DataTypes::error_protocol => DataKind::Null,
            DataTypes::accepted_ids => DataKind::Array(Box::new(DataKind::Number)),
            DataTypes::uuid => DataKind::Str,
            DataTypes::register_id => DataKind::Number,
            DataTypes::link => DataKind::Str,
            DataTypes::settings => DataKind::Container,
            DataTypes::settings_name => DataKind::Str,
            DataTypes::chat_partner_id => DataKind::Number,
            DataTypes::chat_partner_name => DataKind::Str,
            DataTypes::iota_id => DataKind::Number,
            DataTypes::user_id => DataKind::Number,
            DataTypes::user_ids => DataKind::Array(Box::new(DataKind::Number)),
            DataTypes::iota_ids => DataKind::Array(Box::new(DataKind::Number)),
            DataTypes::user_state => DataKind::Str,
            DataTypes::user_states => DataKind::Array(Box::new(DataKind::Str)),
            DataTypes::user_pings => DataKind::Container,
            DataTypes::call_state => DataKind::Str,
            DataTypes::screen_share => DataKind::Bool,
            DataTypes::private_key_hash => DataKind::Str,
            DataTypes::accepted => DataKind::Bool,
            DataTypes::accepted_profiles => DataKind::Null,
            DataTypes::denied_profiles => DataKind::Null,
            DataTypes::content => DataKind::Str,
            DataTypes::messages => DataKind::Array(Box::new(DataKind::Container)),
            DataTypes::notifications => DataKind::Array(Box::new(DataKind::Number)),
            DataTypes::send_time => DataKind::Number,
            DataTypes::get_time => DataKind::Array(Box::new(DataKind::Number)),
            DataTypes::get_variant => DataKind::Null,
            DataTypes::shared_secret_own => DataKind::Str,
            DataTypes::shared_secret_other => DataKind::Str,
            DataTypes::shared_secret_sign => DataKind::Str,
            DataTypes::shared_secret => DataKind::Str,
            DataTypes::call_id => DataKind::Number,
            DataTypes::call_token => DataKind::Str,
            DataTypes::untill => DataKind::Number,
            DataTypes::enabled => DataKind::Bool,
            DataTypes::start_date => DataKind::Number,
            DataTypes::end_date => DataKind::Number,
            DataTypes::receiver_id => DataKind::Number,
            DataTypes::sender_id => DataKind::Number,
            DataTypes::signature => DataKind::Str,
            DataTypes::signed => DataKind::Bool,
            DataTypes::message => DataKind::Str,
            DataTypes::message_state => DataKind::Str,
            DataTypes::last_ping => DataKind::Array(Box::new(DataKind::Number)),
            DataTypes::ping_iota => DataKind::Array(Box::new(DataKind::Number)),
            DataTypes::ping_clients => DataKind::Container,
            DataTypes::matches => DataKind::Array(Box::new(DataKind::Container)),
            DataTypes::omikron => DataKind::Null,
            DataTypes::offset => DataKind::Number,
            DataTypes::amount => DataKind::Number,
            DataTypes::position => DataKind::Number,
            DataTypes::name => DataKind::Str,
            DataTypes::path => DataKind::Str,
            DataTypes::codec => DataKind::Str,
            DataTypes::function => DataKind::Str,
            DataTypes::payload => DataKind::Container,
            DataTypes::result => DataKind::Container,
            DataTypes::interactables => DataKind::Null,
            DataTypes::want_to_watch => DataKind::Null,
            DataTypes::watcher => DataKind::Null,
            DataTypes::created_at => DataKind::Null,
            DataTypes::username => DataKind::Str,
            DataTypes::display => DataKind::Str,
            DataTypes::avatar => DataKind::Str,
            DataTypes::about => DataKind::Str,
            DataTypes::status => DataKind::Null,
            DataTypes::public_key => DataKind::Str,
            DataTypes::sub_level => DataKind::Number,
            DataTypes::sub_end => DataKind::Null,
            DataTypes::community_address => DataKind::Null,
            DataTypes::challenge => DataKind::Str,
            DataTypes::community_title => DataKind::Null,
            DataTypes::communities => DataKind::Array(Box::new(DataKind::Container)),
            DataTypes::rho_connections => DataKind::Array(Box::new(DataKind::Container)),
            DataTypes::user => DataKind::Container,
            DataTypes::online_status => DataKind::Null,
            DataTypes::omikron_id => DataKind::Number,
            DataTypes::omikron_connections => DataKind::Array(Box::new(DataKind::Number)),
            DataTypes::reset_token => DataKind::Str,
            DataTypes::new_token => DataKind::Str,
            DataTypes::call_invited => DataKind::Null,
            DataTypes::call_members => DataKind::Null,
            DataTypes::calls => DataKind::Null,
            DataTypes::timeout => DataKind::Number,
            DataTypes::has_admin => DataKind::Bool,
            DataTypes::last_message_at => DataKind::Null,
        }
    }

    /// The wire byte: the position of the variant in the declaration order.
    pub fn as_number(&self) -> (r: u8)
        ensures
            r == self.code(),
            r == *self as u8,
            r < DATA_TYPE_COUNT,
    {
        match self {
            DataTypes::error_type => 0,
            DataTypes::error_protocol => 1,
            DataTypes::accepted_ids => 2,
            DataTypes::uuid => 3,
            DataTypes::register_id => 4,
            DataTypes::link => 5,
            DataTypes::settings => 6,
            DataTypes::settings_name => 7,
            DataTypes::chat_partner_id => 8,
            DataTypes::chat_partner_name => 9,
            DataTypes::iota_id => 10,
            DataTypes::user_id => 11,
            DataTypes::user_ids => 12,
            DataTypes::iota_ids => 13,
            DataTypes::user_state => 14,
            DataTypes::user_states => 15,
            DataTypes::user_pings => 16,
            DataTypes::call_state => 17,
            DataTypes::screen_share => 18,
            DataTypes::private_key_hash => 19,
            DataTypes::accepted => 20,
            DataTypes::accepted_profiles => 21,
            DataTypes::denied_profiles => 22,
            DataTypes::content => 23,
            DataTypes::messages => 24,
            DataTypes::notifications => 25,
            DataTypes::send_time => 26,
            DataTypes::get_time => 27,
            DataTypes::get_variant => 28,
            DataTypes::shared_secret_own => 29,
            DataTypes::shared_secret_other => 30,
            DataTypes::shared_secret_sign => 31,
            DataTypes::shared_secret => 32,
            DataTypes::call_id => 33,
            DataTypes::call_token => 34,
            DataTypes::untill => 35,
            DataTypes::enabled => 36,
            DataTypes::start_date => 37,
            DataTypes::end_date => 38,
            DataTypes::receiver_id => 39,
            DataTypes::sender_id => 40,
            DataTypes::signature => 41,
            DataTypes::signed => 42,
            DataTypes::message => 43,
            DataTypes::message_state => 44,
            DataTypes::last_ping => 45,
            DataTypes::ping_iota => 46,
            DataTypes::ping_clients => 47,
            DataTypes::matches => 48,
            DataTypes::omikron => 49,
            DataTypes::offset => 50,
            DataTypes::amount => 51,
            DataTypes::position => 52,
            DataTypes::name => 53,
            DataTypes::path => 54,
            DataTypes::codec => 55,
            DataTypes::function => 56,
            DataTypes::payload => 57,
            DataTypes::result => 58,
            DataTypes::interactables => 59,
            DataTypes::want_to_watch => 60,
            DataTypes::watcher => 61,
            DataTypes::created_at => 62,
            DataTypes::username => 63,
            DataTypes::display => 64,
            DataTypes::avatar => 65,
            DataTypes::about => 66,
            DataTypes::status => 67,
            DataTypes::public_key => 68,
            DataTypes::sub_level => 69,
            DataTypes::sub_end => 70,
            DataTypes::community_address => 71,
            DataTypes::challenge => 72,
            DataTypes::community_title => 73,
            DataTypes::communities => 74,
            DataTypes::rho_connections => 75,
            DataTypes::user => 76,
            DataTypes::online_status => 77,
            DataTypes::omikron_id => 78,
            DataTypes::omikron_connections => 79,
            DataTypes::reset_token => 80,
            DataTypes::new_token => 81,
            DataTypes::call_invited => 82,
            DataTypes::call_members => 83,
            DataTypes::calls => 84,
            DataTypes::timeout => 85,
            DataTypes::has_admin => 86,
            DataTypes::last_message_at => 87,
        }
    }

    /// The variant at the given position; `error_protocol` for a byte past the end.
    pub fn from_number(n: u8) -> (r: DataTypes)
        ensures
            r == DataTypes::of_code(n),
            n < DATA_TYPE_COUNT ==> r.code() == n,
            n < DATA_TYPE_COUNT ==> r as u8 == n,
            n >= DATA_TYPE_COUNT ==> r == DataTypes::error_protocol,
    {
        match n {
            0 => DataTypes::error_type,
            1 => DataTypes::error_protocol,
            2 => DataTypes::accepted_ids,
            3 => DataTypes::uuid,
            4 => DataTypes::register_id,
            5 => DataTypes::link,
            6 => DataTypes::settings,
            7 => DataTypes::settings_name,
            8 => DataTypes::chat_partner_id,
            9 => DataTypes::chat_partner_name,
            10 => DataTypes::iota_id,
            11 => DataTypes::user_id,
            12 => DataTypes::user_ids,
            13 => DataTypes::iota_ids,
            14 => DataTypes::user_state,
            15 => DataTypes::user_states,
            16 => DataTypes::user_pings,
            17 => DataTypes::call_state,
            18 => DataTypes::screen_share,
            19 => DataTypes::private_key_hash,
            20 => DataTypes::accepted,
            21 => DataTypes::accepted_profiles,
            22 => DataTypes::denied_profiles,
            23 => DataTypes::content,
            24 => DataTypes::messages,
            25 => DataTypes::notifications,
            26 => DataTypes::send_time,
            27 => DataTypes::get_time,
            28 => DataTypes::get_variant,
            29 => DataTypes::shared_secret_own,
            30 => DataTypes::shared_secret_other,
            31 => DataTypes::shared_secret_sign,
            32 => DataTypes::shared_secret,
            33 => DataTypes::call_id,
            34 => DataTypes::call_token,
            35 => DataTypes::untill,
            36 => DataTypes::enabled,
            37 => DataTypes::start_date,
            38 => DataTypes::end_date,
            39 => DataTypes::receiver_id,
            40 => DataTypes::sender_id,
            41 => DataTypes::signature,
            42 => DataTypes::signed,
            43 => DataTypes::message,
            44 => DataTypes::message_state,
            45 => DataTypes::last_ping,
            46 => DataTypes::ping_iota,
            47 => DataTypes::ping_clients,
            48 => DataTypes::matches,
            49 => DataTypes::omikron,
            50 => DataTypes::offset,
            51 => DataTypes::amount,
            52 => DataTypes::position,
            53 => DataTypes::name,
            54 => DataTypes::path,
            55 => DataTypes::codec,
            56 => DataTypes::function,
            57 => DataTypes::payload,
            58 => DataTypes::result,
            59 => DataTypes::interactables,
            60 => DataTypes::want_to_watch,
            61 => DataTypes::watcher,
            62 => DataTypes::created_at,
            63 => DataTypes::username,
            64 => DataTypes::display,
            65 => DataTypes::avatar,
            66 => DataTypes::about,
            67 => DataTypes::status,
            68 => DataTypes::public_key,
            69 => DataTypes::sub_level,
            70 => DataTypes::sub_end,
            71 => DataTypes::community_address,
            72 => DataTypes::challenge,
            73 => DataTypes::community_title,
            74 => DataTypes::communities,
            75 => DataTypes::rho_connections,
            76 => DataTypes::user,
            77 => DataTypes::online_status,
            78 => DataTypes::omikron_id,
            79 => DataTypes::omikron_connections,
            80 => DataTypes::reset_token,
            81 => DataTypes::new_token,
            82 => DataTypes::call_invited,
            83 => DataTypes::call_members,
            84 => DataTypes::calls,
            85 => DataTypes::timeout,
            86 => DataTypes::has_admin,
            87 => DataTypes::last_message_at,
            _ => DataTypes::error_protocol,
        }
    }

    /// The first key (in declaration order) whose name, lowercased and without
    /// underscores, equals `p0` lowercased and without underscores; `error_type` when
    /// there is none.
    pub fn parse(p0: String) -> (r: DataTypes)
        ensures
            r == DataTypes::first_match(p0@, 0),
            is_ascii_text(p0@) ==> r == DataTypes::first_match_ascii(p0@, 0),
    {
        let key = normalized_key(p0.as_str());
        let mut i: u8 = 0;
        while i < DATA_TYPE_COUNT
            invariant
                i <= DATA_TYPE_COUNT,
                key@ == normalized(p0@),
                DataTypes::first_match(p0@, 0) == DataTypes::first_match(p0@, i as int),
                is_ascii_text(p0@) ==> key@ == ascii_normalized(p0@),
                is_ascii_text(p0@) ==> DataTypes::first_match_ascii(p0@, 0)
                    == DataTypes::first_match_ascii(p0@, i as int),
            decreases DATA_TYPE_COUNT - i,
        {
            let candidate = DataTypes::from_number(i);
            let name = candidate.to_string();
            proof {
                crate::data_type_names::lemma_name_facts(candidate);
            }
            if same_chars(&normalized_key(name.as_str()), &key) {
                return candidate;
            }
            i += 1;
        }
        DataTypes::error_type
    }

    /// Name of the variant, as declared.
    pub fn to_string(&self) -> (r: String)
        ensures
            r@ == self.name(),
    {
        match self {
            DataTypes::error_type => "error_type".to_string(),
            DataTypes::error_protocol => "error_protocol".to_string(),
            DataTypes::accepted_ids => "accepted_ids".to_string(),
            DataTypes::uuid => "uuid".to_string(),
            DataTypes::register_id => "register_id".to_string(),
            DataTypes::link => "link".to_string(),
            DataTypes::settings => "settings".to_string(),
            DataTypes::settings_name => "settings_name".to_string(),
            DataTypes::chat_partner_id => "chat_partner_id".to_string(),
            DataTypes::chat_partner_name => "chat_partner_name".to_string(),
            DataTypes::iota_id => "iota_id".to_string(),
            DataTypes::user_id => "user_id".to_string(),
            DataTypes::user_ids => "user_ids".to_string(),
            DataTypes::iota_ids => "iota_ids".to_string(),
            DataTypes::user_state => "user_state".to_string(),
            DataTypes::user_states => "user_states".to_string(),
            DataTypes::user_pings => "user_pings".to_string(),
            DataTypes::call_state => "call_state".to_string(),
            DataTypes::screen_share => "screen_share".to_string(),
            DataTypes::private_key_hash => "private_key_hash".to_string(),
            DataTypes::accepted => "accepted".to_string(),
            DataTypes::accepted_profiles => "accepted_profiles".to_string(),
            DataTypes::denied_profiles => "denied_profiles".to_string(),
            DataTypes::content => "content".to_string(),
            DataTypes::messages => "messages".to_string(),
            DataTypes::notifications => "notifications".to_string(),
            DataTypes::send_time => "send_time".to_string(),
            DataTypes::get_time => "get_time".to_string(),
            DataTypes::get_variant => "get_variant".to_string(),
            DataTypes::shared_secret_own => "shared_secret_own".to_string(),
            DataTypes::shared_secret_other => "shared_secret_other".to_string(),
            DataTypes::shared_secret_sign => "shared_secret_sign".to_string(),
            DataTypes::shared_secret => "shared_secret".to_string(),
            DataTypes::call_id => "call_id".to_string(),
            DataTypes::call_token => "call_token".to_string(),
            DataTypes::untill => "untill".to_string(),
            DataTypes::enabled => "enabled".to_string(),
            DataTypes::start_date => "start_date".to_string(),
            DataTypes::end_date => "end_date".to_string(),
            DataTypes::receiver_id => "receiver_id".to_string(),
            DataTypes::sender_id => "sender_id".to_string(),
            DataTypes::signature => "signature".to_string(),
            DataTypes::signed => "signed".to_string(),
            DataTypes::message => "message".to_string(),
            DataTypes::message_state => "message_state".to_string(),
            DataTypes::last_ping => "last_ping".to_string(),
            DataTypes::ping_iota => "ping_iota".to_string(),
            DataTypes::ping_clients => "ping_clients".to_string(),
            DataTypes::matches => "matches".to_string(),
            DataTypes::omikron => "omikron".to_string(),
            DataTypes::offset => "offset".to_string(),
            DataTypes::amount => "amount".to_string(),
            DataTypes::position => "position".to_string(),
            DataTypes::name => "name".to_string(),
            DataTypes::path => "path".to_string(),
            DataTypes::codec => "codec".to_string(),
            DataTypes::function => "function".to_string(),
            DataTypes::payload => "payload".to_string(),
            DataTypes::result => "result".to_string(),
            DataTypes::interactables => "interactables".to_string(),
            DataTypes::want_to_watch => "want_to_watch".to_string(),
            DataTypes::watcher => "watcher".to_string(),
            DataTypes::created_at => "created_at".to_string(),
            DataTypes::username => "username".to_string(),
            DataTypes::display => "display".to_string(),
            DataTypes::avatar => "avatar".to_string(),
            DataTypes::about => "about".to_string(),
            DataTypes::status => "status".to_string(),
            DataTypes::public_key => "public_key".to_string(),
            DataTypes::sub_level => "sub_level".to_string(),
            DataTypes::sub_end => "sub_end".to_string(),
            DataTypes::community_address => "community_address".to_string(),
            DataTypes::challenge => "challenge".to_string(),
            DataTypes::community_title => "community_title".to_string(),
            DataTypes::communities => "communities".to_string(),
            DataTypes::rho_connections => "rho_connections".to_string(),
            DataTypes::user => "user".to_string(),
            DataTypes::online_status => "online_status".to_string(),
            DataTypes::omikron_id => "omikron_id".to_string(),
            DataTypes::omikron_connections => "omikron_connections".to_string(),
            DataTypes::reset_token => "reset_token".to_string(),
            DataTypes::new_token => "new_token".to_string(),
            DataTypes::call_invited => "call_invited".to_string(),
            DataTypes::call_members => "call_members".to_string(),
            DataTypes::calls => "calls".to_string(),
            DataTypes::timeout => "timeout".to_string(),
            DataTypes::has_admin => "has_admin".to_string(),
            DataTypes::last_message_at => "last_message_at".to_string(),
        }
    }

    /// Every variant, in declaration order.
    pub fn iter() -> (r: Vec<DataTypes>)
        ensures
            r@.len() == DATA_TYPE_COUNT as int,
            forall|i: int| 0 <= i < r@.len() ==> #[trigger] r@[i] == DataTypes::of_code(i as u8),
    {
        let mut v: Vec<DataTypes> = Vec::new();
        let mut i: u8 = 0;
        while i < DATA_TYPE_COUNT
            invariant
                i <= DATA_TYPE_COUNT,
                v@.len() == i as int,
                forall|j: int| 0 <= j < v@.len() ==> #[trigger] v@[j] == DataTypes::of_code(j as u8),
            decreases DATA_TYPE_COUNT - i,
        {
            v.push(DataTypes::from_number(i));
            i += 1;
        }
        v
    }

}

/// Every data type survives the trip through its wire byte: `from_number(as_number(t)) == t`;
/// every byte below the count names the variant at that position, and every byte past it
/// reads as `error_protocol`.
pub proof fn lemma_data_type_code_roundtrip(t: DataTypes, n: u8)
    ensures
        DataTypes::of_code(t.code()) == t,
        n < DATA_TYPE_COUNT ==> DataTypes::of_code(n).code() == n,
        n >= DATA_TYPE_COUNT ==> DataTypes::of_code(n) == DataTypes::error_protocol,
{
}

/// Keys are ordered as they are declared, that is, by their wire bytes.
impl PartialOrd for DataTypes {
    fn partial_cmp(&self, other: &Self) -> (r: Option<Ordering>) {
        let a = self.as_number();
        let b = other.as_number();
        if a < b {
            Some(Ordering::Less)
        } else if a == b {
            Some(Ordering::Equal)
        } else {
            Some(Ordering::Greater)
        }
    }
}

impl PartialOrdSpecImpl for DataTypes {
    open spec fn obeys_partial_cmp_spec() -> bool {
        true
    }

    open spec fn partial_cmp_spec(&self, other: &Self) -> Option<Ordering> {
        if self.code() < other.code() {
            Some(Ordering::Less)
        } else if self.code() == other.code() {
            Some(Ordering::Equal)
        } else {
            Some(Ordering::Greater)
        }
    }
}

/// Keys compare as their wire bytes do: one key is below another exactly when its byte
/// is, and two keys compare equal exactly when they are the same key.
pub proof fn lemma_data_type_order(a: DataTypes, b: DataTypes)
    ensures
        (PartialOrdSpec::partial_cmp_spec(&a, &b) == Some(Ordering::Less)) <==> a.code() < b.code(),
        (PartialOrdSpec::partial_cmp_spec(&a, &b) == Some(Ordering::Equal)) <==> a == b,
        (PartialOrdSpec::partial_cmp_spec(&a, &b) == Some(Ordering::Greater)) <==> a.code() > b.code(),
{
    lemma_data_type_code_roundtrip(a, 0);
    lemma_data_type_code_roundtrip(b, 0);
}


/// The wire byte of every data type is its position in the declaration, the discriminant
/// Rust gives the variant (`t as u8`); and the byte at a position below the count reads
/// back as the variant declared there.
pub proof fn lemma_data_type_code_is_position(t: DataTypes, n: u8)
    ensures
        t.code() == t as u8,
        n < DATA_TYPE_COUNT ==> DataTypes::of_code(n) as u8 == n,
{
}

} // verus!
