use vstd::prelude::*;

use crate::names::{ascii_normalized, is_ascii_text, normalized, normalized_key, same_chars};

verus! {

/// Number of variants of `CommunicationType`.
pub const COMMUNICATION_TYPE_COUNT: u8 = 90;

/// Type of a message.  On the wire a type is one byte: the position of the variant
/// in this declaration.
#[derive(Clone, Copy, Debug, PartialEq, Eq, Structural, Hash)]
#[allow(non_camel_case_types)]
pub enum CommunicationType {
    error,
    error_protocol,
    error_anonymous,
    error_internal,
    error_invalid_data,
    error_invalid_user_id,
    error_invalid_omikron_id,
    error_not_found,
    error_not_authenticated,
    error_no_iota,
    error_invalid_challenge,
    error_invalid_secret,
    error_invalid_private_key,
    error_invalid_public_key,
    error_no_user_id,
    error_no_call_id,
    error_invalid_call_id,
    success,
    shorten_link,
    settings_save,
    settings_load,
    settings_list,
    message,
    message_state,
    message_send,
    message_live,
    message_other_iota,
    message_chunk,
    messages_get,
    push_notification,
    read_notification,
    get_notifications,
    change_confirm,
    confirm_receive,
    confirm_read,
    get_chats,
    get_states,
    add_community,
    remove_community,
    get_communities,
    challenge,
    challenge_response,
    register,
    register_response,
    identification,
    identification_response,
    register_iota,
    register_iota_success,
    ping,
    pong,
    add_conversation,
    send_chat,
    client_changed,
    client_connected,
    client_disconnected,
    client_closed,
    public_key,
    private_key,
    webrtc_sdp,
    webrtc_ice,
    start_stream,
    end_stream,
    watch_stream,
    call_token,
    call_invite,
    call_disconnect_user,
    call_timeout_user,
    call_set_anonymous_joining,
    end_call,
    function,
    update,
    create_user,
    rho_update,
    user_connected,
    user_disconnected,
    iota_connected,
    iota_disconnected,
    sync_client_iota_status,
    get_user_data,
    get_iota_data,
    iota_user_data,
    change_user_data,
    change_iota_data,
    get_register,
    complete_register_user,
    complete_register_iota,
    delete_user,
    delete_iota,
    start_register,
    complete_register,
}

impl CommunicationType {
    /// Position of the variant in the declaration order (its wire byte).
    pub open spec fn code(self) -> u8 {
        match self {
            CommunicationType::error => 0,
            CommunicationType::error_protocol => 1,
            CommunicationType::error_anonymous => 2,
            CommunicationType::error_internal => 3,
            CommunicationType::error_invalid_data => 4,
            CommunicationType::error_invalid_user_id => 5,
            CommunicationType::error_invalid_omikron_id => 6,
            CommunicationType::error_not_found => 7,
            CommunicationType::error_not_authenticated => 8,
            CommunicationType::error_no_iota => 9,
            CommunicationType::error_invalid_challenge => 10,
            CommunicationType::error_invalid_secret => 11,
            CommunicationType::error_invalid_private_key => 12,
            CommunicationType::error_invalid_public_key => 13,
            CommunicationType::error_no_user_id => 14,
            CommunicationType::error_no_call_id => 15,
            CommunicationType::error_invalid_call_id => 16,
            CommunicationType::success => 17,
            CommunicationType::shorten_link => 18,
            CommunicationType::settings_save => 19,
            CommunicationType::settings_load => 20,
            CommunicationType::settings_list => 21,
            CommunicationType::message => 22,
            CommunicationType::message_state => 23,
            CommunicationType::message_send => 24,
            CommunicationType::message_live => 25,
            CommunicationType::message_other_iota => 26,
            CommunicationType::message_chunk => 27,
            CommunicationType::messages_get => 28,
            CommunicationType::push_notification => 29,
            CommunicationType::read_notification => 30,
            CommunicationType::get_notifications => 31,
            CommunicationType::change_confirm => 32,
            CommunicationType::confirm_receive => 33,
            CommunicationType::confirm_read => 34,
            CommunicationType::get_chats => 35,
            CommunicationType::get_states => 36,
            CommunicationType::add_community => 37,
            CommunicationType::remove_community => 38,
            CommunicationType::get_communities => 39,
            CommunicationType::challenge => 40,
            CommunicationType::challenge_response => 41,
            CommunicationType::register => 42,
            CommunicationType::register_response => 43,
            CommunicationType::identification => 44,
            CommunicationType::identification_response => 45,
            CommunicationType::register_iota => 46,
            CommunicationType::register_iota_success => 47,
            CommunicationType::ping => 48,
            CommunicationType::pong => 49,
            CommunicationType::add_conversation => 50,
            CommunicationType::send_chat => 51,
            CommunicationType::client_changed => 52,
            CommunicationType::client_connected => 53,
            CommunicationType::client_disconnected => 54,
            CommunicationType::client_closed => 55,
            CommunicationType::public_key => 56,
            CommunicationType::private_key => 57,
            CommunicationType::webrtc_sdp => 58,
            CommunicationType::webrtc_ice => 59,
            CommunicationType::start_stream => 60,
            CommunicationType::end_stream => 61,
            CommunicationType::watch_stream => 62,
            CommunicationType::call_token => 63,
            CommunicationType::call_invite => 64,
            CommunicationType::call_disconnect_user => 65,
            CommunicationType::call_timeout_user => 66,
            CommunicationType::call_set_anonymous_joining => 67,
            CommunicationType::end_call => 68,
            CommunicationType::function => 69,
            CommunicationType::update => 70,
            CommunicationType::create_user => 71,
            CommunicationType::rho_update => 72,
            CommunicationType::user_connected => 73,
            CommunicationType::user_disconnected => 74,
            CommunicationType::iota_connected => 75,
            CommunicationType::iota_disconnected => 76,
            CommunicationType::sync_client_iota_status => 77,
            CommunicationType::get_user_data => 78,
            CommunicationType::get_iota_data => 79,
            CommunicationType::iota_user_data => 80,
            CommunicationType::change_user_data => 81,
            CommunicationType::change_iota_data => 82,
            CommunicationType::get_register => 83,
            CommunicationType::complete_register_user => 84,
            CommunicationType::complete_register_iota => 85,
            CommunicationType::delete_user => 86,
            CommunicationType::delete_iota => 87,
            CommunicationType::start_register => 88,
            CommunicationType::complete_register => 89,
        }
    }

    /// Variant at the given position; `error_protocol` past the end of the list.
    pub open spec fn of_code(n: u8) -> CommunicationType {
        match n {
            0 => CommunicationType::error,
            1 => CommunicationType::error_protocol,
            2 => CommunicationType::error_anonymous,
            3 => CommunicationType::error_internal,
            4 => CommunicationType::error_invalid_data,
            5 => CommunicationType::error_invalid_user_id,
            6 => CommunicationType::error_invalid_omikron_id,
            7 => CommunicationType::error_not_found,
            8 => CommunicationType::error_not_authenticated,
            9 => CommunicationType::error_no_iota,
            10 => CommunicationType::error_invalid_challenge,
            11 => CommunicationType::error_invalid_secret,
            12 => CommunicationType::error_invalid_private_key,
            13 => CommunicationType::error_invalid_public_key,
            14 => CommunicationType::error_no_user_id,
            15 => CommunicationType::error_no_call_id,
            16 => CommunicationType::error_invalid_call_id,
            17 => CommunicationType::success,
            18 => CommunicationType::shorten_link,
            19 => CommunicationType::settings_save,
            20 => CommunicationType::settings_load,
            21 => CommunicationType::settings_list,
            22 => CommunicationType::message,
            23 => CommunicationType::message_state,
            24 => CommunicationType::message_send,
            25 => CommunicationType::message_live,
            26 => CommunicationType::message_other_iota,
            27 => CommunicationType::message_chunk,
            28 => CommunicationType::messages_get,
            29 => CommunicationType::push_notification,
            30 => CommunicationType::read_notification,
            31 => CommunicationType::get_notifications,
            32 => CommunicationType::change_confirm,
            33 => CommunicationType::confirm_receive,
            34 => CommunicationType::confirm_read,
            35 => CommunicationType::get_chats,
            36 => CommunicationType::get_states,
            37 => CommunicationType::add_community,
            38 => CommunicationType::remove_community,
            39 => CommunicationType::get_communities,
            40 => CommunicationType::challenge,
            41 => CommunicationType::challenge_response,
            42 => CommunicationType::register,
            43 => CommunicationType::register_response,
            44 => CommunicationType::identification,
            45 => CommunicationType::identification_response,
            46 => CommunicationType::register_iota,
            47 => CommunicationType::register_iota_success,
            48 => CommunicationType::ping,
            49 => CommunicationType::pong,
            50 => CommunicationType::add_conversation,
            51 => CommunicationType::send_chat,
            52 => CommunicationType::client_changed,
            53 => CommunicationType::client_connected,
            54 => CommunicationType::client_disconnected,
            55 => CommunicationType::client_closed,
            56 => CommunicationType::public_key,
            57 => CommunicationType::private_key,
            58 => CommunicationType::webrtc_sdp,
            59 => CommunicationType::webrtc_ice,
            60 => CommunicationType::start_stream,
            61 => CommunicationType::end_stream,
            62 => CommunicationType::watch_stream,
            63 => CommunicationType::call_token,
            64 => CommunicationType::call_invite,
            65 => CommunicationType::call_disconnect_user,
            66 => CommunicationType::call_timeout_user,
            67 => CommunicationType::call_set_anonymous_joining,
            68 => CommunicationType::end_call,
            69 => CommunicationType::function,
            70 => CommunicationType::update,
            71 => CommunicationType::create_user,
            72 => CommunicationType::rho_update,
            73 => CommunicationType::user_connected,
            74 => CommunicationType::user_disconnected,
            75 => CommunicationType::iota_connected,
            76 => CommunicationType::iota_disconnected,
            77 => CommunicationType::sync_client_iota_status,
            78 => CommunicationType::get_user_data,
            79 => CommunicationType::get_iota_data,
            80 => CommunicationType::iota_user_data,
            81 => CommunicationType::change_user_data,
            82 => CommunicationType::change_iota_data,
            83 => CommunicationType::get_register,
            84 => CommunicationType::complete_register_user,
            85 => CommunicationType::complete_register_iota,
            86 => CommunicationType::delete_user,
            87 => CommunicationType::delete_iota,
            88 => CommunicationType::start_register,
            89 => CommunicationType::complete_register,
            _ => CommunicationType::error_protocol,
        }
    }

    /// Name of the variant as written in its declaration.
    pub open spec fn name(self) -> Seq<char> {
        match self {
            CommunicationType::error => "error"@,
            CommunicationType::error_protocol => "error_protocol"@,
            CommunicationType::error_anonymous => "error_anonymous"@,
            CommunicationType::error_internal => "error_internal"@,
            CommunicationType::error_invalid_data => "error_invalid_data"@,
            CommunicationType::error_invalid_user_id => "error_invalid_user_id"@,
            CommunicationType::error_invalid_omikron_id => "error_invalid_omikron_id"@,
            CommunicationType::error_not_found => "error_not_found"@,
            CommunicationType::error_not_authenticated => "error_not_authenticated"@,
            CommunicationType::error_no_iota => "error_no_iota"@,
            CommunicationType::error_invalid_challenge => "error_invalid_challenge"@,
            CommunicationType::error_invalid_secret => "error_invalid_secret"@,
            CommunicationType::error_invalid_private_key => "error_invalid_private_key"@,
            CommunicationType::error_invalid_public_key => "error_invalid_public_key"@,
            CommunicationType::error_no_user_id => "error_no_user_id"@,
            CommunicationType::error_no_call_id => "error_no_call_id"@,
            CommunicationType::error_invalid_call_id => "error_invalid_call_id"@,
            CommunicationType::success => "success"@,
            CommunicationType::shorten_link => "shorten_link"@,
            CommunicationType::settings_save => "settings_save"@,
            CommunicationType::settings_load => "settings_load"@,
            CommunicationType::settings_list => "settings_list"@,
            CommunicationType::message => "message"@,
            CommunicationType::message_state => "message_state"@,
            CommunicationType::message_send => "message_send"@,
            CommunicationType::message_live => "message_live"@,
            CommunicationType::message_other_iota => "message_other_iota"@,
            CommunicationType::message_chunk => "message_chunk"@,
            CommunicationType::messages_get => "messages_get"@,
            CommunicationType::push_notification => "push_notification"@,
            CommunicationType::read_notification => "read_notification"@,
            CommunicationType::get_notifications => "get_notifications"@,
            CommunicationType::change_confirm => "change_confirm"@,
            CommunicationType::confirm_receive => "confirm_receive"@,
            CommunicationType::confirm_read => "confirm_read"@,
            CommunicationType::get_chats => "get_chats"@,
            CommunicationType::get_states => "get_states"@,
            CommunicationType::add_community => "add_community"@,
            CommunicationType::remove_community => "remove_community"@,
            CommunicationType::get_communities => "get_communities"@,
            CommunicationType::challenge => "challenge"@,
            CommunicationType::challenge_response => "challenge_response"@,
            CommunicationType::register => "register"@,
            CommunicationType::register_response => "register_response"@,
            CommunicationType::identification => "identification"@,
            CommunicationType::identification_response => "identification_response"@,
            CommunicationType::register_iota => "register_iota"@,
            CommunicationType::register_iota_success => "register_iota_success"@,
            CommunicationType::ping => "ping"@,
            CommunicationType::pong => "pong"@,
            CommunicationType::add_conversation => "add_conversation"@,
            CommunicationType::send_chat => "send_chat"@,
            CommunicationType::client_changed => "client_changed"@,
            CommunicationType::client_connected => "client_connected"@,
            CommunicationType::client_disconnected => "client_disconnected"@,
            CommunicationType::client_closed => "client_closed"@,
            CommunicationType::public_key => "public_key"@,
            CommunicationType::private_key => "private_key"@,
            CommunicationType::webrtc_sdp => "webrtc_sdp"@,
            CommunicationType::webrtc_ice => "webrtc_ice"@,
            CommunicationType::start_stream => "start_stream"@,
            CommunicationType::end_stream => "end_stream"@,
            CommunicationType::watch_stream => "watch_stream"@,
            CommunicationType::call_token => "call_token"@,
            CommunicationType::call_invite => "call_invite"@,
            CommunicationType::call_disconnect_user => "call_disconnect_user"@,
            CommunicationType::call_timeout_user => "call_timeout_user"@,
            CommunicationType::call_set_anonymous_joining => "call_set_anonymous_joining"@,
            CommunicationType::end_call => "end_call"@,
            CommunicationType::function => "function"@,
            CommunicationType::update => "update"@,
            CommunicationType::create_user => "create_user"@,
            CommunicationType::rho_update => "rho_update"@,
            CommunicationType::user_connected => "user_connected"@,
            CommunicationType::user_disconnected => "user_disconnected"@,
            CommunicationType::iota_connected => "iota_connected"@,
            CommunicationType::iota_disconnected => "iota_disconnected"@,
            CommunicationType::sync_client_iota_status => "sync_client_iota_status"@,
            CommunicationType::get_user_data => "get_user_data"@,
            CommunicationType::get_iota_data => "get_iota_data"@,
            CommunicationType::iota_user_data => "iota_user_data"@,
            CommunicationType::change_user_data => "change_user_data"@,
            CommunicationType::change_iota_data => "change_iota_data"@,
            CommunicationType::get_register => "get_register"@,
            CommunicationType::complete_register_user => "complete_register_user"@,
            CommunicationType::complete_register_iota => "complete_register_iota"@,
            CommunicationType::delete_user => "delete_user"@,
            CommunicationType::delete_iota => "delete_iota"@,
            CommunicationType::start_register => "start_register"@,
            CommunicationType::complete_register => "complete_register"@,
        }
    }

    /// The variant `parse` picks for a text `s`: the first one, from position `i` on,
    /// whose normalized name equals the normalized text; `error_protocol` when none does.
    pub open spec fn first_match(s: Seq<char>, i: int) -> CommunicationType
        decreases 90 - i,
    {
        if i < 0 || i >= 90 {
            CommunicationType::error_protocol
        } else if normalized(CommunicationType::of_code(i as u8).name()) == normalized(s) {
            CommunicationType::of_code(i as u8)
        } else {
            CommunicationType::first_match(s, i + 1)
        }
    }

    /// `first_match` for ASCII text, where lowercasing is the ASCII case mapping.
    pub open spec fn first_match_ascii(s: Seq<char>, i: int) -> CommunicationType
        decreases 90 - i,
    {
        if i < 0 || i >= 90 {
            CommunicationType::error_protocol
        } else if ascii_normalized(CommunicationType::of_code(i as u8).name()) == ascii_normalized(s) {
            CommunicationType::of_code(i as u8)
        } else {
            CommunicationType::first_match_ascii(s, i + 1)
        }
    }

    /// The wire byte: the position of the variant in the declaration order.
    pub fn as_number(&self) -> (r: u8)
        ensures
            r == self.code(),
            r == *self as u8,
            r < COMMUNICATION_TYPE_COUNT,
    {
        match self {
            CommunicationType::error => 0,
            CommunicationType::error_protocol => 1,
            CommunicationType::error_anonymous => 2,
            CommunicationType::error_internal => 3,
            CommunicationType::error_invalid_data => 4,
            CommunicationType::error_invalid_user_id => 5,
            CommunicationType::error_invalid_omikron_id => 6,
            CommunicationType::error_not_found => 7,
            CommunicationType::error_not_authenticated => 8,
            CommunicationType::error_no_iota => 9,
            CommunicationType::error_invalid_challenge => 10,
            CommunicationType::error_invalid_secret => 11,
            CommunicationType::error_invalid_private_key => 12,
            CommunicationType::error_invalid_public_key => 13,
            CommunicationType::error_no_user_id => 14,
            CommunicationType::error_no_call_id => 15,
            CommunicationType::error_invalid_call_id => 16,
            CommunicationType::success => 17,
            CommunicationType::shorten_link => 18,
            CommunicationType::settings_save => 19,
            CommunicationType::settings_load => 20,
            CommunicationType::settings_list => 21,
            CommunicationType::message => 22,
            CommunicationType::message_state => 23,
            CommunicationType::message_send => 24,
            CommunicationType::message_live => 25,
            CommunicationType::message_other_iota => 26,
            CommunicationType::message_chunk => 27,
            CommunicationType::messages_get => 28,
            CommunicationType::push_notification => 29,
            CommunicationType::read_notification => 30,
            CommunicationType::get_notifications => 31,
            CommunicationType::change_confirm => 32,
            CommunicationType::confirm_receive => 33,
            CommunicationType::confirm_read => 34,
            CommunicationType::get_chats => 35,
            CommunicationType::get_states => 36,
            CommunicationType::add_community => 37,
            CommunicationType::remove_community => 38,
            CommunicationType::get_communities => 39,
            CommunicationType::challenge => 40,
            CommunicationType::challenge_response => 41,
            CommunicationType::register => 42,
            CommunicationType::register_response => 43,
            CommunicationType::identification => 44,
            CommunicationType::identification_response => 45,
            CommunicationType::register_iota => 46,
            CommunicationType::register_iota_success => 47,
            CommunicationType::ping => 48,
            CommunicationType::pong => 49,
            CommunicationType::add_conversation => 50,
            CommunicationType::send_chat => 51,
            CommunicationType::client_changed => 52,
            CommunicationType::client_connected => 53,
            CommunicationType::client_disconnected => 54,
            CommunicationType::client_closed => 55,
            CommunicationType::public_key => 56,
            CommunicationType::private_key => 57,
            CommunicationType::webrtc_sdp => 58,
            CommunicationType::webrtc_ice => 59,
            CommunicationType::start_stream => 60,
            CommunicationType::end_stream => 61,
            CommunicationType::watch_stream => 62,
            CommunicationType::call_token => 63,
            CommunicationType::call_invite => 64,
            CommunicationType::call_disconnect_user => 65,
            CommunicationType::call_timeout_user => 66,
            CommunicationType::call_set_anonymous_joining => 67,
            CommunicationType::end_call => 68,
            CommunicationType::function => 69,
            CommunicationType::update => 70,
            CommunicationType::create_user => 71,
            CommunicationType::rho_update => 72,
            CommunicationType::user_connected => 73,
            CommunicationType::user_disconnected => 74,
            CommunicationType::iota_connected => 75,
            CommunicationType::iota_disconnected => 76,
            CommunicationType::sync_client_iota_status => 77,
            CommunicationType::get_user_data => 78,
            CommunicationType::get_iota_data => 79,
            CommunicationType::iota_user_data => 80,
            CommunicationType::change_user_data => 81,
            CommunicationType::change_iota_data => 82,
            CommunicationType::get_register => 83,
            CommunicationType::complete_register_user => 84,
            CommunicationType::complete_register_iota => 85,
            CommunicationType::delete_user => 86,
            CommunicationType::delete_iota => 87,
            CommunicationType::start_register => 88,
            CommunicationType::complete_register => 89,
        }
    }

    /// The variant at the given position; `error_protocol` for a byte past the end.
    pub fn from_number(n: u8) -> (r: CommunicationType)
        ensures
            r == CommunicationType::of_code(n),
            n < COMMUNICATION_TYPE_COUNT ==> r.code() == n,
            n < COMMUNICATION_TYPE_COUNT ==> r as u8 == n,
            n >= COMMUNICATION_TYPE_COUNT ==> r == CommunicationType::error_protocol,
    {
        match n {
            0 => CommunicationType::error,
            1 => CommunicationType::error_protocol,
            2 => CommunicationType::error_anonymous,
            3 => CommunicationType::error_internal,
            4 => CommunicationType::error_invalid_data,
            5 => CommunicationType::error_invalid_user_id,
            6 => CommunicationType::error_invalid_omikron_id,
            7 => CommunicationType::error_not_found,
            8 => CommunicationType::error_not_authenticated,
            9 => CommunicationType::error_no_iota,
            10 => CommunicationType::error_invalid_challenge,
            11 => CommunicationType::error_invalid_secret,
            12 => CommunicationType::error_invalid_private_key,
            13 => CommunicationType::error_invalid_public_key,
            14 => CommunicationType::error_no_user_id,
            15 => CommunicationType::error_no_call_id,
            16 => CommunicationType::error_invalid_call_id,
            17 => CommunicationType::success,
            18 => CommunicationType::shorten_link,
            19 => CommunicationType::settings_save,
            20 => CommunicationType::settings_load,
            21 => CommunicationType::settings_list,
            22 => CommunicationType::message,
            23 => CommunicationType::message_state,
            24 => CommunicationType::message_send,
            25 => CommunicationType::message_live,
            26 => CommunicationType::message_other_iota,
            27 => CommunicationType::message_chunk,
            28 => CommunicationType::messages_get,
            29 => CommunicationType::push_notification,
            30 => CommunicationType::read_notification,
            31 => CommunicationType::get_notifications,
            32 => CommunicationType::change_confirm,
            33 => CommunicationType::confirm_receive,
            34 => CommunicationType::confirm_read,
            35 => CommunicationType::get_chats,
            36 => CommunicationType::get_states,
            37 => CommunicationType::add_community,
            38 => CommunicationType::remove_community,
            39 => CommunicationType::get_communities,
            40 => CommunicationType::challenge,
            41 => CommunicationType::challenge_response,
            42 => CommunicationType::register,
            43 => CommunicationType::register_response,
            44 => CommunicationType::identification,
            45 => CommunicationType::identification_response,
            46 => CommunicationType::register_iota,
            47 => CommunicationType::register_iota_success,
            48 => CommunicationType::ping,
            49 => CommunicationType::pong,
            50 => CommunicationType::add_conversation,
            51 => CommunicationType::send_chat,
            52 => CommunicationType::client_changed,
            53 => CommunicationType::client_connected,
            54 => CommunicationType::client_disconnected,
            55 => CommunicationType::client_closed,
            56 => CommunicationType::public_key,
            57 => CommunicationType::private_key,
            58 => CommunicationType::webrtc_sdp,
            59 => CommunicationType::webrtc_ice,
            60 => CommunicationType::start_stream,
            61 => CommunicationType::end_stream,
            62 => CommunicationType::watch_stream,
            63 => CommunicationType::call_token,
            64 => CommunicationType::call_invite,
            65 => CommunicationType::call_disconnect_user,
            66 => CommunicationType::call_timeout_user,
            67 => CommunicationType::call_set_anonymous_joining,
            68 => CommunicationType::end_call,
            69 => CommunicationType::function,
            70 => CommunicationType::update,
            71 => CommunicationType::create_user,
            72 => CommunicationType::rho_update,
            73 => CommunicationType::user_connected,
            74 => CommunicationType::user_disconnected,
            75 => CommunicationType::iota_connected,
            76 => CommunicationType::iota_disconnected,
            77 => CommunicationType::sync_client_iota_status,
            78 => CommunicationType::get_user_data,
            79 => CommunicationType::get_iota_data,
            80 => CommunicationType::iota_user_data,
            81 => CommunicationType::change_user_data,
            82 => CommunicationType::change_iota_data,
            83 => CommunicationType::get_register,
            84 => CommunicationType::complete_register_user,
            85 => CommunicationType::complete_register_iota,
            86 => CommunicationType::delete_user,
            87 => CommunicationType::delete_iota,
            88 => CommunicationType::start_register,
            89 => CommunicationType::complete_register,
            _ => CommunicationType::error_protocol,
        }
    }

    /// The first type (in declaration order) whose name, lowercased and without
    /// underscores, equals `p0` lowercased and without underscores; `error_protocol`
    /// when there is none.
    pub fn parse(p0: String) -> (r: CommunicationType)
        ensures
            r == CommunicationType::first_match(p0@, 0),
            is_ascii_text(p0@) ==> r == CommunicationType::first_match_ascii(p0@, 0),
    {
        let key = normalized_key(p0.as_str());
        let mut i: u8 = 0;
        while i < COMMUNICATION_TYPE_COUNT
            invariant
                i <= COMMUNICATION_TYPE_COUNT,
                key@ == normalized(p0@),
                CommunicationType::first_match(p0@, 0) == CommunicationType::first_match(p0@, i as int),
                is_ascii_text(p0@) ==> key@ == ascii_normalized(p0@),
                is_ascii_text(p0@) ==> CommunicationType::first_match_ascii(p0@, 0)
                    == CommunicationType::first_match_ascii(p0@, i as int),
            decreases COMMUNICATION_TYPE_COUNT - i,
        {
            let candidate = CommunicationType::from_number(i);
            let name = candidate.to_string();
            proof {
                crate::communication_type_names::lemma_name_facts(candidate);
            }
            if same_chars(&normalized_key(name.as_str()), &key) {
                return candidate;
            }
            i += 1;
        }
        CommunicationType::error_protocol
    }

    /// Name of the variant, as declared.
    pub fn to_string(&self) -> (r: String)
        ensures
            r@ == self.name(),
    {
        match self {
            CommunicationType::error => "error".to_string(),
            CommunicationType::error_protocol => "error_protocol".to_string(),
            CommunicationType::error_anonymous => "error_anonymous".to_string(),
            CommunicationType::error_internal => "error_internal".to_string(),
            CommunicationType::error_invalid_data => "error_invalid_data".to_string(),
            CommunicationType::error_invalid_user_id => "error_invalid_user_id".to_string(),
            CommunicationType::error_invalid_omikron_id => "error_invalid_omikron_id".to_string(),
            CommunicationType::error_not_found => "error_not_found".to_string(),
            CommunicationType::error_not_authenticated => "error_not_authenticated".to_string(),
            CommunicationType::error_no_iota => "error_no_iota".to_string(),
            CommunicationType::error_invalid_challenge => "error_invalid_challenge".to_string(),
            CommunicationType::error_invalid_secret => "error_invalid_secret".to_string(),
            CommunicationType::error_invalid_private_key => "error_invalid_private_key".to_string(),
            CommunicationType::error_invalid_public_key => "error_invalid_public_key".to_string(),
            CommunicationType::error_no_user_id => "error_no_user_id".to_string(),
            CommunicationType::error_no_call_id => "error_no_call_id".to_string(),
            CommunicationType::error_invalid_call_id => "error_invalid_call_id".to_string(),
            CommunicationType::success => "success".to_string(),
            CommunicationType::shorten_link => "shorten_link".to_string(),
            CommunicationType::settings_save => "settings_save".to_string(),
            CommunicationType::settings_load => "settings_load".to_string(),
            CommunicationType::settings_list => "settings_list".to_string(),
            CommunicationType::message => "message".to_string(),
            CommunicationType::message_state => "message_state".to_string(),
            CommunicationType::message_send => "message_send".to_string(),
            CommunicationType::message_live => "message_live".to_string(),
            CommunicationType::message_other_iota => "message_other_iota".to_string(),
            CommunicationType::message_chunk => "message_chunk".to_string(),
            CommunicationType::messages_get => "messages_get".to_string(),
            CommunicationType::push_notification => "push_notification".to_string(),
            CommunicationType::read_notification => "read_notification".to_string(),
            CommunicationType::get_notifications => "get_notifications".to_string(),
            CommunicationType::change_confirm => "change_confirm".to_string(),
            CommunicationType::confirm_receive => "confirm_receive".to_string(),
            CommunicationType::confirm_read => "confirm_read".to_string(),
            CommunicationType::get_chats => "get_chats".to_string(),
            CommunicationType::get_states => "get_states".to_string(),
            CommunicationType::add_community => "add_community".to_string(),
            CommunicationType::remove_community => "remove_community".to_string(),
            CommunicationType::get_communities => "get_communities".to_string(),
            CommunicationType::challenge => "challenge".to_string(),
            CommunicationType::challenge_response => "challenge_response".to_string(),
            CommunicationType::register => "register".to_string(),
            CommunicationType::register_response => "register_response".to_string(),
            CommunicationType::identification => "identification".to_string(),
            CommunicationType::identification_response => "identification_response".to_string(),
            CommunicationType::register_iota => "register_iota".to_string(),
            CommunicationType::register_iota_success => "register_iota_success".to_string(),
            CommunicationType::ping => "ping".to_string(),
            CommunicationType::pong => "pong".to_string(),
            CommunicationType::add_conversation => "add_conversation".to_string(),
            CommunicationType::send_chat => "send_chat".to_string(),
            CommunicationType::client_changed => "client_changed".to_string(),
            CommunicationType::client_connected => "client_connected".to_string(),
            CommunicationType::client_disconnected => "client_disconnected".to_string(),
            CommunicationType::client_closed => "client_closed".to_string(),
            CommunicationType::public_key => "public_key".to_string(),
            CommunicationType::private_key => "private_key".to_string(),
            CommunicationType::webrtc_sdp => "webrtc_sdp".to_string(),
            CommunicationType::webrtc_ice => "webrtc_ice".to_string(),
            CommunicationType::start_stream => "start_stream".to_string(),
            CommunicationType::end_stream => "end_stream".to_string(),
            CommunicationType::watch_stream => "watch_stream".to_string(),
            CommunicationType::call_token => "call_token".to_string(),
            CommunicationType::call_invite => "call_invite".to_string(),
            CommunicationType::call_disconnect_user => "call_disconnect_user".to_string(),
            CommunicationType::call_timeout_user => "call_timeout_user".to_string(),
            CommunicationType::call_set_anonymous_joining => "call_set_anonymous_joining".to_string(),
            CommunicationType::end_call => "end_call".to_string(),
            CommunicationType::function => "function".to_string(),
            CommunicationType::update => "update".to_string(),
            CommunicationType::create_user => "create_user".to_string(),
            CommunicationType::rho_update => "rho_update".to_string(),
            CommunicationType::user_connected => "user_connected".to_string(),
            CommunicationType::user_disconnected => "user_disconnected".to_string(),
            CommunicationType::iota_connected => "iota_connected".to_string(),
            CommunicationType::iota_disconnected => "iota_disconnected".to_string(),
            CommunicationType::sync_client_iota_status => "sync_client_iota_status".to_string(),
            CommunicationType::get_user_data => "get_user_data".to_string(),
            CommunicationType::get_iota_data => "get_iota_data".to_string(),
            CommunicationType::iota_user_data => "iota_user_data".to_string(),
            CommunicationType::change_user_data => "change_user_data".to_string(),
            CommunicationType::change_iota_data => "change_iota_data".to_string(),
            CommunicationType::get_register => "get_register".to_string(),
            CommunicationType::complete_register_user => "complete_register_user".to_string(),
            CommunicationType::complete_register_iota => "complete_register_iota".to_string(),
            CommunicationType::delete_user => "delete_user".to_string(),
            CommunicationType::delete_iota => "delete_iota".to_string(),
            CommunicationType::start_register => "start_register".to_string(),
            CommunicationType::complete_register => "complete_register".to_string(),
        }
    }

    /// Every variant, in declaration order.
    pub fn iter() -> (r: Vec<CommunicationType>)
        ensures
            r@.len() == COMMUNICATION_TYPE_COUNT as int,
            forall|i: int| 0 <= i < r@.len() ==> #[trigger] r@[i] == CommunicationType::of_code(i as u8),
    {
        let mut v: Vec<CommunicationType> = Vec::new();
        let mut i: u8 = 0;
        while i < COMMUNICATION_TYPE_COUNT
            invariant
                i <= COMMUNICATION_TYPE_COUNT,
                v@.len() == i as int,
                forall|j: int| 0 <= j < v@.len() ==> #[trigger] v@[j] == CommunicationType::of_code(j as u8),
            decreases COMMUNICATION_TYPE_COUNT - i,
        {
            v.push(CommunicationType::from_number(i));
            i += 1;
        }
        v
    }

}

/// Every communication type survives the trip through its wire byte: `from_number(as_number(t)) == t`;
/// every byte below the count names the variant at that position, and every byte past it
/// reads as `error_protocol`.
pub proof fn lemma_communication_type_code_roundtrip(t: CommunicationType, n: u8)
    ensures
        CommunicationType::of_code(t.code()) == t,
        n < COMMUNICATION_TYPE_COUNT ==> CommunicationType::of_code(n).code() == n,
        n >= COMMUNICATION_TYPE_COUNT ==> CommunicationType::of_code(n) == CommunicationType::error_protocol,
{
}


/// The wire byte of every communication type is its position in the declaration, the discriminant
/// Rust gives the variant (`t as u8`); and the byte at a position below the count reads
/// back as the variant declared there.
pub proof fn lemma_communication_type_code_is_position(t: CommunicationType, n: u8)
    ensures
        t.code() == t as u8,
        n < COMMUNICATION_TYPE_COUNT ==> CommunicationType::of_code(n) as u8 == n,
{
}

} // verus!
