use vstd::prelude::*;

use crate::communication_types::CommunicationType;
use crate::names::{ascii_normalized, is_ascii_text, lemma_name_number, name_number};

verus! {

impl CommunicationType {
    /// `name_number` of the variant's name, written out.
    pub open spec fn name_key(self) -> int {
        match self {
            CommunicationType::error => 3025044,
            CommunicationType::error_protocol => 854361949320010488,
            CommunicationType::error_anonymous => 23067768353275241209,
            CommunicationType::error_internal => 854361874611695721,
            CommunicationType::error_invalid_data => 16816404778502629707253,
            CommunicationType::error_invalid_user_id => 12259159083528417309802189,
            CommunicationType::error_invalid_omikron_id => 241297028241089836152951397525,
            CommunicationType::error_not_found => 854361927301360063,
            CommunicationType::error_not_authenticated => 241297043114019571772925951256,
            CommunicationType::error_no_iota => 1171964234771452,
            CommunicationType::error_invalid_challenge => 241297028241089832708406793204,
            CommunicationType::error_invalid_secret => 12259159083528417273624743,
            CommunicationType::error_invalid_private_key => 6515019762509425585171453076095,
            CommunicationType::error_invalid_public_key => 241297028241089836516361143675,
            CommunicationType::error_no_user_id => 854361927322418551,
            CommunicationType::error_no_call_id => 854361927054705694,
            CommunicationType::error_invalid_call_id => 12259159083528417042089332,
            CommunicationType::success => 7663973887,
            CommunicationType::shorten_link => 3977368846920731,
            CommunicationType::settings_save => 106809866643438248,
            CommunicationType::settings_load => 106809866643310105,
            CommunicationType::settings_list => 106809866643306233,
            CommunicationType::message => 5118683171,
            CommunicationType::message_state => 73447508793636410,
            CommunicationType::message_send => 2720278103457415,
            CommunicationType::message_live => 2720278103322767,
            CommunicationType::message_other_iota => 39033017519671713028060,
            CommunicationType::message_chunk => 73447508784911582,
            CommunicationType::messages_get => 2720278103458646,
            CommunicationType::push_notification => 49645082451899856871265,
            CommunicationType::read_notification => 53729457667601796951917,
            CommunicationType::get_notifications => 21310523893619360615674,
            CommunicationType::change_confirm => 495071070613907800,
            CommunicationType::confirm_receive => 14488221040376887247,
            CommunicationType::confirm_read => 736077886520134,
            CommunicationType::get_chats => 75448306081,
            CommunicationType::get_states => 2037340223632,
            CommunicationType::add_community => 6414136913226652,
            CommunicationType::remove_community => 1991843765041998528313,
            CommunicationType::get_communities => 29230276332217962889,
            CommunicationType::challenge => 931537528547,
            CommunicationType::challenge_response => 263093712402376020321464,
            CommunicationType::register => 190329074127,
            CommunicationType::register_response => 53754552184737004625444,
            CommunicationType::identification => 37104207817149296078,
            CommunicationType::identification_response => 10479324215292172494275476119875,
            CommunicationType::register_iota => 101148673483315630,
            CommunicationType::register_iota_success => 1058050850650401824994436777,
            CommunicationType::ping => 321874,
            CommunicationType::pong => 326248,
            CommunicationType::add_conversation => 126249466864820835596,
            CommunicationType::send_chat => 200886888692,
            CommunicationType::client_changed => 518887945364380177,
            CommunicationType::client_connected => 378269312248890997366,
            CommunicationType::client_disconnected => 7445474877353765316725254,
            CommunicationType::client_closed => 19218072052937515,
            CommunicationType::public_key => 4739491879018,
            CommunicationType::private_key => 127195982930356,
            CommunicationType::webrtc_sdp => 6549224928226,
            CommunicationType::webrtc_ice => 6549224920898,
            CommunicationType::start_stream => 4064922207418018,
            CommunicationType::end_stream => 1560425925235,
            CommunicationType::watch_stream => 4748804990431087,
            CommunicationType::call_token => 862581127631,
            CommunicationType::call_invite => 23289532296215,
            CommunicationType::call_disconnect_user => 6577630780082374283161581,
            CommunicationType::call_timeout_user => 334181557080947398302,
            CommunicationType::call_set_anonymous_joining => 94382676048771198658730395187863,
            CommunicationType::end_call => 2140173021,
            CommunicationType::function => 71100829148,
            CommunicationType::update => 309910109,
            CommunicationType::create_user => 28013503360815,
            CommunicationType::rho_update => 5173535699726,
            CommunicationType::user_connected => 3258777218238149494,
            CommunicationType::user_disconnected => 64142516345425312060678,
            CommunicationType::iota_connected => 1438364084232112906,
            CommunicationType::iota_disconnected => 28311324628784493899074,
            CommunicationType::sync_client_iota_status => 31314959735719317071264899759,
            CommunicationType::get_user_data => 1485241612614127,
            CommunicationType::get_iota_data => 1485114744892843,
            CommunicationType::iota_user_data => 53272933569452692,
            CommunicationType::change_user_data => 13366919096288676721,
            CommunicationType::change_iota_data => 13366918969420955437,
            CommunicationType::get_register => 1485204831891225,
            CommunicationType::complete_register_user => 5611685117651207119311564771,
            CommunicationType::complete_register_iota => 5611685117651207119311326047,
            CommunicationType::delete_user => 32042289025926,
            CommunicationType::delete_iota => 32042288787202,
            CommunicationType::start_register => 2963328272780721921,
            CommunicationType::complete_register => 10559375580076070757264,
        }
    }

    /// The variant whose `name_key` is `n`; `error_protocol` for any other number.
    pub open spec fn of_name_key(n: int) -> CommunicationType {
        if n == 3025044 {
            CommunicationType::error
        } else if n == 854361949320010488 {
            CommunicationType::error_protocol
        } else if n == 23067768353275241209 {
            CommunicationType::error_anonymous
        } else if n == 854361874611695721 {
            CommunicationType::error_internal
        } else if n == 16816404778502629707253 {
            CommunicationType::error_invalid_data
        } else if n == 12259159083528417309802189 {
            CommunicationType::error_invalid_user_id
        } else if n == 241297028241089836152951397525 {
            CommunicationType::error_invalid_omikron_id
        } else if n == 854361927301360063 {
            CommunicationType::error_not_found
        } else if n == 241297043114019571772925951256 {
            CommunicationType::error_not_authenticated
        } else if n == 1171964234771452 {
            CommunicationType::error_no_iota
        } else if n == 241297028241089832708406793204 {
            CommunicationType::error_invalid_challenge
        } else if n == 12259159083528417273624743 {
            CommunicationType::error_invalid_secret
        } else if n == 6515019762509425585171453076095 {
            CommunicationType::error_invalid_private_key
        } else if n == 241297028241089836516361143675 {
            CommunicationType::error_invalid_public_key
        } else if n == 854361927322418551 {
            CommunicationType::error_no_user_id
        } else if n == 854361927054705694 {
            CommunicationType::error_no_call_id
        } else if n == 12259159083528417042089332 {
            CommunicationType::error_invalid_call_id
        } else if n == 7663973887 {
            CommunicationType::success
        } else if n == 3977368846920731 {
            CommunicationType::shorten_link
        } else if n == 106809866643438248 {
            CommunicationType::settings_save
        } else if n == 106809866643310105 {
            CommunicationType::settings_load
        } else if n == 106809866643306233 {
            CommunicationType::settings_list
        } else if n == 5118683171 {
            CommunicationType::message
        } else if n == 73447508793636410 {
            CommunicationType::message_state
        } else if n == 2720278103457415 {
            CommunicationType::message_send
        } else if n == 2720278103322767 {
            CommunicationType::message_live
        } else if n == 39033017519671713028060 {
            CommunicationType::message_other_iota
        } else if n == 73447508784911582 {
            CommunicationType::message_chunk
        } else if n == 2720278103458646 {
            CommunicationType::messages_get
        } else if n == 49645082451899856871265 {
            CommunicationType::push_notification
        } else if n == 53729457667601796951917 {
            CommunicationType::read_notification
        } else if n == 21310523893619360615674 {
            CommunicationType::get_notifications
        } else if n == 495071070613907800 {
            CommunicationType::change_confirm
        } else if n == 14488221040376887247 {
            CommunicationType::confirm_receive
        } else if n == 736077886520134 {
            CommunicationType::confirm_read
        } else if n == 75448306081 {
            CommunicationType::get_chats
        } else if n == 2037340223632 {
            CommunicationType::get_states
        } else if n == 6414136913226652 {
            CommunicationType::add_community
        } else if n == 1991843765041998528313 {
            CommunicationType::remove_community
        } else if n == 29230276332217962889 {
            CommunicationType::get_communities
        } else if n == 931537528547 {
            CommunicationType::challenge
        } else if n == 263093712402376020321464 {
            CommunicationType::challenge_response
        } else if n == 190329074127 {
            CommunicationType::register
        } else if n == 53754552184737004625444 {
            CommunicationType::register_response
        } else if n == 37104207817149296078 {
            CommunicationType::identification
        } else if n == 10479324215292172494275476119875 {
            CommunicationType::identification_response
        } else if n == 101148673483315630 {
            CommunicationType::register_iota
        } else if n == 1058050850650401824994436777 {
            CommunicationType::register_iota_success
        } else if n == 321874 {
            CommunicationType::ping
        } else if n == 326248 {
            CommunicationType::pong
        } else if n == 126249466864820835596 {
            CommunicationType::add_conversation
        } else if n == 200886888692 {
            CommunicationType::send_chat
        } else if n == 518887945364380177 {
            CommunicationType::client_changed
        } else if n == 378269312248890997366 {
            CommunicationType::client_connected
        } else if n == 7445474877353765316725254 {
            CommunicationType::client_disconnected
        } else if n == 19218072052937515 {
            CommunicationType::client_closed
        } else if n == 4739491879018 {
            CommunicationType::public_key
        } else if n == 127195982930356 {
            CommunicationType::private_key
        } else if n == 6549224928226 {
            CommunicationType::webrtc_sdp
        } else if n == 6549224920898 {
            CommunicationType::webrtc_ice
        } else if n == 4064922207418018 {
            CommunicationType::start_stream
        } else if n == 1560425925235 {
            CommunicationType::end_stream
        } else if n == 4748804990431087 {
            CommunicationType::watch_stream
        } else if n == 862581127631 {
            CommunicationType::call_token
        } else if n == 23289532296215 {
            CommunicationType::call_invite
        } else if n == 6577630780082374283161581 {
            CommunicationType::call_disconnect_user
        } else if n == 334181557080947398302 {
            CommunicationType::call_timeout_user
        } else if n == 94382676048771198658730395187863 {
            CommunicationType::call_set_anonymous_joining
        } else if n == 2140173021 {
            CommunicationType::end_call
        } else if n == 71100829148 {
            CommunicationType::function
        } else if n == 309910109 {
            CommunicationType::update
        } else if n == 28013503360815 {
            CommunicationType::create_user
        } else if n == 5173535699726 {
            CommunicationType::rho_update
        } else if n == 3258777218238149494 {
            CommunicationType::user_connected
        } else if n == 64142516345425312060678 {
            CommunicationType::user_disconnected
        } else if n == 1438364084232112906 {
            CommunicationType::iota_connected
        } else if n == 28311324628784493899074 {
            CommunicationType::iota_disconnected
        } else if n == 31314959735719317071264899759 {
            CommunicationType::sync_client_iota_status
        } else if n == 1485241612614127 {
            CommunicationType::get_user_data
        } else if n == 1485114744892843 {
            CommunicationType::get_iota_data
        } else if n == 53272933569452692 {
            CommunicationType::iota_user_data
        } else if n == 13366919096288676721 {
            CommunicationType::change_user_data
        } else if n == 13366918969420955437 {
            CommunicationType::change_iota_data
        } else if n == 1485204831891225 {
            CommunicationType::get_register
        } else if n == 5611685117651207119311564771 {
            CommunicationType::complete_register_user
        } else if n == 5611685117651207119311326047 {
            CommunicationType::complete_register_iota
        } else if n == 32042289025926 {
            CommunicationType::delete_user
        } else if n == 32042288787202 {
            CommunicationType::delete_iota
        } else if n == 2963328272780721921 {
            CommunicationType::start_register
        } else if n == 10559375580076070757264 {
            CommunicationType::complete_register
        } else {
            CommunicationType::error_protocol
        }
    }
}

// One lemma per variant: the name's characters are revealed and its number computed.
proof fn name_key_error()
    ensures
        is_ascii_text(CommunicationType::error.name()),
        name_number(CommunicationType::error.name()) == CommunicationType::error.name_key(),
{
    reveal_strlit("error");
    reveal_with_fuel(name_number, 7);
}

proof fn name_key_error_protocol()
    ensures
        is_ascii_text(CommunicationType::error_protocol.name()),
        name_number(CommunicationType::error_protocol.name()) == CommunicationType::error_protocol.name_key(),
{
    reveal_strlit("error_protocol");
    reveal_with_fuel(name_number, 16);
}

proof fn name_key_error_anonymous()
    ensures
        is_ascii_text(CommunicationType::error_anonymous.name()),
        name_number(CommunicationType::error_anonymous.name()) == CommunicationType::error_anonymous.name_key(),
{
    reveal_strlit("error_anonymous");
    reveal_with_fuel(name_number, 17);
}

proof fn name_key_error_internal()
    ensures
        is_ascii_text(CommunicationType::error_internal.name()),
        name_number(CommunicationType::error_internal.name()) == CommunicationType::error_internal.name_key(),
{
    reveal_strlit("error_internal");
    reveal_with_fuel(name_number, 16);
}

proof fn name_key_error_invalid_data()
    ensures
        is_ascii_text(CommunicationType::error_invalid_data.name()),
        name_number(CommunicationType::error_invalid_data.name()) == CommunicationType::error_invalid_data.name_key(),
{
    reveal_strlit("error_invalid_data");
    reveal_with_fuel(name_number, 20);
}

proof fn name_key_error_invalid_user_id()
    ensures
        is_ascii_text(CommunicationType::error_invalid_user_id.name()),
        name_number(CommunicationType::error_invalid_user_id.name()) == CommunicationType::error_invalid_user_id.name_key(),
{
    reveal_strlit("error_invalid_user_id");
    reveal_with_fuel(name_number, 23);
}

proof fn name_key_error_invalid_omikron_id()
    ensures
        is_ascii_text(CommunicationType::error_invalid_omikron_id.name()),
        name_number(CommunicationType::error_invalid_omikron_id.name()) == CommunicationType::error_invalid_omikron_id.name_key(),
{
    reveal_strlit("error_invalid_omikron_id");
    reveal_with_fuel(name_number, 26);
}

proof fn name_key_error_not_found()
    ensures
        is_ascii_text(CommunicationType::error_not_found.name()),
        name_number(CommunicationType::error_not_found.name()) == CommunicationType::error_not_found.name_key(),
{
    reveal_strlit("error_not_found");
    reveal_with_fuel(name_number, 17);
}

proof fn name_key_error_not_authenticated()
    ensures
        is_ascii_text(CommunicationType::error_not_authenticated.name()),
        name_number(CommunicationType::error_not_authenticated.name()) == CommunicationType::error_not_authenticated.name_key(),
{
    reveal_strlit("error_not_authenticated");
    reveal_with_fuel(name_number, 25);
}

proof fn name_key_error_no_iota()
    ensures
        is_ascii_text(CommunicationType::error_no_iota.name()),
        name_number(CommunicationType::error_no_iota.name()) == CommunicationType::error_no_iota.name_key(),
{
    reveal_strlit("error_no_iota");
    reveal_with_fuel(name_number, 15);
}

proof fn name_key_error_invalid_challenge()
    ensures
        is_ascii_text(CommunicationType::error_invalid_challenge.name()),
        name_number(CommunicationType::error_invalid_challenge.name()) == CommunicationType::error_invalid_challenge.name_key(),
{
    reveal_strlit("error_invalid_challenge");
    reveal_with_fuel(name_number, 25);
}

proof fn name_key_error_invalid_secret()
    ensures
        is_ascii_text(CommunicationType::error_invalid_secret.name()),
        name_number(CommunicationType::error_invalid_secret.name()) == CommunicationType::error_invalid_secret.name_key(),
{
    reveal_strlit("error_invalid_secret");
    reveal_with_fuel(name_number, 22);
}

proof fn name_key_error_invalid_private_key()
    ensures
        is_ascii_text(CommunicationType::error_invalid_private_key.name()),
        name_number(CommunicationType::error_invalid_private_key.name()) == CommunicationType::error_invalid_private_key.name_key(),
{
    reveal_strlit("error_invalid_private_key");
    reveal_with_fuel(name_number, 27);
}

proof fn name_key_error_invalid_public_key()
    ensures
        is_ascii_text(CommunicationType::error_invalid_public_key.name()),
        name_number(CommunicationType::error_invalid_public_key.name()) == CommunicationType::error_invalid_public_key.name_key(),
{
    reveal_strlit("error_invalid_public_key");
    reveal_with_fuel(name_number, 26);
}

proof fn name_key_error_no_user_id()
    ensures
        is_ascii_text(CommunicationType::error_no_user_id.name()),
        name_number(CommunicationType::error_no_user_id.name()) == CommunicationType::error_no_user_id.name_key(),
{
    reveal_strlit("error_no_user_id");
    reveal_with_fuel(name_number, 18);
}

proof fn name_key_error_no_call_id()
    ensures
        is_ascii_text(CommunicationType::error_no_call_id.name()),
        name_number(CommunicationType::error_no_call_id.name()) == CommunicationType::error_no_call_id.name_key(),
{
    reveal_strlit("error_no_call_id");
    reveal_with_fuel(name_number, 18);
}

proof fn name_key_error_invalid_call_id()
    ensures
        is_ascii_text(CommunicationType::error_invalid_call_id.name()),
        name_number(CommunicationType::error_invalid_call_id.name()) == CommunicationType::error_invalid_call_id.name_key(),
{
    reveal_strlit("error_invalid_call_id");
    reveal_with_fuel(name_number, 23);
}

proof fn name_key_success()
    ensures
        is_ascii_text(CommunicationType::success.name()),
        name_number(CommunicationType::success.name()) == CommunicationType::success.name_key(),
{
    reveal_strlit("success");
    reveal_with_fuel(name_number, 9);
}

proof fn name_key_shorten_link()
    ensures
        is_ascii_text(CommunicationType::shorten_link.name()),
        name_number(CommunicationType::shorten_link.name()) == CommunicationType::shorten_link.name_key(),
{
    reveal_strlit("shorten_link");
    reveal_with_fuel(name_number, 14);
}

proof fn name_key_settings_save()
    ensures
        is_ascii_text(CommunicationType::settings_save.name()),
        name_number(CommunicationType::settings_save.name()) == CommunicationType::settings_save.name_key(),
{
    reveal_strlit("settings_save");
    reveal_with_fuel(name_number, 15);
}

proof fn name_key_settings_load()
    ensures
        is_ascii_text(CommunicationType::settings_load.name()),
        name_number(CommunicationType::settings_load.name()) == CommunicationType::settings_load.name_key(),
{
    reveal_strlit("settings_load");
    reveal_with_fuel(name_number, 15);
}

proof fn name_key_settings_list()
    ensures
        is_ascii_text(CommunicationType::settings_list.name()),
        name_number(CommunicationType::settings_list.name()) == CommunicationType::settings_list.name_key(),
{
    reveal_strlit("settings_list");
    reveal_with_fuel(name_number, 15);
}

proof fn name_key_message()
    ensures
        is_ascii_text(CommunicationType::message.name()),
        name_number(CommunicationType::message.name()) == CommunicationType::message.name_key(),
{
    reveal_strlit("message");
    reveal_with_fuel(name_number, 9);
}

proof fn name_key_message_state()
    ensures
        is_ascii_text(CommunicationType::message_state.name()),
        name_number(CommunicationType::message_state.name()) == CommunicationType::message_state.name_key(),
{
    reveal_strlit("message_state");
    reveal_with_fuel(name_number, 15);
}

proof fn name_key_message_send()
    ensures
        is_ascii_text(CommunicationType::message_send.name()),
        name_number(CommunicationType::message_send.name()) == CommunicationType::message_send.name_key(),
{
    reveal_strlit("message_send");
    reveal_with_fuel(name_number, 14);
}

proof fn name_key_message_live()
    ensures
        is_ascii_text(CommunicationType::message_live.name()),
        name_number(CommunicationType::message_live.name()) == CommunicationType::message_live.name_key(),
{
    reveal_strlit("message_live");
    reveal_with_fuel(name_number, 14);
}

proof fn name_key_message_other_iota()
    ensures
        is_ascii_text(CommunicationType::message_other_iota.name()),
        name_number(CommunicationType::message_other_iota.name()) == CommunicationType::message_other_iota.name_key(),
{
    reveal_strlit("message_other_iota");
    reveal_with_fuel(name_number, 20);
}

proof fn name_key_message_chunk()
    ensures
        is_ascii_text(CommunicationType::message_chunk.name()),
        name_number(CommunicationType::message_chunk.name()) == CommunicationType::message_chunk.name_key(),
{
    reveal_strlit("message_chunk");
    reveal_with_fuel(name_number, 15);
}

proof fn name_key_messages_get()
    ensures
        is_ascii_text(CommunicationType::messages_get.name()),
        name_number(CommunicationType::messages_get.name()) == CommunicationType::messages_get.name_key(),
{
    reveal_strlit("messages_get");
    reveal_with_fuel(name_number, 14);
}

proof fn name_key_push_notification()
    ensures
        is_ascii_text(CommunicationType::push_notification.name()),
        name_number(CommunicationType::push_notification.name()) == CommunicationType::push_notification.name_key(),
{
    reveal_strlit("push_notification");
    reveal_with_fuel(name_number, 19);
}

proof fn name_key_read_notification()
    ensures
        is_ascii_text(CommunicationType::read_notification.name()),
        name_number(CommunicationType::read_notification.name()) == CommunicationType::read_notification.name_key(),
{
    reveal_strlit("read_notification");
    reveal_with_fuel(name_number, 19);
}

proof fn name_key_get_notifications()
    ensures
        is_ascii_text(CommunicationType::get_notifications.name()),
        name_number(CommunicationType::get_notifications.name()) == CommunicationType::get_notifications.name_key(),
{
    reveal_strlit("get_notifications");
    reveal_with_fuel(name_number, 19);
}

proof fn name_key_change_confirm()
    ensures
        is_ascii_text(CommunicationType::change_confirm.name()),
        name_number(CommunicationType::change_confirm.name()) == CommunicationType::change_confirm.name_key(),
{
    reveal_strlit("change_confirm");
    reveal_with_fuel(name_number, 16);
}

proof fn name_key_confirm_receive()
    ensures
        is_ascii_text(CommunicationType::confirm_receive.name()),
        name_number(CommunicationType::confirm_receive.name()) == CommunicationType::confirm_receive.name_key(),
{
    reveal_strlit("confirm_receive");
    reveal_with_fuel(name_number, 17);
}

proof fn name_key_confirm_read()
    ensures
        is_ascii_text(CommunicationType::confirm_read.name()),
        name_number(CommunicationType::confirm_read.name()) == CommunicationType::confirm_read.name_key(),
{
    reveal_strlit("confirm_read");
    reveal_with_fuel(name_number, 14);
}

proof fn name_key_get_chats()
    ensures
        is_ascii_text(CommunicationType::get_chats.name()),
        name_number(CommunicationType::get_chats.name()) == CommunicationType::get_chats.name_key(),
{
    reveal_strlit("get_chats");
    reveal_with_fuel(name_number, 11);
}

proof fn name_key_get_states()
    ensures
        is_ascii_text(CommunicationType::get_states.name()),
        name_number(CommunicationType::get_states.name()) == CommunicationType::get_states.name_key(),
{
    reveal_strlit("get_states");
    reveal_with_fuel(name_number, 12);
}

proof fn name_key_add_community()
    ensures
        is_ascii_text(CommunicationType::add_community.name()),
        name_number(CommunicationType::add_community.name()) == CommunicationType::add_community.name_key(),
{
    reveal_strlit("add_community");
    reveal_with_fuel(name_number, 15);
}

proof fn name_key_remove_community()
    ensures
        is_ascii_text(CommunicationType::remove_community.name()),
        name_number(CommunicationType::remove_community.name()) == CommunicationType::remove_community.name_key(),
{
    reveal_strlit("remove_community");
    reveal_with_fuel(name_number, 18);
}

proof fn name_key_get_communities()
    ensures
        is_ascii_text(CommunicationType::get_communities.name()),
        name_number(CommunicationType::get_communities.name()) == CommunicationType::get_communities.name_key(),
{
    reveal_strlit("get_communities");
    reveal_with_fuel(name_number, 17);
}

proof fn name_key_challenge()
    ensures
        is_ascii_text(CommunicationType::challenge.name()),
        name_number(CommunicationType::challenge.name()) == CommunicationType::challenge.name_key(),
{
    reveal_strlit("challenge");
    reveal_with_fuel(name_number, 11);
}

proof fn name_key_challenge_response()
    ensures
        is_ascii_text(CommunicationType::challenge_response.name()),
        name_number(CommunicationType::challenge_response.name()) == CommunicationType::challenge_response.name_key(),
{
    reveal_strlit("challenge_response");
    reveal_with_fuel(name_number, 20);
}

proof fn name_key_register()
    ensures
        is_ascii_text(CommunicationType::register.name()),
        name_number(CommunicationType::register.name()) == CommunicationType::register.name_key(),
{
    reveal_strlit("register");
    reveal_with_fuel(name_number, 10);
}

proof fn name_key_register_response()
    ensures
        is_ascii_text(CommunicationType::register_response.name()),
        name_number(CommunicationType::register_response.name()) == CommunicationType::register_response.name_key(),
{
    reveal_strlit("register_response");
    reveal_with_fuel(name_number, 19);
}

proof fn name_key_identification()
    ensures
        is_ascii_text(CommunicationType::identification.name()),
        name_number(CommunicationType::identification.name()) == CommunicationType::identification.name_key(),
{
    reveal_strlit("identification");
    reveal_with_fuel(name_number, 16);
}

proof fn name_key_identification_response()
    ensures
        is_ascii_text(CommunicationType::identification_response.name()),
        name_number(CommunicationType::identification_response.name()) == CommunicationType::identification_response.name_key(),
{
    reveal_strlit("identification_response");
    reveal_with_fuel(name_number, 25);
}

proof fn name_key_register_iota()
    ensures
        is_ascii_text(CommunicationType::register_iota.name()),
        name_number(CommunicationType::register_iota.name()) == CommunicationType::register_iota.name_key(),
{
    reveal_strlit("register_iota");
    reveal_with_fuel(name_number, 15);
}

proof fn name_key_register_iota_success()
    ensures
        is_ascii_text(CommunicationType::register_iota_success.name()),
        name_number(CommunicationType::register_iota_success.name()) == CommunicationType::register_iota_success.name_key(),
{
    reveal_strlit("register_iota_success");
    reveal_with_fuel(name_number, 23);
}

proof fn name_key_ping()
    ensures
        is_ascii_text(CommunicationType::ping.name()),
        name_number(CommunicationType::ping.name()) == CommunicationType::ping.name_key(),
{
    reveal_strlit("ping");
    reveal_with_fuel(name_number, 6);
}

proof fn name_key_pong()
    ensures
        is_ascii_text(CommunicationType::pong.name()),
        name_number(CommunicationType::pong.name()) == CommunicationType::pong.name_key(),
{
    reveal_strlit("pong");
    reveal_with_fuel(name_number, 6);
}

proof fn name_key_add_conversation()
    ensures
        is_ascii_text(CommunicationType::add_conversation.name()),
        name_number(CommunicationType::add_conversation.name()) == CommunicationType::add_conversation.name_key(),
{
    reveal_strlit("add_conversation");
    reveal_with_fuel(name_number, 18);
}

proof fn name_key_send_chat()
    ensures
        is_ascii_text(CommunicationType::send_chat.name()),
        name_number(CommunicationType::send_chat.name()) == CommunicationType::send_chat.name_key(),
{
    reveal_strlit("send_chat");
    reveal_with_fuel(name_number, 11);
}

proof fn name_key_client_changed()
    ensures
        is_ascii_text(CommunicationType::client_changed.name()),
        name_number(CommunicationType::client_changed.name()) == CommunicationType::client_changed.name_key(),
{
    reveal_strlit("client_changed");
    reveal_with_fuel(name_number, 16);
}

proof fn name_key_client_connected()
    ensures
        is_ascii_text(CommunicationType::client_connected.name()),
        name_number(CommunicationType::client_connected.name()) == CommunicationType::client_connected.name_key(),
{
    reveal_strlit("client_connected");
    reveal_with_fuel(name_number, 18);
}

proof fn name_key_client_disconnected()
    ensures
        is_ascii_text(CommunicationType::client_disconnected.name()),
        name_number(CommunicationType::client_disconnected.name()) == CommunicationType::client_disconnected.name_key(),
{
    reveal_strlit("client_disconnected");
    reveal_with_fuel(name_number, 21);
}

proof fn name_key_client_closed()
    ensures
        is_ascii_text(CommunicationType::client_closed.name()),
        name_number(CommunicationType::client_closed.name()) == CommunicationType::client_closed.name_key(),
{
    reveal_strlit("client_closed");
    reveal_with_fuel(name_number, 15);
}

proof fn name_key_public_key()
    ensures
        is_ascii_text(CommunicationType::public_key.name()),
        name_number(CommunicationType::public_key.name()) == CommunicationType::public_key.name_key(),
{
    reveal_strlit("public_key");
    reveal_with_fuel(name_number, 12);
}

proof fn name_key_private_key()
    ensures
        is_ascii_text(CommunicationType::private_key.name()),
        name_number(CommunicationType::private_key.name()) == CommunicationType::private_key.name_key(),
{
    reveal_strlit("private_key");
    reveal_with_fuel(name_number, 13);
}

proof fn name_key_webrtc_sdp()
    ensures
        is_ascii_text(CommunicationType::webrtc_sdp.name()),
        name_number(CommunicationType::webrtc_sdp.name()) == CommunicationType::webrtc_sdp.name_key(),
{
    reveal_strlit("webrtc_sdp");
    reveal_with_fuel(name_number, 12);
}

proof fn name_key_webrtc_ice()
    ensures
        is_ascii_text(CommunicationType::webrtc_ice.name()),
        name_number(CommunicationType::webrtc_ice.name()) == CommunicationType::webrtc_ice.name_key(),
{
    reveal_strlit("webrtc_ice");
    reveal_with_fuel(name_number, 12);
}

proof fn name_key_start_stream()
    ensures
        is_ascii_text(CommunicationType::start_stream.name()),
        name_number(CommunicationType::start_stream.name()) == CommunicationType::start_stream.name_key(),
{
    reveal_strlit("start_stream");
    reveal_with_fuel(name_number, 14);
}

proof fn name_key_end_stream()
    ensures
        is_ascii_text(CommunicationType::end_stream.name()),
        name_number(CommunicationType::end_stream.name()) == CommunicationType::end_stream.name_key(),
{
    reveal_strlit("end_stream");
    reveal_with_fuel(name_number, 12);
}

proof fn name_key_watch_stream()
    ensures
        is_ascii_text(CommunicationType::watch_stream.name()),
        name_number(CommunicationType::watch_stream.name()) == CommunicationType::watch_stream.name_key(),
{
    reveal_strlit("watch_stream");
    reveal_with_fuel(name_number, 14);
}

proof fn name_key_call_token()
    ensures
        is_ascii_text(CommunicationType::call_token.name()),
        name_number(CommunicationType::call_token.name()) == CommunicationType::call_token.name_key(),
{
    reveal_strlit("call_token");
    reveal_with_fuel(name_number, 12);
}

proof fn name_key_call_invite()
    ensures
        is_ascii_text(CommunicationType::call_invite.name()),
        name_number(CommunicationType::call_invite.name()) == CommunicationType::call_invite.name_key(),
{
    reveal_strlit("call_invite");
    reveal_with_fuel(name_number, 13);
}

proof fn name_key_call_disconnect_user()
    ensures
        is_ascii_text(CommunicationType::call_disconnect_user.name()),
        name_number(CommunicationType::call_disconnect_user.name()) == CommunicationType::call_disconnect_user.name_key(),
{
    reveal_strlit("call_disconnect_user");
    reveal_with_fuel(name_number, 22);
}

proof fn name_key_call_timeout_user()
    ensures
        is_ascii_text(CommunicationType::call_timeout_user.name()),
        name_number(CommunicationType::call_timeout_user.name()) == CommunicationType::call_timeout_user.name_key(),
{
    reveal_strlit("call_timeout_user");
    reveal_with_fuel(name_number, 19);
}

proof fn name_key_call_set_anonymous_joining()
    ensures
        is_ascii_text(CommunicationType::call_set_anonymous_joining.name()),
        name_number(CommunicationType::call_set_anonymous_joining.name()) == CommunicationType::call_set_anonymous_joining.name_key(),
{
    reveal_strlit("call_set_anonymous_joining");
    reveal_with_fuel(name_number, 28);
}

proof fn name_key_end_call()
    ensures
        is_ascii_text(CommunicationType::end_call.name()),
        name_number(CommunicationType::end_call.name()) == CommunicationType::end_call.name_key(),
{
    reveal_strlit("end_call");
    reveal_with_fuel(name_number, 10);
}

proof fn name_key_function()
    ensures
        is_ascii_text(CommunicationType::function.name()),
        name_number(CommunicationType::function.name()) == CommunicationType::function.name_key(),
{
    reveal_strlit("function");
    reveal_with_fuel(name_number, 10);
}

proof fn name_key_update()
    ensures
        is_ascii_text(CommunicationType::update.name()),
        name_number(CommunicationType::update.name()) == CommunicationType::update.name_key(),
{
    reveal_strlit("update");
    reveal_with_fuel(name_number, 8);
}

proof fn name_key_create_user()
    ensures
        is_ascii_text(CommunicationType::create_user.name()),
        name_number(CommunicationType::create_user.name()) == CommunicationType::create_user.name_key(),
{
    reveal_strlit("create_user");
    reveal_with_fuel(name_number, 13);
}

proof fn name_key_rho_update()
    ensures
        is_ascii_text(CommunicationType::rho_update.name()),
        name_number(CommunicationType::rho_update.name()) == CommunicationType::rho_update.name_key(),
{
    reveal_strlit("rho_update");
    reveal_with_fuel(name_number, 12);
}

proof fn name_key_user_connected()
    ensures
        is_ascii_text(CommunicationType::user_connected.name()),
        name_number(CommunicationType::user_connected.name()) == CommunicationType::user_connected.name_key(),
{
    reveal_strlit("user_connected");
    reveal_with_fuel(name_number, 16);
}

proof fn name_key_user_disconnected()
    ensures
        is_ascii_text(CommunicationType::user_disconnected.name()),
        name_number(CommunicationType::user_disconnected.name()) == CommunicationType::user_disconnected.name_key(),
{
    reveal_strlit("user_disconnected");
    reveal_with_fuel(name_number, 19);
}

proof fn name_key_iota_connected()
    ensures
        is_ascii_text(CommunicationType::iota_connected.name()),
        name_number(CommunicationType::iota_connected.name()) == CommunicationType::iota_connected.name_key(),
{
    reveal_strlit("iota_connected");
    reveal_with_fuel(name_number, 16);
}

proof fn name_key_iota_disconnected()
    ensures
        is_ascii_text(CommunicationType::iota_disconnected.name()),
        name_number(CommunicationType::iota_disconnected.name()) == CommunicationType::iota_disconnected.name_key(),
{
    reveal_strlit("iota_disconnected");
    reveal_with_fuel(name_number, 19);
}

proof fn name_key_sync_client_iota_status()
    ensures
        is_ascii_text(CommunicationType::sync_client_iota_status.name()),
        name_number(CommunicationType::sync_client_iota_status.name()) == CommunicationType::sync_client_iota_status.name_key(),
{
    reveal_strlit("sync_client_iota_status");
    reveal_with_fuel(name_number, 25);
}

proof fn name_key_get_user_data()
    ensures
        is_ascii_text(CommunicationType::get_user_data.name()),
        name_number(CommunicationType::get_user_data.name()) == CommunicationType::get_user_data.name_key(),
{
    reveal_strlit("get_user_data");
    reveal_with_fuel(name_number, 15);
}

proof fn name_key_get_iota_data()
    ensures
        is_ascii_text(CommunicationType::get_iota_data.name()),
        name_number(CommunicationType::get_iota_data.name()) == CommunicationType::get_iota_data.name_key(),
{
    reveal_strlit("get_iota_data");
    reveal_with_fuel(name_number, 15);
}

proof fn name_key_iota_user_data()
    ensures
        is_ascii_text(CommunicationType::iota_user_data.name()),
        name_number(CommunicationType::iota_user_data.name()) == CommunicationType::iota_user_data.name_key(),
{
    reveal_strlit("iota_user_data");
    reveal_with_fuel(name_number, 16);
}

proof fn name_key_change_user_data()
    ensures
        is_ascii_text(CommunicationType::change_user_data.name()),
        name_number(CommunicationType::change_user_data.name()) == CommunicationType::change_user_data.name_key(),
{
    reveal_strlit("change_user_data");
    reveal_with_fuel(name_number, 18);
}

proof fn name_key_change_iota_data()
    ensures
        is_ascii_text(CommunicationType::change_iota_data.name()),
        name_number(CommunicationType::change_iota_data.name()) == CommunicationType::change_iota_data.name_key(),
{
    reveal_strlit("change_iota_data");
    reveal_with_fuel(name_number, 18);
}

proof fn name_key_get_register()
    ensures
        is_ascii_text(CommunicationType::get_register.name()),
        name_number(CommunicationType::get_register.name()) == CommunicationType::get_register.name_key(),
{
    reveal_strlit("get_register");
    reveal_with_fuel(name_number, 14);
}

proof fn name_key_complete_register_user()
    ensures
        is_ascii_text(CommunicationType::complete_register_user.name()),
        name_number(CommunicationType::complete_register_user.name()) == CommunicationType::complete_register_user.name_key(),
{
    reveal_strlit("complete_register_user");
    reveal_with_fuel(name_number, 24);
}

proof fn name_key_complete_register_iota()
    ensures
        is_ascii_text(CommunicationType::complete_register_iota.name()),
        name_number(CommunicationType::complete_register_iota.name()) == CommunicationType::complete_register_iota.name_key(),
{
    reveal_strlit("complete_register_iota");
    reveal_with_fuel(name_number, 24);
}

proof fn name_key_delete_user()
    ensures
        is_ascii_text(CommunicationType::delete_user.name()),
        name_number(CommunicationType::delete_user.name()) == CommunicationType::delete_user.name_key(),
{
    reveal_strlit("delete_user");
    reveal_with_fuel(name_number, 13);
}

proof fn name_key_delete_iota()
    ensures
        is_ascii_text(CommunicationType::delete_iota.name()),
        name_number(CommunicationType::delete_iota.name()) == CommunicationType::delete_iota.name_key(),
{
    reveal_strlit("delete_iota");
    reveal_with_fuel(name_number, 13);
}

proof fn name_key_start_register()
    ensures
        is_ascii_text(CommunicationType::start_register.name()),
        name_number(CommunicationType::start_register.name()) == CommunicationType::start_register.name_key(),
{
    reveal_strlit("start_register");
    reveal_with_fuel(name_number, 16);
}

proof fn name_key_complete_register()
    ensures
        is_ascii_text(CommunicationType::complete_register.name()),
        name_number(CommunicationType::complete_register.name()) == CommunicationType::complete_register.name_key(),
{
    reveal_strlit("complete_register");
    reveal_with_fuel(name_number, 19);
}

/// The name of every communication type is ASCII text, and its `name_number` is its `name_key`.
pub proof fn lemma_name_facts(t: CommunicationType)
    ensures
        is_ascii_text(t.name()),
        name_number(t.name()) == t.name_key(),
{
    match t {
        CommunicationType::error => name_key_error(),
        CommunicationType::error_protocol => name_key_error_protocol(),
        CommunicationType::error_anonymous => name_key_error_anonymous(),
        CommunicationType::error_internal => name_key_error_internal(),
        CommunicationType::error_invalid_data => name_key_error_invalid_data(),
        CommunicationType::error_invalid_user_id => name_key_error_invalid_user_id(),
        CommunicationType::error_invalid_omikron_id => name_key_error_invalid_omikron_id(),
        CommunicationType::error_not_found => name_key_error_not_found(),
        CommunicationType::error_not_authenticated => name_key_error_not_authenticated(),
        CommunicationType::error_no_iota => name_key_error_no_iota(),
        CommunicationType::error_invalid_challenge => name_key_error_invalid_challenge(),
        CommunicationType::error_invalid_secret => name_key_error_invalid_secret(),
        CommunicationType::error_invalid_private_key => name_key_error_invalid_private_key(),
        CommunicationType::error_invalid_public_key => name_key_error_invalid_public_key(),
        CommunicationType::error_no_user_id => name_key_error_no_user_id(),
        CommunicationType::error_no_call_id => name_key_error_no_call_id(),
        CommunicationType::error_invalid_call_id => name_key_error_invalid_call_id(),
        CommunicationType::success => name_key_success(),
        CommunicationType::shorten_link => name_key_shorten_link(),
        CommunicationType::settings_save => name_key_settings_save(),
        CommunicationType::settings_load => name_key_settings_load(),
        CommunicationType::settings_list => name_key_settings_list(),
        CommunicationType::message => name_key_message(),
        CommunicationType::message_state => name_key_message_state(),
        CommunicationType::message_send => name_key_message_send(),
        CommunicationType::message_live => name_key_message_live(),
        CommunicationType::message_other_iota => name_key_message_other_iota(),
        CommunicationType::message_chunk => name_key_message_chunk(),
        CommunicationType::messages_get => name_key_messages_get(),
        CommunicationType::push_notification => name_key_push_notification(),
        CommunicationType::read_notification => name_key_read_notification(),
        CommunicationType::get_notifications => name_key_get_notifications(),
        CommunicationType::change_confirm => name_key_change_confirm(),
        CommunicationType::confirm_receive => name_key_confirm_receive(),
        CommunicationType::confirm_read => name_key_confirm_read(),
        CommunicationType::get_chats => name_key_get_chats(),
        CommunicationType::get_states => name_key_get_states(),
        CommunicationType::add_community => name_key_add_community(),
        CommunicationType::remove_community => name_key_remove_community(),
        CommunicationType::get_communities => name_key_get_communities(),
        CommunicationType::challenge => name_key_challenge(),
        CommunicationType::challenge_response => name_key_challenge_response(),
        CommunicationType::register => name_key_register(),
        CommunicationType::register_response => name_key_register_response(),
        CommunicationType::identification => name_key_identification(),
        CommunicationType::identification_response => name_key_identification_response(),
        CommunicationType::register_iota => name_key_register_iota(),
        CommunicationType::register_iota_success => name_key_register_iota_success(),
        CommunicationType::ping => name_key_ping(),
        CommunicationType::pong => name_key_pong(),
        CommunicationType::add_conversation => name_key_add_conversation(),
        CommunicationType::send_chat => name_key_send_chat(),
        CommunicationType::client_changed => name_key_client_changed(),
        CommunicationType::client_connected => name_key_client_connected(),
        CommunicationType::client_disconnected => name_key_client_disconnected(),
        CommunicationType::client_closed => name_key_client_closed(),
        CommunicationType::public_key => name_key_public_key(),
        CommunicationType::private_key => name_key_private_key(),
        CommunicationType::webrtc_sdp => name_key_webrtc_sdp(),
        CommunicationType::webrtc_ice => name_key_webrtc_ice(),
        CommunicationType::start_stream => name_key_start_stream(),
        CommunicationType::end_stream => name_key_end_stream(),
        CommunicationType::watch_stream => name_key_watch_stream(),
        CommunicationType::call_token => name_key_call_token(),
        CommunicationType::call_invite => name_key_call_invite(),
        CommunicationType::call_disconnect_user => name_key_call_disconnect_user(),
        CommunicationType::call_timeout_user => name_key_call_timeout_user(),
        CommunicationType::call_set_anonymous_joining => name_key_call_set_anonymous_joining(),
        CommunicationType::end_call => name_key_end_call(),
        CommunicationType::function => name_key_function(),
        CommunicationType::update => name_key_update(),
        CommunicationType::create_user => name_key_create_user(),
        CommunicationType::rho_update => name_key_rho_update(),
        CommunicationType::user_connected => name_key_user_connected(),
        CommunicationType::user_disconnected => name_key_user_disconnected(),
        CommunicationType::iota_connected => name_key_iota_connected(),
        CommunicationType::iota_disconnected => name_key_iota_disconnected(),
        CommunicationType::sync_client_iota_status => name_key_sync_client_iota_status(),
        CommunicationType::get_user_data => name_key_get_user_data(),
        CommunicationType::get_iota_data => name_key_get_iota_data(),
        CommunicationType::iota_user_data => name_key_iota_user_data(),
        CommunicationType::change_user_data => name_key_change_user_data(),
        CommunicationType::change_iota_data => name_key_change_iota_data(),
        CommunicationType::get_register => name_key_get_register(),
        CommunicationType::complete_register_user => name_key_complete_register_user(),
        CommunicationType::complete_register_iota => name_key_complete_register_iota(),
        CommunicationType::delete_user => name_key_delete_user(),
        CommunicationType::delete_iota => name_key_delete_iota(),
        CommunicationType::start_register => name_key_start_register(),
        CommunicationType::complete_register => name_key_complete_register(),
    }
}

/// No two communication types have the same `name_key`.
pub proof fn lemma_name_key_injective(a: CommunicationType, b: CommunicationType)
    ensures
        a.name_key() == b.name_key() ==> a == b,
{
    assert(CommunicationType::of_name_key(a.name_key()) == a);
    assert(CommunicationType::of_name_key(b.name_key()) == b);
}

/// `parse` reads the name of every communication type back as that communication type: its name is ASCII text, and
/// no communication type before it in declaration order has the same name once lowercased and stripped
/// of underscores.
pub proof fn lemma_communication_type_name_roundtrip(t: CommunicationType)
    ensures
        is_ascii_text(t.name()),
        CommunicationType::first_match_ascii(t.name(), 0) == t,
{
    lemma_name_facts(t);
    lemma_first_match_from(t, 0);
}

proof fn lemma_first_match_from(t: CommunicationType, i: int)
    requires
        0 <= i <= t.code(),
    ensures
        CommunicationType::first_match_ascii(t.name(), i) == t,
    decreases t.code() - i,
{
    crate::communication_types::lemma_communication_type_code_roundtrip(t, i as u8);
    if i < t.code() {
        let v = CommunicationType::of_code(i as u8);
        lemma_name_facts(v);
        lemma_name_facts(t);
        lemma_name_key_injective(v, t);
        lemma_name_number(v.name());
        lemma_name_number(t.name());
        assert(ascii_normalized(v.name()) != ascii_normalized(t.name()));
        lemma_first_match_from(t, i + 1);
    }
}

} // verus!
