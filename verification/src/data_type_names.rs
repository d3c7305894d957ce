use vstd::prelude::*;

use crate::data_types::DataTypes;
use crate::names::{ascii_normalized, is_ascii_text, lemma_name_number, name_number};

verus! {

impl DataTypes {
    /// `name_number` of the variant's name, written out.
    pub open spec fn name_key(self) -> int {
        match self {
            DataTypes::error_type => 1607632820726,
            DataTypes::error_protocol => 854361949320010488,
            DataTypes::accepted_ids => 229674003373657,
            DataTypes::uuid => 428899,
            DataTypes::register_id => 138749895038830,
            DataTypes::link => 243146,
            DataTypes::settings => 200981607823,
            DataTypes::settings_name => 106809866643339590,
            DataTypes::chat_partner_id => 495119330106271735,
            DataTypes::chat_partner_name => 360941991647472191399,
            DataTypes::iota_id => 137506414,
            DataTypes::user_id => 311536210,
            DataTypes::user_ids => 8411477689,
            DataTypes::iota_ids => 3712673197,
            DataTypes::user_state => 6131972852042,
            DataTypes::user_states => 165563267005153,
            DataTypes::user_pings => 6131971050346,
            DataTypes::call_state => 862580687711,
            DataTypes::screen_share => 3939946483919171,
            DataTypes::private_key_hash => 67597160364491481710,
            DataTypes::accepted => 11668648243,
            DataTypes::accepted_profiles => 3295570914804882881233,
            DataTypes::denied_profiles => 17040413088944929045,
            DataTypes::content => 1385332949,
            DataTypes::messages => 138204445636,
            DataTypes::notifications => 2188899045583403788,
            DataTypes::send_time => 200887224341,
            DataTypes::get_time => 2794717355,
            DataTypes::get_variant => 55009084485251,
            DataTypes::shared_secret_own => 2111632457826318610217,
            DataTypes::shared_secret_other => 1539380061755386266784923,
            DataTypes::shared_secret_sign => 57014076361310602544210,
            DataTypes::shared_secret => 107282043277260509,
            DataTypes::call_id => 43823353,
            DataTypes::call_token => 862581127631,
            DataTypes::untill => 309167778,
            DataTypes::enabled => 2138566837,
            DataTypes::start_date => 5576024666840,
            DataTypes::end_date => 2140192913,
            DataTypes::receiver_id => 138706361517874,
            DataTypes::sender_id => 200886935548,
            DataTypes::signature => 5463218140988,
            DataTypes::signed => 277560328,
            DataTypes::message => 5118683171,
            DataTypes::message_state => 73447508793636410,
            DataTypes::last_ping => 126195238852,
            DataTypes::ping_iota => 171057229057,
            DataTypes::ping_clients => 3366917066202922,
            DataTypes::matches => 5061509119,
            DataTypes::omikron => 6002856149,
            DataTypes::offset => 218554355,
            DataTypes::amount => 21568592,
            DataTypes::position => 173454771425,
            DataTypes::name => 276647,
            DataTypes::path => 316205,
            DataTypes::codec => 1892622,
            DataTypes::function => 71100829148,
            DataTypes::payload => 6226609918,
            DataTypes::result => 261327161,
            DataTypes::interactables => 1432839611875916503,
            DataTypes::want_to_watch => 4747292832137588,
            DataTypes::watcher => 8935714008,
            DataTypes::created_at => 1037537148647,
            DataTypes::username => 227109993674,
            DataTypes::display => 1689243226,
            DataTypes::avatar => 26074917,
            DataTypes::about => 582329,
            DataTypes::status => 283292902,
            DataTypes::public_key => 4739491879018,
            DataTypes::sub_level => 206917730832,
            DataTypes::sub_end => 283832887,
            DataTypes::community_address => 10558977101161965380107,
            DataTypes::challenge => 931537528547,
            DataTypes::community_title => 14484193554416195471,
            DataTypes::communities => 735873269022955,
            DataTypes::rho_connections => 74230871905023879412,
            DataTypes::user => 427347,
            DataTypes::online_status => 86362582048646293,
            DataTypes::omikron_id => 4376082132868,
            DataTypes::omikron_connections => 33370240905347404798441720,
            DataTypes::reset_token => 138873884135846,
            DataTypes::new_token => 148723004381,
            DataTypes::call_invited => 628817371997809,
            DataTypes::call_members => 628818787608283,
            DataTypes::calls => 1623097,
            DataTypes::timeout => 7884568613,
            DataTypes::has_admin => 84343495253,
            DataTypes::last_message_at => 1810762859110074752,
        }
    }

    /// The variant whose `name_key` is `n`; `error_type` for any other number.
    pub open spec fn of_name_key(n: int) -> DataTypes {
        if n == 1607632820726 {
            DataTypes::error_type
        } else if n == 854361949320010488 {
            DataTypes::error_protocol
        } else if n == 229674003373657 {
            DataTypes::accepted_ids
        } else if n == 428899 {
            DataTypes::uuid
        } else if n == 138749895038830 {
            DataTypes::register_id
        } else if n == 243146 {
            DataTypes::link
        } else if n == 200981607823 {
            DataTypes::settings
        } else if n == 106809866643339590 {
            DataTypes::settings_name
        } else if n == 495119330106271735 {
            DataTypes::chat_partner_id
        } else if n == 360941991647472191399 {
            DataTypes::chat_partner_name
        } else if n == 137506414 {
            DataTypes::iota_id
        } else if n == 311536210 {
            DataTypes::user_id
        } else if n == 8411477689 {
            DataTypes::user_ids
        } else if n == 3712673197 {
            DataTypes::iota_ids
        } else if n == 6131972852042 {
            DataTypes::user_state
        } else if n == 165563267005153 {
            DataTypes::user_states
        } else if n == 6131971050346 {
            DataTypes::user_pings
        } else if n == 862580687711 {
            DataTypes::call_state
        } else if n == 3939946483919171 {
            DataTypes::screen_share
        } else if n == 67597160364491481710 {
            DataTypes::private_key_hash
        } else if n == 11668648243 {
            DataTypes::accepted
        } else if n == 3295570914804882881233 {
            DataTypes::accepted_profiles
        } else if n == 17040413088944929045 {
            DataTypes::denied_profiles
        } else if n == 1385332949 {
            DataTypes::content
        } else if n == 138204445636 {
            DataTypes::messages
        } else if n == 2188899045583403788 {
            DataTypes::notifications
        } else if n == 200887224341 {
            DataTypes::send_time
        } else if n == 2794717355 {
            DataTypes::get_time
        } else if n == 55009084485251 {
            DataTypes::get_variant
        } else if n == 2111632457826318610217 {
            DataTypes::shared_secret_own
        } else if n == 1539380061755386266784923 {
            DataTypes::shared_secret_other
        } else if n == 57014076361310602544210 {
            DataTypes::shared_secret_sign
        } else if n == 107282043277260509 {
            DataTypes::shared_secret
        } else if n == 43823353 {
            DataTypes::call_id
        } else if n == 862581127631 {
            DataTypes::call_token
        } else if n == 309167778 {
            DataTypes::untill
        } else if n == 2138566837 {
            DataTypes::enabled
        } else if n == 5576024666840 {
            DataTypes::start_date
        } else if n == 2140192913 {
            DataTypes::end_date
        } else if n == 138706361517874 {
            DataTypes::receiver_id
        } else if n == 200886935548 {
            DataTypes::sender_id
        } else if n == 5463218140988 {
            DataTypes::signature
        } else if n == 277560328 {
            DataTypes::signed
        } else if n == 5118683171 {
            DataTypes::message
        } else if n == 73447508793636410 {
            DataTypes::message_state
        } else if n == 126195238852 {
            DataTypes::last_ping
        } else if n == 171057229057 {
            DataTypes::ping_iota
        } else if n == 3366917066202922 {
            DataTypes::ping_clients
        } else if n == 5061509119 {
            DataTypes::matches
        } else if n == 6002856149 {
            DataTypes::omikron
        } else if n == 218554355 {
            DataTypes::offset
        } else if n == 21568592 {
            DataTypes::amount
        } else if n == 173454771425 {
            DataTypes::position
        } else if n == 276647 {
            DataTypes::name
        } else if n == 316205 {
            DataTypes::path
        } else if n == 1892622 {
            DataTypes::codec
        } else if n == 71100829148 {
            DataTypes::function
        } else if n == 6226609918 {
            DataTypes::payload
        } else if n == 261327161 {
            DataTypes::result
        } else if n == 1432839611875916503 {
            DataTypes::interactables
        } else if n == 4747292832137588 {
            DataTypes::want_to_watch
        } else if n == 8935714008 {
            DataTypes::watcher
        } else if n == 1037537148647 {
            DataTypes::created_at
        } else if n == 227109993674 {
            DataTypes::username
        } else if n == 1689243226 {
            DataTypes::display
        } else if n == 26074917 {
            DataTypes::avatar
        } else if n == 582329 {
            DataTypes::about
        } else if n == 283292902 {
            DataTypes::status
        } else if n == 4739491879018 {
            DataTypes::public_key
        } else if n == 206917730832 {
            DataTypes::sub_level
        } else if n == 283832887 {
            DataTypes::sub_end
        } else if n == 10558977101161965380107 {
            DataTypes::community_address
        } else if n == 931537528547 {
            DataTypes::challenge
        } else if n == 14484193554416195471 {
            DataTypes::community_title
        } else if n == 735873269022955 {
            DataTypes::communities
        } else if n == 74230871905023879412 {
            DataTypes::rho_connections
        } else if n == 427347 {
            DataTypes::user
        } else if n == 86362582048646293 {
            DataTypes::online_status
        } else if n == 4376082132868 {
            DataTypes::omikron_id
        } else if n == 33370240905347404798441720 {
            DataTypes::omikron_connections
        } else if n == 138873884135846 {
            DataTypes::reset_token
        } else if n == 148723004381 {
            DataTypes::new_token
        } else if n == 628817371997809 {
            DataTypes::call_invited
        } else if n == 628818787608283 {
            DataTypes::call_members
        } else if n == 1623097 {
            DataTypes::calls
        } else if n == 7884568613 {
            DataTypes::timeout
        } else if n == 84343495253 {
            DataTypes::has_admin
        } else if n == 1810762859110074752 {
            DataTypes::last_message_at
        } else {
            DataTypes::error_type
        }
    }
}

// One lemma per variant: the name's characters are revealed and its number computed.
proof fn name_key_error_type()
    ensures
        is_ascii_text(DataTypes::error_type.name()),
        name_number(DataTypes::error_type.name()) == DataTypes::error_type.name_key(),
{
    reveal_strlit("error_type");
    reveal_with_fuel(name_number, 12);
}

proof fn name_key_error_protocol()
    ensures
        is_ascii_text(DataTypes::error_protocol.name()),
        name_number(DataTypes::error_protocol.name()) == DataTypes::error_protocol.name_key(),
{
    reveal_strlit("error_protocol");
    reveal_with_fuel(name_number, 16);
}

proof fn name_key_accepted_ids()
    ensures
        is_ascii_text(DataTypes::accepted_ids.name()),
        name_number(DataTypes::accepted_ids.name()) == DataTypes::accepted_ids.name_key(),
{
    reveal_strlit("accepted_ids");
    reveal_with_fuel(name_number, 14);
}

proof fn name_key_uuid()
    ensures
        is_ascii_text(DataTypes::uuid.name()),
        name_number(DataTypes::uuid.name()) == DataTypes::uuid.name_key(),
{
    reveal_strlit("uuid");
    reveal_with_fuel(name_number, 6);
}

proof fn name_key_register_id()
    ensures
        is_ascii_text(DataTypes::register_id.name()),
        name_number(DataTypes::register_id.name()) == DataTypes::register_id.name_key(),
{
    reveal_strlit("register_id");
    reveal_with_fuel(name_number, 13);
}

proof fn name_key_link()
    ensures
        is_ascii_text(DataTypes::link.name()),
        name_number(DataTypes::link.name()) == DataTypes::link.name_key(),
{
    reveal_strlit("link");
    reveal_with_fuel(name_number, 6);
}

proof fn name_key_settings()
    ensures
        is_ascii_text(DataTypes::settings.name()),
        name_number(DataTypes::settings.name()) == DataTypes::settings.name_key(),
{
    reveal_strlit("settings");
    reveal_with_fuel(name_number, 10);
}

proof fn name_key_settings_name()
    ensures
        is_ascii_text(DataTypes::settings_name.name()),
        name_number(DataTypes::settings_name.name()) == DataTypes::settings_name.name_key(),
{
    reveal_strlit("settings_name");
    reveal_with_fuel(name_number, 15);
}

proof fn name_key_chat_partner_id()
    ensures
        is_ascii_text(DataTypes::chat_partner_id.name()),
        name_number(DataTypes::chat_partner_id.name()) == DataTypes::chat_partner_id.name_key(),
{
    reveal_strlit("chat_partner_id");
    reveal_with_fuel(name_number, 17);
}

proof fn name_key_chat_partner_name()
    ensures
        is_ascii_text(DataTypes::chat_partner_name.name()),
        name_number(DataTypes::chat_partner_name.name()) == DataTypes::chat_partner_name.name_key(),
{
    reveal_strlit("chat_partner_name");
    reveal_with_fuel(name_number, 19);
}

proof fn name_key_iota_id()
    ensures
        is_ascii_text(DataTypes::iota_id.name()),
        name_number(DataTypes::iota_id.name()) == DataTypes::iota_id.name_key(),
{
    reveal_strlit("iota_id");
    reveal_with_fuel(name_number, 9);
}

proof fn name_key_user_id()
    ensures
        is_ascii_text(DataTypes::user_id.name()),
        name_number(DataTypes::user_id.name()) == DataTypes::user_id.name_key(),
{
    reveal_strlit("user_id");
    reveal_with_fuel(name_number, 9);
}

proof fn name_key_user_ids()
    ensures
        is_ascii_text(DataTypes::user_ids.name()),
        name_number(DataTypes::user_ids.name()) == DataTypes::user_ids.name_key(),
{
    reveal_strlit("user_ids");
    reveal_with_fuel(name_number, 10);
}

proof fn name_key_iota_ids()
    ensures
        is_ascii_text(DataTypes::iota_ids.name()),
        name_number(DataTypes::iota_ids.name()) == DataTypes::iota_ids.name_key(),
{
    reveal_strlit("iota_ids");
    reveal_with_fuel(name_number, 10);
}

proof fn name_key_user_state()
    ensures
        is_ascii_text(DataTypes::user_state.name()),
        name_number(DataTypes::user_state.name()) == DataTypes::user_state.name_key(),
{
    reveal_strlit("user_state");
    reveal_with_fuel(name_number, 12);
}

proof fn name_key_user_states()
    ensures
        is_ascii_text(DataTypes::user_states.name()),
        name_number(DataTypes::user_states.name()) == DataTypes::user_states.name_key(),
{
    reveal_strlit("user_states");
    reveal_with_fuel(name_number, 13);
}

proof fn name_key_user_pings()
    ensures
        is_ascii_text(DataTypes::user_pings.name()),
        name_number(DataTypes::user_pings.name()) == DataTypes::user_pings.name_key(),
{
    reveal_strlit("user_pings");
    reveal_with_fuel(name_number, 12);
}

proof fn name_key_call_state()
    ensures
        is_ascii_text(DataTypes::call_state.name()),
        name_number(DataTypes::call_state.name()) == DataTypes::call_state.name_key(),
{
    reveal_strlit("call_state");
    reveal_with_fuel(name_number, 12);
}

proof fn name_key_screen_share()
    ensures
        is_ascii_text(DataTypes::screen_share.name()),
        name_number(DataTypes::screen_share.name()) == DataTypes::screen_share.name_key(),
{
    reveal_strlit("screen_share");
    reveal_with_fuel(name_number, 14);
}

proof fn name_key_private_key_hash()
    ensures
        is_ascii_text(DataTypes::private_key_hash.name()),
        name_number(DataTypes::private_key_hash.name()) == DataTypes::private_key_hash.name_key(),
{
    reveal_strlit("private_key_hash");
    reveal_with_fuel(name_number, 18);
}

proof fn name_key_accepted()
    ensures
        is_ascii_text(DataTypes::accepted.name()),
        name_number(DataTypes::accepted.name()) == DataTypes::accepted.name_key(),
{
    reveal_strlit("accepted");
    reveal_with_fuel(name_number, 10);
}

proof fn name_key_accepted_profiles()
    ensures
        is_ascii_text(DataTypes::accepted_profiles.name()),
        name_number(DataTypes::accepted_profiles.name()) == DataTypes::accepted_profiles.name_key(),
{
    reveal_strlit("accepted_profiles");
    reveal_with_fuel(name_number, 19);
}

proof fn name_key_denied_profiles()
    ensures
        is_ascii_text(DataTypes::denied_profiles.name()),
        name_number(DataTypes::denied_profiles.name()) == DataTypes::denied_profiles.name_key(),
{
    reveal_strlit("denied_profiles");
    reveal_with_fuel(name_number, 17);
}

proof fn name_key_content()
    ensures
        is_ascii_text(DataTypes::content.name()),
        name_number(DataTypes::content.name()) == DataTypes::content.name_key(),
{
    reveal_strlit("content");
    reveal_with_fuel(name_number, 9);
}

proof fn name_key_messages()
    ensures
        is_ascii_text(DataTypes::messages.name()),
        name_number(DataTypes::messages.name()) == DataTypes::messages.name_key(),
{
    reveal_strlit("messages");
    reveal_with_fuel(name_number, 10);
}

proof fn name_key_notifications()
    ensures
        is_ascii_text(DataTypes::notifications.name()),
        name_number(DataTypes::notifications.name()) == DataTypes::notifications.name_key(),
{
    reveal_strlit("notifications");
    reveal_with_fuel(name_number, 15);
}

proof fn name_key_send_time()
    ensures
        is_ascii_text(DataTypes::send_time.name()),
        name_number(DataTypes::send_time.name()) == DataTypes::send_time.name_key(),
{
    reveal_strlit("send_time");
    reveal_with_fuel(name_number, 11);
}

proof fn name_key_get_time()
    ensures
        is_ascii_text(DataTypes::get_time.name()),
        name_number(DataTypes::get_time.name()) == DataTypes::get_time.name_key(),
{
    reveal_strlit("get_time");
    reveal_with_fuel(name_number, 10);
}

proof fn name_key_get_variant()
    ensures
        is_ascii_text(DataTypes::get_variant.name()),
        name_number(DataTypes::get_variant.name()) == DataTypes::get_variant.name_key(),
{
    reveal_strlit("get_variant");
    reveal_with_fuel(name_number, 13);
}

proof fn name_key_shared_secret_own()
    ensures
        is_ascii_text(DataTypes::shared_secret_own.name()),
        name_number(DataTypes::shared_secret_own.name()) == DataTypes::shared_secret_own.name_key(),
{
    reveal_strlit("shared_secret_own");
    reveal_with_fuel(name_number, 19);
}

proof fn name_key_shared_secret_other()
    ensures
        is_ascii_text(DataTypes::shared_secret_other.name()),
        name_number(DataTypes::shared_secret_other.name()) == DataTypes::shared_secret_other.name_key(),
{
    reveal_strlit("shared_secret_other");
    reveal_with_fuel(name_number, 21);
}

proof fn name_key_shared_secret_sign()
    ensures
        is_ascii_text(DataTypes::shared_secret_sign.name()),
        name_number(DataTypes::shared_secret_sign.name()) == DataTypes::shared_secret_sign.name_key(),
{
    reveal_strlit("shared_secret_sign");
    reveal_with_fuel(name_number, 20);
}

proof fn name_key_shared_secret()
    ensures
        is_ascii_text(DataTypes::shared_secret.name()),
        name_number(DataTypes::shared_secret.name()) == DataTypes::shared_secret.name_key(),
{
    reveal_strlit("shared_secret");
    reveal_with_fuel(name_number, 15);
}

proof fn name_key_call_id()
    ensures
        is_ascii_text(DataTypes::call_id.name()),
        name_number(DataTypes::call_id.name()) == DataTypes::call_id.name_key(),
{
    reveal_strlit("call_id");
    reveal_with_fuel(name_number, 9);
}

proof fn name_key_call_token()
    ensures
        is_ascii_text(DataTypes::call_token.name()),
        name_number(DataTypes::call_token.name()) == DataTypes::call_token.name_key(),
{
    reveal_strlit("call_token");
    reveal_with_fuel(name_number, 12);
}

proof fn name_key_untill()
    ensures
        is_ascii_text(DataTypes::untill.name()),
        name_number(DataTypes::untill.name()) == DataTypes::untill.name_key(),
{
    reveal_strlit("untill");
    reveal_with_fuel(name_number, 8);
}

proof fn name_key_enabled()
    ensures
        is_ascii_text(DataTypes::enabled.name()),
        name_number(DataTypes::enabled.name()) == DataTypes::enabled.name_key(),
{
    reveal_strlit("enabled");
    reveal_with_fuel(name_number, 9);
}

proof fn name_key_start_date()
    ensures
        is_ascii_text(DataTypes::start_date.name()),
        name_number(DataTypes::start_date.name()) == DataTypes::start_date.name_key(),
{
    reveal_strlit("start_date");
    reveal_with_fuel(name_number, 12);
}

proof fn name_key_end_date()
    ensures
        is_ascii_text(DataTypes::end_date.name()),
        name_number(DataTypes::end_date.name()) == DataTypes::end_date.name_key(),
{
    reveal_strlit("end_date");
    reveal_with_fuel(name_number, 10);
}

proof fn name_key_receiver_id()
    ensures
        is_ascii_text(DataTypes::receiver_id.name()),
        name_number(DataTypes::receiver_id.name()) == DataTypes::receiver_id.name_key(),
{
    reveal_strlit("receiver_id");
    reveal_with_fuel(name_number, 13);
}

proof fn name_key_sender_id()
    ensures
        is_ascii_text(DataTypes::sender_id.name()),
        name_number(DataTypes::sender_id.name()) == DataTypes::sender_id.name_key(),
{
    reveal_strlit("sender_id");
    reveal_with_fuel(name_number, 11);
}

proof fn name_key_signature()
    ensures
        is_ascii_text(DataTypes::signature.name()),
        name_number(DataTypes::signature.name()) == DataTypes::signature.name_key(),
{
    reveal_strlit("signature");
    reveal_with_fuel(name_number, 11);
}

proof fn name_key_signed()
    ensures
        is_ascii_text(DataTypes::signed.name()),
        name_number(DataTypes::signed.name()) == DataTypes::signed.name_key(),
{
    reveal_strlit("signed");
    reveal_with_fuel(name_number, 8);
}

proof fn name_key_message()
    ensures
        is_ascii_text(DataTypes::message.name()),
        name_number(DataTypes::message.name()) == DataTypes::message.name_key(),
{
    reveal_strlit("message");
    reveal_with_fuel(name_number, 9);
}

proof fn name_key_message_state()
    ensures
        is_ascii_text(DataTypes::message_state.name()),
        name_number(DataTypes::message_state.name()) == DataTypes::message_state.name_key(),
{
    reveal_strlit("message_state");
    reveal_with_fuel(name_number, 15);
}

proof fn name_key_last_ping()
    ensures
        is_ascii_text(DataTypes::last_ping.name()),
        name_number(DataTypes::last_ping.name()) == DataTypes::last_ping.name_key(),
{
    reveal_strlit("last_ping");
    reveal_with_fuel(name_number, 11);
}

proof fn name_key_ping_iota()
    ensures
        is_ascii_text(DataTypes::ping_iota.name()),
        name_number(DataTypes::ping_iota.name()) == DataTypes::ping_iota.name_key(),
{
    reveal_strlit("ping_iota");
    reveal_with_fuel(name_number, 11);
}

proof fn name_key_ping_clients()
    ensures
        is_ascii_text(DataTypes::ping_clients.name()),
        name_number(DataTypes::ping_clients.name()) == DataTypes::ping_clients.name_key(),
{
    reveal_strlit("ping_clients");
    reveal_with_fuel(name_number, 14);
}

proof fn name_key_matches()
    ensures
        is_ascii_text(DataTypes::matches.name()),
        name_number(DataTypes::matches.name()) == DataTypes::matches.name_key(),
{
    reveal_strlit("matches");
    reveal_with_fuel(name_number, 9);
}

proof fn name_key_omikron()
    ensures
        is_ascii_text(DataTypes::omikron.name()),
        name_number(DataTypes::omikron.name()) == DataTypes::omikron.name_key(),
{
    reveal_strlit("omikron");
    reveal_with_fuel(name_number, 9);
}

proof fn name_key_offset()
    ensures
        is_ascii_text(DataTypes::offset.name()),
        name_number(DataTypes::offset.name()) == DataTypes::offset.name_key(),
{
    reveal_strlit("offset");
    reveal_with_fuel(name_number, 8);
}

proof fn name_key_amount()
    ensures
        is_ascii_text(DataTypes::amount.name()),
        name_number(DataTypes::amount.name()) == DataTypes::amount.name_key(),
{
    reveal_strlit("amount");
    reveal_with_fuel(name_number, 8);
}

proof fn name_key_position()
    ensures
        is_ascii_text(DataTypes::position.name()),
        name_number(DataTypes::position.name()) == DataTypes::position.name_key(),
{
    reveal_strlit("position");
    reveal_with_fuel(name_number, 10);
}

proof fn name_key_name()
    ensures
        is_ascii_text(DataTypes::name.name()),
        name_number(DataTypes::name.name()) == DataTypes::name.name_key(),
{
    reveal_strlit("name");
    reveal_with_fuel(name_number, 6);
}

proof fn name_key_path()
    ensures
        is_ascii_text(DataTypes::path.name()),
        name_number(DataTypes::path.name()) == DataTypes::path.name_key(),
{
    reveal_strlit("path");
    reveal_with_fuel(name_number, 6);
}

proof fn name_key_codec()
    ensures
        is_ascii_text(DataTypes::codec.name()),
        name_number(DataTypes::codec.name()) == DataTypes::codec.name_key(),
{
    reveal_strlit("codec");
    reveal_with_fuel(name_number, 7);
}

proof fn name_key_function()
    ensures
        is_ascii_text(DataTypes::function.name()),
        name_number(DataTypes::function.name()) == DataTypes::function.name_key(),
{
    reveal_strlit("function");
    reveal_with_fuel(name_number, 10);
}

proof fn name_key_payload()
    ensures
        is_ascii_text(DataTypes::payload.name()),
        name_number(DataTypes::payload.name()) == DataTypes::payload.name_key(),
{
    reveal_strlit("payload");
    reveal_with_fuel(name_number, 9);
}

proof fn name_key_result()
    ensures
        is_ascii_text(DataTypes::result.name()),
        name_number(DataTypes::result.name()) == DataTypes::result.name_key(),
{
    reveal_strlit("result");
    reveal_with_fuel(name_number, 8);
}

proof fn name_key_interactables()
    ensures
        is_ascii_text(DataTypes::interactables.name()),
        name_number(DataTypes::interactables.name()) == DataTypes::interactables.name_key(),
{
    reveal_strlit("interactables");
    reveal_with_fuel(name_number, 15);
}

proof fn name_key_want_to_watch()
    ensures
        is_ascii_text(DataTypes::want_to_watch.name()),
        name_number(DataTypes::want_to_watch.name()) == DataTypes::want_to_watch.name_key(),
{
    reveal_strlit("want_to_watch");
    reveal_with_fuel(name_number, 15);
}

proof fn name_key_watcher()
    ensures
        is_ascii_text(DataTypes::watcher.name()),
        name_number(DataTypes::watcher.name()) == DataTypes::watcher.name_key(),
{
    reveal_strlit("watcher");
    reveal_with_fuel(name_number, 9);
}

proof fn name_key_created_at()
    ensures
        is_ascii_text(DataTypes::created_at.name()),
        name_number(DataTypes::created_at.name()) == DataTypes::created_at.name_key(),
{
    reveal_strlit("created_at");
    reveal_with_fuel(name_number, 12);
}

proof fn name_key_username()
    ensures
        is_ascii_text(DataTypes::username.name()),
        name_number(DataTypes::username.name()) == DataTypes::username.name_key(),
{
    reveal_strlit("username");
    reveal_with_fuel(name_number, 10);
}

proof fn name_key_display()
    ensures
        is_ascii_text(DataTypes::display.name()),
        name_number(DataTypes::display.name()) == DataTypes::display.name_key(),
{
    reveal_strlit("display");
    reveal_with_fuel(name_number, 9);
}

proof fn name_key_avatar()
    ensures
        is_ascii_text(DataTypes::avatar.name()),
        name_number(DataTypes::avatar.name()) == DataTypes::avatar.name_key(),
{
    reveal_strlit("avatar");
    reveal_with_fuel(name_number, 8);
}

proof fn name_key_about()
    ensures
        is_ascii_text(DataTypes::about.name()),
        name_number(DataTypes::about.name()) == DataTypes::about.name_key(),
{
    reveal_strlit("about");
    reveal_with_fuel(name_number, 7);
}

proof fn name_key_status()
    ensures
        is_ascii_text(DataTypes::status.name()),
        name_number(DataTypes::status.name()) == DataTypes::status.name_key(),
{
    reveal_strlit("status");
    reveal_with_fuel(name_number, 8);
}

proof fn name_key_public_key()
    ensures
        is_ascii_text(DataTypes::public_key.name()),
        name_number(DataTypes::public_key.name()) == DataTypes::public_key.name_key(),
{
    reveal_strlit("public_key");
    reveal_with_fuel(name_number, 12);
}

proof fn name_key_sub_level()
    ensures
        is_ascii_text(DataTypes::sub_level.name()),
        name_number(DataTypes::sub_level.name()) == DataTypes::sub_level.name_key(),
{
    reveal_strlit("sub_level");
    reveal_with_fuel(name_number, 11);
}

proof fn name_key_sub_end()
    ensures
        is_ascii_text(DataTypes::sub_end.name()),
        name_number(DataTypes::sub_end.name()) == DataTypes::sub_end.name_key(),
{
    reveal_strlit("sub_end");
    reveal_with_fuel(name_number, 9);
}

proof fn name_key_community_address()
    ensures
        is_ascii_text(DataTypes::community_address.name()),
        name_number(DataTypes::community_address.name()) == DataTypes::community_address.name_key(),
{
    reveal_strlit("community_address");
    reveal_with_fuel(name_number, 19);
}

proof fn name_key_challenge()
    ensures
        is_ascii_text(DataTypes::challenge.name()),
        name_number(DataTypes::challenge.name()) == DataTypes::challenge.name_key(),
{
    reveal_strlit("challenge");
    reveal_with_fuel(name_number, 11);
}

proof fn name_key_community_title()
    ensures
        is_ascii_text(DataTypes::community_title.name()),
        name_number(DataTypes::community_title.name()) == DataTypes::community_title.name_key(),
{
    reveal_strlit("community_title");
    reveal_with_fuel(name_number, 17);
}

proof fn name_key_communities()
    ensures
        is_ascii_text(DataTypes::communities.name()),
        name_number(DataTypes::communities.name()) == DataTypes::communities.name_key(),
{
    reveal_strlit("communities");
    reveal_with_fuel(name_number, 13);
}

proof fn name_key_rho_connections()
    ensures
        is_ascii_text(DataTypes::rho_connections.name()),
        name_number(DataTypes::rho_connections.name()) == DataTypes::rho_connections.name_key(),
{
    reveal_strlit("rho_connections");
    reveal_with_fuel(name_number, 17);
}

proof fn name_key_user()
    ensures
        is_ascii_text(DataTypes::user.name()),
        name_number(DataTypes::user.name()) == DataTypes::user.name_key(),
{
    reveal_strlit("user");
    reveal_with_fuel(name_number, 6);
}

proof fn name_key_online_status()
    ensures
        is_ascii_text(DataTypes::online_status.name()),
        name_number(DataTypes::online_status.name()) == DataTypes::online_status.name_key(),
{
    reveal_strlit("online_status");
    reveal_with_fuel(name_number, 15);
}

proof fn name_key_omikron_id()
    ensures
        is_ascii_text(DataTypes::omikron_id.name()),
        name_number(DataTypes::omikron_id.name()) == DataTypes::omikron_id.name_key(),
{
    reveal_strlit("omikron_id");
    reveal_with_fuel(name_number, 12);
}

proof fn name_key_omikron_connections()
    ensures
        is_ascii_text(DataTypes::omikron_connections.name()),
        name_number(DataTypes::omikron_connections.name()) == DataTypes::omikron_connections.name_key(),
{
    reveal_strlit("omikron_connections");
    reveal_with_fuel(name_number, 21);
}

proof fn name_key_reset_token()
    ensures
        is_ascii_text(DataTypes::reset_token.name()),
        name_number(DataTypes::reset_token.name()) == DataTypes::reset_token.name_key(),
{
    reveal_strlit("reset_token");
    reveal_with_fuel(name_number, 13);
}

proof fn name_key_new_token()
    ensures
        is_ascii_text(DataTypes::new_token.name()),
        name_number(DataTypes::new_token.name()) == DataTypes::new_token.name_key(),
{
    reveal_strlit("new_token");
    reveal_with_fuel(name_number, 11);
}

proof fn name_key_call_invited()
    ensures
        is_ascii_text(DataTypes::call_invited.name()),
        name_number(DataTypes::call_invited.name()) == DataTypes::call_invited.name_key(),
{
    reveal_strlit("call_invited");
    reveal_with_fuel(name_number, 14);
}

proof fn name_key_call_members()
    ensures
        is_ascii_text(DataTypes::call_members.name()),
        name_number(DataTypes::call_members.name()) == DataTypes::call_members.name_key(),
{
    reveal_strlit("call_members");
    reveal_with_fuel(name_number, 14);
}

proof fn name_key_calls()
    ensures
        is_ascii_text(DataTypes::calls.name()),
        name_number(DataTypes::calls.name()) == DataTypes::calls.name_key(),
{
    reveal_strlit("calls");
    reveal_with_fuel(name_number, 7);
}

proof fn name_key_timeout()
    ensures
        is_ascii_text(DataTypes::timeout.name()),
        name_number(DataTypes::timeout.name()) == DataTypes::timeout.name_key(),
{
    reveal_strlit("timeout");
    reveal_with_fuel(name_number, 9);
}

proof fn name_key_has_admin()
    ensures
        is_ascii_text(DataTypes::has_admin.name()),
        name_number(DataTypes::has_admin.name()) == DataTypes::has_admin.name_key(),
{
    reveal_strlit("has_admin");
    reveal_with_fuel(name_number, 11);
}

proof fn name_key_last_message_at()
    ensures
        is_ascii_text(DataTypes::last_message_at.name()),
        name_number(DataTypes::last_message_at.name()) == DataTypes::last_message_at.name_key(),
{
    reveal_strlit("last_message_at");
    reveal_with_fuel(name_number, 17);
}

/// The name of every data type is ASCII text, and its `name_number` is its `name_key`.
pub proof fn lemma_name_facts(t: DataTypes)
    ensures
        is_ascii_text(t.name()),
        name_number(t.name()) == t.name_key(),
{
    match t {
        DataTypes::error_type => name_key_error_type(),
        DataTypes::error_protocol => name_key_error_protocol(),
        DataTypes::accepted_ids => name_key_accepted_ids(),
        DataTypes::uuid => name_key_uuid(),
        DataTypes::register_id => name_key_register_id(),
        DataTypes::link => name_key_link(),
        DataTypes::settings => name_key_settings(),
        DataTypes::settings_name => name_key_settings_name(),
        DataTypes::chat_partner_id => name_key_chat_partner_id(),
        DataTypes::chat_partner_name => name_key_chat_partner_name(),
        DataTypes::iota_id => name_key_iota_id(),
        DataTypes::user_id => name_key_user_id(),
        DataTypes::user_ids => name_key_user_ids(),
        DataTypes::iota_ids => name_key_iota_ids(),
        DataTypes::user_state => name_key_user_state(),
        DataTypes::user_states => name_key_user_states(),
        DataTypes::user_pings => name_key_user_pings(),
        DataTypes::call_state => name_key_call_state(),
        DataTypes::screen_share => name_key_screen_share(),
        DataTypes::private_key_hash => name_key_private_key_hash(),
        DataTypes::accepted => name_key_accepted(),
        DataTypes::accepted_profiles => name_key_accepted_profiles(),
        DataTypes::denied_profiles => name_key_denied_profiles(),
        DataTypes::content => name_key_content(),
        DataTypes::messages => name_key_messages(),
        DataTypes::notifications => name_key_notifications(),
        DataTypes::send_time => name_key_send_time(),
        DataTypes::get_time => name_key_get_time(),
        DataTypes::get_variant => name_key_get_variant(),
        DataTypes::shared_secret_own => name_key_shared_secret_own(),
        DataTypes::shared_secret_other => name_key_shared_secret_other(),
        DataTypes::shared_secret_sign => name_key_shared_secret_sign(),
        DataTypes::shared_secret => name_key_shared_secret(),
        DataTypes::call_id => name_key_call_id(),
        DataTypes::call_token => name_key_call_token(),
        DataTypes::untill => name_key_untill(),
        DataTypes::enabled => name_key_enabled(),
        DataTypes::start_date => name_key_start_date(),
        DataTypes::end_date => name_key_end_date(),
        DataTypes::receiver_id => name_key_receiver_id(),
        DataTypes::sender_id => name_key_sender_id(),
        DataTypes::signature => name_key_signature(),
        DataTypes::signed => name_key_signed(),
        DataTypes::message => name_key_message(),
        DataTypes::message_state => name_key_message_state(),
        DataTypes::last_ping => name_key_last_ping(),
        DataTypes::ping_iota => name_key_ping_iota(),
        DataTypes::ping_clients => name_key_ping_clients(),
        DataTypes::matches => name_key_matches(),
        DataTypes::omikron => name_key_omikron(),
        DataTypes::offset => name_key_offset(),
        DataTypes::amount => name_key_amount(),
        DataTypes::position => name_key_position(),
        DataTypes::name => name_key_name(),
        DataTypes::path => name_key_path(),
        DataTypes::codec => name_key_codec(),
        DataTypes::function => name_key_function(),
        DataTypes::payload => name_key_payload(),
        DataTypes::result => name_key_result(),
        DataTypes::interactables => name_key_interactables(),
        DataTypes::want_to_watch => name_key_want_to_watch(),
        DataTypes::watcher => name_key_watcher(),
        DataTypes::created_at => name_key_created_at(),
        DataTypes::username => name_key_username(),
        DataTypes::display => name_key_display(),
        DataTypes::avatar => name_key_avatar(),
        DataTypes::about => name_key_about(),
        DataTypes::status => name_key_status(),
        DataTypes::public_key => name_key_public_key(),
        DataTypes::sub_level => name_key_sub_level(),
        DataTypes::sub_end => name_key_sub_end(),
        DataTypes::community_address => name_key_community_address(),
        DataTypes::challenge => name_key_challenge(),
        DataTypes::community_title => name_key_community_title(),
        DataTypes::communities => name_key_communities(),
        DataTypes::rho_connections => name_key_rho_connections(),
        DataTypes::user => name_key_user(),
        DataTypes::online_status => name_key_online_status(),
        DataTypes::omikron_id => name_key_omikron_id(),
        DataTypes::omikron_connections => name_key_omikron_connections(),
        DataTypes::reset_token => name_key_reset_token(),
        DataTypes::new_token => name_key_new_token(),
        DataTypes::call_invited => name_key_call_invited(),
        DataTypes::call_members => name_key_call_members(),
        DataTypes::calls => name_key_calls(),
        DataTypes::timeout => name_key_timeout(),
        DataTypes::has_admin => name_key_has_admin(),
        DataTypes::last_message_at => name_key_last_message_at(),
    }
}

/// No two data types have the same `name_key`.
pub proof fn lemma_name_key_injective(a: DataTypes, b: DataTypes)
    ensures
        a.name_key() == b.name_key() ==> a == b,
{
    assert(DataTypes::of_name_key(a.name_key()) == a);
    assert(DataTypes::of_name_key(b.name_key()) == b);
}

/// `parse` reads the name of every data type back as that data type: its name is ASCII text, and
/// no data type before it in declaration order has the same name once lowercased and stripped
/// of underscores.
pub proof fn lemma_data_type_name_roundtrip(t: DataTypes)
    ensures
        is_ascii_text(t.name()),
        DataTypes::first_match_ascii(t.name(), 0) == t,
{
    lemma_name_facts(t);
    lemma_first_match_from(t, 0);
}

proof fn lemma_first_match_from(t: DataTypes, i: int)
    requires
        0 <= i <= t.code(),
    ensures
        DataTypes::first_match_ascii(t.name(), i) == t,
    decreases t.code() - i,
{
    crate::data_types::lemma_data_type_code_roundtrip(t, i as u8);
    if i < t.code() {
        let v = DataTypes::of_code(i as u8);
        lemma_name_facts(v);
        lemma_name_facts(t);
        lemma_name_key_injective(v, t);
        lemma_name_number(v.name());
        lemma_name_number(t.name());
        assert(ascii_normalized(v.name()) != ascii_normalized(t.name()));
        lemma_first_match_from(t, i + 1);
    }
}

} // verus!
