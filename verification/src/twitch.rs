//! Twitch side: the API keys taken from the settings, the tokens restored
//! from disk, and what each channel-point redemption does to the bulbs.

use vstd::prelude::*;
use crate::clients::TuyaOp;
use crate::settings::Settings;
use crate::text::{str_eq, trim_str, trimmed};

verus! {

/// Credentials for the Twitch EventSub connection. `access_token` is a user
/// access token.
pub struct TwitchKeysData {
    pub authorisation_code: Option<String>,
    pub access_token: Option<String>,
    pub refresh_token: Option<String>,
    pub client_id: String,
    pub client_secret: String,
    pub broadcaster_account_id: String,
    pub sender_account_id: Option<String>,
}

/// The string a setting holds, or the empty string.
pub open spec fn or_empty(o: Option<String>) -> Seq<char> {
    match o {
        Some(s) => s@,
        None => Seq::empty(),
    }
}

fn string_or_empty(o: &Option<String>) -> (r: String)
    ensures
        r@ == or_empty(*o),
{
    match o {
        Some(s) => s.clone(),
        None => String::new(),
    }
}

fn clone_option(o: &Option<String>) -> (r: Option<String>)
    ensures
        r == *o,
{
    match o {
        Some(v) => Some(v.clone()),
        None => None,
    }
}

/// The Twitch keys in the settings; absent ids and secret become empty
/// strings, the access token is used as a user token, and no
/// authorisation code or sender account is given.
pub fn get_twitch_keys(settings: &Settings) -> (k: TwitchKeysData)
    ensures
        k.client_id@ == or_empty(settings.twitch.client_id),
        k.client_secret@ == or_empty(settings.twitch.client_secret),
        k.broadcaster_account_id@ == or_empty(settings.twitch.broadcaster_id),
        k.access_token == settings.twitch.access_token,
        k.refresh_token == settings.twitch.refresh_token,
        k.authorisation_code is None,
        k.sender_account_id is None,
{
    TwitchKeysData {
        client_id: string_or_empty(&settings.twitch.client_id),
        client_secret: string_or_empty(&settings.twitch.client_secret),
        broadcaster_account_id: string_or_empty(&settings.twitch.broadcaster_id),
        access_token: clone_option(&settings.twitch.access_token),
        refresh_token: clone_option(&settings.twitch.refresh_token),
        authorisation_code: None,
        sender_account_id: None,
    }
}

/// The tokens to store, given the contents of the saved access-token and
/// refresh-token files: both trimmed, unless the access token is empty
/// after trimming, in which case nothing is stored.
pub fn twitch_tokens_to_settings(access: &str, refresh: &str) -> (r: Option<(String, String)>)
    ensures
        trimmed(access@).len() == 0 <==> r is None,
        r matches Some(t) ==> t.0@ == trimmed(access@) && t.1@ == trimmed(refresh@),
{
    let a = trim_str(access);
    if a.unicode_len() == 0 {
        None
    } else {
        Some((String::from_str(a), String::from_str(trim_str(refresh))))
    }
}

/// An EventSub subscription the connection asks for.
#[derive(Clone, Copy, Debug, PartialEq, Eq, Structural)]
pub enum TwitchSubscription {
    ChannelFollow,
    ChannelPointsCustomRewardRedeem,
    ChannelPointsAutoRewardRedeem,
}

/// How the EventSub connection is set up: the OAuth redirect URL, whether
/// a user token is generated when there is none and renewed when it
/// expires, the files the user and refresh tokens are saved to and loaded
/// from, and the subscriptions, in the order they are added.
pub struct ConnectionConfig {
    pub redirect_url: String,
    pub generate_new_token_if_none: bool,
    pub generate_access_token_on_expire: bool,
    pub user_token_file: String,
    pub refresh_token_file: String,
    pub subscriptions: Vec<TwitchSubscription>,
}

/// The set-up of the EventSub connection: redirect to
/// `https://twitch-auth.flamingo-lindo.com.br/`, generate a token when
/// there is none and renew it on expiry, keep the tokens in
/// `.user_token.env` and `.refresh_token.env`, and subscribe to channel
/// follows, then custom and automatic channel-point redemptions.
pub fn connection_config() -> (c: ConnectionConfig)
    ensures
        c.redirect_url@ == "https://twitch-auth.flamingo-lindo.com.br/"@,
        c.generate_new_token_if_none,
        c.generate_access_token_on_expire,
        c.user_token_file@ == ".user_token.env"@,
        c.refresh_token_file@ == ".refresh_token.env"@,
        c.subscriptions@ == seq![
            TwitchSubscription::ChannelFollow,
            TwitchSubscription::ChannelPointsCustomRewardRedeem,
            TwitchSubscription::ChannelPointsAutoRewardRedeem,
        ],
{
    let mut subscriptions: Vec<TwitchSubscription> = Vec::new();
    subscriptions.push(TwitchSubscription::ChannelFollow);
    subscriptions.push(TwitchSubscription::ChannelPointsCustomRewardRedeem);
    subscriptions.push(TwitchSubscription::ChannelPointsAutoRewardRedeem);
    assert(subscriptions@ =~= seq![
        TwitchSubscription::ChannelFollow,
        TwitchSubscription::ChannelPointsCustomRewardRedeem,
        TwitchSubscription::ChannelPointsAutoRewardRedeem,
    ]);
    ConnectionConfig {
        redirect_url: String::from_str("https://twitch-auth.flamingo-lindo.com.br/"),
        generate_new_token_if_none: true,
        generate_access_token_on_expire: true,
        user_token_file: String::from_str(".user_token.env"),
        refresh_token_file: String::from_str(".refresh_token.env"),
        subscriptions,
    }
}

/// The channel-point rewards that act on the bulbs.
pub open spec fn is_color_reward(title: Seq<char>) -> bool {
    title == "Change Lights Color"@
}

pub open spec fn is_off_reward(title: Seq<char>) -> bool {
    title == "Turn Lights Off"@
}

pub open spec fn is_on_reward(title: Seq<char>) -> bool {
    title == "Turn Lights On"@
}

pub open spec fn is_bosnia_reward(title: Seq<char>) -> bool {
    title == "Bosnian Lights"@
}

/// The bulb operations a redemption of the reward `title` asks for, in
/// order: a colour change paints the user's text; "off" switches off; "on"
/// switches on and restores the default look; the Bosnian reward switches
/// on and paints blue and yellow. Other rewards do nothing. When the list
/// is not empty the time of the last light change is updated after it.
pub fn redemption_ops(title: &str, user_input: &str) -> (ops: Vec<TuyaOp>)
    ensures
        is_color_reward(title@) ==> ops@.len() == 1 && (ops@[0] matches TuyaOp::Color(s) && s@ == user_input@),
        is_off_reward(title@) ==> ops@.len() == 1 && ops@[0] == TuyaOp::State(false),
        is_on_reward(title@) ==> ops@.len() == 2 && ops@[0] == TuyaOp::State(true) && ops@[1] == TuyaOp::Default,
        is_bosnia_reward(title@) ==> ops@.len() == 2 && ops@[0] == TuyaOp::State(true) && ops@[1] == TuyaOp::Bosnia,
        !is_color_reward(title@) && !is_off_reward(title@) && !is_on_reward(title@) && !is_bosnia_reward(title@)
            ==> ops@.len() == 0,
{
    proof {
        reveal_strlit("Change Lights Color");
        reveal_strlit("Turn Lights Off");
        reveal_strlit("Turn Lights On");
        reveal_strlit("Bosnian Lights");
        assert("Change Lights Color"@.len() == 19);
        assert("Turn Lights Off"@.len() == 15);
        assert("Turn Lights On"@.len() == 14);
        assert("Bosnian Lights"@.len() == 14);
        assert("Turn Lights On"@[0] != "Bosnian Lights"@[0]);
    }
    let mut ops: Vec<TuyaOp> = Vec::new();
    if str_eq(title, "Change Lights Color") {
        ops.push(TuyaOp::Color(String::from_str(user_input)));
    }
    if str_eq(title, "Turn Lights Off") {
        ops.push(TuyaOp::State(false));
    }
    if str_eq(title, "Turn Lights On") {
        ops.push(TuyaOp::State(true));
        ops.push(TuyaOp::Default);
    }
    if str_eq(title, "Bosnian Lights") {
        ops.push(TuyaOp::State(true));
        ops.push(TuyaOp::Bosnia);
    }
    ops
}


/// Seconds after the last light change at which the default look is
/// restored.
pub const RESTORE_AFTER_SECS: u64 = 5;

/// Whether the default look is due, given the milliseconds elapsed since
/// the last light change (`None` when there is no pending change): it is
/// once at least `RESTORE_AFTER_SECS` seconds have passed.
pub fn restore_due(since_last_change_ms: Option<u64>) -> (due: bool)
    ensures
        due == (since_last_change_ms matches Some(ms) && ms >= RESTORE_AFTER_SECS * 1000),
{
    match since_last_change_ms {
        Some(ms) => ms >= RESTORE_AFTER_SECS * 1000,
        None => false,
    }
}

} // verus!
