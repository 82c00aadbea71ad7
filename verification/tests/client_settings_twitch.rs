use lights::clients::{stages, Stage, TokenStatus, TuyaClient, TuyaOp};
use lights::settings::{fill_missing, initial_settings, LightSettings};
use lights::twitch::{
    connection_config, get_twitch_keys, redemption_ops, restore_due, twitch_tokens_to_settings,
    TwitchSubscription,
};

fn client(expires_at: u64) -> TuyaClient {
    TuyaClient::new(
        "cid".to_string(),
        "sec".to_string(),
        "https://x".to_string(),
        "HMAC-SHA256".to_string(),
        Some("tok".to_string()),
        expires_at,
    )
}

#[test]
fn token_status_thresholds() {
    let c = client(100_000);
    assert_eq!(c.token_status(40_000), TokenStatus::Valid);
    assert_eq!(c.token_status(40_001), TokenStatus::ExpiringSoon);
    assert_eq!(c.token_status(99_999), TokenStatus::ExpiringSoon);
    assert_eq!(c.token_status(100_000), TokenStatus::Expired);
    assert_eq!(c.token_status(200_000), TokenStatus::Expired);
}

#[test]
fn apply_token_renews_or_keeps() {
    let mut c = client(0);
    c.apply_token(5_000, Some(("new".to_string(), 7200)));
    assert_eq!(c.access_token.as_deref(), Some("new"));
    assert_eq!(c.token_expires_at, 5_000 + 7_200_000);
    assert_eq!(c.token_status(5_000), TokenStatus::Valid);
    c.apply_token(9_000, None);
    assert_eq!(c.access_token.as_deref(), Some("new"));
    assert_eq!(c.token_expires_at, 7_205_000);
}

#[test]
fn credentials_default_to_empty_token() {
    let mut c = client(0);
    assert_eq!(c.credentials().access_token, "tok");
    c.access_token = None;
    let creds = c.credentials();
    assert_eq!(creds.access_token, "");
    assert_eq!(creds.client_id, "cid");
    assert_eq!(creds.sign_method, "HMAC-SHA256");
}

#[test]
fn stages_of_each_operation() {
    let s = stages(TuyaOp::Color("red".to_string()));
    assert!(matches!(s.as_slice(), [Stage::Switch(true), Stage::PaintNamed(n)] if n == "red"));
    assert!(matches!(stages(TuyaOp::State(false)).as_slice(), [Stage::Switch(false)]));
    assert!(matches!(stages(TuyaOp::Default).as_slice(), [Stage::Restore, Stage::Switch(true)]));
    assert!(matches!(stages(TuyaOp::Bosnia).as_slice(), [Stage::Switch(true), Stage::Alternate]));
}

#[test]
fn initial_settings_values() {
    let s = initial_settings();
    assert_eq!(s.base_url, "https://openapi.tuyaus.com");
    assert_eq!(s.headers.sign_method, "HMAC-SHA256");
    assert_eq!(s.token.expires_at, Some(0));
    assert_eq!(s.lights.len(), 2);
    assert_eq!(s.lights[0].0, "source1");
    assert_eq!(s.lights[1].0, "source2");
    assert!(s.lights.iter().all(|(_, l)| l.switch_led && l.device_id.as_deref() == Some("")));
    assert_eq!(s.default_settings.work_mode, "white");
    assert_eq!(s.default_settings.bright_value_v2, 480);
    assert_eq!(s.default_settings.temp_value_v2, 1000);
    assert_eq!(s.twitch.client_id.as_deref(), Some(""));
}

#[test]
fn light_settings_default() {
    let l = LightSettings::default();
    assert!(l.device_id.is_none());
    assert!(l.switch_led);
}

fn strings(v: &[&str]) -> Vec<String> {
    v.iter().map(|s| s.to_string()).collect()
}

#[test]
fn fill_missing_asks_for_missing_fields() {
    let mut s = initial_settings();
    s.twitch.client_id = Some("already".to_string());
    s.lights[1].1.device_id = Some("dev-b".to_string());
    assert_eq!(
        s.missing_labels(),
        strings(&[
            "No secret set, please enter it:",
            "No client_id set, please enter it:",
            "No twitch client_secret set, please enter it",
            "No twitch broadcaster_id set, please enter it",
            "No device_id set for 'source1', please enter it:",
        ])
    );
    fill_missing(&mut s, &strings(&["a1", "a2", "a3", "a4", "a5"]));
    assert_eq!(s.secret.value.as_deref(), Some("a1"));
    assert_eq!(s.headers.client_id.as_deref(), Some("a2"));
    assert_eq!(s.twitch.client_id.as_deref(), Some("already"));
    assert_eq!(s.twitch.client_secret.as_deref(), Some("a3"));
    assert_eq!(s.twitch.broadcaster_id.as_deref(), Some("a4"));
    assert_eq!(s.lights[0].1.device_id.as_deref(), Some("a5"));
    assert_eq!(s.lights[1].1.device_id.as_deref(), Some("dev-b"));
    assert_eq!(s.twitch.access_token.as_deref(), Some(""));
    assert!(s.missing_labels().is_empty());
}

#[test]
fn fill_missing_scripted_answers_in_order() {
    let mut s = initial_settings();
    s.secret.value = Some(String::new());
    s.headers.client_id = None;
    s.twitch.client_id = Some("tc".to_string());
    s.twitch.client_secret = Some(String::new());
    s.twitch.broadcaster_id = Some("b".to_string());
    s.lights = vec![("l1".to_string(), LightSettings { device_id: None, switch_led: false })];
    let labels = s.missing_labels();
    assert_eq!(labels.len(), 4);
    assert_eq!(labels[3], "No device_id set for 'l1', please enter it:");
    fill_missing(&mut s, &strings(&["s1", "c1", "ts", "dev"]));
    assert_eq!(s.secret.value.as_deref(), Some("s1"));
    assert_eq!(s.headers.client_id.as_deref(), Some("c1"));
    assert_eq!(s.twitch.client_id.as_deref(), Some("tc"));
    assert_eq!(s.twitch.client_secret.as_deref(), Some("ts"));
    assert_eq!(s.twitch.broadcaster_id.as_deref(), Some("b"));
    assert_eq!(s.lights[0].1.device_id.as_deref(), Some("dev"));
    assert!(!s.lights[0].1.switch_led);
}

#[test]
fn fill_missing_initial_settings_seven_prompts() {
    let mut s = initial_settings();
    assert_eq!(s.missing_labels().len(), 7);
    fill_missing(&mut s, &strings(&["sec", "cid", "tcid", "tsec", "bid", "d1", "d2"]));
    assert_eq!(s.base_url, "https://openapi.tuyaus.com");
    assert_eq!(s.headers.sign_method, "HMAC-SHA256");
    assert_eq!(s.token.expires_at, Some(0));
    assert_eq!(s.secret.value.as_deref(), Some("sec"));
    assert_eq!(s.headers.client_id.as_deref(), Some("cid"));
    assert_eq!(s.twitch.broadcaster_id.as_deref(), Some("bid"));
    assert_eq!(s.lights[0].0, "source1");
    assert_eq!(s.lights[0].1.device_id.as_deref(), Some("d1"));
    assert_eq!(s.lights[1].1.device_id.as_deref(), Some("d2"));
    assert!(s.lights.iter().all(|l| l.1.switch_led));
    assert_eq!(s.default_settings.bright_value_v2, 480);
}

#[test]
fn fill_missing_on_complete_settings_asks_nothing() {
    let mut s = initial_settings();
    fill_missing(&mut s, &strings(&["x", "x", "x", "x", "x", "x", "x"]));
    assert!(s.missing_labels().is_empty());
    fill_missing(&mut s, &strings(&["y"]));
    assert_eq!(s.secret.value.as_deref(), Some("x"));
    assert_eq!(s.lights[0].1.device_id.as_deref(), Some("x"));
}

#[test]
fn fill_missing_with_too_few_answers_keeps_the_rest() {
    let mut s = initial_settings();
    fill_missing(&mut s, &strings(&["only"]));
    assert_eq!(s.secret.value.as_deref(), Some("only"));
    assert_eq!(s.headers.client_id.as_deref(), Some(""));
    assert_eq!(s.missing_labels().len(), 6);
}

#[test]
fn record_updates() {
    let mut s = initial_settings();
    s.record_time_stamp("123".to_string());
    s.record_sign("ABC".to_string());
    s.record_twitch_tokens("ta".to_string(), "tr".to_string());
    s.record_token_at("a".to_string(), "r".to_string(), 7200, 1_000);
    assert_eq!(s.headers.t.as_deref(), Some("123"));
    assert_eq!(s.headers.sign.as_deref(), Some("ABC"));
    assert_eq!(s.twitch.access_token.as_deref(), Some("ta"));
    assert_eq!(s.twitch.refresh_token.as_deref(), Some("tr"));
    assert_eq!(s.token.access_token.as_deref(), Some("a"));
    assert_eq!(s.token.expires_at, Some(8_200));
    assert!(s.record_token("b".to_string(), "r2".to_string(), 10));
    assert_eq!(s.token.access_token.as_deref(), Some("b"));
    assert!(s.token.expires_at.unwrap() > 1_600_000_000);
    assert!(!s.record_token("c".to_string(), "r3".to_string(), i64::MAX));
    assert_eq!(s.token.access_token.as_deref(), Some("b"));
}

#[test]
fn record_led_state_sets_every_light() {
    let mut s = initial_settings();
    s.lights[0].1.device_id = Some("d0".to_string());
    s.record_led_state(false);
    assert!(s.lights.iter().all(|(_, l)| !l.switch_led));
    assert_eq!(s.lights[0].1.device_id.as_deref(), Some("d0"));
    assert_eq!(s.lights[1].0, "source2");
}

#[test]
fn configured_device_ids_skip_absent() {
    let mut s = initial_settings();
    s.lights[0].1.device_id = None;
    s.lights[1].1.device_id = Some("dev".to_string());
    assert_eq!(s.configured_device_ids(), vec!["dev".to_string()]);
}

#[test]
fn twitch_keys_from_settings() {
    let mut s = initial_settings();
    s.twitch.client_id = None;
    s.twitch.client_secret = Some("sec".to_string());
    s.twitch.access_token = Some("user".to_string());
    s.twitch.refresh_token = None;
    let k = get_twitch_keys(&s);
    assert_eq!(k.client_id, "");
    assert_eq!(k.client_secret, "sec");
    assert_eq!(k.broadcaster_account_id, "");
    assert_eq!(k.access_token.as_deref(), Some("user"));
    assert!(k.refresh_token.is_none());
    assert!(k.authorisation_code.is_none());
    assert!(k.sender_account_id.is_none());
}

#[test]
fn saved_twitch_tokens_are_trimmed() {
    assert_eq!(
        twitch_tokens_to_settings("  tok\n", " ref \n"),
        Some(("tok".to_string(), "ref".to_string()))
    );
    assert_eq!(twitch_tokens_to_settings(" \n", "ref"), None);
    assert_eq!(twitch_tokens_to_settings("", ""), None);
}

#[test]
fn redemptions_map_to_operations() {
    let ops = redemption_ops("Change Lights Color", "hotpink");
    assert!(matches!(ops.as_slice(), [TuyaOp::Color(c)] if c == "hotpink"));
    assert!(matches!(redemption_ops("Turn Lights Off", "").as_slice(), [TuyaOp::State(false)]));
    assert!(matches!(
        redemption_ops("Turn Lights On", "").as_slice(),
        [TuyaOp::State(true), TuyaOp::Default]
    ));
    assert!(matches!(
        redemption_ops("Bosnian Lights", "").as_slice(),
        [TuyaOp::State(true), TuyaOp::Bosnia]
    ));
    assert!(redemption_ops("Hydrate", "").is_empty());
    assert!(redemption_ops("turn lights off", "").is_empty());
}

#[test]
fn restore_is_due_after_five_seconds() {
    assert!(!restore_due(None));
    assert!(!restore_due(Some(4_999)));
    assert!(restore_due(Some(5_000)));
    assert!(restore_due(Some(60_000)));
}

#[test]
fn stored_token_reused_while_unexpired() {
    let mut s = initial_settings();
    s.token.access_token = Some("stored".to_string());
    s.token.expires_at = Some(1_000);
    assert_eq!(s.token.unexpired_at(400), Some(("stored".to_string(), 600)));
    assert_eq!(s.token.unexpired_at(1_000), None);
    s.token.expires_at = None;
    assert_eq!(s.token.unexpired_at(0), None);
    s.token.expires_at = Some(i64::MAX);
    assert_eq!(s.token.unexpired_at(i64::MIN), Some(("stored".to_string(), u64::MAX)));
    assert!(initial_settings().token.unexpired_now().is_none());
}

#[test]
fn record_token_checked_stores_when_expiry_fits() {
    let mut s = initial_settings();
    assert!(s.record_token_checked("a".to_string(), "r".to_string(), 7200, 1_000));
    assert_eq!(s.token.access_token.as_deref(), Some("a"));
    assert_eq!(s.token.refresh_token.as_deref(), Some("r"));
    assert_eq!(s.token.expires_at, Some(8_200));
    assert!(!s.record_token_checked("b".to_string(), "r2".to_string(), 1, i64::MAX));
    assert!(!s.record_token_checked("b".to_string(), "r2".to_string(), -1, i64::MIN));
    assert_eq!(s.token.access_token.as_deref(), Some("a"));
    assert_eq!(s.token.expires_at, Some(8_200));
    assert!(s.record_token_checked("c".to_string(), "r3".to_string(), -5, 5));
    assert_eq!(s.token.expires_at, Some(0));
}

#[test]
fn connection_config_values() {
    let c = connection_config();
    assert_eq!(c.redirect_url, "https://twitch-auth.flamingo-lindo.com.br/");
    assert!(c.generate_new_token_if_none);
    assert!(c.generate_access_token_on_expire);
    assert_eq!(c.user_token_file, ".user_token.env");
    assert_eq!(c.refresh_token_file, ".refresh_token.env");
    assert_eq!(
        c.subscriptions,
        vec![
            TwitchSubscription::ChannelFollow,
            TwitchSubscription::ChannelPointsCustomRewardRedeem,
            TwitchSubscription::ChannelPointsAutoRewardRedeem,
        ]
    );
}

#[test]
fn token_now_is_stored_for_realistic_lifetimes() {
    let mut s = initial_settings();
    assert!(s.record_token("a".to_string(), "r".to_string(), 86_400));
    let at = s.token.expires_at.unwrap();
    assert!(at >= 86_400 && at < lights::settings::CLOCK_SECS_BOUND + 86_400);
    let left = s.token.unexpired_now().expect("just stored");
    assert_eq!(left.0, "a");
    assert!(left.1 <= 86_400);
}

#[test]
fn fill_missing_with_extra_answers_completes() {
    let mut s = initial_settings();
    fill_missing(&mut s, &strings(&["1", "2", "3", "4", "5", "6", "7", "8", "9"]));
    assert!(s.missing_labels().is_empty());
    assert_eq!(s.lights[1].1.device_id.as_deref(), Some("7"));
}
