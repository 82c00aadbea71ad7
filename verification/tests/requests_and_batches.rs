use hmac::Mac;
use lights::bulb::batch::{paint_job, BulbJob, DeviceBatch, DeviceReply};
use lights::bulb::common::{colour_json_text, switch_json_text, ColourData};
use lights::bulb::request::{
    command_request, current_timestamp, granted_token, status_request, token_request, Credentials,
    Method, Payload, TokenGrant, TuyaRequest,
};
use sha2::Digest;

fn creds() -> Credentials {
    Credentials {
        client_id: "cid".to_string(),
        secret: "s3cr3t".to_string(),
        access_token: "tok".to_string(),
        base_url: "https://openapi.tuyaeu.com".to_string(),
        sign_method: "HMAC-SHA256".to_string(),
    }
}

fn expected_sign(secret: &str, msg: &str) -> String {
    let mut mac = hmac::Hmac::<sha2::Sha256>::new_from_slice(secret.as_bytes()).unwrap();
    mac.update(msg.as_bytes());
    hex::encode(mac.finalize().into_bytes()).to_uppercase()
}

fn hash(text: &str) -> String {
    format!("{:x}", sha2::Sha256::digest(text.as_bytes()))
}

fn header<'a>(req: &'a TuyaRequest, name: &str) -> &'a str {
    req.headers.iter().find(|(n, _)| n == name).map(|(_, v)| v.as_str()).unwrap()
}

fn names(req: &TuyaRequest) -> Vec<&str> {
    req.headers.iter().map(|(n, _)| n.as_str()).collect()
}

#[test]
fn command_request_is_signed() {
    let body = switch_json_text(true);
    let req = command_request(&creds(), "dev1", "1700000000000", body.clone(), true);
    assert_eq!(req.method, Method::Post);
    assert_eq!(req.url, "https://openapi.tuyaeu.com/v1.0/devices/dev1/commands");
    assert_eq!(names(&req), vec!["client_id", "access_token", "t", "sign", "sign_method"]);
    assert_eq!(header(&req, "client_id"), "cid");
    assert_eq!(header(&req, "access_token"), "tok");
    assert_eq!(header(&req, "t"), "1700000000000");
    assert_eq!(header(&req, "sign_method"), "HMAC-SHA256");
    let msg = format!("cidtok1700000000000POST\n{}\n\n/v1.0/devices/dev1/commands", hash(&body));
    assert_eq!(header(&req, "sign"), expected_sign("s3cr3t", &msg));
    assert!(matches!(req.payload, Payload::Json(ref b) if *b == body));
    let raw = command_request(&creds(), "dev1", "1", "x".to_string(), false);
    assert!(matches!(raw.payload, Payload::Raw(ref b) if b == "x"));
}

#[test]
fn status_request_is_signed() {
    let req = status_request(&creds(), "dev2", "42");
    assert_eq!(req.method, Method::Get);
    assert_eq!(req.url, "https://openapi.tuyaeu.com/v1.0/devices/dev2");
    let msg = format!("cidtok42GET\n{}\n\n/v1.0/devices/dev2", hash(""));
    assert_eq!(header(&req, "sign"), expected_sign("s3cr3t", &msg));
    assert!(matches!(req.payload, Payload::Empty));
}

#[test]
fn token_request_is_signed_without_access_token() {
    let req = token_request("cid", "s3cr3t", "https://openapi.tuyaus.com", "99");
    assert_eq!(req.method, Method::Get);
    assert_eq!(req.url, "https://openapi.tuyaus.com/v1.0/token?grant_type=1");
    assert_eq!(names(&req), vec!["client_id", "sign_method", "t", "sign", "access_token"]);
    assert_eq!(header(&req, "sign_method"), "HMAC-SHA256");
    assert_eq!(header(&req, "access_token"), "");
    let msg = format!("cid99GET\n{}\n\n/v1.0/token?grant_type=1", hash(""));
    assert_eq!(header(&req, "sign"), expected_sign("s3cr3t", &msg));
}

#[test]
fn timestamp_is_decimal_milliseconds() {
    let t = current_timestamp();
    let ms: i64 = t.parse().unwrap();
    assert!(ms > 1_600_000_000_000);
}

#[test]
fn granted_token_casts_lifetime() {
    let grant = |e: i64| {
        Some(TokenGrant {
            access_token: "a".to_string(),
            expire_time: e,
            refresh_token: "r".to_string(),
            uid: "u".to_string(),
        })
    };
    assert_eq!(granted_token(&grant(7200)), Some(("a".to_string(), 7200)));
    assert_eq!(granted_token(&grant(-1)), Some(("a".to_string(), u64::MAX)));
    assert_eq!(granted_token(&None), None);
}

fn devices() -> Vec<String> {
    vec!["a".to_string(), "b".to_string(), "c".to_string()]
}

#[test]
fn probe_batch_collects_online_devices() {
    let c = creds();
    let mut batch = DeviceBatch::new(BulbJob::Probe, devices());
    let replies = vec![
        DeviceReply::Read { success: true, online: Some(true) },
        DeviceReply::Read { success: true, online: Some(false) },
        DeviceReply::Read { success: true, online: Some(true) },
    ];
    for reply in replies {
        assert!(!batch.is_finished());
        let req = batch.prepare(&c, "1").unwrap();
        assert_eq!(req.method, Method::Get);
        assert_eq!(batch.record(reply), None);
    }
    assert!(batch.is_finished());
    assert_eq!(batch.online, vec!["a".to_string(), "c".to_string()]);
}

#[test]
fn probe_batch_skips_failures() {
    let c = creds();
    let mut batch = DeviceBatch::new(BulbJob::Probe, devices());
    let replies = vec![
        DeviceReply::Unreachable,
        DeviceReply::Read { success: false, online: Some(true) },
        DeviceReply::Read { success: true, online: None },
    ];
    for reply in replies {
        batch.prepare(&c, "1").unwrap();
        batch.record(reply);
    }
    assert!(batch.online.is_empty());
}

#[test]
fn switch_batch_persists_only_read_replies() {
    let c = creds();
    let mut batch = DeviceBatch::new(BulbJob::Switch(false), devices());
    let req = batch.prepare(&c, "5").unwrap();
    assert_eq!(req.url, "https://openapi.tuyaeu.com/v1.0/devices/a/commands");
    assert!(matches!(req.payload, Payload::Json(ref b) if *b == switch_json_text(false)));
    assert_eq!(batch.record(DeviceReply::Read { success: false, online: None }), Some(false));
    batch.prepare(&c, "6").unwrap();
    assert_eq!(batch.record(DeviceReply::Unreadable), None);
    batch.prepare(&c, "7").unwrap();
    assert_eq!(batch.record(DeviceReply::Unreachable), None);
    assert!(batch.is_finished());
}

#[test]
fn achromatic_paint_sends_nothing() {
    let c = creds();
    let colour = ColourData { h: 0, s: 0, v: 1000 };
    let mut batch = DeviceBatch::new(BulbJob::Paint { colour, achromatic: true }, devices());
    assert!(batch.prepare(&c, "1").is_none());
    assert!(batch.is_finished());
    assert!(batch.halted);
}

#[test]
fn paint_batch_sends_raw_colour_body() {
    let c = creds();
    let colour = ColourData { h: 240, s: 1000, v: 1000 };
    let mut batch = DeviceBatch::new(BulbJob::Paint { colour, achromatic: false }, devices());
    let req = batch.prepare(&c, "1").unwrap();
    assert!(matches!(req.payload, Payload::Raw(ref b) if *b == colour_json_text(colour)));
}

#[test]
fn alternate_batch_alternates_colours() {
    let c = creds();
    let blue = ColourData { h: 240, s: 1000, v: 1000 };
    let yellow = ColourData { h: 60, s: 1000, v: 1000 };
    let mut batch = DeviceBatch::new(BulbJob::Alternate(blue, yellow), devices());
    let expected = [blue, yellow, blue];
    for colour in expected {
        let req = batch.prepare(&c, "1").unwrap();
        assert!(matches!(req.payload, Payload::Raw(ref b) if *b == colour_json_text(colour)));
        batch.record(DeviceReply::Read { success: true, online: None });
    }
    assert!(batch.is_finished());
}

#[test]
fn empty_batch_is_finished() {
    let batch = DeviceBatch::new(BulbJob::Switch(true), vec![]);
    assert!(batch.is_finished());
}

#[test]
fn paint_job_only_for_known_colours() {
    let scaled = |c: lights::bulb::color::Rgb| {
        (ColourData { h: c.red as i32, s: c.green as i32, v: c.blue as i32 }, false)
    };
    match paint_job("  red ", &scaled) {
        Some(BulbJob::Paint { colour, achromatic }) => {
            assert_eq!(colour, ColourData { h: 255, s: 0, v: 0 });
            assert!(!achromatic);
        }
        _ => panic!("red is a colour"),
    }
    assert!(paint_job("notacolour", &scaled).is_none());
    assert!(paint_job("white", &scaled).is_none());
    assert!(paint_job("gray", &scaled).is_none());
}
