//! Application settings (the contents of `settings.toml`) and the updates
//! the application makes to them.

use vstd::prelude::*;

verus! {

/// Twitch application credentials and the user's tokens.
pub struct TwitchSettings {
    pub client_id: Option<String>,
    pub client_secret: Option<String>,
    pub broadcaster_id: Option<String>,
    pub access_token: Option<String>,
    pub refresh_token: Option<String>,
}

/// The Tuya API secret.
pub struct Secret {
    pub value: Option<String>,
}

/// The last Tuya access token, its refresh token and its absolute expiry
/// (seconds since the Unix epoch).
pub struct Token {
    pub access_token: Option<String>,
    pub refresh_token: Option<String>,
    pub expires_at: Option<i64>,
}

/// Tuya request header values: client id, sign method, and the last
/// timestamp and signature sent.
pub struct Headers {
    pub client_id: Option<String>,
    pub sign_method: String,
    pub t: Option<String>,
    pub sign: Option<String>,
}

/// One configured bulb: its device id and its last known switch state.
pub struct LightSettings {
    pub device_id: Option<String>,
    pub switch_led: bool,
}

/// The look the bulbs return to: work mode, brightness and colour
/// temperature.
pub struct DefaultSettings {
    pub work_mode: String,
    pub bright_value_v2: i32,
    pub temp_value_v2: i32,
}

/// All settings. `lights` maps light names to their settings; a name occurs
/// at most once.
pub struct Settings {
    pub base_url: String,
    pub token: Token,
    pub secret: Secret,
    pub headers: Headers,
    pub lights: Vec<(String, LightSettings)>,
    pub default_settings: DefaultSettings,
    pub twitch: TwitchSettings,
}

impl Default for LightSettings {
    fn default() -> (r: LightSettings)
        ensures
            r.device_id is None,
            r.switch_led,
    {
        LightSettings { device_id: None, switch_led: true }
    }
}

/// A setting that is absent or empty, which the application asks the user
/// for.
pub open spec fn is_missing(o: Option<String>) -> bool {
    match o {
        None => true,
        Some(s) => s@.len() == 0,
    }
}

/// Light names are distinct.
pub open spec fn names_distinct(lights: Seq<(String, LightSettings)>) -> bool {
    forall|i: int, j: int| 0 <= i < j < lights.len() ==> lights[i].0@ != lights[j].0@
}

impl Settings {
    pub open spec fn wf(&self) -> bool {
        names_distinct(self.lights@)
    }
}

fn some_string(s: &str) -> (r: Option<String>)
    ensures
        r matches Some(v) && v@ == s@,
{
    Some(String::from_str(s))
}

/// The settings written when no settings file exists: the US data centre,
/// empty credentials, two unnamed-device lights `source1` and `source2`
/// (switched on), and the white look at brightness 480 and temperature
/// 1000.
pub fn initial_settings() -> (s: Settings)
    ensures
        s.wf(),
        s.base_url@ == "https://openapi.tuyaus.com"@,
        s.token.access_token matches Some(v) && v@.len() == 0,
        s.token.refresh_token matches Some(v) && v@.len() == 0,
        s.token.expires_at == Some(0i64),
        s.secret.value matches Some(v) && v@.len() == 0,
        s.headers.client_id matches Some(v) && v@.len() == 0,
        s.headers.sign_method@ == "HMAC-SHA256"@,
        s.headers.t matches Some(v) && v@.len() == 0,
        s.headers.sign matches Some(v) && v@.len() == 0,
        s.lights@.len() == 2,
        s.lights@[0].0@ == "source1"@,
        s.lights@[1].0@ == "source2"@,
        forall|i: int| 0 <= i < 2 ==> (#[trigger] s.lights@[i]).1.switch_led
            && (s.lights@[i].1.device_id matches Some(v) && v@.len() == 0),
        s.default_settings.work_mode@ == "white"@,
        s.default_settings.bright_value_v2 == 480,
        s.default_settings.temp_value_v2 == 1000,
        s.twitch.client_id matches Some(v) && v@.len() == 0,
        s.twitch.client_secret matches Some(v) && v@.len() == 0,
        s.twitch.broadcaster_id matches Some(v) && v@.len() == 0,
        s.twitch.access_token matches Some(v) && v@.len() == 0,
        s.twitch.refresh_token matches Some(v) && v@.len() == 0,
{
    proof {
        reveal_strlit("");
        reveal_strlit("source1");
        reveal_strlit("source2");
    }
    let mut lights: Vec<(String, LightSettings)> = Vec::new();
    let d1 = LightSettings::default();
    lights.push((String::from_str("source1"), LightSettings { device_id: some_string(""), ..d1 }));
    let d2 = LightSettings::default();
    lights.push((String::from_str("source2"), LightSettings { device_id: some_string(""), ..d2 }));
    let s = Settings {
        base_url: String::from_str("https://openapi.tuyaus.com"),
        token: Token { access_token: some_string(""), refresh_token: some_string(""), expires_at: Some(0) },
        secret: Secret { value: some_string("") },
        headers: Headers {
            client_id: some_string(""),
            sign_method: String::from_str("HMAC-SHA256"),
            t: some_string(""),
            sign: some_string(""),
        },
        lights,
        default_settings: DefaultSettings {
            work_mode: String::from_str("white"),
            bright_value_v2: 480,
            temp_value_v2: 1000,
        },
        twitch: TwitchSettings {
            client_id: some_string(""),
            client_secret: some_string(""),
            broadcaster_id: some_string(""),
            access_token: some_string(""),
            refresh_token: some_string(""),
        },
    };
    proof {
        assert(s.lights@[0].0@ != s.lights@[1].0@) by {
            assert(s.lights@[0].0@[6] != s.lights@[1].0@[6]);
        }
    }
    s
}


/// The prompt shown for the device id of the light named `name`.
pub open spec fn device_id_label(name: Seq<char>) -> Seq<char> {
    "No device_id set for '"@ + name + "', please enter it:"@
}

/// Number of required settings: the five credentials, then one device id
/// per light.
pub open spec fn field_count(s: Settings) -> int {
    5 + s.lights@.len() as int
}

/// Required setting number `f`, in the order they are asked for: the Tuya
/// secret, the Tuya client id, the Twitch client id, client secret and
/// broadcaster id, then the device id of each light in order.
pub open spec fn field(s: Settings, f: int) -> Option<String> {
    if f == 0 {
        s.secret.value
    } else if f == 1 {
        s.headers.client_id
    } else if f == 2 {
        s.twitch.client_id
    } else if f == 3 {
        s.twitch.client_secret
    } else if f == 4 {
        s.twitch.broadcaster_id
    } else {
        s.lights@[f - 5].1.device_id
    }
}

/// The prompt shown for required setting number `f`.
pub open spec fn field_label(s: Settings, f: int) -> Seq<char> {
    if f == 0 {
        "No secret set, please enter it:"@
    } else if f == 1 {
        "No client_id set, please enter it:"@
    } else if f == 2 {
        "No twitch client_id set, please enter it"@
    } else if f == 3 {
        "No twitch client_secret set, please enter it"@
    } else if f == 4 {
        "No twitch broadcaster_id set, please enter it"@
    } else {
        device_id_label(s.lights@[f - 5].0@)
    }
}

/// The numbers, in increasing order, of the missing required settings
/// among the first `n`.
pub open spec fn missing_upto(s: Settings, n: int) -> Seq<int>
    decreases n,
{
    if n <= 0 {
        Seq::empty()
    } else if is_missing(field(s, n - 1)) {
        missing_upto(s, n - 1).push(n - 1)
    } else {
        missing_upto(s, n - 1)
    }
}

/// The numbers of the missing required settings, in the order they are
/// asked for.
pub open spec fn missing_fields(s: Settings) -> Seq<int> {
    missing_upto(s, field_count(s))
}

/// The prompts shown, in order, one per missing required setting.
pub open spec fn missing_labels(s: Settings) -> Seq<Seq<char>> {
    missing_fields(s).map_values(|f: int| field_label(s, f))
}

/// The value required setting `f` takes when `answers` are given, in
/// order, to the missing settings of `old`: the answer in the position of
/// `f` among the missing settings, or the old value when `f` is set or no
/// answer is left for it.
pub open spec fn answered_field(old: Settings, answers: Seq<String>, f: int) -> Option<String> {
    let rank = missing_upto(old, f).len();
    if is_missing(field(old, f)) && rank < answers.len() {
        Some(answers[rank as int])
    } else {
        field(old, f)
    }
}

/// `new` is `old` with `answers` given, in order, to its missing required
/// settings, and every other setting kept.
pub open spec fn answered(old: Settings, new: Settings, answers: Seq<String>) -> bool {
    &&& new.lights@.len() == old.lights@.len()
    &&& forall|i: int| 0 <= i < old.lights@.len() ==> {
        &&& (#[trigger] new.lights@[i]).0 == old.lights@[i].0
        &&& new.lights@[i].1.switch_led == old.lights@[i].1.switch_led
    }
    &&& forall|f: int| 0 <= f < field_count(old) ==> #[trigger] field(new, f) == answered_field(old, answers, f)
    &&& new.base_url == old.base_url
    &&& new.token == old.token
    &&& new.headers.sign_method == old.headers.sign_method
    &&& new.headers.t == old.headers.t
    &&& new.headers.sign == old.headers.sign
    &&& new.default_settings == old.default_settings
    &&& new.twitch.access_token == old.twitch.access_token
    &&& new.twitch.refresh_token == old.twitch.refresh_token
}

/// No required setting is missing.
pub open spec fn complete(s: Settings) -> bool {
    &&& !is_missing(s.secret.value)
    &&& !is_missing(s.headers.client_id)
    &&& !is_missing(s.twitch.client_id)
    &&& !is_missing(s.twitch.client_secret)
    &&& !is_missing(s.twitch.broadcaster_id)
    &&& forall|i: int| 0 <= i < s.lights@.len() ==> !is_missing(#[trigger] s.lights@[i].1.device_id)
}

/// `missing_upto` lists exactly the missing settings below `n`, each once,
/// in increasing order.
proof fn lemma_missing_upto(s: Settings, n: int)
    requires
        0 <= n,
    ensures
        forall|k: int| 0 <= k < missing_upto(s, n).len() ==> 0 <= #[trigger] missing_upto(s, n)[k] < n
            && is_missing(field(s, missing_upto(s, n)[k])),
        forall|k: int, l: int| 0 <= k < l < missing_upto(s, n).len()
            ==> missing_upto(s, n)[k] < missing_upto(s, n)[l],
        forall|f: int| 0 <= f < n && is_missing(#[trigger] field(s, f))
            ==> missing_upto(s, f).len() < missing_upto(s, n).len()
            && missing_upto(s, n)[missing_upto(s, f).len() as int] == f,
        missing_upto(s, n).len() <= n,
    decreases n,
{
    if n > 0 {
        lemma_missing_upto(s, n - 1);
        assert forall|f: int| 0 <= f < n && is_missing(#[trigger] field(s, f))
            implies missing_upto(s, f).len() < missing_upto(s, n).len()
            && missing_upto(s, n)[missing_upto(s, f).len() as int] == f by {
            if f < n - 1 {
            }
        }
    }
}

/// No setting is missing exactly when no prompt is due.
pub proof fn lemma_complete_iff_no_labels(s: Settings)
    ensures
        complete(s) <==> missing_labels(s).len() == 0,
{
    lemma_missing_upto(s, field_count(s));
    if complete(s) {
        if missing_fields(s).len() > 0 {
            let f = missing_fields(s)[0];
            assert(is_missing(field(s, f)));
            if f >= 5 {
                assert(!is_missing(s.lights@[f - 5].1.device_id));
            }
        }
    } else {
        if !is_missing(s.secret.value) && !is_missing(s.headers.client_id) && !is_missing(s.twitch.client_id)
            && !is_missing(s.twitch.client_secret) && !is_missing(s.twitch.broadcaster_id) {
            let i = choose|i: int| 0 <= i < s.lights@.len() && is_missing(#[trigger] s.lights@[i].1.device_id);
            assert(is_missing(field(s, i + 5)));
        } else if is_missing(s.secret.value) {
            assert(is_missing(field(s, 0)));
        } else if is_missing(s.headers.client_id) {
            assert(is_missing(field(s, 1)));
        } else if is_missing(s.twitch.client_id) {
            assert(is_missing(field(s, 2)));
        } else if is_missing(s.twitch.client_secret) {
            assert(is_missing(field(s, 3)));
        } else {
            assert(is_missing(field(s, 4)));
        }
    }
}

/// Answering every prompt with a non-empty answer (at least one answer per
/// prompt) leaves no setting missing, so a second run asks nothing.
pub proof fn lemma_fill_missing_completes(old: Settings, new: Settings, answers: Seq<String>)
    requires
        answered(old, new, answers),
        answers.len() >= missing_labels(old).len(),
        forall|k: int| 0 <= k < answers.len() ==> (#[trigger] answers[k])@.len() > 0,
    ensures
        complete(new),
        missing_labels(new).len() == 0,
{
    lemma_missing_upto(old, field_count(old));
    assert forall|f: int| 0 <= f < field_count(old) implies !is_missing(#[trigger] field(new, f)) by {
        assert(field(new, f) == answered_field(old, answers, f));
        if is_missing(field(old, f)) {
            let rank = missing_upto(old, f).len();
            assert(answers[rank as int]@.len() > 0);
        }
    }
    assert(!is_missing(field(new, 0)));
    assert(!is_missing(field(new, 1)));
    assert(!is_missing(field(new, 2)));
    assert(!is_missing(field(new, 3)));
    assert(!is_missing(field(new, 4)));
    assert forall|i: int| 0 <= i < new.lights@.len() implies !is_missing(#[trigger] new.lights@[i].1.device_id) by {
        assert(!is_missing(field(new, i + 5)));
    }
    lemma_complete_iff_no_labels(new);
}

/// Settings where nothing is missing show no prompt, and filling them
/// changes nothing, whatever the answers.
pub proof fn lemma_fill_missing_keeps_complete(old: Settings, new: Settings, answers: Seq<String>)
    requires
        answered(old, new, answers),
        complete(old),
    ensures
        missing_labels(old).len() == 0,
        new.secret == old.secret,
        new.headers == old.headers,
        new.twitch == old.twitch,
        new.lights@ == old.lights@,
        new.base_url == old.base_url,
        new.token == old.token,
        new.default_settings == old.default_settings,
{
    lemma_complete_iff_no_labels(old);
    assert(field(new, 0) == answered_field(old, answers, 0));
    assert(field(new, 1) == answered_field(old, answers, 1));
    assert(field(new, 2) == answered_field(old, answers, 2));
    assert(field(new, 3) == answered_field(old, answers, 3));
    assert(field(new, 4) == answered_field(old, answers, 4));
    assert forall|i: int| 0 <= i < old.lights@.len() implies #[trigger] new.lights@[i] == old.lights@[i] by {
        assert(field(new, i + 5) == answered_field(old, answers, i + 5));
        assert(!is_missing(old.lights@[i].1.device_id));
    }
    assert(new.lights@ =~= old.lights@);
}

fn clone_option(o: &Option<String>) -> (r: Option<String>)
    ensures
        r == *o,
{
    match o {
        Some(v) => Some(v.clone()),
        None => None,
    }
}

/// Gives the next unused answer to `field` when it is missing. `used`
/// answers have been given so far; the result is the new count.
fn take_answer(field: &mut Option<String>, answers: &[String], used: usize) -> (next: usize)
    requires
        used <= answers@.len(),
    ensures
        is_missing(*old(field)) && used < answers@.len() ==> *final(field) == Some(answers@[used as int])
            && next == used + 1,
        !(is_missing(*old(field)) && used < answers@.len()) ==> *final(field) == *old(field) && next == used,
{
    let missing = match field {
        None => true,
        Some(v) => v.unicode_len() == 0,
    };
    if missing && used < answers.len() {
        *field = Some(answers[used].clone());
        used + 1
    } else {
        used
    }
}

/// The smaller of two integers.
pub open spec fn min_int(a: int, b: int) -> int {
    if a < b { a } else { b }
}

impl Settings {
    /// The prompts to show, in order, one for each required setting that
    /// is absent or empty: the Tuya secret, the Tuya client id, the Twitch
    /// client id, client secret and broadcaster id, then the device id of
    /// each light.
    pub fn missing_labels(&self) -> (labels: Vec<String>)
        ensures
            labels@.map_values(|l: String| l@) == missing_labels(*self),
    {
        let ghost s = *self;
        let mut labels: Vec<String> = Vec::new();
        assert(missing_upto(s, 0) =~= Seq::<int>::empty());
        if is_unset(&self.secret.value) {
            labels.push(String::from_str("No secret set, please enter it:"));
        }
        proof { assert(labels@.map_values(|l: String| l@) =~= missing_upto(s, 1).map_values(|f: int| field_label(s, f))); }
        if is_unset(&self.headers.client_id) {
            labels.push(String::from_str("No client_id set, please enter it:"));
        }
        proof { assert(labels@.map_values(|l: String| l@) =~= missing_upto(s, 2).map_values(|f: int| field_label(s, f))); }
        if is_unset(&self.twitch.client_id) {
            labels.push(String::from_str("No twitch client_id set, please enter it"));
        }
        proof { assert(labels@.map_values(|l: String| l@) =~= missing_upto(s, 3).map_values(|f: int| field_label(s, f))); }
        if is_unset(&self.twitch.client_secret) {
            labels.push(String::from_str("No twitch client_secret set, please enter it"));
        }
        proof { assert(labels@.map_values(|l: String| l@) =~= missing_upto(s, 4).map_values(|f: int| field_label(s, f))); }
        if is_unset(&self.twitch.broadcaster_id) {
            labels.push(String::from_str("No twitch broadcaster_id set, please enter it"));
        }
        proof { assert(labels@.map_values(|l: String| l@) =~= missing_upto(s, 5).map_values(|f: int| field_label(s, f))); }
        let n = self.lights.len();
        let mut i: usize = 0;
        while i < n
            invariant
                s == *self,
                n == s.lights@.len(),
                i <= n,
                labels@.map_values(|l: String| l@) == missing_upto(s, 5 + i).map_values(|f: int| field_label(s, f)),
            decreases n - i,
        {
            let ghost prev = missing_upto(s, 5 + i);
            let ghost before = labels@;
            assert(field(s, 5 + i) == s.lights@[i as int].1.device_id);
            assert(field_label(s, 5 + i) == device_id_label(s.lights@[i as int].0@));
            if is_unset(&self.lights[i].1.device_id) {
                let mut label = String::from_str("No device_id set for '");
                label.append(self.lights[i].0.as_str());
                label.append("', please enter it:");
                assert(label@ == device_id_label(s.lights@[i as int].0@));
                labels.push(label);
                assert(missing_upto(s, 5 + i + 1) == prev.push(5 + i));
            } else {
                assert(missing_upto(s, 5 + i + 1) == prev);
            }
            proof {
                let lhs = labels@.map_values(|l: String| l@);
                let rhs = missing_upto(s, 5 + i + 1).map_values(|f: int| field_label(s, f));
                assert(before.map_values(|l: String| l@) == prev.map_values(|f: int| field_label(s, f)));
                assert(before.map_values(|l: String| l@).len() == before.len());
                assert(prev.map_values(|f: int| field_label(s, f)).len() == prev.len());
                assert(before.len() == prev.len());
                assert(labels@.len() == missing_upto(s, 5 + i + 1).len());
                assert(lhs.len() == rhs.len());
                assert forall|k: int| 0 <= k < lhs.len() implies lhs[k] == rhs[k] by {
                    if k < before.len() {
                        assert(lhs[k] == before.map_values(|l: String| l@)[k]);
                        assert(rhs[k] == prev.map_values(|f: int| field_label(s, f))[k]);
                    }
                }
                assert(lhs =~= rhs);
            }
            i += 1;
        }
        labels
    }
}

fn is_unset(o: &Option<String>) -> (r: bool)
    ensures
        r == is_missing(*o),
{
    match o {
        None => true,
        Some(v) => v.unicode_len() == 0,
    }
}

/// Gives `answers`, in order, to the required settings that are absent or
/// empty, in the order of `Settings::missing_labels`: the Tuya secret, the
/// Tuya client id, the Twitch client id, client secret and broadcaster id,
/// then the device id of each light. Settings left without an answer, and
/// every other setting, keep their values; answers beyond the missing
/// settings are not used.
pub fn fill_missing(settings: &mut Settings, answers: &[String])
    ensures
        answered(*old(settings), *final(settings), answers@),
        old(settings).wf() ==> final(settings).wf(),
        answers@.len() >= missing_labels(*old(settings)).len()
            && (forall|k: int| 0 <= k < answers@.len() ==> (#[trigger] answers@[k])@.len() > 0)
            ==> complete(*final(settings)) && missing_labels(*final(settings)).len() == 0,
{
    let ghost s0 = *settings;
    let ghost len = answers@.len() as int;
    let mut used: usize = 0;
    assert(missing_upto(s0, 0) =~= Seq::<int>::empty());
    used = take_answer(&mut settings.secret.value, answers, used);
    assert(used == min_int(missing_upto(s0, 1).len() as int, len));
    used = take_answer(&mut settings.headers.client_id, answers, used);
    assert(used == min_int(missing_upto(s0, 2).len() as int, len));
    used = take_answer(&mut settings.twitch.client_id, answers, used);
    assert(used == min_int(missing_upto(s0, 3).len() as int, len));
    used = take_answer(&mut settings.twitch.client_secret, answers, used);
    assert(used == min_int(missing_upto(s0, 4).len() as int, len));
    used = take_answer(&mut settings.twitch.broadcaster_id, answers, used);
    assert(used == min_int(missing_upto(s0, 5).len() as int, len));
    proof {
        assert forall|f: int| 0 <= f < 5 implies #[trigger] field(*settings, f) == answered_field(s0, answers@, f) by {
        }
    }
    let ghost before = settings.lights@;
    let n = settings.lights.len();
    let mut lights: Vec<(String, LightSettings)> = Vec::new();
    let mut i: usize = 0;
    while i < n
        invariant
            n == before.len(),
            before == settings.lights@,
            before == s0.lights@,
            len == answers@.len(),
            i <= n,
            used == min_int(missing_upto(s0, 5 + i).len() as int, len),
            lights@.len() == i,
            forall|k: int| 0 <= k < i ==> {
                &&& (#[trigger] lights@[k]).0 == before[k].0
                &&& lights@[k].1.switch_led == before[k].1.switch_led
                &&& lights@[k].1.device_id == answered_field(s0, answers@, 5 + k)
            },
        decreases n - i,
    {
        let name = settings.lights[i].0.clone();
        let mut device_id = clone_option(&settings.lights[i].1.device_id);
        assert(device_id == field(s0, 5 + i));
        used = take_answer(&mut device_id, answers, used);
        lights.push((name, LightSettings { device_id, switch_led: settings.lights[i].1.switch_led }));
        i += 1;
    }
    settings.lights = lights;
    proof {
        assert forall|f: int| 0 <= f < field_count(s0) implies #[trigger] field(*settings, f) == answered_field(
            s0,
            answers@,
            f,
        ) by {
            if f >= 5 {
                assert(settings.lights@[f - 5].1.device_id == answered_field(s0, answers@, 5 + (f - 5)));
            }
        }
        assert(answered(s0, *settings, answers@));
        if answers@.len() >= missing_labels(s0).len()
            && (forall|k: int| 0 <= k < answers@.len() ==> (#[trigger] answers@[k])@.len() > 0) {
            lemma_fill_missing_completes(s0, *settings, answers@);
        }
    }
}


/// The device ids of the lights that have one, in order.
pub open spec fn device_ids_of(lights: Seq<(String, LightSettings)>) -> Seq<Seq<char>>
    decreases lights.len(),
{
    if lights.len() == 0 {
        Seq::empty()
    } else {
        let rest = device_ids_of(lights.drop_last());
        match lights.last().1.device_id {
            Some(d) => rest.push(d@),
            None => rest,
        }
    }
}

/// `pos` lists, in increasing order, the positions in `lights` of the
/// device ids `ids`: the `k`-th id is the device id of the light at
/// `pos[k]`, and every light that has a device id is at one of the
/// positions.
pub open spec fn ids_at_positions(lights: Seq<(String, LightSettings)>, ids: Seq<Seq<char>>, pos: Seq<int>) -> bool {
    &&& pos.len() == ids.len()
    &&& forall|k: int| 0 <= k < pos.len() ==> 0 <= #[trigger] pos[k] < lights.len()
        && (lights[pos[k]].1.device_id matches Some(d) && d@ == ids[k])
    &&& forall|k: int, l: int| 0 <= k < l < pos.len() ==> pos[k] < pos[l]
    &&& forall|i: int| 0 <= i < lights.len() && (#[trigger] lights[i]).1.device_id is Some
        ==> exists|k: int| 0 <= k < pos.len() && pos[k] == i
}

proof fn device_id_positions(lights: Seq<(String, LightSettings)>) -> (pos: Seq<int>)
    ensures
        ids_at_positions(lights, device_ids_of(lights), pos),
    decreases lights.len(),
{
    if lights.len() == 0 {
        Seq::empty()
    } else {
        let rest = lights.drop_last();
        let p = device_id_positions(rest);
        let n = rest.len() as int;
        assert forall|k: int| 0 <= k < p.len() implies #[trigger] lights[p[k]] == rest[p[k]] by {}
        match lights.last().1.device_id {
            Some(d) => {
                let q = p.push(n);
                assert forall|i: int| 0 <= i < lights.len() && (#[trigger] lights[i]).1.device_id is Some
                    implies exists|k: int| 0 <= k < q.len() && q[k] == i by {
                    if i == n {
                        assert(q[p.len() as int] == i);
                    } else {
                        assert(rest[i] == lights[i]);
                        let k = choose|k: int| 0 <= k < p.len() && p[k] == i;
                        assert(q[k] == i);
                    }
                }
                assert forall|k: int| 0 <= k < q.len() implies 0 <= #[trigger] q[k] < lights.len()
                    && (lights[q[k]].1.device_id matches Some(e) && e@ == device_ids_of(lights)[k]) by {
                    if k < p.len() {
                        assert(q[k] == p[k]);
                        assert(lights[p[k]] == rest[p[k]]);
                    }
                }
                q
            },
            None => {
                assert forall|i: int| 0 <= i < lights.len() && (#[trigger] lights[i]).1.device_id is Some
                    implies exists|k: int| 0 <= k < p.len() && p[k] == i by {
                    assert(i != n);
                    assert(rest[i] == lights[i]);
                }
                assert forall|k: int| 0 <= k < p.len() implies 0 <= #[trigger] p[k] < lights.len()
                    && (lights[p[k]].1.device_id matches Some(e) && e@ == device_ids_of(lights)[k]) by {
                    assert(lights[p[k]] == rest[p[k]]);
                }
                p
            },
        }
    }
}

/// The configured device ids are exactly the device ids of the lights that
/// have one, each once, in the order of the lights.
pub proof fn lemma_device_ids_of(lights: Seq<(String, LightSettings)>)
    ensures
        exists|pos: Seq<int>| ids_at_positions(lights, device_ids_of(lights), pos),
{
    let pos = device_id_positions(lights);
    assert(ids_at_positions(lights, device_ids_of(lights), pos));
}

/// The expiry `secs` seconds after `now` fits in an `i64`.
pub open spec fn expiry_fits(now: i64, secs: i64) -> bool {
    i64::MIN <= now + secs <= i64::MAX
}

/// The expiry `secs` seconds after `now`.
pub open spec fn expiry(now: i64, secs: i64) -> i64 {
    (now + secs) as i64
}

/// Exclusive upper bound of the local clock in seconds: chrono's latest
/// representable instant (the end of year 262142) lies below it.
pub const CLOCK_SECS_BOUND: i64 = 10_000_000_000_000;

/// Seconds since the Unix epoch on the local clock
/// (`chrono::Local::now().timestamp()`). Claims only that the value is not
/// negative (`Utc::now` panics on a clock before the epoch) and lies below
/// `CLOCK_SECS_BOUND` (`Utc::now` unwraps a `DateTime` within chrono's date
/// range); which instant it names is the clock's.
#[verifier::external_body]
fn now_secs() -> (now: i64)
    ensures
        0 <= now < CLOCK_SECS_BOUND,
{
    chrono::Local::now().timestamp()
}

/// The stored token while it has not expired at `now` (seconds since the
/// Unix epoch): the token and the seconds it has left.
pub open spec fn unexpired(token: Token, now: i64) -> Option<(Seq<char>, u64)> {
    match (token.access_token, token.expires_at) {
        (Some(a), Some(e)) => if now < e { Some((a@, (e - now) as u64)) } else { None },
        _ => None,
    }
}

impl Token {
    /// The stored access token and its remaining lifetime in seconds, when
    /// it has not expired at `now`.
    pub fn unexpired_at(&self, now: i64) -> (r: Option<(String, u64)>)
        ensures
            match (r, unexpired(*self, now)) {
                (Some(t), Some(u)) => t.0@ == u.0 && t.1 == u.1,
                (None, None) => true,
                _ => false,
            },
    {
        match (&self.access_token, self.expires_at) {
            (Some(a), Some(e)) => {
                if now < e {
                    let left = (e as i128 - now as i128) as u64;
                    Some((a.clone(), left))
                } else {
                    None
                }
            },
            _ => None,
        }
    }

    /// The stored access token and its remaining lifetime in seconds, when
    /// it has not expired at the current time; which instant that is is the
    /// clock's.
    pub fn unexpired_now(&self) -> (r: Option<(String, u64)>)
        ensures
            exists|now: i64| 0 <= now < CLOCK_SECS_BOUND && match (r, #[trigger] unexpired(*self, now)) {
                (Some(t), Some(u)) => t.0@ == u.0 && t.1 == u.1,
                (None, None) => true,
                _ => false,
            },
    {
        let now = now_secs();
        self.unexpired_at(now)
    }
}

impl Settings {
    /// The device ids of all lights that have one, in the order of the
    /// lights.
    pub fn configured_device_ids(&self) -> (ids: Vec<String>)
        ensures
            ids@.map_values(|s: String| s@) == device_ids_of(self.lights@),
    {
        let mut ids: Vec<String> = Vec::new();
        let n = self.lights.len();
        let mut i: usize = 0;
        while i < n
            invariant
                n == self.lights@.len(),
                i <= n,
                ids@.map_values(|s: String| s@) == device_ids_of(self.lights@.take(i as int)),
            decreases n - i,
        {
            assert(self.lights@.take(i + 1).drop_last() =~= self.lights@.take(i as int));
            match &self.lights[i].1.device_id {
                Some(d) => {
                    ids.push(d.clone());
                },
                None => {},
            }
            assert(ids@.map_values(|s: String| s@) =~= device_ids_of(self.lights@.take(i + 1)));
            i += 1;
        }
        assert(self.lights@.take(n as int) =~= self.lights@);
        ids
    }

    /// Stores the timestamp of the last request (`headers.t`).
    pub fn record_time_stamp(&mut self, t: String)
        ensures
            *final(self) == (Settings { headers: Headers { t: Some(t), ..old(self).headers }, ..*old(self) }),
    {
        self.headers.t = Some(t);
    }

    /// Stores the signature of the last request (`headers.sign`).
    pub fn record_sign(&mut self, sign: String)
        ensures
            *final(self) == (Settings { headers: Headers { sign: Some(sign), ..old(self).headers }, ..*old(self) }),
    {
        self.headers.sign = Some(sign);
    }

    /// Stores new Twitch user tokens.
    pub fn record_twitch_tokens(&mut self, access_token: String, refresh_token: String)
        ensures
            *final(self) == (Settings {
                twitch: TwitchSettings {
                    access_token: Some(access_token),
                    refresh_token: Some(refresh_token),
                    ..old(self).twitch
                },
                ..*old(self)
            }),
    {
        self.twitch.access_token = Some(access_token);
        self.twitch.refresh_token = Some(refresh_token);
    }

    /// Stores a new Tuya token that expires `expire_time` seconds after
    /// `now` (seconds since the Unix epoch).
    pub fn record_token_at(&mut self, access_token: String, refresh_token: String, expire_time: i64, now: i64)
        requires
            i64::MIN <= now + expire_time <= i64::MAX,
        ensures
            *final(self) == (Settings {
                token: Token {
                    access_token: Some(access_token),
                    refresh_token: Some(refresh_token),
                    expires_at: Some((now + expire_time) as i64),
                },
                ..*old(self)
            }),
    {
        self.token = Token {
            access_token: Some(access_token),
            refresh_token: Some(refresh_token),
            expires_at: Some(now + expire_time),
        };
    }

    /// Stores a new Tuya token that expires `expire_time` seconds from the
    /// current time, read once. Returns `true` exactly when that expiry
    /// fits in an `i64`, which every lifetime below
    /// `i64::MAX - CLOCK_SECS_BOUND` does; otherwise stores nothing and
    /// returns `false`.
    pub fn record_token(&mut self, access_token: String, refresh_token: String, expire_time: i64) -> (stored: bool)
        ensures
            stored ==> *final(self) == (Settings {
                token: Token {
                    access_token: Some(access_token),
                    refresh_token: Some(refresh_token),
                    expires_at: final(self).token.expires_at,
                },
                ..*old(self)
            }),
            expire_time < i64::MAX - CLOCK_SECS_BOUND ==> stored,
            exists|now: i64| {
                &&& 0 <= now < CLOCK_SECS_BOUND
                &&& stored == #[trigger] expiry_fits(now, expire_time)
                &&& stored ==> final(self).token.expires_at == Some(expiry(now, expire_time))
            },
            !stored ==> *final(self) == *old(self),
    {
        let now = now_secs();
        self.record_token_checked(access_token, refresh_token, expire_time, now)
    }

    /// Stores a new Tuya token that expires `expire_time` seconds after
    /// `now` (seconds since the Unix epoch). Returns `true` exactly when
    /// that expiry fits in an `i64`; otherwise stores nothing and returns
    /// `false`.
    pub fn record_token_checked(
        &mut self,
        access_token: String,
        refresh_token: String,
        expire_time: i64,
        now: i64,
    ) -> (stored: bool)
        ensures
            stored == expiry_fits(now, expire_time),
            stored ==> *final(self) == (Settings {
                token: Token {
                    access_token: Some(access_token),
                    refresh_token: Some(refresh_token),
                    expires_at: Some(expiry(now, expire_time)),
                },
                ..*old(self)
            }),
            !stored ==> *final(self) == *old(self),
    {
        match now.checked_add(expire_time) {
            Some(_) => {
                self.record_token_at(access_token, refresh_token, expire_time, now);
                true
            },
            None => false,
        }
    }

    /// Stores the switch state `on` for every light.
    pub fn record_led_state(&mut self, on: bool)
        ensures
            final(self).lights@.len() == old(self).lights@.len(),
            forall|i: int| 0 <= i < old(self).lights@.len() ==> {
                &&& (#[trigger] final(self).lights@[i]).0 == old(self).lights@[i].0
                &&& final(self).lights@[i].1.device_id == old(self).lights@[i].1.device_id
                &&& final(self).lights@[i].1.switch_led == on
            },
            final(self).base_url == old(self).base_url,
            final(self).token == old(self).token,
            final(self).secret == old(self).secret,
            final(self).headers == old(self).headers,
            final(self).default_settings == old(self).default_settings,
            final(self).twitch == old(self).twitch,
            old(self).wf() ==> final(self).wf(),
    {
        let ghost before = self.lights@;
        let n = self.lights.len();
        let mut lights: Vec<(String, LightSettings)> = Vec::new();
        let mut i: usize = 0;
        while i < n
            invariant
                n == before.len(),
                before == self.lights@,
                i <= n,
                lights@.len() == i,
                forall|k: int| 0 <= k < i ==> {
                    &&& (#[trigger] lights@[k]).0 == before[k].0
                    &&& lights@[k].1.device_id == before[k].1.device_id
                    &&& lights@[k].1.switch_led == on
                },
            decreases n - i,
        {
            let name = self.lights[i].0.clone();
            let device_id = clone_option(&self.lights[i].1.device_id);
            lights.push((name, LightSettings { device_id, switch_led: on }));
            i += 1;
        }
        self.lights = lights;
    }
}

} // verus!
