//! A command sent to every bulb in a list, one device at a time: for each
//! device a signed request is prepared, sent by the caller, and its reply
//! recorded.

use vstd::prelude::*;
use crate::bulb::common::{
    colour_json_body, colour_json_text, default_json_body, default_json_text, switch_json,
    switch_json_text, ColourData,
};
use crate::bulb::request::{
    command_request, command_request_spec, status_request, status_request_spec, Credentials,
    TuyaRequest, TuyaRequestView,
};
use crate::bulb::color::{color_from_str, color_of, Rgb};
use crate::settings::DefaultSettings;
use crate::bulb::common::{colour_json, json_string};
use crate::bulb::request::{payload_text, Method, PayloadView};
use crate::text::dec;

verus! {

/// What a batch does to each device.
pub enum BulbJob {
    /// Switch the bulbs on (`true`) or off (`false`).
    Switch(bool),
    /// Paint the bulbs in a colour; `achromatic` colours (no hue) are not
    /// sent, and the batch stops at its first device.
    Paint { colour: ColourData, achromatic: bool },
    /// Return the bulbs to the default look.
    Restore(DefaultSettings),
    /// Paint the bulbs alternately in the first and the second colour.
    Alternate(ColourData, ColourData),
    /// Ask each device whether it is online.
    Probe,
}

/// How the request for a device ended.
pub enum DeviceReply {
    /// The request could not be sent or got no response.
    Unreachable,
    /// A response came whose body could not be read as the expected JSON.
    Unreadable,
    /// A response was read: its `success` flag and, for a status request,
    /// the device's `online` flag when the result carries one.
    Read { success: bool, online: Option<bool> },
}

/// The colour the alternating job gives the device at `index`.
pub open spec fn alternate_colour(first: ColourData, second: ColourData, index: int) -> ColourData {
    if index % 2 == 0 { first } else { second }
}

/// The request a job sends to the device at `index` with timestamp `t`;
/// `None` for an achromatic paint job, which sends nothing.
pub open spec fn job_request(job: BulbJob, creds: Credentials, device: Seq<char>, index: int, t: Seq<char>) -> Option<TuyaRequestView> {
    let c = creds;
    match job {
        BulbJob::Switch(on) => Some(command_request_spec(
            c.client_id@, c.secret@, c.access_token@, c.base_url@, c.sign_method@, device, t,
            switch_json(on), true,
        )),
        BulbJob::Paint { colour, achromatic } => if achromatic {
            None
        } else {
            Some(command_request_spec(
                c.client_id@, c.secret@, c.access_token@, c.base_url@, c.sign_method@, device, t,
                colour_json_body(colour), false,
            ))
        },
        BulbJob::Restore(d) => Some(command_request_spec(
            c.client_id@, c.secret@, c.access_token@, c.base_url@, c.sign_method@, device, t,
            default_json_body(d), true,
        )),
        BulbJob::Alternate(first, second) => Some(command_request_spec(
            c.client_id@, c.secret@, c.access_token@, c.base_url@, c.sign_method@, device, t,
            colour_json_body(alternate_colour(first, second, index)), false,
        )),
        BulbJob::Probe => Some(status_request_spec(
            c.client_id@, c.secret@, c.access_token@, c.base_url@, c.sign_method@, device, t,
        )),
    }
}

/// A device reports itself online.
pub open spec fn reports_online(reply: DeviceReply) -> bool {
    reply matches DeviceReply::Read { success: true, online: Some(true) }
}

/// The switch state to store after `reply` to a job: the new state of a
/// switch job whose response was read, and nothing otherwise.
pub open spec fn persisted_state(job: BulbJob, reply: DeviceReply) -> Option<bool> {
    match job {
        BulbJob::Switch(on) => if reply is Read { Some(on) } else { None },
        _ => None,
    }
}

/// The job that paints the bulbs in the colour a chat message names, with
/// `scaled` giving the `colour_data_v2` value of that colour and whether it
/// has no hue. `None` when the message names no accepted colour: then no
/// bulb is painted.
pub fn paint_job<F: Fn(Rgb) -> (ColourData, bool)>(name: &str, scaled: &F) -> (job: Option<BulbJob>)
    requires
        forall|c: Rgb| call_requires(*scaled, (c,)),
    ensures
        match color_of(name@) {
            None => job is None,
            Some(c) => match job {
                Some(BulbJob::Paint { colour, achromatic }) => call_ensures(*scaled, (c,), (colour, achromatic)),
                _ => false,
            },
        },
{
    match color_from_str(name) {
        Some(c) => {
            let (colour, achromatic) = scaled(c);
            Some(BulbJob::Paint { colour, achromatic })
        },
        None => None,
    }
}

/// The JSON body that paints a bulb in `c`: work mode `colour`, then
/// `colour_data_v2` set to the `{"h":..,"s":..,"v":..}` object of `c`.
pub open spec fn paint_body(c: ColourData) -> Seq<char> {
    "{\"commands\":["@
        + "{\"code\":"@ + json_string("work_mode"@) + ",\"value\":"@ + json_string("colour"@) + "}"@ + ","@
        + "{\"code\":"@ + json_string("colour_data_v2"@) + ",\"value\":"@ + colour_json(c)
        + "}"@ + "]}"@
}

/// The command endpoint of `device` under `base_url`.
pub open spec fn commands_url(base_url: Seq<char>, device: Seq<char>) -> Seq<char> {
    base_url + "/v1.0/devices/"@ + device + "/commands"@
}

/// A switch job posts to each device's command endpoint the JSON command
/// `switch_led` set to the very state the job was made with.
pub proof fn lemma_switch_request(on: bool, creds: Credentials, device: Seq<char>, index: int, t: Seq<char>)
    ensures
        job_request(BulbJob::Switch(on), creds, device, index, t) matches Some(r)
            && r.method == Method::Post
            && r.url == commands_url(creds.base_url@, device)
            && r.payload == PayloadView::Json(
                "{\"commands\":["@ + "{\"code\":"@ + json_string("switch_led"@) + ",\"value\":"@
                    + (if on { "true"@ } else { "false"@ }) + "}"@ + "]}"@,
            ),
{
    let r = job_request(BulbJob::Switch(on), creds, device, index, t).unwrap();
    assert(payload_text(r.payload) =~= "{\"commands\":["@ + "{\"code\":"@ + json_string("switch_led"@)
        + ",\"value\":"@ + (if on { "true"@ } else { "false"@ }) + "}"@ + "]}"@);
    assert(r.url =~= commands_url(creds.base_url@, device));
}

/// A restore job posts to each device's command endpoint, as JSON, the
/// work mode, then `bright_value_v2` set to the default brightness and
/// `temp_value_v2` set to the default colour temperature, all taken from
/// the very settings the job was made with.
pub proof fn lemma_restore_request(d: DefaultSettings, creds: Credentials, device: Seq<char>, index: int, t: Seq<char>)
    ensures
        job_request(BulbJob::Restore(d), creds, device, index, t) matches Some(r)
            && r.method == Method::Post
            && r.url == commands_url(creds.base_url@, device)
            && r.payload == PayloadView::Json(
                "{\"commands\":["@
                    + "{\"code\":"@ + json_string("work_mode"@) + ",\"value\":"@ + json_string(d.work_mode@)
                    + "}"@ + ","@
                    + "{\"code\":"@ + json_string("bright_value_v2"@) + ",\"value\":"@
                    + dec(d.bright_value_v2 as int) + "}"@ + ","@
                    + "{\"code\":"@ + json_string("temp_value_v2"@) + ",\"value\":"@
                    + dec(d.temp_value_v2 as int) + "}"@
                    + "]}"@,
            ),
{
    let r = job_request(BulbJob::Restore(d), creds, device, index, t).unwrap();
    assert(payload_text(r.payload) =~= "{\"commands\":["@
        + "{\"code\":"@ + json_string("work_mode"@) + ",\"value\":"@ + json_string(d.work_mode@)
        + "}"@ + ","@
        + "{\"code\":"@ + json_string("bright_value_v2"@) + ",\"value\":"@
        + dec(d.bright_value_v2 as int) + "}"@ + ","@
        + "{\"code\":"@ + json_string("temp_value_v2"@) + ",\"value\":"@
        + dec(d.temp_value_v2 as int) + "}"@
        + "]}"@);
    assert(r.url =~= commands_url(creds.base_url@, device));
}

/// A paint job posts its colour, as raw text, to each device's command
/// endpoint, unless the colour has no hue: then it sends nothing.
pub proof fn lemma_paint_request(
    colour: ColourData,
    achromatic: bool,
    creds: Credentials,
    device: Seq<char>,
    index: int,
    t: Seq<char>,
)
    ensures
        achromatic ==> job_request(BulbJob::Paint { colour, achromatic }, creds, device, index, t) is None,
        !achromatic ==> (job_request(BulbJob::Paint { colour, achromatic }, creds, device, index, t) matches Some(r)
            && r.method == Method::Post
            && r.url == commands_url(creds.base_url@, device)
            && r.payload == PayloadView::Raw(paint_body(colour))),
{
    if !achromatic {
        let r = job_request(BulbJob::Paint { colour, achromatic }, creds, device, index, t).unwrap();
        assert(payload_text(r.payload) =~= paint_body(colour));
        assert(r.url =~= commands_url(creds.base_url@, device));
    }
}

/// The alternating job paints the devices at even positions of its list
/// in the first colour and those at odd positions in the second.
pub proof fn lemma_alternate_request(
    first: ColourData,
    second: ColourData,
    creds: Credentials,
    device: Seq<char>,
    index: int,
    t: Seq<char>,
)
    ensures
        job_request(BulbJob::Alternate(first, second), creds, device, index, t) matches Some(r)
            && r.method == Method::Post
            && r.url == commands_url(creds.base_url@, device)
            && r.payload == PayloadView::Raw(paint_body(if index % 2 == 0 { first } else { second })),
{
    let r = job_request(BulbJob::Alternate(first, second), creds, device, index, t).unwrap();
    assert(payload_text(r.payload) =~= paint_body(if index % 2 == 0 { first } else { second }));
    assert(r.url =~= commands_url(creds.base_url@, device));
}

/// A probe gets the status of each device, with no payload.
pub proof fn lemma_probe_request(creds: Credentials, device: Seq<char>, index: int, t: Seq<char>)
    ensures
        job_request(BulbJob::Probe, creds, device, index, t) matches Some(r)
            && r.method == Method::Get
            && r.url == creds.base_url@ + "/v1.0/devices/"@ + device
            && r.payload == PayloadView::Empty,
{
}

/// Progress of a job over a list of devices. `next` is the device whose
/// request comes next; `online` collects, in order, the probed devices that
/// reported themselves online; `halted` is set when the job stops early.
pub struct DeviceBatch {
    pub job: BulbJob,
    pub devices: Vec<String>,
    pub next: usize,
    pub online: Vec<String>,
    pub halted: bool,
    /// Index in `devices` of each entry of `online`.
    pub picked: Ghost<Seq<int>>,
}

impl DeviceBatch {
    /// Every online device comes from the part of the list already done,
    /// in list order, each at most once.
    pub open spec fn wf(&self) -> bool {
        &&& self.next <= self.devices@.len()
        &&& self.picked@.len() == self.online@.len()
        &&& forall|k: int| 0 <= k < self.picked@.len() ==> 0 <= #[trigger] self.picked@[k] < self.next
        &&& forall|k: int, l: int| 0 <= k < l < self.picked@.len() ==> self.picked@[k] < self.picked@[l]
        &&& forall|k: int| 0 <= k < self.picked@.len()
            ==> self.online@[k]@ == self.devices@[#[trigger] self.picked@[k]]@
    }

    pub open spec fn finished(&self) -> bool {
        self.halted || self.next >= self.devices@.len()
    }

    /// A batch of `job` over `devices`, at the first device.
    pub fn new(job: BulbJob, devices: Vec<String>) -> (b: DeviceBatch)
        ensures
            b.wf(),
            b.job == job,
            b.devices == devices,
            b.next == 0,
            b.online@.len() == 0,
            !b.halted,
    {
        DeviceBatch { job, devices, next: 0, online: Vec::new(), halted: false, picked: Ghost(Seq::empty()) }
    }

    /// Whether every device has been done or the job has stopped.
    pub fn is_finished(&self) -> (r: bool)
        ensures
            r == self.finished(),
    {
        self.halted || self.next >= self.devices.len()
    }

    /// The request for the current device, signed with `creds` at
    /// timestamp `t`. An achromatic paint job sends nothing and stops the
    /// batch.
    pub fn prepare(&mut self, creds: &Credentials, t: &str) -> (r: Option<TuyaRequest>)
        requires
            old(self).wf(),
            !old(self).finished(),
        ensures
            final(self).wf(),
            match (r, job_request(old(self).job, *creds, old(self).devices@[old(self).next as int]@, old(self).next as int, t@)) {
                (Some(req), Some(spec)) => req@ == spec,
                (None, None) => true,
                _ => false,
            },
            r is None ==> *final(self) == (DeviceBatch { halted: true, ..*old(self) }),
            r is Some ==> *final(self) == *old(self),
    {
        let device = self.devices[self.next].as_str();
        match &self.job {
            BulbJob::Switch(on) => {
                let body = switch_json_text(*on);
                Some(command_request(creds, device, t, body, true))
            },
            BulbJob::Paint { colour, achromatic } => {
                if *achromatic {
                    self.halted = true;
                    None
                } else {
                    let body = colour_json_text(*colour);
                    Some(command_request(creds, device, t, body, false))
                }
            },
            BulbJob::Restore(d) => {
                let body = default_json_text(d);
                Some(command_request(creds, device, t, body, true))
            },
            BulbJob::Alternate(first, second) => {
                let colour = if self.next % 2 == 0 { *first } else { *second };
                let body = colour_json_text(colour);
                Some(command_request(creds, device, t, body, false))
            },
            BulbJob::Probe => Some(status_request(creds, device, t)),
        }
    }

    /// Records how the request for the current device ended and moves to
    /// the next device. Returns the switch state to store, if any.
    pub fn record(&mut self, reply: DeviceReply) -> (persist: Option<bool>)
        requires
            old(self).wf(),
            !old(self).finished(),
        ensures
            final(self).wf(),
            final(self).next == old(self).next + 1,
            final(self).job == old(self).job,
            final(self).devices == old(self).devices,
            final(self).halted == old(self).halted,
            old(self).job is Probe && reports_online(reply)
                ==> final(self).online@ == old(self).online@.push(old(self).devices@[old(self).next as int]),
            !(old(self).job is Probe && reports_online(reply)) ==> final(self).online@ == old(self).online@,
            persist == persisted_state(old(self).job, reply),
    {
        let is_probe = match self.job {
            BulbJob::Probe => true,
            _ => false,
        };
        let online_now = match reply {
            DeviceReply::Read { success: true, online: Some(true) } => true,
            _ => false,
        };
        if is_probe && online_now {
            let d = self.devices[self.next].clone();
            self.online.push(d);
            self.picked = Ghost(self.picked@.push(self.next as int));
        }
        let len = self.devices.len();
        assert(self.next < len);
        self.next = self.next + 1;
        match self.job {
            BulbJob::Switch(on) => match reply {
                DeviceReply::Read { .. } => Some(on),
                _ => None,
            },
            _ => None,
        }
    }
}


/// A probe batch reports no more devices online than it has done.
pub proof fn lemma_online_from_list(b: DeviceBatch)
    requires
        b.wf(),
    ensures
        b.online@.len() <= b.next,
{
    lemma_increasing_len(b.picked@, b.next as int);
}

/// A strictly increasing sequence of indices below `bound` has at most
/// `bound` entries.
proof fn lemma_increasing_len(p: Seq<int>, bound: int)
    requires
        0 <= bound,
        forall|k: int| 0 <= k < p.len() ==> 0 <= #[trigger] p[k] < bound,
        forall|k: int, l: int| 0 <= k < l < p.len() ==> p[k] < p[l],
    ensures
        p.len() <= bound,
    decreases p.len(),
{
    if p.len() > 0 {
        let q = p.drop_last();
        assert forall|k: int| 0 <= k < q.len() implies 0 <= #[trigger] q[k] < p.last() by {
            assert(q[k] == p[k]);
        }
        assert forall|k: int, l: int| 0 <= k < l < q.len() implies q[k] < q[l] by {
            assert(q[k] == p[k] && q[l] == p[l]);
        }
        assert(p[p.len() - 1] < bound);
        assert(p.last() == p[p.len() - 1]);
        lemma_increasing_len(q, p.last());
        assert(q.len() <= p.last());
        assert(p.len() == q.len() + 1);
    }
}

} // verus!
