//! Command bodies sent to the Tuya Cloud device-command endpoint, and their
//! JSON text.

use vstd::prelude::*;
use crate::crypto::hex_digit;
use crate::text::{dec, push_decimal};
use crate::settings::DefaultSettings;

verus! {

/// Escape sequence `serde_json` writes for one character inside a string.
pub open spec fn json_escape_char(c: char) -> Seq<char> {
    let u = c as u32;
    if c == '"' {
        seq!['\\', '"']
    } else if c == '\\' {
        seq!['\\', '\\']
    } else if u == 8 {
        seq!['\\', 'b']
    } else if u == 12 {
        seq!['\\', 'f']
    } else if u == 10 {
        seq!['\\', 'n']
    } else if u == 13 {
        seq!['\\', 'r']
    } else if u == 9 {
        seq!['\\', 't']
    } else if u < 32 {
        seq!['\\', 'u', '0', '0', hex_digit((u / 16) as int), hex_digit((u % 16) as int)]
    } else {
        seq![c]
    }
}

pub open spec fn json_escape(s: Seq<char>) -> Seq<char>
    decreases s.len(),
{
    if s.len() == 0 {
        Seq::empty()
    } else {
        json_escape_char(s[0]) + json_escape(s.drop_first())
    }
}

/// JSON string literal of `s`, quoted and escaped.
pub open spec fn json_string(s: Seq<char>) -> Seq<char> {
    seq!['"'] + json_escape(s) + seq!['"']
}

/// `serde_json::to_string` on a `&str`: the string in double quotes, with
/// `"` and `\` escaped by a backslash, the control characters backspace,
/// form feed, line feed, carriage return and tab written `\b \f \n \r \t`,
/// the other characters below U+0020 written `\u00xx` in lower-case hex,
/// and every other character unchanged. Serialising a `str` never fails.
#[verifier::external_body]
fn json_string_literal(s: &str) -> (r: String)
    ensures
        r@ == json_string(s@),
{
    serde_json::to_string(s).unwrap_or_default()
}

/// A value that can stand in the `value` field of a command.
pub trait JsonValue {
    /// The JSON text of the value.
    spec fn json(&self) -> Seq<char>;

    /// Appends the JSON text of the value.
    fn push_json(&self, out: &mut String)
        ensures
            final(out)@ == old(out)@ + self.json(),
    ;
}

impl JsonValue for bool {
    open spec fn json(&self) -> Seq<char> {
        if *self { "true"@ } else { "false"@ }
    }

    fn push_json(&self, out: &mut String) {
        if *self {
            out.append("true");
        } else {
            out.append("false");
        }
    }
}

/// The `colour_data_v2` payload: hue in degrees, saturation and value in
/// thousandths.
#[derive(Clone, Copy, Debug, PartialEq, Eq, Structural)]
pub struct ColourData {
    pub h: i32,
    pub s: i32,
    pub v: i32,
}

/// JSON object `{"h":..,"s":..,"v":..}` of a colour.
pub open spec fn colour_json(c: ColourData) -> Seq<char> {
    "{\"h\":"@ + dec(c.h as int) + ",\"s\":"@ + dec(c.s as int) + ",\"v\":"@ + dec(c.v as int) + "}"@
}

/// Value of a command: a string, an integer or a colour object.
pub enum CommandValue {
    Str(String),
    Int(i32),
    Colour(ColourData),
}

impl JsonValue for CommandValue {
    open spec fn json(&self) -> Seq<char> {
        match self {
            CommandValue::Str(s) => json_string(s@),
            CommandValue::Int(i) => dec(*i as int),
            CommandValue::Colour(c) => colour_json(*c),
        }
    }

    fn push_json(&self, out: &mut String) {
        match self {
            CommandValue::Str(s) => {
                let q = json_string_literal(s.as_str());
                out.append(q.as_str());
            },
            CommandValue::Int(i) => {
                push_decimal(out, *i as i64);
            },
            CommandValue::Colour(c) => {
                out.append("{\"h\":");
                push_decimal(out, c.h as i64);
                out.append(",\"s\":");
                push_decimal(out, c.s as i64);
                out.append(",\"v\":");
                push_decimal(out, c.v as i64);
                out.append("}");
                assert(final(out)@ =~= old(out)@ + colour_json(*c));
            },
        }
    }
}

/// One command: a data-point code and its value.
pub struct Command<V> {
    pub code: String,
    pub value: V,
}

/// The body of a device-command request.
pub struct Body<V> {
    pub commands: Vec<Command<V>>,
}

/// JSON object of one command.
pub open spec fn command_json<V: JsonValue>(c: Command<V>) -> Seq<char> {
    "{\"code\":"@ + json_string(c.code@) + ",\"value\":"@ + c.value.json() + "}"@
}

/// JSON texts of the commands, separated by commas.
pub open spec fn commands_json<V: JsonValue>(cs: Seq<Command<V>>) -> Seq<char>
    decreases cs.len(),
{
    if cs.len() == 0 {
        Seq::empty()
    } else if cs.len() == 1 {
        command_json(cs[0])
    } else {
        commands_json(cs.drop_last()) + ","@ + command_json(cs.last())
    }
}

/// JSON text of a body, as `serde_json::to_string` writes it.
pub open spec fn body_json<V: JsonValue>(b: Body<V>) -> Seq<char> {
    "{\"commands\":["@ + commands_json(b.commands@) + "]}"@
}

impl<V: JsonValue> Command<V> {
    fn push_json(&self, out: &mut String)
        ensures
            final(out)@ == old(out)@ + command_json(*self),
    {
        out.append("{\"code\":");
        let q = json_string_literal(self.code.as_str());
        out.append(q.as_str());
        out.append(",\"value\":");
        self.value.push_json(out);
        out.append("}");
        assert(final(out)@ =~= old(out)@ + command_json(*self));
    }
}

impl<V: JsonValue> Body<V> {
    /// JSON text of the body.
    pub fn to_json(&self) -> (r: String)
        ensures
            r@ == body_json(*self),
    {
        let mut out = String::new();
        out.append("{\"commands\":[");
        let n = self.commands.len();
        let ghost cs = self.commands@;
        let mut i: usize = 0;
        while i < n
            invariant
                n == cs.len(),
                cs == self.commands@,
                i <= n,
                out@ == "{\"commands\":["@ + commands_json(cs.take(i as int)),
            decreases n - i,
        {
            let ghost before = out@;
            if i > 0 {
                out.append(",");
            }
            self.commands[i].push_json(&mut out);
            proof {
                assert(cs.take(i + 1).drop_last() =~= cs.take(i as int));
                assert(cs.take(i + 1).last() == cs[i as int]);
                if i == 0 {
                    assert(cs.take(1) =~= seq![cs[0]]);
                    assert(out@ =~= "{\"commands\":["@ + commands_json(cs.take(i + 1)));
                } else {
                    assert(out@ =~= "{\"commands\":["@ + commands_json(cs.take(i + 1)));
                }
            }
            i += 1;
        }
        out.append("]}");
        assert(cs.take(n as int) =~= cs);
        assert(out@ =~= body_json(*self));
        out
    }
}


/// Body that switches a bulb on (`true`) or off (`false`).
pub fn switch_body(on: bool) -> (b: Body<bool>)
    ensures
        b.commands@.len() == 1,
        b.commands@[0].code@ == "switch_led"@,
        b.commands@[0].value == on,
{
    let mut commands: Vec<Command<bool>> = Vec::new();
    commands.push(Command { code: String::from_str("switch_led"), value: on });
    Body { commands }
}

/// Body that puts a bulb in colour mode with the given colour.
pub fn colour_body(colour: ColourData) -> (b: Body<CommandValue>)
    ensures
        b.commands@.len() == 2,
        b.commands@[0].code@ == "work_mode"@,
        b.commands@[0].value matches CommandValue::Str(m) && m@ == "colour"@,
        b.commands@[1].code@ == "colour_data_v2"@,
        b.commands@[1].value == CommandValue::Colour(colour),
{
    let mut commands: Vec<Command<CommandValue>> = Vec::new();
    commands.push(Command {
        code: String::from_str("work_mode"),
        value: CommandValue::Str(String::from_str("colour")),
    });
    commands.push(Command { code: String::from_str("colour_data_v2"), value: CommandValue::Colour(colour) });
    Body { commands }
}


/// Body that returns a bulb to its default look: the work mode, the
/// brightness and the colour temperature of `defaults`.
pub fn default_body(defaults: &DefaultSettings) -> (b: Body<CommandValue>)
    ensures
        b.commands@.len() == 3,
        b.commands@[0].code@ == "work_mode"@,
        b.commands@[0].value matches CommandValue::Str(m) && m@ == defaults.work_mode@,
        b.commands@[1].code@ == "bright_value_v2"@,
        b.commands@[1].value == CommandValue::Int(defaults.bright_value_v2),
        b.commands@[2].code@ == "temp_value_v2"@,
        b.commands@[2].value == CommandValue::Int(defaults.temp_value_v2),
{
    let mut commands: Vec<Command<CommandValue>> = Vec::new();
    commands.push(Command {
        code: String::from_str("work_mode"),
        value: CommandValue::Str(defaults.work_mode.clone()),
    });
    commands.push(Command {
        code: String::from_str("bright_value_v2"),
        value: CommandValue::Int(defaults.bright_value_v2),
    });
    commands.push(Command {
        code: String::from_str("temp_value_v2"),
        value: CommandValue::Int(defaults.temp_value_v2),
    });
    Body { commands }
}


/// JSON text of one command with the given code and value text.
pub open spec fn command_text(code: Seq<char>, value: Seq<char>) -> Seq<char> {
    "{\"code\":"@ + json_string(code) + ",\"value\":"@ + value + "}"@
}

/// JSON text of the body that switches bulbs on or off.
pub open spec fn switch_json(on: bool) -> Seq<char> {
    "{\"commands\":["@ + command_text("switch_led"@, on.json()) + "]}"@
}

/// JSON text of the body that paints bulbs in `colour`.
pub open spec fn colour_json_body(colour: ColourData) -> Seq<char> {
    "{\"commands\":["@ + command_text("work_mode"@, json_string("colour"@)) + ","@
        + command_text("colour_data_v2"@, colour_json(colour)) + "]}"@
}

/// JSON text of the body that returns bulbs to `defaults`.
pub open spec fn default_json_body(defaults: DefaultSettings) -> Seq<char> {
    "{\"commands\":["@ + command_text("work_mode"@, json_string(defaults.work_mode@)) + ","@
        + command_text("bright_value_v2"@, dec(defaults.bright_value_v2 as int)) + ","@
        + command_text("temp_value_v2"@, dec(defaults.temp_value_v2 as int)) + "]}"@
}

/// JSON text of the body that switches bulbs on or off.
pub fn switch_json_text(on: bool) -> (r: String)
    ensures
        r@ == switch_json(on),
{
    let b = switch_body(on);
    let r = b.to_json();
    proof {
        let cs = b.commands@;
        assert(commands_json(cs) == command_json(cs[0]));
        assert(r@ =~= switch_json(on));
    }
    r
}

/// JSON text of the body that paints bulbs in `colour`.
pub fn colour_json_text(colour: ColourData) -> (r: String)
    ensures
        r@ == colour_json_body(colour),
{
    let b = colour_body(colour);
    let r = b.to_json();
    proof {
        let cs = b.commands@;
        assert(cs.drop_last().len() == 1);
        assert(commands_json(cs.drop_last()) == command_json(cs[0]));
        assert(commands_json(cs) == command_json(cs[0]) + ","@ + command_json(cs[1]));
        assert(r@ =~= colour_json_body(colour));
    }
    r
}

/// JSON text of the body that returns bulbs to `defaults`.
pub fn default_json_text(defaults: &DefaultSettings) -> (r: String)
    ensures
        r@ == default_json_body(*defaults),
{
    let b = default_body(defaults);
    let r = b.to_json();
    proof {
        let cs = b.commands@;
        let c2 = cs.drop_last();
        assert(c2.len() == 2);
        assert(c2.drop_last().len() == 1);
        assert(commands_json(c2.drop_last()) == command_json(cs[0]));
        assert(commands_json(c2) == command_json(cs[0]) + ","@ + command_json(cs[1]));
        assert(commands_json(cs) == commands_json(c2) + ","@ + command_json(cs[2]));
        assert(r@ =~= default_json_body(*defaults));
    }
    r
}

} // verus!
