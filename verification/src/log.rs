//! Structured logging: one JSON object per line (NDJSON), and a readable
//! `key=value` form of the same event. The lines are built here; the app
//! stamps the time and writes them to the log file and, in debug builds, to
//! standard error.

use vstd::prelude::*;

use crate::text::{chars_of, decimal, digit_char, push_decimal, string_from_chars};

verus! {

broadcast use vstd::string::group_string_axioms;

/// A field value of a log event.
#[derive(Debug)]
pub enum Value {
    Str(String),
    Int(i64),
    Bool(bool),
}

impl From<String> for Value {
    fn from(value: String) -> (v: Self) {
        Value::Str(value)
    }
}

impl vstd::std_specs::convert::FromSpecImpl<String> for Value {
    open spec fn obeys_from_spec() -> bool {
        true
    }

    open spec fn from_spec(v: String) -> Value {
        Value::Str(v)
    }
}

impl From<i64> for Value {
    fn from(value: i64) -> (v: Self) {
        Value::Int(value)
    }
}

impl vstd::std_specs::convert::FromSpecImpl<i64> for Value {
    open spec fn obeys_from_spec() -> bool {
        true
    }

    open spec fn from_spec(v: i64) -> Value {
        Value::Int(v)
    }
}

impl From<u64> for Value {
    fn from(value: u64) -> (v: Self) {
        Value::Int(value as i64)
    }
}

impl vstd::std_specs::convert::FromSpecImpl<u64> for Value {
    open spec fn obeys_from_spec() -> bool {
        true
    }

    open spec fn from_spec(v: u64) -> Value {
        Value::Int(v as i64)
    }
}

impl From<usize> for Value {
    fn from(value: usize) -> (v: Self) {
        Value::Int(value as i64)
    }
}

impl vstd::std_specs::convert::FromSpecImpl<usize> for Value {
    open spec fn obeys_from_spec() -> bool {
        true
    }

    open spec fn from_spec(v: usize) -> Value {
        Value::Int(v as i64)
    }
}

impl From<bool> for Value {
    fn from(value: bool) -> (v: Self) {
        Value::Bool(value)
    }
}

impl vstd::std_specs::convert::FromSpecImpl<bool> for Value {
    open spec fn obeys_from_spec() -> bool {
        true
    }

    open spec fn from_spec(v: bool) -> Value {
        Value::Bool(v)
    }
}

/// The lower-case hexadecimal digit for `d` (`0 <= d < 16`).
pub open spec fn hex_digit(d: int) -> char {
    if d < 10 {
        digit_char(d)
    } else if d == 10 {
        'a'
    } else if d == 11 {
        'b'
    } else if d == 12 {
        'c'
    } else if d == 13 {
        'd'
    } else if d == 14 {
        'e'
    } else {
        'f'
    }
}

/// How one character is written inside a JSON string: quote, backslash,
/// newline, carriage return and tab by their short escapes, other control
/// characters as `\u00XX`, everything else as itself.
pub open spec fn escape_char(c: char) -> Seq<char> {
    if c == '"' {
        seq!['\\', '"']
    } else if c == '\\' {
        seq!['\\', '\\']
    } else if c == '\n' {
        seq!['\\', 'n']
    } else if c == '\r' {
        seq!['\\', 'r']
    } else if c == '\t' {
        seq!['\\', 't']
    } else if (c as u32) < 0x20 {
        seq!['\\', 'u', '0', '0', hex_digit((c as int) / 16), hex_digit((c as int) % 16)]
    } else {
        seq![c]
    }
}

/// The escapes of every character of `s`, in order.
pub open spec fn escape_chars(s: Seq<char>) -> Seq<char>
    decreases s.len(),
{
    if s.len() == 0 {
        Seq::empty()
    } else {
        escape_chars(s.drop_last()) + escape_char(s.last())
    }
}

/// `s` as a JSON string literal.
pub open spec fn json_string(s: Seq<char>) -> Seq<char> {
    seq!['"'] + escape_chars(s) + seq!['"']
}

fn hex(d: u32) -> (c: char)
    requires
        d < 16,
    ensures
        c == hex_digit(d as int),
{
    match d {
        0 => '0',
        1 => '1',
        2 => '2',
        3 => '3',
        4 => '4',
        5 => '5',
        6 => '6',
        7 => '7',
        8 => '8',
        9 => '9',
        10 => 'a',
        11 => 'b',
        12 => 'c',
        13 => 'd',
        14 => 'e',
        _ => 'f',
    }
}

fn push_escaped(out: &mut Vec<char>, c: char)
    ensures
        final(out)@ == old(out)@ + escape_char(c),
{
    if c == '"' {
        out.push('\\');
        out.push('"');
    } else if c == '\\' {
        out.push('\\');
        out.push('\\');
    } else if c == '\n' {
        out.push('\\');
        out.push('n');
    } else if c == '\r' {
        out.push('\\');
        out.push('r');
    } else if c == '\t' {
        out.push('\\');
        out.push('t');
    } else if (c as u32) < 0x20 {
        let n = c as u32;
        out.push('\\');
        out.push('u');
        out.push('0');
        out.push('0');
        out.push(hex(n / 16));
        out.push(hex(n % 16));
    } else {
        out.push(c);
    }
    assert(final(out)@ =~= old(out)@ + escape_char(c));
}

fn push_json_string(out: &mut Vec<char>, value: &str)
    ensures
        final(out)@ == old(out)@ + json_string(value@),
{
    let chars = chars_of(value);
    let ghost start = out@;
    out.push('"');
    let mut i: usize = 0;
    while i < chars.len()
        invariant
            i <= chars.len(),
            chars@ == value@,
            out@ == start + seq!['"'] + escape_chars(chars@.take(i as int)),
        decreases chars.len() - i,
    {
        proof {
            assert(chars@.take(i + 1).drop_last() =~= chars@.take(i as int));
        }
        push_escaped(out, chars[i]);
        assert(out@ =~= start + seq!['"'] + escape_chars(chars@.take(i + 1)));
        i = i + 1;
    }
    assert(chars@.take(chars@.len() as int) =~= chars@);
    out.push('"');
    assert(out@ =~= start + json_string(value@));
}

/// `escape`: `value` as a JSON string literal.
pub fn escape(value: &str) -> (s: String)
    ensures
        s@ == json_string(value@),
{
    let mut out: Vec<char> = Vec::new();
    push_json_string(&mut out, value);
    assert(out@ =~= json_string(value@));
    string_from_chars(&out)
}

/// An integer in decimal, with a minus sign when negative.
pub open spec fn signed_decimal(n: i64) -> Seq<char> {
    if n < 0 {
        seq!['-'] + decimal((-(n as int)) as nat)
    } else {
        decimal(n as nat)
    }
}

fn push_signed(out: &mut Vec<char>, n: i64)
    ensures
        final(out)@ == old(out)@ + signed_decimal(n),
{
    if n < 0 {
        out.push('-');
        let magnitude: u64 = if n == i64::MIN {
            9223372036854775808u64
        } else {
            (-n) as u64
        };
        push_decimal(magnitude, out);
        assert(final(out)@ =~= old(out)@ + signed_decimal(n));
    } else {
        push_decimal(n as u64, out);
    }
}

fn push_str(out: &mut Vec<char>, s: &str)
    ensures
        final(out)@ == old(out)@ + s@,
{
    let chars = chars_of(s);
    let ghost start = out@;
    let mut i: usize = 0;
    while i < chars.len()
        invariant
            i <= chars.len(),
            chars@ == s@,
            out@ == start + chars@.take(i as int),
        decreases chars.len() - i,
    {
        out.push(chars[i]);
        assert(out@ =~= start + chars@.take(i + 1));
        i = i + 1;
    }
    assert(chars@.take(chars@.len() as int) =~= chars@);
}

/// A value as JSON: a string literal, a number, or `true` / `false`.
pub open spec fn json_value(v: Value) -> Seq<char> {
    match v {
        Value::Str(s) => json_string(s@),
        Value::Int(n) => signed_decimal(n),
        Value::Bool(b) => if b {
            "true"@
        } else {
            "false"@
        },
    }
}

/// A value as the readable line shows it: a string as itself.
pub open spec fn plain_value(v: Value) -> Seq<char> {
    match v {
        Value::Str(s) => s@,
        Value::Int(n) => signed_decimal(n),
        Value::Bool(b) => if b {
            "true"@
        } else {
            "false"@
        },
    }
}

/// The fields of an event as JSON members, each after a comma.
pub open spec fn json_fields(fields: Seq<(&str, Value)>) -> Seq<char>
    decreases fields.len(),
{
    if fields.len() == 0 {
        Seq::empty()
    } else {
        let (key, value) = fields.last();
        json_fields(fields.drop_last()) + ",\""@ + key@ + "\":"@ + json_value(value)
    }
}

/// The fields of an event as ` key=value` pairs.
pub open spec fn plain_fields(fields: Seq<(&str, Value)>) -> Seq<char>
    decreases fields.len(),
{
    if fields.len() == 0 {
        Seq::empty()
    } else {
        let (key, value) = fields.last();
        plain_fields(fields.drop_last()) + " "@ + key@ + "="@ + plain_value(value)
    }
}

/// The JSON line of an event: time, level and event name, then the fields
/// in order; the line ends with a newline.
pub open spec fn json_line_text(time: u64, level: Seq<char>, event: Seq<char>, fields: Seq<(&str, Value)>) -> Seq<char> {
    "{\"time\":"@ + decimal(time as nat) + ",\"level\":\""@ + level + "\",\"event\":\""@ + event + "\""@
        + json_fields(fields) + "}\n"@
}

/// The readable line of an event.
pub open spec fn readable_line_text(time: u64, level: Seq<char>, event: Seq<char>, fields: Seq<(&str, Value)>) -> Seq<
    char,
> {
    "time="@ + decimal(time as nat) + " level="@ + level + " event="@ + event + plain_fields(fields) + "\n"@
}

fn push_value(out: &mut Vec<char>, value: &Value, json: bool)
    ensures
        json ==> final(out)@ == old(out)@ + json_value(*value),
        !json ==> final(out)@ == old(out)@ + plain_value(*value),
{
    match value {
        Value::Str(s) => {
            if json {
                push_json_string(out, s.as_str());
            } else {
                push_str(out, s.as_str());
            }
        },
        Value::Int(n) => push_signed(out, *n),
        Value::Bool(b) => {
            if *b {
                push_str(out, "true");
            } else {
                push_str(out, "false");
            }
        },
    }
}

/// The two lines of an event at `time` (seconds since the epoch): the JSON
/// line that goes to the file and the readable one.
pub fn event_lines(time: u64, level: &str, event: &str, fields: &[(&str, Value)]) -> (r: (String, String))
    ensures
        r.0@ == json_line_text(time, level@, event@, fields@),
        r.1@ == readable_line_text(time, level@, event@, fields@),
{
    let mut json: Vec<char> = Vec::new();
    let mut readable: Vec<char> = Vec::new();
    push_str(&mut json, "{\"time\":");
    push_decimal(time, &mut json);
    push_str(&mut json, ",\"level\":\"");
    push_str(&mut json, level);
    push_str(&mut json, "\",\"event\":\"");
    push_str(&mut json, event);
    push_str(&mut json, "\"");
    push_str(&mut readable, "time=");
    push_decimal(time, &mut readable);
    push_str(&mut readable, " level=");
    push_str(&mut readable, level);
    push_str(&mut readable, " event=");
    push_str(&mut readable, event);
    let ghost json_head = json@;
    let ghost readable_head = readable@;
    let mut i: usize = 0;
    while i < fields.len()
        invariant
            i <= fields.len(),
            json@ == json_head + json_fields(fields@.take(i as int)),
            readable@ == readable_head + plain_fields(fields@.take(i as int)),
        decreases fields.len() - i,
    {
        proof {
            assert(fields@.take(i + 1).drop_last() =~= fields@.take(i as int));
        }
        let (key, value) = &fields[i];
        push_str(&mut json, ",\"");
        push_str(&mut json, key);
        push_str(&mut json, "\":");
        push_value(&mut json, value, true);
        push_str(&mut readable, " ");
        push_str(&mut readable, key);
        push_str(&mut readable, "=");
        push_value(&mut readable, value, false);
        assert(json@ =~= json_head + json_fields(fields@.take(i + 1)));
        assert(readable@ =~= readable_head + plain_fields(fields@.take(i + 1)));
        i = i + 1;
    }
    assert(fields@.take(fields@.len() as int) =~= fields@);
    push_str(&mut json, "}\n");
    push_str(&mut readable, "\n");
    assert(json@ =~= json_line_text(time, level@, event@, fields@));
    assert(readable@ =~= readable_line_text(time, level@, event@, fields@));
    (string_from_chars(&json), string_from_chars(&readable))
}

} // verus!
