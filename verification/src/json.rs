use vstd::prelude::*;
use vstd::string::StrSliceExecFns;
use vstd::string::StringExecFns;

use crate::record::Log;
use crate::record::LogType;
use crate::record::Source;

verus! {

/// The decimal digit `d` as a character.
pub open spec fn digit_char(d: int) -> char {
    if d == 0 {
        '0'
    } else if d == 1 {
        '1'
    } else if d == 2 {
        '2'
    } else if d == 3 {
        '3'
    } else if d == 4 {
        '4'
    } else if d == 5 {
        '5'
    } else if d == 6 {
        '6'
    } else if d == 7 {
        '7'
    } else if d == 8 {
        '8'
    } else {
        '9'
    }
}

/// The hexadecimal digit `d` as a lower-case character.
pub open spec fn hex_char(d: int) -> char {
    if d < 10 {
        digit_char(d)
    } else if d == 10 {
        'a'
    } else if d == 11 {
        'b'
    } else if d == 12 {
        'c'
    } else if d == 13 {
        'd'
    } else if d == 14 {
        'e'
    } else {
        'f'
    }
}

/// The usual decimal rendering of `n`: most significant digit first, no
/// leading zeros (except for `n == 0` itself).
pub open spec fn dec_str(n: nat) -> Seq<char>
    decreases n,
{
    if n < 10 {
        seq![digit_char(n as int)]
    } else {
        dec_str(n / 10) + seq![digit_char((n % 10) as int)]
    }
}

/// How one character is written inside a JSON string: quote and backslash get
/// a backslash escape, control characters a `\u00..` escape, and every other
/// character stands for itself.
pub open spec fn escape_char(c: char) -> Seq<char> {
    if c == '"' {
        seq!['\\', '"']
    } else if c == '\\' {
        seq!['\\', '\\']
    } else if (c as int) < 0x20 {
        seq!['\\', 'u', '0', '0', hex_char((c as int) / 16), hex_char((c as int) % 16)]
    } else {
        seq![c]
    }
}

/// The escapes of the first `n` characters of `s`, concatenated.
pub open spec fn escape_prefix(s: Seq<char>, n: int) -> Seq<char>
    decreases n,
{
    if n <= 0 {
        Seq::empty()
    } else {
        escape_prefix(s, n - 1) + escape_char(s[n - 1])
    }
}

/// The body of the JSON string for `s`: every character escaped.
pub open spec fn escape_str(s: Seq<char>) -> Seq<char> {
    escape_prefix(s, s.len() as int)
}

/// The JSON string literal for `s`, quotes included.
pub open spec fn json_string(s: Seq<char>) -> Seq<char> {
    seq!['"'] + escape_str(s) + seq!['"']
}

/// An optional string serializes as a JSON string, or as `null` when unset.
pub open spec fn json_opt_string(v: Option<String>) -> Seq<char> {
    match v {
        Some(s) => json_string(s@),
        None => "null"@,
    }
}

/// An optional number serializes in decimal, or as `null` when unset.
pub open spec fn json_opt_u64(v: Option<u64>) -> Seq<char> {
    match v {
        Some(n) => dec_str(n as nat),
        None => "null"@,
    }
}

/// A severity serializes as its capitalized name, quoted.
pub open spec fn json_level(l: LogType) -> Seq<char> {
    match l {
        LogType::Info => "\"Info\""@,
        LogType::Debug => "\"Debug\""@,
        LogType::Error => "\"Error\""@,
        LogType::Warning => "\"Warning\""@,
        LogType::Event => "\"Event\""@,
    }
}

pub open spec fn json_opt_level(v: Option<LogType>) -> Seq<char> {
    match v {
        Some(l) => json_level(l),
        None => "null"@,
    }
}

/// The JSON object for a source: all five fields, in a fixed order, absent
/// ones as `null`.
pub open spec fn json_of_source(s: Source) -> Seq<char> {
    "{\"name\":"@ + json_opt_string(s.name) + ",\"version\":"@ + json_opt_string(s.version)
        + ",\"environment\":"@ + json_opt_string(s.environment) + ",\"service\":"@
        + json_opt_string(s.service) + ",\"ip\":"@ + json_opt_string(s.ip) + "}"@
}

pub open spec fn json_opt_source(v: Option<Source>) -> Seq<char> {
    match v {
        Some(s) => json_of_source(s),
        None => "null"@,
    }
}

/// The JSON object shipped for a record: the seven wire fields in a fixed
/// order, absent ones as `null`.
pub open spec fn json_of_log(l: Log) -> Seq<char> {
    "{\"file\":"@ + json_opt_string(l.file) + ",\"line\":"@ + json_opt_u64(l.line)
        + ",\"message\":"@ + json_opt_string(l.message) + ",\"source\":"@ + json_opt_source(
        l.source,
    ) + ",\"log_level\":"@ + json_opt_level(l.log_level) + ",\"system\":"@ + json_opt_string(
        l.system,
    ) + ",\"timestamp\":"@ + dec_str(l.timestamp as nat) + "}"@
}

/// With `system` unset, the serialized record carries `"system":null`: the
/// field is nulled on the wire, and the rest of the object does not depend on
/// it.
pub proof fn lemma_unset_system_serializes_null(l: Log)
    requires
        l.system is None,
    ensures
        json_of_log(l) == "{\"file\":"@ + json_opt_string(l.file) + ",\"line\":"@ + json_opt_u64(
            l.line,
        ) + ",\"message\":"@ + json_opt_string(l.message) + ",\"source\":"@ + json_opt_source(
            l.source,
        ) + ",\"log_level\":"@ + json_opt_level(l.log_level) + ",\"system\":null,\"timestamp\":"@
            + dec_str(l.timestamp as nat) + "}"@,
{
    reveal_strlit(",\"system\":");
    reveal_strlit("null");
    reveal_strlit(",\"timestamp\":");
    reveal_strlit(",\"system\":null,\"timestamp\":");
    assert(",\"system\":"@ + "null"@ + ",\"timestamp\":"@ =~= ",\"system\":null,\"timestamp\":"@);
    assert(json_of_log(l) =~= "{\"file\":"@ + json_opt_string(l.file) + ",\"line\":"@
        + json_opt_u64(l.line) + ",\"message\":"@ + json_opt_string(l.message) + ",\"source\":"@
        + json_opt_source(l.source) + ",\"log_level\":"@ + json_opt_level(l.log_level)
        + ",\"system\":null,\"timestamp\":"@ + dec_str(l.timestamp as nat) + "}"@);
}

/// Records built from the same base with the same fields set, in whatever
/// order the setters ran, are the same record, so they serialize to the same
/// JSON. (Pairwise commutation of the setters is `lemma_setters_commute`;
/// this states the consequence for serialization on two opposite orders.)
pub proof fn lemma_json_independent_of_build_order(
    l: Log,
    file: String,
    line: u64,
    message: String,
    source: Source,
    log_level: LogType,
)
    ensures
        json_of_log(
            l.with_file(file).with_line(line).with_message(message).with_source(
                source,
            ).with_log_level(log_level),
        ) == json_of_log(
            l.with_log_level(log_level).with_source(source).with_message(message).with_line(
                line,
            ).with_file(file),
        ),
{
}

/// Relies on std::string::String::push: appends exactly the given character.
#[verifier::external_body]
fn push_char(out: &mut String, c: char)
    ensures
        final(out)@ == old(out)@ + seq![c],
{
    out.push(c);
}

fn digit_to_char(d: u64) -> (c: char)
    requires
        d < 10,
    ensures
        c == digit_char(d as int),
{
    if d == 0 {
        '0'
    } else if d == 1 {
        '1'
    } else if d == 2 {
        '2'
    } else if d == 3 {
        '3'
    } else if d == 4 {
        '4'
    } else if d == 5 {
        '5'
    } else if d == 6 {
        '6'
    } else if d == 7 {
        '7'
    } else if d == 8 {
        '8'
    } else {
        '9'
    }
}

fn hex_to_char(d: u32) -> (c: char)
    requires
        d < 16,
    ensures
        c == hex_char(d as int),
{
    if d < 10 {
        digit_to_char(d as u64)
    } else if d == 10 {
        'a'
    } else if d == 11 {
        'b'
    } else if d == 12 {
        'c'
    } else if d == 13 {
        'd'
    } else if d == 14 {
        'e'
    } else {
        'f'
    }
}

/// Append the decimal rendering of `n`.
fn push_dec(out: &mut String, n: u64)
    ensures
        final(out)@ == old(out)@ + dec_str(n as nat),
    decreases n,
{
    if n >= 10 {
        push_dec(out, n / 10);
    }
    let c = digit_to_char(n % 10);
    push_char(out, c);
    proof {
        assert(out@ =~= old(out)@ + dec_str(n as nat));
    }
}

/// Append every character of `s`, escaped for a JSON string body.
fn push_escaped(out: &mut String, s: &str)
    ensures
        final(out)@ == old(out)@ + escape_str(s@),
{
    let len = s.unicode_len();
    let mut i: usize = 0;
    while i < len
        invariant
            i <= len,
            len == s@.len(),
            out@ == old(out)@ + escape_prefix(s@, i as int),
        decreases len - i,
    {
        let c = s.get_char(i);
        if c == '"' {
            push_char(out, '\\');
            push_char(out, '"');
        } else if c == '\\' {
            push_char(out, '\\');
            push_char(out, '\\');
        } else if (c as u32) < 0x20 {
            let code = c as u32;
            push_char(out, '\\');
            push_char(out, 'u');
            push_char(out, '0');
            push_char(out, '0');
            let hi = hex_to_char(code / 16);
            push_char(out, hi);
            let lo = hex_to_char(code % 16);
            push_char(out, lo);
        } else {
            push_char(out, c);
        }
        proof {
            assert(out@ =~= old(out)@ + escape_prefix(s@, i + 1));
        }
        i = i + 1;
    }
}

/// Append the JSON string literal for `s`, quotes included.
fn push_json_string(out: &mut String, s: &str)
    ensures
        final(out)@ == old(out)@ + json_string(s@),
{
    push_char(out, '"');
    push_escaped(out, s);
    push_char(out, '"');
    proof {
        assert(out@ =~= old(out)@ + json_string(s@));
    }
}

/// Append the serialization of an optional string field value.
fn push_opt_string(out: &mut String, v: &Option<String>)
    ensures
        final(out)@ == old(out)@ + json_opt_string(*v),
{
    match v {
        Some(s) => push_json_string(out, s.as_str()),
        None => out.append("null"),
    }
}

/// Append the serialization of an optional number field value.
fn push_opt_u64(out: &mut String, v: &Option<u64>)
    ensures
        final(out)@ == old(out)@ + json_opt_u64(*v),
{
    match v {
        Some(n) => push_dec(out, *n),
        None => out.append("null"),
    }
}

/// Append the serialization of an optional severity field value.
fn push_opt_level(out: &mut String, v: &Option<LogType>)
    ensures
        final(out)@ == old(out)@ + json_opt_level(*v),
{
    match v {
        Some(LogType::Info) => out.append("\"Info\""),
        Some(LogType::Debug) => out.append("\"Debug\""),
        Some(LogType::Error) => out.append("\"Error\""),
        Some(LogType::Warning) => out.append("\"Warning\""),
        Some(LogType::Event) => out.append("\"Event\""),
        None => out.append("null"),
    }
}

/// Append the JSON object for a source.
fn push_source(out: &mut String, s: &Source)
    ensures
        final(out)@ == old(out)@ + json_of_source(*s),
{
    out.append("{\"name\":");
    push_opt_string(out, &s.name);
    out.append(",\"version\":");
    push_opt_string(out, &s.version);
    out.append(",\"environment\":");
    push_opt_string(out, &s.environment);
    out.append(",\"service\":");
    push_opt_string(out, &s.service);
    out.append(",\"ip\":");
    push_opt_string(out, &s.ip);
    out.append("}");
    proof {
        assert(out@ =~= old(out)@ + json_of_source(*s));
    }
}

/// Append the serialization of an optional source field value.
fn push_opt_source(out: &mut String, v: &Option<Source>)
    ensures
        final(out)@ == old(out)@ + json_opt_source(*v),
{
    match v {
        Some(s) => push_source(out, s),
        None => out.append("null"),
    }
}

impl Log {
    /// Serialize the record to its JSON wire form, exactly `json_of_log`.
    pub fn to_json(&self) -> (r: String)
        ensures
            r@ == json_of_log(*self),
    {
        let mut out = String::new();
        out.append("{\"file\":");
        push_opt_string(&mut out, &self.file);
        out.append(",\"line\":");
        push_opt_u64(&mut out, &self.line);
        out.append(",\"message\":");
        push_opt_string(&mut out, &self.message);
        out.append(",\"source\":");
        push_opt_source(&mut out, &self.source);
        out.append(",\"log_level\":");
        push_opt_level(&mut out, &self.log_level);
        out.append(",\"system\":");
        push_opt_string(&mut out, &self.system);
        out.append(",\"timestamp\":");
        push_dec(&mut out, self.timestamp);
        out.append("}");
        proof {
            assert(out@ =~= json_of_log(*self));
        }
        out
    }
}

} // verus!
