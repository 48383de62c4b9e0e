//! InfluxDB 3 line protocol for projected documents: escaping, typed field
//! encodings, one line per projected row, and the validation of database
//! names.

use vstd::prelude::*;
use crate::contracts::PersistenceError;
use crate::text::{
    ascii_alnum, chars_of, decimal, int_failure_text, is_ascii_alnum, parse_i64, parse_i64_spec,
    push_decimal, push_signed_decimal, signed_decimal,
};

verus! {

/// What a tag key or value turns one character into.
pub open spec fn tag_escaped(c: char) -> Seq<char> {
    if c == '\\' {
        seq!['\\', '\\']
    } else if c == ',' {
        seq!['\\', ',']
    } else if c == '=' {
        seq!['\\', '=']
    } else if c == ' ' {
        seq!['\\', ' ']
    } else {
        seq![c]
    }
}

/// What a string field value turns one character into.
pub open spec fn field_escaped(c: char) -> Seq<char> {
    if c == '\\' {
        seq!['\\', '\\']
    } else if c == '"' {
        seq!['\\', '"']
    } else if c == '\n' {
        seq!['\\', 'n']
    } else if c == '\r' {
        seq!['\\', 'r']
    } else {
        seq![c]
    }
}

/// Tag escaping: backslash, comma, equals sign and space get a backslash.
pub open spec fn escape_tag_text(s: Seq<char>) -> Seq<char>
    decreases s.len(),
{
    if s.len() == 0 {
        Seq::empty()
    } else {
        escape_tag_text(s.drop_last()) + tag_escaped(s.last())
    }
}

/// Field escaping: backslash and double quote get a backslash, newline and
/// carriage return become `\n` and `\r`.
pub open spec fn escape_field_text(s: Seq<char>) -> Seq<char>
    decreases s.len(),
{
    if s.len() == 0 {
        Seq::empty()
    } else {
        escape_field_text(s.drop_last()) + field_escaped(s.last())
    }
}

/// Reads an escaped string field value back: `\\n` and `\\r` give a line
/// feed and a carriage return, a backslash before any other character gives
/// that character, anything else stands for itself.
pub open spec fn unescape_field_text(t: Seq<char>) -> Seq<char>
    decreases t.len(),
{
    if t.len() == 0 {
        Seq::empty()
    } else if t[0] == '\\' && t.len() >= 2 {
        seq![if t[1] == 'n' { '\n' } else if t[1] == 'r' { '\r' } else { t[1] }] + unescape_field_text(
            t.skip(2),
        )
    } else {
        seq![t[0]] + unescape_field_text(t.skip(1))
    }
}

proof fn lemma_escape_field_front(c: char, rest: Seq<char>)
    ensures
        escape_field_text(seq![c] + rest) == field_escaped(c) + escape_field_text(rest),
    decreases rest.len(),
{
    if rest.len() == 0 {
        assert(seq![c] + rest =~= seq![c]);
        assert(seq![c].drop_last() =~= Seq::<char>::empty());
        assert(escape_field_text(Seq::<char>::empty()) == Seq::<char>::empty());
        assert(escape_field_text(seq![c]) == escape_field_text(seq![c].drop_last()) + field_escaped(
            seq![c].last(),
        ));
        assert(escape_field_text(seq![c]) =~= field_escaped(c));
        assert(field_escaped(c) + escape_field_text(rest) =~= field_escaped(c));
    } else {
        lemma_escape_field_front(c, rest.drop_last());
        assert((seq![c] + rest).drop_last() =~= seq![c] + rest.drop_last());
        assert((seq![c] + rest).last() == rest.last());
        assert(escape_field_text(seq![c] + rest) =~= field_escaped(c) + escape_field_text(rest));
    }
}

/// An escaped string field value holds no raw line break, and reading it
/// back gives the original text: escaping loses nothing and cannot end a
/// line-protocol line early.
pub proof fn law_field_escaping_reads_back(s: Seq<char>)
    ensures
        forall|i: int| 0 <= i < escape_field_text(s).len() ==> #[trigger] escape_field_text(s)[i] != '\n'
            && escape_field_text(s)[i] != '\r',
        unescape_field_text(escape_field_text(s)) == s,
    decreases s.len(),
{
    if s.len() > 0 {
        let c = s[0];
        let rest = s.drop_first();
        law_field_escaping_reads_back(rest);
        assert(s =~= seq![c] + rest);
        lemma_escape_field_front(c, rest);
        let x = field_escaped(c);
        let y = escape_field_text(rest);
        let t = x + y;
        if c == '\\' || c == '"' || c == '\n' || c == '\r' {
            assert(t.skip(2) =~= y);
        } else {
            assert(t.skip(1) =~= y);
        }
        assert(unescape_field_text(t) =~= s);
        assert forall|i: int| 0 <= i < t.len() implies #[trigger] t[i] != '\n' && t[i] != '\r' by {
            if i >= x.len() {
                assert(t[i] == y[i - x.len()]);
            }
        }
    }
}

/// Escapes a tag value.
pub fn escape_tag(value: &str) -> (r: String)
    ensures
        r@ == escape_tag_text(value@),
{
    let chars = chars_of(value);
    let mut out = String::new();
    let mut i: usize = 0;
    while i < chars.len()
        invariant
            i <= chars.len(),
            chars@ == value@,
            out@ == escape_tag_text(chars@.take(i as int)),
        decreases chars.len() - i,
    {
        let c = chars[i];
        if c == '\\' || c == ',' || c == '=' || c == ' ' {
            out.push('\\');
        }
        out.push(c);
        assert(chars@.take(i + 1).drop_last() =~= chars@.take(i as int));
        assert(out@ =~= escape_tag_text(chars@.take(i + 1)));
        i = i + 1;
    }
    assert(chars@.take(chars.len() as int) =~= chars@);
    out
}

/// Escapes a string field value.
pub fn escape_field(value: &str) -> (r: String)
    ensures
        r@ == escape_field_text(value@),
{
    let chars = chars_of(value);
    let mut out = String::new();
    let mut i: usize = 0;
    while i < chars.len()
        invariant
            i <= chars.len(),
            chars@ == value@,
            out@ == escape_field_text(chars@.take(i as int)),
        decreases chars.len() - i,
    {
        let c = chars[i];
        if c == '\\' || c == '"' {
            out.push('\\');
            out.push(c);
        } else if c == '\n' {
            out.push('\\');
            out.push('n');
        } else if c == '\r' {
            out.push('\\');
            out.push('r');
        } else {
            out.push(c);
        }
        assert(chars@.take(i + 1).drop_last() =~= chars@.take(i as int));
        assert(out@ =~= escape_field_text(chars@.take(i + 1)));
        i = i + 1;
    }
    assert(chars@.take(chars.len() as int) =~= chars@);
    out
}

/// A database name is non-empty and made of ASCII letters, digits, `_`
/// and `-`.
pub open spec fn valid_database(name: Seq<char>) -> bool {
    name.len() > 0 && forall|i: int|
        0 <= i < name.len() ==> (name[i] == '_' || name[i] == '-' || is_ascii_alnum(#[trigger] name[i]))
}

pub open spec fn invalid_database_text() -> Seq<char> {
    "InfluxDB 3 database must contain only ASCII letters, digits, '_' or '-'"@
}

/// Accepts exactly the database names `valid_database` describes.
pub fn validate_database(value: &str) -> (r: Result<(), PersistenceError>)
    ensures
        valid_database(value@) ==> r is Ok,
        !valid_database(value@) ==> (r matches Err(PersistenceError::InvalidConfig(m)) && m@
            == invalid_database_text()),
{
    let chars = chars_of(value);
    let mut ok = chars.len() > 0;
    let mut i: usize = 0;
    while i < chars.len()
        invariant
            i <= chars.len(),
            chars@ == value@,
            ok == (chars.len() > 0 && forall|j: int|
                0 <= j < i ==> (chars@[j] == '_' || chars@[j] == '-' || is_ascii_alnum(
                    #[trigger] chars@[j],
                ))),
        decreases chars.len() - i,
    {
        let c = chars[i];
        if !(c == '_' || c == '-' || ascii_alnum(c)) {
            ok = false;
        }
        i = i + 1;
    }
    if ok {
        Ok(())
    } else {
        let mut m = String::new();
        m.append("InfluxDB 3 database must contain only ASCII letters, digits, '_' or '-'");
        Err(PersistenceError::InvalidConfig(m))
    }
}

// ---------------------------------------------------------------------------
// Fields

/// The texts of a list of strings.
pub open spec fn texts(v: Seq<String>) -> Seq<Seq<char>> {
    Seq::new(v.len(), |i: int| v[i]@)
}

/// `name="escaped value"`
pub open spec fn text_field(name: Seq<char>, value: Seq<char>) -> Seq<char> {
    name + "=\""@ + escape_field_text(value) + "\""@
}

/// `name=true` or `name=false`
pub open spec fn bool_field(name: Seq<char>, value: bool) -> Seq<char> {
    name + "="@ + (if value {
        "true"@
    } else {
        "false"@
    })
}

/// `name=<decimal>u`
pub open spec fn uint_field(name: Seq<char>, value: nat) -> Seq<char> {
    name + "="@ + decimal(value) + "u"@
}

/// `name=<text>u`, for an unsigned value kept as decimal text.
pub open spec fn unsigned_text_field(name: Seq<char>, value: Seq<char>) -> Seq<char> {
    name + "="@ + value + "u"@
}

/// `name=<decimal>i`
pub open spec fn signed_field(name: Seq<char>, value: int) -> Seq<char> {
    name + "="@ + signed_decimal(value) + "i"@
}

/// `name=<rendered float>`
pub open spec fn float_field(name: Seq<char>, rendered: Seq<char>) -> Seq<char> {
    name + "="@ + rendered
}

proof fn lemma_texts_push(v: Seq<String>, s: String)
    ensures
        texts(v.push(s)) == texts(v).push(s@),
{
    assert(texts(v.push(s)) =~= texts(v).push(s@));
}

/// Appends one finished field.
pub(crate) fn push_field(fields: &mut Vec<String>, field: String)
    ensures
        texts(final(fields)@) == texts(old(fields)@).push(field@),
{
    fields.push(field);
    proof {
        lemma_texts_push(old(fields)@, field);
    }
}

pub(crate) fn text_field_string(name: &str, value: &str) -> (r: String)
    ensures
        r@ == text_field(name@, value@),
{
    let mut out = String::new();
    out.append(name);
    out.append("=\"");
    let escaped = escape_field(value);
    out.append(escaped.as_str());
    out.append("\"");
    out
}

pub(crate) fn push_text(fields: &mut Vec<String>, name: &str, value: &str)
    ensures
        texts(final(fields)@) == texts(old(fields)@).push(text_field(name@, value@)),
{
    let f = text_field_string(name, value);
    push_field(fields, f);
}

pub(crate) fn push_bool(fields: &mut Vec<String>, name: &str, value: bool)
    ensures
        texts(final(fields)@) == texts(old(fields)@).push(bool_field(name@, value)),
{
    let mut out = String::new();
    out.append(name);
    out.append("=");
    if value {
        out.append("true");
    } else {
        out.append("false");
    }
    push_field(fields, out);
}

pub(crate) fn push_uint(fields: &mut Vec<String>, name: &str, value: u64)
    ensures
        texts(final(fields)@) == texts(old(fields)@).push(uint_field(name@, value as nat)),
{
    let mut out = String::new();
    out.append(name);
    out.append("=");
    push_decimal(&mut out, value);
    out.append("u");
    push_field(fields, out);
}

pub(crate) fn push_unsigned_text(fields: &mut Vec<String>, name: &str, value: &str)
    ensures
        texts(final(fields)@) == texts(old(fields)@).push(unsigned_text_field(name@, value@)),
{
    let mut out = String::new();
    out.append(name);
    out.append("=");
    out.append(value);
    out.append("u");
    push_field(fields, out);
}

pub(crate) fn push_signed(fields: &mut Vec<String>, name: &str, value: i64)
    ensures
        texts(final(fields)@) == texts(old(fields)@).push(signed_field(name@, value as int)),
{
    let mut out = String::new();
    out.append(name);
    out.append("=");
    push_signed_decimal(&mut out, value);
    out.append("i");
    push_field(fields, out);
}

pub(crate) fn push_float(fields: &mut Vec<String>, name: &str, rendered: &str)
    ensures
        texts(final(fields)@) == texts(old(fields)@).push(float_field(name@, rendered@)),
{
    let mut out = String::new();
    out.append(name);
    out.append("=");
    out.append(rendered);
    push_field(fields, out);
}

/// The field an optional string contributes: none when absent.
pub open spec fn opt_text(name: Seq<char>, value: Option<String>) -> Seq<Seq<char>> {
    match value {
        Some(v) => seq![text_field(name, v@)],
        None => Seq::empty(),
    }
}

pub open spec fn opt_bool(name: Seq<char>, value: Option<bool>) -> Seq<Seq<char>> {
    match value {
        Some(v) => seq![bool_field(name, v)],
        None => Seq::empty(),
    }
}

pub open spec fn opt_uint(name: Seq<char>, value: Option<u64>) -> Seq<Seq<char>> {
    match value {
        Some(v) => seq![uint_field(name, v as nat)],
        None => Seq::empty(),
    }
}

pub open spec fn opt_uint16(name: Seq<char>, value: Option<u16>) -> Seq<Seq<char>> {
    match value {
        Some(v) => seq![uint_field(name, v as nat)],
        None => Seq::empty(),
    }
}

pub open spec fn opt_signed(name: Seq<char>, value: Option<i64>) -> Seq<Seq<char>> {
    match value {
        Some(v) => seq![signed_field(name, v as int)],
        None => Seq::empty(),
    }
}

pub open spec fn opt_unsigned_text(name: Seq<char>, value: Option<String>) -> Seq<Seq<char>> {
    match value {
        Some(v) => seq![unsigned_text_field(name, v@)],
        None => Seq::empty(),
    }
}

pub open spec fn opt_float(name: Seq<char>, value: Option<String>) -> Seq<Seq<char>> {
    match value {
        Some(v) => seq![float_field(name, v@)],
        None => Seq::empty(),
    }
}

pub(crate) fn push_opt_text(fields: &mut Vec<String>, name: &str, value: &Option<String>)
    ensures
        texts(final(fields)@) == texts(old(fields)@) + opt_text(name@, *value),
{
    match value {
        Some(v) => push_text(fields, name, v.as_str()),
        None => {},
    }
    assert(texts(final(fields)@) =~= texts(old(fields)@) + opt_text(name@, *value));
}

pub(crate) fn push_opt_bool(fields: &mut Vec<String>, name: &str, value: Option<bool>)
    ensures
        texts(final(fields)@) == texts(old(fields)@) + opt_bool(name@, value),
{
    match value {
        Some(v) => push_bool(fields, name, v),
        None => {},
    }
    assert(texts(final(fields)@) =~= texts(old(fields)@) + opt_bool(name@, value));
}

pub(crate) fn push_opt_uint(fields: &mut Vec<String>, name: &str, value: Option<u64>)
    ensures
        texts(final(fields)@) == texts(old(fields)@) + opt_uint(name@, value),
{
    match value {
        Some(v) => push_uint(fields, name, v),
        None => {},
    }
    assert(texts(final(fields)@) =~= texts(old(fields)@) + opt_uint(name@, value));
}

pub(crate) fn push_opt_uint16(fields: &mut Vec<String>, name: &str, value: Option<u16>)
    ensures
        texts(final(fields)@) == texts(old(fields)@) + opt_uint16(name@, value),
{
    match value {
        Some(v) => push_uint(fields, name, v as u64),
        None => {},
    }
    assert(texts(final(fields)@) =~= texts(old(fields)@) + opt_uint16(name@, value));
}

pub(crate) fn push_opt_signed(fields: &mut Vec<String>, name: &str, value: Option<i64>)
    ensures
        texts(final(fields)@) == texts(old(fields)@) + opt_signed(name@, value),
{
    match value {
        Some(v) => push_signed(fields, name, v),
        None => {},
    }
    assert(texts(final(fields)@) =~= texts(old(fields)@) + opt_signed(name@, value));
}

pub(crate) fn push_opt_unsigned_text(fields: &mut Vec<String>, name: &str, value: &Option<String>)
    ensures
        texts(final(fields)@) == texts(old(fields)@) + opt_unsigned_text(name@, *value),
{
    match value {
        Some(v) => push_unsigned_text(fields, name, v.as_str()),
        None => {},
    }
    assert(texts(final(fields)@) =~= texts(old(fields)@) + opt_unsigned_text(name@, *value));
}

pub(crate) fn push_opt_float(fields: &mut Vec<String>, name: &str, value: &Option<String>)
    ensures
        texts(final(fields)@) == texts(old(fields)@) + opt_float(name@, *value),
{
    match value {
        Some(v) => push_float(fields, name, v.as_str()),
        None => {},
    }
    assert(texts(final(fields)@) =~= texts(old(fields)@) + opt_float(name@, *value));
}

// ---------------------------------------------------------------------------
// Joining

/// The parts separated by `sep`.
pub open spec fn join(parts: Seq<Seq<char>>, sep: Seq<char>) -> Seq<char>
    decreases parts.len(),
{
    if parts.len() == 0 {
        Seq::empty()
    } else if parts.len() == 1 {
        parts[0]
    } else {
        join(parts.drop_last(), sep) + sep + parts.last()
    }
}

/// Appends the parts separated by `sep`.
pub fn push_joined(out: &mut String, parts: &Vec<String>, sep: &str)
    ensures
        final(out)@ == old(out)@ + join(texts(parts@), sep@),
{
    let mut i: usize = 0;
    assert(texts(parts@).take(0) =~= Seq::<Seq<char>>::empty());
    while i < parts.len()
        invariant
            i <= parts.len(),
            out@ == old(out)@ + join(texts(parts@).take(i as int), sep@),
        decreases parts.len() - i,
    {
        if i > 0 {
            out.append(sep);
        }
        out.append(parts[i].as_str());
        proof {
            let t = texts(parts@);
            assert(t.take(i + 1).drop_last() =~= t.take(i as int));
            if i == 0 {
                assert(join(t.take(1), sep@) == t[0]);
            }
            assert(out@ =~= old(out)@ + join(t.take(i + 1), sep@));
        }
        i = i + 1;
    }
    assert(texts(parts@).take(parts.len() as int) =~= texts(parts@));
}

// ---------------------------------------------------------------------------
// Lines

/// The message for a timestamp that does not parse as `i64`.
pub open spec fn bad_timestamp_text(f: crate::text::IntParseFailure) -> Seq<char> {
    "InfluxDB 3 point timestamp is invalid: "@ + int_failure_text(f)
}

/// One projection point: measurement, the record, run and source tags, the
/// part tag, the fields, and the timestamp parsed from its decimal text.
pub open spec fn custom_line_text(
    measurement: Seq<char>,
    record_id: Seq<char>,
    run_id: Seq<char>,
    source_id: u32,
    part: Seq<char>,
    fields: Seq<Seq<char>>,
    timestamp: Seq<char>,
) -> Result<Seq<char>, Seq<char>> {
    match parse_i64_spec(timestamp) {
        Err(f) => Err(bad_timestamp_text(f)),
        Ok(ts) => Ok(
            measurement + ",record_id="@ + escape_tag_text(record_id) + ",run_id="@
                + escape_tag_text(run_id) + ",source_id="@ + decimal(source_id as nat) + ",part_id="@
                + part + " "@ + join(fields, ","@) + " "@ + signed_decimal(ts as int),
        ),
    }
}

/// The result of building one line, against its description.
pub open spec fn line_matches(r: Result<String, PersistenceError>, spec: Result<Seq<char>, Seq<char>>) -> bool {
    match spec {
        Ok(l) => r matches Ok(s) && s@ == l,
        Err(m) => r matches Err(PersistenceError::Commit(e)) && e@ == m,
    }
}

/// Builds one projection point.
pub fn custom_line(
    measurement: &str,
    record_id: &str,
    run_id: &str,
    source_id: u32,
    part: &str,
    fields: &Vec<String>,
    timestamp: &str,
) -> (r: Result<String, PersistenceError>)
    ensures
        line_matches(
            r,
            custom_line_text(measurement@, record_id@, run_id@, source_id, part@, texts(fields@), timestamp@),
        ),
{
    let ts = match parse_i64(timestamp) {
        Ok(ts) => ts,
        Err(f) => {
            let mut m = String::new();
            m.append("InfluxDB 3 point timestamp is invalid: ");
            m.append(f.text());
            return Err(PersistenceError::Commit(m));
        },
    };
    let mut out = String::new();
    out.append(measurement);
    out.append(",record_id=");
    let rid = escape_tag(record_id);
    out.append(rid.as_str());
    out.append(",run_id=");
    let run = escape_tag(run_id);
    out.append(run.as_str());
    out.append(",source_id=");
    push_decimal(&mut out, source_id as u64);
    out.append(",part_id=");
    out.append(part);
    out.append(" ");
    push_joined(&mut out, fields, ",");
    out.append(" ");
    push_signed_decimal(&mut out, ts);
    Ok(out)
}

} // verus!
