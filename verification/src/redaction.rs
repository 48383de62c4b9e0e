//! Operator-facing error text: keeps an actionable backend context and
//! drops everything a backend may have appended (credentials, paths).

use vstd::prelude::*;

use crate::contracts::PersistenceError;
use crate::text::{chars_of, decimal, has_prefix, is_ascii_alnum, push_chars, push_decimal, ascii_alnum};

verus! {

/// The part of `m` before its first `':'` (all of `m` when it has none).
pub open spec fn before_colon(m: Seq<char>) -> Seq<char>
    decreases m.len(),
{
    if m.len() == 0 {
        m
    } else if m[0] == ':' {
        Seq::empty()
    } else {
        seq![m[0]] + before_colon(m.drop_first())
    }
}

/// Backend names whose operation context may be shown to operators.
pub open spec fn known_backend(context: Seq<char>) -> bool {
    ||| has_prefix(context, "SQLite"@)
    ||| has_prefix(context, "PostgreSQL"@)
    ||| has_prefix(context, "TimescaleDB"@)
    ||| has_prefix(context, "MySQL"@)
    ||| has_prefix(context, "SQL Server"@)
    ||| has_prefix(context, "InfluxDB 3"@)
    ||| has_prefix(context, "OpenOT"@)
}

pub open spec fn is_safe_char(c: char) -> bool {
    is_ascii_alnum(c) || c == ' ' || c == '-' || c == '_'
}

/// The operation context of a backend message, when it is safe to show:
/// it names a known backend, is non-empty, at most 120 characters, and made
/// only of ASCII letters, digits, spaces, `-` and `_`.
pub open spec fn safe_context(message: Seq<char>) -> Option<Seq<char>> {
    let context = before_colon(message);
    if known_backend(context) && context.len() != 0 && context.len() <= 120 && (forall|i: int|
        0 <= i < context.len() ==> is_safe_char(#[trigger] context[i])) {
        Some(context)
    } else {
        None
    }
}

/// What operators see for a failed backend operation.
pub open spec fn backend_failure_text(prefix: Seq<char>, message: Seq<char>) -> Seq<char> {
    match safe_context(message) {
        Some(context) => prefix + ": "@ + context,
        None => prefix,
    }
}

/// The redacted, operator-facing text of a persistence error.
pub open spec fn redacted_text(error: PersistenceError) -> Seq<char> {
    match error {
        PersistenceError::NotImplemented => "persistence behavior is unavailable"@,
        PersistenceError::IdentityConflict(identity) =>
            "OpenOT document identity conflict at "@ + identity@,
        PersistenceError::CheckpointRegression { current, requested } =>
            "OpenOT checkpoint regression: current="@ + decimal(current as nat) + ", requested="@
                + decimal(requested as nat),
        PersistenceError::InvalidConfig(_) =>
            "OpenOT persistence configuration is invalid; inspect the local runtime log"@,
        PersistenceError::BackendUnavailable(message) => message@,
        PersistenceError::Commit(message) => backend_failure_text(
            "selected OpenOT persistence backend operation failed"@,
            message@,
        ),
        PersistenceError::Connection(message) => backend_failure_text(
            "selected OpenOT persistence backend connection failed"@,
            message@,
        ),
        PersistenceError::CapacityExhausted(_) =>
            "OpenOT persistence durable capacity is exhausted; free space or increase the configured bound"@,
    }
}

fn starts_with(s: &Vec<char>, prefix: &str) -> (r: bool)
    ensures
        r == has_prefix(s@, prefix@),
{
    let p = chars_of(prefix);
    if p.len() > s.len() {
        return false;
    }
    let mut i: usize = 0;
    while i < p.len()
        invariant
            i <= p.len() <= s.len(),
            p@ == prefix@,
            s@.subrange(0, i as int) == p@.subrange(0, i as int),
        decreases p.len() - i,
    {
        if s[i] != p[i] {
            assert(s@.subrange(0, p.len() as int)[i as int] == s@[i as int]);
            assert(s@.subrange(0, p.len() as int)[i as int] != p@[i as int]);
            return false;
        }
        assert(s@.subrange(0, i + 1) =~= s@.subrange(0, i as int).push(s@[i as int]));
        assert(p@.subrange(0, i + 1) =~= p@.subrange(0, i as int).push(p@[i as int]));
        i = i + 1;
    }
    assert(p@.subrange(0, p.len() as int) =~= p@);
    true
}

proof fn lemma_before_colon_prefix(m: Seq<char>, i: int)
    requires
        0 <= i <= m.len(),
        forall|j: int| 0 <= j < i ==> m[j] != ':',
    ensures
        i == m.len() ==> before_colon(m) == m,
        i < m.len() && m[i] == ':' ==> before_colon(m) == m.take(i),
    decreases i,
{
    if i > 0 && m.len() > 0 {
        assert forall|j: int| 0 <= j < i - 1 implies m.drop_first()[j] != ':' by {
            assert(m.drop_first()[j] == m[j + 1]);
        }
        lemma_before_colon_prefix(m.drop_first(), i - 1);
        if i == m.len() {
            assert(seq![m[0]] + m.drop_first() =~= m);
        }
        if i < m.len() && m[i] == ':' {
            assert(seq![m[0]] + m.drop_first().take(i - 1) =~= m.take(i));
        }
    } else if i == 0 && m.len() > 0 {
        assert(m.take(0) =~= Seq::<char>::empty());
    }
}

/// The safe operation context of a backend failure message, if any.
pub fn safe_commit_context(message: &str) -> (r: Option<String>)
    ensures
        match r {
            Some(s) => safe_context(message@) == Some(s@),
            None => safe_context(message@) is None,
        },
{
    let chars = chars_of(message);
    let mut end: usize = 0;
    while end < chars.len() && chars[end] != ':'
        invariant
            end <= chars.len(),
            forall|j: int| 0 <= j < end ==> chars@[j] != ':',
        decreases chars.len() - end,
    {
        end = end + 1;
    }
    let mut context: Vec<char> = Vec::new();
    let mut i: usize = 0;
    while i < end
        invariant
            i <= end <= chars.len(),
            context@ == chars@.take(i as int),
        decreases end - i,
    {
        context.push(chars[i]);
        i = i + 1;
        assert(chars@.take(i as int) =~= chars@.take(i - 1).push(chars@[i - 1]));
    }
    proof {
        lemma_before_colon_prefix(chars@, end as int);
        if end == chars.len() {
            assert(chars@.take(end as int) =~= chars@);
        }
    }
    assert(context@ == before_colon(message@));
    let known = starts_with(&context, "SQLite") || starts_with(&context, "PostgreSQL")
        || starts_with(&context, "TimescaleDB") || starts_with(&context, "MySQL")
        || starts_with(&context, "SQL Server") || starts_with(&context, "InfluxDB 3")
        || starts_with(&context, "OpenOT");
    if !known || context.len() == 0 || context.len() > 120 {
        return None;
    }
    let mut k: usize = 0;
    while k < context.len()
        invariant
            k <= context.len(),
            context@ == before_colon(message@),
            forall|j: int| 0 <= j < k ==> is_safe_char(#[trigger] context@[j]),
        decreases context.len() - k,
    {
        let c = context[k];
        if !(ascii_alnum(c) || c == ' ' || c == '-' || c == '_') {
            return None;
        }
        k = k + 1;
    }
    let mut out = String::new();
    push_chars(&mut out, &context);
    assert(out@ =~= context@);
    Some(out)
}

fn push_backend_failure(out: &mut String, prefix: &str, message: &str)
    ensures
        final(out)@ == old(out)@ + backend_failure_text(prefix@, message@),
{
    out.append(prefix);
    match safe_commit_context(message) {
        Some(context) => {
            out.append(": ");
            out.append(context.as_str());
            assert(final(out)@ =~= old(out)@ + backend_failure_text(prefix@, message@));
        },
        None => {},
    }
}

/// The operator-facing text of `error`, without backend detail that may
/// hold credentials or filesystem paths.
pub fn redacted_error(error: &PersistenceError) -> (r: String)
    ensures
        r@ == redacted_text(*error),
{
    let mut out = String::new();
    match error {
        PersistenceError::NotImplemented => {
            out.append("persistence behavior is unavailable");
        },
        PersistenceError::IdentityConflict(identity) => {
            out.append("OpenOT document identity conflict at ");
            out.append(identity.as_str());
        },
        PersistenceError::CheckpointRegression { current, requested } => {
            out.append("OpenOT checkpoint regression: current=");
            push_decimal(&mut out, *current);
            out.append(", requested=");
            push_decimal(&mut out, *requested);
        },
        PersistenceError::InvalidConfig(_) => {
            out.append("OpenOT persistence configuration is invalid; inspect the local runtime log");
        },
        PersistenceError::BackendUnavailable(message) => {
            out.append(message.as_str());
        },
        PersistenceError::Commit(message) => {
            push_backend_failure(
                &mut out,
                "selected OpenOT persistence backend operation failed",
                message.as_str(),
            );
        },
        PersistenceError::Connection(message) => {
            push_backend_failure(
                &mut out,
                "selected OpenOT persistence backend connection failed",
                message.as_str(),
            );
        },
        PersistenceError::CapacityExhausted(_) => {
            out.append(
                "OpenOT persistence durable capacity is exhausted; free space or increase the configured bound",
            );
        },
    }
    assert(out@ =~= redacted_text(*error));
    out
}


/// The operator-facing text of a failed backend operation is the fixed
/// prefix, optionally followed by a context that is the message's text
/// before its first colon, at most 120 characters of ASCII letters, digits,
/// spaces, `-` and `_`: nothing after the colon is ever shown.
pub proof fn law_backend_failures_show_only_a_safe_prefix(message: String)
    ensures
        safe_context(message@) is None ==> redacted_text(PersistenceError::Commit(message))
            == "selected OpenOT persistence backend operation failed"@,
        safe_context(message@) matches Some(context) ==> {
            &&& redacted_text(PersistenceError::Commit(message))
                == "selected OpenOT persistence backend operation failed"@ + ": "@ + context
            &&& context == before_colon(message@)
            &&& context.len() <= 120
            &&& forall|i: int| 0 <= i < context.len() ==> is_safe_char(#[trigger] context[i])
        },
{
}

} // verus!
