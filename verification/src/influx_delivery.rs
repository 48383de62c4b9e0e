//! InfluxDB 3 endpoints and the bookkeeping around delivery: request URLs,
//! reconciliation replies, confirmed parts, spool capacity and durability
//! settings, and the outcomes a commit and a maintenance pass report.

use vstd::prelude::*;
use crate::contracts::{CommitOutcome, MaintenanceOutcome, PersistenceError};
use crate::influx_reconcile::ReconciliationQuery;
use crate::line_protocol::texts;
use crate::text::{chars_of, decimal, is_ascii_alnum, push_decimal};

verus! {

// ---------------------------------------------------------------------------
// URLs

/// Characters percent-encoding leaves as they are.
pub open spec fn url_unreserved(c: char) -> bool {
    is_ascii_alnum(c) || c == '-' || c == '.' || c == '_' || c == '~'
}

/// Uppercase hexadecimal digit.
pub open spec fn upper_hex(d: nat) -> char {
    if d < 10 {
        (d + 48) as char
    } else {
        (d + 55) as char
    }
}

/// Percent-encoding of ASCII text: unreserved characters kept, every other
/// character as `%` and two uppercase hexadecimal digits.
pub open spec fn ascii_percent_encoded(s: Seq<char>) -> Seq<char>
    decreases s.len(),
{
    if s.len() == 0 {
        Seq::empty()
    } else {
        ascii_percent_encoded(s.drop_last()) + if url_unreserved(s.last()) {
            seq![s.last()]
        } else {
            seq!['%', upper_hex(s.last() as nat / 16), upper_hex(s.last() as nat % 16)]
        }
    }
}

pub open spec fn all_ascii(s: Seq<char>) -> bool {
    forall|i: int| 0 <= i < s.len() ==> (#[trigger] s[i] as nat) < 128
}

/// What `urlencoding::encode` makes of a text.
pub uninterp spec fn url_encoded(s: Seq<char>) -> Seq<char>;

/// `urlencoding::encode`: a function of its input; for ASCII input every
/// character but the unreserved ones becomes `%` and two uppercase hex
/// digits. For non-ASCII input, each UTF-8 byte is encoded; that is left to
/// the name.
#[verifier::external_body]
fn url_encode(s: &str) -> (r: String)
    ensures
        r@ == url_encoded(s@),
        all_ascii(s@) ==> r@ == ascii_percent_encoded(s@),
{
    urlencoding::encode(s).into_owned()
}

/// The WAL-synchronous, all-or-nothing write endpoint.
pub open spec fn write_url_text(host: Seq<char>, database: Seq<char>) -> Seq<char> {
    host + "/api/v3/write_lp?db="@ + url_encoded(database)
        + "&precision=nanosecond&accept_partial=false&no_sync=false"@
}

pub fn write_url(host: &str, database: &str) -> (r: String)
    ensures
        r@ == write_url_text(host@, database@),
        all_ascii(database@) ==> r@ == host@ + "/api/v3/write_lp?db="@ + ascii_percent_encoded(database@)
            + "&precision=nanosecond&accept_partial=false&no_sync=false"@,
{
    let mut out = String::new();
    out.append(host);
    out.append("/api/v3/write_lp?db=");
    let db = url_encode(database);
    out.append(db.as_str());
    out.append("&precision=nanosecond&accept_partial=false&no_sync=false");
    out
}

/// The SQL query endpoint.
pub open spec fn query_url_text(host: Seq<char>, database: Seq<char>, sql: Seq<char>) -> Seq<char> {
    host + "/api/v3/query_sql?db="@ + url_encoded(database) + "&q="@ + url_encoded(sql) + "&format=json"@
}

pub fn query_url(host: &str, database: &str, sql: &str) -> (r: String)
    ensures
        r@ == query_url_text(host@, database@, sql@),
{
    let mut out = String::new();
    out.append(host);
    out.append("/api/v3/query_sql?db=");
    let db = url_encode(database);
    out.append(db.as_str());
    out.append("&q=");
    let q = url_encode(sql);
    out.append(q.as_str());
    out.append("&format=json");
    out
}

/// The value of the `Authorization` header.
pub fn bearer(token: &str) -> (r: String)
    ensures
        r@ == "Bearer "@ + token@,
{
    let mut out = String::new();
    out.append("Bearer ");
    out.append(token);
    out
}

/// `host` without trailing slashes, as `str::trim_end_matches('/')`.
pub open spec fn trimmed_host(host: Seq<char>) -> Seq<char>
    decreases host.len(),
{
    if host.len() > 0 && host.last() == '/' {
        trimmed_host(host.drop_last())
    } else {
        host
    }
}

/// The host must use TLS; the stored form has no trailing slash.
pub fn checked_host(host: &str) -> (r: Result<String, PersistenceError>)
    ensures
        crate::text::has_prefix(host@, "https://"@) ==> (r matches Ok(h) && h@ == trimmed_host(host@)),
        !crate::text::has_prefix(host@, "https://"@) ==> (r matches Err(PersistenceError::InvalidConfig(m))
            && m@ == "InfluxDB 3 host must use https://"@),
{
    let chars = chars_of(host);
    let prefix = chars_of("https://");
    let mut ok = prefix.len() <= chars.len();
    let mut i: usize = 0;
    while ok && i < prefix.len()
        invariant
            i <= prefix.len(),
            prefix@ == "https://"@,
            chars@ == host@,
            ok ==> prefix.len() <= chars.len() && forall|j: int| 0 <= j < i ==> chars@[j] == prefix@[j],
            !ok ==> !crate::text::has_prefix(host@, "https://"@),
        decreases prefix.len() - i,
    {
        if chars[i] != prefix[i] {
            assert(chars@.subrange(0, prefix@.len() as int)[i as int] != prefix@[i as int]);
            ok = false;
        }
        i = i + 1;
    }
    if !ok {
        let mut m = String::new();
        m.append("InfluxDB 3 host must use https://");
        return Err(PersistenceError::InvalidConfig(m));
    }
    assert(chars@.subrange(0, prefix@.len() as int) =~= prefix@);
    let mut end = chars.len();
    assert(chars@.take(end as int) =~= chars@);
    while end > 0 && chars[end - 1] == '/'
        invariant
            end <= chars.len(),
            chars@ == host@,
            trimmed_host(host@) == trimmed_host(chars@.take(end as int)),
        decreases end,
    {
        assert(chars@.take(end as int).drop_last() =~= chars@.take(end - 1));
        end = end - 1;
    }
    let mut out = String::new();
    let mut k: usize = 0;
    while k < end
        invariant
            k <= end <= chars.len(),
            out@ == chars@.take(k as int),
        decreases end - k,
    {
        out.push(chars[k]);
        assert(chars@.take(k + 1) =~= chars@.take(k as int).push(chars@[k as int]));
        k = k + 1;
    }
    proof {
        assert(chars@.take(chars.len() as int) =~= chars@);
    }
    Ok(out)
}

// ---------------------------------------------------------------------------
// Request failures

/// How an HTTP exchange with the server failed, as the client reports it.
#[derive(Clone, Copy, Debug, PartialEq, Eq, Structural)]
pub enum HttpFailure {
    Io,
    Timeout,
    HostNotFound,
    ConnectionFailed,
    ConnectProxyFailed,
    /// The server answered with this unsuccessful status.
    StatusCode(u16),
    /// Anything else: a malformed request or reply, a TLS or protocol error.
    Other,
}

/// The transport failures a reconnect may repair.
pub open spec fn transport_failure(failure: HttpFailure) -> bool {
    match failure {
        HttpFailure::Io | HttpFailure::Timeout | HttpFailure::HostNotFound
        | HttpFailure::ConnectionFailed | HttpFailure::ConnectProxyFailed => true,
        _ => false,
    }
}

pub open spec fn http_error_text(context: Seq<char>, detail: Seq<char>) -> Seq<char> {
    "InfluxDB 3 "@ + context + ": "@ + detail
}

/// A failed request during `context`, described by `detail`: a connection
/// failure when the transport failed, so that the reconnect policy applies,
/// and a permanent failure for a status or anything else the server said.
pub fn http_error(context: &str, failure: HttpFailure, detail: &str) -> (r: PersistenceError)
    ensures
        transport_failure(failure) ==> (r matches PersistenceError::Connection(m) && m@
            == http_error_text(context@, detail@)),
        !transport_failure(failure) ==> (r matches PersistenceError::Commit(m) && m@
            == http_error_text(context@, detail@)),
{
    let mut message = String::new();
    message.append("InfluxDB 3 ");
    message.append(context);
    message.append(": ");
    message.append(detail);
    let retryable = match failure {
        HttpFailure::Io | HttpFailure::Timeout | HttpFailure::HostNotFound
        | HttpFailure::ConnectionFailed | HttpFailure::ConnectProxyFailed => true,
        _ => false,
    };
    if retryable {
        PersistenceError::Connection(message)
    } else {
        PersistenceError::Commit(message)
    }
}

// ---------------------------------------------------------------------------
// Reconciliation replies

/// What the reconciliation reply says: the `count` of its first row, if
/// the reply decodes as a JSON array of rows and that row holds an integer
/// count; or the decoding failure.
pub uninterp spec fn reply_count(body: Seq<char>) -> Result<Option<i64>, Seq<char>>;

/// `serde_json::from_str` of the reply as rows, then the first row's
/// `count` read as `i64`. The result is a function of the reply text.
#[verifier::external_body]
fn decode_count_reply(body: &str) -> (r: Result<Option<i64>, String>)
    ensures
        match r {
            Ok(c) => reply_count(body@) == Ok::<Option<i64>, Seq<char>>(c),
            Err(e) => reply_count(body@) == Err::<Option<i64>, Seq<char>>(e@),
        },
{
    match serde_json::from_str::<Vec<serde_json::Value>>(body) {
        Ok(rows) => Ok(rows.first().and_then(|row| row.get("count")).and_then(serde_json::Value::as_i64)),
        Err(error) => Err(error.to_string()),
    }
}

/// The points a reconciliation reply reports as present: zero when the
/// reply has no count.
pub fn reconciled_count(body: &str) -> (r: Result<i64, PersistenceError>)
    ensures
        match reply_count(body@) {
            Ok(Some(c)) => r == Ok::<i64, PersistenceError>(c),
            Ok(None) => r == Ok::<i64, PersistenceError>(0),
            Err(e) => r matches Err(PersistenceError::Commit(m)) && m@
                == "InfluxDB 3 decode reconciliation query: "@ + e,
        },
{
    match decode_count_reply(body) {
        Ok(Some(c)) => Ok(c),
        Ok(None) => Ok(0),
        Err(e) => {
            let mut m = String::new();
            m.append("InfluxDB 3 decode reconciliation query: ");
            m.append(e.as_str());
            Err(PersistenceError::Commit(m))
        },
    }
}

/// The count a query expects back: its number of points, as an `i64`
/// (saturating).
pub open spec fn expected_count(n: nat) -> i64 {
    if n <= i64::MAX {
        n as i64
    } else {
        i64::MAX
    }
}

/// The parts a query's reply confirms: all of them when the server counts
/// exactly as many points as the query asked for, none otherwise.
pub fn confirmed_parts(query: &ReconciliationQuery, count: i64) -> (r: Vec<String>)
    ensures
        count == expected_count(query.part_ids@.len()) ==> texts(r@) == texts(query.part_ids@),
        count != expected_count(query.part_ids@.len()) ==> r@.len() == 0,
{
    let n = query.part_ids.len();
    let expected: i64 = if (n as u64) <= 9223372036854775807u64 {
        n as i64
    } else {
        9223372036854775807i64
    };
    if count != expected {
        return Vec::new();
    }
    let mut out: Vec<String> = Vec::new();
    let mut i: usize = 0;
    while i < n
        invariant
            i <= n,
            n == query.part_ids@.len(),
            texts(out@) == texts(query.part_ids@).take(i as int),
        decreases n - i,
    {
        let id = query.part_ids[i].clone();
        let ghost before = texts(out@);
        out.push(id);
        assert(texts(out@) =~= before.push(query.part_ids@[i as int]@));
        assert(texts(query.part_ids@).take(i + 1) =~= texts(query.part_ids@).take(i as int).push(query.part_ids@[i as int]@));
        i = i + 1;
    }
    assert(texts(query.part_ids@).take(n as int) =~= texts(query.part_ids@));
    out
}

/// A delivery pass succeeds only when every delivered part was confirmed.
pub fn delivery_result(verified: usize, expected: usize) -> (r: Result<usize, PersistenceError>)
    ensures
        verified == expected ==> r == Ok::<usize, PersistenceError>(verified),
        verified != expected ==> (r matches Err(PersistenceError::Commit(m)) && m@
            == "InfluxDB 3 reconciliation found "@ + decimal(verified as nat) + " of "@ + decimal(
            expected as nat,
        ) + " expected delivery parts"@),
{
    if verified != expected {
        let mut m = String::new();
        m.append("InfluxDB 3 reconciliation found ");
        push_decimal(&mut m, verified as u64);
        m.append(" of ");
        push_decimal(&mut m, expected as u64);
        m.append(" expected delivery parts");
        return Err(PersistenceError::Commit(m));
    }
    Ok(verified)
}

// ---------------------------------------------------------------------------
// Counts read from the spool

/// A database count as a `usize`: negative or too large counts read as
/// `usize::MAX`.
pub open spec fn count_or_max(x: i64) -> usize {
    if 0 <= x && x <= usize::MAX {
        x as usize
    } else {
        usize::MAX
    }
}

pub fn to_count(x: i64) -> (r: usize)
    ensures
        r == count_or_max(x),
{
    if x < 0 {
        usize::MAX
    } else if (x as u64) > (usize::MAX as u64) {
        usize::MAX
    } else {
        x as usize
    }
}

/// A maintenance pass: documents and parts still pending, and the parts
/// confirmed since `before_parts` were pending.
pub open spec fn maintenance_spec(before_parts: i64, after_parts: i64, pending_documents: i64) -> MaintenanceOutcome {
    let before = count_or_max(before_parts);
    let after = count_or_max(after_parts);
    MaintenanceOutcome {
        remote_pending: count_or_max(pending_documents),
        reconciled_parts: if before >= after {
            (before - after) as usize
        } else {
            0
        },
        pending_parts: after,
    }
}

pub fn maintenance_outcome(before_parts: i64, after_parts: i64, pending_documents: i64) -> (r: MaintenanceOutcome)
    ensures
        r == maintenance_spec(before_parts, after_parts, pending_documents),
{
    let before = to_count(before_parts);
    let after = to_count(after_parts);
    MaintenanceOutcome {
        remote_pending: to_count(pending_documents),
        reconciled_parts: before.saturating_sub(after),
        pending_parts: after,
    }
}

/// A spool commit's outcome: what the batch did, and what the spool still
/// holds for remote delivery.
pub fn spooled_outcome(local: CommitOutcome, pending_documents: i64, pending_parts: i64) -> (r: CommitOutcome)
    ensures
        r == (CommitOutcome {
            remote_pending: count_or_max(pending_documents),
            pending_parts: count_or_max(pending_parts),
            ..local
        }),
{
    CommitOutcome {
        remote_pending: to_count(pending_documents),
        pending_parts: to_count(pending_parts),
        ..local
    }
}

/// The spool's logical size: pages times page size, saturating.
pub fn spool_bytes(page_count: i64, page_size: i64) -> (r: Result<u64, PersistenceError>)
    ensures
        page_count < 0 ==> (r matches Err(PersistenceError::Commit(m)) && m@
            == "InfluxDB 3 spool page count is negative"@),
        page_count >= 0 && page_size < 0 ==> (r matches Err(PersistenceError::Commit(m)) && m@
            == "InfluxDB 3 spool page size is negative"@),
        page_count >= 0 && page_size >= 0 ==> r == Ok::<u64, PersistenceError>(
            if page_count * page_size > u64::MAX {
                u64::MAX
            } else {
                (page_count * page_size) as u64
            },
        ),
{
    if page_count < 0 {
        let mut m = String::new();
        m.append("InfluxDB 3 spool page count is negative");
        return Err(PersistenceError::Commit(m));
    }
    if page_size < 0 {
        let mut m = String::new();
        m.append("InfluxDB 3 spool page size is negative");
        return Err(PersistenceError::Commit(m));
    }
    match (page_count as u64).checked_mul(page_size as u64) {
        Some(bytes) => Ok(bytes),
        None => Ok(u64::MAX),
    }
}

/// A spool whose logical size exceeds its ceiling refuses the batch.
pub fn check_spool_capacity(bytes: u64, max_bytes: u64) -> (r: Result<(), PersistenceError>)
    ensures
        bytes <= max_bytes ==> r is Ok,
        bytes > max_bytes ==> (r matches Err(PersistenceError::CapacityExhausted(m)) && m@
            == "InfluxDB 3 spool reached configured max_bytes "@ + decimal(max_bytes as nat)),
{
    if bytes > max_bytes {
        let mut m = String::new();
        m.append("InfluxDB 3 spool reached configured max_bytes ");
        push_decimal(&mut m, max_bytes);
        return Err(PersistenceError::CapacityExhausted(m));
    }
    Ok(())
}

/// A spool whose bare schema already exceeds its ceiling cannot be opened.
pub fn check_spool_fits(bytes: u64, max_bytes: u64) -> (r: Result<(), PersistenceError>)
    ensures
        bytes <= max_bytes ==> r is Ok,
        bytes > max_bytes ==> (r matches Err(PersistenceError::InvalidConfig(m)) && m@
            == "InfluxDB 3 spool schema exceeds configured max_bytes "@ + decimal(max_bytes as nat)),
{
    if bytes > max_bytes {
        let mut m = String::new();
        m.append("InfluxDB 3 spool schema exceeds configured max_bytes ");
        push_decimal(&mut m, max_bytes);
        return Err(PersistenceError::InvalidConfig(m));
    }
    Ok(())
}

/// ASCII case-insensitive equality with `wal`.
pub open spec fn is_wal(mode: Seq<char>) -> bool {
    mode.len() == 3 && (mode[0] == 'w' || mode[0] == 'W') && (mode[1] == 'a' || mode[1] == 'A') && (
    mode[2] == 'l' || mode[2] == 'L')
}

/// The spool connection must run with foreign keys, full synchronous
/// writes and a write-ahead log.
pub fn check_durability(foreign_keys: u32, synchronous: u32, journal_mode: &str) -> (r: Result<(), PersistenceError>)
    ensures
        (foreign_keys == 1 && synchronous == 2 && is_wal(journal_mode@)) ==> r is Ok,
        !(foreign_keys == 1 && synchronous == 2 && is_wal(journal_mode@)) ==> (r matches Err(
            PersistenceError::Commit(m),
        ) && m@
            == "InfluxDB 3 spool durability settings were not applied: foreign_keys="@ + decimal(
            foreign_keys as nat,
        ) + ", synchronous="@ + decimal(synchronous as nat) + ", journal_mode="@ + journal_mode@),
{
    let mode = chars_of(journal_mode);
    let wal = mode.len() == 3 && (mode[0] == 'w' || mode[0] == 'W') && (mode[1] == 'a' || mode[1]
        == 'A') && (mode[2] == 'l' || mode[2] == 'L');
    if foreign_keys != 1 || synchronous != 2 || !wal {
        let mut m = String::new();
        m.append("InfluxDB 3 spool durability settings were not applied: foreign_keys=");
        push_decimal(&mut m, foreign_keys as u64);
        m.append(", synchronous=");
        push_decimal(&mut m, synchronous as u64);
        m.append(", journal_mode=");
        m.append(journal_mode);
        return Err(PersistenceError::Commit(m));
    }
    Ok(())
}

} // verus!
