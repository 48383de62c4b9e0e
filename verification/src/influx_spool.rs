//! The durable InfluxDB 3 delivery spool: splitting a document's line
//! protocol into delivery parts, and reading back from a spooled part what
//! the reconciliation query needs to find it on the server.

use vstd::prelude::*;
use crate::contracts::PersistenceError;
use crate::text::{chars_of, decimal, has_prefix, push_chars, push_decimal, string_of};

verus! {

/// Removes one trailing carriage return.
pub open spec fn strip_cr(line: Seq<char>) -> Seq<char> {
    if line.len() > 0 && line.last() == '\r' {
        line.drop_last()
    } else {
        line
    }
}

/// Scanning state: the finished lines and the line being read.
pub open spec fn scan_lines(s: Seq<char>) -> (Seq<Seq<char>>, Seq<char>)
    decreases s.len(),
{
    if s.len() == 0 {
        (Seq::empty(), Seq::empty())
    } else {
        let (done, cur) = scan_lines(s.drop_last());
        if s.last() == '\n' {
            (done.push(strip_cr(cur)), Seq::empty())
        } else {
            (done, cur.push(s.last()))
        }
    }
}

/// The lines of a text as `str::lines` yields them: split at each `\n`,
/// a `\r` right before it dropped, no empty line after a final `\n`.
pub open spec fn text_lines(s: Seq<char>) -> Seq<Seq<char>> {
    let (done, cur) = scan_lines(s);
    if cur.len() > 0 {
        done.push(cur)
    } else {
        done
    }
}

/// One scanning step.
pub open spec fn scan_step(state: (Seq<Seq<char>>, Seq<char>), c: char) -> (Seq<Seq<char>>, Seq<char>) {
    if c == '\n' {
        (state.0.push(strip_cr(state.1)), Seq::empty())
    } else {
        (state.0, state.1.push(c))
    }
}

/// Scanning `t` on from a given state.
pub open spec fn scan_from(state: (Seq<Seq<char>>, Seq<char>), t: Seq<char>) -> (Seq<Seq<char>>, Seq<char>)
    decreases t.len(),
{
    if t.len() == 0 {
        state
    } else {
        scan_step(scan_from(state, t.drop_last()), t.last())
    }
}

proof fn lemma_scan_is_scan_from(s: Seq<char>)
    ensures
        scan_lines(s) == scan_from((Seq::empty(), Seq::empty()), s),
    decreases s.len(),
{
    if s.len() > 0 {
        lemma_scan_is_scan_from(s.drop_last());
    }
}

proof fn lemma_scan_from_concat(state: (Seq<Seq<char>>, Seq<char>), a: Seq<char>, b: Seq<char>)
    ensures
        scan_from(state, a + b) == scan_from(scan_from(state, a), b),
    decreases b.len(),
{
    if b.len() == 0 {
        assert(a + b =~= a);
    } else {
        assert((a + b).drop_last() =~= a + b.drop_last());
        assert((a + b).last() == b.last());
        lemma_scan_from_concat(state, a, b.drop_last());
    }
}

/// A text without line breaks continues the line being read.
proof fn lemma_scan_plain(state: (Seq<Seq<char>>, Seq<char>), t: Seq<char>)
    requires
        forall|i: int| 0 <= i < t.len() ==> t[i] != '\n',
    ensures
        scan_from(state, t) == (state.0, state.1 + t),
    decreases t.len(),
{
    if t.len() == 0 {
        assert(state.1 + t =~= state.1);
    } else {
        lemma_scan_plain(state, t.drop_last());
        assert((state.1 + t.drop_last()).push(t.last()) =~= state.1 + t);
    }
}

/// A line holds neither a line feed nor a carriage return.
pub open spec fn single_line(l: Seq<char>) -> bool {
    forall|i: int| 0 <= i < l.len() ==> l[i] != '\n' && l[i] != '\r'
}

proof fn lemma_scan_joined(ls: Seq<Seq<char>>)
    requires
        ls.len() >= 1,
        forall|k: int| 0 <= k < ls.len() ==> single_line(#[trigger] ls[k]),
    ensures
        scan_lines(crate::line_protocol::join(ls, "\n"@)) == (ls.drop_last(), ls.last()),
    decreases ls.len(),
{
    let empty_state = (Seq::<Seq<char>>::empty(), Seq::<char>::empty());
    if ls.len() == 1 {
        lemma_scan_is_scan_from(ls[0]);
        lemma_scan_plain(empty_state, ls[0]);
        assert(Seq::<char>::empty() + ls[0] =~= ls[0]);
        assert(ls.drop_last() =~= Seq::<Seq<char>>::empty());
    } else {
        let init = ls.drop_last();
        assert forall|k: int| 0 <= k < init.len() implies single_line(#[trigger] init[k]) by {
            assert(init[k] == ls[k]);
        }
        lemma_scan_joined(init);
        let head = crate::line_protocol::join(init, "\n"@);
        let l = ls.last();
        assert(single_line(ls[ls.len() - 1]));
        lemma_scan_is_scan_from(head + "\n"@ + l);
        lemma_scan_is_scan_from(head);
        lemma_scan_from_concat(empty_state, head + "\n"@, l);
        lemma_scan_from_concat(empty_state, head, "\n"@);
        let after_head = scan_from(empty_state, head);
        assert(after_head == (init.drop_last(), init.last()));
        reveal_strlit("\n");
        assert("\n"@.drop_last() =~= Seq::<char>::empty());
        let after_break = scan_from(after_head, "\n"@);
        assert("\n"@.len() == 1);
        assert("\n"@.last() == '\n');
        assert(scan_from(after_head, "\n"@.drop_last()) == after_head);
        assert(after_break == scan_step(after_head, '\n'));
        assert(single_line(init[init.len() - 1]));
        assert(strip_cr(init.last()) == init.last());
        assert(after_break == (init.drop_last().push(init.last()), Seq::<char>::empty()));
        assert(init.drop_last().push(init.last()) =~= init);
        lemma_scan_plain(after_break, l);
        assert(Seq::<char>::empty() + l =~= l);
    }
}

/// The delivery parts of a document's points are exactly those points: for
/// single lines, the last one non-empty, the lines of their newline-joined
/// text are the lines themselves.
pub proof fn law_joined_points_split_back(ls: Seq<Seq<char>>)
    requires
        forall|k: int| 0 <= k < ls.len() ==> single_line(#[trigger] ls[k]),
        ls.len() > 0 ==> ls.last().len() > 0,
    ensures
        text_lines(crate::line_protocol::join(ls, "\n"@)) == ls,
{
    if ls.len() == 0 {
        assert(scan_lines(Seq::<char>::empty()) == (Seq::<Seq<char>>::empty(), Seq::<char>::empty()));
    } else {
        lemma_scan_joined(ls);
        assert(ls.drop_last().push(ls.last()) =~= ls);
    }
}

/// One line of a multi-point document, delivered and acknowledged on its own.
#[derive(Debug, Clone, PartialEq, Eq)]
pub struct DeliveryPart {
    /// `<document identity>:<ordinal>`
    pub part_id: String,
    pub ordinal: usize,
    pub line: String,
}

/// The identity of the `ordinal`-th part of a document.
pub open spec fn part_id_text(identity: Seq<char>, ordinal: nat) -> Seq<char> {
    identity + ":"@ + decimal(ordinal)
}

pub open spec fn part_matches(p: DeliveryPart, identity: Seq<char>, ordinal: nat, line: Seq<char>) -> bool {
    &&& p.part_id@ == part_id_text(identity, ordinal)
    &&& p.ordinal == ordinal
    &&& p.line@ == line
}

/// Splits a document's line protocol into its delivery parts, one per line,
/// numbered from zero.
pub fn delivery_parts(identity_key: &str, line_protocol: &str) -> (r: Vec<DeliveryPart>)
    ensures
        r@.len() == text_lines(line_protocol@).len(),
        forall|k: int|
            0 <= k < r@.len() ==> part_matches(#[trigger] r@[k], identity_key@, k as nat, text_lines(line_protocol@)[k]),
{
    let chars = chars_of(line_protocol);
    let mut done: Vec<DeliveryPart> = Vec::new();
    let mut cur = String::new();
    let mut i: usize = 0;
    assert(chars@.take(0) =~= Seq::<char>::empty());
    while i < chars.len()
        invariant
            i <= chars.len(),
            chars@ == line_protocol@,
            done@.len() == scan_lines(chars@.take(i as int)).0.len(),
            forall|k: int|
                0 <= k < done@.len() ==> part_matches(#[trigger] done@[k], identity_key@, k as nat, scan_lines(chars@.take(i as int)).0[k]),
            cur@ == scan_lines(chars@.take(i as int)).1,
        decreases chars.len() - i,
    {
        let c = chars[i];
        let ghost prev = scan_lines(chars@.take(i as int));
        assert(chars@.take(i + 1).drop_last() =~= chars@.take(i as int));
        if c == '\n' {
            let line = take_line(cur);
            let part = new_part(identity_key, done.len(), line);
            done.push(part);
            cur = String::new();
        } else {
            cur.push(c);
        }
        i = i + 1;
    }
    assert(chars@.take(chars.len() as int) =~= chars@);
    if cur.as_str().unicode_len() > 0 {
        let part = new_part(identity_key, done.len(), cur);
        done.push(part);
    }
    done
}

/// The finished line: its trailing `\r`, if any, removed.
fn take_line(cur: String) -> (r: String)
    ensures
        r@ == strip_cr(cur@),
{
    let chars = chars_of(cur.as_str());
    let n = chars.len();
    if n > 0 && chars[n - 1] == '\r' {
        let mut out = String::new();
        let mut i: usize = 0;
        while i < n - 1
            invariant
                i <= n - 1,
                n == chars.len(),
                out@ == chars@.take(i as int),
            decreases n - 1 - i,
        {
            out.push(chars[i]);
            assert(chars@.take(i + 1) =~= chars@.take(i as int).push(chars@[i as int]));
            i = i + 1;
        }
        assert(chars@.take(n - 1) =~= cur@.drop_last());
        out
    } else {
        cur
    }
}

fn new_part(identity_key: &str, ordinal: usize, line: String) -> (r: DeliveryPart)
    ensures
        part_matches(r, identity_key@, ordinal as nat, line@),
{
    let mut part_id = String::new();
    part_id.append(identity_key);
    part_id.append(":");
    push_decimal(&mut part_id, ordinal as u64);
    DeliveryPart { part_id, ordinal, line }
}


// ---------------------------------------------------------------------------
// Reading a spooled part back

/// Splitting state: the finished pieces and the piece being read.
pub open spec fn split_scan(s: Seq<char>, sep: char) -> (Seq<Seq<char>>, Seq<char>)
    decreases s.len(),
{
    if s.len() == 0 {
        (Seq::empty(), Seq::empty())
    } else {
        let (done, cur) = split_scan(s.drop_last(), sep);
        if s.last() == sep {
            (done.push(cur), Seq::empty())
        } else {
            (done, cur.push(s.last()))
        }
    }
}

/// The pieces between separators, as `str::split` yields them.
pub open spec fn pieces(s: Seq<char>, sep: char) -> Seq<Seq<char>> {
    let (done, cur) = split_scan(s, sep);
    done.push(cur)
}

proof fn lemma_first_piece_short(s: Seq<char>, sep: char)
    ensures
        split_scan(s, sep).0.len() == 0 ==> split_scan(s, sep).1.len() == s.len(),
        split_scan(s, sep).0.len() >= 1 ==> split_scan(s, sep).0[0].len() < s.len(),
    decreases s.len(),
{
    if s.len() > 0 {
        lemma_first_piece_short(s.drop_last(), sep);
    }
}

pub open spec fn char_rows(v: Seq<Vec<char>>) -> Seq<Seq<char>> {
    Seq::new(v.len(), |i: int| v[i]@)
}

/// Splits at every `sep`.
fn split_chars(v: &Vec<char>, sep: char) -> (r: Vec<Vec<char>>)
    ensures
        char_rows(r@) == pieces(v@, sep),
{
    let mut done: Vec<Vec<char>> = Vec::new();
    let mut cur: Vec<char> = Vec::new();
    let mut i: usize = 0;
    assert(v@.take(0) =~= Seq::<char>::empty());
    assert(char_rows(done@) =~= Seq::<Seq<char>>::empty());
    while i < v.len()
        invariant
            i <= v.len(),
            char_rows(done@) == split_scan(v@.take(i as int), sep).0,
            cur@ == split_scan(v@.take(i as int), sep).1,
        decreases v.len() - i,
    {
        assert(v@.take(i + 1).drop_last() =~= v@.take(i as int));
        if v[i] == sep {
            let ghost before = char_rows(done@);
            let finished = cur;
            done.push(finished);
            cur = Vec::new();
            assert(char_rows(done@) =~= before.push(finished@));
        } else {
            cur.push(v[i]);
        }
        i = i + 1;
    }
    assert(v@.take(v.len() as int) =~= v@);
    let ghost before = char_rows(done@);
    let last = cur;
    done.push(last);
    assert(char_rows(done@) =~= before.push(last@));
    done
}

/// The identity named by the first tag that carries one.
pub open spec fn tag_identity(tags: Seq<Seq<char>>) -> Option<Seq<char>>
    decreases tags.len(),
{
    if tags.len() == 0 {
        None
    } else if has_prefix(tags[0], "record_id="@) {
        Some(tags[0].skip(10))
    } else if has_prefix(tags[0], "identity_key="@) {
        Some(tags[0].skip(13))
    } else {
        tag_identity(tags.drop_first())
    }
}

/// The series holds a `record_id` tag: some tag after the measurement
/// starts with `record_id=`.
pub open spec fn has_record_tag(tags: Seq<Seq<char>>) -> bool {
    exists|k: int| 1 <= k < tags.len() && has_prefix(#[trigger] tags[k], "record_id="@)
}

/// Single quotes doubled, for a SQL string literal.
pub open spec fn sql_quoted(s: Seq<char>) -> Seq<char>
    decreases s.len(),
{
    if s.len() == 0 {
        Seq::empty()
    } else {
        sql_quoted(s.drop_last()) + if s.last() == '\'' {
            seq!['\'', '\'']
        } else {
            seq![s.last()]
        }
    }
}

/// What reconciliation needs of a spooled line: its measurement, and the
/// predicate that finds its point by identity tag and timestamp.
pub open spec fn reconciliation_point_text(line: Seq<char>) -> Result<(Seq<char>, Seq<char>), Seq<char>> {
    let halves = pieces(line, ' ');
    if halves.len() < 2 {
        Err("InfluxDB 3 spooled line omitted fields"@)
    } else {
        let series = halves[0];
        let remainder = line.skip(series.len() + 1int);
        let tags = pieces(series, ',');
        match tag_identity(tags.skip(1)) {
            None => Err("InfluxDB 3 spooled line omitted identity tag"@),
            Some(identity) => {
                let column = if has_record_tag(tags) {
                    "record_id"@
                } else {
                    "identity_key"@
                };
                let words = pieces(remainder, ' ');
                if words.len() < 2 {
                    Err("InfluxDB 3 spooled line omitted timestamp"@)
                } else {
                    Ok(
                        (
                            tags[0],
                            "("@ + column + "='"@ + sql_quoted(identity) + "' AND time=to_timestamp_nanos("@
                                + words.last() + "))"@,
                        ),
                    )
                }
            },
        }
    }
}

fn starts_with(v: &Vec<char>, prefix: &str) -> (r: bool)
    ensures
        r == has_prefix(v@, prefix@),
{
    let p = chars_of(prefix);
    if p.len() > v.len() {
        return false;
    }
    let mut i: usize = 0;
    while i < p.len()
        invariant
            i <= p.len(),
            p.len() <= v.len(),
            p@ == prefix@,
            forall|j: int| 0 <= j < i ==> v@[j] == p@[j],
        decreases p.len() - i,
    {
        if v[i] != p[i] {
            assert(v@.subrange(0, p@.len() as int)[i as int] != p@[i as int]);
            return false;
        }
        i = i + 1;
    }
    assert(v@.subrange(0, p@.len() as int) =~= p@);
    true
}

fn suffix_from(v: &Vec<char>, start: usize) -> (r: Vec<char>)
    requires
        start <= v.len(),
    ensures
        r@ == v@.skip(start as int),
{
    let mut out: Vec<char> = Vec::new();
    let mut i = start;
    while i < v.len()
        invariant
            start <= i <= v.len(),
            out@ == v@.subrange(start as int, i as int),
        decreases v.len() - i,
    {
        out.push(v[i]);
        assert(v@.subrange(start as int, i + 1) =~= v@.subrange(start as int, i as int).push(v@[i as int]));
        i = i + 1;
    }
    assert(v@.subrange(start as int, v.len() as int) =~= v@.skip(start as int));
    out
}

fn push_quoted(out: &mut String, v: &Vec<char>)
    ensures
        final(out)@ == old(out)@ + sql_quoted(v@),
{
    let mut i: usize = 0;
    assert(v@.take(0) =~= Seq::<char>::empty());
    while i < v.len()
        invariant
            i <= v.len(),
            out@ == old(out)@ + sql_quoted(v@.take(i as int)),
        decreases v.len() - i,
    {
        if v[i] == '\'' {
            out.push('\'');
        }
        out.push(v[i]);
        assert(v@.take(i + 1).drop_last() =~= v@.take(i as int));
        assert(out@ =~= old(out)@ + sql_quoted(v@.take(i + 1)));
        i = i + 1;
    }
    assert(v@.take(v.len() as int) =~= v@);
}

/// A spooled part as reconciliation looks for it.
pub struct ReconciliationPoint {
    pub measurement: String,
    pub predicate: String,
}

fn spool_error(message: &str) -> (r: PersistenceError)
    ensures
        r matches PersistenceError::Commit(m) && m@ == message@,
{
    let mut m = String::new();
    m.append(message);
    PersistenceError::Commit(m)
}

/// Reads the measurement, identity tag and timestamp of a spooled line.
pub fn reconciliation_point(line: &str) -> (r: Result<ReconciliationPoint, PersistenceError>)
    ensures
        match reconciliation_point_text(line@) {
            Ok((m, p)) => r matches Ok(point) && point.measurement@ == m && point.predicate@ == p,
            Err(e) => r matches Err(PersistenceError::Commit(msg)) && msg@ == e,
        },
{
    let chars = chars_of(line);
    let halves = split_chars(&chars, ' ');
    proof {
        assert(halves@.len() == pieces(line@, ' ').len());
    }
    if halves.len() < 2 {
        return Err(spool_error("InfluxDB 3 spooled line omitted fields"));
    }
    let series = &halves[0];
    assert(series@ == pieces(line@, ' ')[0]);
    proof {
        lemma_first_piece_short(line@, ' ');
    }
    let remainder = suffix_from(&chars, series.len() + 1);
    let tags = split_chars(series, ',');
    let mut identity: Option<Vec<char>> = None;
    let mut record_tag = false;
    let mut k: usize = 1;
    let ghost tag_seq = pieces(series@, ',');
    proof {
        assert(char_rows(tags@) == tag_seq);
        assert(tag_seq.len() >= 1);
        assert(tag_seq.skip(1) =~= tag_seq.skip(1));
    }
    while k < tags.len()
        invariant
            1 <= k <= tags@.len(),
            char_rows(tags@) == tag_seq,
            tag_identity(tag_seq.skip(1)) == match identity {
                Some(v) => Some(v@),
                None => tag_identity(tag_seq.skip(k as int)),
            },
            record_tag == exists|j: int| 1 <= j < k && has_prefix(#[trigger] tag_seq[j], "record_id="@),
        decreases tags@.len() - k,
    {
        let tag = &tags[k];
        assert(tag@ == tag_seq[k as int]);
        let is_record = starts_with(tag, "record_id=");
        if is_record {
            record_tag = true;
        }
        proof {
            assert(tag_seq.skip(k as int).drop_first() =~= tag_seq.skip(k + 1));
            assert(tag_seq.skip(k as int)[0] == tag_seq[k as int]);
        }
        if identity.is_none() {
            if is_record {
                proof {
                    reveal_strlit("record_id=");
                }
                identity = Some(suffix_from(tag, 10));
            } else if starts_with(tag, "identity_key=") {
                proof {
                    reveal_strlit("identity_key=");
                }
                identity = Some(suffix_from(tag, 13));
            }
        }
        k = k + 1;
    }
    proof {
        assert(tag_seq.skip(tags@.len() as int) =~= Seq::<Seq<char>>::empty());
    }
    let identity = match identity {
        Some(v) => v,
        None => {
            return Err(spool_error("InfluxDB 3 spooled line omitted identity tag"));
        },
    };
    let words = split_chars(&remainder, ' ');
    if words.len() < 2 {
        return Err(spool_error("InfluxDB 3 spooled line omitted timestamp"));
    }
    let timestamp = &words[words.len() - 1];
    let measurement = string_of(&tags[0]);
    let mut predicate = String::new();
    predicate.append("(");
    if record_tag {
        predicate.append("record_id");
    } else {
        predicate.append("identity_key");
    }
    predicate.append("='");
    push_quoted(&mut predicate, &identity);
    predicate.append("' AND time=to_timestamp_nanos(");
    push_chars(&mut predicate, timestamp);
    predicate.append("))");
    proof {
        assert(words@[words@.len() - 1]@ == pieces(remainder@, ' ').last());
    }
    Ok(ReconciliationPoint { measurement, predicate })
}

} // verus!
