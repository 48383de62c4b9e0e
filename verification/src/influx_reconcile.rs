//! Reconciliation of delivered spool parts against the server: the points
//! grouped by measurement in byte order, queried in chunks, and the parts
//! each reply confirms.

use vstd::prelude::*;
use vstd::utf8::{decode_utf8, encode_utf8};
use crate::contracts::PersistenceError;
use crate::fingerprint::{
    bytes_le, le_bytes, lemma_le_antisymmetric, lemma_le_reflexive, lemma_le_total,
    lemma_le_transitive,
};
use crate::influx_spool::ReconciliationPoint;
use crate::line_protocol::{join, push_joined, texts};
use crate::text::{decimal, push_decimal};

verus! {

broadcast use vstd::utf8::encode_utf8_decode_utf8;

/// One spooled part and what reconciliation looks for.
pub struct SpooledPoint {
    pub part_id: String,
    pub point: ReconciliationPoint,
}

/// `a` sorts strictly before `b` in byte order, as `String`'s `Ord` does.
pub open spec fn before(a: Seq<char>, b: Seq<char>) -> bool {
    bytes_le(encode_utf8(a), encode_utf8(b)) && a != b
}

proof fn lemma_before_transitive(a: Seq<char>, b: Seq<char>, c: Seq<char>)
    requires
        before(a, b),
        before(b, c),
    ensures
        before(a, c),
{
    lemma_le_transitive(encode_utf8(a), encode_utf8(b), encode_utf8(c));
    if a == c {
        lemma_le_antisymmetric(encode_utf8(a), encode_utf8(b));
        assert(decode_utf8(encode_utf8(a)) == a);
        assert(decode_utf8(encode_utf8(b)) == b);
    }
}

proof fn lemma_before_total(a: Seq<char>, b: Seq<char>)
    requires
        a != b,
    ensures
        before(a, b) || before(b, a),
{
    lemma_le_total(encode_utf8(a), encode_utf8(b));
}

pub open spec fn measurement_of(p: SpooledPoint) -> Seq<char> {
    p.point.measurement@
}

/// Strictly increasing in byte order.
pub open spec fn strictly_sorted(r: Seq<String>) -> bool {
    forall|i: int, j: int| 0 <= i < j < r.len() ==> before(#[trigger] r[i]@, #[trigger] r[j]@)
}

/// `s` is one of the texts of `r`.
pub open spec fn listed(r: Seq<String>, s: Seq<char>) -> bool {
    exists|g: int| 0 <= g < r.len() && r[g]@ == s
}

/// The distinct measurements of `points` in strictly increasing byte order.
pub open spec fn sorted_distinct(r: Seq<String>, points: Seq<SpooledPoint>) -> bool {
    &&& strictly_sorted(r)
    &&& forall|k: int| 0 <= k < points.len() ==> listed(r, measurement_of(#[trigger] points[k]))
    &&& forall|g: int| 0 <= g < r.len() ==> exists|k: int| 0 <= k < points.len() && #[trigger] r[g]@ == measurement_of(#[trigger] points[k])
}

/// Adds `m` at its place in a strictly sorted list, unless it is there.
fn insert_measurement(list: &mut Vec<String>, m: &String)
    requires
        strictly_sorted(old(list)@),
    ensures
        strictly_sorted(final(list)@),
        listed(final(list)@, m@),
        forall|g: int| 0 <= g < final(list)@.len() ==> (#[trigger] final(list)@[g])@ == m@ || listed(old(list)@, final(list)@[g]@),
        forall|s: Seq<char>| listed(old(list)@, s) ==> listed(final(list)@, s),
{
    let mut idx: usize = 0;
    while idx < list.len() && !(list[idx] == *m) && le_bytes(list[idx].as_str().as_bytes(), m.as_str().as_bytes())
        invariant
            idx <= list@.len(),
            list@ == old(list)@,
            forall|g: int| 0 <= g < idx ==> before(#[trigger] list@[g]@, m@),
        decreases list@.len() - idx,
    {
        idx = idx + 1;
    }
    if idx < list.len() && list[idx] == *m {
        assert(list@[idx as int]@ == m@);
        return;
    }
    let ghost old_list = list@;
    proof {
        if idx < old_list.len() {
            lemma_before_total(old_list[idx as int]@, m@);
            assert forall|j: int| idx < j < old_list.len() implies before(m@, #[trigger] old_list[j]@) by {
                assert(before(old_list[idx as int]@, old_list[j]@));
                lemma_before_transitive(m@, old_list[idx as int]@, old_list[j]@);
            }
        }
    }
    list.insert(idx, m.clone());
    assert(list@[idx as int]@ == m@);
    assert forall|a: int, b: int| 0 <= a < b < list@.len() implies before(#[trigger] list@[a]@, #[trigger] list@[b]@) by {
        if b < idx {
            assert(list@[a] == old_list[a]);
            assert(list@[b] == old_list[b]);
        } else if a < idx && b == idx {
        } else if a < idx && b > idx {
            assert(list@[b] == old_list[b - 1]);
            assert(list@[a] == old_list[a]);
        } else if a == idx {
            assert(list@[b] == old_list[b - 1]);
        } else {
            assert(list@[a] == old_list[a - 1]);
            assert(list@[b] == old_list[b - 1]);
        }
    }
    assert forall|g: int| 0 <= g < list@.len() implies (#[trigger] list@[g])@ == m@ || listed(old_list, list@[g]@) by {
        if g < idx {
            assert(list@[g] == old_list[g]);
        } else if g > idx {
            assert(list@[g] == old_list[g - 1]);
        }
    }
    assert forall|s: Seq<char>| listed(old_list, s) implies listed(list@, s) by {
        let g = choose|g: int| 0 <= g < old_list.len() && old_list[g]@ == s;
        if g < idx {
            assert(list@[g] == old_list[g]);
        } else {
            assert(list@[g + 1] == old_list[g]);
        }
    }
}

/// The distinct measurements, in byte order.
fn sorted_measurements(points: &Vec<SpooledPoint>) -> (r: Vec<String>)
    ensures
        sorted_distinct(r@, points@),
{
    let mut list: Vec<String> = Vec::new();
    let mut i: usize = 0;
    while i < points.len()
        invariant
            i <= points.len(),
            sorted_distinct(list@, points@.take(i as int)),
        decreases points.len() - i,
    {
        let ghost prefix = points@.take(i as int);
        let ghost next = points@.take(i + 1);
        let ghost old_list = list@;
        insert_measurement(&mut list, &points[i].point.measurement);
        proof {
            assert(next =~= prefix.push(points@[i as int]));
            assert forall|k: int| 0 <= k < next.len() implies listed(list@, measurement_of(#[trigger] next[k])) by {
                if k < i {
                    assert(next[k] == prefix[k]);
                    assert(listed(old_list, measurement_of(prefix[k])));
                }
            }
            assert forall|g: int| 0 <= g < list@.len() implies exists|k: int| 0 <= k < next.len() && #[trigger] list@[g]@ == measurement_of(#[trigger] next[k]) by {
                if list@[g]@ == measurement_of(points@[i as int]) {
                    assert(next[i as int] == points@[i as int]);
                } else {
                    assert(listed(old_list, list@[g]@));
                    let og = choose|og: int| 0 <= og < old_list.len() && old_list[og]@ == list@[g]@;
                    let k = choose|k: int| 0 <= k < prefix.len() && old_list[og]@ == measurement_of(prefix[k]);
                    assert(next[k] == prefix[k]);
                }
            }
        }
        i = i + 1;
    }
    assert(points@.take(points.len() as int) =~= points@);
    list
}

/// Points per reconciliation query.
pub const RECONCILIATION_POINTS_PER_QUERY: usize = 32;

/// A point as a query member: its part identity and its predicate.
pub open spec fn member_view(p: SpooledPoint) -> (Seq<char>, Seq<char>) {
    (p.part_id@, p.point.predicate@)
}

/// The points with measurement `m`, in spool order.
pub open spec fn members_of(points: Seq<SpooledPoint>, m: Seq<char>) -> Seq<(Seq<char>, Seq<char>)>
    decreases points.len(),
{
    if points.len() == 0 {
        Seq::empty()
    } else {
        members_of(points.drop_last(), m) + if measurement_of(points.last()) == m {
            seq![member_view(points.last())]
        } else {
            Seq::empty()
        }
    }
}

pub open spec fn chunk_count(n: nat) -> nat {
    (n + 31) / 32
}

/// The `c`-th run of at most 32 members.
pub open spec fn chunk_of(members: Seq<(Seq<char>, Seq<char>)>, c: nat) -> Seq<(Seq<char>, Seq<char>)> {
    members.subrange(
        (c * 32) as int,
        if c * 32 + 32 <= members.len() {
            (c * 32 + 32) as int
        } else {
            members.len() as int
        },
    )
}

/// The count query of one chunk: the points of one measurement it finds.
pub open spec fn query_text(m: Seq<char>, chunk: Seq<(Seq<char>, Seq<char>)>) -> Seq<char> {
    "SELECT COUNT(*) AS count FROM "@ + m + " WHERE "@ + join(
        Seq::new(chunk.len(), |i: int| chunk[i].1),
        " OR "@,
    )
}

/// The queries of one measurement: its members in chunks of 32, each with
/// the part identities it confirms.
pub open spec fn group_queries(m: Seq<char>, members: Seq<(Seq<char>, Seq<char>)>) -> Seq<(Seq<char>, Seq<Seq<char>>)> {
    Seq::new(
        chunk_count(members.len()),
        |c: int|
            (
                query_text(m, chunk_of(members, c as nat)),
                Seq::new(chunk_of(members, c as nat).len(), |i: int| chunk_of(members, c as nat)[i].0),
            ),
    )
}

/// The queries of every measurement, in the order of `ms`.
pub open spec fn all_queries(ms: Seq<String>, points: Seq<SpooledPoint>) -> Seq<(Seq<char>, Seq<Seq<char>>)>
    decreases ms.len(),
{
    if ms.len() == 0 {
        Seq::empty()
    } else {
        all_queries(ms.drop_last(), points) + group_queries(ms.last()@, members_of(points, ms.last()@))
    }
}

/// One count query and the parts its reply confirms.
pub struct ReconciliationQuery {
    pub sql: String,
    pub part_ids: Vec<String>,
}

pub open spec fn query_view(q: ReconciliationQuery) -> (Seq<char>, Seq<Seq<char>>) {
    (q.sql@, texts(q.part_ids@))
}

pub open spec fn queries_view(v: Seq<ReconciliationQuery>) -> Seq<(Seq<char>, Seq<Seq<char>>)> {
    Seq::new(v.len(), |i: int| query_view(v[i]))
}

/// The measurements in byte order, and their queries in that order.
pub struct ReconciliationPlan {
    pub measurements: Vec<String>,
    pub queries: Vec<ReconciliationQuery>,
}

pub struct Member {
    pub part_id: String,
    pub predicate: String,
}

pub open spec fn members_view(v: Seq<Member>) -> Seq<(Seq<char>, Seq<char>)> {
    Seq::new(v.len(), |i: int| (v[i].part_id@, v[i].predicate@))
}

fn collect_members(points: &Vec<SpooledPoint>, m: &String) -> (r: Vec<Member>)
    ensures
        members_view(r@) == members_of(points@, m@),
{
    let mut out: Vec<Member> = Vec::new();
    let mut i: usize = 0;
    assert(points@.take(0) =~= Seq::<SpooledPoint>::empty());
    assert(members_view(out@) =~= Seq::<(Seq<char>, Seq<char>)>::empty());
    while i < points.len()
        invariant
            i <= points.len(),
            members_view(out@) == members_of(points@.take(i as int), m@),
        decreases points.len() - i,
    {
        let ghost before = members_view(out@);
        assert(points@.take(i + 1).drop_last() =~= points@.take(i as int));
        if points[i].point.measurement == *m {
            let member = Member {
                part_id: points[i].part_id.clone(),
                predicate: points[i].point.predicate.clone(),
            };
            out.push(member);
            assert(members_view(out@) =~= before.push(member_view(points@[i as int])));
        }
        assert(members_view(out@) =~= members_of(points@.take(i + 1), m@));
        i = i + 1;
    }
    assert(points@.take(points.len() as int) =~= points@);
    out
}

fn chunk_query(m: &String, members: &Vec<Member>, start: usize, end: usize) -> (q: ReconciliationQuery)
    requires
        start <= end <= members@.len(),
    ensures
        query_view(q) == (
            query_text(m@, members_view(members@).subrange(start as int, end as int)),
            Seq::new((end - start) as nat, |i: int| members_view(members@).subrange(start as int, end as int)[i].0),
        ),
{
    let ghost chunk = members_view(members@).subrange(start as int, end as int);
    let mut preds: Vec<String> = Vec::new();
    let mut ids: Vec<String> = Vec::new();
    let mut k = start;
    while k < end
        invariant
            start <= k <= end,
            end <= members@.len(),
            chunk == members_view(members@).subrange(start as int, end as int),
            texts(preds@) == Seq::new((k - start) as nat, |i: int| chunk[i].1),
            texts(ids@) == Seq::new((k - start) as nat, |i: int| chunk[i].0),
        decreases end - k,
    {
        let ghost p0 = texts(preds@);
        let ghost i0 = texts(ids@);
        let pred = members[k].predicate.clone();
        let id = members[k].part_id.clone();
        assert(chunk[(k - start) as int] == (members@[k as int].part_id@, members@[k as int].predicate@));
        assert(pred@ == chunk[(k - start) as int].1);
        assert(id@ == chunk[(k - start) as int].0);
        preds.push(pred);
        ids.push(id);
        assert(texts(preds@) =~= p0.push(chunk[(k - start) as int].1));
        assert(texts(ids@) =~= i0.push(chunk[(k - start) as int].0));
        assert(texts(preds@) =~= Seq::new((k + 1 - start) as nat, |i: int| chunk[i].1));
        assert(texts(ids@) =~= Seq::new((k + 1 - start) as nat, |i: int| chunk[i].0));
        k = k + 1;
    }
    let mut sql = String::new();
    sql.append("SELECT COUNT(*) AS count FROM ");
    sql.append(m.as_str());
    sql.append(" WHERE ");
    push_joined(&mut sql, &preds, " OR ");
    assert(chunk.len() == end - start);
    assert(Seq::new(chunk.len(), |i: int| chunk[i].1) =~= Seq::new((end - start) as nat, |i: int| chunk[i].1));
    ReconciliationQuery { sql, part_ids: ids }
}

/// Groups spooled points by measurement, in byte order of the measurement
/// names, and splits each group into count queries of at most 32 points.
pub fn plan_reconciliation(points: &Vec<SpooledPoint>) -> (r: ReconciliationPlan)
    ensures
        sorted_distinct(r.measurements@, points@),
        queries_view(r.queries@) == all_queries(r.measurements@, points@),
{
    let measurements = sorted_measurements(points);
    let mut queries: Vec<ReconciliationQuery> = Vec::new();
    let mut g: usize = 0;
    assert(measurements@.take(0) =~= Seq::<String>::empty());
    assert(queries_view(queries@) =~= Seq::<(Seq<char>, Seq<Seq<char>>)>::empty());
    while g < measurements.len()
        invariant
            g <= measurements.len(),
            queries_view(queries@) == all_queries(measurements@.take(g as int), points@),
        decreases measurements.len() - g,
    {
        let m = &measurements[g];
        let members = collect_members(points, m);
        let ghost before = queries_view(queries@);
        let ghost ms = members_view(members@);
        let total = members.len();
        let mut start: usize = 0;
        let mut c: usize = 0;
        while start < total
            invariant
                total == members@.len(),
                ms == members_view(members@),
                start <= total,
                start < total ==> start == c * 32 && c < chunk_count(total as nat),
                start >= total ==> c == chunk_count(total as nat),
                queries_view(queries@) == before + group_queries(m@, ms).take(c as int),
            decreases total - start,
        {
            let end = if total - start >= 32 {
                start + 32
            } else {
                total
            };
            let q = chunk_query(m, &members, start, end);
            let ghost qb = queries_view(queries@);
            queries.push(q);
            proof {
                assert(chunk_of(ms, c as nat) =~= ms.subrange(start as int, end as int));
                assert(queries_view(queries@) =~= qb.push(query_view(q)));
                assert(group_queries(m@, ms).take(c + 1) =~= group_queries(m@, ms).take(c as int).push(group_queries(m@, ms)[c as int]));
                assert(end >= total ==> c + 1 == chunk_count(total as nat)) by (nonlinear_arith)
                    requires
                        start == c * 32,
                        start < total,
                        end == (if total - start >= 32 { start + 32 } else { total as int }),
                ;
                assert(end < total ==> c + 1 < chunk_count(total as nat)) by (nonlinear_arith)
                    requires
                        start == c * 32,
                        end == (if total - start >= 32 { start + 32 } else { total as int }),
                ;
            }
            start = end;
            c = c + 1;
        }
        proof {
            assert(total == 0 ==> chunk_count(0) == 0);
            assert(group_queries(m@, ms).take(c as int) =~= group_queries(m@, ms));
            assert(measurements@.take(g + 1).drop_last() =~= measurements@.take(g as int));
            assert(measurements@.take(g + 1).last() == measurements@[g as int]);
        }
        g = g + 1;
    }
    assert(measurements@.take(measurements.len() as int) =~= measurements@);
    ReconciliationPlan { measurements, queries }
}

/// The part identities of a list of queries, in query order.
pub open spec fn queried_parts(qs: Seq<(Seq<char>, Seq<Seq<char>>)>) -> Seq<Seq<char>>
    decreases qs.len(),
{
    if qs.len() == 0 {
        Seq::empty()
    } else {
        queried_parts(qs.drop_last()) + qs.last().1
    }
}

/// The part identities of the spooled points, in spool order.
pub open spec fn spooled_parts(points: Seq<SpooledPoint>) -> Seq<Seq<char>> {
    Seq::new(points.len(), |k: int| points[k].part_id@)
}

spec fn member_ids(members: Seq<(Seq<char>, Seq<char>)>) -> Seq<Seq<char>> {
    Seq::new(members.len(), |i: int| members[i].0)
}

spec fn grouped_parts(ms: Seq<String>, points: Seq<SpooledPoint>) -> Seq<Seq<char>>
    decreases ms.len(),
{
    if ms.len() == 0 {
        Seq::empty()
    } else {
        grouped_parts(ms.drop_last(), points) + member_ids(members_of(points, ms.last()@))
    }
}

proof fn lemma_queried_parts_append(a: Seq<(Seq<char>, Seq<Seq<char>>)>, b: Seq<(Seq<char>, Seq<Seq<char>>)>)
    ensures
        queried_parts(a + b) == queried_parts(a) + queried_parts(b),
    decreases b.len(),
{
    if b.len() == 0 {
        assert(a + b =~= a);
        assert(queried_parts(a) + queried_parts(b) =~= queried_parts(a));
    } else {
        assert((a + b).drop_last() =~= a + b.drop_last());
        assert((a + b).last() == b.last());
        lemma_queried_parts_append(a, b.drop_last());
        assert(queried_parts(a + b) =~= queried_parts(a) + queried_parts(b));
    }
}

proof fn lemma_group_parts(m: Seq<char>, members: Seq<(Seq<char>, Seq<char>)>, c: nat)
    requires
        c <= chunk_count(members.len()),
    ensures
        queried_parts(group_queries(m, members).take(c as int)) == member_ids(members).take(
            if c * 32 <= members.len() { (c * 32) as int } else { members.len() as int },
        ),
    decreases c,
{
    let gq = group_queries(m, members);
    if c == 0 {
        assert(gq.take(0) =~= Seq::<(Seq<char>, Seq<Seq<char>>)>::empty());
        assert(member_ids(members).take(0) =~= Seq::<Seq<char>>::empty());
    } else {
        let p = (c - 1) as nat;
        lemma_group_parts(m, members, p);
        assert(gq.take(c as int).drop_last() =~= gq.take(p as int));
        assert(gq.take(c as int).last() == gq[p as int]);
        assert(p * 32 < members.len()) by (nonlinear_arith)
            requires
                c <= (members.len() + 31) / 32,
                p + 1 == c,
        ;
        let end: int = if c * 32 <= members.len() { (c * 32) as int } else { members.len() as int };
        assert(chunk_of(members, p) =~= members.subrange((p * 32) as int, end));
        assert(member_ids(members).take(end) =~= member_ids(members).take((p * 32) as int) + gq[p as int].1);
    }
}

proof fn lemma_all_queries_parts(ms: Seq<String>, points: Seq<SpooledPoint>)
    ensures
        queried_parts(all_queries(ms, points)) == grouped_parts(ms, points),
    decreases ms.len(),
{
    if ms.len() > 0 {
        let m = ms.last()@;
        let members = members_of(points, m);
        lemma_all_queries_parts(ms.drop_last(), points);
        lemma_queried_parts_append(all_queries(ms.drop_last(), points), group_queries(m, members));
        lemma_group_parts(m, members, chunk_count(members.len()));
        assert(group_queries(m, members).take(chunk_count(members.len()) as int) =~= group_queries(m, members));
        assert(chunk_count(members.len()) * 32 >= members.len()) by (nonlinear_arith);
        assert(member_ids(members).take(members.len() as int) =~= member_ids(members));
    }
}

proof fn lemma_grouped_parts_empty(ms: Seq<String>)
    ensures
        grouped_parts(ms, Seq::empty()) == Seq::<Seq<char>>::empty(),
    decreases ms.len(),
{
    if ms.len() > 0 {
        lemma_grouped_parts_empty(ms.drop_last());
        assert(member_ids(members_of(Seq::empty(), ms.last()@)) =~= Seq::<Seq<char>>::empty());
        assert(grouped_parts(ms, Seq::empty()) =~= Seq::<Seq<char>>::empty());
    }
}

proof fn lemma_grouped_parts_push(ms: Seq<String>, points: Seq<SpooledPoint>, p: SpooledPoint)
    requires
        strictly_sorted(ms),
    ensures
        grouped_parts(ms, points.push(p)).to_multiset() == if listed(ms, measurement_of(p)) {
            grouped_parts(ms, points).to_multiset().insert(p.part_id@)
        } else {
            grouped_parts(ms, points).to_multiset()
        },
    decreases ms.len(),
{
    broadcast use vstd::seq_lib::lemma_multiset_commutative;
    broadcast use vstd::multiset::group_multiset_axioms;

    if ms.len() == 0 {
        assert(grouped_parts(ms, points.push(p)).to_multiset() =~= grouped_parts(ms, points).to_multiset());
    } else {
        let rest = ms.drop_last();
        let m = ms.last()@;
        assert(strictly_sorted(rest)) by {
            assert forall|i: int, j: int| 0 <= i < j < rest.len() implies before(#[trigger] rest[i]@, #[trigger] rest[j]@) by {
                assert(rest[i] == ms[i] && rest[j] == ms[j]);
            }
        }
        lemma_grouped_parts_push(rest, points, p);
        assert(points.push(p).drop_last() =~= points);
        let old_ids = member_ids(members_of(points, m));
        let new_ids = member_ids(members_of(points.push(p), m));
        if measurement_of(p) == m {
            assert(new_ids =~= old_ids.push(p.part_id@));
            assert(!listed(rest, m)) by {
                if listed(rest, m) {
                    let g = choose|g: int| 0 <= g < rest.len() && rest[g]@ == m;
                    assert(before(ms[g]@, ms[ms.len() - 1]@));
                }
            }
            assert(listed(ms, m)) by {
                assert(ms[ms.len() - 1]@ == m);
            }
            old_ids.to_multiset_ensures();
            assert(grouped_parts(ms, points.push(p)).to_multiset() =~= grouped_parts(ms, points).to_multiset().insert(p.part_id@));
        } else {
            assert(new_ids =~= old_ids);
            assert(listed(ms, measurement_of(p)) == listed(rest, measurement_of(p))) by {
                if listed(ms, measurement_of(p)) {
                    let g = choose|g: int| 0 <= g < ms.len() && ms[g]@ == measurement_of(p);
                    assert(rest[g] == ms[g]);
                }
                if listed(rest, measurement_of(p)) {
                    let g = choose|g: int| 0 <= g < rest.len() && rest[g]@ == measurement_of(p);
                    assert(ms[g] == rest[g]);
                }
            }
            if listed(rest, measurement_of(p)) {
                assert(grouped_parts(ms, points.push(p)).to_multiset() =~= grouped_parts(ms, points).to_multiset().insert(p.part_id@));
            } else {
                assert(grouped_parts(ms, points.push(p)).to_multiset() =~= grouped_parts(ms, points).to_multiset());
            }
        }
    }
}

proof fn lemma_grouped_parts_cover(ms: Seq<String>, points: Seq<SpooledPoint>)
    requires
        strictly_sorted(ms),
        forall|k: int| 0 <= k < points.len() ==> listed(ms, measurement_of(#[trigger] points[k])),
    ensures
        grouped_parts(ms, points).to_multiset() == spooled_parts(points).to_multiset(),
    decreases points.len(),
{
    broadcast use vstd::seq_lib::group_to_multiset_ensures;

    if points.len() == 0 {
        lemma_grouped_parts_empty(ms);
        assert(spooled_parts(points) =~= Seq::<Seq<char>>::empty());
        assert(points =~= Seq::<SpooledPoint>::empty());
    } else {
        let rest = points.drop_last();
        let p = points.last();
        assert forall|k: int| 0 <= k < rest.len() implies listed(ms, measurement_of(#[trigger] rest[k])) by {
            assert(rest[k] == points[k]);
        }
        lemma_grouped_parts_cover(ms, rest);
        assert(rest.push(p) =~= points);
        lemma_grouped_parts_push(ms, rest, p);
        assert(listed(ms, measurement_of(points[points.len() - 1])));
        assert(spooled_parts(points) =~= spooled_parts(rest).push(p.part_id@));
    }
}

/// Every spooled part is confirmed by the reconciliation queries exactly as
/// many times as it was spooled: taken together, the part identities of all
/// the queries are those of the spooled points, none lost and none repeated.
pub proof fn law_each_spooled_part_is_queried_once(ms: Seq<String>, points: Seq<SpooledPoint>)
    requires
        sorted_distinct(ms, points),
    ensures
        queried_parts(all_queries(ms, points)).to_multiset() == spooled_parts(points).to_multiset(),
{
    lemma_all_queries_parts(ms, points);
    lemma_grouped_parts_cover(ms, points);
}

} // verus!
