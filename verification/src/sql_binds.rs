//! Parameter lists of the per-row SQL Server inserts of loss and unresolved
//! rows, and the selection of every such row in a batch.

use vstd::prelude::*;
use crate::rows::{
    AlarmRow, DomainRow, LossRow, OperatorRow, ProjectedDocument, RecipeRow, SystemRow, UnresolvedRow,
};
use crate::text::{decimal, push_decimal};
use crate::sqlserver_plan::{
    alarm_columns, common_columns, operator_columns, recipe_columns, system_columns,
};
use crate::line_protocol::join;

verus! {

/// One bound statement parameter.
#[derive(Debug, Clone, PartialEq, Eq)]
pub enum SqlParam {
    Text(String),
    NullableText(Option<String>),
    BigInt(i64),
    Bit(bool),
    NullableBit(Option<bool>),
}

/// A bound parameter as a value.
pub enum SqlValue {
    Text(Seq<char>),
    NullableText(Option<Seq<char>>),
    BigInt(int),
    Bit(bool),
    NullableBit(Option<bool>),
}

pub open spec fn param_value(p: SqlParam) -> SqlValue {
    match p {
        SqlParam::Text(s) => SqlValue::Text(s@),
        SqlParam::NullableText(o) => SqlValue::NullableText(
            match o {
                Some(s) => Some(s@),
                None => None,
            },
        ),
        SqlParam::BigInt(i) => SqlValue::BigInt(i as int),
        SqlParam::Bit(b) => SqlValue::Bit(b),
        SqlParam::NullableBit(b) => SqlValue::NullableBit(b),
    }
}

pub open spec fn param_values(ps: Seq<SqlParam>) -> Seq<SqlValue> {
    Seq::new(ps.len(), |i: int| param_value(ps[i]))
}

pub open spec fn opt_text_value(o: Option<String>) -> SqlValue {
    SqlValue::NullableText(
        match o {
            Some(s) => Some(s@),
            None => None,
        },
    )
}

/// The values bound to a loss insert, in placeholder order: the complete
/// provenance of the loss range, its first sequence (bound once more as the
/// row's sequence), its last sequence, count and basis.
pub open spec fn loss_values(r: LossRow) -> Seq<SqlValue> {
    seq![
        SqlValue::Text(r.record_id@),
        SqlValue::Text(r.received_time@),
        SqlValue::Text(r.received_time_ns@),
        opt_text_value(r.source),
        SqlValue::BigInt(r.source_id as int),
        SqlValue::Text(r.source_path@),
        SqlValue::Text(r.source_hierarchy@),
        SqlValue::BigInt(r.buffer_id as int),
        SqlValue::Text(r.run_id@),
        SqlValue::Text(r.epoch_id@),
        SqlValue::Text(r.first_sequence@),
        SqlValue::Text(r.definition_hash@),
        SqlValue::Bit(r.time_unsynced),
        SqlValue::Bit(r.synthetic_record),
        SqlValue::Bit(r.partial_payload),
        SqlValue::Text(r.last_sequence@),
        SqlValue::Text(r.lost_count@),
        SqlValue::Text(r.basis@),
    ]
}

/// The values bound to an unresolved-record insert, in placeholder order:
/// the complete provenance of the record, then its type, reason and
/// diagnostic summary.
pub open spec fn unresolved_values(r: UnresolvedRow) -> Seq<SqlValue> {
    seq![
        SqlValue::Text(r.record_id@),
        opt_text_value(r.event_time),
        opt_text_value(r.event_time_ns),
        SqlValue::Text(r.received_time@),
        SqlValue::Text(r.received_time_ns@),
        opt_text_value(r.source),
        SqlValue::BigInt(r.source_id as int),
        SqlValue::Text(r.source_path@),
        SqlValue::Text(r.source_hierarchy@),
        SqlValue::BigInt(r.buffer_id as int),
        SqlValue::Text(r.run_id@),
        SqlValue::Text(r.epoch_id@),
        SqlValue::Text(r.sequence@),
        SqlValue::Text(r.definition_hash@),
        SqlValue::Bit(r.time_unsynced),
        SqlValue::Bit(r.synthetic_record),
        SqlValue::Bit(r.partial_payload),
        SqlValue::BigInt(r.event_type_id as int),
        SqlValue::Text(r.reason@),
        opt_text_value(r.diagnostic_summary),
    ]
}

fn text(s: &String) -> (r: SqlParam)
    ensures
        param_value(r) == SqlValue::Text(s@),
{
    SqlParam::Text(s.clone())
}

fn opt_text(o: &Option<String>) -> (r: SqlParam)
    ensures
        param_value(r) == opt_text_value(*o),
{
    match o {
        Some(s) => SqlParam::NullableText(Some(s.clone())),
        None => SqlParam::NullableText(None),
    }
}

fn push_param(ps: &mut Vec<SqlParam>, p: SqlParam)
    ensures
        param_values(final(ps)@) == param_values(old(ps)@).push(param_value(p)),
{
    ps.push(p);
    assert(param_values(final(ps)@) =~= param_values(old(ps)@).push(param_value(p)));
}

/// The parameters of one loss insert.
pub fn loss_params(r: &LossRow) -> (ps: Vec<SqlParam>)
    ensures
        param_values(ps@) == loss_values(*r),
{
    let mut ps: Vec<SqlParam> = Vec::new();
    assert(param_values(ps@) =~= Seq::<SqlValue>::empty());
    push_param(&mut ps, text(&r.record_id));
    push_param(&mut ps, text(&r.received_time));
    push_param(&mut ps, text(&r.received_time_ns));
    push_param(&mut ps, opt_text(&r.source));
    push_param(&mut ps, SqlParam::BigInt(r.source_id as i64));
    push_param(&mut ps, text(&r.source_path));
    push_param(&mut ps, text(&r.source_hierarchy));
    push_param(&mut ps, SqlParam::BigInt(r.buffer_id as i64));
    push_param(&mut ps, text(&r.run_id));
    push_param(&mut ps, text(&r.epoch_id));
    push_param(&mut ps, text(&r.first_sequence));
    push_param(&mut ps, text(&r.definition_hash));
    push_param(&mut ps, SqlParam::Bit(r.time_unsynced));
    push_param(&mut ps, SqlParam::Bit(r.synthetic_record));
    push_param(&mut ps, SqlParam::Bit(r.partial_payload));
    push_param(&mut ps, text(&r.last_sequence));
    push_param(&mut ps, text(&r.lost_count));
    push_param(&mut ps, text(&r.basis));
    assert(param_values(ps@) =~= loss_values(*r));
    ps
}

/// The parameters of one unresolved-record insert.
pub fn unresolved_params(r: &UnresolvedRow) -> (ps: Vec<SqlParam>)
    ensures
        param_values(ps@) == unresolved_values(*r),
{
    let mut ps: Vec<SqlParam> = Vec::new();
    assert(param_values(ps@) =~= Seq::<SqlValue>::empty());
    push_param(&mut ps, text(&r.record_id));
    push_param(&mut ps, opt_text(&r.event_time));
    push_param(&mut ps, opt_text(&r.event_time_ns));
    push_param(&mut ps, text(&r.received_time));
    push_param(&mut ps, text(&r.received_time_ns));
    push_param(&mut ps, opt_text(&r.source));
    push_param(&mut ps, SqlParam::BigInt(r.source_id as i64));
    push_param(&mut ps, text(&r.source_path));
    push_param(&mut ps, text(&r.source_hierarchy));
    push_param(&mut ps, SqlParam::BigInt(r.buffer_id as i64));
    push_param(&mut ps, text(&r.run_id));
    push_param(&mut ps, text(&r.epoch_id));
    push_param(&mut ps, text(&r.sequence));
    push_param(&mut ps, text(&r.definition_hash));
    push_param(&mut ps, SqlParam::Bit(r.time_unsynced));
    push_param(&mut ps, SqlParam::Bit(r.synthetic_record));
    push_param(&mut ps, SqlParam::Bit(r.partial_payload));
    push_param(&mut ps, SqlParam::BigInt(r.event_type_id as i64));
    push_param(&mut ps, text(&r.reason));
    push_param(&mut ps, opt_text(&r.diagnostic_summary));
    assert(param_values(ps@) =~= unresolved_values(*r));
    ps
}

/// The single-row insert of a loss row.
pub open spec fn loss_insert_text(schema: Seq<char>) -> Seq<char> {
    "INSERT INTO ["@ + schema + "].data_loss("@ + common_columns()
        + ",first_sequence,last_sequence,lost_count,basis) VALUES(@P1,NULL,NULL,CONVERT(DATETIME2(7),LEFT(@P2,27),127),CONVERT(DECIMAL(20,0),@P3),@P4,@P5,@P6,@P7,@P8,CONVERT(DECIMAL(20,0),@P9),CONVERT(DECIMAL(20,0),@P10),CONVERT(DECIMAL(20,0),@P11),@P12,@P13,@P14,@P15,CONVERT(DECIMAL(20,0),@P11),CONVERT(DECIMAL(20,0),@P16),CONVERT(DECIMAL(20,0),@P17),@P18)"@
}

/// The single-row insert of an unresolved record.
pub open spec fn unresolved_insert_text(schema: Seq<char>) -> Seq<char> {
    "INSERT INTO ["@ + schema + "].unresolved_records("@ + common_columns()
        + ",event_type_id,reason,diagnostic_summary) VALUES(@P1,CONVERT(DATETIME2(7),LEFT(@P2,27),127),CONVERT(DECIMAL(20,0),@P3),CONVERT(DATETIME2(7),LEFT(@P4,27),127),CONVERT(DECIMAL(20,0),@P5),@P6,@P7,@P8,@P9,@P10,CONVERT(DECIMAL(20,0),@P11),CONVERT(DECIMAL(20,0),@P12),CONVERT(DECIMAL(20,0),@P13),@P14,@P15,@P16,@P17,@P18,@P19,@P20)"@
}

/// One single-row insert: its statement and its parameters.
pub struct RowInsert {
    pub statement: String,
    pub params: Vec<SqlParam>,
}

/// Every domain row of a batch, document by document.
pub open spec fn all_domains(docs: Seq<ProjectedDocument>) -> Seq<DomainRow>
    decreases docs.len(),
{
    if docs.len() == 0 {
        Seq::empty()
    } else {
        all_domains(docs.drop_last()) + docs.last().domains@
    }
}

/// The insert a loss or unresolved row needs; none for other rows.
pub open spec fn special_insert(schema: Seq<char>, row: DomainRow) -> Seq<(Seq<char>, Seq<SqlValue>)> {
    match row {
        DomainRow::Loss(r) => seq![(loss_insert_text(schema), loss_values(r))],
        DomainRow::Unresolved(r) => seq![(unresolved_insert_text(schema), unresolved_values(r))],
        _ => Seq::empty(),
    }
}

/// The inserts of a sequence of rows, in order.
pub open spec fn special_inserts_of(schema: Seq<char>, rows: Seq<DomainRow>) -> Seq<(Seq<char>, Seq<SqlValue>)>
    decreases rows.len(),
{
    if rows.len() == 0 {
        Seq::empty()
    } else {
        special_inserts_of(schema, rows.drop_last()) + special_insert(schema, rows.last())
    }
}

/// Loss and unresolved rows among `rows`.
pub open spec fn count_special(rows: Seq<DomainRow>) -> nat
    decreases rows.len(),
{
    if rows.len() == 0 {
        0
    } else {
        count_special(rows.drop_last()) + if rows.last() is Loss || rows.last() is Unresolved {
            1nat
        } else {
            0nat
        }
    }
}

pub open spec fn insert_view(i: RowInsert) -> (Seq<char>, Seq<SqlValue>) {
    (i.statement@, param_values(i.params@))
}

pub open spec fn inserts_view(v: Seq<RowInsert>) -> Seq<(Seq<char>, Seq<SqlValue>)> {
    Seq::new(v.len(), |i: int| insert_view(v[i]))
}

fn loss_statement(schema: &str) -> (r: String)
    ensures
        r@ == loss_insert_text(schema@),
{
    let mut out = String::new();
    out.append("INSERT INTO [");
    out.append(schema);
    out.append("].data_loss(");
    out.append(
        "record_id,event_time,event_time_ns,received_time,received_time_ns,source,source_id,source_path,source_hierarchy,buffer_id,run_id,epoch_id,sequence,definition_hash,time_unsynced,synthetic_record,partial_payload",
    );
    out.append(
        ",first_sequence,last_sequence,lost_count,basis) VALUES(@P1,NULL,NULL,CONVERT(DATETIME2(7),LEFT(@P2,27),127),CONVERT(DECIMAL(20,0),@P3),@P4,@P5,@P6,@P7,@P8,CONVERT(DECIMAL(20,0),@P9),CONVERT(DECIMAL(20,0),@P10),CONVERT(DECIMAL(20,0),@P11),@P12,@P13,@P14,@P15,CONVERT(DECIMAL(20,0),@P11),CONVERT(DECIMAL(20,0),@P16),CONVERT(DECIMAL(20,0),@P17),@P18)",
    );
    out
}

fn unresolved_statement(schema: &str) -> (r: String)
    ensures
        r@ == unresolved_insert_text(schema@),
{
    let mut out = String::new();
    out.append("INSERT INTO [");
    out.append(schema);
    out.append("].unresolved_records(");
    out.append(
        "record_id,event_time,event_time_ns,received_time,received_time_ns,source,source_id,source_path,source_hierarchy,buffer_id,run_id,epoch_id,sequence,definition_hash,time_unsynced,synthetic_record,partial_payload",
    );
    out.append(
        ",event_type_id,reason,diagnostic_summary) VALUES(@P1,CONVERT(DATETIME2(7),LEFT(@P2,27),127),CONVERT(DECIMAL(20,0),@P3),CONVERT(DATETIME2(7),LEFT(@P4,27),127),CONVERT(DECIMAL(20,0),@P5),@P6,@P7,@P8,@P9,@P10,CONVERT(DECIMAL(20,0),@P11),CONVERT(DECIMAL(20,0),@P12),CONVERT(DECIMAL(20,0),@P13),@P14,@P15,@P16,@P17,@P18,@P19,@P20)",
    );
    out
}

proof fn lemma_special_count(schema: Seq<char>, rows: Seq<DomainRow>)
    ensures
        special_inserts_of(schema, rows).len() == count_special(rows),
    decreases rows.len(),
{
    if rows.len() > 0 {
        lemma_special_count(schema, rows.drop_last());
    }
}

proof fn lemma_inserts_concat(schema: Seq<char>, a: Seq<DomainRow>, b: Seq<DomainRow>)
    ensures
        special_inserts_of(schema, a + b) == special_inserts_of(schema, a) + special_inserts_of(schema, b),
    decreases b.len(),
{
    if b.len() == 0 {
        assert(a + b =~= a);
        assert(special_inserts_of(schema, a) + special_inserts_of(schema, b) =~= special_inserts_of(schema, a));
    } else {
        assert((a + b).drop_last() =~= a + b.drop_last());
        lemma_inserts_concat(schema, a, b.drop_last());
    }
}

/// The insert of every loss and every unresolved row of a batch, in batch
/// order: no row is skipped or merged with another.
pub fn special_row_inserts(schema: &str, documents: &[ProjectedDocument]) -> (r: Vec<RowInsert>)
    ensures
        inserts_view(r@) == special_inserts_of(schema@, all_domains(documents@)),
        r@.len() == count_special(all_domains(documents@)),
{
    let mut out: Vec<RowInsert> = Vec::new();
    let mut d: usize = 0;
    assert(inserts_view(out@) =~= Seq::<(Seq<char>, Seq<SqlValue>)>::empty());
    assert(documents@.take(0) =~= Seq::<ProjectedDocument>::empty());
    while d < documents.len()
        invariant
            d <= documents.len(),
            inserts_view(out@) == special_inserts_of(schema@, all_domains(documents@.take(d as int))),
        decreases documents.len() - d,
    {
        let domains = &documents[d].domains;
        let ghost before = inserts_view(out@);
        let mut k: usize = 0;
        assert(domains@.take(0) =~= Seq::<DomainRow>::empty());
        while k < domains.len()
            invariant
                k <= domains.len(),
                domains == &documents@[d as int].domains,
                inserts_view(out@) == before + special_inserts_of(schema@, domains@.take(k as int)),
            decreases domains.len() - k,
        {
            let ghost prev = inserts_view(out@);
            assert(domains@.take(k + 1).drop_last() =~= domains@.take(k as int));
            match &domains[k] {
                DomainRow::Loss(row) => {
                    let ins = RowInsert { statement: loss_statement(schema), params: loss_params(row) };
                    out.push(ins);
                },
                DomainRow::Unresolved(row) => {
                    let ins = RowInsert {
                        statement: unresolved_statement(schema),
                        params: unresolved_params(row),
                    };
                    out.push(ins);
                },
                _ => {},
            }
            assert(inserts_view(out@) =~= prev + special_insert(schema@, domains@[k as int]));
            k = k + 1;
        }
        proof {
            assert(domains@.take(domains.len() as int) =~= domains@);
            assert(documents@.take(d + 1).drop_last() =~= documents@.take(d as int));
            lemma_inserts_concat(schema@, all_domains(documents@.take(d as int)), documents@[d as int].domains@);
        }
        d = d + 1;
    }
    assert(documents@.take(documents.len() as int) =~= documents@);
    proof {
        lemma_special_count(schema@, all_domains(documents@));
    }
    out
}


// ---------------------------------------------------------------------------
// Repeated domain rows (alarm, system, operator, recipe), bound row by row

/// The values of one alarm row: record, condition, class, lifecycle action.
pub open spec fn alarm_values(r: AlarmRow) -> Seq<SqlValue> {
    seq![
        SqlValue::Text(r.common.record_id@),
        SqlValue::Text(r.condition@),
        opt_text_value(r.condition_class),
        SqlValue::Text(r.lifecycle_action@),
    ]
}

/// An optional unsigned value bound as decimal text.
pub open spec fn opt_decimal_value(o: Option<u64>) -> SqlValue {
    SqlValue::NullableText(
        match o {
            Some(v) => Some(decimal(v as nat)),
            None => None,
        },
    )
}

/// The values of one system-event row, in column order.
pub open spec fn system_values(r: SystemRow) -> Seq<SqlValue> {
    seq![
        SqlValue::Text(r.common.record_id@),
        SqlValue::Text(r.event_name@),
        opt_decimal_value(r.interval_ms),
        opt_text_value(r.sequence_base),
        opt_text_value(r.dropped_count),
        opt_text_value(r.first_sequence),
        opt_text_value(r.last_sequence),
        opt_text_value(r.registered_source_id),
        opt_text_value(r.previous_definition_hash),
        opt_text_value(r.new_definition_hash),
        opt_text_value(r.changed_epoch_id),
        opt_text_value(r.clock_quality),
        opt_text_value(r.produced_count),
        SqlValue::NullableBit(r.cold_start),
    ]
}

/// The values of one operator-activity row, in column order.
pub open spec fn operator_values(r: OperatorRow) -> Seq<SqlValue> {
    seq![
        SqlValue::Text(r.common.record_id@),
        SqlValue::Text(r.action@),
        opt_text_value(r.action_id),
        opt_text_value(r.actor),
        opt_text_value(r.workstation),
        opt_text_value(r.role),
        opt_text_value(r.authorization_result),
        opt_text_value(r.reason),
        opt_text_value(r.context_references),
    ]
}

/// The values of one recipe row, in column order.
pub open spec fn recipe_values(r: RecipeRow) -> Seq<SqlValue> {
    seq![
        SqlValue::Text(r.common.record_id@),
        SqlValue::Text(r.action@),
        SqlValue::Text(r.recipe_id@),
        opt_text_value(r.recipe_version),
        opt_text_value(r.batch_id),
        opt_text_value(r.actor),
        opt_text_value(r.authorization_result),
    ]
}

/// The value rows of one family among `rows`, in order.
pub open spec fn family_values(rows: Seq<DomainRow>, family: nat) -> Seq<Seq<SqlValue>>
    decreases rows.len(),
{
    if rows.len() == 0 {
        Seq::empty()
    } else {
        family_values(rows.drop_last(), family) + match rows.last() {
            DomainRow::Alarm(r) => if family == 0 {
                seq![alarm_values(r)]
            } else {
                Seq::empty()
            },
            DomainRow::System(r) => if family == 1 {
                seq![system_values(r)]
            } else {
                Seq::empty()
            },
            DomainRow::Operator(r) => if family == 2 {
                seq![operator_values(r)]
            } else {
                Seq::empty()
            },
            DomainRow::Recipe(r) => if family == 3 {
                seq![recipe_values(r)]
            } else {
                Seq::empty()
            },
            _ => Seq::empty(),
        }
    }
}

pub open spec fn rows_values(v: Seq<Vec<SqlParam>>) -> Seq<Seq<SqlValue>> {
    Seq::new(v.len(), |i: int| param_values(v[i]@))
}

/// The parameter rows of the repeated domain families of a batch.
pub struct RepeatedDomainParams {
    pub alarms: Vec<Vec<SqlParam>>,
    pub systems: Vec<Vec<SqlParam>>,
    pub operators: Vec<Vec<SqlParam>>,
    pub recipes: Vec<Vec<SqlParam>>,
}

fn opt_decimal(o: Option<u64>) -> (r: SqlParam)
    ensures
        param_value(r) == opt_decimal_value(o),
{
    match o {
        Some(v) => {
            let mut t = String::new();
            push_decimal(&mut t, v);
            assert(t@ =~= decimal(v as nat));
            SqlParam::NullableText(Some(t))
        },
        None => SqlParam::NullableText(None),
    }
}

fn alarm_params(r: &AlarmRow) -> (ps: Vec<SqlParam>)
    ensures
        param_values(ps@) == alarm_values(*r),
{
    let mut ps: Vec<SqlParam> = Vec::new();
    assert(param_values(ps@) =~= Seq::<SqlValue>::empty());
    push_param(&mut ps, text(&r.common.record_id));
    push_param(&mut ps, text(&r.condition));
    push_param(&mut ps, opt_text(&r.condition_class));
    push_param(&mut ps, text(&r.lifecycle_action));
    assert(param_values(ps@) =~= alarm_values(*r));
    ps
}

fn system_params(r: &SystemRow) -> (ps: Vec<SqlParam>)
    ensures
        param_values(ps@) == system_values(*r),
{
    let mut ps: Vec<SqlParam> = Vec::new();
    assert(param_values(ps@) =~= Seq::<SqlValue>::empty());
    push_param(&mut ps, text(&r.common.record_id));
    push_param(&mut ps, text(&r.event_name));
    push_param(&mut ps, opt_decimal(r.interval_ms));
    push_param(&mut ps, opt_text(&r.sequence_base));
    push_param(&mut ps, opt_text(&r.dropped_count));
    push_param(&mut ps, opt_text(&r.first_sequence));
    push_param(&mut ps, opt_text(&r.last_sequence));
    push_param(&mut ps, opt_text(&r.registered_source_id));
    push_param(&mut ps, opt_text(&r.previous_definition_hash));
    push_param(&mut ps, opt_text(&r.new_definition_hash));
    push_param(&mut ps, opt_text(&r.changed_epoch_id));
    push_param(&mut ps, opt_text(&r.clock_quality));
    push_param(&mut ps, opt_text(&r.produced_count));
    push_param(&mut ps, SqlParam::NullableBit(r.cold_start));
    assert(param_values(ps@) =~= system_values(*r));
    ps
}

fn operator_params(r: &OperatorRow) -> (ps: Vec<SqlParam>)
    ensures
        param_values(ps@) == operator_values(*r),
{
    let mut ps: Vec<SqlParam> = Vec::new();
    assert(param_values(ps@) =~= Seq::<SqlValue>::empty());
    push_param(&mut ps, text(&r.common.record_id));
    push_param(&mut ps, text(&r.action));
    push_param(&mut ps, opt_text(&r.action_id));
    push_param(&mut ps, opt_text(&r.actor));
    push_param(&mut ps, opt_text(&r.workstation));
    push_param(&mut ps, opt_text(&r.role));
    push_param(&mut ps, opt_text(&r.authorization_result));
    push_param(&mut ps, opt_text(&r.reason));
    push_param(&mut ps, opt_text(&r.context_references));
    assert(param_values(ps@) =~= operator_values(*r));
    ps
}

fn recipe_params(r: &RecipeRow) -> (ps: Vec<SqlParam>)
    ensures
        param_values(ps@) == recipe_values(*r),
{
    let mut ps: Vec<SqlParam> = Vec::new();
    assert(param_values(ps@) =~= Seq::<SqlValue>::empty());
    push_param(&mut ps, text(&r.common.record_id));
    push_param(&mut ps, text(&r.action));
    push_param(&mut ps, text(&r.recipe_id));
    push_param(&mut ps, opt_text(&r.recipe_version));
    push_param(&mut ps, opt_text(&r.batch_id));
    push_param(&mut ps, opt_text(&r.actor));
    push_param(&mut ps, opt_text(&r.authorization_result));
    assert(param_values(ps@) =~= recipe_values(*r));
    ps
}

proof fn lemma_family_concat(a: Seq<DomainRow>, b: Seq<DomainRow>, family: nat)
    ensures
        family_values(a + b, family) == family_values(a, family) + family_values(b, family),
    decreases b.len(),
{
    if b.len() == 0 {
        assert(a + b =~= a);
        assert(family_values(a, family) + family_values(b, family) =~= family_values(a, family));
    } else {
        assert((a + b).drop_last() =~= a + b.drop_last());
        lemma_family_concat(a, b.drop_last(), family);
    }
}

proof fn lemma_family_single(row: DomainRow, family: nat)
    ensures
        family_values(seq![row], family) == match row {
            DomainRow::Alarm(r) => if family == 0 {
                seq![alarm_values(r)]
            } else {
                Seq::empty()
            },
            DomainRow::System(r) => if family == 1 {
                seq![system_values(r)]
            } else {
                Seq::empty()
            },
            DomainRow::Operator(r) => if family == 2 {
                seq![operator_values(r)]
            } else {
                Seq::empty()
            },
            DomainRow::Recipe(r) => if family == 3 {
                seq![recipe_values(r)]
            } else {
                Seq::empty()
            },
            _ => Seq::<Seq<SqlValue>>::empty(),
        },
{
    assert(seq![row].drop_last() =~= Seq::<DomainRow>::empty());
    assert(seq![row].last() == row);
    assert(family_values(Seq::<DomainRow>::empty(), family) == Seq::<Seq<SqlValue>>::empty());
    assert(family_values(seq![row], family) == family_values(Seq::<DomainRow>::empty(), family) + match row {
        DomainRow::Alarm(r) => if family == 0 {
            seq![alarm_values(r)]
        } else {
            Seq::empty()
        },
        DomainRow::System(r) => if family == 1 {
            seq![system_values(r)]
        } else {
            Seq::empty()
        },
        DomainRow::Operator(r) => if family == 2 {
            seq![operator_values(r)]
        } else {
            Seq::empty()
        },
        DomainRow::Recipe(r) => if family == 3 {
            seq![recipe_values(r)]
        } else {
            Seq::empty()
        },
        _ => Seq::<Seq<SqlValue>>::empty(),
    });
    assert(Seq::<Seq<SqlValue>>::empty() + family_values(seq![row], family) =~= family_values(seq![row], family));
}

fn push_row(rows: &mut Vec<Vec<SqlParam>>, ps: Vec<SqlParam>)
    ensures
        rows_values(final(rows)@) == rows_values(old(rows)@).push(param_values(ps@)),
{
    rows.push(ps);
    assert(rows_values(final(rows)@) =~= rows_values(old(rows)@).push(param_values(ps@)));
}

/// The alarm, system, operator and recipe rows of a batch, each family in
/// batch order, as the parameter rows their inserts bind.
pub fn repeated_domain_params(documents: &[ProjectedDocument]) -> (r: RepeatedDomainParams)
    ensures
        rows_values(r.alarms@) == family_values(all_domains(documents@), 0),
        rows_values(r.systems@) == family_values(all_domains(documents@), 1),
        rows_values(r.operators@) == family_values(all_domains(documents@), 2),
        rows_values(r.recipes@) == family_values(all_domains(documents@), 3),
{
    let mut alarms: Vec<Vec<SqlParam>> = Vec::new();
    let mut systems: Vec<Vec<SqlParam>> = Vec::new();
    let mut operators: Vec<Vec<SqlParam>> = Vec::new();
    let mut recipes: Vec<Vec<SqlParam>> = Vec::new();
    let mut d: usize = 0;
    assert(documents@.take(0) =~= Seq::<ProjectedDocument>::empty());
    assert(rows_values(alarms@) =~= Seq::<Seq<SqlValue>>::empty());
    assert(rows_values(systems@) =~= Seq::<Seq<SqlValue>>::empty());
    assert(rows_values(operators@) =~= Seq::<Seq<SqlValue>>::empty());
    assert(rows_values(recipes@) =~= Seq::<Seq<SqlValue>>::empty());
    while d < documents.len()
        invariant
            d <= documents.len(),
            rows_values(alarms@) == family_values(all_domains(documents@.take(d as int)), 0),
            rows_values(systems@) == family_values(all_domains(documents@.take(d as int)), 1),
            rows_values(operators@) == family_values(all_domains(documents@.take(d as int)), 2),
            rows_values(recipes@) == family_values(all_domains(documents@.take(d as int)), 3),
        decreases documents.len() - d,
    {
        let domains = &documents[d].domains;
        let ghost a0 = rows_values(alarms@);
        let ghost s0 = rows_values(systems@);
        let ghost o0 = rows_values(operators@);
        let ghost r0 = rows_values(recipes@);
        let mut k: usize = 0;
        assert(domains@.take(0) =~= Seq::<DomainRow>::empty());
        while k < domains.len()
            invariant
                k <= domains.len(),
                domains == &documents@[d as int].domains,
                rows_values(alarms@) == a0 + family_values(domains@.take(k as int), 0),
                rows_values(systems@) == s0 + family_values(domains@.take(k as int), 1),
                rows_values(operators@) == o0 + family_values(domains@.take(k as int), 2),
                rows_values(recipes@) == r0 + family_values(domains@.take(k as int), 3),
            decreases domains.len() - k,
        {
            let ghost a1 = rows_values(alarms@);
            let ghost s1 = rows_values(systems@);
            let ghost o1 = rows_values(operators@);
            let ghost r1 = rows_values(recipes@);
            assert(domains@.take(k + 1).drop_last() =~= domains@.take(k as int));
            match &domains[k] {
                DomainRow::Alarm(row) => push_row(&mut alarms, alarm_params(row)),
                DomainRow::System(row) => push_row(&mut systems, system_params(row)),
                DomainRow::Operator(row) => push_row(&mut operators, operator_params(row)),
                DomainRow::Recipe(row) => push_row(&mut recipes, recipe_params(row)),
                _ => {},
            }
            let ghost last = domains@[k as int];
            assert(seq![last].drop_last() =~= Seq::<DomainRow>::empty());
            assert(seq![last].last() == last);
            proof {
                lemma_family_single(last, 0);
                lemma_family_single(last, 1);
                lemma_family_single(last, 2);
                lemma_family_single(last, 3);
            }
            assert(rows_values(alarms@) =~= a1 + family_values(seq![last], 0));
            assert(rows_values(systems@) =~= s1 + family_values(seq![last], 1));
            assert(rows_values(operators@) =~= o1 + family_values(seq![last], 2));
            assert(rows_values(recipes@) =~= r1 + family_values(seq![last], 3));
            proof {
                assert(domains@.take(k + 1) =~= domains@.take(k as int) + seq![last]);
                lemma_family_concat(domains@.take(k as int), seq![last], 0);
                lemma_family_concat(domains@.take(k as int), seq![last], 1);
                lemma_family_concat(domains@.take(k as int), seq![last], 2);
                lemma_family_concat(domains@.take(k as int), seq![last], 3);
            }
            k = k + 1;
        }
        proof {
            assert(domains@.take(domains.len() as int) =~= domains@);
            assert(documents@.take(d + 1).drop_last() =~= documents@.take(d as int));
            let prev = all_domains(documents@.take(d as int));
            lemma_family_concat(prev, documents@[d as int].domains@, 0);
            lemma_family_concat(prev, documents@[d as int].domains@, 1);
            lemma_family_concat(prev, documents@[d as int].domains@, 2);
            lemma_family_concat(prev, documents@[d as int].domains@, 3);
        }
        d = d + 1;
    }
    assert(documents@.take(documents.len() as int) =~= documents@);
    RepeatedDomainParams { alarms, systems, operators, recipes }
}

// ---------------------------------------------------------------------------
// Which column each bound value fills

/// The columns of the unresolved-record insert, one per placeholder
/// `@P1`..`@P20`, in order.
pub open spec fn unresolved_insert_columns() -> Seq<Seq<char>> {
    seq![
        "record_id"@, "event_time"@, "event_time_ns"@, "received_time"@, "received_time_ns"@,
        "source"@, "source_id"@, "source_path"@, "source_hierarchy"@, "buffer_id"@,
        "run_id"@, "epoch_id"@, "sequence"@, "definition_hash"@, "time_unsynced"@,
        "synthetic_record"@, "partial_payload"@, "event_type_id"@, "reason"@, "diagnostic_summary"@,
    ]
}

/// An unresolved row as its columns: each column name with the value of
/// the row field of that name.
pub open spec fn unresolved_row_columns(r: UnresolvedRow) -> Set<(Seq<char>, SqlValue)> {
    set![
        ("record_id"@, SqlValue::Text(r.record_id@)),
        ("event_time"@, opt_text_value(r.event_time)),
        ("event_time_ns"@, opt_text_value(r.event_time_ns)),
        ("received_time"@, SqlValue::Text(r.received_time@)),
        ("received_time_ns"@, SqlValue::Text(r.received_time_ns@)),
        ("source"@, opt_text_value(r.source)),
        ("source_id"@, SqlValue::BigInt(r.source_id as int)),
        ("source_path"@, SqlValue::Text(r.source_path@)),
        ("source_hierarchy"@, SqlValue::Text(r.source_hierarchy@)),
        ("buffer_id"@, SqlValue::BigInt(r.buffer_id as int)),
        ("run_id"@, SqlValue::Text(r.run_id@)),
        ("epoch_id"@, SqlValue::Text(r.epoch_id@)),
        ("sequence"@, SqlValue::Text(r.sequence@)),
        ("definition_hash"@, SqlValue::Text(r.definition_hash@)),
        ("time_unsynced"@, SqlValue::Bit(r.time_unsynced)),
        ("synthetic_record"@, SqlValue::Bit(r.synthetic_record)),
        ("partial_payload"@, SqlValue::Bit(r.partial_payload)),
        ("event_type_id"@, SqlValue::BigInt(r.event_type_id as int)),
        ("reason"@, SqlValue::Text(r.reason@)),
        ("diagnostic_summary"@, opt_text_value(r.diagnostic_summary)),
    ]
}

/// The unresolved-record insert binds, at each placeholder, the row's
/// value of the column that placeholder fills: the statement lists its
/// columns in placeholder order, and the value bound at `@P(k+1)` is the
/// row field named by the `k`-th of them (run at `@P11`, epoch at `@P12`).
pub proof fn law_unresolved_values_fill_their_columns(r: UnresolvedRow)
    ensures
        join(unresolved_insert_columns(), ","@) == common_columns() + ",event_type_id,reason,diagnostic_summary"@,
        unresolved_values(r).len() == unresolved_insert_columns().len(),
        forall|k: int|
            0 <= k < unresolved_insert_columns().len() ==> unresolved_row_columns(r).contains(
                (#[trigger] unresolved_insert_columns()[k], unresolved_values(r)[k]),
            ),
{
    reveal_with_fuel(join, 21);
    reveal_strlit("record_id,event_time,event_time_ns,received_time,received_time_ns,source,source_id,source_path,source_hierarchy,buffer_id,run_id,epoch_id,sequence,definition_hash,time_unsynced,synthetic_record,partial_payload");
    reveal_strlit(",event_type_id,reason,diagnostic_summary");
    reveal_strlit(",");
    reveal_strlit("record_id");
    reveal_strlit("event_time");
    reveal_strlit("event_time_ns");
    reveal_strlit("received_time");
    reveal_strlit("received_time_ns");
    reveal_strlit("source");
    reveal_strlit("source_id");
    reveal_strlit("source_path");
    reveal_strlit("source_hierarchy");
    reveal_strlit("buffer_id");
    reveal_strlit("run_id");
    reveal_strlit("epoch_id");
    reveal_strlit("sequence");
    reveal_strlit("definition_hash");
    reveal_strlit("time_unsynced");
    reveal_strlit("synthetic_record");
    reveal_strlit("partial_payload");
    reveal_strlit("event_type_id");
    reveal_strlit("reason");
    reveal_strlit("diagnostic_summary");
    assert(join(unresolved_insert_columns(), ","@) =~= common_columns()
        + ",event_type_id,reason,diagnostic_summary"@);
}

/// The columns the placeholders `@P1`..`@P18` of the data-loss insert
/// fill, in order (`@P11`, the first lost sequence, also fills `sequence`).
pub open spec fn loss_bound_columns() -> Seq<Seq<char>> {
    seq![
        "record_id"@,
        "received_time"@,
        "received_time_ns"@,
        "source"@,
        "source_id"@,
        "source_path"@,
        "source_hierarchy"@,
        "buffer_id"@,
        "run_id"@,
        "epoch_id"@,
        "first_sequence"@,
        "definition_hash"@,
        "time_unsynced"@,
        "synthetic_record"@,
        "partial_payload"@,
        "last_sequence"@,
        "lost_count"@,
        "basis"@,
    ]
}

/// A loss row as its columns: each column name with the value of the row
/// field of that name.
pub open spec fn loss_row_columns(r: LossRow) -> Set<(Seq<char>, SqlValue)> {
    set![
        ("record_id"@, SqlValue::Text(r.record_id@)),
        ("received_time"@, SqlValue::Text(r.received_time@)),
        ("received_time_ns"@, SqlValue::Text(r.received_time_ns@)),
        ("source"@, opt_text_value(r.source)),
        ("source_id"@, SqlValue::BigInt(r.source_id as int)),
        ("source_path"@, SqlValue::Text(r.source_path@)),
        ("source_hierarchy"@, SqlValue::Text(r.source_hierarchy@)),
        ("buffer_id"@, SqlValue::BigInt(r.buffer_id as int)),
        ("run_id"@, SqlValue::Text(r.run_id@)),
        ("epoch_id"@, SqlValue::Text(r.epoch_id@)),
        ("first_sequence"@, SqlValue::Text(r.first_sequence@)),
        ("definition_hash"@, SqlValue::Text(r.definition_hash@)),
        ("time_unsynced"@, SqlValue::Bit(r.time_unsynced)),
        ("synthetic_record"@, SqlValue::Bit(r.synthetic_record)),
        ("partial_payload"@, SqlValue::Bit(r.partial_payload)),
        ("last_sequence"@, SqlValue::Text(r.last_sequence@)),
        ("lost_count"@, SqlValue::Text(r.lost_count@)),
        ("basis"@, SqlValue::Text(r.basis@)),
    ]
}

/// The data-loss insert binds, at each placeholder, the row's value of
/// the column that placeholder fills.
pub proof fn law_loss_values_fill_their_columns(r: LossRow)
    ensures
        loss_values(r).len() == loss_bound_columns().len(),
        forall|k: int|
            0 <= k < loss_bound_columns().len() ==> loss_row_columns(r).contains(
                (#[trigger] loss_bound_columns()[k], loss_values(r)[k]),
            ),
{
}

/// The columns of one bound alarm row, in binding order: the record,
/// then the alarm columns of the combined insert.
pub open spec fn alarm_bound_columns() -> Seq<Seq<char>> {
    seq![
        "record_id"@,
        "condition"@,
        "condition_class"@,
        "lifecycle_action"@,
    ]
}

/// A alarm row as its columns: each column name with the value of the row
/// field of that name.
pub open spec fn alarm_row_columns(r: AlarmRow) -> Set<(Seq<char>, SqlValue)> {
    set![
        ("record_id"@, SqlValue::Text(r.common.record_id@)),
        ("condition"@, SqlValue::Text(r.condition@)),
        ("condition_class"@, opt_text_value(r.condition_class)),
        ("lifecycle_action"@, SqlValue::Text(r.lifecycle_action@)),
    ]
}

/// A alarm row binds, at each position, the row's value of the column
/// named at that position of the combined insert's `rows(record_id,...)`
/// list.
pub proof fn law_alarm_values_fill_their_columns(r: AlarmRow)
    ensures
        join(alarm_bound_columns(), ","@) == "record_id,"@ + alarm_columns(),
        alarm_values(r).len() == alarm_bound_columns().len(),
        forall|k: int|
            0 <= k < alarm_bound_columns().len() ==> alarm_row_columns(r).contains(
                (#[trigger] alarm_bound_columns()[k], alarm_values(r)[k]),
            ),
{
    reveal_with_fuel(join, 5);
    reveal_strlit("condition,condition_class,lifecycle_action");
    reveal_strlit("record_id,");
    reveal_strlit(",");
    reveal_strlit("condition");
    reveal_strlit("condition_class");
    reveal_strlit("lifecycle_action");
    reveal_strlit("record_id");
    assert(join(alarm_bound_columns(), ","@) =~= "record_id,"@ + alarm_columns());
}

/// The columns of one bound system row, in binding order: the record,
/// then the system columns of the combined insert.
pub open spec fn system_bound_columns() -> Seq<Seq<char>> {
    seq![
        "record_id"@,
        "event_name"@,
        "interval_ms"@,
        "sequence_base"@,
        "dropped_count"@,
        "first_sequence"@,
        "last_sequence"@,
        "registered_source_id"@,
        "previous_definition_hash"@,
        "new_definition_hash"@,
        "changed_epoch_id"@,
        "clock_quality"@,
        "produced_count"@,
        "cold_start"@,
    ]
}

/// A system row as its columns: each column name with the value of the row
/// field of that name.
pub open spec fn system_row_columns(r: SystemRow) -> Set<(Seq<char>, SqlValue)> {
    set![
        ("record_id"@, SqlValue::Text(r.common.record_id@)),
        ("event_name"@, SqlValue::Text(r.event_name@)),
        ("interval_ms"@, opt_decimal_value(r.interval_ms)),
        ("sequence_base"@, opt_text_value(r.sequence_base)),
        ("dropped_count"@, opt_text_value(r.dropped_count)),
        ("first_sequence"@, opt_text_value(r.first_sequence)),
        ("last_sequence"@, opt_text_value(r.last_sequence)),
        ("registered_source_id"@, opt_text_value(r.registered_source_id)),
        ("previous_definition_hash"@, opt_text_value(r.previous_definition_hash)),
        ("new_definition_hash"@, opt_text_value(r.new_definition_hash)),
        ("changed_epoch_id"@, opt_text_value(r.changed_epoch_id)),
        ("clock_quality"@, opt_text_value(r.clock_quality)),
        ("produced_count"@, opt_text_value(r.produced_count)),
        ("cold_start"@, SqlValue::NullableBit(r.cold_start)),
    ]
}

/// A system row binds, at each position, the row's value of the column
/// named at that position of the combined insert's `rows(record_id,...)`
/// list.
pub proof fn law_system_values_fill_their_columns(r: SystemRow)
    ensures
        join(system_bound_columns(), ","@) == "record_id,"@ + system_columns(),
        system_values(r).len() == system_bound_columns().len(),
        forall|k: int|
            0 <= k < system_bound_columns().len() ==> system_row_columns(r).contains(
                (#[trigger] system_bound_columns()[k], system_values(r)[k]),
            ),
{
    reveal_with_fuel(join, 15);
    reveal_strlit("event_name,interval_ms,sequence_base,dropped_count,first_sequence,last_sequence,registered_source_id,previous_definition_hash,new_definition_hash,changed_epoch_id,clock_quality,produced_count,cold_start");
    reveal_strlit("record_id,");
    reveal_strlit(",");
    reveal_strlit("changed_epoch_id");
    reveal_strlit("clock_quality");
    reveal_strlit("cold_start");
    reveal_strlit("dropped_count");
    reveal_strlit("event_name");
    reveal_strlit("first_sequence");
    reveal_strlit("interval_ms");
    reveal_strlit("last_sequence");
    reveal_strlit("new_definition_hash");
    reveal_strlit("previous_definition_hash");
    reveal_strlit("produced_count");
    reveal_strlit("record_id");
    reveal_strlit("registered_source_id");
    reveal_strlit("sequence_base");
    assert(join(system_bound_columns(), ","@) =~= "record_id,"@ + system_columns());
}

/// The columns of one bound operator row, in binding order: the record,
/// then the operator columns of the combined insert.
pub open spec fn operator_bound_columns() -> Seq<Seq<char>> {
    seq![
        "record_id"@,
        "action"@,
        "action_id"@,
        "actor"@,
        "workstation"@,
        "role"@,
        "authorization_result"@,
        "reason"@,
        "context_references"@,
    ]
}

/// A operator row as its columns: each column name with the value of the row
/// field of that name.
pub open spec fn operator_row_columns(r: OperatorRow) -> Set<(Seq<char>, SqlValue)> {
    set![
        ("record_id"@, SqlValue::Text(r.common.record_id@)),
        ("action"@, SqlValue::Text(r.action@)),
        ("action_id"@, opt_text_value(r.action_id)),
        ("actor"@, opt_text_value(r.actor)),
        ("workstation"@, opt_text_value(r.workstation)),
        ("role"@, opt_text_value(r.role)),
        ("authorization_result"@, opt_text_value(r.authorization_result)),
        ("reason"@, opt_text_value(r.reason)),
        ("context_references"@, opt_text_value(r.context_references)),
    ]
}

/// A operator row binds, at each position, the row's value of the column
/// named at that position of the combined insert's `rows(record_id,...)`
/// list.
pub proof fn law_operator_values_fill_their_columns(r: OperatorRow)
    ensures
        join(operator_bound_columns(), ","@) == "record_id,"@ + operator_columns(),
        operator_values(r).len() == operator_bound_columns().len(),
        forall|k: int|
            0 <= k < operator_bound_columns().len() ==> operator_row_columns(r).contains(
                (#[trigger] operator_bound_columns()[k], operator_values(r)[k]),
            ),
{
    reveal_with_fuel(join, 10);
    reveal_strlit("action,action_id,actor,workstation,role,authorization_result,reason,context_references");
    reveal_strlit("record_id,");
    reveal_strlit(",");
    reveal_strlit("action");
    reveal_strlit("action_id");
    reveal_strlit("actor");
    reveal_strlit("authorization_result");
    reveal_strlit("context_references");
    reveal_strlit("reason");
    reveal_strlit("record_id");
    reveal_strlit("role");
    reveal_strlit("workstation");
    assert(join(operator_bound_columns(), ","@) =~= "record_id,"@ + operator_columns());
}

/// The columns of one bound recipe row, in binding order: the record,
/// then the recipe columns of the combined insert.
pub open spec fn recipe_bound_columns() -> Seq<Seq<char>> {
    seq![
        "record_id"@,
        "action"@,
        "recipe_id"@,
        "recipe_version"@,
        "batch_id"@,
        "actor"@,
        "authorization_result"@,
    ]
}

/// A recipe row as its columns: each column name with the value of the row
/// field of that name.
pub open spec fn recipe_row_columns(r: RecipeRow) -> Set<(Seq<char>, SqlValue)> {
    set![
        ("record_id"@, SqlValue::Text(r.common.record_id@)),
        ("action"@, SqlValue::Text(r.action@)),
        ("recipe_id"@, SqlValue::Text(r.recipe_id@)),
        ("recipe_version"@, opt_text_value(r.recipe_version)),
        ("batch_id"@, opt_text_value(r.batch_id)),
        ("actor"@, opt_text_value(r.actor)),
        ("authorization_result"@, opt_text_value(r.authorization_result)),
    ]
}

/// A recipe row binds, at each position, the row's value of the column
/// named at that position of the combined insert's `rows(record_id,...)`
/// list.
pub proof fn law_recipe_values_fill_their_columns(r: RecipeRow)
    ensures
        join(recipe_bound_columns(), ","@) == "record_id,"@ + recipe_columns(),
        recipe_values(r).len() == recipe_bound_columns().len(),
        forall|k: int|
            0 <= k < recipe_bound_columns().len() ==> recipe_row_columns(r).contains(
                (#[trigger] recipe_bound_columns()[k], recipe_values(r)[k]),
            ),
{
    reveal_with_fuel(join, 8);
    reveal_strlit("action,recipe_id,recipe_version,batch_id,actor,authorization_result");
    reveal_strlit("record_id,");
    reveal_strlit(",");
    reveal_strlit("action");
    reveal_strlit("actor");
    reveal_strlit("authorization_result");
    reveal_strlit("batch_id");
    reveal_strlit("recipe_id");
    reveal_strlit("recipe_version");
    reveal_strlit("record_id");
    assert(join(recipe_bound_columns(), ","@) =~= "record_id,"@ + recipe_columns());
}

} // verus!
