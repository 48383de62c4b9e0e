//! The statements a SQL Server commit sends: identity lookup, multi-row
//! inserts whose parameter numbering stays within the server's limit per
//! request, the combined repeated-domain insert, the checkpoint merge, and
//! the complete parameter lists of loss and unresolved rows.

use vstd::prelude::*;
use crate::contracts::{PersistenceCheckpoint, PersistenceError};
use crate::rows::{DomainRow, LossRow, ProjectedDocument, UnresolvedRow};
use crate::sql_params::{
    params_text, plain_kinds, plain_template, push_params, push_tuples, tuples_text, ParamKind,
};
use crate::text::{
    ascii_alnum, ascii_alpha, chars_of, decimal, hex_fixed, is_ascii_alnum, is_ascii_alpha,
    push_decimal, push_hex_fixed,
};

verus! {

/// Rows of logged values per insert statement.
pub const SQLSERVER_LOGGED_VALUE_ROWS_PER_STATEMENT: usize = 53;

/// Parameters of one logged-value row.
pub const LOGGED_VALUE_PARAMETERS: usize = 39;

/// Parameters SQL Server accepts in one request.
pub const SQLSERVER_PARAMETER_LIMIT: usize = 2100;

// ---------------------------------------------------------------------------
// Identifiers

/// A SQL identifier: a letter or `_`, then letters, digits or `_`.
pub open spec fn sql_identifier(s: Seq<char>) -> bool {
    &&& s.len() > 0
    &&& (s[0] == '_' || is_ascii_alpha(s[0]))
    &&& forall|i: int| 1 <= i < s.len() ==> (s[i] == '_' || is_ascii_alnum(#[trigger] s[i]))
}

/// Checks a schema name against `sql_identifier`; `message` is the error
/// text when it is not one.
pub fn check_identifier(value: &str, message: &str) -> (r: Result<(), PersistenceError>)
    ensures
        sql_identifier(value@) ==> r is Ok,
        !sql_identifier(value@) ==> (r matches Err(PersistenceError::InvalidConfig(m)) && m@
            == message@),
{
    let chars = chars_of(value);
    let mut ok = chars.len() > 0 && (chars[0] == '_' || ascii_alpha(chars[0]));
    let mut i: usize = 1;
    while i < chars.len()
        invariant
            1 <= i,
            i <= chars.len() || chars.len() == 0,
            chars@ == value@,
            ok == (chars.len() > 0 && (chars@[0] == '_' || is_ascii_alpha(chars@[0])) && forall|j: int|
                1 <= j < i && j < chars.len() ==> (chars@[j] == '_' || is_ascii_alnum(#[trigger] chars@[j]))),
        decreases chars.len() - i,
    {
        let c = chars[i];
        if !(c == '_' || ascii_alnum(c)) {
            ok = false;
        }
        i = i + 1;
    }
    if ok {
        Ok(())
    } else {
        let mut m = String::new();
        m.append(message);
        Err(PersistenceError::InvalidConfig(m))
    }
}

/// Rejects a SQL Server schema name that is not a SQL identifier.
pub fn validate_sqlserver_schema(value: &str) -> (r: Result<(), PersistenceError>)
    ensures
        sql_identifier(value@) ==> r is Ok,
        !sql_identifier(value@) ==> (r matches Err(PersistenceError::InvalidConfig(m)) && m@
            == "SQL Server schema must be a SQL identifier"@),
{
    check_identifier(value, "SQL Server schema must be a SQL identifier")
}

// ---------------------------------------------------------------------------
// Column lists

pub open spec fn common_columns() -> Seq<char> {
    "record_id,event_time,event_time_ns,received_time,received_time_ns,source,source_id,source_path,source_hierarchy,buffer_id,run_id,epoch_id,sequence,definition_hash,time_unsynced,synthetic_record,partial_payload"@
}

pub open spec fn common_select() -> Seq<char> {
    "e.record_id,e.event_time,e.event_time_ns,e.received_time,e.received_time_ns,e.source,e.source_id,e.source_path,e.source_hierarchy,e.buffer_id,e.run_id,e.epoch_id,e.sequence,e.definition_hash,e.time_unsynced,e.synthetic_record,e.partial_payload"@
}

pub open spec fn record_columns() -> Seq<char> {
    "identity_key,document_kind,buffer_id,run_id,source_id,epoch_id,seq,first_seq,last_seq,loss_basis,source_time_ns,receive_time_ns,event_type_id,event_name,definition_hash,canonical_json"@
}

pub open spec fn value_columns() -> Seq<char> {
    "record_id,event_time,event_time_ns,received_time,received_time_ns,source,source_id,source_path,source_hierarchy,buffer_id,run_id,epoch_id,sequence,definition_hash,time_unsynced,synthetic_record,partial_payload,value_id,value_name,value_type,unit,quality,semantic_role,boolean_value,signed_value,unsigned_value,number_value,text_value,exact_value,previous_boolean_value,previous_signed_value,previous_unsigned_value,previous_number_value,previous_text_value,previous_exact_value,is_audited,actor,reason,authorization_result"@
}

fn push_common_columns(out: &mut String)
    ensures
        final(out)@ == old(out)@ + common_columns(),
{
    out.append(
        "record_id,event_time,event_time_ns,received_time,received_time_ns,source,source_id,source_path,source_hierarchy,buffer_id,run_id,epoch_id,sequence,definition_hash,time_unsynced,synthetic_record,partial_payload",
    );
}

fn push_common_select(out: &mut String)
    ensures
        final(out)@ == old(out)@ + common_select(),
{
    out.append(
        "e.record_id,e.event_time,e.event_time_ns,e.received_time,e.received_time_ns,e.source,e.source_id,e.source_path,e.source_hierarchy,e.buffer_id,e.run_id,e.epoch_id,e.sequence,e.definition_hash,e.time_unsynced,e.synthetic_record,e.partial_payload",
    );
}

// ---------------------------------------------------------------------------
// Parameter templates

/// One event-log row: the shared columns, then type id, name and the
/// unclassified flag. Run, epoch and sequence are bound as decimal text but
/// converted by the column type.
pub open spec fn event_kinds() -> Seq<ParamKind> {
    Seq::new(
        20,
        |i: int|
            if i == 1 || i == 3 {
                ParamKind::DateTime
            } else if i == 2 || i == 4 {
                ParamKind::Decimal
            } else {
                ParamKind::Plain
            },
    )
}

/// One logged-value row: the shared columns, then the value columns, with
/// the unsigned value and its previous value converted to decimal.
pub open spec fn value_kinds() -> Seq<ParamKind> {
    Seq::new(
        39,
        |i: int|
            if i == 1 || i == 3 {
                ParamKind::DateTime
            } else if i == 2 || i == 4 || i == 10 || i == 11 || i == 12 || i == 25 || i == 31 {
                ParamKind::Decimal
            } else {
                ParamKind::Plain
            },
    )
}

/// The parameter template of an event-log row.
pub fn event_template() -> (r: Vec<ParamKind>)
    ensures
        r@ == event_kinds(),
{
    let mut v: Vec<ParamKind> = Vec::new();
    let mut i: usize = 0;
    while i < 20
        invariant
            i <= 20,
            v@ =~= event_kinds().take(i as int),
        decreases 20 - i,
    {
        let kind = if i == 1 || i == 3 {
            ParamKind::DateTime
        } else if i == 2 || i == 4 {
            ParamKind::Decimal
        } else {
            ParamKind::Plain
        };
        v.push(kind);
        i = i + 1;
        assert(v@ =~= event_kinds().take(i as int));
    }
    assert(event_kinds().take(20) =~= event_kinds());
    v
}

/// The parameter template of a logged-value row.
pub fn value_template() -> (r: Vec<ParamKind>)
    ensures
        r@ == value_kinds(),
{
    let mut v: Vec<ParamKind> = Vec::new();
    let mut i: usize = 0;
    while i < 39
        invariant
            i <= 39,
            v@ =~= value_kinds().take(i as int),
        decreases 39 - i,
    {
        let kind = if i == 1 || i == 3 {
            ParamKind::DateTime
        } else if i == 2 || i == 4 || i == 10 || i == 11 || i == 12 || i == 25 || i == 31 {
            ParamKind::Decimal
        } else {
            ParamKind::Plain
        };
        v.push(kind);
        i = i + 1;
        assert(v@ =~= value_kinds().take(i as int));
    }
    assert(value_kinds().take(39) =~= value_kinds());
    v
}

// ---------------------------------------------------------------------------
// Statements

/// The locking lookup of the stored content at `n` identities.
pub open spec fn identity_lookup_text(schema: Seq<char>, n: nat) -> Seq<char> {
    "SELECT identity_key,canonical_json FROM ["@ + schema
        + "].logging_records WITH(UPDLOCK,HOLDLOCK) WHERE identity_key IN ("@ + params_text(
        1,
        plain_kinds(n),
    ) + ")"@
}

pub fn identity_lookup_statement(schema: &str, n: usize) -> (r: String)
    requires
        n < u64::MAX,
    ensures
        r@ == identity_lookup_text(schema@, n as nat),
{
    let mut out = String::new();
    out.append("SELECT identity_key,canonical_json FROM [");
    out.append(schema);
    out.append("].logging_records WITH(UPDLOCK,HOLDLOCK) WHERE identity_key IN (");
    let kinds = plain_template(n);
    push_params(&mut out, 1, &kinds);
    out.append(")");
    out
}

/// The insert of `rows` canonical document rows.
pub open spec fn records_insert_text(schema: Seq<char>, rows: nat) -> Seq<char> {
    "INSERT INTO ["@ + schema + "].logging_records("@ + record_columns() + ") VALUES "@
        + tuples_text(rows, 1, plain_kinds(16))
}

pub fn records_insert_statement(schema: &str, rows: usize) -> (r: String)
    requires
        1 + rows * 16 <= u64::MAX,
    ensures
        r@ == records_insert_text(schema@, rows as nat),
{
    let mut out = String::new();
    out.append("INSERT INTO [");
    out.append(schema);
    out.append("].logging_records(");
    out.append(
        "identity_key,document_kind,buffer_id,run_id,source_id,epoch_id,seq,first_seq,last_seq,loss_basis,source_time_ns,receive_time_ns,event_type_id,event_name,definition_hash,canonical_json",
    );
    out.append(") VALUES ");
    let kinds = plain_template(16);
    push_tuples(&mut out, rows, 1, &kinds);
    out
}

/// The insert of `rows` event-log rows.
pub open spec fn event_insert_text(schema: Seq<char>, rows: nat) -> Seq<char> {
    "INSERT INTO ["@ + schema + "].event_log("@ + common_columns()
        + ",event_type_id,event_name,has_unclassified_fields) VALUES "@ + tuples_text(rows, 1, event_kinds())
}

pub fn event_insert_statement(schema: &str, rows: usize) -> (r: String)
    requires
        1 + rows * 20 <= u64::MAX,
    ensures
        r@ == event_insert_text(schema@, rows as nat),
{
    let mut out = String::new();
    out.append("INSERT INTO [");
    out.append(schema);
    out.append("].event_log(");
    push_common_columns(&mut out);
    out.append(",event_type_id,event_name,has_unclassified_fields) VALUES ");
    let kinds = event_template();
    push_tuples(&mut out, rows, 1, &kinds);
    out
}

/// The insert of `rows` logged-value rows.
pub open spec fn value_insert_text(schema: Seq<char>, rows: nat) -> Seq<char> {
    "INSERT INTO ["@ + schema + "].logged_values("@ + value_columns() + ") VALUES "@ + tuples_text(
        rows,
        1,
        value_kinds(),
    )
}

pub fn value_insert_statement(schema: &str, rows: usize) -> (r: String)
    requires
        rows <= SQLSERVER_LOGGED_VALUE_ROWS_PER_STATEMENT,
    ensures
        r@ == value_insert_text(schema@, rows as nat),
{
    let mut out = String::new();
    out.append("INSERT INTO [");
    out.append(schema);
    out.append("].logged_values(");
    out.append(
        "record_id,event_time,event_time_ns,received_time,received_time_ns,source,source_id,source_path,source_hierarchy,buffer_id,run_id,epoch_id,sequence,definition_hash,time_unsynced,synthetic_record,partial_payload,value_id,value_name,value_type,unit,quality,semantic_role,boolean_value,signed_value,unsigned_value,number_value,text_value,exact_value,previous_boolean_value,previous_signed_value,previous_unsigned_value,previous_number_value,previous_text_value,previous_exact_value,is_audited,actor,reason,authorization_result",
    );
    out.append(") VALUES ");
    let kinds = value_template();
    push_tuples(&mut out, rows, 1, &kinds);
    out
}

// ---------------------------------------------------------------------------
// Logged-value chunks

/// The chunks `[start, end)` that split `total` logged values into
/// statements of at most `SQLSERVER_LOGGED_VALUE_ROWS_PER_STATEMENT` rows.
pub open spec fn value_chunk(total: nat, k: nat) -> (nat, nat) {
    let start = k * 53;
    (start, if start + 53 <= total { start + 53 } else { total })
}

pub open spec fn value_chunk_count(total: nat) -> nat {
    (total + 52) / 53
}

/// Splits `total` logged values into consecutive chunks.
pub fn value_chunks(total: usize) -> (r: Vec<(usize, usize)>)
    ensures
        r@.len() == value_chunk_count(total as nat),
        forall|k: int|
            0 <= k < r@.len() ==> (#[trigger] r@[k]).0 == value_chunk(total as nat, k as nat).0 && r@[k].1
                == value_chunk(total as nat, k as nat).1,
{
    let mut out: Vec<(usize, usize)> = Vec::new();
    let mut start: usize = 0;
    while start < total
        invariant
            start <= total,
            start < total ==> start == out@.len() * 53,
            start <= out@.len() * 53,
            out@.len() > 0 ==> out@.len() * 53 < start + 53,
            out@.len() == 0 ==> start == 0,
            forall|k: int|
                0 <= k < out@.len() ==> (#[trigger] out@[k]).0 == value_chunk(total as nat, k as nat).0
                    && out@[k].1 == value_chunk(total as nat, k as nat).1,
        decreases total - start,
    {
        let end = if total - start >= 53 {
            start + 53
        } else {
            total
        };
        out.push((start, end));
        start = end;
    }
    assert(out@.len() == value_chunk_count(total as nat)) by (nonlinear_arith)
        requires
            start == total,
            start <= out@.len() * 53,
            out@.len() > 0 ==> out@.len() * 53 < start + 53,
            out@.len() == 0 ==> start == 0,
    ;
    out
}

/// Every logged-value chunk is non-empty, at most 53 rows long, and its
/// statement stays within SQL Server's parameter limit; consecutive chunks
/// cover all values in order.
pub proof fn law_value_chunks_fit_parameter_limit(total: nat, k: nat)
    requires
        k < value_chunk_count(total),
    ensures
        value_chunk(total, k).0 < value_chunk(total, k).1,
        value_chunk(total, k).1 - value_chunk(total, k).0 <= SQLSERVER_LOGGED_VALUE_ROWS_PER_STATEMENT,
        (value_chunk(total, k).1 - value_chunk(total, k).0) * LOGGED_VALUE_PARAMETERS
            <= SQLSERVER_PARAMETER_LIMIT,
        k + 1 < value_chunk_count(total) ==> value_chunk(total, k + 1).0 == value_chunk(total, k).1,
        k + 1 == value_chunk_count(total) ==> value_chunk(total, k).1 == total,
        k == 0 ==> value_chunk(total, k).0 == 0,
{
    assert(k * 53 < total) by (nonlinear_arith)
        requires
            k < (total + 52) / 53,
    ;
    if k + 1 == value_chunk_count(total) {
        assert(total <= (k + 1) * 53) by (nonlinear_arith)
            requires
                k + 1 == (total + 52) / 53,
        ;
    } else {
        assert((k + 1) * 53 < total) by (nonlinear_arith)
            requires
                k + 1 < (total + 52) / 53,
        ;
    }
    assert((k + 1) * 53 == k * 53 + 53) by (nonlinear_arith);
}

// ---------------------------------------------------------------------------
// Repeated domain rows, combined in one request

/// One `INSERT ... SELECT` that joins `rows` value tuples to their
/// event-log rows.
pub open spec fn joined_insert_text(
    schema: Seq<char>,
    table: Seq<char>,
    columns: Seq<char>,
    select: Seq<char>,
    values: Seq<char>,
) -> Seq<char> {
    "INSERT INTO ["@ + schema + "]."@ + table + "("@ + common_columns() + ","@ + columns + ") SELECT "@
        + common_select() + ","@ + select + " FROM ["@ + schema + "].event_log e JOIN (VALUES "@ + values
        + ") rows(record_id,"@ + columns + ") ON e.record_id=rows.record_id"@
}

fn joined_insert(schema: &str, table: &str, columns: &str, select: &str, values: &str) -> (r: String)
    ensures
        r@ == joined_insert_text(schema@, table@, columns@, select@, values@),
{
    let mut out = String::new();
    out.append("INSERT INTO [");
    out.append(schema);
    out.append("].");
    out.append(table);
    out.append("(");
    push_common_columns(&mut out);
    out.append(",");
    out.append(columns);
    out.append(") SELECT ");
    push_common_select(&mut out);
    out.append(",");
    out.append(select);
    out.append(" FROM [");
    out.append(schema);
    out.append("].event_log e JOIN (VALUES ");
    out.append(values);
    out.append(") rows(record_id,");
    out.append(columns);
    out.append(") ON e.record_id=rows.record_id");
    out
}

pub open spec fn alarm_columns() -> Seq<char> {
    "condition,condition_class,lifecycle_action"@
}

pub open spec fn alarm_select() -> Seq<char> {
    "rows.condition,rows.condition_class,rows.lifecycle_action"@
}

pub open spec fn system_columns() -> Seq<char> {
    "event_name,interval_ms,sequence_base,dropped_count,first_sequence,last_sequence,registered_source_id,previous_definition_hash,new_definition_hash,changed_epoch_id,clock_quality,produced_count,cold_start"@
}

pub open spec fn system_select() -> Seq<char> {
    "rows.event_name,CONVERT(DECIMAL(20,0),rows.interval_ms),CONVERT(DECIMAL(20,0),rows.sequence_base),CONVERT(DECIMAL(20,0),rows.dropped_count),CONVERT(DECIMAL(20,0),rows.first_sequence),CONVERT(DECIMAL(20,0),rows.last_sequence),CONVERT(DECIMAL(20,0),rows.registered_source_id),rows.previous_definition_hash,rows.new_definition_hash,CONVERT(DECIMAL(20,0),rows.changed_epoch_id),rows.clock_quality,CONVERT(DECIMAL(20,0),rows.produced_count),rows.cold_start"@
}

pub open spec fn operator_columns() -> Seq<char> {
    "action,action_id,actor,workstation,role,authorization_result,reason,context_references"@
}

pub open spec fn operator_select() -> Seq<char> {
    "rows.action,rows.action_id,rows.actor,rows.workstation,rows.role,rows.authorization_result,rows.reason,rows.context_references"@
}

pub open spec fn recipe_columns() -> Seq<char> {
    "action,recipe_id,recipe_version,batch_id,actor,authorization_result"@
}

pub open spec fn recipe_select() -> Seq<char> {
    "rows.action,rows.recipe_id,rows.recipe_version,rows.batch_id,rows.actor,rows.authorization_result"@
}

/// The statements of the combined insert of alarm, system, operator and
/// recipe rows, in that order, each present only when it has rows;
/// parameters are numbered across all four from 1.
pub open spec fn repeated_statements(schema: Seq<char>, a: nat, s: nat, o: nat, r: nat) -> Seq<Seq<char>> {
    let alarm_first = 1nat;
    let system_first = alarm_first + a * 4;
    let operator_first = system_first + s * 14;
    let recipe_first = operator_first + o * 9;
    (if a > 0 {
        seq![
            joined_insert_text(
                schema,
                "alarm_history"@,
                alarm_columns(),
                alarm_select(),
                tuples_text(a, alarm_first, plain_kinds(4)),
            ),
        ]
    } else {
        Seq::empty()
    }) + (if s > 0 {
        seq![
            joined_insert_text(
                schema,
                "system_events"@,
                system_columns(),
                system_select(),
                tuples_text(s, system_first as nat, plain_kinds(14)),
            ),
        ]
    } else {
        Seq::empty()
    }) + (if o > 0 {
        seq![
            joined_insert_text(
                schema,
                "operator_activity"@,
                operator_columns(),
                operator_select(),
                tuples_text(o, operator_first as nat, plain_kinds(9)),
            ),
        ]
    } else {
        Seq::empty()
    }) + (if r > 0 {
        seq![
            joined_insert_text(
                schema,
                "recipe_history"@,
                recipe_columns(),
                recipe_select(),
                tuples_text(r, recipe_first as nat, plain_kinds(7)),
            ),
        ]
    } else {
        Seq::empty()
    })
}

fn tuples_string(rows: usize, first: u64, width: usize) -> (r: String)
    requires
        first + rows * width <= u64::MAX,
    ensures
        r@ == tuples_text(rows as nat, first as nat, plain_kinds(width as nat)),
{
    let mut out = String::new();
    let kinds = plain_template(width);
    push_tuples(&mut out, rows, first, &kinds);
    out
}

/// The combined repeated-domain request: its statements joined by `;`.
pub fn repeated_domains_statement(schema: &str, alarms: usize, systems: usize, operators: usize, recipes: usize) -> (r: String)
    requires
        1 + alarms * 4 + systems * 14 + operators * 9 + recipes * 7 <= u64::MAX,
    ensures
        r@ == crate::line_protocol::join(repeated_statements(schema@, alarms as nat, systems as nat, operators as nat, recipes as nat), ";"@),
{
    let system_first: u64 = 1 + alarms as u64 * 4;
    let operator_first: u64 = system_first + systems as u64 * 14;
    let recipe_first: u64 = operator_first + operators as u64 * 9;
    let alarm_values = tuples_string(alarms, 1, 4);
    let system_values = tuples_string(systems, system_first, 14);
    let operator_values = tuples_string(operators, operator_first, 9);
    let recipe_values = tuples_string(recipes, recipe_first, 7);
    let mut statements: Vec<String> = Vec::new();
    if alarms > 0 {
        statements.push(joined_insert(schema, "alarm_history", "condition,condition_class,lifecycle_action", "rows.condition,rows.condition_class,rows.lifecycle_action", alarm_values.as_str()));
    }
    if systems > 0 {
        statements.push(joined_insert(schema, "system_events", "event_name,interval_ms,sequence_base,dropped_count,first_sequence,last_sequence,registered_source_id,previous_definition_hash,new_definition_hash,changed_epoch_id,clock_quality,produced_count,cold_start", "rows.event_name,CONVERT(DECIMAL(20,0),rows.interval_ms),CONVERT(DECIMAL(20,0),rows.sequence_base),CONVERT(DECIMAL(20,0),rows.dropped_count),CONVERT(DECIMAL(20,0),rows.first_sequence),CONVERT(DECIMAL(20,0),rows.last_sequence),CONVERT(DECIMAL(20,0),rows.registered_source_id),rows.previous_definition_hash,rows.new_definition_hash,CONVERT(DECIMAL(20,0),rows.changed_epoch_id),rows.clock_quality,CONVERT(DECIMAL(20,0),rows.produced_count),rows.cold_start", system_values.as_str()));
    }
    if operators > 0 {
        statements.push(joined_insert(schema, "operator_activity", "action,action_id,actor,workstation,role,authorization_result,reason,context_references", "rows.action,rows.action_id,rows.actor,rows.workstation,rows.role,rows.authorization_result,rows.reason,rows.context_references", operator_values.as_str()));
    }
    if recipes > 0 {
        statements.push(joined_insert(schema, "recipe_history", "action,recipe_id,recipe_version,batch_id,actor,authorization_result", "rows.action,rows.recipe_id,rows.recipe_version,rows.batch_id,rows.actor,rows.authorization_result", recipe_values.as_str()));
    }
    proof {
        assert(crate::line_protocol::texts(statements@) =~= repeated_statements(
            schema@,
            alarms as nat,
            systems as nat,
            operators as nat,
            recipes as nat,
        ));
    }
    let mut out = String::new();
    crate::line_protocol::push_joined(&mut out, &statements, ";");
    out
}

// ---------------------------------------------------------------------------
// Checkpoint

/// The merge that makes the batch checkpoint durable and commits.
pub open spec fn checkpoint_merge_text(schema: Seq<char>, c: PersistenceCheckpoint) -> Seq<char> {
    "MERGE ["@ + schema
        + "].logging_checkpoint WITH(HOLDLOCK) AS t USING(SELECT CAST(1 AS BIT) singleton,"@ + decimal(
        c.buffer_id as nat,
    ) + " buffer_id,0x"@ + hex_fixed(c.run_id as nat, 16) + " run_id,0x"@ + hex_fixed(
        c.cursor_abs as nat,
        16,
    )
        + " cursor_abs) AS x ON t.singleton=x.singleton WHEN MATCHED THEN UPDATE SET buffer_id=x.buffer_id,run_id=x.run_id,cursor_abs=x.cursor_abs WHEN NOT MATCHED THEN INSERT(singleton,buffer_id,run_id,cursor_abs) VALUES(x.singleton,x.buffer_id,x.run_id,x.cursor_abs); COMMIT TRANSACTION;"@
}

pub fn checkpoint_merge(schema: &str, c: PersistenceCheckpoint) -> (r: String)
    ensures
        r@ == checkpoint_merge_text(schema@, c),
{
    let mut out = String::new();
    out.append("MERGE [");
    out.append(schema);
    out.append("].logging_checkpoint WITH(HOLDLOCK) AS t USING(SELECT CAST(1 AS BIT) singleton,");
    push_decimal(&mut out, c.buffer_id as u64);
    out.append(" buffer_id,0x");
    push_hex_fixed(&mut out, c.run_id, 16);
    out.append(" run_id,0x");
    push_hex_fixed(&mut out, c.cursor_abs, 16);
    out.append(
        " cursor_abs) AS x ON t.singleton=x.singleton WHEN MATCHED THEN UPDATE SET buffer_id=x.buffer_id,run_id=x.run_id,cursor_abs=x.cursor_abs WHEN NOT MATCHED THEN INSERT(singleton,buffer_id,run_id,cursor_abs) VALUES(x.singleton,x.buffer_id,x.run_id,x.cursor_abs); COMMIT TRANSACTION;",
    );
    out
}

} // verus!
