//! The InfluxDB 3 points of one projected document: the canonical record
//! point, the event-log point, one point per logged value and one per
//! domain row, joined by newlines.

use vstd::prelude::*;
use crate::contracts::{be_value, decode_u64, PersistenceError};
use crate::line_protocol::{
    bool_field, custom_line, custom_line_text, escape_field, escape_field_text, escape_tag,
    escape_tag_text, float_field, join, line_matches, opt_bool, opt_float, opt_signed, opt_text,
    opt_uint, opt_uint16, opt_unsigned_text, push_joined, signed_field, texts, text_field,
    uint_field, unsigned_text_field,
};
use crate::line_protocol as lp;
use crate::rows::{
    AlarmRow, AuditRow, BatchRow, DocumentRow, DomainRow, EventLogRow, LoggedValueRow, LossRow,
    MaterialRow, MessageRow, OperatorRow, ProjectedDocument, RecipeRow, SignatureRow, StateRow,
    SystemRow, TypedDisplay, UnresolvedRow,
};
use crate::text::{decimal, push_decimal};

verus! {

/// The columns every record point carries after its times and source.
pub open spec fn record_columns(
    source_path: Seq<char>,
    source_hierarchy: Seq<char>,
    buffer_id: u32,
    epoch_id: Seq<char>,
    sequence: Seq<char>,
    definition_hash: Seq<char>,
    time_unsynced: bool,
    synthetic_record: bool,
    partial_payload: bool,
) -> Seq<Seq<char>> {
    seq![
        text_field("source_path"@, source_path),
        text_field("source_hierarchy"@, source_hierarchy),
        uint_field("buffer_id"@, buffer_id as nat),
        unsigned_text_field("epoch_id"@, epoch_id),
        unsigned_text_field("sequence"@, sequence),
        text_field("definition_hash"@, definition_hash),
        bool_field("time_unsynced"@, time_unsynced),
        bool_field("synthetic_record"@, synthetic_record),
        bool_field("partial_payload"@, partial_payload),
    ]
}

fn push_record_columns(
    fields: &mut Vec<String>,
    source_path: &str,
    source_hierarchy: &str,
    buffer_id: u32,
    epoch_id: &str,
    sequence: &str,
    definition_hash: &str,
    time_unsynced: bool,
    synthetic_record: bool,
    partial_payload: bool,
)
    ensures
        texts(final(fields)@) == texts(old(fields)@) + record_columns(
            source_path@,
            source_hierarchy@,
            buffer_id,
            epoch_id@,
            sequence@,
            definition_hash@,
            time_unsynced,
            synthetic_record,
            partial_payload,
        ),
{
    lp::push_text(fields, "source_path", source_path);
    lp::push_text(fields, "source_hierarchy", source_hierarchy);
    lp::push_uint(fields, "buffer_id", buffer_id as u64);
    lp::push_unsigned_text(fields, "epoch_id", epoch_id);
    lp::push_unsigned_text(fields, "sequence", sequence);
    lp::push_text(fields, "definition_hash", definition_hash);
    lp::push_bool(fields, "time_unsynced", time_unsynced);
    lp::push_bool(fields, "synthetic_record", synthetic_record);
    lp::push_bool(fields, "partial_payload", partial_payload);
    assert(texts(final(fields)@) =~= texts(old(fields)@) + record_columns(
        source_path@,
        source_hierarchy@,
        buffer_id,
        epoch_id@,
        sequence@,
        definition_hash@,
        time_unsynced,
        synthetic_record,
        partial_payload,
    ));
}

/// The times and source of a record point.
pub open spec fn time_columns(
    event_time: Option<String>,
    event_time_ns: Option<String>,
    received_time: Seq<char>,
    received_time_ns: Seq<char>,
    source: Option<String>,
) -> Seq<Seq<char>> {
    opt_text("event_time"@, event_time) + opt_unsigned_text("event_time_ns"@, event_time_ns) + seq![
        text_field("received_time"@, received_time),
        unsigned_text_field("received_time_ns"@, received_time_ns),
    ] + opt_text("source"@, source)
}

fn push_time_columns(
    fields: &mut Vec<String>,
    event_time: &Option<String>,
    event_time_ns: &Option<String>,
    received_time: &str,
    received_time_ns: &str,
    source: &Option<String>,
)
    ensures
        texts(final(fields)@) == texts(old(fields)@) + time_columns(
            *event_time,
            *event_time_ns,
            received_time@,
            received_time_ns@,
            *source,
        ),
{
    lp::push_opt_text(fields, "event_time", event_time);
    lp::push_opt_unsigned_text(fields, "event_time_ns", event_time_ns);
    let ghost a = texts(fields@);
    lp::push_text(fields, "received_time", received_time);
    lp::push_unsigned_text(fields, "received_time_ns", received_time_ns);
    let ghost b = texts(fields@);
    assert(b =~= a + seq![
        text_field("received_time"@, received_time@),
        unsigned_text_field("received_time_ns"@, received_time_ns@),
    ]);
    lp::push_opt_text(fields, "source", source);
    assert(texts(final(fields)@) =~= texts(old(fields)@) + time_columns(
        *event_time,
        *event_time_ns,
        received_time@,
        received_time_ns@,
        *source,
    ));
}

/// The shared event-log fields that follow a point's own fields.
pub open spec fn event_fields(row: EventLogRow, fields: Seq<Seq<char>>) -> Seq<Seq<char>> {
    fields + time_columns(
        row.event_time,
        row.event_time_ns,
        row.received_time@,
        row.received_time_ns@,
        row.source,
    ) + record_columns(
        row.source_path@,
        row.source_hierarchy@,
        row.buffer_id,
        row.epoch_id@,
        row.sequence@,
        row.definition_hash@,
        row.time_unsynced,
        row.synthetic_record,
        row.partial_payload,
    )
}

/// A point's time: the source time when the event carries one, else the
/// receive time.
pub open spec fn point_time(event_time_ns: Option<String>, received_time_ns: String) -> Seq<char> {
    match event_time_ns {
        Some(t) => t@,
        None => received_time_ns@,
    }
}

/// The point of an event-derived row.
pub open spec fn event_line_text(
    measurement: Seq<char>,
    row: EventLogRow,
    part: Seq<char>,
    fields: Seq<Seq<char>>,
) -> Result<Seq<char>, Seq<char>> {
    custom_line_text(
        measurement,
        row.record_id@,
        row.run_id@,
        row.source_id,
        part,
        event_fields(row, fields),
        point_time(row.event_time_ns, row.received_time_ns),
    )
}

/// Builds the point of an event-derived row from its own fields.
pub fn event_line(measurement: &str, row: &EventLogRow, part: &str, fields: Vec<String>) -> (r: Result<
    String,
    PersistenceError,
>)
    ensures
        line_matches(r, event_line_text(measurement@, *row, part@, texts(fields@))),
{
    let mut fields = fields;
    let ghost own = texts(fields@);
    push_time_columns(
        &mut fields,
        &row.event_time,
        &row.event_time_ns,
        row.received_time.as_str(),
        row.received_time_ns.as_str(),
        &row.source,
    );
    push_record_columns(
        &mut fields,
        row.source_path.as_str(),
        row.source_hierarchy.as_str(),
        row.buffer_id,
        row.epoch_id.as_str(),
        row.sequence.as_str(),
        row.definition_hash.as_str(),
        row.time_unsynced,
        row.synthetic_record,
        row.partial_payload,
    );
    assert(texts(fields@) =~= event_fields(*row, own));
    let time = match &row.event_time_ns {
        Some(t) => t.as_str(),
        None => row.received_time_ns.as_str(),
    };
    custom_line(
        measurement,
        row.record_id.as_str(),
        row.run_id.as_str(),
        row.source_id,
        part,
        &fields,
        time,
    )
}

/// The canonical record point: identity and kind tags, the escaped
/// canonical JSON, buffer and source, at the receive time.
pub open spec fn canonical_line_text(row: DocumentRow) -> Result<Seq<char>, Seq<char>> {
    let t = be_value(row.receive_time_ns@);
    if t > i64::MAX as nat {
        Err("InfluxDB 3 timestamp exceeds signed nanosecond range"@)
    } else {
        Ok(
            "logging_records,identity_key="@ + escape_tag_text(row.identity_key@) + ",document_kind="@
                + escape_tag_text(row.document_kind@) + " canonical_json=\""@ + escape_field_text(
                row.canonical_json@,
            ) + "\",buffer_id="@ + decimal(row.buffer_id as nat) + "u,source_id="@ + decimal(
                row.source_id as nat,
            ) + "u "@ + decimal(t),
        )
    }
}

/// Builds the canonical record point.
pub fn canonical_line_protocol(row: &DocumentRow) -> (r: Result<String, PersistenceError>)
    ensures
        line_matches(r, canonical_line_text(*row)),
{
    let timestamp = match decode_u64(row.receive_time_ns.as_slice(), "InfluxDB 3", "receive time") {
        Ok(t) => t,
        Err(e) => return Err(e),
    };
    if timestamp > 9223372036854775807u64 {
        let mut m = String::new();
        m.append("InfluxDB 3 timestamp exceeds signed nanosecond range");
        return Err(PersistenceError::Commit(m));
    }
    let mut out = String::new();
    out.append("logging_records,identity_key=");
    let key = escape_tag(row.identity_key.as_str());
    out.append(key.as_str());
    out.append(",document_kind=");
    let kind = escape_tag(row.document_kind.as_str());
    out.append(kind.as_str());
    out.append(" canonical_json=\"");
    let json = escape_field(row.canonical_json.as_str());
    out.append(json.as_str());
    out.append("\",buffer_id=");
    push_decimal(&mut out, row.buffer_id as u64);
    out.append("u,source_id=");
    push_decimal(&mut out, row.source_id as u64);
    out.append("u ");
    push_decimal(&mut out, timestamp);
    Ok(out)
}

/// The point of the event-log row.
pub open spec fn event_row_line_text(e: EventLogRow) -> Result<Seq<char>, Seq<char>> {
    event_line_text(
        "event_log"@,
        e,
        "event"@,
        seq![
            uint_field("event_type_id"@, e.event_type_id as nat),
            text_field("event_name"@, e.event_name@),
            bool_field("has_unclassified_fields"@, e.has_unclassified_fields),
        ],
    )
}

/// The point of one logged value.
pub open spec fn value_line_text(v: LoggedValueRow) -> Result<Seq<char>, Seq<char>> {
    event_line_text(
        "logged_values"@,
        v.common,
        "value"@,
        seq![
            uint_field("value_id"@, v.value_id as nat),
            text_field("value_name"@, v.value_name@),
            text_field("value_type"@, v.value_type@),
            uint_field("semantic_role"@, v.semantic_role as nat),
            text_field("exact_value"@, v.exact_value@),
            bool_field("is_audited"@, v.is_audited),
        ] + opt_text("unit"@, v.unit) + opt_uint16("quality"@, v.quality) + opt_bool(
            "boolean_value"@,
            v.boolean_value,
        ) + opt_signed("signed_value"@, v.signed_value) + opt_unsigned_text(
            "unsigned_value"@,
            v.unsigned_value,
        ) + opt_float("number_value"@, v.number_value) + opt_text("text_value"@, v.text_value) + opt_bool(
            "previous_boolean_value"@,
            v.previous_boolean_value,
        ) + opt_signed("previous_signed_value"@, v.previous_signed_value) + opt_unsigned_text(
            "previous_unsigned_value"@,
            v.previous_unsigned_value,
        ) + opt_float("previous_number_value"@, v.previous_number_value) + opt_text(
            "previous_text_value"@,
            v.previous_text_value,
        ) + opt_text("previous_exact_value"@, v.previous_exact_value) + opt_text("actor"@, v.actor)
            + opt_text("reason"@, v.reason) + opt_text("authorization_result"@, v.authorization_result),
    )
}

fn event_row_line(e: &EventLogRow) -> (r: Result<String, PersistenceError>)
    ensures
        line_matches(r, event_row_line_text(*e)),
{
    let mut fields: Vec<String> = Vec::new();
    lp::push_uint(&mut fields, "event_type_id", e.event_type_id as u64);
    lp::push_text(&mut fields, "event_name", e.event_name.as_str());
    lp::push_bool(&mut fields, "has_unclassified_fields", e.has_unclassified_fields);
    assert(texts(fields@) =~= seq![
        uint_field("event_type_id"@, e.event_type_id as nat),
        text_field("event_name"@, e.event_name@),
        bool_field("has_unclassified_fields"@, e.has_unclassified_fields),
    ]);
    event_line("event_log", e, "event", fields)
}

fn value_line(v: &LoggedValueRow) -> (r: Result<String, PersistenceError>)
    ensures
        line_matches(r, value_line_text(*v)),
{
    let mut fields: Vec<String> = Vec::new();
    lp::push_uint(&mut fields, "value_id", v.value_id as u64);
    lp::push_text(&mut fields, "value_name", v.value_name.as_str());
    lp::push_text(&mut fields, "value_type", v.value_type.as_str());
    lp::push_uint(&mut fields, "semantic_role", v.semantic_role as u64);
    lp::push_text(&mut fields, "exact_value", v.exact_value.as_str());
    lp::push_bool(&mut fields, "is_audited", v.is_audited);
    let ghost head = texts(fields@);
    assert(head =~= seq![
        uint_field("value_id"@, v.value_id as nat),
        text_field("value_name"@, v.value_name@),
        text_field("value_type"@, v.value_type@),
        uint_field("semantic_role"@, v.semantic_role as nat),
        text_field("exact_value"@, v.exact_value@),
        bool_field("is_audited"@, v.is_audited),
    ]);
    lp::push_opt_text(&mut fields, "unit", &v.unit);
    lp::push_opt_uint16(&mut fields, "quality", v.quality);
    lp::push_opt_bool(&mut fields, "boolean_value", v.boolean_value);
    lp::push_opt_signed(&mut fields, "signed_value", v.signed_value);
    lp::push_opt_unsigned_text(&mut fields, "unsigned_value", &v.unsigned_value);
    lp::push_opt_float(&mut fields, "number_value", &v.number_value);
    lp::push_opt_text(&mut fields, "text_value", &v.text_value);
    lp::push_opt_bool(&mut fields, "previous_boolean_value", v.previous_boolean_value);
    lp::push_opt_signed(&mut fields, "previous_signed_value", v.previous_signed_value);
    lp::push_opt_unsigned_text(&mut fields, "previous_unsigned_value", &v.previous_unsigned_value);
    lp::push_opt_float(&mut fields, "previous_number_value", &v.previous_number_value);
    lp::push_opt_text(&mut fields, "previous_text_value", &v.previous_text_value);
    lp::push_opt_text(&mut fields, "previous_exact_value", &v.previous_exact_value);
    lp::push_opt_text(&mut fields, "actor", &v.actor);
    lp::push_opt_text(&mut fields, "reason", &v.reason);
    lp::push_opt_text(&mut fields, "authorization_result", &v.authorization_result);
    event_line("logged_values", &v.common, "value", fields)
}


/// The fields of a message's arguments: `argN_type` and `argN_value` for
/// the N-th argument, counting from one.
pub open spec fn args_fields(args: Seq<TypedDisplay>) -> Seq<Seq<char>>
    decreases args.len(),
{
    if args.len() == 0 {
        Seq::empty()
    } else {
        args_fields(args.drop_last()) + seq![
            text_field("arg"@ + decimal(args.len()) + "_type"@, args.last().declared_type@),
            text_field("arg"@ + decimal(args.len()) + "_value"@, args.last().display@),
        ]
    }
}

/// The own fields of each event-derived domain point.
pub open spec fn alarm_fields(r: AlarmRow) -> Seq<Seq<char>> {
    seq![
        text_field("condition"@, r.condition@),
        text_field("lifecycle_action"@, r.lifecycle_action@),
    ] + opt_text("condition_class"@, r.condition_class) + opt_text("correlation_id"@, r.correlation_id)
        + opt_uint16("severity"@, r.severity) + opt_text("severity_label"@, r.severity_label)
        + opt_text("cause"@, r.cause) + opt_text("actor"@, r.actor) + opt_text("reason"@, r.reason)
        + opt_text("comment"@, r.comment) + opt_uint("shelve_seconds"@, r.shelve_seconds)
        + opt_uint16("previous_priority"@, r.previous_priority) + opt_uint16("new_priority"@, r.new_priority)
}

pub open spec fn message_fields(r: MessageRow) -> Seq<Seq<char>> {
    seq![text_field("message_template"@, r.message_template@)] + opt_uint16("severity"@, r.severity)
        + opt_text("severity_label"@, r.severity_label) + args_fields(r.args@)
}

pub open spec fn state_fields(r: StateRow) -> Seq<Seq<char>> {
    seq![
        text_field("state_machine"@, r.state_machine@),
        text_field("state_category"@, r.state_category@),
        text_field("previous_state"@, r.previous_state@),
    ] + opt_text("previous_state_label"@, r.previous_state_label) + seq![text_field("new_state"@, r.new_state@)]
        + opt_text("new_state_label"@, r.new_state_label)
}

pub open spec fn batch_fields(r: BatchRow) -> Seq<Seq<char>> {
    seq![text_field("batch_id"@, r.batch_id@)] + opt_text("recipe_id"@, r.recipe_id) + opt_text(
        "previous_state"@,
        r.previous_state,
    ) + seq![text_field("new_state"@, r.new_state@)] + opt_text("new_state_label"@, r.new_state_label)
}

pub open spec fn recipe_fields(r: RecipeRow) -> Seq<Seq<char>> {
    seq![text_field("action"@, r.action@), text_field("recipe_id"@, r.recipe_id@)] + opt_text(
        "recipe_version"@,
        r.recipe_version,
    ) + opt_text("batch_id"@, r.batch_id) + opt_text("actor"@, r.actor) + opt_text(
        "authorization_result"@,
        r.authorization_result,
    )
}

pub open spec fn material_fields(r: MaterialRow) -> Seq<Seq<char>> {
    seq![
        text_field("batch_id"@, r.batch_id@),
        text_field("material_id"@, r.material_id@),
        float_field("quantity"@, r.quantity@),
        text_field("exact_quantity"@, r.exact_quantity@),
    ] + opt_text("unit"@, r.unit)
}

pub open spec fn operator_fields(r: OperatorRow) -> Seq<Seq<char>> {
    seq![text_field("action"@, r.action@)] + opt_text("action_id"@, r.action_id) + opt_text("actor"@, r.actor)
        + opt_text("workstation"@, r.workstation) + opt_text("role"@, r.role) + opt_text(
        "authorization_result"@,
        r.authorization_result,
    ) + opt_text("reason"@, r.reason) + opt_text("context_references"@, r.context_references)
}

pub open spec fn audit_fields(r: AuditRow) -> Seq<Seq<char>> {
    seq![
        text_field("action"@, r.action@),
        text_field("target"@, r.target@),
        text_field("actor"@, r.actor@),
        text_field("reason"@, r.reason@),
    ] + opt_text("authorization_result"@, r.authorization_result) + seq![
        text_field("value_type"@, r.value_type@),
        text_field("previous_value"@, r.previous_value@),
        text_field("current_value"@, r.current_value@),
    ] + opt_text("workstation"@, r.workstation)
}

pub open spec fn signature_fields(r: SignatureRow) -> Seq<Seq<char>> {
    seq![
        text_field("action_id"@, r.action_id@),
        text_field("actor"@, r.actor@),
        text_field("meaning"@, r.meaning@),
    ] + opt_text("authorization_result"@, r.authorization_result) + seq![
        uint_field("signed_source_id"@, r.signed_source_id as nat),
        unsigned_text_field("signed_sequence"@, r.signed_sequence@),
    ]
}

pub open spec fn system_fields(r: SystemRow) -> Seq<Seq<char>> {
    seq![text_field("event_name"@, r.event_name@)] + opt_uint("interval_ms"@, r.interval_ms)
        + opt_unsigned_text("sequence_base"@, r.sequence_base) + opt_unsigned_text("dropped_count"@, r.dropped_count)
        + opt_unsigned_text("first_sequence"@, r.first_sequence) + opt_unsigned_text("last_sequence"@, r.last_sequence)
        + opt_unsigned_text("registered_source_id"@, r.registered_source_id)
        + opt_text("previous_definition_hash"@, r.previous_definition_hash)
        + opt_text("new_definition_hash"@, r.new_definition_hash)
        + opt_unsigned_text("changed_epoch_id"@, r.changed_epoch_id) + opt_text("clock_quality"@, r.clock_quality)
        + opt_unsigned_text("produced_count"@, r.produced_count) + opt_bool("cold_start"@, r.cold_start)
}

fn push_args(fields: &mut Vec<String>, args: &Vec<TypedDisplay>)
    ensures
        texts(final(fields)@) == texts(old(fields)@) + args_fields(args@),
{
    let mut i: usize = 0;
    assert(args@.take(0) =~= Seq::<TypedDisplay>::empty());
    assert(texts(fields@) =~= texts(old(fields)@) + args_fields(args@.take(0)));
    while i < args.len()
        invariant
            i <= args.len(),
            texts(fields@) == texts(old(fields)@) + args_fields(args@.take(i as int)),
        decreases args.len() - i,
    {
        let mut type_key = String::new();
        type_key.append("arg");
        push_decimal(&mut type_key, (i + 1) as u64);
        type_key.append("_type");
        let mut value_name = String::new();
        value_name.append("arg");
        push_decimal(&mut value_name, (i + 1) as u64);
        value_name.append("_value");
        lp::push_text(fields, type_key.as_str(), args[i].declared_type.as_str());
        lp::push_text(fields, value_name.as_str(), args[i].display.as_str());
        proof {
            let next = args@.take(i + 1);
            assert(next.drop_last() =~= args@.take(i as int));
            assert(next.len() == i + 1);
            assert(texts(fields@) =~= texts(old(fields)@) + args_fields(next));
        }
        i = i + 1;
    }
    assert(args@.take(args.len() as int) =~= args@);
}

fn alarm_line(r: &AlarmRow) -> (res: Result<String, PersistenceError>)
    ensures
        line_matches(res, event_line_text("alarm_history"@, r.common, "alarm"@, alarm_fields(*r))),
{
    let mut fields: Vec<String> = Vec::new();
    lp::push_text(&mut fields, "condition", r.condition.as_str());
    lp::push_text(&mut fields, "lifecycle_action", r.lifecycle_action.as_str());
    assert(texts(fields@) =~= seq![
        text_field("condition"@, r.condition@),
        text_field("lifecycle_action"@, r.lifecycle_action@),
    ]);
    lp::push_opt_text(&mut fields, "condition_class", &r.condition_class);
    lp::push_opt_text(&mut fields, "correlation_id", &r.correlation_id);
    lp::push_opt_uint16(&mut fields, "severity", r.severity);
    lp::push_opt_text(&mut fields, "severity_label", &r.severity_label);
    lp::push_opt_text(&mut fields, "cause", &r.cause);
    lp::push_opt_text(&mut fields, "actor", &r.actor);
    lp::push_opt_text(&mut fields, "reason", &r.reason);
    lp::push_opt_text(&mut fields, "comment", &r.comment);
    lp::push_opt_uint(&mut fields, "shelve_seconds", r.shelve_seconds);
    lp::push_opt_uint16(&mut fields, "previous_priority", r.previous_priority);
    lp::push_opt_uint16(&mut fields, "new_priority", r.new_priority);
    event_line("alarm_history", &r.common, "alarm", fields)
}

fn message_line(r: &MessageRow) -> (res: Result<String, PersistenceError>)
    ensures
        line_matches(res, event_line_text("message_log"@, r.common, "message"@, message_fields(*r))),
{
    let mut fields: Vec<String> = Vec::new();
    lp::push_text(&mut fields, "message_template", r.message_template.as_str());
    assert(texts(fields@) =~= seq![text_field("message_template"@, r.message_template@)]);
    lp::push_opt_uint16(&mut fields, "severity", r.severity);
    lp::push_opt_text(&mut fields, "severity_label", &r.severity_label);
    push_args(&mut fields, &r.args);
    event_line("message_log", &r.common, "message", fields)
}

fn state_line(r: &StateRow) -> (res: Result<String, PersistenceError>)
    ensures
        line_matches(res, event_line_text("state_history"@, r.common, "state"@, state_fields(*r))),
{
    let mut fields: Vec<String> = Vec::new();
    lp::push_text(&mut fields, "state_machine", r.state_machine.as_str());
    lp::push_text(&mut fields, "state_category", r.state_category.as_str());
    lp::push_text(&mut fields, "previous_state", r.previous_state.as_str());
    assert(texts(fields@) =~= seq![
        text_field("state_machine"@, r.state_machine@),
        text_field("state_category"@, r.state_category@),
        text_field("previous_state"@, r.previous_state@),
    ]);
    lp::push_opt_text(&mut fields, "previous_state_label", &r.previous_state_label);
    lp::push_text(&mut fields, "new_state", r.new_state.as_str());
    lp::push_opt_text(&mut fields, "new_state_label", &r.new_state_label);
    assert(texts(fields@) =~= state_fields(*r));
    event_line("state_history", &r.common, "state", fields)
}

fn batch_line(r: &BatchRow) -> (res: Result<String, PersistenceError>)
    ensures
        line_matches(res, event_line_text("batch_history"@, r.common, "batch"@, batch_fields(*r))),
{
    let mut fields: Vec<String> = Vec::new();
    lp::push_text(&mut fields, "batch_id", r.batch_id.as_str());
    assert(texts(fields@) =~= seq![text_field("batch_id"@, r.batch_id@)]);
    lp::push_opt_text(&mut fields, "recipe_id", &r.recipe_id);
    lp::push_opt_text(&mut fields, "previous_state", &r.previous_state);
    lp::push_text(&mut fields, "new_state", r.new_state.as_str());
    lp::push_opt_text(&mut fields, "new_state_label", &r.new_state_label);
    assert(texts(fields@) =~= batch_fields(*r));
    event_line("batch_history", &r.common, "batch", fields)
}

fn recipe_line(r: &RecipeRow) -> (res: Result<String, PersistenceError>)
    ensures
        line_matches(res, event_line_text("recipe_history"@, r.common, "recipe"@, recipe_fields(*r))),
{
    let mut fields: Vec<String> = Vec::new();
    lp::push_text(&mut fields, "action", r.action.as_str());
    lp::push_text(&mut fields, "recipe_id", r.recipe_id.as_str());
    assert(texts(fields@) =~= seq![text_field("action"@, r.action@), text_field("recipe_id"@, r.recipe_id@)]);
    lp::push_opt_text(&mut fields, "recipe_version", &r.recipe_version);
    lp::push_opt_text(&mut fields, "batch_id", &r.batch_id);
    lp::push_opt_text(&mut fields, "actor", &r.actor);
    lp::push_opt_text(&mut fields, "authorization_result", &r.authorization_result);
    assert(texts(fields@) =~= recipe_fields(*r));
    event_line("recipe_history", &r.common, "recipe", fields)
}

fn material_line(r: &MaterialRow) -> (res: Result<String, PersistenceError>)
    ensures
        line_matches(res, event_line_text("material_additions"@, r.common, "material"@, material_fields(*r))),
{
    let mut fields: Vec<String> = Vec::new();
    lp::push_text(&mut fields, "batch_id", r.batch_id.as_str());
    lp::push_text(&mut fields, "material_id", r.material_id.as_str());
    lp::push_float(&mut fields, "quantity", r.quantity.as_str());
    lp::push_text(&mut fields, "exact_quantity", r.exact_quantity.as_str());
    assert(texts(fields@) =~= seq![
        text_field("batch_id"@, r.batch_id@),
        text_field("material_id"@, r.material_id@),
        float_field("quantity"@, r.quantity@),
        text_field("exact_quantity"@, r.exact_quantity@),
    ]);
    lp::push_opt_text(&mut fields, "unit", &r.unit);
    assert(texts(fields@) =~= material_fields(*r));
    event_line("material_additions", &r.common, "material", fields)
}

fn operator_line(r: &OperatorRow) -> (res: Result<String, PersistenceError>)
    ensures
        line_matches(res, event_line_text("operator_activity"@, r.common, "operator"@, operator_fields(*r))),
{
    let mut fields: Vec<String> = Vec::new();
    lp::push_text(&mut fields, "action", r.action.as_str());
    assert(texts(fields@) =~= seq![text_field("action"@, r.action@)]);
    lp::push_opt_text(&mut fields, "action_id", &r.action_id);
    lp::push_opt_text(&mut fields, "actor", &r.actor);
    lp::push_opt_text(&mut fields, "workstation", &r.workstation);
    lp::push_opt_text(&mut fields, "role", &r.role);
    lp::push_opt_text(&mut fields, "authorization_result", &r.authorization_result);
    lp::push_opt_text(&mut fields, "reason", &r.reason);
    lp::push_opt_text(&mut fields, "context_references", &r.context_references);
    assert(texts(fields@) =~= operator_fields(*r));
    event_line("operator_activity", &r.common, "operator", fields)
}

fn audit_line(r: &AuditRow) -> (res: Result<String, PersistenceError>)
    ensures
        line_matches(res, event_line_text("audit_log"@, r.common, "audit"@, audit_fields(*r))),
{
    let mut fields: Vec<String> = Vec::new();
    lp::push_text(&mut fields, "action", r.action.as_str());
    lp::push_text(&mut fields, "target", r.target.as_str());
    lp::push_text(&mut fields, "actor", r.actor.as_str());
    lp::push_text(&mut fields, "reason", r.reason.as_str());
    assert(texts(fields@) =~= seq![
        text_field("action"@, r.action@),
        text_field("target"@, r.target@),
        text_field("actor"@, r.actor@),
        text_field("reason"@, r.reason@),
    ]);
    lp::push_opt_text(&mut fields, "authorization_result", &r.authorization_result);
    let ghost mid = texts(fields@);
    lp::push_text(&mut fields, "value_type", r.value_type.as_str());
    lp::push_text(&mut fields, "previous_value", r.previous_value.as_str());
    lp::push_text(&mut fields, "current_value", r.current_value.as_str());
    assert(texts(fields@) =~= mid + seq![
        text_field("value_type"@, r.value_type@),
        text_field("previous_value"@, r.previous_value@),
        text_field("current_value"@, r.current_value@),
    ]);
    lp::push_opt_text(&mut fields, "workstation", &r.workstation);
    assert(texts(fields@) =~= audit_fields(*r));
    event_line("audit_log", &r.common, "audit", fields)
}

fn signature_line(r: &SignatureRow) -> (res: Result<String, PersistenceError>)
    ensures
        line_matches(res, event_line_text("electronic_signatures"@, r.common, "signature"@, signature_fields(*r))),
{
    let mut fields: Vec<String> = Vec::new();
    lp::push_text(&mut fields, "action_id", r.action_id.as_str());
    lp::push_text(&mut fields, "actor", r.actor.as_str());
    lp::push_text(&mut fields, "meaning", r.meaning.as_str());
    assert(texts(fields@) =~= seq![
        text_field("action_id"@, r.action_id@),
        text_field("actor"@, r.actor@),
        text_field("meaning"@, r.meaning@),
    ]);
    lp::push_opt_text(&mut fields, "authorization_result", &r.authorization_result);
    let ghost mid = texts(fields@);
    lp::push_uint(&mut fields, "signed_source_id", r.signed_source_id as u64);
    lp::push_unsigned_text(&mut fields, "signed_sequence", r.signed_sequence.as_str());
    assert(texts(fields@) =~= mid + seq![
        uint_field("signed_source_id"@, r.signed_source_id as nat),
        unsigned_text_field("signed_sequence"@, r.signed_sequence@),
    ]);
    assert(texts(fields@) =~= signature_fields(*r));
    event_line("electronic_signatures", &r.common, "signature", fields)
}

fn system_line(r: &SystemRow) -> (res: Result<String, PersistenceError>)
    ensures
        line_matches(res, event_line_text("system_events"@, r.common, "system"@, system_fields(*r))),
{
    let mut fields: Vec<String> = Vec::new();
    lp::push_text(&mut fields, "event_name", r.event_name.as_str());
    assert(texts(fields@) =~= seq![text_field("event_name"@, r.event_name@)]);
    lp::push_opt_uint(&mut fields, "interval_ms", r.interval_ms);
    lp::push_opt_unsigned_text(&mut fields, "sequence_base", &r.sequence_base);
    lp::push_opt_unsigned_text(&mut fields, "dropped_count", &r.dropped_count);
    lp::push_opt_unsigned_text(&mut fields, "first_sequence", &r.first_sequence);
    lp::push_opt_unsigned_text(&mut fields, "last_sequence", &r.last_sequence);
    lp::push_opt_unsigned_text(&mut fields, "registered_source_id", &r.registered_source_id);
    lp::push_opt_text(&mut fields, "previous_definition_hash", &r.previous_definition_hash);
    lp::push_opt_text(&mut fields, "new_definition_hash", &r.new_definition_hash);
    lp::push_opt_unsigned_text(&mut fields, "changed_epoch_id", &r.changed_epoch_id);
    lp::push_opt_text(&mut fields, "clock_quality", &r.clock_quality);
    lp::push_opt_unsigned_text(&mut fields, "produced_count", &r.produced_count);
    lp::push_opt_bool(&mut fields, "cold_start", r.cold_start);
    event_line("system_events", &r.common, "system", fields)
}

/// The fields of a loss point: the range, then the shared columns of a
/// record, whose sequence is the first lost one.
pub open spec fn loss_fields(r: LossRow) -> Seq<Seq<char>> {
    seq![
        unsigned_text_field("first_sequence"@, r.first_sequence@),
        unsigned_text_field("last_sequence"@, r.last_sequence@),
        unsigned_text_field("lost_count"@, r.lost_count@),
        text_field("basis"@, r.basis@),
    ] + time_columns(None, None, r.received_time@, r.received_time_ns@, r.source) + record_columns(
        r.source_path@,
        r.source_hierarchy@,
        r.buffer_id,
        r.epoch_id@,
        r.first_sequence@,
        r.definition_hash@,
        r.time_unsynced,
        r.synthetic_record,
        r.partial_payload,
    )
}

/// The fields of an unresolved-record point: its own, then the shared
/// columns of a record.
pub open spec fn unresolved_fields(r: UnresolvedRow) -> Seq<Seq<char>> {
    seq![uint_field("event_type_id"@, r.event_type_id as nat), text_field("reason"@, r.reason@)] + opt_text(
        "diagnostic_summary"@,
        r.diagnostic_summary,
    ) + time_columns(r.event_time, r.event_time_ns, r.received_time@, r.received_time_ns@, r.source)
        + record_columns(
        r.source_path@,
        r.source_hierarchy@,
        r.buffer_id,
        r.epoch_id@,
        r.sequence@,
        r.definition_hash@,
        r.time_unsynced,
        r.synthetic_record,
        r.partial_payload,
    )
}

/// The point of one domain row: event-derived rows carry the shared
/// event-log fields after their own; loss and unresolved rows carry their
/// own fields only, under the `projection` part tag.
#[verifier::opaque]
pub open spec fn domain_line_text(row: DomainRow) -> Result<Seq<char>, Seq<char>> {
    match row {
        DomainRow::Alarm(r) => event_line_text("alarm_history"@, r.common, "alarm"@, alarm_fields(r)),
        DomainRow::Message(r) => event_line_text("message_log"@, r.common, "message"@, message_fields(r)),
        DomainRow::State(r) => event_line_text("state_history"@, r.common, "state"@, state_fields(r)),
        DomainRow::Batch(r) => event_line_text("batch_history"@, r.common, "batch"@, batch_fields(r)),
        DomainRow::Recipe(r) => event_line_text("recipe_history"@, r.common, "recipe"@, recipe_fields(r)),
        DomainRow::Material(r) => event_line_text("material_additions"@, r.common, "material"@, material_fields(r)),
        DomainRow::Operator(r) => event_line_text("operator_activity"@, r.common, "operator"@, operator_fields(r)),
        DomainRow::Audit(r) => event_line_text("audit_log"@, r.common, "audit"@, audit_fields(r)),
        DomainRow::Signature(r) => event_line_text("electronic_signatures"@, r.common, "signature"@, signature_fields(r)),
        DomainRow::System(r) => event_line_text("system_events"@, r.common, "system"@, system_fields(r)),
        DomainRow::Loss(r) => custom_line_text(
            "data_loss"@,
            r.record_id@,
            r.run_id@,
            r.source_id,
            "projection"@,
            loss_fields(r),
            r.received_time_ns@,
        ),
        DomainRow::Unresolved(r) => custom_line_text(
            "unresolved_records"@,
            r.record_id@,
            r.run_id@,
            r.source_id,
            "projection"@,
            unresolved_fields(r),
            point_time(r.event_time_ns, r.received_time_ns),
        ),
    }
}

fn loss_line(r: &LossRow) -> (res: Result<String, PersistenceError>)
    ensures
        line_matches(
            res,
            custom_line_text("data_loss"@, r.record_id@, r.run_id@, r.source_id, "projection"@, loss_fields(*r), r.received_time_ns@),
        ),
{
    let mut fields: Vec<String> = Vec::new();
    lp::push_unsigned_text(&mut fields, "first_sequence", r.first_sequence.as_str());
    lp::push_unsigned_text(&mut fields, "last_sequence", r.last_sequence.as_str());
    lp::push_unsigned_text(&mut fields, "lost_count", r.lost_count.as_str());
    lp::push_text(&mut fields, "basis", r.basis.as_str());
    let ghost own = texts(fields@);
    push_time_columns(&mut fields, &None, &None, r.received_time.as_str(), r.received_time_ns.as_str(), &r.source);
    push_record_columns(
        &mut fields,
        r.source_path.as_str(),
        r.source_hierarchy.as_str(),
        r.buffer_id,
        r.epoch_id.as_str(),
        r.first_sequence.as_str(),
        r.definition_hash.as_str(),
        r.time_unsynced,
        r.synthetic_record,
        r.partial_payload,
    );
    assert(texts(fields@) =~= loss_fields(*r));
    custom_line("data_loss", r.record_id.as_str(), r.run_id.as_str(), r.source_id, "projection", &fields, r.received_time_ns.as_str())
}

fn unresolved_line(r: &UnresolvedRow) -> (res: Result<String, PersistenceError>)
    ensures
        line_matches(
            res,
            custom_line_text(
                "unresolved_records"@,
                r.record_id@,
                r.run_id@,
                r.source_id,
                "projection"@,
                unresolved_fields(*r),
                point_time(r.event_time_ns, r.received_time_ns),
            ),
        ),
{
    let mut fields: Vec<String> = Vec::new();
    lp::push_uint(&mut fields, "event_type_id", r.event_type_id as u64);
    lp::push_text(&mut fields, "reason", r.reason.as_str());
    lp::push_opt_text(&mut fields, "diagnostic_summary", &r.diagnostic_summary);
    push_time_columns(
        &mut fields,
        &r.event_time,
        &r.event_time_ns,
        r.received_time.as_str(),
        r.received_time_ns.as_str(),
        &r.source,
    );
    push_record_columns(
        &mut fields,
        r.source_path.as_str(),
        r.source_hierarchy.as_str(),
        r.buffer_id,
        r.epoch_id.as_str(),
        r.sequence.as_str(),
        r.definition_hash.as_str(),
        r.time_unsynced,
        r.synthetic_record,
        r.partial_payload,
    );
    assert(texts(fields@) =~= unresolved_fields(*r));
    let time = match &r.event_time_ns {
        Some(t) => t.as_str(),
        None => r.received_time_ns.as_str(),
    };
    custom_line("unresolved_records", r.record_id.as_str(), r.run_id.as_str(), r.source_id, "projection", &fields, time)
}

/// Builds the point of one domain row.
pub fn domain_line(row: &DomainRow) -> (r: Result<String, PersistenceError>)
    ensures
        line_matches(r, domain_line_text(*row)),
{
    proof {
        reveal(domain_line_text);
    }
    match row {
        DomainRow::Alarm(r) => alarm_line(r),
        DomainRow::Message(r) => message_line(r),
        DomainRow::State(r) => state_line(r),
        DomainRow::Batch(r) => batch_line(r),
        DomainRow::Recipe(r) => recipe_line(r),
        DomainRow::Material(r) => material_line(r),
        DomainRow::Operator(r) => operator_line(r),
        DomainRow::Audit(r) => audit_line(r),
        DomainRow::Signature(r) => signature_line(r),
        DomainRow::System(r) => system_line(r),
        DomainRow::Loss(r) => loss_line(r),
        DomainRow::Unresolved(r) => unresolved_line(r),
    }
}

/// Every point of a projected document, in order: canonical record, event
/// log, logged values, domain rows.
#[verifier::opaque]
pub open spec fn projected_lines(p: ProjectedDocument) -> Seq<Result<Seq<char>, Seq<char>>> {
    seq![canonical_line_text(p.canonical)] + (match p.event {
        Some(e) => seq![event_row_line_text(e)],
        None => Seq::empty(),
    }) + Seq::new(p.logged_values@.len(), |i: int| value_line_text(p.logged_values@[i])) + Seq::new(
        p.domains@.len(),
        |i: int| domain_line_text(p.domains@[i]),
    )
}

/// All lines when every one was built; else the first failure.
pub open spec fn first_failure(rs: Seq<Result<Seq<char>, Seq<char>>>) -> Result<Seq<Seq<char>>, Seq<char>>
    decreases rs.len(),
{
    if rs.len() == 0 {
        Ok(Seq::empty())
    } else {
        match first_failure(rs.drop_last()) {
            Err(e) => Err(e),
            Ok(ls) => match rs.last() {
                Ok(l) => Ok(ls.push(l)),
                Err(e) => Err(e),
            },
        }
    }
}

/// The line protocol of a projected document: its points joined by
/// newlines.
pub open spec fn line_protocol_text(p: ProjectedDocument) -> Result<Seq<char>, Seq<char>> {
    match first_failure(projected_lines(p)) {
        Ok(ls) => Ok(join(ls, "\n"@)),
        Err(e) => Err(e),
    }
}

proof fn lemma_projected_shape(p: ProjectedDocument)
    ensures
        ({
            let all = projected_lines(p);
            let values_at = if p.event is Some { 2int } else { 1int };
            let domains_at = values_at + p.logged_values@.len();
            &&& all.len() == domains_at + p.domains@.len()
            &&& all[0] == canonical_line_text(p.canonical)
            &&& (p.event matches Some(e) ==> all[1] == event_row_line_text(e))
            &&& forall|j: int|
                0 <= j < p.logged_values@.len() ==> all[values_at + j] == value_line_text(
                    #[trigger] p.logged_values@[j],
                )
            &&& forall|k: int|
                0 <= k < p.domains@.len() ==> all[domains_at + k] == domain_line_text(
                    #[trigger] p.domains@[k],
                )
        }),
{
    reveal(projected_lines);
    let values_at = if p.event is Some { 2int } else { 1int };
    let domains_at = values_at + p.logged_values@.len();
    let all = projected_lines(p);
    assert forall|j: int| 0 <= j < p.logged_values@.len() implies all[values_at + j] == value_line_text(
        #[trigger] p.logged_values@[j],
    ) by {
    }
    assert forall|k: int| 0 <= k < p.domains@.len() implies all[domains_at + k] == domain_line_text(
        #[trigger] p.domains@[k],
    ) by {
    }
}

proof fn lemma_failure_persists(rs: Seq<Result<Seq<char>, Seq<char>>>, n: int)
    requires
        0 <= n <= rs.len(),
        first_failure(rs.take(n)) is Err,
    ensures
        first_failure(rs) == first_failure(rs.take(n)),
    decreases rs.len(),
{
    if n < rs.len() {
        assert(rs.drop_last().take(n) =~= rs.take(n));
        lemma_failure_persists(rs.drop_last(), n);
    } else {
        assert(rs.take(n) =~= rs);
    }
}

proof fn lemma_extend(rs: Seq<Result<Seq<char>, Seq<char>>>, k: int, lines: Seq<Seq<char>>)
    requires
        0 <= k < rs.len(),
        first_failure(rs.take(k)) == Ok::<Seq<Seq<char>>, Seq<char>>(lines),
    ensures
        rs[k] matches Ok(l) ==> first_failure(rs.take(k + 1)) == Ok::<Seq<Seq<char>>, Seq<char>>(lines.push(l)),
        rs[k] matches Err(m) ==> first_failure(rs) == Err::<Seq<Seq<char>>, Seq<char>>(m),
{
    assert(rs.take(k + 1).drop_last() =~= rs.take(k));
    assert(rs.take(k + 1).last() == rs[k]);
    if rs[k] is Err {
        lemma_failure_persists(rs, k + 1);
    }
}

/// Takes one built line: keeps it, or hands back its failure.
fn accept_line(lines: &mut Vec<String>, r: Result<String, PersistenceError>) -> (failed: Option<PersistenceError>)
    ensures
        r matches Ok(s) ==> failed is None && final(lines)@ == old(lines)@.push(s),
        r matches Err(e) ==> failed == Some(e) && final(lines)@ == old(lines)@,
{
    match r {
        Ok(s) => {
            lines.push(s);
            None
        },
        Err(e) => Some(e),
    }
}

/// Builds the line protocol of a projected document.
pub fn line_protocol(projected: &ProjectedDocument) -> (r: Result<String, PersistenceError>)
    ensures
        line_matches(r, line_protocol_text(*projected)),
{
    let ghost all = projected_lines(*projected);
    let ghost values_at: int = if projected.event is Some { 2 } else { 1 };
    let ghost domains_at: int = values_at + projected.logged_values@.len();
    proof {
        lemma_projected_shape(*projected);
    }
    let mut lines: Vec<String> = Vec::new();
    assert(all.take(0) =~= Seq::<Result<Seq<char>, Seq<char>>>::empty());
    assert(texts(lines@) =~= Seq::<Seq<char>>::empty());

    let first = canonical_line_protocol(&projected.canonical);
    proof {
        lemma_extend(all, 0, texts(lines@));
    }
    let ghost before = lines@;
    if let Some(e) = accept_line(&mut lines, first) {
        return Err(e);
    }
    proof {
        lemma_texts_push_view(before, lines@);
    }
    match &projected.event {
        Some(event) => {
            let built = event_row_line(event);
            proof {
                lemma_extend(all, 1, texts(lines@));
            }
            let ghost before = lines@;
            if let Some(e) = accept_line(&mut lines, built) {
                return Err(e);
            }
            proof {
                lemma_texts_push_view(before, lines@);
            }
        },
        None => {},
    }
    assert(lines@.len() == values_at);
    let mut i: usize = 0;
    while i < projected.logged_values.len()
        invariant
            i <= projected.logged_values.len(),
            all == projected_lines(*projected),
            values_at + projected.logged_values@.len() == domains_at,
            all.len() == domains_at + projected.domains@.len(),
            lines@.len() == values_at + i,
            first_failure(all.take(lines@.len() as int)) == Ok::<Seq<Seq<char>>, Seq<char>>(texts(lines@)),
            forall|j: int| 0 <= j < projected.logged_values@.len() ==> all[values_at + j] == value_line_text(#[trigger] projected.logged_values@[j]),
        decreases projected.logged_values.len() - i,
    {
        let built = value_line(&projected.logged_values[i]);
        proof {
            lemma_extend(all, lines@.len() as int, texts(lines@));
        }
        let ghost before = lines@;
        if let Some(e) = accept_line(&mut lines, built) {
            return Err(e);
        }
        proof {
            lemma_texts_push_view(before, lines@);
        }
        i = i + 1;
    }
    let mut j: usize = 0;
    while j < projected.domains.len()
        invariant
            j <= projected.domains.len(),
            all == projected_lines(*projected),
            all.len() == domains_at + projected.domains@.len(),
            lines@.len() == domains_at + j,
            first_failure(all.take(lines@.len() as int)) == Ok::<Seq<Seq<char>>, Seq<char>>(texts(lines@)),
            forall|k: int| 0 <= k < projected.domains@.len() ==> all[domains_at + k] == domain_line_text(#[trigger] projected.domains@[k]),
        decreases projected.domains.len() - j,
    {
        let built = domain_line(&projected.domains[j]);
        proof {
            lemma_extend(all, lines@.len() as int, texts(lines@));
        }
        let ghost before = lines@;
        if let Some(e) = accept_line(&mut lines, built) {
            return Err(e);
        }
        proof {
            lemma_texts_push_view(before, lines@);
        }
        j = j + 1;
    }
    assert(all.take(all.len() as int) =~= all);
    let mut out = String::new();
    push_joined(&mut out, &lines, "\n");
    Ok(out)
}

proof fn lemma_texts_push_view(before: Seq<String>, after: Seq<String>)
    requires
        after.len() == before.len() + 1,
        forall|i: int| 0 <= i < before.len() ==> after[i] == before[i],
    ensures
        texts(after) == texts(before).push(after.last()@),
{
    assert(texts(after) =~= texts(before).push(after.last()@));
}

// ---------------------------------------------------------------------------
// Every field carries the row column it is named after

#[verifier::spinoff_prover]
proof fn lemma_alarm_fields_contents(r: AlarmRow)
    ensures
        ({
            let F = alarm_fields(r);
            &&& F.contains(text_field("condition"@, r.condition@))
            &&& F.contains(text_field("lifecycle_action"@, r.lifecycle_action@))
            &&& (r.condition_class matches Some(v) ==> F.contains(text_field("condition_class"@, v@)))
            &&& (r.correlation_id matches Some(v) ==> F.contains(text_field("correlation_id"@, v@)))
            &&& (r.severity matches Some(v) ==> F.contains(uint_field("severity"@, v as nat)))
            &&& (r.severity_label matches Some(v) ==> F.contains(text_field("severity_label"@, v@)))
            &&& (r.cause matches Some(v) ==> F.contains(text_field("cause"@, v@)))
            &&& (r.actor matches Some(v) ==> F.contains(text_field("actor"@, v@)))
            &&& (r.reason matches Some(v) ==> F.contains(text_field("reason"@, v@)))
            &&& (r.comment matches Some(v) ==> F.contains(text_field("comment"@, v@)))
            &&& (r.shelve_seconds matches Some(v) ==> F.contains(uint_field("shelve_seconds"@, v as nat)))
            &&& (r.previous_priority matches Some(v) ==> F.contains(uint_field("previous_priority"@, v as nat)))
            &&& (r.new_priority matches Some(v) ==> F.contains(uint_field("new_priority"@, v as nat)))
        }),
{
    broadcast use vstd::seq_lib::lemma_seq_concat_contains_all_elements;
    broadcast use vstd::seq_lib::lemma_seq_contains_after_push;
}

/// The alarm_history point of a row is its event point with the row's own fields,
/// and each of those fields carries the row column it is named after: a
/// required column always, an optional one whenever the row holds a value.
#[verifier::spinoff_prover]
pub proof fn law_alarm_point_carries_its_columns(r: AlarmRow)
    ensures
        domain_line_text(DomainRow::Alarm(r)) == event_line_text("alarm_history"@, r.common, "alarm"@, alarm_fields(r)),
        ({
            let F = alarm_fields(r);
            &&& F.contains(text_field("condition"@, r.condition@))
            &&& F.contains(text_field("lifecycle_action"@, r.lifecycle_action@))
            &&& (r.condition_class matches Some(v) ==> F.contains(text_field("condition_class"@, v@)))
            &&& (r.correlation_id matches Some(v) ==> F.contains(text_field("correlation_id"@, v@)))
            &&& (r.severity matches Some(v) ==> F.contains(uint_field("severity"@, v as nat)))
            &&& (r.severity_label matches Some(v) ==> F.contains(text_field("severity_label"@, v@)))
            &&& (r.cause matches Some(v) ==> F.contains(text_field("cause"@, v@)))
            &&& (r.actor matches Some(v) ==> F.contains(text_field("actor"@, v@)))
            &&& (r.reason matches Some(v) ==> F.contains(text_field("reason"@, v@)))
            &&& (r.comment matches Some(v) ==> F.contains(text_field("comment"@, v@)))
            &&& (r.shelve_seconds matches Some(v) ==> F.contains(uint_field("shelve_seconds"@, v as nat)))
            &&& (r.previous_priority matches Some(v) ==> F.contains(uint_field("previous_priority"@, v as nat)))
            &&& (r.new_priority matches Some(v) ==> F.contains(uint_field("new_priority"@, v as nat)))
        }),
{
    reveal(domain_line_text);
    lemma_alarm_fields_contents(r);
}

#[verifier::spinoff_prover]
proof fn lemma_message_fields_contents(r: MessageRow)
    ensures
        ({
            let F = message_fields(r);
            &&& F.contains(text_field("message_template"@, r.message_template@))
            &&& (r.severity matches Some(v) ==> F.contains(uint_field("severity"@, v as nat)))
            &&& (r.severity_label matches Some(v) ==> F.contains(text_field("severity_label"@, v@)))
        }),
{
    broadcast use vstd::seq_lib::lemma_seq_concat_contains_all_elements;
    broadcast use vstd::seq_lib::lemma_seq_contains_after_push;
}

/// The message_log point of a row is its event point with the row's own fields,
/// and each of those fields carries the row column it is named after: a
/// required column always, an optional one whenever the row holds a value.
#[verifier::spinoff_prover]
pub proof fn law_message_point_carries_its_columns(r: MessageRow)
    ensures
        domain_line_text(DomainRow::Message(r)) == event_line_text("message_log"@, r.common, "message"@, message_fields(r)),
        ({
            let F = message_fields(r);
            &&& F.contains(text_field("message_template"@, r.message_template@))
            &&& (r.severity matches Some(v) ==> F.contains(uint_field("severity"@, v as nat)))
            &&& (r.severity_label matches Some(v) ==> F.contains(text_field("severity_label"@, v@)))
        }),
{
    reveal(domain_line_text);
    lemma_message_fields_contents(r);
}

#[verifier::spinoff_prover]
proof fn lemma_state_fields_contents(r: StateRow)
    ensures
        ({
            let F = state_fields(r);
            &&& F.contains(text_field("state_machine"@, r.state_machine@))
            &&& F.contains(text_field("state_category"@, r.state_category@))
            &&& F.contains(text_field("previous_state"@, r.previous_state@))
            &&& F.contains(text_field("new_state"@, r.new_state@))
            &&& (r.previous_state_label matches Some(v) ==> F.contains(text_field("previous_state_label"@, v@)))
            &&& (r.new_state_label matches Some(v) ==> F.contains(text_field("new_state_label"@, v@)))
        }),
{
    broadcast use vstd::seq_lib::lemma_seq_concat_contains_all_elements;
    broadcast use vstd::seq_lib::lemma_seq_contains_after_push;
}

/// The state_history point of a row is its event point with the row's own fields,
/// and each of those fields carries the row column it is named after: a
/// required column always, an optional one whenever the row holds a value.
#[verifier::spinoff_prover]
pub proof fn law_state_point_carries_its_columns(r: StateRow)
    ensures
        domain_line_text(DomainRow::State(r)) == event_line_text("state_history"@, r.common, "state"@, state_fields(r)),
        ({
            let F = state_fields(r);
            &&& F.contains(text_field("state_machine"@, r.state_machine@))
            &&& F.contains(text_field("state_category"@, r.state_category@))
            &&& F.contains(text_field("previous_state"@, r.previous_state@))
            &&& F.contains(text_field("new_state"@, r.new_state@))
            &&& (r.previous_state_label matches Some(v) ==> F.contains(text_field("previous_state_label"@, v@)))
            &&& (r.new_state_label matches Some(v) ==> F.contains(text_field("new_state_label"@, v@)))
        }),
{
    reveal(domain_line_text);
    lemma_state_fields_contents(r);
}

#[verifier::spinoff_prover]
proof fn lemma_batch_fields_contents(r: BatchRow)
    ensures
        ({
            let F = batch_fields(r);
            &&& F.contains(text_field("batch_id"@, r.batch_id@))
            &&& F.contains(text_field("new_state"@, r.new_state@))
            &&& (r.recipe_id matches Some(v) ==> F.contains(text_field("recipe_id"@, v@)))
            &&& (r.previous_state matches Some(v) ==> F.contains(text_field("previous_state"@, v@)))
            &&& (r.new_state_label matches Some(v) ==> F.contains(text_field("new_state_label"@, v@)))
        }),
{
    broadcast use vstd::seq_lib::lemma_seq_concat_contains_all_elements;
    broadcast use vstd::seq_lib::lemma_seq_contains_after_push;
}

/// The batch_history point of a row is its event point with the row's own fields,
/// and each of those fields carries the row column it is named after: a
/// required column always, an optional one whenever the row holds a value.
#[verifier::spinoff_prover]
pub proof fn law_batch_point_carries_its_columns(r: BatchRow)
    ensures
        domain_line_text(DomainRow::Batch(r)) == event_line_text("batch_history"@, r.common, "batch"@, batch_fields(r)),
        ({
            let F = batch_fields(r);
            &&& F.contains(text_field("batch_id"@, r.batch_id@))
            &&& F.contains(text_field("new_state"@, r.new_state@))
            &&& (r.recipe_id matches Some(v) ==> F.contains(text_field("recipe_id"@, v@)))
            &&& (r.previous_state matches Some(v) ==> F.contains(text_field("previous_state"@, v@)))
            &&& (r.new_state_label matches Some(v) ==> F.contains(text_field("new_state_label"@, v@)))
        }),
{
    reveal(domain_line_text);
    lemma_batch_fields_contents(r);
}

#[verifier::spinoff_prover]
proof fn lemma_recipe_fields_contents(r: RecipeRow)
    ensures
        ({
            let F = recipe_fields(r);
            &&& F.contains(text_field("action"@, r.action@))
            &&& F.contains(text_field("recipe_id"@, r.recipe_id@))
            &&& (r.recipe_version matches Some(v) ==> F.contains(text_field("recipe_version"@, v@)))
            &&& (r.batch_id matches Some(v) ==> F.contains(text_field("batch_id"@, v@)))
            &&& (r.actor matches Some(v) ==> F.contains(text_field("actor"@, v@)))
            &&& (r.authorization_result matches Some(v) ==> F.contains(text_field("authorization_result"@, v@)))
        }),
{
    broadcast use vstd::seq_lib::lemma_seq_concat_contains_all_elements;
    broadcast use vstd::seq_lib::lemma_seq_contains_after_push;
}

/// The recipe_history point of a row is its event point with the row's own fields,
/// and each of those fields carries the row column it is named after: a
/// required column always, an optional one whenever the row holds a value.
#[verifier::spinoff_prover]
pub proof fn law_recipe_point_carries_its_columns(r: RecipeRow)
    ensures
        domain_line_text(DomainRow::Recipe(r)) == event_line_text("recipe_history"@, r.common, "recipe"@, recipe_fields(r)),
        ({
            let F = recipe_fields(r);
            &&& F.contains(text_field("action"@, r.action@))
            &&& F.contains(text_field("recipe_id"@, r.recipe_id@))
            &&& (r.recipe_version matches Some(v) ==> F.contains(text_field("recipe_version"@, v@)))
            &&& (r.batch_id matches Some(v) ==> F.contains(text_field("batch_id"@, v@)))
            &&& (r.actor matches Some(v) ==> F.contains(text_field("actor"@, v@)))
            &&& (r.authorization_result matches Some(v) ==> F.contains(text_field("authorization_result"@, v@)))
        }),
{
    reveal(domain_line_text);
    lemma_recipe_fields_contents(r);
}

#[verifier::spinoff_prover]
proof fn lemma_material_fields_contents(r: MaterialRow)
    ensures
        ({
            let F = material_fields(r);
            &&& F.contains(text_field("batch_id"@, r.batch_id@))
            &&& F.contains(text_field("material_id"@, r.material_id@))
            &&& F.contains(float_field("quantity"@, r.quantity@))
            &&& F.contains(text_field("exact_quantity"@, r.exact_quantity@))
            &&& (r.unit matches Some(v) ==> F.contains(text_field("unit"@, v@)))
        }),
{
    broadcast use vstd::seq_lib::lemma_seq_concat_contains_all_elements;
    broadcast use vstd::seq_lib::lemma_seq_contains_after_push;
}

/// The material_additions point of a row is its event point with the row's own fields,
/// and each of those fields carries the row column it is named after: a
/// required column always, an optional one whenever the row holds a value.
#[verifier::spinoff_prover]
pub proof fn law_material_point_carries_its_columns(r: MaterialRow)
    ensures
        domain_line_text(DomainRow::Material(r)) == event_line_text("material_additions"@, r.common, "material"@, material_fields(r)),
        ({
            let F = material_fields(r);
            &&& F.contains(text_field("batch_id"@, r.batch_id@))
            &&& F.contains(text_field("material_id"@, r.material_id@))
            &&& F.contains(float_field("quantity"@, r.quantity@))
            &&& F.contains(text_field("exact_quantity"@, r.exact_quantity@))
            &&& (r.unit matches Some(v) ==> F.contains(text_field("unit"@, v@)))
        }),
{
    reveal(domain_line_text);
    lemma_material_fields_contents(r);
}

#[verifier::spinoff_prover]
proof fn lemma_operator_fields_contents(r: OperatorRow)
    ensures
        ({
            let F = operator_fields(r);
            &&& F.contains(text_field("action"@, r.action@))
            &&& (r.action_id matches Some(v) ==> F.contains(text_field("action_id"@, v@)))
            &&& (r.actor matches Some(v) ==> F.contains(text_field("actor"@, v@)))
            &&& (r.workstation matches Some(v) ==> F.contains(text_field("workstation"@, v@)))
            &&& (r.role matches Some(v) ==> F.contains(text_field("role"@, v@)))
            &&& (r.authorization_result matches Some(v) ==> F.contains(text_field("authorization_result"@, v@)))
            &&& (r.reason matches Some(v) ==> F.contains(text_field("reason"@, v@)))
            &&& (r.context_references matches Some(v) ==> F.contains(text_field("context_references"@, v@)))
        }),
{
    broadcast use vstd::seq_lib::lemma_seq_concat_contains_all_elements;
    broadcast use vstd::seq_lib::lemma_seq_contains_after_push;
}

/// The operator_activity point of a row is its event point with the row's own fields,
/// and each of those fields carries the row column it is named after: a
/// required column always, an optional one whenever the row holds a value.
#[verifier::spinoff_prover]
pub proof fn law_operator_point_carries_its_columns(r: OperatorRow)
    ensures
        domain_line_text(DomainRow::Operator(r)) == event_line_text("operator_activity"@, r.common, "operator"@, operator_fields(r)),
        ({
            let F = operator_fields(r);
            &&& F.contains(text_field("action"@, r.action@))
            &&& (r.action_id matches Some(v) ==> F.contains(text_field("action_id"@, v@)))
            &&& (r.actor matches Some(v) ==> F.contains(text_field("actor"@, v@)))
            &&& (r.workstation matches Some(v) ==> F.contains(text_field("workstation"@, v@)))
            &&& (r.role matches Some(v) ==> F.contains(text_field("role"@, v@)))
            &&& (r.authorization_result matches Some(v) ==> F.contains(text_field("authorization_result"@, v@)))
            &&& (r.reason matches Some(v) ==> F.contains(text_field("reason"@, v@)))
            &&& (r.context_references matches Some(v) ==> F.contains(text_field("context_references"@, v@)))
        }),
{
    reveal(domain_line_text);
    lemma_operator_fields_contents(r);
}

#[verifier::spinoff_prover]
proof fn lemma_audit_fields_contents(r: AuditRow)
    ensures
        ({
            let F = audit_fields(r);
            &&& F.contains(text_field("action"@, r.action@))
            &&& F.contains(text_field("target"@, r.target@))
            &&& F.contains(text_field("actor"@, r.actor@))
            &&& F.contains(text_field("reason"@, r.reason@))
            &&& F.contains(text_field("value_type"@, r.value_type@))
            &&& F.contains(text_field("previous_value"@, r.previous_value@))
            &&& F.contains(text_field("current_value"@, r.current_value@))
            &&& (r.authorization_result matches Some(v) ==> F.contains(text_field("authorization_result"@, v@)))
            &&& (r.workstation matches Some(v) ==> F.contains(text_field("workstation"@, v@)))
        }),
{
    broadcast use vstd::seq_lib::lemma_seq_concat_contains_all_elements;
    broadcast use vstd::seq_lib::lemma_seq_contains_after_push;
}

/// The audit_log point of a row is its event point with the row's own fields,
/// and each of those fields carries the row column it is named after: a
/// required column always, an optional one whenever the row holds a value.
#[verifier::spinoff_prover]
pub proof fn law_audit_point_carries_its_columns(r: AuditRow)
    ensures
        domain_line_text(DomainRow::Audit(r)) == event_line_text("audit_log"@, r.common, "audit"@, audit_fields(r)),
        ({
            let F = audit_fields(r);
            &&& F.contains(text_field("action"@, r.action@))
            &&& F.contains(text_field("target"@, r.target@))
            &&& F.contains(text_field("actor"@, r.actor@))
            &&& F.contains(text_field("reason"@, r.reason@))
            &&& F.contains(text_field("value_type"@, r.value_type@))
            &&& F.contains(text_field("previous_value"@, r.previous_value@))
            &&& F.contains(text_field("current_value"@, r.current_value@))
            &&& (r.authorization_result matches Some(v) ==> F.contains(text_field("authorization_result"@, v@)))
            &&& (r.workstation matches Some(v) ==> F.contains(text_field("workstation"@, v@)))
        }),
{
    reveal(domain_line_text);
    lemma_audit_fields_contents(r);
}

#[verifier::spinoff_prover]
proof fn lemma_signature_fields_contents(r: SignatureRow)
    ensures
        ({
            let F = signature_fields(r);
            &&& F.contains(text_field("action_id"@, r.action_id@))
            &&& F.contains(text_field("actor"@, r.actor@))
            &&& F.contains(text_field("meaning"@, r.meaning@))
            &&& F.contains(uint_field("signed_source_id"@, r.signed_source_id as nat))
            &&& F.contains(unsigned_text_field("signed_sequence"@, r.signed_sequence@))
            &&& (r.authorization_result matches Some(v) ==> F.contains(text_field("authorization_result"@, v@)))
        }),
{
    broadcast use vstd::seq_lib::lemma_seq_concat_contains_all_elements;
    broadcast use vstd::seq_lib::lemma_seq_contains_after_push;
}

/// The electronic_signatures point of a row is its event point with the row's own fields,
/// and each of those fields carries the row column it is named after: a
/// required column always, an optional one whenever the row holds a value.
#[verifier::spinoff_prover]
pub proof fn law_signature_point_carries_its_columns(r: SignatureRow)
    ensures
        domain_line_text(DomainRow::Signature(r)) == event_line_text("electronic_signatures"@, r.common, "signature"@, signature_fields(r)),
        ({
            let F = signature_fields(r);
            &&& F.contains(text_field("action_id"@, r.action_id@))
            &&& F.contains(text_field("actor"@, r.actor@))
            &&& F.contains(text_field("meaning"@, r.meaning@))
            &&& F.contains(uint_field("signed_source_id"@, r.signed_source_id as nat))
            &&& F.contains(unsigned_text_field("signed_sequence"@, r.signed_sequence@))
            &&& (r.authorization_result matches Some(v) ==> F.contains(text_field("authorization_result"@, v@)))
        }),
{
    reveal(domain_line_text);
    lemma_signature_fields_contents(r);
}

#[verifier::spinoff_prover]
proof fn lemma_system_fields_contents(r: SystemRow)
    ensures
        ({
            let F = system_fields(r);
            &&& F.contains(text_field("event_name"@, r.event_name@))
            &&& (r.interval_ms matches Some(v) ==> F.contains(uint_field("interval_ms"@, v as nat)))
            &&& (r.sequence_base matches Some(v) ==> F.contains(unsigned_text_field("sequence_base"@, v@)))
            &&& (r.dropped_count matches Some(v) ==> F.contains(unsigned_text_field("dropped_count"@, v@)))
            &&& (r.first_sequence matches Some(v) ==> F.contains(unsigned_text_field("first_sequence"@, v@)))
            &&& (r.last_sequence matches Some(v) ==> F.contains(unsigned_text_field("last_sequence"@, v@)))
            &&& (r.registered_source_id matches Some(v) ==> F.contains(unsigned_text_field("registered_source_id"@, v@)))
            &&& (r.previous_definition_hash matches Some(v) ==> F.contains(text_field("previous_definition_hash"@, v@)))
            &&& (r.new_definition_hash matches Some(v) ==> F.contains(text_field("new_definition_hash"@, v@)))
            &&& (r.changed_epoch_id matches Some(v) ==> F.contains(unsigned_text_field("changed_epoch_id"@, v@)))
            &&& (r.clock_quality matches Some(v) ==> F.contains(text_field("clock_quality"@, v@)))
            &&& (r.produced_count matches Some(v) ==> F.contains(unsigned_text_field("produced_count"@, v@)))
            &&& (r.cold_start matches Some(v) ==> F.contains(bool_field("cold_start"@, v)))
        }),
{
    broadcast use vstd::seq_lib::lemma_seq_concat_contains_all_elements;
    broadcast use vstd::seq_lib::lemma_seq_contains_after_push;
}

/// The system_events point of a row is its event point with the row's own fields,
/// and each of those fields carries the row column it is named after: a
/// required column always, an optional one whenever the row holds a value.
#[verifier::spinoff_prover]
pub proof fn law_system_point_carries_its_columns(r: SystemRow)
    ensures
        domain_line_text(DomainRow::System(r)) == event_line_text("system_events"@, r.common, "system"@, system_fields(r)),
        ({
            let F = system_fields(r);
            &&& F.contains(text_field("event_name"@, r.event_name@))
            &&& (r.interval_ms matches Some(v) ==> F.contains(uint_field("interval_ms"@, v as nat)))
            &&& (r.sequence_base matches Some(v) ==> F.contains(unsigned_text_field("sequence_base"@, v@)))
            &&& (r.dropped_count matches Some(v) ==> F.contains(unsigned_text_field("dropped_count"@, v@)))
            &&& (r.first_sequence matches Some(v) ==> F.contains(unsigned_text_field("first_sequence"@, v@)))
            &&& (r.last_sequence matches Some(v) ==> F.contains(unsigned_text_field("last_sequence"@, v@)))
            &&& (r.registered_source_id matches Some(v) ==> F.contains(unsigned_text_field("registered_source_id"@, v@)))
            &&& (r.previous_definition_hash matches Some(v) ==> F.contains(text_field("previous_definition_hash"@, v@)))
            &&& (r.new_definition_hash matches Some(v) ==> F.contains(text_field("new_definition_hash"@, v@)))
            &&& (r.changed_epoch_id matches Some(v) ==> F.contains(unsigned_text_field("changed_epoch_id"@, v@)))
            &&& (r.clock_quality matches Some(v) ==> F.contains(text_field("clock_quality"@, v@)))
            &&& (r.produced_count matches Some(v) ==> F.contains(unsigned_text_field("produced_count"@, v@)))
            &&& (r.cold_start matches Some(v) ==> F.contains(bool_field("cold_start"@, v)))
        }),
{
    reveal(domain_line_text);
    lemma_system_fields_contents(r);
}

#[verifier::spinoff_prover]
proof fn lemma_loss_fields_contents(r: LossRow)
    ensures
        ({
            let F = loss_fields(r);
            &&& F.contains(unsigned_text_field("first_sequence"@, r.first_sequence@))
            &&& F.contains(unsigned_text_field("last_sequence"@, r.last_sequence@))
            &&& F.contains(unsigned_text_field("lost_count"@, r.lost_count@))
            &&& F.contains(text_field("basis"@, r.basis@))
            &&& F.contains(text_field("received_time"@, r.received_time@))
            &&& F.contains(unsigned_text_field("received_time_ns"@, r.received_time_ns@))
            &&& (r.source matches Some(v) ==> F.contains(text_field("source"@, v@)))
            &&& F.contains(text_field("source_path"@, r.source_path@))
            &&& F.contains(text_field("source_hierarchy"@, r.source_hierarchy@))
            &&& F.contains(uint_field("buffer_id"@, r.buffer_id as nat))
            &&& F.contains(unsigned_text_field("epoch_id"@, r.epoch_id@))
            &&& F.contains(text_field("definition_hash"@, r.definition_hash@))
            &&& F.contains(bool_field("time_unsynced"@, r.time_unsynced))
            &&& F.contains(bool_field("synthetic_record"@, r.synthetic_record))
            &&& F.contains(bool_field("partial_payload"@, r.partial_payload))
            &&& F.contains(unsigned_text_field("sequence"@, r.first_sequence@))
        }),
{
    broadcast use vstd::seq_lib::lemma_seq_concat_contains_all_elements;
    broadcast use vstd::seq_lib::lemma_seq_contains_after_push;
    let t = time_columns(None, None, r.received_time@, r.received_time_ns@, r.source);
    let c = record_columns(
        r.source_path@,
        r.source_hierarchy@,
        r.buffer_id,
        r.epoch_id@,
        r.first_sequence@,
        r.definition_hash@,
        r.time_unsynced,
        r.synthetic_record,
        r.partial_payload,
    );
    assert(t.contains(text_field("received_time"@, r.received_time@)));
    assert(t.contains(unsigned_text_field("received_time_ns"@, r.received_time_ns@)));
    assert(r.source matches Some(v) ==> t.contains(text_field("source"@, v@)));
    assert(c.contains(text_field("source_path"@, r.source_path@)));
    assert(c.contains(text_field("source_hierarchy"@, r.source_hierarchy@)));
    assert(c.contains(uint_field("buffer_id"@, r.buffer_id as nat)));
    assert(c.contains(unsigned_text_field("epoch_id"@, r.epoch_id@)));
    assert(c.contains(unsigned_text_field("sequence"@, r.first_sequence@)));
    assert(c.contains(text_field("definition_hash"@, r.definition_hash@)));
    assert(c.contains(bool_field("time_unsynced"@, r.time_unsynced)));
    assert(c.contains(bool_field("synthetic_record"@, r.synthetic_record)));
    assert(c.contains(bool_field("partial_payload"@, r.partial_payload)));
}

/// The data_loss point of a loss row carries its range and every shared
/// record column, each under its own name; its sequence is the first lost
/// one, and it is stamped at the receive time.
#[verifier::spinoff_prover]
pub proof fn law_loss_point_carries_its_columns(r: LossRow)
    ensures
        domain_line_text(DomainRow::Loss(r)) == custom_line_text(
            "data_loss"@,
            r.record_id@,
            r.run_id@,
            r.source_id,
            "projection"@,
            loss_fields(r),
            r.received_time_ns@,
        ),
        ({
            let F = loss_fields(r);
            &&& F.contains(unsigned_text_field("first_sequence"@, r.first_sequence@))
            &&& F.contains(unsigned_text_field("last_sequence"@, r.last_sequence@))
            &&& F.contains(unsigned_text_field("lost_count"@, r.lost_count@))
            &&& F.contains(text_field("basis"@, r.basis@))
            &&& F.contains(text_field("received_time"@, r.received_time@))
            &&& F.contains(unsigned_text_field("received_time_ns"@, r.received_time_ns@))
            &&& (r.source matches Some(v) ==> F.contains(text_field("source"@, v@)))
            &&& F.contains(text_field("source_path"@, r.source_path@))
            &&& F.contains(text_field("source_hierarchy"@, r.source_hierarchy@))
            &&& F.contains(uint_field("buffer_id"@, r.buffer_id as nat))
            &&& F.contains(unsigned_text_field("epoch_id"@, r.epoch_id@))
            &&& F.contains(text_field("definition_hash"@, r.definition_hash@))
            &&& F.contains(bool_field("time_unsynced"@, r.time_unsynced))
            &&& F.contains(bool_field("synthetic_record"@, r.synthetic_record))
            &&& F.contains(bool_field("partial_payload"@, r.partial_payload))
            &&& F.contains(unsigned_text_field("sequence"@, r.first_sequence@))
        }),
{
    reveal(domain_line_text);
    lemma_loss_fields_contents(r);
}

#[verifier::spinoff_prover]
proof fn lemma_unresolved_fields_contents(r: UnresolvedRow)
    ensures
        ({
            let F = unresolved_fields(r);
            &&& F.contains(uint_field("event_type_id"@, r.event_type_id as nat))
            &&& F.contains(text_field("reason"@, r.reason@))
            &&& (r.diagnostic_summary matches Some(v) ==> F.contains(text_field("diagnostic_summary"@, v@)))
            &&& (r.event_time matches Some(v) ==> F.contains(text_field("event_time"@, v@)))
            &&& (r.event_time_ns matches Some(v) ==> F.contains(unsigned_text_field("event_time_ns"@, v@)))
            &&& F.contains(unsigned_text_field("sequence"@, r.sequence@))
            &&& F.contains(text_field("received_time"@, r.received_time@))
            &&& F.contains(unsigned_text_field("received_time_ns"@, r.received_time_ns@))
            &&& (r.source matches Some(v) ==> F.contains(text_field("source"@, v@)))
            &&& F.contains(text_field("source_path"@, r.source_path@))
            &&& F.contains(text_field("source_hierarchy"@, r.source_hierarchy@))
            &&& F.contains(uint_field("buffer_id"@, r.buffer_id as nat))
            &&& F.contains(unsigned_text_field("epoch_id"@, r.epoch_id@))
            &&& F.contains(text_field("definition_hash"@, r.definition_hash@))
            &&& F.contains(bool_field("time_unsynced"@, r.time_unsynced))
            &&& F.contains(bool_field("synthetic_record"@, r.synthetic_record))
            &&& F.contains(bool_field("partial_payload"@, r.partial_payload))
        }),
{
    broadcast use vstd::seq_lib::lemma_seq_concat_contains_all_elements;
    broadcast use vstd::seq_lib::lemma_seq_contains_after_push;
    let t = time_columns(r.event_time, r.event_time_ns, r.received_time@, r.received_time_ns@, r.source);
    let c = record_columns(
        r.source_path@,
        r.source_hierarchy@,
        r.buffer_id,
        r.epoch_id@,
        r.sequence@,
        r.definition_hash@,
        r.time_unsynced,
        r.synthetic_record,
        r.partial_payload,
    );
    assert(r.event_time matches Some(v) ==> t.contains(text_field("event_time"@, v@)));
    assert(r.event_time_ns matches Some(v) ==> t.contains(unsigned_text_field("event_time_ns"@, v@)));
    assert(t.contains(text_field("received_time"@, r.received_time@)));
    assert(t.contains(unsigned_text_field("received_time_ns"@, r.received_time_ns@)));
    assert(r.source matches Some(v) ==> t.contains(text_field("source"@, v@)));
    assert(c.contains(text_field("source_path"@, r.source_path@)));
    assert(c.contains(text_field("source_hierarchy"@, r.source_hierarchy@)));
    assert(c.contains(uint_field("buffer_id"@, r.buffer_id as nat)));
    assert(c.contains(unsigned_text_field("epoch_id"@, r.epoch_id@)));
    assert(c.contains(unsigned_text_field("sequence"@, r.sequence@)));
    assert(c.contains(text_field("definition_hash"@, r.definition_hash@)));
    assert(c.contains(bool_field("time_unsynced"@, r.time_unsynced)));
    assert(c.contains(bool_field("synthetic_record"@, r.synthetic_record)));
    assert(c.contains(bool_field("partial_payload"@, r.partial_payload)));
}

/// The unresolved_records point of a row carries its type, reason and
/// diagnostic, and every shared record column, each under its own name.
#[verifier::spinoff_prover]
pub proof fn law_unresolved_point_carries_its_columns(r: UnresolvedRow)
    ensures
        domain_line_text(DomainRow::Unresolved(r)) == custom_line_text(
            "unresolved_records"@,
            r.record_id@,
            r.run_id@,
            r.source_id,
            "projection"@,
            unresolved_fields(r),
            point_time(r.event_time_ns, r.received_time_ns),
        ),
        ({
            let F = unresolved_fields(r);
            &&& F.contains(uint_field("event_type_id"@, r.event_type_id as nat))
            &&& F.contains(text_field("reason"@, r.reason@))
            &&& (r.diagnostic_summary matches Some(v) ==> F.contains(text_field("diagnostic_summary"@, v@)))
            &&& (r.event_time matches Some(v) ==> F.contains(text_field("event_time"@, v@)))
            &&& (r.event_time_ns matches Some(v) ==> F.contains(unsigned_text_field("event_time_ns"@, v@)))
            &&& F.contains(unsigned_text_field("sequence"@, r.sequence@))
            &&& F.contains(text_field("received_time"@, r.received_time@))
            &&& F.contains(unsigned_text_field("received_time_ns"@, r.received_time_ns@))
            &&& (r.source matches Some(v) ==> F.contains(text_field("source"@, v@)))
            &&& F.contains(text_field("source_path"@, r.source_path@))
            &&& F.contains(text_field("source_hierarchy"@, r.source_hierarchy@))
            &&& F.contains(uint_field("buffer_id"@, r.buffer_id as nat))
            &&& F.contains(unsigned_text_field("epoch_id"@, r.epoch_id@))
            &&& F.contains(text_field("definition_hash"@, r.definition_hash@))
            &&& F.contains(bool_field("time_unsynced"@, r.time_unsynced))
            &&& F.contains(bool_field("synthetic_record"@, r.synthetic_record))
            &&& F.contains(bool_field("partial_payload"@, r.partial_payload))
        }),
{
    reveal(domain_line_text);
    lemma_unresolved_fields_contents(r);
}

/// An event-derived point keeps all of its own fields and adds every shared
/// event-log column, each under its own name.
#[verifier::spinoff_prover]
pub proof fn law_event_point_carries_the_shared_columns(row: EventLogRow, own: Seq<Seq<char>>)
    ensures
        forall|f: Seq<char>| own.contains(f) ==> #[trigger] event_fields(row, own).contains(f),
        ({
            let F = event_fields(row, own);
            &&& (row.event_time matches Some(v) ==> F.contains(text_field("event_time"@, v@)))
            &&& (row.event_time_ns matches Some(v) ==> F.contains(unsigned_text_field("event_time_ns"@, v@)))
            &&& F.contains(unsigned_text_field("sequence"@, row.sequence@))
            &&& F.contains(text_field("received_time"@, row.received_time@))
            &&& F.contains(unsigned_text_field("received_time_ns"@, row.received_time_ns@))
            &&& (row.source matches Some(v) ==> F.contains(text_field("source"@, v@)))
            &&& F.contains(text_field("source_path"@, row.source_path@))
            &&& F.contains(text_field("source_hierarchy"@, row.source_hierarchy@))
            &&& F.contains(uint_field("buffer_id"@, row.buffer_id as nat))
            &&& F.contains(unsigned_text_field("epoch_id"@, row.epoch_id@))
            &&& F.contains(text_field("definition_hash"@, row.definition_hash@))
            &&& F.contains(bool_field("time_unsynced"@, row.time_unsynced))
            &&& F.contains(bool_field("synthetic_record"@, row.synthetic_record))
            &&& F.contains(bool_field("partial_payload"@, row.partial_payload))
        }),
{
    broadcast use vstd::seq_lib::lemma_seq_concat_contains_all_elements;
    broadcast use vstd::seq_lib::lemma_seq_contains_after_push;
}

/// The event_log point of an event carries its type, name and the
/// unclassified flag under their own names.
#[verifier::spinoff_prover]
pub proof fn law_event_log_point_carries_its_columns(e: EventLogRow)
    ensures
        exists|F: Seq<Seq<char>>|
            #![trigger event_line_text("event_log"@, e, "event"@, F)]
            event_row_line_text(e) == event_line_text("event_log"@, e, "event"@, F) && {
                &&& F.contains(uint_field("event_type_id"@, e.event_type_id as nat))
            &&& F.contains(text_field("event_name"@, e.event_name@))
            &&& F.contains(bool_field("has_unclassified_fields"@, e.has_unclassified_fields))
            },
{
    broadcast use vstd::seq_lib::lemma_seq_concat_contains_all_elements;
    broadcast use vstd::seq_lib::lemma_seq_contains_after_push;
    let F = seq![
        uint_field("event_type_id"@, e.event_type_id as nat),
        text_field("event_name"@, e.event_name@),
        bool_field("has_unclassified_fields"@, e.has_unclassified_fields),
    ];
    assert(event_row_line_text(e) == event_line_text("event_log"@, e, "event"@, F));
}

/// The logged_values point of a value carries each of its columns (current
/// and previous value lanes, audit fields) under its own name.
#[verifier::spinoff_prover]
pub proof fn law_value_point_carries_its_columns(v: LoggedValueRow)
    ensures
        exists|F: Seq<Seq<char>>|
            #![trigger event_line_text("logged_values"@, v.common, "value"@, F)]
            value_line_text(v) == event_line_text("logged_values"@, v.common, "value"@, F) && {
                &&& F.contains(uint_field("value_id"@, v.value_id as nat))
            &&& F.contains(text_field("value_name"@, v.value_name@))
            &&& F.contains(text_field("value_type"@, v.value_type@))
            &&& F.contains(uint_field("semantic_role"@, v.semantic_role as nat))
            &&& F.contains(text_field("exact_value"@, v.exact_value@))
            &&& F.contains(bool_field("is_audited"@, v.is_audited))
            &&& (v.unit matches Some(v) ==> F.contains(text_field("unit"@, v@)))
            &&& (v.quality matches Some(v) ==> F.contains(uint_field("quality"@, v as nat)))
            &&& (v.boolean_value matches Some(v) ==> F.contains(bool_field("boolean_value"@, v)))
            &&& (v.signed_value matches Some(v) ==> F.contains(signed_field("signed_value"@, v as int)))
            &&& (v.unsigned_value matches Some(v) ==> F.contains(unsigned_text_field("unsigned_value"@, v@)))
            &&& (v.number_value matches Some(v) ==> F.contains(float_field("number_value"@, v@)))
            &&& (v.text_value matches Some(v) ==> F.contains(text_field("text_value"@, v@)))
            &&& (v.previous_boolean_value matches Some(v) ==> F.contains(bool_field("previous_boolean_value"@, v)))
            &&& (v.previous_signed_value matches Some(v) ==> F.contains(signed_field("previous_signed_value"@, v as int)))
            &&& (v.previous_unsigned_value matches Some(v) ==> F.contains(unsigned_text_field("previous_unsigned_value"@, v@)))
            &&& (v.previous_number_value matches Some(v) ==> F.contains(float_field("previous_number_value"@, v@)))
            &&& (v.previous_text_value matches Some(v) ==> F.contains(text_field("previous_text_value"@, v@)))
            &&& (v.previous_exact_value matches Some(v) ==> F.contains(text_field("previous_exact_value"@, v@)))
            &&& (v.actor matches Some(v) ==> F.contains(text_field("actor"@, v@)))
            &&& (v.reason matches Some(v) ==> F.contains(text_field("reason"@, v@)))
            &&& (v.authorization_result matches Some(v) ==> F.contains(text_field("authorization_result"@, v@)))
            },
{
    broadcast use vstd::seq_lib::lemma_seq_concat_contains_all_elements;
    broadcast use vstd::seq_lib::lemma_seq_contains_after_push;
    let F = seq![
        uint_field("value_id"@, v.value_id as nat),
        text_field("value_name"@, v.value_name@),
        text_field("value_type"@, v.value_type@),
        uint_field("semantic_role"@, v.semantic_role as nat),
        text_field("exact_value"@, v.exact_value@),
        bool_field("is_audited"@, v.is_audited),
    ] + opt_text("unit"@, v.unit) + opt_uint16("quality"@, v.quality) + opt_bool(
        "boolean_value"@,
        v.boolean_value,
    ) + opt_signed("signed_value"@, v.signed_value) + opt_unsigned_text(
        "unsigned_value"@,
        v.unsigned_value,
    ) + opt_float("number_value"@, v.number_value) + opt_text("text_value"@, v.text_value) + opt_bool(
        "previous_boolean_value"@,
        v.previous_boolean_value,
    ) + opt_signed("previous_signed_value"@, v.previous_signed_value) + opt_unsigned_text(
        "previous_unsigned_value"@,
        v.previous_unsigned_value,
    ) + opt_float("previous_number_value"@, v.previous_number_value) + opt_text(
        "previous_text_value"@,
        v.previous_text_value,
    ) + opt_text("previous_exact_value"@, v.previous_exact_value) + opt_text("actor"@, v.actor)
        + opt_text("reason"@, v.reason) + opt_text("authorization_result"@, v.authorization_result);
    assert(value_line_text(v) == event_line_text("logged_values"@, v.common, "value"@, F));
}

} // verus!
