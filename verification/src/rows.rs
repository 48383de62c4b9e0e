//! The rows one OpenOT document projects into: the canonical document row,
//! the event-log row, logged values and the typed domain rows, together with
//! the counts a commit reports about them.
//!
//! Floating-point values are carried as the text that `f64`'s `Display`
//! renders for them; the library never computes with them.

use vstd::prelude::*;
use crate::contracts::PersistenceError;
use crate::text::{parse_u64, parse_u64_spec, IntParseFailure, int_failure_text};

verus! {

/// One OpenOT event as the shared event-log columns describe it.
#[derive(Debug, Clone)]
pub struct EventLogRow {
    pub record_id: String,
    pub event_time: Option<String>,
    pub event_time_ns: Option<String>,
    pub received_time: String,
    pub received_time_ns: String,
    pub source: Option<String>,
    pub source_id: u32,
    pub source_path: String,
    pub source_hierarchy: String,
    pub buffer_id: u32,
    pub run_id: String,
    pub epoch_id: String,
    pub sequence: String,
    pub definition_hash: String,
    pub time_unsynced: bool,
    pub synthetic_record: bool,
    pub partial_payload: bool,
    pub event_type_id: u32,
    pub event_name: String,
    pub has_unclassified_fields: bool,
}

/// One logged process value (a value change or an audited parameter change).
#[derive(Debug, Clone)]
pub struct LoggedValueRow {
    pub common: EventLogRow,
    pub value_id: u32,
    pub value_name: String,
    pub value_type: String,
    pub unit: Option<String>,
    pub quality: Option<u16>,
    pub semantic_role: u16,
    pub boolean_value: Option<bool>,
    pub signed_value: Option<i64>,
    pub unsigned_value: Option<String>,
    /// The number as `f64`'s `Display` renders it.
    pub number_value: Option<String>,
    pub text_value: Option<String>,
    pub exact_value: String,
    pub previous_boolean_value: Option<bool>,
    pub previous_signed_value: Option<i64>,
    pub previous_unsigned_value: Option<String>,
    /// The previous number as `f64`'s `Display` renders it.
    pub previous_number_value: Option<String>,
    pub previous_text_value: Option<String>,
    pub previous_exact_value: Option<String>,
    pub is_audited: bool,
    pub actor: Option<String>,
    pub reason: Option<String>,
    pub authorization_result: Option<String>,
}

#[derive(Debug, Clone)]
pub struct AlarmRow {
    pub common: EventLogRow,
    pub condition: String,
    pub condition_class: Option<String>,
    pub lifecycle_action: String,
    pub correlation_id: Option<String>,
    pub severity: Option<u16>,
    pub severity_label: Option<String>,
    pub cause: Option<String>,
    pub actor: Option<String>,
    pub reason: Option<String>,
    pub comment: Option<String>,
    pub shelve_seconds: Option<u64>,
    pub previous_priority: Option<u16>,
    pub new_priority: Option<u16>,
}

/// A message argument: its declared type and its display text.
#[derive(Debug, Clone)]
pub struct TypedDisplay {
    pub declared_type: String,
    pub display: String,
}

#[derive(Debug, Clone)]
pub struct MessageRow {
    pub common: EventLogRow,
    pub message_template: String,
    pub severity: Option<u16>,
    pub severity_label: Option<String>,
    pub args: Vec<TypedDisplay>,
}

#[derive(Debug, Clone)]
pub struct StateRow {
    pub common: EventLogRow,
    pub state_machine: String,
    pub state_category: String,
    pub previous_state: String,
    pub previous_state_label: Option<String>,
    pub new_state: String,
    pub new_state_label: Option<String>,
}

#[derive(Debug, Clone)]
pub struct BatchRow {
    pub common: EventLogRow,
    pub batch_id: String,
    pub recipe_id: Option<String>,
    pub previous_state: Option<String>,
    pub new_state: String,
    pub new_state_label: Option<String>,
}

#[derive(Debug, Clone)]
pub struct RecipeRow {
    pub common: EventLogRow,
    pub action: String,
    pub recipe_id: String,
    pub recipe_version: Option<String>,
    pub batch_id: Option<String>,
    pub actor: Option<String>,
    pub authorization_result: Option<String>,
}

#[derive(Debug, Clone)]
pub struct MaterialRow {
    pub common: EventLogRow,
    pub batch_id: String,
    pub material_id: String,
    /// The quantity as `f64`'s `Display` renders it.
    pub quantity: String,
    pub exact_quantity: String,
    pub unit: Option<String>,
}

#[derive(Debug, Clone)]
pub struct OperatorRow {
    pub common: EventLogRow,
    pub action: String,
    pub action_id: Option<String>,
    pub actor: Option<String>,
    pub workstation: Option<String>,
    pub role: Option<String>,
    pub authorization_result: Option<String>,
    pub reason: Option<String>,
    pub context_references: Option<String>,
}

#[derive(Debug, Clone)]
pub struct AuditRow {
    pub common: EventLogRow,
    pub action: String,
    pub target: String,
    pub actor: String,
    pub reason: String,
    pub authorization_result: Option<String>,
    pub value_type: String,
    pub previous_value: String,
    pub current_value: String,
    pub workstation: Option<String>,
}

#[derive(Debug, Clone)]
pub struct SignatureRow {
    pub common: EventLogRow,
    pub action_id: String,
    pub actor: String,
    pub meaning: String,
    pub authorization_result: Option<String>,
    pub signed_source_id: u32,
    pub signed_sequence: String,
}

#[derive(Debug, Clone)]
pub struct SystemRow {
    pub common: EventLogRow,
    pub event_name: String,
    pub interval_ms: Option<u64>,
    pub sequence_base: Option<String>,
    pub dropped_count: Option<String>,
    pub first_sequence: Option<String>,
    pub last_sequence: Option<String>,
    pub registered_source_id: Option<String>,
    pub previous_definition_hash: Option<String>,
    pub new_definition_hash: Option<String>,
    pub changed_epoch_id: Option<String>,
    pub clock_quality: Option<String>,
    pub produced_count: Option<String>,
    pub cold_start: Option<bool>,
}

/// A loss document: a range of records the source could not deliver.
#[derive(Debug, Clone)]
pub struct LossRow {
    pub record_id: String,
    pub received_time: String,
    pub received_time_ns: String,
    pub source: Option<String>,
    pub source_id: u32,
    pub source_path: String,
    pub source_hierarchy: String,
    pub buffer_id: u32,
    pub run_id: String,
    pub epoch_id: String,
    pub definition_hash: String,
    pub time_unsynced: bool,
    pub synthetic_record: bool,
    pub partial_payload: bool,
    pub first_sequence: String,
    pub last_sequence: String,
    pub lost_count: String,
    pub basis: String,
}

/// A placeholder document: a record whose payload could not be resolved.
#[derive(Debug, Clone)]
pub struct UnresolvedRow {
    pub record_id: String,
    pub event_time: Option<String>,
    pub event_time_ns: Option<String>,
    pub received_time: String,
    pub received_time_ns: String,
    pub source: Option<String>,
    pub source_id: u32,
    pub source_path: String,
    pub source_hierarchy: String,
    pub buffer_id: u32,
    pub run_id: String,
    pub epoch_id: String,
    pub sequence: String,
    pub definition_hash: String,
    pub time_unsynced: bool,
    pub synthetic_record: bool,
    pub partial_payload: bool,
    pub event_type_id: u32,
    pub reason: String,
    pub diagnostic_summary: Option<String>,
}

/// One typed domain row.
#[derive(Debug, Clone)]
pub enum DomainRow {
    Alarm(AlarmRow),
    Message(MessageRow),
    State(StateRow),
    Batch(BatchRow),
    Recipe(RecipeRow),
    Material(MaterialRow),
    Operator(OperatorRow),
    Audit(AuditRow),
    Signature(SignatureRow),
    System(SystemRow),
    Loss(LossRow),
    Unresolved(UnresolvedRow),
}

/// The canonical row of one document: its identity, provenance columns
/// (integers big-endian) and canonical JSON.
#[derive(Debug, Clone)]
pub struct DocumentRow {
    pub identity_key: String,
    pub document_kind: String,
    pub buffer_id: u32,
    pub run_id: [u8; 8],
    pub source_id: u32,
    pub epoch_id: [u8; 8],
    pub seq: Option<Vec<u8>>,
    pub first_seq: Option<Vec<u8>>,
    pub last_seq: Option<Vec<u8>>,
    pub loss_basis: Option<String>,
    pub source_time_ns: Option<Vec<u8>>,
    pub receive_time_ns: [u8; 8],
    pub event_type_id: Option<u32>,
    pub event_name: Option<String>,
    pub definition_hash: String,
    pub canonical_json: String,
}

/// Everything one document projects into.
#[derive(Debug, Clone)]
pub struct ProjectedDocument {
    pub canonical: DocumentRow,
    pub event: Option<EventLogRow>,
    pub logged_values: Vec<LoggedValueRow>,
    pub domains: Vec<DomainRow>,
}

/// Unresolved documents, loss ranges and lost records counted so far.
pub type SpecialCounts = (usize, usize, u64);

/// The rows a document contributes to the public read model.
pub open spec fn public_rows(p: ProjectedDocument) -> nat {
    (if p.event is Some { 1nat } else { 0nat }) + p.logged_values@.len() + p.domains@.len()
}

/// The message reported for a loss row whose count is not a `u64`.
pub open spec fn invalid_count_text(f: IntParseFailure) -> Seq<char> {
    "logging loss projection contains invalid count: "@ + int_failure_text(f)
}

/// Counting one more domain row.
pub open spec fn count_step(c: (nat, nat, u64), row: DomainRow) -> Result<(nat, nat, u64), Seq<char>> {
    match row {
        DomainRow::Unresolved(_) => Ok((c.0 + 1, c.1, c.2)),
        DomainRow::Loss(loss) => match parse_u64_spec(loss.lost_count@) {
            Ok(lost) => Ok(
                (
                    c.0,
                    c.1 + 1,
                    if c.2 + lost > u64::MAX {
                        u64::MAX
                    } else {
                        (c.2 + lost) as u64
                    },
                ),
            ),
            Err(f) => Err(invalid_count_text(f)),
        },
        _ => Ok(c),
    }
}

/// The counts of a sequence of domain rows, in order; the first loss row
/// with an unreadable count decides the failure.
pub open spec fn special_counts(rows: Seq<DomainRow>) -> Result<(nat, nat, u64), Seq<char>>
    decreases rows.len(),
{
    if rows.len() == 0 {
        Ok((0nat, 0nat, 0u64))
    } else {
        match special_counts(rows.drop_last()) {
            Err(e) => Err(e),
            Ok(c) => count_step(c, rows.last()),
        }
    }
}

proof fn lemma_special_counts_bounded(rows: Seq<DomainRow>)
    ensures
        special_counts(rows) matches Ok(c) ==> c.0 + c.1 <= rows.len(),
    decreases rows.len(),
{
    if rows.len() > 0 {
        lemma_special_counts_bounded(rows.drop_last());
    }
}

impl ProjectedDocument {
    /// Rows written to the public read model: the event-log row, the logged
    /// values and the domain rows.
    pub fn public_row_count(&self) -> (r: usize)
        requires
            self.logged_values@.len() + self.domains@.len() < usize::MAX,
        ensures
            r == public_rows(*self),
    {
        let event: usize = if self.event.is_some() {
            1
        } else {
            0
        };
        event + self.logged_values.len() + self.domains.len()
    }

    /// The event-log row is of an event type the registry does not know.
    pub fn has_unclassified_event(&self) -> (r: bool)
        ensures
            r == (self.event matches Some(e) && e.has_unclassified_fields),
    {
        match &self.event {
            Some(event) => event.has_unclassified_fields,
            None => false,
        }
    }

    /// Unresolved documents, loss ranges and (saturating) lost records among
    /// the domain rows.
    pub fn loss_and_unresolved_counts(&self) -> (r: Result<SpecialCounts, PersistenceError>)
        ensures
            special_counts(self.domains@) matches Ok(c) ==> c.0 + c.1 <= self.domains@.len(),
            match special_counts(self.domains@) {
                Ok(c) => r == Ok::<SpecialCounts, PersistenceError>((c.0 as usize, c.1 as usize, c.2)),
                Err(m) => r matches Err(PersistenceError::Commit(e)) && e@ == m,
            },
    {
        proof {
            lemma_special_counts_bounded(self.domains@);
        }
        let mut unresolved: usize = 0;
        let mut losses: usize = 0;
        let mut lost: u64 = 0;
        let mut i: usize = 0;
        while i < self.domains.len()
            invariant
                i <= self.domains.len(),
                special_counts(self.domains@.take(i as int)) == Ok::<(nat, nat, u64), Seq<char>>(
                    (unresolved as nat, losses as nat, lost),
                ),
                unresolved + losses <= i,
            decreases self.domains.len() - i,
        {
            let ghost prefix = self.domains@.take(i + 1);
            assert(prefix.drop_last() =~= self.domains@.take(i as int));
            match &self.domains[i] {
                DomainRow::Unresolved(_) => {
                    unresolved = unresolved + 1;
                },
                DomainRow::Loss(loss) => {
                    match parse_u64(loss.lost_count.as_str()) {
                        Ok(count) => {
                            losses = losses + 1;
                            lost = lost.saturating_add(count);
                        },
                        Err(f) => {
                            let mut m = String::new();
                            m.append("logging loss projection contains invalid count: ");
                            m.append(f.text());
                            proof {
                                lemma_first_failure_persists(self.domains@, i + 1);
                                assert(self.domains@.take(self.domains.len() as int) =~= self.domains@);
                            }
                            return Err(PersistenceError::Commit(m));
                        },
                    }
                },
                _ => {},
            }
            i = i + 1;
        }
        assert(self.domains@.take(self.domains.len() as int) =~= self.domains@);
        Ok((unresolved, losses, lost))
    }
}

proof fn lemma_first_failure_persists(rows: Seq<DomainRow>, n: int)
    requires
        0 <= n <= rows.len(),
        special_counts(rows.take(n)) is Err,
    ensures
        special_counts(rows) == special_counts(rows.take(n)),
    decreases rows.len(),
{
    if n < rows.len() {
        assert(rows.drop_last().take(n) =~= rows.take(n));
        lemma_first_failure_persists(rows.drop_last(), n);
    } else {
        assert(rows.take(n) =~= rows);
    }
}

/// Counts of a whole batch of projected documents, in order; the first
/// failing document decides the failure.
pub open spec fn batch_special_counts(docs: Seq<ProjectedDocument>) -> Result<(nat, nat, u64), Seq<char>>
    decreases docs.len(),
{
    if docs.len() == 0 {
        Ok((0nat, 0nat, 0u64))
    } else {
        match batch_special_counts(docs.drop_last()) {
            Err(e) => Err(e),
            Ok(c) => match special_counts(docs.last().domains@) {
                Err(e) => Err(e),
                Ok(d) => Ok(
                    (
                        c.0 + d.0,
                        c.1 + d.1,
                        if c.2 + d.2 > u64::MAX {
                            u64::MAX
                        } else {
                            (c.2 + d.2) as u64
                        },
                    ),
                ),
            },
        }
    }
}

/// Domain rows across a batch.
pub open spec fn total_domain_rows(docs: Seq<ProjectedDocument>) -> nat
    decreases docs.len(),
{
    if docs.len() == 0 {
        0
    } else {
        total_domain_rows(docs.drop_last()) + docs.last().domains@.len()
    }
}

proof fn lemma_batch_counts_bounded(docs: Seq<ProjectedDocument>)
    ensures
        batch_special_counts(docs) matches Ok(c) ==> c.0 + c.1 <= total_domain_rows(docs),
    decreases docs.len(),
{
    if docs.len() > 0 {
        lemma_batch_counts_bounded(docs.drop_last());
        lemma_special_counts_bounded(docs.last().domains@);
    }
}

proof fn lemma_batch_failure_persists(docs: Seq<ProjectedDocument>, n: int)
    requires
        0 <= n <= docs.len(),
        batch_special_counts(docs.take(n)) is Err,
    ensures
        batch_special_counts(docs) == batch_special_counts(docs.take(n)),
    decreases docs.len(),
{
    if n < docs.len() {
        assert(docs.drop_last().take(n) =~= docs.take(n));
        lemma_batch_failure_persists(docs.drop_last(), n);
    } else {
        assert(docs.take(n) =~= docs);
    }
}

/// Unresolved documents, loss ranges and lost records of a whole batch.
pub fn committed_special_counts(documents: &[ProjectedDocument]) -> (r: Result<SpecialCounts, PersistenceError>)
    requires
        total_domain_rows(documents@) <= usize::MAX,
    ensures
        match batch_special_counts(documents@) {
            Ok(c) => r == Ok::<SpecialCounts, PersistenceError>((c.0 as usize, c.1 as usize, c.2)),
            Err(m) => r matches Err(PersistenceError::Commit(e)) && e@ == m,
        },
{
    let mut totals: SpecialCounts = (0, 0, 0);
    let mut i: usize = 0;
    proof {
        lemma_batch_counts_bounded(documents@);
    }
    while i < documents.len()
        invariant
            i <= documents.len(),
            total_domain_rows(documents@) <= usize::MAX,
            batch_special_counts(documents@.take(i as int)) == Ok::<(nat, nat, u64), Seq<char>>(
                (totals.0 as nat, totals.1 as nat, totals.2),
            ),
            totals.0 + totals.1 <= total_domain_rows(documents@.take(i as int)),
        decreases documents.len() - i,
    {
        let ghost prefix = documents@.take(i + 1);
        assert(prefix.drop_last() =~= documents@.take(i as int));
        proof {
            lemma_total_prefix(documents@, i + 1);
            lemma_special_counts_bounded(documents@[i as int].domains@);
            lemma_batch_counts_bounded(prefix);
        }
        match documents[i].loss_and_unresolved_counts() {
            Ok(current) => {
                totals = (totals.0 + current.0, totals.1 + current.1, totals.2.saturating_add(current.2));
            },
            Err(e) => {
                proof {
                    lemma_batch_failure_persists(documents@, i + 1);
                }
                return Err(e);
            },
        }
        i = i + 1;
    }
    assert(documents@.take(documents.len() as int) =~= documents@);
    Ok(totals)
}

proof fn lemma_total_prefix(docs: Seq<ProjectedDocument>, n: int)
    requires
        0 <= n <= docs.len(),
    ensures
        total_domain_rows(docs.take(n)) <= total_domain_rows(docs),
    decreases docs.len(),
{
    if n < docs.len() {
        assert(docs.drop_last().take(n) =~= docs.take(n));
        lemma_total_prefix(docs.drop_last(), n);
    } else {
        assert(docs.take(n) =~= docs);
    }
}

/// The column pair a message row stores for argument slot `i`: the
/// argument's declared type and display text, or nothing in both when the
/// message has fewer arguments.
pub open spec fn message_arg_column(args: Seq<TypedDisplay>, i: int) -> (Option<String>, Option<String>) {
    if 0 <= i < args.len() {
        (Some(args[i].declared_type), Some(args[i].display))
    } else {
        (None, None)
    }
}

/// The four argument slots of a message row.
pub fn message_args(args: &[TypedDisplay]) -> (r: Vec<(Option<String>, Option<String>)>)
    ensures
        r.len() == 4,
        forall|i: int| 0 <= i < 4 ==> #[trigger] r@[i] == message_arg_column(args@, i),
{
    let mut r: Vec<(Option<String>, Option<String>)> = Vec::new();
    let mut i: usize = 0;
    while i < 4
        invariant
            i <= 4,
            r.len() == i,
            forall|j: int| 0 <= j < i ==> #[trigger] r@[j] == message_arg_column(args@, j),
        decreases 4 - i,
    {
        if i < args.len() {
            let a = &args[i];
            r.push((Some(a.declared_type.clone()), Some(a.display.clone())));
        } else {
            r.push((None, None));
        }
        i = i + 1;
    }
    r
}

} // verus!
