//! Backend-neutral persistence contracts: checkpoints, commit outcomes,
//! errors, and the decoding of durable checkpoint rows shared by every
//! database adapter.

use vstd::prelude::*;

use crate::text::decimal;
use crate::text::push_decimal;

verus! {

/// Schema generation written and accepted by every adapter.
pub const LOGGING_SCHEMA_GENERATION: u32 = 1;

/// Durable consumer position associated with a committed document batch.
#[derive(Debug, Clone, Copy, PartialEq, Eq, Structural)]
pub struct PersistenceCheckpoint {
    /// OpenOT shared-memory buffer identity.
    pub buffer_id: u32,
    /// Producer run identity; cursors are comparable only within this run.
    pub run_id: u64,
    /// Absolute carriage cursor after the committed batch.
    pub cursor_abs: u64,
}

/// Result of an idempotent durable batch commit.
#[derive(Debug, Clone, Copy, PartialEq, Eq, Structural)]
pub struct CommitOutcome {
    /// Documents newly inserted by this commit.
    pub inserted: usize,
    /// Byte-identical documents already present at the same identities.
    pub duplicated: usize,
    /// Documents durably accepted locally but not yet acknowledged remotely.
    pub remote_pending: usize,
    /// Public read-model rows newly committed.
    pub projection_rows_committed: usize,
    /// Newly committed events carrying fields that could not be classified.
    pub unclassified_events: usize,
    /// Newly committed placeholder documents.
    pub unresolved_documents: usize,
    /// Newly committed loss ranges.
    pub loss_ranges: usize,
    /// Source records represented by the newly committed loss ranges.
    pub lost_records: u64,
    /// Remote delivery parts still awaiting confirmation.
    pub pending_parts: usize,
    /// Durable checkpoint after the commit.
    pub checkpoint: PersistenceCheckpoint,
}

/// Result of one backend maintenance pass.
#[derive(Debug, Clone, Copy, PartialEq, Eq, Structural)]
pub struct MaintenanceOutcome {
    /// Documents still awaiting required remote delivery.
    pub remote_pending: usize,
    /// Delivery parts confirmed remotely during this pass.
    pub reconciled_parts: usize,
    /// Delivery parts still awaiting confirmation.
    pub pending_parts: usize,
}

/// Backend-neutral persistence failure.
#[derive(Debug, Clone, PartialEq, Eq)]
pub enum PersistenceError {
    /// Behavior that this build does not provide.
    NotImplemented,
    /// One durable identity was already occupied by different canonical content.
    IdentityConflict(String),
    /// A backend could not durably commit the requested batch.
    Commit(String),
    /// A backend connection failed in a way that a reconnect may repair.
    Connection(String),
    /// A configured durable capacity bound cannot accept another batch.
    CapacityExhausted(String),
    /// A batch attempted to move an existing buffer cursor backward.
    CheckpointRegression {
        /// Existing durable cursor.
        current: u64,
        /// Cursor requested by the rejected batch.
        requested: u64,
    },
    /// The requested sink configuration is incomplete or inconsistent.
    InvalidConfig(String),
    /// A recognized backend has no adapter in this build.
    BackendUnavailable(String),
}

/// The operator-facing description of an error (what `Display` prints).
pub open spec fn error_message(error: PersistenceError) -> Seq<char> {
    match error {
        PersistenceError::NotImplemented => "OpenOT persistence is not implemented"@,
        PersistenceError::IdentityConflict(identity) =>
            "OpenOT document identity conflict: "@ + identity@,
        PersistenceError::Commit(message) => "OpenOT persistence commit failed: "@ + message@,
        PersistenceError::Connection(message) =>
            "OpenOT persistence connection failed: "@ + message@,
        PersistenceError::CapacityExhausted(message) =>
            "OpenOT persistence capacity exhausted: "@ + message@,
        PersistenceError::CheckpointRegression { current, requested } =>
            "OpenOT checkpoint regressed from "@ + decimal(current as nat) + " to "@
                + decimal(requested as nat),
        PersistenceError::InvalidConfig(message) =>
            "invalid OpenOT persistence configuration: "@ + message@,
        PersistenceError::BackendUnavailable(message) => "backend_not_available: "@ + message@,
    }
}

impl PersistenceError {
    /// Renders the operator-facing description of this error.
    pub fn message(&self) -> (r: String)
        ensures
            r@ == error_message(*self),
    {
        let mut out = String::new();
        match self {
            PersistenceError::NotImplemented => {
                out.append("OpenOT persistence is not implemented");
            },
            PersistenceError::IdentityConflict(identity) => {
                out.append("OpenOT document identity conflict: ");
                out.append(identity.as_str());
            },
            PersistenceError::Commit(message) => {
                out.append("OpenOT persistence commit failed: ");
                out.append(message.as_str());
            },
            PersistenceError::Connection(message) => {
                out.append("OpenOT persistence connection failed: ");
                out.append(message.as_str());
            },
            PersistenceError::CapacityExhausted(message) => {
                out.append("OpenOT persistence capacity exhausted: ");
                out.append(message.as_str());
            },
            PersistenceError::CheckpointRegression { current, requested } => {
                out.append("OpenOT checkpoint regressed from ");
                push_decimal(&mut out, *current);
                out.append(" to ");
                push_decimal(&mut out, *requested);
            },
            PersistenceError::InvalidConfig(message) => {
                out.append("invalid OpenOT persistence configuration: ");
                out.append(message.as_str());
            },
            PersistenceError::BackendUnavailable(message) => {
                out.append("backend_not_available: ");
                out.append(message.as_str());
            },
        }
        assert(out@ =~= error_message(*self));
        out
    }
}

/// Big-endian unsigned value of a byte sequence.
pub open spec fn be_value(bytes: Seq<u8>) -> nat
    decreases bytes.len(),
{
    if bytes.len() == 0 {
        0
    } else {
        be_value(bytes.drop_last()) * 256 + bytes.last() as nat
    }
}

pub open spec fn pow256(n: nat) -> nat
    decreases n,
{
    if n == 0 {
        1
    } else {
        256 * pow256((n - 1) as nat)
    }
}

proof fn lemma_be_step(prefix: nat, bound: nat, b: nat)
    by (nonlinear_arith)
    requires
        prefix < bound,
        b < 256,
    ensures
        prefix * 256 + b < bound * 256,
{
}

/// The message every adapter uses for a stored value that is not 8 bytes.
pub open spec fn not_eight_bytes_message(backend: Seq<char>, context: Seq<char>) -> Seq<char> {
    backend + " "@ + context + " is not an 8-byte unsigned value"@
}

/// Decodes an 8-byte big-endian unsigned value read from durable storage.
pub fn decode_u64(bytes: &[u8], backend: &str, context: &str) -> (r: Result<u64, PersistenceError>)
    ensures
        bytes@.len() == 8 ==> r == Ok::<u64, PersistenceError>(be_value(bytes@) as u64)
            && be_value(bytes@) <= u64::MAX as nat,
        bytes@.len() != 8 ==> (r matches Err(PersistenceError::Commit(m)) && m@
            == not_eight_bytes_message(backend@, context@)),
{
    if bytes.len() != 8 {
        let mut m = String::new();
        m.append(backend);
        m.append(" ");
        m.append(context);
        m.append(" is not an 8-byte unsigned value");
        return Err(PersistenceError::Commit(m));
    }
    let mut acc: u64 = 0;
    let mut i: usize = 0;
    assert(pow256(8) == 18446744073709551616) by {
        reveal_with_fuel(pow256, 9);
    }
    while i < 8
        invariant
            i <= 8,
            bytes@.len() == 8,
            acc as nat == be_value(bytes@.take(i as int)),
            be_value(bytes@.take(i as int)) < pow256(i as nat),
            pow256(8) == 18446744073709551616,
        decreases 8 - i,
    {
        let b = bytes[i];
        proof {
            assert(bytes@.take(i + 1).drop_last() =~= bytes@.take(i as int));
            lemma_be_step(acc as nat, pow256(i as nat), b as nat);
            lemma_pow256_monotone((i + 1) as nat, 8);
        }
        acc = acc * 256 + b as u64;
        i = i + 1;
    }
    assert(bytes@.take(8) =~= bytes@);
    Ok(acc)
}

proof fn lemma_pow256_monotone(a: nat, b: nat)
    requires
        a <= b,
    ensures
        pow256(a) <= pow256(b),
    decreases b,
{
    if a < b {
        lemma_pow256_monotone(a, (b - 1) as nat);
    }
}

/// The `n` big-endian bytes of `x` (its lowest `n` bytes), as
/// `u64::to_be_bytes` writes them for `n == 8`.
pub open spec fn be_bytes(x: nat, n: nat) -> Seq<u8>
    decreases n,
{
    if n == 0 {
        Seq::empty()
    } else {
        be_bytes(x / 256, (n - 1) as nat).push((x % 256) as u8)
    }
}

proof fn lemma_be_bytes_value(x: nat, n: nat)
    ensures
        be_bytes(x, n).len() == n,
        be_value(be_bytes(x, n)) == x % pow256(n),
    decreases n,
{
    if n > 0 {
        let p = (n - 1) as nat;
        lemma_be_bytes_value(x / 256, p);
        assert(be_bytes(x, n).drop_last() =~= be_bytes(x / 256, p));
        assert(pow256(p) > 0) by {
            lemma_pow256_monotone(0, p);
        }
        vstd::arithmetic::div_mod::lemma_mod_breakdown(x as int, 256, pow256(p) as int);
        assert(((x % 256) as u8) as nat == x % 256);
    }
}

/// Decoding the eight big-endian bytes of any `u64` gives the value back:
/// what a checkpoint writes as `to_be_bytes` is what `decode_u64` reads.
pub proof fn law_decode_reads_back_be_bytes(x: u64)
    ensures
        be_bytes(x as nat, 8).len() == 8,
        be_value(be_bytes(x as nat, 8)) == x,
{
    lemma_be_bytes_value(x as nat, 8);
    assert(pow256(8) == 18446744073709551616) by {
        reveal_with_fuel(pow256, 9);
    }
}

/// The message for a database directory others may write to.
pub open spec fn writable_directory_text(backend: Seq<char>) -> Seq<char> {
    backend + " database directory must not be group/world writable"@
}

/// A local database's parent directory must not be writable by its group
/// or by others (no `0o022` permission bit).
pub fn check_private_directory(mode: u32, backend: &str) -> (r: Result<(), PersistenceError>)
    ensures
        mode & 0o022u32 == 0 ==> r is Ok,
        mode & 0o022u32 != 0 ==> (r matches Err(PersistenceError::InvalidConfig(m)) && m@
            == writable_directory_text(backend@)),
{
    if mode & 0o022u32 != 0 {
        let mut m = String::new();
        m.append(backend);
        m.append(" database directory must not be group/world writable");
        return Err(PersistenceError::InvalidConfig(m));
    }
    Ok(())
}

/// A durable checkpoint row as an adapter reads it: the buffer identity and
/// the big-endian run and cursor bytes.
#[derive(Debug, Clone, PartialEq, Eq)]
pub struct StoredCheckpointRow {
    pub buffer_id: i64,
    pub run_id: Vec<u8>,
    pub cursor_abs: Vec<u8>,
}

/// What `load_checkpoint` returns for a decoded row: the stored cursor only
/// when the row belongs to the requested buffer and run.
pub open spec fn loaded_checkpoint(
    stored_buffer: int,
    stored_run: nat,
    stored_cursor: nat,
    buffer_id: u32,
    run_id: u64,
) -> Option<PersistenceCheckpoint> {
    if stored_buffer == buffer_id as int && stored_run == run_id as nat {
        Some(PersistenceCheckpoint { buffer_id, run_id, cursor_abs: stored_cursor as u64 })
    } else {
        None
    }
}

/// Interprets the singleton checkpoint row for one buffer and run, as each
/// adapter's `load_checkpoint` does: the run bytes are decoded first, a row
/// of another buffer or run yields `None`, and the cursor is decoded only
/// for a matching row.
pub fn checkpoint_for(
    stored: Option<&StoredCheckpointRow>,
    buffer_id: u32,
    run_id: u64,
    backend: &str,
) -> (r: Result<Option<PersistenceCheckpoint>, PersistenceError>)
    ensures
        stored is None ==> r == Ok::<Option<PersistenceCheckpoint>, PersistenceError>(None),
        stored matches Some(row) ==> {
            if row.run_id@.len() != 8 {
                r matches Err(PersistenceError::Commit(m)) && m@ == not_eight_bytes_message(
                    backend@,
                    "checkpoint run"@,
                )
            } else if !(row.buffer_id == buffer_id as int && be_value(row.run_id@) == run_id as nat) {
                r == Ok::<Option<PersistenceCheckpoint>, PersistenceError>(None)
            } else if row.cursor_abs@.len() != 8 {
                r matches Err(PersistenceError::Commit(m)) && m@ == not_eight_bytes_message(
                    backend@,
                    "checkpoint cursor"@,
                )
            } else {
                r == Ok::<Option<PersistenceCheckpoint>, PersistenceError>(
                    loaded_checkpoint(
                        row.buffer_id as int,
                        be_value(row.run_id@),
                        be_value(row.cursor_abs@),
                        buffer_id,
                        run_id,
                    ),
                )
            }
        },
{
    match stored {
        None => Ok(None),
        Some(row) => {
            let stored_run = match decode_u64(row.run_id.as_slice(), backend, "checkpoint run") {
                Ok(value) => value,
                Err(error) => return Err(error),
            };
            if row.buffer_id != buffer_id as i64 || stored_run != run_id {
                return Ok(None);
            }
            match decode_u64(row.cursor_abs.as_slice(), backend, "checkpoint cursor") {
                Ok(cursor_abs) => Ok(Some(PersistenceCheckpoint { buffer_id, run_id, cursor_abs })),
                Err(error) => Err(error),
            }
        },
    }
}

/// The commit-time cursor check: a batch for the stored buffer and run may
/// not move the stored cursor backward.
pub open spec fn regresses(current: PersistenceCheckpoint, requested: PersistenceCheckpoint) -> bool {
    current.buffer_id == requested.buffer_id && current.run_id == requested.run_id
        && requested.cursor_abs < current.cursor_abs
}

/// Rejects a batch whose cursor would regress the current durable checkpoint.
pub fn check_regression(
    current: Option<PersistenceCheckpoint>,
    requested: PersistenceCheckpoint,
) -> (r: Result<(), PersistenceError>)
    ensures
        match current {
            Some(c) => if regresses(c, requested) {
                r == Err::<(), PersistenceError>(
                    PersistenceError::CheckpointRegression {
                        current: c.cursor_abs,
                        requested: requested.cursor_abs,
                    },
                )
            } else {
                r == Ok::<(), PersistenceError>(())
            },
            None => r == Ok::<(), PersistenceError>(()),
        },
{
    if let Some(c) = current {
        if c.buffer_id == requested.buffer_id && c.run_id == requested.run_id
            && requested.cursor_abs < c.cursor_abs {
            return Err(
                PersistenceError::CheckpointRegression {
                    current: c.cursor_abs,
                    requested: requested.cursor_abs,
                },
            );
        }
    }
    Ok(())
}

/// Decodes the stored checkpoint row inside a commit transaction (both run
/// and cursor are decoded), then applies the regression check.
pub fn check_stored_regression(
    stored: Option<&StoredCheckpointRow>,
    requested: PersistenceCheckpoint,
    backend: &str,
) -> (r: Result<(), PersistenceError>)
    ensures
        stored is None ==> r == Ok::<(), PersistenceError>(()),
        stored matches Some(row) ==> {
            if row.run_id@.len() != 8 {
                r matches Err(PersistenceError::Commit(m)) && m@ == not_eight_bytes_message(
                    backend@,
                    "checkpoint run"@,
                )
            } else if row.cursor_abs@.len() != 8 {
                r matches Err(PersistenceError::Commit(m)) && m@ == not_eight_bytes_message(
                    backend@,
                    "checkpoint cursor"@,
                )
            } else if row.buffer_id == requested.buffer_id as int && be_value(row.run_id@)
                == requested.run_id as nat && (requested.cursor_abs as nat) < be_value(
                row.cursor_abs@,
            ) {
                r == Err::<(), PersistenceError>(
                    PersistenceError::CheckpointRegression {
                        current: be_value(row.cursor_abs@) as u64,
                        requested: requested.cursor_abs,
                    },
                )
            } else {
                r == Ok::<(), PersistenceError>(())
            }
        },
{
    match stored {
        None => Ok(()),
        Some(row) => {
            let current_run = match decode_u64(row.run_id.as_slice(), backend, "checkpoint run") {
                Ok(value) => value,
                Err(error) => return Err(error),
            };
            let cursor_abs = match decode_u64(
                row.cursor_abs.as_slice(),
                backend,
                "checkpoint cursor",
            ) {
                Ok(value) => value,
                Err(error) => return Err(error),
            };
            if row.buffer_id == requested.buffer_id as i64 && current_run == requested.run_id
                && requested.cursor_abs < cursor_abs {
                return Err(
                    PersistenceError::CheckpointRegression {
                        current: cursor_abs,
                        requested: requested.cursor_abs,
                    },
                );
            }
            Ok(())
        },
    }
}

} // verus!
