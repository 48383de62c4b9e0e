use openot_persistence::consumer::{
    accounting_restarts, batch_next_abs, batch_take, check_poll_capacity, effective_definition_hash, new_records, poll_checkpoint,
    plan_poll, record_definition, EpochBinding, KnownDefinition, LossEmissions, LossKey, RecordDefinition,
};
use openot_persistence::contracts::{PersistenceCheckpoint, PersistenceError};

const CURRENT: u64 = 0x1111_2222_3333_4444;
const PRIOR: u64 = 0x5555_6666_7777_8888;

fn binding(epoch_first_abs: u64) -> EpochBinding {
    EpochBinding { run_id: 7, epoch_id: 2, definition_hash: CURRENT, prev_definition_hash: PRIOR, epoch_first_abs }
}

#[test]
fn an_unpublished_epoch_is_bound_to_the_compiled_definition() {
    let zero = EpochBinding { run_id: 0, epoch_id: 0, definition_hash: 0, prev_definition_hash: 0, epoch_first_abs: 0 };
    assert_eq!(effective_definition_hash(zero, CURRENT), CURRENT);
    let published = EpochBinding { run_id: 1, ..zero };
    assert_eq!(effective_definition_hash(published, CURRENT), 0);
    assert_eq!(effective_definition_hash(binding(0), 99), CURRENT);
}

#[test]
fn records_resolve_against_the_epoch_they_were_written_in() {
    let b = binding(128);
    assert_eq!(
        record_definition(128, b, CURRENT, CURRENT, Some(PRIOR)),
        RecordDefinition { hash: CURRENT, known: KnownDefinition::Current }
    );
    assert_eq!(
        record_definition(64, b, CURRENT, CURRENT, Some(PRIOR)),
        RecordDefinition { hash: PRIOR, known: KnownDefinition::Prior }
    );
}

#[test]
fn an_unknown_definition_keeps_its_hash_without_a_version() {
    let b = binding(0);
    assert_eq!(
        record_definition(10, b, 0xdead, CURRENT, None),
        RecordDefinition { hash: 0xdead, known: KnownDefinition::Unknown }
    );
    let earlier = binding(100);
    assert_eq!(
        record_definition(10, earlier, CURRENT, CURRENT, None),
        RecordDefinition { hash: PRIOR, known: KnownDefinition::Unknown }
    );
    assert_eq!(
        record_definition(10, earlier, CURRENT, CURRENT, Some(0xbeef)),
        RecordDefinition { hash: PRIOR, known: KnownDefinition::Unknown }
    );
}

#[test]
fn only_records_beyond_the_durable_cursor_become_documents() {
    assert_eq!(new_records(&vec![64, 128, 192], 128), vec![2]);
    assert_eq!(new_records(&vec![64, 128, 192], 0), vec![0, 1, 2]);
    assert!(new_records(&vec![64, 128], 128).is_empty());
    assert!(new_records(&Vec::new(), 0).is_empty());
}

#[test]
fn a_poll_checkpoints_its_next_position() {
    assert_eq!(
        poll_checkpoint(3, 7, 128),
        PersistenceCheckpoint { buffer_id: 3, run_id: 7, cursor_abs: 128 }
    );
}

#[test]
fn each_loss_range_becomes_one_document() {
    let mut emissions = LossEmissions::new();
    let gap = (3, 7, 1, 1, 1, 0);
    assert!(emissions.first_report(gap));
    assert!(!emissions.first_report(gap));
    assert!(emissions.first_report((3, 7, 1, 1, 1, 1)));
    assert!(emissions.first_report((3, 8, 1, 1, 1, 0)));
}

#[test]
fn loss_accounting_follows_the_buffer() {
    assert!(accounting_restarts(None, 3));
    assert!(accounting_restarts(Some(2), 3));
    assert!(!accounting_restarts(Some(3), 3));
}

#[test]
fn batches_are_cut_at_the_configured_size() {
    assert_eq!(batch_take(3, 2), 2);
    assert_eq!(batch_take(1, 2), 1);
    assert_eq!(batch_take(10, 4), 4);
    assert_eq!(batch_next_abs(&vec![64, 128, 192, 256], 999), 256);
    assert_eq!(batch_next_abs(&Vec::new(), 999), 999);
}

#[test]
fn a_poll_beyond_the_queue_capacity_is_refused() {
    assert!(check_poll_capacity(8, 8).is_ok());
    assert_eq!(
        check_poll_capacity(9, 8),
        Err(PersistenceError::InvalidConfig(
            "OpenOT source poll contained 9 records, exceeding queue_capacity 8; increase the configured bound and restart before the ring overwrites the uncommitted cursor".to_string()
        ))
    );
}

#[test]
fn a_poll_plans_new_records_then_unemitted_losses_then_its_checkpoint() {
    let mut emissions = LossEmissions::new();
    let gap: LossKey = (7, 1, 1, 3, 4, 1);
    let reported_gap: LossKey = (7, 1, 1, 9, 9, 0);
    let first = plan_poll(&vec![64, 128, 192], 64, &vec![gap, gap, reported_gap], &mut emissions, 7, 1, 192);
    assert_eq!(first.records, vec![1, 2]);
    assert_eq!(first.losses, vec![gap, reported_gap]);
    assert_eq!(first.checkpoint, PersistenceCheckpoint { buffer_id: 7, run_id: 1, cursor_abs: 192 });
    let later: LossKey = (7, 1, 2, 0, 1, 1);
    let second = plan_poll(&vec![256], 192, &vec![reported_gap, later], &mut emissions, 7, 1, 256);
    assert_eq!(second.records, vec![0]);
    assert_eq!(second.losses, vec![later]);
    let idle = plan_poll(&Vec::new(), 256, &vec![gap], &mut emissions, 7, 1, 256);
    assert!(idle.records.is_empty() && idle.losses.is_empty());
    assert_eq!(idle.checkpoint.cursor_abs, 256);
}
