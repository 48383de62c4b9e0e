//! Verified core of the OpenOT document persistence host: durable batch
//! commit planning, checkpoint handling, status supervision, and the text
//! encodings (identity keys, line protocol, SQL placeholders) that the
//! database adapters rely on.

pub mod text;
pub mod contracts;
pub mod ledger;
pub mod identity;
pub mod redaction;
pub mod worker;
pub mod status;
pub mod config;
pub mod rows;
pub mod line_protocol;
pub mod influx_points;
pub mod settlement;
pub mod sql_params;
pub mod sqlserver_plan;
pub mod sql_binds;
pub mod fingerprint;
pub mod timestamp;
pub mod influx_spool;
pub mod influx_reconcile;
pub mod influx_delivery;
pub mod supervisor;
pub mod failure;
pub mod consumer;
