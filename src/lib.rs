//! A registry of sensor devices and of the telemetry windows they publish.
//!
//! Records live in a key-addressed ledger. Each record's address is derived
//! from a domain tag and its identifying fields, so creating a second record
//! with the same identity collides with the first and is refused.

pub mod address;
pub mod records;
pub mod ledger;
pub mod program;
pub mod laws;

pub use address::{aggregate_address, device_address, le_bytes, Key};
pub use records::{AggregateStats, Device, ErrorCode, TxError, WindowAggregate, MAX_URI_LEN};
pub use ledger::{Account, Ledger, Record};
pub use program::{
    register_device, register_device_at, submit_aggregate, submit_aggregate_at, RegisterDevice, SubmitAggregate,
};
