//! The records kept in the ledger and the errors of the two handlers.

use crate::address::Key;
use vstd::prelude::*;

verus! {

/// A registered sensor unit.
#[derive(Clone, Copy, Debug)]
pub struct Device {
    /// The identity allowed to submit aggregates for this device.
    pub authority: Key,
    /// The device's own public key; its record's address is derived from it.
    pub device_pubkey: Key,
    /// Fingerprint of the device's calibration parameters.
    pub calibration_hash: [u8; 32],
    /// Aggregates are accepted only while this is set.
    pub is_active: bool,
    /// When the record was created.
    pub created_at: i64,
}

/// Summary statistics of one window. Each field holds the IEEE-754 bit
/// pattern of a 32-bit float; the ledger stores them without reading them.
#[derive(Clone, Copy, Debug, PartialEq, Eq, Structural)]
pub struct AggregateStats {
    pub temp_min: u32,
    pub temp_max: u32,
    pub temp_avg: u32,
    pub humidity_min: u32,
    pub humidity_max: u32,
    pub humidity_avg: u32,
    pub pressure_min: u32,
    pub pressure_max: u32,
    pub pressure_avg: u32,
}

/// The stored summary of one fifteen-minute window of a device.
#[derive(Clone, Debug)]
pub struct WindowAggregate {
    /// Address of the device record this window belongs to.
    pub device: Key,
    pub window_start: i64,
    pub stats: AggregateStats,
    pub sample_count: u32,
    /// Commitment to the full set of raw samples of the window.
    pub merkle_root: [u8; 32],
    /// Where the full sample set is stored.
    pub offchain_uri: String,
    pub submitted_at: i64,
    /// The bump seed of this record's derived address.
    pub bump: u8,
}

/// The longest `offchain_uri` accepted, in characters.
pub const MAX_URI_LEN: usize = 200;

/// The rejections that the handlers themselves decide.
#[derive(Clone, Copy, Debug, PartialEq, Eq, Structural)]
pub enum ErrorCode {
    UriTooLong,
    DeviceInactive,
    Unauthorized,
}

impl ErrorCode {
    /// A human-readable description of the error.
    pub fn message(&self) -> (r: &'static str)
        ensures
            *self == ErrorCode::UriTooLong ==> r@ == "URI too long (max 200 characters)"@,
            *self == ErrorCode::DeviceInactive ==> r@ == "Device is not active"@,
            *self == ErrorCode::Unauthorized ==> r@ == "Unauthorized: not device authority"@,
    {
        match self {
            ErrorCode::UriTooLong => "URI too long (max 200 characters)",
            ErrorCode::DeviceInactive => "Device is not active",
            ErrorCode::Unauthorized => "Unauthorized: not device authority",
        }
    }
}

/// Why a call was rejected: by a handler's own check, or by the ledger.
#[derive(Clone, Copy, Debug, PartialEq, Eq, Structural)]
pub enum TxError {
    /// A check of the handler failed.
    Program(ErrorCode),
    /// A record already exists at the derived address.
    AccountInUse,
    /// No device record exists at the given address.
    DeviceNotFound,
    /// No bump seed yields a valid derived address for the seeds.
    NoViableAddress,
}

} // verus!
