//! The two handlers: device registration and window submission.

use crate::address::{
    aggregate_address, aggregate_seeds, device_address, device_seeds, found_view, program_address, Key,
};
use crate::ledger::{Account, Ledger, Record};
use crate::records::{AggregateStats, Device, ErrorCode, TxError, WindowAggregate, MAX_URI_LEN};
use vstd::prelude::*;
use vstd::string::*;

verus! {

/// What the runtime supplies to a registration: the verified signer and
/// the current time.
#[derive(Clone, Copy, Debug)]
pub struct RegisterDevice {
    pub authority: Key,
    pub now: i64,
}

/// What the runtime supplies to a submission: the address of the target
/// device record, the verified signer and the current time.
#[derive(Clone, Copy, Debug)]
pub struct SubmitAggregate {
    pub device: Key,
    pub authority: Key,
    pub now: i64,
}

/// The call was refused with `e` and the ledger is as it was.
pub open spec fn rejected<T>(before: Ledger, r: Result<T, TxError>, after: Ledger, e: TxError) -> bool {
    r == Err::<T, TxError>(e) && after == before
}

/// The call created `record` at the address `addr`, returned that address,
/// and changed nothing else.
pub open spec fn created(before: Ledger, r: Result<Key, TxError>, after: Ledger, addr: Seq<u8>, record: Record) -> bool {
    &&& r is Ok
    &&& r->Ok_0@ == addr
    &&& after.program_id == before.program_id
    &&& after.accounts@ == before.accounts@.push(Account { address: r->Ok_0, record })
}

/// The device record that a registration creates.
pub open spec fn new_device(ctx: RegisterDevice, device_pubkey: Key, calibration_hash: [u8; 32]) -> Device {
    Device {
        authority: ctx.authority,
        device_pubkey,
        calibration_hash,
        is_active: true,
        created_at: ctx.now,
    }
}

/// The outcome of a registration once the device's address has been
/// derived as `found`: `r` and `after` are what a call on `before` returns
/// and leaves.
pub open spec fn register_outcome_at(
    before: Ledger,
    ctx: RegisterDevice,
    device_pubkey: Key,
    calibration_hash: [u8; 32],
    found: Option<(Seq<u8>, u8)>,
    r: Result<Key, TxError>,
    after: Ledger,
) -> bool {
    match found {
        None => rejected(before, r, after, TxError::NoViableAddress),
        Some((addr, _)) => if before.holds(addr) {
            rejected(before, r, after, TxError::AccountInUse)
        } else {
            created(before, r, after, addr, Record::Device(new_device(ctx, device_pubkey, calibration_hash)))
        },
    }
}

/// The outcome of `register_device`.
pub open spec fn register_outcome(
    before: Ledger,
    ctx: RegisterDevice,
    device_pubkey: Key,
    calibration_hash: [u8; 32],
    r: Result<Key, TxError>,
    after: Ledger,
) -> bool {
    register_outcome_at(
        before,
        ctx,
        device_pubkey,
        calibration_hash,
        program_address(device_seeds(device_pubkey@), before.program_id@),
        r,
        after,
    )
}

/// The aggregate record that a submission creates.
pub open spec fn new_aggregate(
    ctx: SubmitAggregate,
    window_start: i64,
    stats: AggregateStats,
    sample_count: u32,
    merkle_root: [u8; 32],
    offchain_uri: String,
    bump: u8,
) -> WindowAggregate {
    WindowAggregate {
        device: ctx.device,
        window_start,
        stats,
        sample_count,
        merkle_root,
        offchain_uri,
        submitted_at: ctx.now,
        bump,
    }
}

/// The outcome of a submission once the window's address has been derived
/// as `found`: the checks run in order and the first that fails decides the
/// error.
pub open spec fn submit_outcome_at(
    before: Ledger,
    ctx: SubmitAggregate,
    window_start: i64,
    stats: AggregateStats,
    sample_count: u32,
    merkle_root: [u8; 32],
    offchain_uri: String,
    found: Option<(Seq<u8>, u8)>,
    r: Result<Key, TxError>,
    after: Ledger,
) -> bool {
    if offchain_uri@.len() > MAX_URI_LEN {
        rejected(before, r, after, TxError::Program(ErrorCode::UriTooLong))
    } else {
        match before.device_at(ctx.device@) {
            None => rejected(before, r, after, TxError::DeviceNotFound),
            Some(d) => if !d.is_active {
                rejected(before, r, after, TxError::Program(ErrorCode::DeviceInactive))
            } else if d.authority@ != ctx.authority@ {
                rejected(before, r, after, TxError::Program(ErrorCode::Unauthorized))
            } else {
                match found {
                    None => rejected(before, r, after, TxError::NoViableAddress),
                    Some((addr, bump)) => if before.holds(addr) {
                        rejected(before, r, after, TxError::AccountInUse)
                    } else {
                        created(
                            before,
                            r,
                            after,
                            addr,
                            Record::Aggregate(
                                new_aggregate(ctx, window_start, stats, sample_count, merkle_root, offchain_uri, bump),
                            ),
                        )
                    },
                }
            },
        }
    }
}

/// The outcome of `submit_aggregate`.
pub open spec fn submit_outcome(
    before: Ledger,
    ctx: SubmitAggregate,
    window_start: i64,
    stats: AggregateStats,
    sample_count: u32,
    merkle_root: [u8; 32],
    offchain_uri: String,
    r: Result<Key, TxError>,
    after: Ledger,
) -> bool {
    submit_outcome_at(
        before,
        ctx,
        window_start,
        stats,
        sample_count,
        merkle_root,
        offchain_uri,
        program_address(aggregate_seeds(ctx.device@, window_start), before.program_id@),
        r,
        after,
    )
}

/// Registers a device owned by the signer, at the address derived from
/// `device_pubkey`, and returns that address.
pub fn register_device(
    ledger: &mut Ledger,
    ctx: &RegisterDevice,
    device_pubkey: Key,
    calibration_hash: [u8; 32],
) -> (r: Result<Key, TxError>)
    requires
        old(ledger).wf(),
    ensures
        final(ledger).wf(),
        register_outcome(*old(ledger), *ctx, device_pubkey, calibration_hash, r, *final(ledger)),
        r is Ok ==> final(ledger).device_at(r->Ok_0@) == Some(new_device(*ctx, device_pubkey, calibration_hash)),
{
    let found = device_address(&ledger.program_id, &device_pubkey);
    register_device_at(ledger, ctx, device_pubkey, calibration_hash, found)
}

/// Registers a device at `found`, the address derived for `device_pubkey`.
pub fn register_device_at(
    ledger: &mut Ledger,
    ctx: &RegisterDevice,
    device_pubkey: Key,
    calibration_hash: [u8; 32],
    found: Option<(Key, u8)>,
) -> (r: Result<Key, TxError>)
    requires
        old(ledger).wf(),
        found_view(found) == program_address(device_seeds(device_pubkey@), old(ledger).program_id@),
    ensures
        final(ledger).wf(),
        register_outcome_at(*old(ledger), *ctx, device_pubkey, calibration_hash, found_view(found), r, *final(ledger)),
        r is Ok ==> final(ledger).device_at(r->Ok_0@) == Some(new_device(*ctx, device_pubkey, calibration_hash)),
{
    let address = match found {
        Some((address, _)) => address,
        None => return Err(TxError::NoViableAddress),
    };
    let device = Device {
        authority: ctx.authority,
        device_pubkey,
        calibration_hash,
        is_active: true,
        created_at: ctx.now,
    };
    match ledger.create(Account { address, record: Record::Device(device) }) {
        Ok(()) => Ok(address),
        Err(e) => Err(e),
    }
}

/// Stores the summary of one window of the device at `ctx.device`, at the
/// address derived from that device and `window_start`, and returns that
/// address.
pub fn submit_aggregate(
    ledger: &mut Ledger,
    ctx: &SubmitAggregate,
    window_start: i64,
    stats: AggregateStats,
    sample_count: u32,
    merkle_root: [u8; 32],
    offchain_uri: String,
) -> (r: Result<Key, TxError>)
    requires
        old(ledger).wf(),
    ensures
        final(ledger).wf(),
        submit_outcome(
            *old(ledger),
            *ctx,
            window_start,
            stats,
            sample_count,
            merkle_root,
            offchain_uri,
            r,
            *final(ledger),
        ),
        r is Ok ==> final(ledger).aggregate_at(r->Ok_0@) is Some && final(ledger).aggregate_at(r->Ok_0@)->Some_0
            == new_aggregate(
            *ctx,
            window_start,
            stats,
            sample_count,
            merkle_root,
            offchain_uri,
            final(ledger).aggregate_at(r->Ok_0@)->Some_0.bump,
        ),
{
    let found = aggregate_address(&ledger.program_id, &ctx.device, window_start);
    submit_aggregate_at(ledger, ctx, window_start, stats, sample_count, merkle_root, offchain_uri, found)
}

/// Stores the summary of one window at `found`, the address derived for
/// the device at `ctx.device` and `window_start`.
pub fn submit_aggregate_at(
    ledger: &mut Ledger,
    ctx: &SubmitAggregate,
    window_start: i64,
    stats: AggregateStats,
    sample_count: u32,
    merkle_root: [u8; 32],
    offchain_uri: String,
    found: Option<(Key, u8)>,
) -> (r: Result<Key, TxError>)
    requires
        old(ledger).wf(),
        found_view(found) == program_address(aggregate_seeds(ctx.device@, window_start), old(ledger).program_id@),
    ensures
        final(ledger).wf(),
        submit_outcome_at(
            *old(ledger),
            *ctx,
            window_start,
            stats,
            sample_count,
            merkle_root,
            offchain_uri,
            found_view(found),
            r,
            *final(ledger),
        ),
        r is Ok ==> final(ledger).aggregate_at(r->Ok_0@) is Some && final(ledger).aggregate_at(r->Ok_0@)->Some_0
            == new_aggregate(
            *ctx,
            window_start,
            stats,
            sample_count,
            merkle_root,
            offchain_uri,
            final(ledger).aggregate_at(r->Ok_0@)->Some_0.bump,
        ),
{
    if offchain_uri.as_str().unicode_len() > MAX_URI_LEN {
        return Err(TxError::Program(ErrorCode::UriTooLong));
    }
    let device = match ledger.device(&ctx.device) {
        Some(d) => d,
        None => return Err(TxError::DeviceNotFound),
    };
    if !device.is_active {
        return Err(TxError::Program(ErrorCode::DeviceInactive));
    }
    if !ctx.authority.same(&device.authority) {
        return Err(TxError::Program(ErrorCode::Unauthorized));
    }
    let (address, bump) = match found {
        Some(found) => found,
        None => return Err(TxError::NoViableAddress),
    };
    let aggregate = WindowAggregate {
        device: ctx.device,
        window_start,
        stats,
        sample_count,
        merkle_root,
        offchain_uri,
        submitted_at: ctx.now,
        bump,
    };
    match ledger.create(Account { address, record: Record::Aggregate(aggregate) }) {
        Ok(()) => Ok(address),
        Err(e) => Err(e),
    }
}

} // verus!
