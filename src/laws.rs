//! Properties of the registry that hold for every ledger and every call.

use crate::address::Key;
use crate::ledger::{Ledger, Record};
use crate::program::{
    new_aggregate, new_device, register_outcome, rejected, submit_outcome, RegisterDevice, SubmitAggregate,
};
use crate::records::{AggregateStats, ErrorCode, TxError, MAX_URI_LEN};
use vstd::prelude::*;

verus! {

/// A well-formed ledger holds at most one device record per device public key.
pub proof fn lemma_one_device_per_key(l: Ledger, i: int, j: int)
    requires
        l.wf(),
        0 <= i < l.accounts@.len(),
        0 <= j < l.accounts@.len(),
        l.accounts@[i].record is Device,
        l.accounts@[j].record is Device,
        l.accounts@[i].record->Device_0.device_pubkey@ == l.accounts@[j].record->Device_0.device_pubkey@,
    ensures
        i == j,
{
    assert(l.well_placed(l.accounts@[i]));
    assert(l.well_placed(l.accounts@[j]));
    if i < j {
        assert(l.accounts@[i].address@ != l.accounts@[j].address@);
    } else if j < i {
        assert(l.accounts@[j].address@ != l.accounts@[i].address@);
    }
}

/// A well-formed ledger holds at most one aggregate record per device and
/// window start.
pub proof fn lemma_one_window_per_pair(l: Ledger, i: int, j: int)
    requires
        l.wf(),
        0 <= i < l.accounts@.len(),
        0 <= j < l.accounts@.len(),
        l.accounts@[i].record is Aggregate,
        l.accounts@[j].record is Aggregate,
        l.accounts@[i].record->Aggregate_0.device@ == l.accounts@[j].record->Aggregate_0.device@,
        l.accounts@[i].record->Aggregate_0.window_start == l.accounts@[j].record->Aggregate_0.window_start,
    ensures
        i == j,
{
    assert(l.well_placed(l.accounts@[i]));
    assert(l.well_placed(l.accounts@[j]));
    if i < j {
        assert(l.accounts@[i].address@ != l.accounts@[j].address@);
    } else if j < i {
        assert(l.accounts@[j].address@ != l.accounts@[i].address@);
    }
}

/// After a device key has been registered, registering it again fails with
/// `AccountInUse`, and the first record stays as it was created.
pub proof fn lemma_second_registration_fails(
    l0: Ledger,
    ctx1: RegisterDevice,
    hash1: [u8; 32],
    r1: Result<Key, TxError>,
    l1: Ledger,
    ctx2: RegisterDevice,
    device_pubkey: Key,
    hash2: [u8; 32],
    r2: Result<Key, TxError>,
    l2: Ledger,
)
    requires
        l0.wf(),
        l1.wf(),
        register_outcome(l0, ctx1, device_pubkey, hash1, r1, l1),
        r1 is Ok,
        register_outcome(l1, ctx2, device_pubkey, hash2, r2, l2),
    ensures
        rejected(l1, r2, l2, TxError::AccountInUse),
        l2.device_at(r1->Ok_0@) == Some(new_device(ctx1, device_pubkey, hash1)),
{
    let last = l1.accounts@.len() - 1;
    assert(l1.accounts@[last].address@ == r1->Ok_0@);
    assert(l1.holds(r1->Ok_0@));
    let k = l1.index_of(r1->Ok_0@);
    if k < last {
        assert(l1.accounts@[k].address@ != l1.accounts@[last].address@);
    }
}

/// After a window of a device has been stored, any further submission for
/// the same device and window start fails, and the stored record stays as
/// it was created.
pub proof fn lemma_second_submission_fails(
    l0: Ledger,
    ctx1: SubmitAggregate,
    window_start: i64,
    stats1: AggregateStats,
    sample_count1: u32,
    merkle_root1: [u8; 32],
    offchain_uri1: String,
    r1: Result<Key, TxError>,
    l1: Ledger,
    ctx2: SubmitAggregate,
    stats2: AggregateStats,
    sample_count2: u32,
    merkle_root2: [u8; 32],
    offchain_uri2: String,
    r2: Result<Key, TxError>,
    l2: Ledger,
)
    requires
        l0.wf(),
        l1.wf(),
        submit_outcome(l0, ctx1, window_start, stats1, sample_count1, merkle_root1, offchain_uri1, r1, l1),
        r1 is Ok,
        ctx2.device@ == ctx1.device@,
        submit_outcome(l1, ctx2, window_start, stats2, sample_count2, merkle_root2, offchain_uri2, r2, l2),
    ensures
        r2 is Err,
        l2 == l1,
        exists|bump: u8|
            l2.aggregate_at(r1->Ok_0@) == Some(
                new_aggregate(ctx1, window_start, stats1, sample_count1, merkle_root1, offchain_uri1, bump),
            ),
{
    let last = l1.accounts@.len() - 1;
    assert(l1.accounts@[last].address@ == r1->Ok_0@);
    assert(l1.holds(r1->Ok_0@));
    let k = l1.index_of(r1->Ok_0@);
    if k < last {
        assert(l1.accounts@[k].address@ != l1.accounts@[last].address@);
    }
    let bump = l1.accounts@[last].record->Aggregate_0.bump;
    assert(l2.aggregate_at(r1->Ok_0@) == Some(
        new_aggregate(ctx1, window_start, stats1, sample_count1, merkle_root1, offchain_uri1, bump),
    ));
}

/// A submission succeeds only for the authority of the target device; with
/// an acceptable URI and an active device, any other caller is refused with
/// `Unauthorized`.
pub proof fn lemma_only_authority_submits(
    before: Ledger,
    ctx: SubmitAggregate,
    window_start: i64,
    stats: AggregateStats,
    sample_count: u32,
    merkle_root: [u8; 32],
    offchain_uri: String,
    r: Result<Key, TxError>,
    after: Ledger,
)
    requires
        submit_outcome(before, ctx, window_start, stats, sample_count, merkle_root, offchain_uri, r, after),
    ensures
        r is Ok ==> before.device_at(ctx.device@) is Some && before.device_at(ctx.device@)->Some_0.authority@
            == ctx.authority@,
        offchain_uri@.len() <= MAX_URI_LEN && before.device_at(ctx.device@) is Some
            && before.device_at(ctx.device@)->Some_0.is_active
            && before.device_at(ctx.device@)->Some_0.authority@ != ctx.authority@ ==> rejected(
            before,
            r,
            after,
            TxError::Program(ErrorCode::Unauthorized),
        ),
{
}

/// A submission to an inactive device is refused with `DeviceInactive`
/// whenever the URI is acceptable, whoever the caller is.
pub proof fn lemma_inactive_device_refuses(
    before: Ledger,
    ctx: SubmitAggregate,
    window_start: i64,
    stats: AggregateStats,
    sample_count: u32,
    merkle_root: [u8; 32],
    offchain_uri: String,
    r: Result<Key, TxError>,
    after: Ledger,
)
    requires
        submit_outcome(before, ctx, window_start, stats, sample_count, merkle_root, offchain_uri, r, after),
    ensures
        r is Ok ==> before.device_at(ctx.device@) is Some && before.device_at(ctx.device@)->Some_0.is_active,
        offchain_uri@.len() <= MAX_URI_LEN && before.device_at(ctx.device@) is Some
            && !before.device_at(ctx.device@)->Some_0.is_active ==> rejected(
            before,
            r,
            after,
            TxError::Program(ErrorCode::DeviceInactive),
        ),
{
}

/// A URI of up to 200 characters never causes `UriTooLong`; a longer one
/// always does.
pub proof fn lemma_uri_bound(
    before: Ledger,
    ctx: SubmitAggregate,
    window_start: i64,
    stats: AggregateStats,
    sample_count: u32,
    merkle_root: [u8; 32],
    offchain_uri: String,
    r: Result<Key, TxError>,
    after: Ledger,
)
    requires
        submit_outcome(before, ctx, window_start, stats, sample_count, merkle_root, offchain_uri, r, after),
    ensures
        offchain_uri@.len() <= 200 ==> r != Err::<Key, TxError>(TxError::Program(ErrorCode::UriTooLong)),
        offchain_uri@.len() > 200 ==> rejected(before, r, after, TxError::Program(ErrorCode::UriTooLong)),
{
}

/// A refused registration leaves the ledger exactly as it was.
pub proof fn lemma_refused_registration_changes_nothing(
    before: Ledger,
    ctx: RegisterDevice,
    device_pubkey: Key,
    calibration_hash: [u8; 32],
    r: Result<Key, TxError>,
    after: Ledger,
)
    requires
        register_outcome(before, ctx, device_pubkey, calibration_hash, r, after),
    ensures
        r is Err ==> after == before,
{
}

/// A refused submission leaves the ledger exactly as it was.
pub proof fn lemma_refused_submission_changes_nothing(
    before: Ledger,
    ctx: SubmitAggregate,
    window_start: i64,
    stats: AggregateStats,
    sample_count: u32,
    merkle_root: [u8; 32],
    offchain_uri: String,
    r: Result<Key, TxError>,
    after: Ledger,
)
    requires
        submit_outcome(before, ctx, window_start, stats, sample_count, merkle_root, offchain_uri, r, after),
    ensures
        r is Err ==> after == before,
{
}

} // verus!
