use anchor_lang::prelude::Pubkey;
use pravardha::{
    aggregate_address, device_address, le_bytes, register_device, submit_aggregate, AggregateStats, ErrorCode, Key,
    Ledger, RegisterDevice, SubmitAggregate, TxError,
};

fn program_id() -> Key {
    let id: Pubkey = "3ymKhbdeWhih43vZ9jp4xyoJnSH7YUosUaN1tVDQZEQR".parse().unwrap();
    Key::new(id.to_bytes())
}

fn key(b: u8) -> Key {
    Key::new([b; 32])
}

fn zero_stats() -> AggregateStats {
    let z = 0.0f32.to_bits();
    AggregateStats {
        temp_min: z,
        temp_max: z,
        temp_avg: z,
        humidity_min: z,
        humidity_max: z,
        humidity_avg: z,
        pressure_min: z,
        pressure_max: z,
        pressure_avg: z,
    }
}

fn owner_a() -> Key {
    key(0xA1)
}

fn device_d1() -> Key {
    key(0xD1)
}

/// A ledger with device D1 registered by owner A; returns the device's address.
fn ledger_with_d1() -> (Ledger, Key) {
    let mut ledger = Ledger::new(program_id());
    let ctx = RegisterDevice { authority: owner_a(), now: 1_699_999_000 };
    let address = register_device(&mut ledger, &ctx, device_d1(), [0x11; 32]).unwrap();
    (ledger, address)
}

fn submit(ledger: &mut Ledger, device: Key, authority: Key, window_start: i64, uri: &str) -> Result<Key, TxError> {
    let ctx = SubmitAggregate { device, authority, now: 1_700_000_950 };
    submit_aggregate(ledger, &ctx, window_start, zero_stats(), 900, [0x22; 32], uri.to_string())
}

fn snapshot(ledger: &Ledger) -> String {
    format!("{:?}", ledger)
}

#[test]
fn register_creates_active_device_owned_by_caller() {
    let (ledger, address) = ledger_with_d1();
    let device = ledger.device(&address).unwrap();
    assert!(device.is_active);
    assert!(device.authority.same(&owner_a()));
    assert!(device.device_pubkey.same(&device_d1()));
    assert_eq!(device.calibration_hash, [0x11; 32]);
    assert_eq!(device.created_at, 1_699_999_000);
    assert_eq!(ledger.accounts.len(), 1);
}

#[test]
fn register_returns_derived_device_address() {
    let (_, address) = ledger_with_d1();
    let (expected, _) = device_address(&program_id(), &device_d1()).unwrap();
    assert!(address.same(&expected));
}

#[test]
fn device_address_matches_program_derivation() {
    let pid = Pubkey::new_from_array(program_id().bytes);
    let (pda, bump) = Pubkey::find_program_address(&[b"device", &[0xD1; 32]], &pid);
    let (found, found_bump) = device_address(&program_id(), &device_d1()).unwrap();
    assert_eq!(found.bytes, pda.to_bytes());
    assert_eq!(found_bump, bump);
    assert!(!found.same(&device_d1()));
    assert!(!found.same(&program_id()));
}

#[test]
fn aggregate_address_matches_program_derivation() {
    let pid = Pubkey::new_from_array(program_id().bytes);
    let device = key(0x42);
    let start: i64 = 1_700_000_000;
    let (pda, bump) = Pubkey::find_program_address(&[b"aggregate", &[0x42; 32], &start.to_le_bytes()], &pid);
    let (found, found_bump) = aggregate_address(&program_id(), &device, start).unwrap();
    assert_eq!(found.bytes, pda.to_bytes());
    assert_eq!(found_bump, bump);
    let (other, _) = aggregate_address(&program_id(), &device, start + 900).unwrap();
    assert!(!other.same(&found));
}

#[test]
fn derivation_is_deterministic() {
    let (a, bump_a) = device_address(&program_id(), &device_d1()).unwrap();
    let (b, bump_b) = device_address(&program_id(), &device_d1()).unwrap();
    assert!(a.same(&b));
    assert_eq!(bump_a, bump_b);
    let (c, _) = device_address(&program_id(), &key(0xD2)).unwrap();
    assert!(!a.same(&c));
}

#[test]
fn le_bytes_encodes_little_endian() {
    assert_eq!(le_bytes(1_700_000_000), vec![0x00, 0xF1, 0x53, 0x65, 0, 0, 0, 0]);
    assert_eq!(le_bytes(-1), vec![0xFF; 8]);
    assert_eq!(le_bytes(0), vec![0; 8]);
    assert_eq!(le_bytes(i64::MIN), vec![0, 0, 0, 0, 0, 0, 0, 0x80]);
    assert_eq!(le_bytes(0x0102030405060708), 0x0102030405060708i64.to_le_bytes().to_vec());
}

#[test]
fn key_same_compares_all_bytes() {
    let mut b = [7u8; 32];
    assert!(Key::new(b).same(&Key::new(b)));
    b[31] = 8;
    assert!(!Key::new(b).same(&key(7)));
    b[31] = 7;
    b[0] = 0;
    assert!(!Key::new(b).same(&key(7)));
}

#[test]
fn second_registration_of_same_key_fails() {
    let (mut ledger, address) = ledger_with_d1();
    let before = snapshot(&ledger);
    let ctx = RegisterDevice { authority: key(0xB2), now: 1_700_100_000 };
    let r = register_device(&mut ledger, &ctx, device_d1(), [0x99; 32]);
    assert_eq!(r.unwrap_err(), TxError::AccountInUse);
    assert_eq!(snapshot(&ledger), before);
    let device = ledger.device(&address).unwrap();
    assert!(device.authority.same(&owner_a()));
    assert_eq!(device.calibration_hash, [0x11; 32]);
}

#[test]
fn distinct_keys_register_independently() {
    let (mut ledger, first) = ledger_with_d1();
    let ctx = RegisterDevice { authority: owner_a(), now: 5 };
    let second = register_device(&mut ledger, &ctx, key(0xD2), [0x12; 32]).unwrap();
    assert!(!first.same(&second));
    assert_eq!(ledger.accounts.len(), 2);
    assert!(ledger.device(&second).unwrap().device_pubkey.same(&key(0xD2)));
}

#[test]
fn submit_creates_window_aggregate() {
    let (mut ledger, device) = ledger_with_d1();
    let address = submit(&mut ledger, device, owner_a(), 1_700_000_000, "ipfs://cid1").unwrap();
    let (expected, bump) = aggregate_address(&program_id(), &device, 1_700_000_000).unwrap();
    assert!(address.same(&expected));
    let w = ledger.aggregate(&address).unwrap();
    assert!(w.device.same(&device));
    assert_eq!(w.window_start, 1_700_000_000);
    assert_eq!(w.stats, zero_stats());
    assert_eq!(w.sample_count, 900);
    assert_eq!(w.merkle_root, [0x22; 32]);
    assert_eq!(w.offchain_uri, "ipfs://cid1");
    assert_eq!(w.submitted_at, 1_700_000_950);
    assert_eq!(w.bump, bump);
    assert_eq!(ledger.accounts.len(), 2);
}

#[test]
fn submit_keeps_stats_bits_verbatim() {
    let (mut ledger, device) = ledger_with_d1();
    let mut stats = zero_stats();
    stats.temp_min = 21.5f32.to_bits();
    stats.temp_max = 19.0f32.to_bits();
    stats.pressure_avg = f32::NAN.to_bits();
    let ctx = SubmitAggregate { device, authority: owner_a(), now: 3 };
    let address = submit_aggregate(&mut ledger, &ctx, 0, stats, 0, [0; 32], String::new()).unwrap();
    let w = ledger.aggregate(&address).unwrap();
    assert_eq!(f32::from_bits(w.stats.temp_min), 21.5);
    assert_eq!(f32::from_bits(w.stats.temp_max), 19.0);
    assert!(f32::from_bits(w.stats.pressure_avg).is_nan());
    assert_eq!(w.sample_count, 0);
}

#[test]
fn duplicate_window_fails_and_changes_nothing() {
    let (mut ledger, device) = ledger_with_d1();
    let first = submit(&mut ledger, device, owner_a(), 1_700_000_000, "ipfs://cid1").unwrap();
    let before = snapshot(&ledger);
    let r = submit(&mut ledger, device, owner_a(), 1_700_000_000, "ipfs://cid2");
    assert_eq!(r.unwrap_err(), TxError::AccountInUse);
    assert_eq!(snapshot(&ledger), before);
    assert_eq!(ledger.aggregate(&first).unwrap().offchain_uri, "ipfs://cid1");
}

#[test]
fn next_window_of_same_device_is_accepted() {
    let (mut ledger, device) = ledger_with_d1();
    let a = submit(&mut ledger, device, owner_a(), 1_700_000_000, "ipfs://cid1").unwrap();
    let b = submit(&mut ledger, device, owner_a(), 1_700_000_900, "ipfs://cid2").unwrap();
    assert!(!a.same(&b));
    assert_eq!(ledger.accounts.len(), 3);
}

#[test]
fn other_owner_is_unauthorized() {
    let (mut ledger, device) = ledger_with_d1();
    let before = snapshot(&ledger);
    let r = submit(&mut ledger, device, key(0xB2), 1_700_000_000, "ipfs://cid1");
    assert_eq!(r.unwrap_err(), TxError::Program(ErrorCode::Unauthorized));
    assert_eq!(snapshot(&ledger), before);
}

#[test]
fn uri_of_200_characters_is_accepted() {
    let (mut ledger, device) = ledger_with_d1();
    let uri = "u".repeat(200);
    let address = submit(&mut ledger, device, owner_a(), 1_700_000_000, &uri).unwrap();
    assert_eq!(ledger.aggregate(&address).unwrap().offchain_uri, uri);
}

#[test]
fn uri_of_201_characters_is_too_long() {
    let (mut ledger, device) = ledger_with_d1();
    let before = snapshot(&ledger);
    let r = submit(&mut ledger, device, owner_a(), 1_700_000_000, &"u".repeat(201));
    assert_eq!(r.unwrap_err(), TxError::Program(ErrorCode::UriTooLong));
    assert_eq!(snapshot(&ledger), before);
    assert_eq!(ledger.accounts.len(), 1);
}

#[test]
fn uri_bound_counts_characters_not_bytes() {
    let (mut ledger, device) = ledger_with_d1();
    let uri = "é".repeat(200);
    assert_eq!(uri.len(), 400);
    assert!(submit(&mut ledger, device, owner_a(), 7, &uri).is_ok());
    let r = submit(&mut ledger, device, owner_a(), 8, &"é".repeat(201));
    assert_eq!(r.unwrap_err(), TxError::Program(ErrorCode::UriTooLong));
}

#[test]
fn uri_is_checked_before_device_and_authority() {
    let (mut ledger, device) = ledger_with_d1();
    let long = "u".repeat(201);
    let r = submit(&mut ledger, device, key(0xB2), 1, &long);
    assert_eq!(r.unwrap_err(), TxError::Program(ErrorCode::UriTooLong));
    let r = submit(&mut ledger, key(0x55), owner_a(), 1, &long);
    assert_eq!(r.unwrap_err(), TxError::Program(ErrorCode::UriTooLong));
}

#[test]
fn inactive_device_refuses_submission() {
    let (mut ledger, device) = ledger_with_d1();
    assert!(ledger.set_active(&device, false));
    assert!(!ledger.device(&device).unwrap().is_active);
    let before = snapshot(&ledger);
    let r = submit(&mut ledger, device, owner_a(), 1_700_000_000, "ipfs://cid1");
    assert_eq!(r.unwrap_err(), TxError::Program(ErrorCode::DeviceInactive));
    assert_eq!(snapshot(&ledger), before);
}

#[test]
fn inactive_is_checked_before_authority() {
    let (mut ledger, device) = ledger_with_d1();
    ledger.set_active(&device, false);
    let r = submit(&mut ledger, device, key(0xB2), 1_700_000_000, "ipfs://cid1");
    assert_eq!(r.unwrap_err(), TxError::Program(ErrorCode::DeviceInactive));
}

#[test]
fn reactivated_device_accepts_submission() {
    let (mut ledger, device) = ledger_with_d1();
    ledger.set_active(&device, false);
    ledger.set_active(&device, true);
    assert!(submit(&mut ledger, device, owner_a(), 1_700_000_000, "ipfs://cid1").is_ok());
}

#[test]
fn set_active_on_missing_device_changes_nothing() {
    let (mut ledger, device) = ledger_with_d1();
    let window = submit(&mut ledger, device, owner_a(), 1, "x").unwrap();
    let before = snapshot(&ledger);
    assert!(!ledger.set_active(&key(0x77), false));
    assert!(!ledger.set_active(&window, false));
    assert_eq!(snapshot(&ledger), before);
}

#[test]
fn unknown_device_address_is_refused() {
    let (mut ledger, _) = ledger_with_d1();
    let before = snapshot(&ledger);
    let r = submit(&mut ledger, key(0x55), owner_a(), 1, "ipfs://cid1");
    assert_eq!(r.unwrap_err(), TxError::DeviceNotFound);
    assert_eq!(snapshot(&ledger), before);
}

#[test]
fn window_address_is_not_a_device() {
    let (mut ledger, device) = ledger_with_d1();
    let window = submit(&mut ledger, device, owner_a(), 1, "ipfs://cid1").unwrap();
    assert!(ledger.device(&window).is_none());
    assert!(ledger.aggregate(&device).is_none());
    let r = submit(&mut ledger, window, owner_a(), 2, "ipfs://cid1");
    assert_eq!(r.unwrap_err(), TxError::DeviceNotFound);
}

#[test]
fn full_scenario() {
    let (mut ledger, d1) = ledger_with_d1();
    assert!(submit(&mut ledger, d1, owner_a(), 1_700_000_000, "ipfs://cid1").is_ok());
    let after_two = snapshot(&ledger);
    assert_eq!(submit(&mut ledger, d1, owner_a(), 1_700_000_000, "ipfs://cid1").unwrap_err(), TxError::AccountInUse);
    assert_eq!(
        submit(&mut ledger, d1, key(0xB2), 1_700_000_900, "ipfs://cid1").unwrap_err(),
        TxError::Program(ErrorCode::Unauthorized)
    );
    assert_eq!(
        submit(&mut ledger, d1, owner_a(), 1_700_000_900, &"u".repeat(201)).unwrap_err(),
        TxError::Program(ErrorCode::UriTooLong)
    );
    assert_eq!(snapshot(&ledger), after_two);
    ledger.set_active(&d1, false);
    assert_eq!(
        submit(&mut ledger, d1, owner_a(), 1_700_000_900, "ipfs://cid1").unwrap_err(),
        TxError::Program(ErrorCode::DeviceInactive)
    );
    assert_eq!(ledger.accounts.len(), 2);
}

#[test]
fn error_messages() {
    assert_eq!(ErrorCode::UriTooLong.message(), "URI too long (max 200 characters)");
    assert_eq!(ErrorCode::DeviceInactive.message(), "Device is not active");
    assert_eq!(ErrorCode::Unauthorized.message(), "Unauthorized: not device authority");
}
