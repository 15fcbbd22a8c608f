//! Keys, seeds and the derivation of record addresses.

use anchor_lang::prelude::Pubkey;
use vstd::prelude::*;

verus! {

/// A 32-byte identity: a public key or the address of a record.
#[derive(Clone, Copy, Debug)]
pub struct Key {
    pub bytes: [u8; 32],
}

impl View for Key {
    type V = Seq<u8>;

    open spec fn view(&self) -> Seq<u8> {
        self.bytes@
    }
}

impl Key {
    pub fn new(bytes: [u8; 32]) -> (r: Key)
        ensures
            r.bytes == bytes,
    {
        Key { bytes }
    }

    /// Whether two keys hold the same bytes.
    pub fn same(&self, other: &Key) -> (r: bool)
        ensures
            r == (self@ == other@),
    {
        let mut i: usize = 0;
        while i < 32
            invariant
                i <= 32,
                self@.len() == 32,
                other@.len() == 32,
                forall|j: int| 0 <= j < i ==> self@[j] == other@[j],
            decreases 32 - i,
        {
            if self.bytes[i] != other.bytes[i] {
                return false;
            }
            i = i + 1;
        }
        assert(self@ =~= other@);
        true
    }

    /// The key's bytes as a vector.
    pub fn to_vec(&self) -> (r: Vec<u8>)
        ensures
            r@ == self@,
    {
        let mut out: Vec<u8> = Vec::new();
        let mut i: usize = 0;
        while i < 32
            invariant
                i <= 32,
                self@.len() == 32,
                out@ == self@.subrange(0, i as int),
            decreases 32 - i,
        {
            out.push(self.bytes[i]);
            i = i + 1;
            assert(out@ =~= self@.subrange(0, i as int));
        }
        assert(out@ =~= self@);
        out
    }
}

/// The eight bytes of `v` in two's complement, least significant first.
pub open spec fn le_bytes_spec(v: i64) -> Seq<u8> {
    Seq::new(8, |i: int| ((v as u64) >> ((8 * i) as u64)) as u8)
}

/// Encodes `v` as eight little-endian bytes.
pub fn le_bytes(v: i64) -> (r: Vec<u8>)
    ensures
        r@ == le_bytes_spec(v),
{
    let x = v as u64;
    let mut out: Vec<u8> = Vec::new();
    let mut i: u64 = 0;
    while i < 8
        invariant
            i <= 8,
            x == v as u64,
            out@.len() == i,
            forall|j: int| 0 <= j < i ==> out@[j] == le_bytes_spec(v)[j],
        decreases 8 - i,
    {
        out.push((x >> (8 * i)) as u8);
        i = i + 1;
    }
    assert(out@ =~= le_bytes_spec(v));
    out
}

/// The domain tag of device records: the ASCII bytes of "device".
pub open spec fn device_tag() -> Seq<u8> {
    seq![100u8, 101u8, 118u8, 105u8, 99u8, 101u8]
}

/// The domain tag of aggregate records: the ASCII bytes of "aggregate".
pub open spec fn aggregate_tag() -> Seq<u8> {
    seq![97u8, 103u8, 103u8, 114u8, 101u8, 103u8, 97u8, 116u8, 101u8]
}

/// The seeds that locate the device whose public key is `device_pubkey`.
pub open spec fn device_seeds(device_pubkey: Seq<u8>) -> Seq<Seq<u8>> {
    seq![device_tag(), device_pubkey]
}

/// The seeds that locate the window of `device` (a device record's address)
/// that starts at `window_start`.
pub open spec fn aggregate_seeds(device: Seq<u8>, window_start: i64) -> Seq<Seq<u8>> {
    seq![aggregate_tag(), device, le_bytes_spec(window_start)]
}

/// The program-derived address of `seeds` under `program_id`, with its bump
/// seed, or `None` where no bump seed gives an address off the curve.
pub uninterp spec fn program_address(seeds: Seq<Seq<u8>>, program_id: Seq<u8>) -> Option<(Seq<u8>, u8)>;

/// The view of a derived address and its bump seed.
pub open spec fn found_view(r: Option<(Key, u8)>) -> Option<(Seq<u8>, u8)> {
    match r {
        Some((k, bump)) => Some((k@, bump)),
        None => None,
    }
}

/// Relies on `Pubkey::try_find_program_address` (solana-program, re-exported
/// by anchor_lang): it searches the bump seeds from 255 down and returns the
/// first derived address off the curve, or `None`; the outcome depends on
/// the seeds and the program id alone.
#[verifier::external_body]
fn find_program_address(seeds: &Vec<Vec<u8>>, program_id: &Key) -> (r: Option<(Key, u8)>)
    ensures
        found_view(r) == program_address(seeds.deep_view(), program_id@),
{
    let parts: Vec<&[u8]> = seeds.iter().map(|s| s.as_slice()).collect();
    Pubkey::try_find_program_address(&parts, &Pubkey::new_from_array(program_id.bytes)).map(
        |(found, bump)| (Key { bytes: found.to_bytes() }, bump),
    )
}

/// The address of the device record for `device_pubkey`.
pub fn device_address(program_id: &Key, device_pubkey: &Key) -> (r: Option<(Key, u8)>)
    ensures
        found_view(r) == program_address(device_seeds(device_pubkey@), program_id@),
{
    let tag: Vec<u8> = vec![100u8, 101u8, 118u8, 105u8, 99u8, 101u8];
    let key = device_pubkey.to_vec();
    assert(tag.deep_view() =~= device_tag());
    assert(key.deep_view() =~= device_pubkey@);
    let seeds: Vec<Vec<u8>> = vec![tag, key];
    assert(seeds.deep_view() =~= device_seeds(device_pubkey@));
    find_program_address(&seeds, program_id)
}

/// The address of the aggregate record for the window of `device` (a device
/// record's address) that starts at `window_start`.
pub fn aggregate_address(program_id: &Key, device: &Key, window_start: i64) -> (r: Option<(Key, u8)>)
    ensures
        found_view(r) == program_address(aggregate_seeds(device@, window_start), program_id@),
{
    let tag: Vec<u8> = vec![97u8, 103u8, 103u8, 114u8, 101u8, 103u8, 97u8, 116u8, 101u8];
    let key = device.to_vec();
    let start = le_bytes(window_start);
    assert(tag.deep_view() =~= aggregate_tag());
    assert(key.deep_view() =~= device@);
    assert(start.deep_view() =~= le_bytes_spec(window_start));
    let seeds: Vec<Vec<u8>> = vec![tag, key, start];
    assert(seeds.deep_view() =~= aggregate_seeds(device@, window_start));
    find_program_address(&seeds, program_id)
}

} // verus!
