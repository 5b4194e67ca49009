//! The two record types and the fixed-width process-name block.
//!
//! Process names travel as byte strings of at most
//! `MAX_PROCESS_NAME_LENGTH` bytes and are stored left-aligned in a
//! zero-padded slot of exactly that width; trimming the trailing zero
//! padding restores the original name.

use vstd::prelude::*;

use vstd::bytes::{spec_u32_to_le_bytes, spec_u64_to_le_bytes, u32_to_le_bytes, u64_to_le_bytes};
use vstd::slice::slice_to_vec;

use crate::constants::{
    DAILY_USAGE_ACCOUNT_SIZE, DEVICE_ACCOUNT_SIZE, MAX_PROCESS_NAME_LENGTH, PROCESS_ARRAY_SIZE,
};

verus! {

/// A registered device: its owner, its content-hash fingerprint, the
/// host-supplied registration time, and the one-shot certificate flag.
#[derive(Clone, Copy, Debug)]
pub struct DeviceAccount {
    /// Identity of the caller that registered the device.
    pub owner: [u8; 32],
    /// Content hash uniquely identifying the physical device.
    pub device_hash: [u8; 32],
    /// Host-supplied timestamp (seconds), set once at creation.
    pub registered_at: i64,
    /// Whether the one-time certificate has been issued for this device.
    pub nft_minted: bool,
}

/// One day of telemetry for one device, immutable once created.
#[derive(Clone, Copy, Debug)]
pub struct DailyUsageAccount {
    /// Derived storage address of the owning device record.
    pub device: [u8; 32],
    /// Caller-supplied day marker (seconds); also part of the record's key.
    pub timestamp: i64,
    /// Bit pattern of the average CPU usage percentage, stored verbatim and
    /// never interpreted by the registry.
    pub avg_cpu_usage: u32,
    /// Bit pattern of the average memory usage percentage, stored verbatim.
    pub avg_memory_usage: u32,
    /// The process names, each left-aligned in a zero-padded 32-byte slot.
    pub top_processes: [[u8; MAX_PROCESS_NAME_LENGTH]; PROCESS_ARRAY_SIZE],
    /// Hash of the raw usage payload, stored for off-path verification.
    pub data_hash: [u8; 32],
    /// Host-supplied timestamp (seconds), set once at creation.
    pub created_at: i64,
}

/// The element views of a sequence of viewable values (the byte views of a
/// list of byte strings, say).
pub open spec fn views_of<T: View>(s: Seq<T>) -> Seq<T::V> {
    Seq::new(s.len(), |i: int| s[i]@)
}

/// A sequence of `n` zero bytes.
pub open spec fn zero_bytes(n: nat) -> Seq<u8> {
    Seq::new(n, |i: int| 0u8)
}

/// Whether every name in the list fits a fixed-width slot.
pub open spec fn names_within_limit(names: Seq<Seq<u8>>) -> bool {
    forall|i: int| 0 <= i < names.len() ==> names[i].len() <= MAX_PROCESS_NAME_LENGTH
}

/// The names each padded to the fixed slot width, in input order.
pub open spec fn packed_block(names: Seq<Seq<u8>>) -> Seq<Seq<u8>> {
    Seq::new(names.len(), |i: int| pad_process_name(names[i]))
}

/// A name extended with zero padding to the fixed slot width.
pub open spec fn pad_process_name(name: Seq<u8>) -> Seq<u8>
    recommends
        name.len() <= MAX_PROCESS_NAME_LENGTH,
{
    name + zero_bytes((MAX_PROCESS_NAME_LENGTH - name.len()) as nat)
}

/// A slot with its trailing zero bytes removed.
pub open spec fn trim_padding(slot: Seq<u8>) -> Seq<u8>
    decreases slot.len(),
{
    if slot.len() == 0 {
        slot
    } else if slot.last() == 0 {
        trim_padding(slot.drop_last())
    } else {
        slot
    }
}

/// Packs a process name into its fixed-width slot, left-aligned, with the
/// remaining bytes zero.
pub fn pack_process_name(name: &Vec<u8>) -> (slot: [u8; MAX_PROCESS_NAME_LENGTH])
    requires
        name@.len() <= MAX_PROCESS_NAME_LENGTH,
    ensures
        slot@ == pad_process_name(name@),
{
    let mut slot: [u8; MAX_PROCESS_NAME_LENGTH] = [0u8; MAX_PROCESS_NAME_LENGTH];
    let mut i: usize = 0;
    while i < name.len()
        invariant
            i <= name@.len() <= MAX_PROCESS_NAME_LENGTH,
            slot@.len() == MAX_PROCESS_NAME_LENGTH,
            forall|j: int| 0 <= j < i ==> slot@[j] == name@[j],
            forall|j: int| i <= j < MAX_PROCESS_NAME_LENGTH ==> slot@[j] == 0u8,
        decreases name@.len() - i,
    {
        slot[i] = name[i];
        i += 1;
    }
    proof {
        assert(slot@ =~= pad_process_name(name@));
    }
    slot
}

/// Recovers a process name from its slot by trimming the zero padding.
pub fn unpack_process_name(slot: &[u8; MAX_PROCESS_NAME_LENGTH]) -> (name: Vec<u8>)
    ensures
        name@ == trim_padding(slot@),
{
    let mut end: usize = MAX_PROCESS_NAME_LENGTH;
    proof {
        assert(slot@.take(MAX_PROCESS_NAME_LENGTH as int) =~= slot@);
    }
    while end > 0 && slot[end - 1] == 0
        invariant
            end <= MAX_PROCESS_NAME_LENGTH,
            slot@.len() == MAX_PROCESS_NAME_LENGTH,
            trim_padding(slot@) == trim_padding(slot@.take(end as int)),
        decreases end,
    {
        proof {
            assert(slot@.take(end as int).last() == 0);
            assert(slot@.take(end as int).drop_last() =~= slot@.take(end - 1));
        }
        end -= 1;
    }
    proof {
        if end > 0 {
            assert(slot@.take(end as int).last() != 0);
            assert(trim_padding(slot@.take(end as int)) == slot@.take(end as int));
        }
    }
    let mut name: Vec<u8> = Vec::new();
    let mut i: usize = 0;
    while i < end
        invariant
            i <= end <= MAX_PROCESS_NAME_LENGTH,
            slot@.len() == MAX_PROCESS_NAME_LENGTH,
            name@.len() == i,
            forall|j: int| 0 <= j < i ==> name@[j] == slot@[j],
        decreases end - i,
    {
        name.push(slot[i]);
        i += 1;
    }
    proof {
        assert(name@ =~= slot@.take(end as int));
    }
    name
}

impl DailyUsageAccount {
    /// The `i`-th stored process name with its zero padding trimmed.
    pub fn process_name(&self, i: usize) -> (name: Vec<u8>)
        requires
            i < PROCESS_ARRAY_SIZE,
        ensures
            name@ == trim_padding(self.top_processes@[i as int]@),
    {
        unpack_process_name(&self.top_processes[i])
    }
}

/// Trimming ignores appended zero bytes.
proof fn lemma_trim_of_zero_extended(name: Seq<u8>, n: nat)
    ensures
        trim_padding(name + zero_bytes(n)) == trim_padding(name),
    decreases n,
{
    if n == 0 {
        assert(name + zero_bytes(0) =~= name);
    } else {
        let padded = name + zero_bytes(n);
        assert(padded.last() == 0);
        assert(padded.drop_last() =~= name + zero_bytes((n - 1) as nat));
        lemma_trim_of_zero_extended(name, (n - 1) as nat);
    }
}

/// Law: a process name within the slot width and without trailing zero
/// bytes round-trips through the fixed-width slot — trimming the padded
/// slot restores exactly the original bytes.
pub proof fn lemma_process_name_round_trip(name: Seq<u8>)
    requires
        name.len() <= MAX_PROCESS_NAME_LENGTH,
        name.len() > 0 ==> name.last() != 0,
    ensures
        trim_padding(pad_process_name(name)) == name,
{
    lemma_trim_of_zero_extended(name, (MAX_PROCESS_NAME_LENGTH - name.len()) as nat);
    assert(trim_padding(name) == name);
}

/// Appends the bytes of `src` to `dst`.
fn append_bytes(dst: &mut Vec<u8>, src: &[u8])
    ensures
        final(dst)@ == old(dst)@ + src@,
{
    let mut more = slice_to_vec(src);
    dst.append(&mut more);
}

impl DeviceAccount {
    /// The record in its at-rest layout under the given 8-byte tag: tag,
    /// owner, fingerprint, little-endian registration time, flag byte.
    pub open spec fn spec_encoding(self, tag: Seq<u8>) -> Seq<u8> {
        tag + self.owner@ + self.device_hash@ + spec_u64_to_le_bytes(self.registered_at as u64)
            + seq![(if self.nft_minted { 1u8 } else { 0u8 })]
    }

    /// Serializes the record into its fixed 81-byte at-rest layout.
    pub fn encode(&self, tag: &[u8; 8]) -> (r: Vec<u8>)
        ensures
            r@ == self.spec_encoding(tag@),
            r@.len() == DEVICE_ACCOUNT_SIZE,
    {
        let mut r: Vec<u8> = Vec::new();
        append_bytes(&mut r, tag.as_slice());
        append_bytes(&mut r, self.owner.as_slice());
        append_bytes(&mut r, self.device_hash.as_slice());
        let mut ts = u64_to_le_bytes(self.registered_at as u64);
        r.append(&mut ts);
        r.push(if self.nft_minted { 1u8 } else { 0u8 });
        proof {
            vstd::bytes::lemma_auto_spec_u64_to_from_le_bytes();
            assert(r@ =~= self.spec_encoding(tag@));
        }
        r
    }
}

impl DailyUsageAccount {
    /// The record in its at-rest layout under the given 8-byte tag: tag,
    /// device address, little-endian day marker, the two little-endian
    /// metric words, the five process-name slots in order, the data hash,
    /// and the little-endian creation time.
    pub open spec fn spec_encoding(self, tag: Seq<u8>) -> Seq<u8> {
        tag + self.device@ + spec_u64_to_le_bytes(self.timestamp as u64) + spec_u32_to_le_bytes(
            self.avg_cpu_usage,
        ) + spec_u32_to_le_bytes(self.avg_memory_usage) + self.top_processes@[0]@
            + self.top_processes@[1]@ + self.top_processes@[2]@ + self.top_processes@[3]@
            + self.top_processes@[4]@ + self.data_hash@ + spec_u64_to_le_bytes(
            self.created_at as u64,
        )
    }

    /// Serializes the record into its fixed 256-byte at-rest layout.
    pub fn encode(&self, tag: &[u8; 8]) -> (r: Vec<u8>)
        ensures
            r@ == self.spec_encoding(tag@),
            r@.len() == DAILY_USAGE_ACCOUNT_SIZE,
    {
        let mut r: Vec<u8> = Vec::new();
        append_bytes(&mut r, tag.as_slice());
        append_bytes(&mut r, self.device.as_slice());
        let mut ts = u64_to_le_bytes(self.timestamp as u64);
        r.append(&mut ts);
        let mut cpu = u32_to_le_bytes(self.avg_cpu_usage);
        r.append(&mut cpu);
        let mut mem = u32_to_le_bytes(self.avg_memory_usage);
        r.append(&mut mem);
        append_bytes(&mut r, self.top_processes[0].as_slice());
        append_bytes(&mut r, self.top_processes[1].as_slice());
        append_bytes(&mut r, self.top_processes[2].as_slice());
        append_bytes(&mut r, self.top_processes[3].as_slice());
        append_bytes(&mut r, self.top_processes[4].as_slice());
        append_bytes(&mut r, self.data_hash.as_slice());
        let mut created = u64_to_le_bytes(self.created_at as u64);
        r.append(&mut created);
        proof {
            vstd::bytes::lemma_auto_spec_u64_to_from_le_bytes();
            vstd::bytes::lemma_auto_spec_u32_to_from_le_bytes();
            assert(r@ =~= self.spec_encoding(tag@));
        }
        r
    }
}

} // verus!
