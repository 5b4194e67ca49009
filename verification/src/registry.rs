//! The registry: a keyed record store and the three state transitions.
//!
//! The store enforces uniqueness structurally: device records are keyed by
//! the device fingerprint, usage records by the fingerprint and the day
//! marker, and a create at an occupied key is a definite rejection. Every
//! operation validates fully before it writes, so a rejected request leaves
//! the registry exactly as it was.

use vstd::prelude::*;

use crate::address::{address_of, derive_device_address, device_seeds};
use crate::constants::{MAX_DEVICE_NAME_LENGTH, MAX_PROCESS_NAME_LENGTH, PROCESS_ARRAY_SIZE};
use crate::errors::KTSError;
use crate::state::{
    names_within_limit, pack_process_name, packed_block, views_of, DailyUsageAccount,
    DeviceAccount,
};

verus! {

/// A usage record beside the fingerprint half of its key; the other half,
/// the day marker, is the record's own timestamp field.
#[derive(Clone, Copy, Debug)]
pub struct UsageEntry {
    /// Fingerprint of the device the record belongs to.
    pub device_hash: [u8; 32],
    /// The stored usage record.
    pub record: DailyUsageAccount,
}

/// Whether a stored usage record satisfies the creation contract of the
/// upload operation: its device field holds the derived device address, and
/// every other field is taken verbatim from the request (the process names
/// padded into their fixed-width slots), with the host-supplied creation
/// time.
pub open spec fn usage_record_matches(
    record: DailyUsageAccount,
    address: Option<Seq<u8>>,
    timestamp: i64,
    avg_cpu_usage: u32,
    avg_memory_usage: u32,
    names: Seq<Seq<u8>>,
    data_hash: Seq<u8>,
    now: i64,
) -> bool {
    &&& address == Some(record.device@)
    &&& record.timestamp == timestamp
    &&& record.avg_cpu_usage == avg_cpu_usage
    &&& record.avg_memory_usage == avg_memory_usage
    &&& views_of(record.top_processes@) == packed_block(names)
    &&& record.data_hash@ == data_hash
    &&& record.created_at == now
}

/// The device registry and usage ledger over one keyed store.
pub struct Registry {
    program_id: [u8; 32],
    devices: Vec<DeviceAccount>,
    usages: Vec<UsageEntry>,
}

impl Registry {
    /// The program id under which record addresses are derived.
    pub closed spec fn spec_program_id(self) -> Seq<u8> {
        self.program_id@
    }

    /// The stored device records, in creation order.
    pub closed spec fn devices(self) -> Seq<DeviceAccount> {
        self.devices@
    }

    /// The stored usage entries, in creation order.
    pub closed spec fn usages(self) -> Seq<UsageEntry> {
        self.usages@
    }

    /// Key uniqueness: no two device records share a fingerprint, and no two
    /// usage records share a fingerprint and a day marker.
    pub closed spec fn wf(self) -> bool {
        &&& (forall|i: int, j: int|
            0 <= i < j < self.devices@.len() ==> self.devices@[i].device_hash@
                != self.devices@[j].device_hash@)
        &&& (forall|i: int, j: int|
            0 <= i < j < self.usages@.len() ==> !(self.usages@[i].device_hash@
                == self.usages@[j].device_hash@ && self.usages@[i].record.timestamp
                == self.usages@[j].record.timestamp))
    }

    /// Whether a device record exists for the fingerprint.
    pub open spec fn spec_has_device(self, device_hash: Seq<u8>) -> bool {
        exists|i: int|
            0 <= i < self.devices().len() && self.devices()[i].device_hash@ == device_hash
    }

    /// The position of the device record for the fingerprint.
    pub open spec fn spec_device_index(self, device_hash: Seq<u8>) -> int {
        choose|i: int|
            0 <= i < self.devices().len() && self.devices()[i].device_hash@ == device_hash
    }

    /// The device record stored for the fingerprint.
    pub open spec fn spec_device(self, device_hash: Seq<u8>) -> DeviceAccount {
        self.devices()[self.spec_device_index(device_hash)]
    }

    /// Whether a usage record exists for the fingerprint and day marker.
    pub open spec fn spec_has_usage(self, device_hash: Seq<u8>, timestamp: i64) -> bool {
        exists|i: int|
            0 <= i < self.usages().len() && self.usages()[i].device_hash@ == device_hash
                && self.usages()[i].record.timestamp == timestamp
    }

    /// The position of the usage entry for the fingerprint and day marker.
    pub open spec fn spec_usage_index(self, device_hash: Seq<u8>, timestamp: i64) -> int {
        choose|i: int|
            0 <= i < self.usages().len() && self.usages()[i].device_hash@ == device_hash
                && self.usages()[i].record.timestamp == timestamp
    }

    /// The usage record stored for the fingerprint and day marker.
    pub open spec fn spec_usage(self, device_hash: Seq<u8>, timestamp: i64) -> DailyUsageAccount {
        self.usages()[self.spec_usage_index(device_hash, timestamp)].record
    }

    /// An empty registry under the given program id.
    pub fn new(program_id: [u8; 32]) -> (r: Registry)
        ensures
            r.wf(),
            r.spec_program_id() == program_id@,
            r.devices() == Seq::<DeviceAccount>::empty(),
            r.usages() == Seq::<UsageEntry>::empty(),
    {
        let r = Registry { program_id, devices: Vec::new(), usages: Vec::new() };
        proof {
            assert(r.devices() =~= Seq::<DeviceAccount>::empty());
            assert(r.usages() =~= Seq::<UsageEntry>::empty());
        }
        r
    }

    /// A device record found at position `i` is the one the lookup functions
    /// denote: under key uniqueness the position is unique.
    proof fn lemma_device_index(self, device_hash: Seq<u8>, i: int)
        requires
            self.wf(),
            0 <= i < self.devices().len(),
            self.devices()[i].device_hash@ == device_hash,
        ensures
            self.spec_has_device(device_hash),
            self.spec_device_index(device_hash) == i,
            self.spec_device(device_hash) == self.devices()[i],
    {
        assert(self.spec_has_device(device_hash));
        let c = self.spec_device_index(device_hash);
        assert(0 <= c < self.devices().len() && self.devices()[c].device_hash@ == device_hash);
        if c < i {
            assert(self.devices@[c].device_hash@ != self.devices@[i].device_hash@);
        } else if i < c {
            assert(self.devices@[i].device_hash@ != self.devices@[c].device_hash@);
        }
    }

    /// A usage entry found at position `i` is the one the lookup functions
    /// denote: under key uniqueness the position is unique.
    proof fn lemma_usage_index(self, device_hash: Seq<u8>, timestamp: i64, i: int)
        requires
            self.wf(),
            0 <= i < self.usages().len(),
            self.usages()[i].device_hash@ == device_hash,
            self.usages()[i].record.timestamp == timestamp,
        ensures
            self.spec_has_usage(device_hash, timestamp),
            self.spec_usage_index(device_hash, timestamp) == i,
            self.spec_usage(device_hash, timestamp) == self.usages()[i].record,
    {
        assert(self.spec_has_usage(device_hash, timestamp));
        let c = self.spec_usage_index(device_hash, timestamp);
        assert(0 <= c < self.usages().len() && self.usages()[c].device_hash@ == device_hash
            && self.usages()[c].record.timestamp == timestamp);
        if c < i {
            assert(!(self.usages@[c].device_hash@ == self.usages@[i].device_hash@
                && self.usages@[c].record.timestamp == self.usages@[i].record.timestamp));
        } else if i < c {
            assert(!(self.usages@[i].device_hash@ == self.usages@[c].device_hash@
                && self.usages@[i].record.timestamp == self.usages@[c].record.timestamp));
        }
    }

    /// Finds the position of the device record for a fingerprint.
    fn find_device(&self, device_hash: &[u8; 32]) -> (r: Option<usize>)
        requires
            self.wf(),
        ensures
            (match r {
                Some(i) => self.spec_has_device(device_hash@) && i == self.spec_device_index(
                    device_hash@,
                ),
                None => !self.spec_has_device(device_hash@),
            }),
    {
        let mut i: usize = 0;
        while i < self.devices.len()
            invariant
                self.wf(),
                i <= self.devices@.len(),
                forall|j: int| 0 <= j < i ==> self.devices@[j].device_hash@ != device_hash@,
            decreases self.devices@.len() - i,
        {
            if bytes32_eq(&self.devices[i].device_hash, device_hash) {
                proof {
                    self.lemma_device_index(device_hash@, i as int);
                }
                return Some(i);
            }
            i += 1;
        }
        None
    }

    /// Finds the position of the usage entry for a fingerprint and day.
    fn find_usage(&self, device_hash: &[u8; 32], timestamp: i64) -> (r: Option<usize>)
        requires
            self.wf(),
        ensures
            (match r {
                Some(i) => self.spec_has_usage(device_hash@, timestamp) && i
                    == self.spec_usage_index(device_hash@, timestamp),
                None => !self.spec_has_usage(device_hash@, timestamp),
            }),
    {
        let mut i: usize = 0;
        while i < self.usages.len()
            invariant
                self.wf(),
                i <= self.usages@.len(),
                forall|j: int|
                    0 <= j < i ==> !(self.usages@[j].device_hash@ == device_hash@
                        && self.usages@[j].record.timestamp == timestamp),
            decreases self.usages@.len() - i,
        {
            if bytes32_eq(&self.usages[i].device_hash, device_hash) && self.usages[i].record.timestamp
                == timestamp {
                proof {
                    self.lemma_usage_index(device_hash@, timestamp, i as int);
                }
                return Some(i);
            }
            i += 1;
        }
        None
    }

    /// Records a new device under its fingerprint.
    ///
    /// The device name is validated first; then the create fails exactly when
    /// the fingerprint's key is already occupied. On success the new record
    /// carries the caller as owner, the fingerprint, the host-supplied
    /// registration time, and the certificate flag cleared.
    pub fn register_device(
        &mut self,
        caller: [u8; 32],
        device_hash: [u8; 32],
        device_name: &Vec<u8>,
        now: i64,
    ) -> (r: Result<(), KTSError>)
        requires
            old(self).wf(),
        ensures
            final(self).wf(),
            final(self).spec_program_id() == old(self).spec_program_id(),
            final(self).usages() == old(self).usages(),
            (if device_name@.len() > MAX_DEVICE_NAME_LENGTH {
                r == Err::<(), KTSError>(KTSError::InvalidDeviceNameLength) && final(self).devices()
                    == old(self).devices()
            } else if old(self).spec_has_device(device_hash@) {
                r == Err::<(), KTSError>(KTSError::DeviceAlreadyRegistered) && final(self).devices()
                    == old(self).devices()
            } else {
                r == Ok::<(), KTSError>(()) && final(self).devices() == old(self).devices().push(
                    (DeviceAccount {
                        owner: caller,
                        device_hash: device_hash,
                        registered_at: now,
                        nft_minted: false,
                    }),
                )
            }),
    {
        if device_name.len() > MAX_DEVICE_NAME_LENGTH {
            return Err(KTSError::InvalidDeviceNameLength);
        }
        if self.find_device(&device_hash).is_some() {
            return Err(KTSError::DeviceAlreadyRegistered);
        }
        let record = DeviceAccount {
            owner: caller,
            device_hash: device_hash,
            registered_at: now,
            nft_minted: false,
        };
        self.devices.push(record);
        proof {
            let pre = old(self).devices@;
            let post = self.devices@;
            assert forall|i: int, j: int|
                0 <= i < j < post.len() implies post[i].device_hash@
                != post[j].device_hash@ by {
                if j == post.len() - 1 {
                    assert(post[i] == pre[i]);
                    assert(!old(self).spec_has_device(device_hash@));
                }
            }
        }
        Ok(())
    }

    /// Sets the one-shot certificate flag on the caller's device.
    ///
    /// Only the stored owner may issue, and only while the flag is still
    /// clear: a second issuance is a definite rejection, not a no-op. No
    /// other field changes.
    pub fn mark_nft_minted(&mut self, caller: [u8; 32], device_hash: [u8; 32]) -> (r: Result<
        (),
        KTSError,
    >)
        requires
            old(self).wf(),
        ensures
            final(self).wf(),
            final(self).spec_program_id() == old(self).spec_program_id(),
            final(self).usages() == old(self).usages(),
            (if !old(self).spec_has_device(device_hash@) {
                r == Err::<(), KTSError>(KTSError::InvalidDeviceOwner) && final(self).devices()
                    == old(self).devices()
            } else if old(self).spec_device(device_hash@).owner@ != caller@ {
                r == Err::<(), KTSError>(KTSError::InvalidDeviceOwner) && final(self).devices()
                    == old(self).devices()
            } else if old(self).spec_device(device_hash@).nft_minted {
                r == Err::<(), KTSError>(KTSError::CertificateAlreadyIssued) && final(self).devices() == old(self).devices()
            } else {
                r == Ok::<(), KTSError>(()) && final(self).devices() == old(self).devices().update(
                    old(self).spec_device_index(device_hash@),
                    (DeviceAccount {
                        owner: old(self).spec_device(device_hash@).owner,
                        device_hash: old(self).spec_device(device_hash@).device_hash,
                        registered_at: old(self).spec_device(device_hash@).registered_at,
                        nft_minted: true,
                    }),
                )
            }),
    {
        let i = match self.find_device(&device_hash) {
            None => {
                return Err(KTSError::InvalidDeviceOwner);
            },
            Some(i) => i,
        };
        let dev = self.devices[i];
        if !bytes32_eq(&dev.owner, &caller) {
            return Err(KTSError::InvalidDeviceOwner);
        }
        if dev.nft_minted {
            return Err(KTSError::CertificateAlreadyIssued);
        }
        let updated = DeviceAccount {
            owner: dev.owner,
            device_hash: dev.device_hash,
            registered_at: dev.registered_at,
            nft_minted: true,
        };
        self.devices[i] = updated;
        proof {
            let pre = old(self).devices@;
            let post = self.devices@;
            assert forall|a: int, b: int|
                0 <= a < b < post.len() implies post[a].device_hash@
                != post[b].device_hash@ by {
                assert(post[a].device_hash@ == pre[a].device_hash@);
                assert(post[b].device_hash@ == pre[b].device_hash@);
            }
        }
        Ok(())
    }

    /// Accepts one day of telemetry for the caller's device.
    ///
    /// Fail-fast validation, in order: the fingerprint must name a stored
    /// record, the caller must be its owner, the process list must have
    /// exactly `PROCESS_ARRAY_SIZE` entries, every name must fit its slot,
    /// and the day's key must still be free. All checks precede the write,
    /// so a rejection leaves no partial state.
    #[verifier::loop_isolation(false)]
    pub fn upload_daily_usage(
        &mut self,
        caller: [u8; 32],
        device_hash: [u8; 32],
        timestamp: i64,
        avg_cpu_usage: u32,
        avg_memory_usage: u32,
        top_processes: &Vec<Vec<u8>>,
        data_hash: [u8; 32],
        now: i64,
    ) -> (r: Result<(), KTSError>)
        requires
            old(self).wf(),
        ensures
            final(self).wf(),
            final(self).spec_program_id() == old(self).spec_program_id(),
            final(self).devices() == old(self).devices(),
            (if !old(self).spec_has_device(device_hash@) {
                r == Err::<(), KTSError>(KTSError::InvalidDeviceOwner) && final(self).usages()
                    == old(self).usages()
            } else if old(self).spec_device(device_hash@).owner@ != caller@ {
                r == Err::<(), KTSError>(KTSError::InvalidDeviceOwner) && final(self).usages()
                    == old(self).usages()
            } else if top_processes@.len() != PROCESS_ARRAY_SIZE {
                r == Err::<(), KTSError>(KTSError::InvalidTopProcessesArraySize) && final(self).usages() == old(self).usages()
            } else if !names_within_limit(views_of(top_processes@)) {
                r == Err::<(), KTSError>(KTSError::InvalidProcessNameLength) && final(self).usages()
                    == old(self).usages()
            } else if old(self).spec_has_usage(device_hash@, timestamp) {
                r == Err::<(), KTSError>(KTSError::DailyUsageAlreadyUploaded) && final(self).usages() == old(self).usages()
            } else if address_of(device_seeds(device_hash@), old(self).spec_program_id())
                is None {
                r == Err::<(), KTSError>(KTSError::AddressDerivationFailed) && final(self).usages()
                    == old(self).usages()
            } else {
                r == Ok::<(), KTSError>(()) && final(self).usages() == old(self).usages().push(
                    final(self).usages().last(),
                ) && final(self).usages().last().device_hash@ == device_hash@
                    && usage_record_matches(
                    final(self).usages().last().record,
                    address_of(device_seeds(device_hash@), old(self).spec_program_id()),
                    timestamp,
                    avg_cpu_usage,
                    avg_memory_usage,
                    views_of(top_processes@),
                    data_hash@,
                    now,
                )
            }),
    {
        let i = match self.find_device(&device_hash) {
            None => {
                return Err(KTSError::InvalidDeviceOwner);
            },
            Some(i) => i,
        };
        let dev = self.devices[i];
        if !bytes32_eq(&dev.owner, &caller) {
            return Err(KTSError::InvalidDeviceOwner);
        }
        if top_processes.len() != PROCESS_ARRAY_SIZE {
            return Err(KTSError::InvalidTopProcessesArraySize);
        }
        let mut k: usize = 0;
        while k < top_processes.len()
            invariant
                k <= top_processes@.len(),
                forall|j: int| 0 <= j < k ==> top_processes@[j]@.len() <= MAX_PROCESS_NAME_LENGTH,
            decreases top_processes@.len() - k,
        {
            if top_processes[k].len() > MAX_PROCESS_NAME_LENGTH {
                proof {
                    assert(views_of(top_processes@)[k as int].len() > MAX_PROCESS_NAME_LENGTH);
                }
                return Err(KTSError::InvalidProcessNameLength);
            }
            k += 1;
        }
        proof {
            assert forall|j: int|
                0 <= j < views_of(top_processes@).len() implies views_of(top_processes@)[j].len()
                <= MAX_PROCESS_NAME_LENGTH by {
                assert(views_of(top_processes@)[j] == top_processes@[j]@);
            }
        }
        if self.find_usage(&device_hash, timestamp).is_some() {
            return Err(KTSError::DailyUsageAlreadyUploaded);
        }
        let device_address = match derive_device_address(&self.program_id, &device_hash) {
            None => {
                return Err(KTSError::AddressDerivationFailed);
            },
            Some(a) => a,
        };
        let mut block: [[u8; MAX_PROCESS_NAME_LENGTH]; PROCESS_ARRAY_SIZE] =
            [[0u8; MAX_PROCESS_NAME_LENGTH]; PROCESS_ARRAY_SIZE];
        let mut m: usize = 0;
        while m < PROCESS_ARRAY_SIZE
            invariant
                top_processes@.len() == PROCESS_ARRAY_SIZE,
                names_within_limit(views_of(top_processes@)),
                m <= PROCESS_ARRAY_SIZE,
                block@.len() == PROCESS_ARRAY_SIZE,
                forall|j: int|
                    0 <= j < m ==> block@[j]@ == crate::state::pad_process_name(
                        top_processes@[j]@,
                    ),
            decreases PROCESS_ARRAY_SIZE - m,
        {
            proof {
                assert(views_of(top_processes@)[m as int] == top_processes@[m as int]@);
            }
            block[m] = pack_process_name(&top_processes[m]);
            m += 1;
        }
        let record = DailyUsageAccount {
            device: device_address,
            timestamp: timestamp,
            avg_cpu_usage: avg_cpu_usage,
            avg_memory_usage: avg_memory_usage,
            top_processes: block,
            data_hash: data_hash,
            created_at: now,
        };
        let entry = UsageEntry { device_hash: device_hash, record: record };
        self.usages.push(entry);
        proof {
            let pre = old(self).usages@;
            let post = self.usages@;
            assert forall|a: int, b: int|
                0 <= a < b < post.len() implies !(post[a].device_hash@ == post[b].device_hash@
                && post[a].record.timestamp == post[b].record.timestamp) by {
                if b == post.len() - 1 {
                    assert(post[a] == pre[a]);
                    assert(!old(self).spec_has_usage(device_hash@, timestamp));
                }
            }
            assert(views_of(record.top_processes@) =~~= packed_block(views_of(top_processes@)));
        }
        Ok(())
    }

    /// The device record stored for the fingerprint, if any.
    pub fn get_device(&self, device_hash: &[u8; 32]) -> (r: Option<DeviceAccount>)
        requires
            self.wf(),
        ensures
            (match r {
                Some(d) => self.spec_has_device(device_hash@) && d == self.spec_device(
                    device_hash@,
                ),
                None => !self.spec_has_device(device_hash@),
            }),
    {
        match self.find_device(device_hash) {
            Some(i) => Some(self.devices[i]),
            None => None,
        }
    }

    /// The usage record stored for the fingerprint and day marker, if any.
    pub fn get_daily_usage(&self, device_hash: &[u8; 32], timestamp: i64) -> (r: Option<
        DailyUsageAccount,
    >)
        requires
            self.wf(),
        ensures
            (match r {
                Some(u) => self.spec_has_usage(device_hash@, timestamp) && u == self.spec_usage(
                    device_hash@,
                    timestamp,
                ),
                None => !self.spec_has_usage(device_hash@, timestamp),
            }),
    {
        match self.find_usage(device_hash, timestamp) {
            Some(i) => Some(self.usages[i].record),
            None => None,
        }
    }

    /// How many device records the registry holds.
    pub fn device_count(&self) -> (r: usize)
        ensures
            r == self.devices().len(),
    {
        self.devices.len()
    }

    /// How many usage records the registry holds.
    pub fn usage_count(&self) -> (r: usize)
        ensures
            r == self.usages().len(),
    {
        self.usages.len()
    }

    /// The program id under which this registry derives record addresses.
    pub fn program_id(&self) -> (r: [u8; 32])
        ensures
            r@ == self.spec_program_id(),
    {
        self.program_id
    }
}

/// Byte-for-byte equality of two 32-byte values.
pub fn bytes32_eq(a: &[u8; 32], b: &[u8; 32]) -> (r: bool)
    ensures
        r == (a@ == b@),
{
    let mut i: usize = 0;
    while i < 32
        invariant
            i <= 32,
            forall|j: int| 0 <= j < i ==> a@[j] == b@[j],
        decreases 32 - i,
    {
        if a[i] != b[i] {
            return false;
        }
        i += 1;
    }
    proof {
        assert(a@ =~= b@);
    }
    true
}

/// Law (uniqueness): a successful registration occupies exactly the
/// fingerprint's key — the record looked up afterwards is the new one — and
/// touches no other fingerprint. Together with the contract of
/// `register_device`, which on an occupied key returns
/// `DeviceAlreadyRegistered` and changes nothing, a second registration of
/// the same fingerprint always fails and leaves the first record unchanged.
pub proof fn lemma_registered_device_lookup(pre: Registry, post: Registry, record: DeviceAccount)
    requires
        pre.wf(),
        !pre.spec_has_device(record.device_hash@),
        post.devices() == pre.devices().push(record),
        post.usages() == pre.usages(),
    ensures
        post.wf(),
        post.spec_has_device(record.device_hash@),
        post.spec_device(record.device_hash@) == record,
        forall|h: Seq<u8>|
            h != record.device_hash@ ==> post.spec_has_device(h) == pre.spec_has_device(h),
        forall|h: Seq<u8>|
            h != record.device_hash@ && pre.spec_has_device(h) ==> post.spec_device(h)
                == pre.spec_device(h),
{
    let n = pre.devices().len() as int;
    assert forall|i: int, j: int|
        0 <= i < j < post.devices().len() implies post.devices()[i].device_hash@
        != post.devices()[j].device_hash@ by {
        assert(post.devices()[i] == pre.devices()[i]);
        if j < n {
            assert(post.devices()[j] == pre.devices()[j]);
        }
    }
    post.lemma_device_index(record.device_hash@, n);
    assert forall|h: Seq<u8>|
        h != record.device_hash@ implies post.spec_has_device(h) == pre.spec_has_device(h) by {
        if pre.spec_has_device(h) {
            let i = pre.spec_device_index(h);
            assert(post.devices()[i].device_hash@ == h);
        }
        if post.spec_has_device(h) {
            let i = post.spec_device_index(h);
            assert(i != n);
            assert(pre.devices()[i].device_hash@ == h);
        }
    }
    assert forall|h: Seq<u8>|
        h != record.device_hash@ && pre.spec_has_device(h) implies post.spec_device(h)
        == pre.spec_device(h) by {
        let i = pre.spec_device_index(h);
        pre.lemma_device_index(h, i);
        assert(post.devices()[i].device_hash@ == h);
        post.lemma_device_index(h, i);
    }
}

/// Law (one-shot transition): a successful certificate issuance replaces
/// only the fingerprint's own record — looked up afterwards it is the
/// updated one, its flag set — and touches no other fingerprint. Together
/// with the contract of `mark_nft_minted`, which on a set flag returns
/// `CertificateAlreadyIssued` and changes nothing, a second issuance always
/// fails and the flag stays set.
pub proof fn lemma_device_update_lookup(pre: Registry, post: Registry, record: DeviceAccount)
    requires
        pre.wf(),
        pre.spec_has_device(record.device_hash@),
        post.devices() == pre.devices().update(
            pre.spec_device_index(record.device_hash@),
            record,
        ),
        post.usages() == pre.usages(),
    ensures
        post.wf(),
        post.spec_has_device(record.device_hash@),
        post.spec_device(record.device_hash@) == record,
        forall|h: Seq<u8>|
            h != record.device_hash@ ==> post.spec_has_device(h) == pre.spec_has_device(h),
        forall|h: Seq<u8>|
            h != record.device_hash@ && pre.spec_has_device(h) ==> post.spec_device(h)
                == pre.spec_device(h),
{
    let n = pre.spec_device_index(record.device_hash@);
    assert(0 <= n < pre.devices().len() && pre.devices()[n].device_hash@ == record.device_hash@);
    assert forall|i: int, j: int|
        0 <= i < j < post.devices().len() implies post.devices()[i].device_hash@
        != post.devices()[j].device_hash@ by {
        assert(post.devices()[i].device_hash@ == pre.devices()[i].device_hash@);
        assert(post.devices()[j].device_hash@ == pre.devices()[j].device_hash@);
    }
    post.lemma_device_index(record.device_hash@, n);
    assert forall|h: Seq<u8>|
        h != record.device_hash@ implies post.spec_has_device(h) == pre.spec_has_device(h) by {
        if pre.spec_has_device(h) {
            let i = pre.spec_device_index(h);
            assert(pre.devices()[i].device_hash@ == h);
            assert(i != n);
            assert(post.devices()[i].device_hash@ == h);
        }
        if post.spec_has_device(h) {
            let i = post.spec_device_index(h);
            assert(i != n);
            assert(pre.devices()[i].device_hash@ == h);
        }
    }
    assert forall|h: Seq<u8>|
        h != record.device_hash@ && pre.spec_has_device(h) implies post.spec_device(h)
        == pre.spec_device(h) by {
        let i = pre.spec_device_index(h);
        pre.lemma_device_index(h, i);
        assert(i != n);
        assert(post.devices()[i] == pre.devices()[i]);
        post.lemma_device_index(h, i);
    }
}

/// Law (per-day uniqueness): a successful upload occupies exactly the
/// fingerprint-and-day key — the record looked up afterwards is the new one
/// — and touches no other day and no other device. Together with the
/// contract of `upload_daily_usage`, which on an occupied key returns
/// `DailyUsageAlreadyUploaded` and changes nothing, a second upload for the
/// same fingerprint and day always fails, whatever its metric values, while
/// an upload for another day succeeds independently.
pub proof fn lemma_recorded_usage_lookup(pre: Registry, post: Registry, entry: UsageEntry)
    requires
        pre.wf(),
        !pre.spec_has_usage(entry.device_hash@, entry.record.timestamp),
        post.usages() == pre.usages().push(entry),
        post.devices() == pre.devices(),
    ensures
        post.wf(),
        post.spec_has_usage(entry.device_hash@, entry.record.timestamp),
        post.spec_usage(entry.device_hash@, entry.record.timestamp) == entry.record,
        forall|h: Seq<u8>, t: i64|
            !(h == entry.device_hash@ && t == entry.record.timestamp) ==> post.spec_has_usage(h, t)
                == pre.spec_has_usage(h, t),
        forall|h: Seq<u8>, t: i64|
            !(h == entry.device_hash@ && t == entry.record.timestamp) && pre.spec_has_usage(h, t)
                ==> post.spec_usage(h, t) == pre.spec_usage(h, t),
{
    let n = pre.usages().len() as int;
    assert forall|i: int, j: int|
        0 <= i < j < post.usages().len() implies !(post.usages()[i].device_hash@
        == post.usages()[j].device_hash@ && post.usages()[i].record.timestamp
        == post.usages()[j].record.timestamp) by {
        assert(post.usages()[i] == pre.usages()[i]);
        if j < n {
            assert(post.usages()[j] == pre.usages()[j]);
        }
    }
    post.lemma_usage_index(entry.device_hash@, entry.record.timestamp, n);
    assert forall|h: Seq<u8>, t: i64|
        !(h == entry.device_hash@ && t == entry.record.timestamp) implies post.spec_has_usage(h, t)
        == pre.spec_has_usage(h, t) by {
        if pre.spec_has_usage(h, t) {
            let i = pre.spec_usage_index(h, t);
            assert(post.usages()[i].device_hash@ == h && post.usages()[i].record.timestamp == t);
        }
        if post.spec_has_usage(h, t) {
            let i = post.spec_usage_index(h, t);
            assert(i != n);
            assert(pre.usages()[i].device_hash@ == h && pre.usages()[i].record.timestamp == t);
        }
    }
    assert forall|h: Seq<u8>, t: i64|
        !(h == entry.device_hash@ && t == entry.record.timestamp) && pre.spec_has_usage(h, t)
            implies post.spec_usage(h, t) == pre.spec_usage(h, t) by {
        let i = pre.spec_usage_index(h, t);
        pre.lemma_usage_index(h, t, i);
        assert(post.usages()[i] == pre.usages()[i]);
        post.lemma_usage_index(h, t, i);
    }
}

} // verus!
