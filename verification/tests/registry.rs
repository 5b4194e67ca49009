use kts::errors::KTSError;
use kts::registry::Registry;

fn bytes32(b: u8) -> [u8; 32] {
    [b; 32]
}

fn five_names() -> Vec<Vec<u8>> {
    vec![
        b"chrome".to_vec(),
        b"code".to_vec(),
        b"slack".to_vec(),
        b"term".to_vec(),
        b"mail".to_vec(),
    ]
}

#[test]
fn full_scenario() {
    let mut reg = Registry::new(bytes32(7));
    let u1 = bytes32(1);
    let u2 = bytes32(2);
    let f = bytes32(0xA1);
    let data = bytes32(9);

    assert_eq!(reg.register_device(u1, f, &b"desk-01".to_vec(), 1_699_999_000), Ok(()));
    let d = reg.get_device(&f).unwrap();
    assert_eq!(d.owner, u1);
    assert_eq!(d.device_hash, f);
    assert_eq!(d.registered_at, 1_699_999_000);
    assert!(!d.nft_minted);

    let tp = five_names();
    assert_eq!(
        reg.upload_daily_usage(
            u1,
            f,
            1_700_000_000,
            42.5f32.to_bits(),
            60.0f32.to_bits(),
            &tp,
            data,
            1_700_000_050,
        ),
        Ok(())
    );
    let u = reg.get_daily_usage(&f, 1_700_000_000).unwrap();
    assert_eq!(u.timestamp, 1_700_000_000);
    assert_eq!(f32::from_bits(u.avg_cpu_usage), 42.5f32);
    assert_eq!(f32::from_bits(u.avg_memory_usage), 60.0f32);
    assert_eq!(u.data_hash, data);
    assert_eq!(u.created_at, 1_700_000_050);

    assert_eq!(
        reg.upload_daily_usage(
            u1,
            f,
            1_700_000_000,
            1.0f32.to_bits(),
            2.0f32.to_bits(),
            &tp,
            data,
            1_700_000_060,
        ),
        Err(KTSError::DailyUsageAlreadyUploaded)
    );

    assert_eq!(reg.mark_nft_minted(u2, f), Err(KTSError::InvalidDeviceOwner));
    assert!(!reg.get_device(&f).unwrap().nft_minted);
    assert_eq!(reg.mark_nft_minted(u1, f), Ok(()));
    assert!(reg.get_device(&f).unwrap().nft_minted);
    assert_eq!(reg.mark_nft_minted(u1, f), Err(KTSError::CertificateAlreadyIssued));
    assert!(reg.get_device(&f).unwrap().nft_minted);
}

#[test]
fn register_rejects_duplicate_fingerprint() {
    let mut reg = Registry::new(bytes32(7));
    let u1 = bytes32(1);
    let u2 = bytes32(2);
    let f = bytes32(3);
    assert_eq!(reg.register_device(u1, f, &b"first".to_vec(), 100), Ok(()));
    assert_eq!(
        reg.register_device(u2, f, &b"second".to_vec(), 200),
        Err(KTSError::DeviceAlreadyRegistered)
    );
    assert_eq!(reg.device_count(), 1);
    let d = reg.get_device(&f).unwrap();
    assert_eq!(d.owner, u1);
    assert_eq!(d.registered_at, 100);
    assert!(!d.nft_minted);
}

#[test]
fn register_name_length_boundary() {
    let mut reg = Registry::new(bytes32(7));
    let long_name = vec![b'x'; 65];
    assert_eq!(
        reg.register_device(bytes32(1), bytes32(3), &long_name, 1),
        Err(KTSError::InvalidDeviceNameLength)
    );
    assert_eq!(reg.device_count(), 0);
    let max_name = vec![b'x'; 64];
    assert_eq!(reg.register_device(bytes32(1), bytes32(3), &max_name, 1), Ok(()));
    assert_eq!(reg.device_count(), 1);
}

#[test]
fn upload_rejects_wrong_arity() {
    let mut reg = Registry::new(bytes32(7));
    let u1 = bytes32(1);
    let f = bytes32(3);
    assert_eq!(reg.register_device(u1, f, &b"dev".to_vec(), 1), Ok(()));

    let four: Vec<Vec<u8>> = five_names().into_iter().take(4).collect();
    assert_eq!(
        reg.upload_daily_usage(u1, f, 10, 0, 0, &four, bytes32(9), 11),
        Err(KTSError::InvalidTopProcessesArraySize)
    );

    let mut six = five_names();
    six.push(b"extra".to_vec());
    assert_eq!(
        reg.upload_daily_usage(u1, f, 10, 0, 0, &six, bytes32(9), 11),
        Err(KTSError::InvalidTopProcessesArraySize)
    );

    // Length five proceeds past the arity check to the per-entry checks.
    let mut five_with_long = five_names();
    five_with_long[2] = vec![b'p'; 33];
    assert_eq!(
        reg.upload_daily_usage(u1, f, 10, 0, 0, &five_with_long, bytes32(9), 11),
        Err(KTSError::InvalidProcessNameLength)
    );
    assert_eq!(reg.usage_count(), 0);
}

#[test]
fn process_name_length_boundary_round_trips() {
    let mut reg = Registry::new(bytes32(7));
    let u1 = bytes32(1);
    let f = bytes32(3);
    assert_eq!(reg.register_device(u1, f, &b"dev".to_vec(), 1), Ok(()));

    let exact = vec![b'q'; 32];
    let mut tp = five_names();
    tp[0] = exact.clone();
    assert_eq!(reg.upload_daily_usage(u1, f, 10, 0, 0, &tp, bytes32(9), 11), Ok(()));
    let rec = reg.get_daily_usage(&f, 10).unwrap();
    assert_eq!(rec.process_name(0), exact);
    assert_eq!(rec.process_name(1), b"code".to_vec());
    assert_eq!(rec.process_name(4), b"mail".to_vec());

    // The stored slot is the name left-aligned with zero padding.
    let mut expected_slot = [0u8; 32];
    expected_slot[..4].copy_from_slice(b"code");
    assert_eq!(rec.top_processes[1], expected_slot);

    let mut tp_long = five_names();
    tp_long[0] = vec![b'q'; 33];
    assert_eq!(
        reg.upload_daily_usage(u1, f, 20, 0, 0, &tp_long, bytes32(9), 21),
        Err(KTSError::InvalidProcessNameLength)
    );
    assert!(reg.get_daily_usage(&f, 20).is_none());
}

#[test]
fn empty_process_name_round_trips() {
    let mut reg = Registry::new(bytes32(7));
    let u1 = bytes32(1);
    let f = bytes32(3);
    assert_eq!(reg.register_device(u1, f, &b"dev".to_vec(), 1), Ok(()));
    let mut tp = five_names();
    tp[3] = Vec::new();
    assert_eq!(reg.upload_daily_usage(u1, f, 10, 0, 0, &tp, bytes32(9), 11), Ok(()));
    let rec = reg.get_daily_usage(&f, 10).unwrap();
    assert_eq!(rec.process_name(3), Vec::<u8>::new());
    assert_eq!(rec.top_processes[3], [0u8; 32]);
}

#[test]
fn certificate_is_one_shot() {
    let mut reg = Registry::new(bytes32(7));
    let u1 = bytes32(1);
    let f = bytes32(3);
    assert_eq!(reg.register_device(u1, f, &b"dev".to_vec(), 1), Ok(()));
    assert!(!reg.get_device(&f).unwrap().nft_minted);
    assert_eq!(reg.mark_nft_minted(u1, f), Ok(()));
    let d = reg.get_device(&f).unwrap();
    assert!(d.nft_minted);
    assert_eq!(d.owner, u1);
    assert_eq!(d.registered_at, 1);
    assert_eq!(reg.mark_nft_minted(u1, f), Err(KTSError::CertificateAlreadyIssued));
    assert!(reg.get_device(&f).unwrap().nft_minted);
}

#[test]
fn ownership_gate_rejects_other_callers() {
    let mut reg = Registry::new(bytes32(7));
    let u1 = bytes32(1);
    let u2 = bytes32(2);
    let f = bytes32(3);
    assert_eq!(reg.register_device(u1, f, &b"dev".to_vec(), 1), Ok(()));

    let tp = five_names();
    assert_eq!(
        reg.upload_daily_usage(u2, f, 10, 0, 0, &tp, bytes32(9), 11),
        Err(KTSError::InvalidDeviceOwner)
    );
    assert_eq!(reg.usage_count(), 0);

    assert_eq!(reg.mark_nft_minted(u2, f), Err(KTSError::InvalidDeviceOwner));
    assert!(!reg.get_device(&f).unwrap().nft_minted);
    assert_eq!(reg.device_count(), 1);
}

#[test]
fn unregistered_fingerprint_is_rejected() {
    let mut reg = Registry::new(bytes32(7));
    let u1 = bytes32(1);
    let f = bytes32(3);
    let tp = five_names();
    assert_eq!(
        reg.upload_daily_usage(u1, f, 10, 0, 0, &tp, bytes32(9), 11),
        Err(KTSError::InvalidDeviceOwner)
    );
    assert_eq!(reg.mark_nft_minted(u1, f), Err(KTSError::InvalidDeviceOwner));
    assert_eq!(reg.device_count(), 0);
    assert_eq!(reg.usage_count(), 0);
}

#[test]
fn per_day_uniqueness() {
    let mut reg = Registry::new(bytes32(7));
    let u1 = bytes32(1);
    let f = bytes32(3);
    assert_eq!(reg.register_device(u1, f, &b"dev".to_vec(), 1), Ok(()));
    let tp = five_names();
    let d1: i64 = 1_700_000_000;
    let d2: i64 = 1_700_086_400;
    assert_eq!(
        reg.upload_daily_usage(u1, f, d1, 10.0f32.to_bits(), 20.0f32.to_bits(), &tp, bytes32(9), 2),
        Ok(())
    );
    // Same day, different metric values: still rejected, record unchanged.
    assert_eq!(
        reg.upload_daily_usage(u1, f, d1, 99.0f32.to_bits(), 98.0f32.to_bits(), &tp, bytes32(8), 3),
        Err(KTSError::DailyUsageAlreadyUploaded)
    );
    let rec = reg.get_daily_usage(&f, d1).unwrap();
    assert_eq!(f32::from_bits(rec.avg_cpu_usage), 10.0f32);
    assert_eq!(f32::from_bits(rec.avg_memory_usage), 20.0f32);
    assert_eq!(rec.data_hash, bytes32(9));
    // Another day succeeds independently.
    assert_eq!(
        reg.upload_daily_usage(u1, f, d2, 30.0f32.to_bits(), 40.0f32.to_bits(), &tp, bytes32(9), 4),
        Ok(())
    );
    assert_eq!(reg.usage_count(), 2);
}

#[test]
fn devices_are_independent() {
    let mut reg = Registry::new(bytes32(7));
    let u1 = bytes32(1);
    let u2 = bytes32(2);
    let f1 = bytes32(3);
    let f2 = bytes32(4);
    assert_eq!(reg.register_device(u1, f1, &b"one".to_vec(), 1), Ok(()));
    assert_eq!(reg.register_device(u2, f2, &b"two".to_vec(), 2), Ok(()));
    assert_eq!(reg.device_count(), 2);
    assert_eq!(reg.mark_nft_minted(u1, f1), Ok(()));
    assert!(reg.get_device(&f1).unwrap().nft_minted);
    assert!(!reg.get_device(&f2).unwrap().nft_minted);
    let tp = five_names();
    assert_eq!(reg.upload_daily_usage(u2, f2, 10, 0, 0, &tp, bytes32(9), 11), Ok(()));
    assert!(reg.get_daily_usage(&f2, 10).is_some());
    assert!(reg.get_daily_usage(&f1, 10).is_none());
}

#[test]
fn metrics_outside_percent_range_are_stored_verbatim() {
    let mut reg = Registry::new(bytes32(7));
    let u1 = bytes32(1);
    let f = bytes32(3);
    assert_eq!(reg.register_device(u1, f, &b"dev".to_vec(), 1), Ok(()));
    let tp = five_names();
    assert_eq!(
        reg.upload_daily_usage(
            u1,
            f,
            10,
            (-5.0f32).to_bits(),
            400.25f32.to_bits(),
            &tp,
            bytes32(9),
            11,
        ),
        Ok(())
    );
    let rec = reg.get_daily_usage(&f, 10).unwrap();
    assert_eq!(f32::from_bits(rec.avg_cpu_usage), -5.0f32);
    assert_eq!(f32::from_bits(rec.avg_memory_usage), 400.25f32);
}
