use kts::registry::Registry;

fn bytes32(b: u8) -> [u8; 32] {
    [b; 32]
}

fn five_names() -> Vec<Vec<u8>> {
    vec![
        b"chrome".to_vec(),
        b"code".to_vec(),
        b"slack".to_vec(),
        b"term".to_vec(),
        b"mail".to_vec(),
    ]
}

#[test]
fn device_record_encodes_its_fixed_layout() {
    let mut reg = Registry::new(bytes32(7));
    let owner = bytes32(1);
    let f = bytes32(3);
    assert_eq!(reg.register_device(owner, f, &b"dev".to_vec(), 0x0102030405060708), Ok(()));
    assert_eq!(reg.mark_nft_minted(owner, f), Ok(()));
    let record = reg.get_device(&f).unwrap();
    let tag = [0xEEu8; 8];
    let bytes = record.encode(&tag);
    assert_eq!(bytes.len(), 81);
    assert_eq!(&bytes[0..8], &tag);
    assert_eq!(&bytes[8..40], &owner);
    assert_eq!(&bytes[40..72], &f);
    assert_eq!(&bytes[72..80], &0x0102030405060708i64.to_le_bytes());
    assert_eq!(bytes[80], 1);
}

#[test]
fn usage_record_encodes_its_fixed_layout() {
    let mut reg = Registry::new(bytes32(7));
    let owner = bytes32(1);
    let f = bytes32(3);
    assert_eq!(reg.register_device(owner, f, &b"dev".to_vec(), 1), Ok(()));
    let cpu = 42.5f32;
    let mem = 60.0f32;
    assert_eq!(
        reg.upload_daily_usage(
            owner,
            f,
            1_700_000_000,
            cpu.to_bits(),
            mem.to_bits(),
            &five_names(),
            bytes32(9),
            1_700_000_050,
        ),
        Ok(())
    );
    let record = reg.get_daily_usage(&f, 1_700_000_000).unwrap();
    let tag = [0xCCu8; 8];
    let bytes = record.encode(&tag);
    assert_eq!(bytes.len(), 256);
    assert_eq!(&bytes[0..8], &tag);
    assert_eq!(&bytes[8..40], &record.device);
    assert_eq!(&bytes[40..48], &1_700_000_000i64.to_le_bytes());
    assert_eq!(&bytes[48..52], &cpu.to_le_bytes());
    assert_eq!(&bytes[52..56], &mem.to_le_bytes());
    let mut slot0 = [0u8; 32];
    slot0[..6].copy_from_slice(b"chrome");
    assert_eq!(&bytes[56..88], &slot0);
    let mut slot4 = [0u8; 32];
    slot4[..4].copy_from_slice(b"mail");
    assert_eq!(&bytes[184..216], &slot4);
    assert_eq!(&bytes[216..248], &bytes32(9));
    assert_eq!(&bytes[248..256], &1_700_000_050i64.to_le_bytes());
}
