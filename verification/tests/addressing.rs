use anchor_lang::prelude::Pubkey;
use kts::address::{derive_device_address, derive_usage_address};
use kts::registry::Registry;

fn bytes32(b: u8) -> [u8; 32] {
    [b; 32]
}

fn five_names() -> Vec<Vec<u8>> {
    vec![
        b"chrome".to_vec(),
        b"code".to_vec(),
        b"slack".to_vec(),
        b"term".to_vec(),
        b"mail".to_vec(),
    ]
}

#[test]
fn device_address_matches_host_derivation() {
    let pid = bytes32(7);
    let f = bytes32(3);
    let got = derive_device_address(&pid, &f).unwrap();
    let (expected, _bump) =
        Pubkey::find_program_address(&[b"device", &f], &Pubkey::new_from_array(pid));
    assert_eq!(got, expected.to_bytes());
}

#[test]
fn usage_address_matches_host_derivation() {
    let pid = bytes32(9);
    let f = bytes32(4);
    let ts: i64 = 1_700_000_000;
    let got = derive_usage_address(&pid, &f, ts).unwrap();
    let (expected, _bump) = Pubkey::find_program_address(
        &[b"daily_usage", &f, &ts.to_le_bytes()],
        &Pubkey::new_from_array(pid),
    );
    assert_eq!(got, expected.to_bytes());
}

#[test]
fn usage_address_handles_negative_day_marker() {
    let pid = bytes32(9);
    let f = bytes32(4);
    let ts: i64 = -86_400;
    let got = derive_usage_address(&pid, &f, ts).unwrap();
    let (expected, _bump) = Pubkey::find_program_address(
        &[b"daily_usage", &f, &ts.to_le_bytes()],
        &Pubkey::new_from_array(pid),
    );
    assert_eq!(got, expected.to_bytes());
}

#[test]
fn distinct_seeds_give_distinct_addresses() {
    let pid = bytes32(7);
    let f1 = bytes32(3);
    let f2 = bytes32(4);
    let a1 = derive_device_address(&pid, &f1).unwrap();
    let a2 = derive_device_address(&pid, &f2).unwrap();
    assert_ne!(a1, a2);
    let u1 = derive_usage_address(&pid, &f1, 1).unwrap();
    let u2 = derive_usage_address(&pid, &f1, 2).unwrap();
    assert_ne!(u1, u2);
    assert_ne!(a1, u1);
}

#[test]
fn stored_device_ref_is_the_derived_device_address() {
    let pid = bytes32(7);
    let u1 = bytes32(1);
    let f = bytes32(3);
    let mut reg = Registry::new(pid);
    assert_eq!(reg.register_device(u1, f, &b"dev".to_vec(), 1), Ok(()));
    assert_eq!(reg.upload_daily_usage(u1, f, 10, 0, 0, &five_names(), bytes32(9), 11), Ok(()));
    let rec = reg.get_daily_usage(&f, 10).unwrap();
    let (expected, _bump) =
        Pubkey::find_program_address(&[b"device", &f], &Pubkey::new_from_array(pid));
    assert_eq!(rec.device, expected.to_bytes());
}
