use anchor_lang::prelude::Pubkey as HostPubkey;
use anchor_lang::solana_program::hash::hash;
use anchor_lang::AnchorSerialize;
use domain_registry::layout::{DOMAIN_TAG, MAX_NAME_LEN, PROGRAM_INFO_SIZE, PROGRAM_INFO_TAG};
use domain_registry::le::le_bytes;
use domain_registry::{Domain, ProgramInfo, Registry};

fn owner() -> [u8; 32] {
    let mut bytes = [0u8; 32];
    for (i, byte) in bytes.iter_mut().enumerate() {
        *byte = (i as u8) * 3 + 1;
    }
    bytes
}

#[test]
fn le_bytes_has_the_low_byte_first() {
    assert_eq!(le_bytes(0x0102_0304_0506_0708, 8), vec![8, 7, 6, 5, 4, 3, 2, 1]);
    assert_eq!(le_bytes(0x0102_0304_0506_0708, 4), vec![8, 7, 6, 5]);
    assert_eq!(le_bytes(0x0102_0304_0506_0708, 1), vec![8]);
    assert_eq!(le_bytes(0x0102_0304_0506_0708, 0), Vec::<u8>::new());
    assert_eq!(le_bytes(5, 4), vec![5, 0, 0, 0]);
    assert_eq!(le_bytes(u64::MAX, 8), vec![255u8; 8]);
    assert_eq!(le_bytes(0xdead_beef, 8), 0xdead_beefu64.to_le_bytes().to_vec());
    assert_eq!(le_bytes(0xdead_beef, 4), 0xdead_beefu32.to_le_bytes().to_vec());
}

#[test]
fn tags_are_the_heads_of_the_hashes() {
    assert_eq!(DOMAIN_TAG, hash(b"account:Domain").to_bytes()[..8]);
    assert_eq!(PROGRAM_INFO_TAG, hash(b"account:ProgramInfo").to_bytes()[..8]);
    assert_ne!(DOMAIN_TAG, PROGRAM_INFO_TAG);
}

#[test]
fn counter_is_stored_in_eighteen_bytes() {
    let info = ProgramInfo { id: 0x0102_0304_0506_0708, initialized: true, bump: 254 };
    let bytes = info.to_bytes();
    assert_eq!(bytes.len(), PROGRAM_INFO_SIZE);
    assert_eq!(PROGRAM_INFO_SIZE, 18);
    assert_eq!(
        bytes,
        vec![154, 4, 116, 39, 15, 89, 227, 100, 8, 7, 6, 5, 4, 3, 2, 1, 1, 254]
    );

    let blank = ProgramInfo::new().to_bytes();
    assert_eq!(blank, vec![154, 4, 116, 39, 15, 89, 227, 100, 0, 0, 0, 0, 0, 0, 0, 0, 0, 0]);
}

#[test]
fn counter_is_stored_as_the_host_stores_it() {
    for info in [
        ProgramInfo::new(),
        ProgramInfo { id: 1, initialized: true, bump: 255 },
        ProgramInfo { id: u64::MAX, initialized: false, bump: 7 },
        ProgramInfo { id: 300, initialized: true, bump: 0 },
    ] {
        let mut expected = PROGRAM_INFO_TAG.to_vec();
        expected.extend(info.id.try_to_vec().unwrap());
        expected.extend(info.initialized.try_to_vec().unwrap());
        expected.extend(info.bump.try_to_vec().unwrap());
        assert_eq!(info.to_bytes(), expected);
    }
}

#[test]
fn record_is_stored_byte_for_byte() {
    let domain = Domain { owner: [9u8; 32], name: "alpha".to_string(), dom_type: 3 };
    let bytes = domain.to_bytes().expect("a short name has a stored form");
    let mut expected = vec![167, 191, 231, 63, 146, 41, 115, 27];
    expected.extend([9u8; 32]);
    expected.extend([5, 0, 0, 0]);
    expected.extend(b"alpha");
    expected.push(3);
    assert_eq!(bytes, expected);
    assert_eq!(bytes.len(), 50);
    assert_eq!(bytes.len(), Domain::calculate_size(domain.name_len()));
}

#[test]
fn record_is_stored_as_the_host_stores_it() {
    let names = ["", "a", "alpha", "h\u{e9}llo", "\u{1F600}\u{1F600}", "a name with spaces"];
    for (n, name) in names.iter().enumerate() {
        let domain = Domain { owner: owner(), name: name.to_string(), dom_type: n as u8 };
        let mut expected = DOMAIN_TAG.to_vec();
        expected.extend(HostPubkey::new_from_array(domain.owner).try_to_vec().unwrap());
        expected.extend(domain.name.try_to_vec().unwrap());
        expected.extend(domain.dom_type.try_to_vec().unwrap());
        let bytes = domain.to_bytes().unwrap();
        assert_eq!(bytes, expected);
        assert_eq!(bytes.len(), Domain::calculate_size(name.len()));
    }
}

#[test]
fn long_names_are_stored_with_their_length() {
    let name = "x".repeat(70_000);
    let domain = Domain { owner: owner(), name, dom_type: 1 };
    let bytes = domain.to_bytes().unwrap();
    assert_eq!(bytes.len(), 70_045);
    assert_eq!(&bytes[40..44], &[0x70, 0x11, 0x01, 0x00]);
    assert_eq!(bytes[44], b'x');
    assert_eq!(bytes[70_044], 1);
    assert!(70_000 <= MAX_NAME_LEN);
}

#[test]
fn stored_form_fills_the_space_of_a_record() {
    let mut registry = Registry::new();
    registry.initialize().unwrap();
    for (n, name) in ["", "alpha", "h\u{e9}llo"].iter().enumerate() {
        let id = registry.create_domain(owner(), n as u8, name.to_string()).unwrap();
        let record = registry.get(&domain_registry::derive_key(id)).unwrap();
        assert_eq!(record.domain.to_bytes().unwrap().len(), record.space);
    }
}

#[test]
fn different_records_are_stored_differently() {
    let base = Domain { owner: owner(), name: "alpha".to_string(), dom_type: 3 };
    let other_type = Domain { owner: owner(), name: "alpha".to_string(), dom_type: 4 };
    let other_name = Domain { owner: owner(), name: "alphb".to_string(), dom_type: 3 };
    let other_owner = Domain { owner: [0u8; 32], name: "alpha".to_string(), dom_type: 3 };
    let stored = base.to_bytes().unwrap();
    assert_eq!(stored, base.clone().to_bytes().unwrap());
    assert_ne!(stored, other_type.to_bytes().unwrap());
    assert_ne!(stored, other_name.to_bytes().unwrap());
    assert_ne!(stored, other_owner.to_bytes().unwrap());
}
