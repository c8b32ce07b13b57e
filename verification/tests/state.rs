use escrow::pad_name;
use escrow::record_address;
use escrow::Address;
use escrow::EscrowAccount;
use escrow::ProgramAddress;
use escrow::RecordSlot;
use escrow::StateBumps;

fn terms_named(name: &[u8]) -> EscrowAccount {
    EscrowAccount {
        initializer_key: Address::new([1u8; 32]),
        initializer_deposit_token_account: Address::new([2u8; 32]),
        initializer_receive_token_account: Address::new([3u8; 32]),
        initializer_amount: 10,
        taker_rate: 2,
        state_seed_name: pad_name(name),
        bumps: StateBumps { escrow_account: 0 },
    }
}

#[test]
fn slot_derives_from_the_label_of_its_record() {
    let program = Address::new([7u8; 32]);
    let slot = RecordSlot { key: Address::new([0u8; 32]), record: Some(terms_named(b"swap-test")) };
    assert_eq!(slot.derive(&program), record_address(&program, &pad_name(b"swap-test")));
    assert_eq!(slot.derive(&program).unwrap().bump, 251);
    let other = RecordSlot { key: Address::new([0u8; 32]), record: Some(terms_named(b"other")) };
    assert_ne!(other.derive(&program), slot.derive(&program));
}

#[test]
fn empty_slot_derives_nothing() {
    let program = Address::new([7u8; 32]);
    let slot = RecordSlot { key: Address::new([0u8; 32]), record: None };
    assert_eq!(slot.derive(&program), None);
}

#[test]
fn slot_is_at_its_own_key_and_bump_only() {
    let key = Address::new([9u8; 32]);
    let slot = RecordSlot { key, record: None };
    assert!(slot.at(&Some(ProgramAddress { address: key, bump: 4 }), 4));
    assert!(!slot.at(&Some(ProgramAddress { address: key, bump: 4 }), 5));
    assert!(!slot.at(&Some(ProgramAddress { address: Address::new([8u8; 32]), bump: 4 }), 4));
    assert!(!slot.at(&None, 4));
}

#[test]
fn slot_at_the_derived_address_of_its_record() {
    let program = Address::new([7u8; 32]);
    let found = record_address(&program, &pad_name(b"swap-test")).unwrap();
    let slot = RecordSlot { key: found.address, record: Some(terms_named(b"swap-test")) };
    assert!(slot.at(&slot.derive(&program), 251));
    assert!(!slot.at(&slot.derive(&Address::new([8u8; 32])), 251));
}
