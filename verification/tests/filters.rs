use quic_geyser_common::address::Address;
use quic_geyser_common::address_set::AddressSet;
use quic_geyser_common::compression::CompressionType;
use quic_geyser_common::filters::{AccountFilter, Filter};
use quic_geyser_common::message::Message;
use quic_geyser_common::types::account::Account;
use quic_geyser_common::types::slot_identifier::SlotIdentifier;

fn addr(n: u8) -> Address {
    Address::new([n; 32])
}

fn update(pubkey: Address, owner: Address) -> Message {
    Message::AccountMsg(Account {
        slot_identifier: SlotIdentifier::new(1),
        pubkey,
        owner,
        write_version: 0,
        data: vec![1, 2, 3],
        compression_type: CompressionType::Uncompressed,
        data_length: 3,
    })
}

fn set_of(addresses: &[Address]) -> AddressSet {
    AddressSet::from_slice(addresses)
}

#[test]
fn wildcard_owner_allows_every_update() {
    let f = AccountFilter {
        owner: Some(Address::wildcard()),
        accounts: None,
    };
    assert!(f.allows(&update(addr(1), addr(2))));
    assert!(f.allows(&update(addr(0), addr(0))));
    assert!(f.allows(&update(addr(255), addr(9))));
    assert!(f.allows(&Message::AccountMsg(Account::get_account_for_test(3, 5))));
    let zero = AccountFilter {
        owner: Some(Address::new([0; 32])),
        accounts: None,
    };
    assert!(zero.allows(&update(addr(1), addr(2))));
}

#[test]
fn exact_owner_allows_only_that_owner() {
    let f = AccountFilter {
        owner: Some(addr(5)),
        accounts: None,
    };
    assert!(f.allows(&update(addr(1), addr(5))));
    assert!(!f.allows(&update(addr(1), addr(6))));
    assert!(!f.allows(&update(addr(5), addr(6))));
    assert!(!f.allows(&update(addr(1), addr(0))));
}

#[test]
fn account_set_allows_only_listed_addresses() {
    let f = AccountFilter {
        owner: None,
        accounts: Some(set_of(&[addr(7)])),
    };
    assert!(f.allows(&update(addr(7), addr(1))));
    assert!(!f.allows(&update(addr(8), addr(1))));
    assert!(!f.allows(&update(addr(1), addr(7))));
    let many = AccountFilter {
        owner: None,
        accounts: Some(set_of(&[addr(7), addr(8), addr(9)])),
    };
    assert!(many.allows(&update(addr(9), addr(1))));
    assert!(!many.allows(&update(addr(10), addr(1))));
}

#[test]
fn either_rule_is_enough() {
    let f = AccountFilter {
        owner: Some(addr(5)),
        accounts: Some(set_of(&[addr(7)])),
    };
    assert!(f.allows(&update(addr(7), addr(6))));
    assert!(f.allows(&update(addr(8), addr(5))));
    assert!(f.allows(&update(addr(7), addr(5))));
    assert!(!f.allows(&update(addr(8), addr(6))));
}

#[test]
fn empty_filter_rejects_everything() {
    let f = AccountFilter {
        owner: None,
        accounts: None,
    };
    assert!(!f.allows(&update(addr(1), addr(2))));
    assert!(!f.allows(&update(addr(0), addr(0))));
    assert!(!f.allows(&Message::AccountMsg(Account::get_account_for_test(1, 1))));
}

#[test]
fn empty_account_set_lists_nothing() {
    let f = AccountFilter {
        owner: None,
        accounts: Some(AddressSet::new()),
    };
    assert!(!f.allows(&update(addr(1), addr(2))));
    assert!(!f.allows(&update(addr(0), addr(0))));
}

#[test]
fn wildcard_in_the_account_set_is_an_ordinary_address() {
    let f = AccountFilter {
        owner: None,
        accounts: Some(set_of(&[Address::wildcard()])),
    };
    assert!(f.allows(&update(addr(0), addr(3))));
    assert!(!f.allows(&update(addr(1), addr(3))));
}

#[test]
fn two_filters_on_one_update() {
    let addr1 = addr(1);
    let addr2 = addr(2);
    let owner1 = addr(11);
    let any_owner = AccountFilter {
        owner: Some(Address::wildcard()),
        accounts: None,
    };
    let only_addr2 = AccountFilter {
        owner: None,
        accounts: Some(set_of(&[addr2])),
    };
    let m = update(addr1, owner1);
    assert!(any_owner.allows(&m));
    assert!(!only_addr2.allows(&m));
}

#[test]
fn filter_dispatches_to_its_variant() {
    let m = update(addr(1), addr(5));
    let by_owner = Filter::Account(AccountFilter {
        owner: Some(addr(5)),
        accounts: None,
    });
    let by_other_owner = Filter::Account(AccountFilter {
        owner: Some(addr(6)),
        accounts: None,
    });
    let by_address = Filter::Account(AccountFilter {
        owner: None,
        accounts: Some(set_of(&[addr(1)])),
    });
    let empty = Filter::Account(AccountFilter {
        owner: None,
        accounts: None,
    });
    assert!(by_owner.allows(&m));
    assert!(!by_other_owner.allows(&m));
    assert!(by_address.allows(&m));
    assert!(!empty.allows(&m));
}

#[test]
fn filters_compare_by_content() {
    let a = Filter::Account(AccountFilter {
        owner: Some(addr(5)),
        accounts: Some(set_of(&[addr(1), addr(2)])),
    });
    let b = Filter::Account(AccountFilter {
        owner: Some(addr(5)),
        accounts: Some(set_of(&[addr(2), addr(1)])),
    });
    let c = Filter::Account(AccountFilter {
        owner: Some(addr(6)),
        accounts: Some(set_of(&[addr(2), addr(1)])),
    });
    assert_eq!(a, b);
    assert_ne!(a, c);
    assert_eq!(a.clone(), a);
}

#[test]
fn filter_reads_only_owner_and_address() {
    let f = AccountFilter {
        owner: Some(addr(5)),
        accounts: None,
    };
    let mut record = Account::get_account_for_test(1, 100);
    record.owner = addr(5);
    assert!(f.allows(&Message::AccountMsg(record.clone())));
    record.compression_type = CompressionType::Lz4(3);
    record.write_version = 77;
    record.data = Vec::new();
    assert!(f.allows(&Message::AccountMsg(record)));
}
