use tokenization::account::{default_account, fund_account, same_account};

#[test]
fn fund_account_is_tag_module_country_and_zeros() {
    let account = fund_account(*b"bit/fund", 1);
    assert_eq!(&account[..4], b"modl");
    assert_eq!(&account[4..12], b"bit/fund");
    assert_eq!(&account[12..20], &[1u8, 0, 0, 0, 0, 0, 0, 0]);
    assert_eq!(&account[20..], &[0u8; 12]);
}

#[test]
fn fund_account_holds_the_country_in_little_endian_order() {
    let account = fund_account(*b"bit/trsy", 0x0102_0304_0506_0708);
    assert_eq!(&account[4..12], b"bit/trsy");
    assert_eq!(&account[12..20], &[8u8, 7, 6, 5, 4, 3, 2, 1]);
    assert_eq!(&account[20..], &[0u8; 12]);
}

#[test]
fn fund_accounts_of_two_countries_differ() {
    assert_ne!(fund_account(*b"bit/fund", 1), fund_account(*b"bit/fund", 2));
    assert_ne!(fund_account(*b"bit/fund", 1), fund_account(*b"bit/fund", 1 << 32));
    assert_ne!(fund_account(*b"bit/fund", 0), fund_account(*b"bit/fund", u64::MAX));
    assert_eq!(fund_account(*b"bit/fund", 7), fund_account(*b"bit/fund", 7));
}

#[test]
fn default_account_is_all_zero() {
    assert_eq!(default_account(), [0u8; 32]);
}

#[test]
fn same_account_compares_every_byte() {
    let a = [4u8; 32];
    let mut b = [4u8; 32];
    assert!(same_account(&a, &b));
    b[31] = 5;
    assert!(!same_account(&a, &b));
    b[31] = 4;
    b[0] = 0;
    assert!(!same_account(&a, &b));
    assert!(same_account(&default_account(), &[0u8; 32]));
}
