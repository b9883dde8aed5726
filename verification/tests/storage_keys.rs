use white_whale::contracts::test_contract::token_balance_key;
use white_whale::white_whale::query::memory::{address_book_key, to_length_prefixed};

#[test]
fn address_book_keys() {
    let key = address_book_key(b"luna");
    let mut expected = vec![0u8, 12];
    expected.extend_from_slice(b"address_book");
    expected.extend_from_slice(b"luna");
    assert_eq!(key, expected);
    // distinct names, distinct keys
    assert_ne!(address_book_key(b"luna"), address_book_key(b"lunb"));
}

#[test]
fn balance_keys() {
    let key = token_balance_key(&[1u8, 2, 3]);
    assert_eq!(key, vec![0u8, 7, b'b', b'a', b'l', b'a', b'n', b'c', b'e', 1, 2, 3]);
}

#[test]
fn prefixes_agree_with_the_storage_crate() {
    let long = vec![7u8; 300];
    for namespace in [&b""[..], &b"address_book"[..], &long[..]] {
        assert_eq!(to_length_prefixed(namespace), cosmwasm_storage::to_length_prefixed(namespace));
    }
    assert_eq!(&to_length_prefixed(&long)[..2], &[1u8, 44]);
}
