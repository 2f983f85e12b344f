use shitpost_pro::pubkey::{Pubkey, PUBKEY_BYTES};

#[test]
fn pubkey_has_thirty_two_bytes() {
    assert_eq!(PUBKEY_BYTES, 32);
    assert_eq!(Pubkey::new_from_array([7; 32]).to_bytes().len(), 32);
}

#[test]
fn pubkey_round_trips_its_bytes() {
    let mut bytes = [0u8; 32];
    for (i, byte) in bytes.iter_mut().enumerate() {
        *byte = i as u8;
    }
    let key = Pubkey::new_from_array(bytes);
    assert_eq!(key.to_bytes(), bytes);
    assert_eq!(key.to_vec(), bytes.to_vec());
}

#[test]
fn default_pubkey_is_all_zero() {
    let key = Pubkey::default();
    assert_eq!(key.to_bytes(), [0u8; 32]);
    assert!(key.is_default());
}

#[test]
fn pubkey_with_one_set_byte_is_not_default() {
    let mut bytes = [0u8; 32];
    bytes[31] = 1;
    assert!(!Pubkey::new_from_array(bytes).is_default());
    let mut first = [0u8; 32];
    first[0] = 200;
    assert!(!Pubkey::new_from_array(first).is_default());
}

#[test]
fn pubkeys_are_equal_when_their_bytes_are() {
    let a = Pubkey::new_from_array([3; 32]);
    let b = Pubkey::new_from_array([3; 32]);
    let mut other = [3u8; 32];
    other[31] = 4;
    let c = Pubkey::new_from_array(other);
    assert!(a == b);
    assert!(a != c);
    assert!(c != a);
}
