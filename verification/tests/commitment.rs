use sha3::Digest;
use timelock_auction::commitment::{bytes_equal, commit, encode_value, verify};

#[test]
fn commit_is_sha3_of_decimal_digits() {
    let mut hasher = sha3::Sha3_256::new();
    hasher.update("10");
    let expected = hasher.finalize().to_vec();
    assert_eq!(commit(10), expected);
    assert_eq!(commit(10).len(), 32);
}

#[test]
fn encode_value_writes_decimal() {
    assert_eq!(encode_value(0), b"0".to_vec());
    assert_eq!(encode_value(7), b"7".to_vec());
    assert_eq!(encode_value(10), b"10".to_vec());
    assert_eq!(encode_value(1234567890), b"1234567890".to_vec());
    assert_eq!(
        encode_value(u128::MAX),
        b"340282366920938463463374607431768211455".to_vec()
    );
}

#[test]
fn verify_accepts_own_commitment() {
    for v in [0u128, 1, 9, 10, 99, 100, 12345, u128::MAX] {
        assert!(verify(v, &commit(v)));
    }
}

#[test]
fn verify_rejects_other_values() {
    for v1 in 0u128..50 {
        for v2 in 0u128..50 {
            if v1 != v2 {
                assert!(!verify(v2, &commit(v1)));
            }
        }
    }
}

#[test]
fn verify_rejects_sampled_other_values() {
    // pairs drawn by a fixed linear congruential sequence over the whole range
    let mut state: u128 = 0x2545_f491_4f6c_dd1d_0123_4567_89ab_cdef;
    let mut next = || {
        state = state
            .wrapping_mul(0x5851_f42d_4c95_7f2d_1405_7b7e_f767_814f)
            .wrapping_add(0x1405_7b7e_f767_814f);
        state >> (state % 97)
    };
    for _ in 0..2000 {
        let v1 = next();
        let v2 = next();
        let digest = commit(v1);
        assert!(verify(v1, &digest));
        if v1 != v2 {
            assert!(!verify(v2, &digest));
        }
    }
}

#[test]
fn verify_rejects_digests_of_other_lengths() {
    let digest = commit(42);
    assert!(!verify(42, &digest[..31]));
    assert!(!verify(42, &[]));
    let mut longer = digest.clone();
    longer.push(0);
    assert!(!verify(42, &longer));
    let mut flipped = digest.clone();
    flipped[31] ^= 1;
    assert!(!verify(42, &flipped));
}

#[test]
fn bytes_are_compared_in_full() {
    assert!(bytes_equal(&[], &[]));
    assert!(bytes_equal(&[1, 2, 3], &[1, 2, 3]));
    assert!(!bytes_equal(&[1, 2, 3], &[1, 2, 4]));
    assert!(!bytes_equal(&[1, 2, 3], &[1, 2]));
    assert!(!bytes_equal(&[0, 2, 3], &[1, 2, 3]));
}
