use escrow::address::Address;
use escrow::locate::{counter_address, escrow_address, escrow_signer_seeds, locate, metadata_address};

fn key(n: u8) -> Address {
    Address { bytes: [n; 32] }
}

fn program() -> Address {
    Address {
        bytes: [
            108, 220, 25, 40, 60, 234, 35, 66, 137, 226, 33, 54, 222, 83, 66, 70, 231, 38, 194, 170, 124, 104, 114,
            140, 31, 59, 24, 140, 72, 54, 20, 19,
        ],
    }
}

#[test]
fn counter_address_is_the_derived_one() {
    let expected = Address {
        bytes: [
            199, 24, 221, 200, 184, 52, 201, 56, 82, 204, 56, 204, 198, 97, 14, 210, 19, 146, 66, 198, 233, 118,
            217, 110, 238, 138, 145, 54, 23, 136, 243, 6,
        ],
    };
    assert_eq!(counter_address(&program(), &key(1)), Some((expected, 253)));
}

#[test]
fn escrow_address_is_the_derived_one() {
    let first = Address {
        bytes: [
            93, 135, 69, 6, 220, 226, 155, 142, 222, 134, 14, 12, 114, 250, 5, 39, 4, 228, 144, 205, 61, 124, 154,
            205, 58, 222, 244, 40, 249, 254, 20, 91,
        ],
    };
    let second = Address {
        bytes: [
            75, 242, 54, 162, 144, 55, 7, 13, 49, 224, 198, 246, 156, 115, 173, 255, 124, 167, 104, 244, 193, 182,
            101, 212, 89, 137, 93, 243, 114, 5, 36, 233,
        ],
    };
    assert_eq!(escrow_address(&program(), &key(1), 0), Some((first, 254)));
    assert_eq!(escrow_address(&program(), &key(1), 1), Some((second, 254)));
}

#[test]
fn metadata_address_is_the_derived_one() {
    let expected = Address {
        bytes: [
            155, 118, 42, 210, 80, 84, 169, 91, 24, 108, 53, 37, 45, 163, 43, 234, 14, 68, 192, 231, 99, 98, 253,
            69, 151, 183, 180, 86, 228, 74, 37, 90,
        ],
    };
    assert_eq!(metadata_address(&program(), &key(7)), Some((expected, 254)));
}

#[test]
fn locations_depend_on_every_input() {
    let base = escrow_address(&program(), &key(1), 0).unwrap().0;
    assert_ne!(escrow_address(&program(), &key(2), 0).unwrap().0, base);
    assert_ne!(escrow_address(&program(), &key(1), 256).unwrap().0, base);
    assert_ne!(escrow_address(&key(9), &key(1), 0).unwrap().0, base);
    assert_ne!(counter_address(&program(), &key(1)).unwrap().0, base);
    assert_ne!(base, key(1));
}

#[test]
fn locations_are_repeatable() {
    assert_eq!(counter_address(&program(), &key(3)), counter_address(&program(), &key(3)));
    assert_eq!(metadata_address(&program(), &key(3)), metadata_address(&program(), &key(3)));
}

#[test]
fn locate_agrees_with_the_named_derivations() {
    let seeds = vec![b"counter".to_vec(), key(1).to_vec()];
    assert_eq!(locate(&seeds, &program()), counter_address(&program(), &key(1)));
    let seeds = vec![b"escrow".to_vec(), key(1).to_vec(), 5u64.to_le_bytes().to_vec()];
    assert_eq!(locate(&seeds, &program()), escrow_address(&program(), &key(1), 5));
    let seeds = vec![b"metadata".to_vec(), key(1).to_vec()];
    assert_eq!(locate(&seeds, &program()), metadata_address(&program(), &key(1)));
}

#[test]
fn locate_has_nothing_for_an_overlong_seed() {
    let seeds = vec![vec![0u8; 33]];
    assert_eq!(locate(&seeds, &program()), None);
    let seeds = vec![vec![0u8; 32]];
    assert!(locate(&seeds, &program()).is_some());
}

#[test]
fn locate_has_nothing_for_too_many_seeds() {
    let mut seeds: Vec<Vec<u8>> = Vec::new();
    for i in 0..16u8 {
        seeds.push(vec![i]);
    }
    assert_eq!(locate(&seeds, &program()), None);
    seeds.pop();
    assert!(locate(&seeds, &program()).is_some());
}

#[test]
fn signer_seeds_are_the_record_seeds_and_the_bump() {
    let seeds = escrow_signer_seeds(&key(1), 258, 254);
    assert_eq!(seeds.len(), 4);
    assert_eq!(seeds[0], b"escrow".to_vec());
    assert_eq!(seeds[1], vec![1u8; 32]);
    assert_eq!(seeds[2], vec![2u8, 1, 0, 0, 0, 0, 0, 0]);
    assert_eq!(seeds[3], vec![254u8]);
}

#[test]
fn addresses_compare_by_bytes() {
    let mut bytes = [4u8; 32];
    assert_eq!(Address { bytes }, key(4));
    bytes[31] = 5;
    assert_ne!(Address { bytes }, key(4));
    bytes[31] = 4;
    bytes[0] = 0;
    assert_ne!(Address { bytes }, key(4));
    assert_eq!(key(4).to_vec(), vec![4u8; 32]);
}
