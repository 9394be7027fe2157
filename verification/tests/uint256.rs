use soroban_poseidon::{Field, Uint256};

fn limbs(x: &Uint256) -> [u64; 4] {
    [x.hi_hi, x.hi_lo, x.lo_hi, x.lo_lo]
}

#[test]
fn from_u32_fills_the_lowest_limb() {
    assert_eq!(limbs(&Uint256::from_u32(0)), [0, 0, 0, 0]);
    assert_eq!(limbs(&Uint256::from_u32(42)), [0, 0, 0, 42]);
    assert_eq!(limbs(&Uint256::from_u32(u32::MAX)), [0, 0, 0, 0xffff_ffff]);
}

#[test]
fn from_parts_keeps_the_limbs_in_order() {
    let x = Uint256::from_parts(1, 2, 3, 4);
    assert_eq!(limbs(&x), [1, 2, 3, 4]);
    assert_eq!(x, Uint256 { hi_hi: 1, hi_lo: 2, lo_hi: 3, lo_lo: 4 });
}

#[test]
fn from_be_bytes_reads_most_significant_first() {
    let mut bytes = [0u8; 32];
    for i in 0..32 {
        bytes[i] = i as u8 + 1;
    }
    let x = Uint256::from_be_bytes(&bytes);
    assert_eq!(
        limbs(&x),
        [
            0x0102030405060708,
            0x090a0b0c0d0e0f10,
            0x1112131415161718,
            0x191a1b1c1d1e1f20
        ]
    );
    assert_eq!(limbs(&Uint256::from_be_bytes(&[0xff; 32])), [u64::MAX; 4]);
    assert_eq!(Uint256::from_be_bytes(&[0; 32]), Uint256::from_u32(0));
    let mut one = [0u8; 32];
    one[31] = 1;
    assert_eq!(Uint256::from_be_bytes(&one), Uint256::from_u32(1));
}

#[test]
fn lt_orders_by_the_most_significant_limb_that_differs() {
    let small = Uint256::from_parts(0, 0, 0, u64::MAX);
    let carry = Uint256::from_parts(0, 0, 1, 0);
    let high = Uint256::from_parts(1, 0, 0, 0);
    let mixed = Uint256::from_parts(0, u64::MAX, u64::MAX, u64::MAX);
    assert!(small.lt(&carry));
    assert!(!carry.lt(&small));
    assert!(carry.lt(&high));
    assert!(mixed.lt(&high));
    assert!(!high.lt(&mixed));
    assert!(!high.lt(&high));
    assert!(Uint256::from_u32(0).lt(&Uint256::from_u32(1)));
    assert!(!Uint256::from_u32(1).lt(&Uint256::from_u32(0)));
    assert!(Uint256::from_parts(5, 1, 9, 9).lt(&Uint256::from_parts(5, 2, 0, 0)));
    assert!(Uint256::from_parts(5, 1, 1, 9).lt(&Uint256::from_parts(5, 1, 2, 0)));
}

#[test]
fn field_moduli_are_the_scalar_field_orders() {
    assert_eq!(
        limbs(&Field::Bn254.modulus()),
        [
            0x30644e72e131a029,
            0xb85045b68181585d,
            0x2833e84879b97091,
            0x43e1f593f0000001
        ]
    );
    assert_eq!(
        limbs(&Field::Bls12381.modulus()),
        [
            0x73eda753299d7d48,
            0x3339d80809a1d805,
            0x53bda402fffe5bfe,
            0xffffffff00000001
        ]
    );
    assert!(Field::Bn254.modulus().lt(&Field::Bls12381.modulus()));
}

#[test]
fn field_symbols_are_those_of_the_host() {
    assert_eq!(Field::Bn254.symbol(), "BN254");
    assert_eq!(Field::Bls12381.symbol(), "BLS12_381");
}
