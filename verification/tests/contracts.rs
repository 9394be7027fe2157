use soroban_poseidon::{
    poseidon2_hash, poseidon_hash, Field, Poseidon2Sponge, PoseidonSponge, Uint256,
};
use soroban_sdk::Env;

fn from_hex(hex: &str) -> Uint256 {
    let hex = hex.trim_start_matches("0x");
    assert_eq!(hex.len(), 64);
    let mut out = [0u8; 32];
    for i in 0..32 {
        out[i] = u8::from_str_radix(&hex[2 * i..2 * i + 2], 16).unwrap();
    }
    Uint256::from_be_bytes(&out)
}

/// Poseidon hash of [a, b] through the top-level function.
fn poseidon_hash_two(env: &Env, a: Uint256, b: Uint256) -> Uint256 {
    poseidon_hash(env, Field::Bn254, 3, &vec![a, b]).unwrap()
}

/// Poseidon hash of [a, b] through a sponge.
fn poseidon_hash_two_sponge(env: &Env, a: Uint256, b: Uint256) -> Uint256 {
    let mut sponge = PoseidonSponge::new(env, Field::Bn254, 3).unwrap();
    sponge.compute_hash(&vec![a, b]).unwrap()
}

/// Poseidon2 hash of [a, b] through the top-level function, with t=3.
fn poseidon2_hash_two(env: &Env, a: Uint256, b: Uint256) -> Uint256 {
    poseidon2_hash(env, Field::Bn254, 3, &vec![a, b]).unwrap()
}

/// Poseidon2 hash of [a, b] through a sponge, with t=3.
fn poseidon2_hash_two_sponge(env: &Env, a: Uint256, b: Uint256) -> Uint256 {
    let mut sponge = Poseidon2Sponge::new(env, Field::Bn254, 3).unwrap();
    sponge.compute_hash(&vec![a, b]).unwrap()
}

/// Poseidon2 hash of [a, b, c], with t=4.
fn poseidon2_hash_three(env: &Env, a: Uint256, b: Uint256, c: Uint256) -> Uint256 {
    poseidon2_hash(env, Field::Bn254, 4, &vec![a, b, c]).unwrap()
}

#[test]
fn lib_test_hash_two() {
    let env = Env::default();

    let a = Uint256::from_u32(1);
    let b = Uint256::from_u32(2);

    let hash = poseidon_hash_two(&env, a, b);

    // hash([1, 2]) - known value from circom
    let expected = from_hex("0x115cc0f5e7d690413df64c6b9662e9cf2a3617f2743245519e19607a4417189a");
    assert_eq!(hash, expected);

    // hash([2, 1]) should be different (Poseidon is not commutative)
    let hash_reversed = poseidon_hash_two(&env, b, a);
    assert_ne!(hash, hash_reversed);

    let hash = poseidon2_hash_two(&env, a, b);

    // hash([2, 1]) should be different (Poseidon2 is not commutative)
    let hash_reversed = poseidon2_hash_two(&env, b, a);
    assert_ne!(hash, hash_reversed);
}

#[test]
fn lib_test_hash_two_sponge() {
    let env = Env::default();

    let a = Uint256::from_u32(1);
    let b = Uint256::from_u32(2);

    let hash = poseidon_hash_two_sponge(&env, a, b);

    // Should produce the same result as hash_two
    let expected = poseidon_hash_two(&env, a, b);
    assert_eq!(hash, expected);

    // Reversed inputs should also match
    let hash_reversed = poseidon_hash_two_sponge(&env, b, a);
    let expected_reversed = poseidon_hash_two(&env, b, a);
    assert_eq!(hash_reversed, expected_reversed);

    let hash = poseidon2_hash_two_sponge(&env, a, b);

    // Should produce the same result as hash_two
    let expected = poseidon2_hash_two(&env, a, b);
    assert_eq!(hash, expected);

    // Reversed inputs should also match
    let hash_reversed = poseidon2_hash_two_sponge(&env, b, a);
    let expected_reversed = poseidon2_hash_two(&env, b, a);
    assert_eq!(hash_reversed, expected_reversed);
}

#[test]
fn test_hash_three() {
    let env = Env::default();

    let a = Uint256::from_u32(1);
    let b = Uint256::from_u32(2);
    let c = Uint256::from_u32(3);

    let hash = poseidon2_hash_three(&env, a, b, c);

    // Call again - should be deterministic
    let hash2 = poseidon2_hash_three(&env, a, b, c);
    assert_eq!(hash, hash2);
}

#[test]
fn lib_test_hash_deterministic() {
    let env = Env::default();

    let a = Uint256::from_u32(42);
    let b = Uint256::from_u32(123);

    // Call twice - should get the same result
    let hash1 = poseidon_hash_two(&env, a, b);
    let hash2 = poseidon_hash_two(&env, a, b);
    assert_eq!(hash1, hash2);

    let hash1 = poseidon2_hash_two(&env, a, b);
    let hash2 = poseidon2_hash_two(&env, a, b);
    assert_eq!(hash1, hash2);
}

// The checks that a deployed contract is put through, on the functions that
// it calls.
#[test]
fn test_wasm_poseidon() {
    let env = Env::default();
    env.cost_estimate().budget().reset_unlimited();

    let a = Uint256::from_u32(1);
    let b = Uint256::from_u32(2);

    // Test hash_two with known value from circom
    let hash = poseidon_hash_two(&env, a, b);
    let expected = from_hex("0x115cc0f5e7d690413df64c6b9662e9cf2a3617f2743245519e19607a4417189a");
    assert_eq!(hash, expected);

    // Poseidon is not commutative
    let hash_reversed = poseidon_hash_two(&env, b, a);
    assert_ne!(hash, hash_reversed);

    // hash_two_sponge should produce the same result as hash_two
    let hash_sponge = poseidon_hash_two_sponge(&env, a, b);
    assert_eq!(hash_sponge, expected);

    // Deterministic: calling twice gives the same result
    let hash2 = poseidon_hash_two(&env, a, b);
    assert_eq!(hash, hash2);
}

#[test]
fn test_wasm_poseidon2() {
    let env = Env::default();
    env.cost_estimate().budget().reset_unlimited();

    let a = Uint256::from_u32(1);
    let b = Uint256::from_u32(2);
    let c = Uint256::from_u32(3);

    // Test hash_two
    let hash = poseidon2_hash_two(&env, a, b);

    // Poseidon2 is not commutative
    let hash_reversed = poseidon2_hash_two(&env, b, a);
    assert_ne!(hash, hash_reversed);

    // hash_two_sponge should produce the same result as hash_two
    let hash_sponge = poseidon2_hash_two_sponge(&env, a, b);
    assert_eq!(hash_sponge, hash);

    // Deterministic: calling twice gives the same result
    let hash2 = poseidon2_hash_two(&env, a, b);
    assert_eq!(hash, hash2);

    // Test hash_three (t=4, rate=3)
    let hash3 = poseidon2_hash_three(&env, a, b, c);
    let hash3_again = poseidon2_hash_three(&env, a, b, c);
    assert_eq!(hash3, hash3_again);
}
