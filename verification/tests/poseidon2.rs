use soroban_poseidon::poseidon2::params::SBOX_D;
use soroban_poseidon::{
    poseidon2_hash, Field, Poseidon2Config, Poseidon2Sponge, PoseidonError, Uint256,
};
use soroban_sdk::{Bytes, Env, Symbol, Vec, U256};

fn be32(hex: &str) -> [u8; 32] {
    let hex = hex.trim_start_matches("0x");
    assert_eq!(hex.len(), 64);
    let mut out = [0u8; 32];
    for i in 0..32 {
        out[i] = u8::from_str_radix(&hex[2 * i..2 * i + 2], 16).unwrap();
    }
    out
}

fn word(hex: &str) -> Uint256 {
    Uint256::from_be_bytes(&be32(hex))
}

fn host_word(env: &Env, hex: &str) -> U256 {
    U256::from_be_bytes(env, &Bytes::from_array(env, &be32(hex)))
}

fn host_words(env: &Env, hex: &[&str]) -> Vec<U256> {
    let mut out = Vec::new(env);
    for h in hex {
        out.push_back(host_word(env, h));
    }
    out
}

fn permute(env: &Env, field: Field, t: u32, input: &Vec<U256>) -> Vec<U256> {
    // Get parameters
    let config = Poseidon2Config::lookup(field, t).unwrap();
    let m_diag = config.get_m_diag(env);
    let rc = config.get_rc(env);
    let d = SBOX_D;
    let rounds_f = 8;
    let rounds_p = 56;

    // Call the permutation
    env.crypto_hazmat().poseidon2_permutation(
        input,
        Symbol::new(env, field.symbol()),
        t,
        d,
        rounds_f,
        rounds_p,
        &m_diag,
        &rc,
    )
}

#[test]
fn test_poseidon2_permutation() {
    let env = Env::default();

    // Input: 4 identical field elements
    let input_value = "0x9a807b615c4d3e2fa0b1c2d3e4f56789fedcba9876543210abcdef0123456789";
    let input = host_words(&env, &[input_value, input_value, input_value, input_value]);

    assert_eq!(Field::Bn254.symbol(), "BN254");
    let result = permute(&env, Field::Bn254, 4, &input);

    // Expected output (full state after permutation)
    let expected = host_words(
        &env,
        &[
            "0x2bf1eaf87f7d27e8dc4056e9af975985bccc89077a21891d6c7b6ccce0631f95",
            "0x0c01fa1b8d0748becafbe452c0cb0231c38224ea824554c9362518eebdd5701f",
            "0x018555a8eb50cf07f64b019ebaf3af3c925c93e631f3ecd455db07bbb52bbdd3",
            "0x0cbea457c91c22c6c31fd89afd2541efc2edf31736b9f721e823b2165c90fd41",
        ],
    );

    assert_eq!(result, expected);
}

#[test]
fn test_poseidon2_permutation_bn254_t4() {
    let env = Env::default();

    // Input: [0, 1, 2, 3]
    let mut input = Vec::from_array(&env, [U256::from_u32(&env, 0)]);
    input.append(&host_words(
        &env,
        &[
            "0x0000000000000000000000000000000000000000000000000000000000000001",
            "0x0000000000000000000000000000000000000000000000000000000000000002",
            "0x0000000000000000000000000000000000000000000000000000000000000003",
        ],
    ));

    let result = permute(&env, Field::Bn254, 4, &input);

    // Expected output
    let expected = host_words(
        &env,
        &[
            "0x01bd538c2ee014ed5141b29e9ae240bf8db3fe5b9a38629a9647cf8d76c01737",
            "0x239b62e7db98aa3a2a8f6a0d2fa1709e7a35959aa6c7034814d9daa90cbac662",
            "0x04cbb44c61d928ed06808456bf758cbf0c18d1e15a7b6dbc8245fa7515d5e3cb",
            "0x2e11c5cff2a22c64d01304b778d78f6998eff1ab73163a35603f54794c30847a",
        ],
    );

    assert_eq!(result, expected);
}

#[test]
fn test_poseidon2_permutation_bls12_381_t4() {
    let env = Env::default();

    // Input: [0, 1, 2, 3]
    let mut input = Vec::from_array(&env, [U256::from_u32(&env, 0)]);
    input.append(&host_words(
        &env,
        &[
            "0x0000000000000000000000000000000000000000000000000000000000000001",
            "0x0000000000000000000000000000000000000000000000000000000000000002",
            "0x0000000000000000000000000000000000000000000000000000000000000003",
        ],
    ));

    assert_eq!(Field::Bls12381.symbol(), "BLS12_381");
    let result = permute(&env, Field::Bls12381, 4, &input);

    // Expected output
    let expected = host_words(
        &env,
        &[
            "0x28ff6c4edf9768c08ae26290487e93449cc8bc155fc2fad92a344adceb3ada6d",
            "0x0e56f2b6fad25075aa93560185b70e2b180ed7e269159c507c288b6747a0db2d",
            "0x6d8196f28da6006bb89b3df94600acdc03d0ba7c2b0f3f4409a54c1db6bf30d0",
            "0x07cfb49540ee456cce38b8a7d1a930a57ffc6660737f6589ef184c5e15334e36",
        ],
    );

    assert_eq!(result, expected);
}

#[test]
fn test_poseidon2_permutation_bn254_t2() {
    let env = Env::default();

    // Input: [0, 1]
    let mut input = Vec::from_array(&env, [U256::from_u32(&env, 0)]);
    input.append(&host_words(
        &env,
        &["0x0000000000000000000000000000000000000000000000000000000000000001"],
    ));

    let result = permute(&env, Field::Bn254, 2, &input);

    // Expected output
    let expected = host_words(
        &env,
        &[
            "0x1d01e56f49579cec72319e145f06f6177f6c5253206e78c2689781452a31878b",
            "0x0d189ec589c41b8cffa88cfc523618a055abe8192c70f75aa72fc514560f6c61",
        ],
    );

    assert_eq!(result, expected);
}

#[test]
fn test_poseidon2_permutation_bn254_t3() {
    let env = Env::default();

    // Input: [0, 1, 2]
    let mut input = Vec::from_array(&env, [U256::from_u32(&env, 0)]);
    input.append(&host_words(
        &env,
        &[
            "0x0000000000000000000000000000000000000000000000000000000000000001",
            "0x0000000000000000000000000000000000000000000000000000000000000002",
        ],
    ));

    let result = permute(&env, Field::Bn254, 3, &input);

    // Expected output
    let expected = host_words(
        &env,
        &[
            "0x0bb61d24daca55eebcb1929a82650f328134334da98ea4f847f760054f4a3033",
            "0x303b6f7c86d043bfcbcc80214f26a30277a15d3f74ca654992defe7ff8d03570",
            "0x1ed25194542b12eef8617361c3ba7c52e660b145994427cc86296242cf766ec8",
        ],
    );

    assert_eq!(result, expected);
}

#[test]
fn test_poseidon2_permutation_bls12_381_t2() {
    let env = Env::default();

    // Input: [0, 1]
    let mut input = Vec::from_array(&env, [U256::from_u32(&env, 0)]);
    input.append(&host_words(
        &env,
        &["0x0000000000000000000000000000000000000000000000000000000000000001"],
    ));

    let result = permute(&env, Field::Bls12381, 2, &input);

    // Expected output
    let expected = host_words(
        &env,
        &[
            "0x73c46dd530e248a87b61d19e67fa1b4ed30fc3d09f16531fe189fb945a15ce4e",
            "0x1f0e305ee21c9366d5793b80251405032a3fee32b9dd0b5f4578262891b043b4",
        ],
    );

    assert_eq!(result, expected);
}

#[test]
fn test_poseidon2_permutation_bls12_381_t3() {
    let env = Env::default();

    // Input: [0, 1, 2]
    let mut input = Vec::from_array(&env, [U256::from_u32(&env, 0)]);
    input.append(&host_words(
        &env,
        &[
            "0x0000000000000000000000000000000000000000000000000000000000000001",
            "0x0000000000000000000000000000000000000000000000000000000000000002",
        ],
    ));

    let result = permute(&env, Field::Bls12381, 3, &input);

    // Expected output
    let expected = host_words(
        &env,
        &[
            "0x1b152349b1950b6a8ca75ee4407b6e26ca5cca5650534e56ef3fd45761fbf5f0",
            "0x4c5793c87d51bdc2c08a32108437dc0000bd0275868f09ebc5f36919af5b3891",
            "0x1fc8ed171e67902ca49863159fe5ba6325318843d13976143b8125f08b50dc6b",
        ],
    );

    assert_eq!(result, expected);
}

// ============================================================================
// Tests for Poseidon2Sponge::compute_hash
// ============================================================================

#[test]
fn test_poseidon2_sponge_compute_hash_bn254_t4() {
    let env = Env::default();

    // 3 inputs fit in rate=3 for t=4
    let inputs = vec![
        Uint256::from_u32(1),
        Uint256::from_u32(2),
        Uint256::from_u32(3),
    ];

    let mut sponge = Poseidon2Sponge::new(&env, Field::Bn254, 4).unwrap();
    let result = sponge.compute_hash(&inputs).unwrap();

    // Result should be deterministic - hash again and compare
    let result2 = sponge.compute_hash(&inputs).unwrap();
    assert_eq!(result, result2);
}

#[test]
fn test_poseidon2_sponge_compute_hash_bn254_t3() {
    let env = Env::default();

    // 2 inputs fit in rate=2 for t=3
    let inputs = vec![Uint256::from_u32(1), Uint256::from_u32(2)];

    let mut sponge = Poseidon2Sponge::new(&env, Field::Bn254, 3).unwrap();
    let result = sponge.compute_hash(&inputs).unwrap();

    // Result should be deterministic
    let result2 = sponge.compute_hash(&inputs).unwrap();
    assert_eq!(result, result2);
}

#[test]
fn test_poseidon2_sponge_compute_hash_bn254_t2() {
    let env = Env::default();

    // 1 input fits in rate=1 for t=2
    let inputs = vec![Uint256::from_u32(1)];

    let mut sponge = Poseidon2Sponge::new(&env, Field::Bn254, 2).unwrap();
    let result = sponge.compute_hash(&inputs).unwrap();

    // Result should be deterministic
    let result2 = sponge.compute_hash(&inputs).unwrap();
    assert_eq!(result, result2);
}

#[test]
fn test_poseidon2_sponge_compute_hash_bls12_381_t4() {
    let env = Env::default();

    let inputs = vec![
        Uint256::from_u32(1),
        Uint256::from_u32(2),
        Uint256::from_u32(3),
    ];

    let mut sponge = Poseidon2Sponge::new(&env, Field::Bls12381, 4).unwrap();
    let result = sponge.compute_hash(&inputs).unwrap();

    // Result should be deterministic
    let result2 = sponge.compute_hash(&inputs).unwrap();
    assert_eq!(result, result2);
}

// ============================================================================
// Tests for poseidon2_hash top-level function
// ============================================================================

#[test]
fn test_poseidon2_hash_bn254_t4() {
    let env = Env::default();

    let inputs = vec![
        Uint256::from_u32(1),
        Uint256::from_u32(2),
        Uint256::from_u32(3),
    ];

    // Top-level function should work
    let result = poseidon2_hash(&env, Field::Bn254, 4, &inputs).unwrap();

    // Should match sponge directly
    let mut sponge = Poseidon2Sponge::new(&env, Field::Bn254, 4).unwrap();
    let sponge_result = sponge.compute_hash(&inputs).unwrap();

    assert_eq!(result, sponge_result);
}

#[test]
fn test_poseidon2_hash_bls12_381_t4() {
    let env = Env::default();

    let inputs = vec![
        Uint256::from_u32(1),
        Uint256::from_u32(2),
        Uint256::from_u32(3),
    ];

    let result = poseidon2_hash(&env, Field::Bls12381, 4, &inputs).unwrap();

    // Should match sponge directly
    let mut sponge = Poseidon2Sponge::new(&env, Field::Bls12381, 4).unwrap();
    let sponge_result = sponge.compute_hash(&inputs).unwrap();

    assert_eq!(result, sponge_result);
}

#[test]
fn test_poseidon2_hash_bn254_t2() {
    let env = Env::default();

    let inputs = vec![Uint256::from_u32(1)];

    let result = poseidon2_hash(&env, Field::Bn254, 2, &inputs).unwrap();

    let mut sponge = Poseidon2Sponge::new(&env, Field::Bn254, 2).unwrap();
    let sponge_result = sponge.compute_hash(&inputs).unwrap();

    assert_eq!(result, sponge_result);
}

#[test]
fn test_poseidon2_hash_bn254_t3() {
    let env = Env::default();

    let inputs = vec![Uint256::from_u32(1), Uint256::from_u32(2)];

    let result = poseidon2_hash(&env, Field::Bn254, 3, &inputs).unwrap();

    let mut sponge = Poseidon2Sponge::new(&env, Field::Bn254, 3).unwrap();
    let sponge_result = sponge.compute_hash(&inputs).unwrap();

    assert_eq!(result, sponge_result);
}

// ============================================================================
// Tests for sponge reuse (repeated hashing)
// ============================================================================

#[test]
fn test_poseidon2_sponge_reuse() {
    let env = Env::default();

    let mut sponge = Poseidon2Sponge::new(&env, Field::Bn254, 4).unwrap();

    let inputs1 = vec![
        Uint256::from_u32(1),
        Uint256::from_u32(2),
        Uint256::from_u32(3),
    ];
    let inputs2 = vec![
        Uint256::from_u32(4),
        Uint256::from_u32(5),
        Uint256::from_u32(6),
    ];

    // First hash
    let result1 = sponge.compute_hash(&inputs1).unwrap();

    // Second hash - should be independent (different inputs, different result)
    let result2 = sponge.compute_hash(&inputs2).unwrap();
    assert_ne!(result1, result2);

    // Hash inputs1 again - should get the same result as the first time
    let result1_again = sponge.compute_hash(&inputs1).unwrap();
    assert_eq!(result1, result1_again);
}

#[test]
fn test_poseidon2_sponge_matches_hash_function() {
    let env = Env::default();

    let inputs = vec![
        Uint256::from_u32(1),
        Uint256::from_u32(2),
        Uint256::from_u32(3),
    ];

    // Using top-level function
    let hash_result = poseidon2_hash(&env, Field::Bn254, 4, &inputs).unwrap();

    // Using sponge directly
    let mut sponge = Poseidon2Sponge::new(&env, Field::Bn254, 4).unwrap();
    let sponge_result = sponge.compute_hash(&inputs).unwrap();

    assert_eq!(hash_result, sponge_result);
}

// ============================================================================
// Partial rate tests (inputs.len() < RATE)
// ============================================================================

// Test hashing 1 input with T=4 (rate=3) - partial rate usage
// Reference: noir circuit hash([1]) with message_size=1
#[test]
fn test_poseidon2_bn254_partial_rate_t4_1_input() {
    let env = Env::default();

    // 1 input with T=4 (rate=3) - only 1/3 of the rate is used
    let inputs = vec![word(
        "0x0000000000000000000000000000000000000000000000000000000000000001",
    )];

    // Expected from noir circuit: hash([1], 1)
    let expected = word("0x168758332d5b3e2d13be8048c8011b454590e06c44bce7f702f09103eef5a373");

    let mut sponge = Poseidon2Sponge::new(&env, Field::Bn254, 4).unwrap();
    let result = sponge.compute_hash(&inputs).unwrap();

    assert_eq!(result, expected);
}

// Test hashing 2 inputs with T=4 (rate=3) - partial rate usage
// Reference: noir circuit hash([1, 2]) with message_size=2
#[test]
fn test_poseidon2_bn254_partial_rate_t4_2_inputs() {
    let env = Env::default();

    // 2 inputs with T=4 (rate=3) - 2/3 of the rate is used
    let inputs = vec![
        word("0x0000000000000000000000000000000000000000000000000000000000000001"),
        word("0x0000000000000000000000000000000000000000000000000000000000000002"),
    ];

    // Expected from noir circuit: hash([1, 2], 2)
    let expected = word("0x038682aa1cb5ae4e0a3f13da432a95c77c5c111f6f030faf9cad641ce1ed7383");

    let mut sponge = Poseidon2Sponge::new(&env, Field::Bn254, 4).unwrap();
    let result = sponge.compute_hash(&inputs).unwrap();

    assert_eq!(result, expected);
}

// ============================================================================
// Failure mode tests
// ============================================================================

#[test]
fn test_poseidon2_sponge_inputs_exceed_rate_t4() {
    let env = Env::default();

    // t=4 means rate=3, so 4 inputs are refused
    let inputs = vec![
        Uint256::from_u32(1),
        Uint256::from_u32(2),
        Uint256::from_u32(3),
        Uint256::from_u32(4),
    ];

    let mut sponge = Poseidon2Sponge::new(&env, Field::Bn254, 4).unwrap();
    assert_eq!(
        sponge.compute_hash(&inputs),
        Err(PoseidonError::InputExceedsRate)
    );
}

// ============================================================================
// Large value tests (values exceeding field modulus are refused)
// ============================================================================

// Test that values equal to or larger than the field modulus are rejected
// BN254 modulus = 0x30644e72e131a029b85045b68181585d2833e84879b9709143e1f593f0000001
#[test]
fn test_poseidon2_bn254_input_exceeds_modulus() {
    let env = Env::default();

    // modulus + 42
    let modulus_plus_42 =
        word("0x30644e72e131a029b85045b68181585d2833e84879b9709143e1f593f000002b");

    let inputs = vec![modulus_plus_42, Uint256::from_u32(1), Uint256::from_u32(2)];

    let mut sponge = Poseidon2Sponge::new(&env, Field::Bn254, 4).unwrap();
    assert_eq!(
        sponge.compute_hash(&inputs),
        Err(PoseidonError::FieldElementOutOfRange)
    );
}

// Test that a value exactly equal to the BN254 modulus is rejected
#[test]
fn test_poseidon2_bn254_input_equals_modulus() {
    let env = Env::default();

    let bn254_modulus =
        word("0x30644e72e131a029b85045b68181585d2833e84879b9709143e1f593f0000001");

    let inputs = vec![bn254_modulus];

    let mut sponge = Poseidon2Sponge::new(&env, Field::Bn254, 2).unwrap();
    assert_eq!(
        sponge.compute_hash(&inputs),
        Err(PoseidonError::FieldElementOutOfRange)
    );
}

// Test that values just below the BN254 modulus are accepted
#[test]
fn test_poseidon2_bn254_input_below_modulus_accepted() {
    let env = Env::default();

    // modulus - 1 (largest valid input)
    let bn254_modulus_minus_1 =
        word("0x30644e72e131a029b85045b68181585d2833e84879b9709143e1f593f0000000");

    let inputs = vec![bn254_modulus_minus_1];

    let mut sponge = Poseidon2Sponge::new(&env, Field::Bn254, 2).unwrap();
    // Should succeed - value is valid
    let _ = sponge.compute_hash(&inputs).unwrap();
}

// Test large values with BLS12-381 field
// BLS12-381 modulus = 0x73eda753299d7d483339d80809a1d80553bda402fffe5bfeffffffff00000001
#[test]
fn test_poseidon2_bls12_381_input_exceeds_modulus() {
    let env = Env::default();

    // modulus + 123
    let bls_modulus_plus_123 =
        word("0x73eda753299d7d483339d80809a1d80553bda402fffe5bfeffffffff0000007c");

    let inputs = vec![Uint256::from_u32(1), bls_modulus_plus_123];

    let mut sponge = Poseidon2Sponge::new(&env, Field::Bls12381, 3).unwrap();
    assert_eq!(
        sponge.compute_hash(&inputs),
        Err(PoseidonError::FieldElementOutOfRange)
    );
}

// Test that a value exactly equal to the BLS12-381 modulus is rejected
#[test]
fn test_poseidon2_bls12_381_input_equals_modulus() {
    let env = Env::default();

    let bls_modulus = word("0x73eda753299d7d483339d80809a1d80553bda402fffe5bfeffffffff00000001");

    let inputs = vec![bls_modulus];

    let mut sponge = Poseidon2Sponge::new(&env, Field::Bls12381, 2).unwrap();
    assert_eq!(
        sponge.compute_hash(&inputs),
        Err(PoseidonError::FieldElementOutOfRange)
    );
}

// Test that values just below the BLS12-381 modulus are accepted
#[test]
fn test_poseidon2_bls12_381_input_below_modulus_accepted() {
    let env = Env::default();

    // modulus - 1 (largest valid input)
    let bls_modulus_minus_1 =
        word("0x73eda753299d7d483339d80809a1d80553bda402fffe5bfeffffffff00000000");

    let inputs = vec![bls_modulus_minus_1];

    let mut sponge = Poseidon2Sponge::new(&env, Field::Bls12381, 2).unwrap();
    // Should succeed - value is valid
    let _ = sponge.compute_hash(&inputs).unwrap();
}

// Poseidon2 supports empty inputs (unlike Poseidon) because its IV choice
// prevents collision
// - hash([]) uses IV = 0, state = [0, 0, 0, 0]
// - hash([0]) uses IV = 2^64, state = [0, 0, 0, 2^64]
#[test]
fn test_poseidon2_bn254_empty_inputs() {
    let env = Env::default();

    let empty_inputs: std::vec::Vec<Uint256> = vec![];
    let zero_inputs = vec![Uint256::from_u32(0)];

    // Expected output for empty inputs: first element of permutation([0,0,0,0])
    let expected_empty = word("0x18dfb8dc9b82229cff974efefc8df78b1ce96d9d844236b496785c698bc6732e");

    let mut sponge = Poseidon2Sponge::new(&env, Field::Bn254, 4).unwrap();

    let empty_hash = sponge.compute_hash(&empty_inputs).unwrap();
    assert_eq!(empty_hash, expected_empty);

    let zero_hash = sponge.compute_hash(&zero_inputs).unwrap();

    // Verify domain separation: hash([]) != hash([0])
    assert_ne!(empty_hash, zero_hash);
}
