use soroban_poseidon::{
    poseidon2_hash, poseidon_hash, Field, Poseidon2Config, Poseidon2Sponge, PoseidonConfig,
    PoseidonError, PoseidonSponge, Uint256,
};
use soroban_sdk::Env;

const FIELDS: [Field; 2] = [Field::Bn254, Field::Bls12381];

fn numbers(count: u32) -> Vec<Uint256> {
    (1..=count).map(Uint256::from_u32).collect()
}

fn parse(hex: &str) -> Uint256 {
    assert_eq!(hex.len(), 64);
    let mut out = [0u8; 32];
    for i in 0..32 {
        out[i] = u8::from_str_radix(&hex[2 * i..2 * i + 2], 16).unwrap();
    }
    Uint256::from_be_bytes(&out)
}

fn minus_one(x: Uint256) -> Uint256 {
    assert!(x.lo_lo > 0);
    Uint256::from_parts(x.hi_hi, x.hi_lo, x.lo_hi, x.lo_lo - 1)
}

#[test]
fn poseidon_widths_from_two_to_six_have_parameters() {
    let env = Env::default();
    for field in FIELDS {
        for width in [0, 1, 7, 8, u32::MAX] {
            assert_eq!(
                PoseidonSponge::new(&env, field, width).err(),
                Some(PoseidonError::UnsupportedParameters)
            );
            assert_eq!(
                PoseidonConfig::lookup(field, width).err(),
                Some(PoseidonError::UnsupportedParameters)
            );
            assert_eq!(
                poseidon_hash(&env, field, width, &numbers(1)),
                Err(PoseidonError::UnsupportedParameters)
            );
        }
        for width in 2..=6 {
            assert!(PoseidonSponge::new(&env, field, width).is_ok());
            assert!(PoseidonConfig::lookup(field, width).is_ok());
        }
    }
}

#[test]
fn poseidon2_widths_from_two_to_four_have_parameters() {
    let env = Env::default();
    for field in FIELDS {
        for width in [0, 1, 5, 6, 8, u32::MAX] {
            assert_eq!(
                Poseidon2Sponge::new(&env, field, width).err(),
                Some(PoseidonError::UnsupportedParameters)
            );
            assert_eq!(
                Poseidon2Config::lookup(field, width).err(),
                Some(PoseidonError::UnsupportedParameters)
            );
            assert_eq!(
                poseidon2_hash(&env, field, width, &numbers(1)),
                Err(PoseidonError::UnsupportedParameters)
            );
        }
        for width in 2..=4 {
            assert!(Poseidon2Sponge::new(&env, field, width).is_ok());
            assert!(Poseidon2Config::lookup(field, width).is_ok());
        }
    }
}

#[test]
fn an_unsupported_width_is_reported_before_the_inputs_are_looked_at() {
    let env = Env::default();
    assert_eq!(
        poseidon_hash(&env, Field::Bn254, 7, &numbers(0)),
        Err(PoseidonError::UnsupportedParameters)
    );
    assert_eq!(
        poseidon_hash(&env, Field::Bn254, 1, &numbers(9)),
        Err(PoseidonError::UnsupportedParameters)
    );
    assert_eq!(
        poseidon2_hash(&env, Field::Bls12381, 5, &vec![Field::Bls12381.modulus()]),
        Err(PoseidonError::UnsupportedParameters)
    );
}

#[test]
fn poseidon_round_counts() {
    let partial = |field, width| {
        let config = PoseidonConfig::lookup(field, width).unwrap();
        assert_eq!(config.rounds_f(), 8);
        assert_eq!(config.field(), field);
        assert_eq!(config.width(), width);
        assert_eq!(config.rate(), width - 1);
        config.rounds_p()
    };
    assert_eq!(partial(Field::Bn254, 2), 56);
    assert_eq!(partial(Field::Bn254, 3), 57);
    assert_eq!(partial(Field::Bn254, 4), 56);
    assert_eq!(partial(Field::Bn254, 5), 60);
    assert_eq!(partial(Field::Bn254, 6), 60);
    assert_eq!(partial(Field::Bls12381, 2), 56);
    assert_eq!(partial(Field::Bls12381, 3), 56);
    assert_eq!(partial(Field::Bls12381, 4), 56);
    assert_eq!(partial(Field::Bls12381, 5), 56);
    assert_eq!(partial(Field::Bls12381, 6), 57);
}

#[test]
fn poseidon2_round_counts() {
    for field in FIELDS {
        for width in 2..=4 {
            let config = Poseidon2Config::lookup(field, width).unwrap();
            assert_eq!(config.rounds_f(), 8);
            assert_eq!(config.rounds_p(), 56);
            assert_eq!(config.field(), field);
            assert_eq!(config.width(), width);
            assert_eq!(config.rate(), width - 1);
        }
    }
}

#[test]
fn poseidon_tables_have_the_shape_the_host_asks_for() {
    let env = Env::default();
    for field in FIELDS {
        for width in 2..=6 {
            let config = PoseidonConfig::lookup(field, width).unwrap();
            let mds = config.get_mds(&env);
            assert_eq!(mds.len(), width);
            for row in mds.iter() {
                assert_eq!(row.len(), width);
            }
            let rc = config.get_rc(&env);
            assert_eq!(rc.len(), config.rounds_f() + config.rounds_p());
            for row in rc.iter() {
                assert_eq!(row.len(), width);
            }
        }
    }
}

#[test]
fn poseidon2_tables_have_the_shape_the_host_asks_for() {
    let env = Env::default();
    for field in FIELDS {
        for width in 2..=4 {
            let config = Poseidon2Config::lookup(field, width).unwrap();
            assert_eq!(config.get_m_diag(&env).len(), width);
            let rc = config.get_rc(&env);
            assert_eq!(rc.len(), 64);
            for row in rc.iter() {
                assert_eq!(row.len(), width);
            }
        }
    }
}

#[test]
fn poseidon_table_entries_are_in_their_places() {
    let env = Env::default();
    let bytes = |hex: &str| {
        let x = parse(hex);
        soroban_sdk::U256::from_parts(&env, x.hi_hi, x.hi_lo, x.lo_hi, x.lo_lo)
    };
    let config = PoseidonConfig::lookup(Field::Bn254, 3).unwrap();
    let mds = config.get_mds(&env);
    assert_eq!(
        mds.get_unchecked(0).get_unchecked(0),
        bytes("109b7f411ba0e4c9b2b70caf5c36a7b194be7c11ad24378bfedb68592ba8118b")
    );
    assert_eq!(
        mds.get_unchecked(0).get_unchecked(2),
        bytes("2b90bba00fca0589f617e7dcbfe82e0df706ab640ceb247b791a93b74e36736d")
    );
    assert_eq!(
        mds.get_unchecked(1).get_unchecked(0),
        bytes("2969f27eed31a480b9c36c764379dbca2cc8fdd1415c3dded62940bcde0bd771")
    );
    assert_eq!(
        mds.get_unchecked(2).get_unchecked(2),
        bytes("19a3fc0a56702bf417ba7fee3802593fa644470307043f7773279cd71d25d5e0")
    );
    let rc = config.get_rc(&env);
    assert_eq!(
        rc.get_unchecked(0).get_unchecked(0),
        bytes("0ee9a592ba9a9518d05986d656f40c2114c4993c11bb29938d21d47304cd8e6e")
    );
    assert_eq!(
        rc.get_unchecked(0).get_unchecked(1),
        bytes("00f1445235f2148c5986587169fc1bcd887b08d4d00868df5696fff40956e864")
    );
    assert_eq!(
        rc.get_unchecked(1).get_unchecked(0),
        bytes("2f27be690fdaee46c3ce28f7532b13c856c35342c84bda6e20966310fadc01d0")
    );
}

#[test]
fn poseidon2_table_entries_are_in_their_places() {
    let env = Env::default();
    let small = |n: u32| soroban_sdk::U256::from_u32(&env, n);
    let config = Poseidon2Config::lookup(Field::Bn254, 3).unwrap();
    let diag = config.get_m_diag(&env);
    assert_eq!(diag.get_unchecked(0), small(1));
    assert_eq!(diag.get_unchecked(1), small(1));
    assert_eq!(diag.get_unchecked(2), small(2));
    let rc = config.get_rc(&env);
    let first = parse("1d066a255517b7fd8bddd3a93f7804ef7f8fcde48bb4c37a59a09a1a97052816");
    assert_eq!(
        rc.get_unchecked(0).get_unchecked(0),
        soroban_sdk::U256::from_parts(&env, first.hi_hi, first.hi_lo, first.lo_hi, first.lo_lo)
    );
    // A partial round uses the first constant of its row only.
    assert_ne!(rc.get_unchecked(4).get_unchecked(0), small(0));
    assert_eq!(rc.get_unchecked(4).get_unchecked(1), small(0));
    assert_eq!(rc.get_unchecked(4).get_unchecked(2), small(0));
    assert_eq!(rc.get_unchecked(59).get_unchecked(2), small(0));
    assert_ne!(rc.get_unchecked(60).get_unchecked(2), small(0));
}

#[test]
fn poseidon_rate_boundary_at_every_width() {
    let env = Env::default();
    for field in FIELDS {
        for width in 2..=6 {
            let mut sponge = PoseidonSponge::new(&env, field, width).unwrap();
            assert!(sponge.compute_hash(&numbers(width - 1)).is_ok());
            assert_eq!(
                sponge.compute_hash(&numbers(width)),
                Err(PoseidonError::InputExceedsRate)
            );
            assert_eq!(
                sponge.compute_hash(&numbers(width + 5)),
                Err(PoseidonError::InputExceedsRate)
            );
            assert_eq!(
                poseidon_hash(&env, field, width, &numbers(width)),
                Err(PoseidonError::InputExceedsRate)
            );
        }
    }
}

#[test]
fn poseidon2_rate_boundary_at_every_width() {
    let env = Env::default();
    for field in FIELDS {
        for width in 2..=4 {
            let mut sponge = Poseidon2Sponge::new(&env, field, width).unwrap();
            assert!(sponge.compute_hash(&numbers(width - 1)).is_ok());
            assert_eq!(
                sponge.compute_hash(&numbers(width)),
                Err(PoseidonError::InputExceedsRate)
            );
            assert_eq!(
                poseidon2_hash(&env, field, width, &numbers(width)),
                Err(PoseidonError::InputExceedsRate)
            );
        }
    }
}

#[test]
fn poseidon_refuses_no_inputs_at_every_width() {
    let env = Env::default();
    for field in FIELDS {
        for width in 2..=6 {
            let mut sponge = PoseidonSponge::new(&env, field, width).unwrap();
            assert_eq!(
                sponge.compute_hash(&numbers(0)),
                Err(PoseidonError::EmptyInput)
            );
            assert_eq!(
                poseidon_hash(&env, field, width, &numbers(0)),
                Err(PoseidonError::EmptyInput)
            );
        }
    }
}

#[test]
fn poseidon2_hashes_no_inputs_at_every_width() {
    let env = Env::default();
    for field in FIELDS {
        for width in 2..=4 {
            let empty = poseidon2_hash(&env, field, width, &numbers(0)).unwrap();
            let zero = poseidon2_hash(&env, field, width, &vec![Uint256::from_u32(0)]).unwrap();
            assert_ne!(empty, zero);
        }
    }
}

#[test]
fn poseidon2_too_many_inputs_are_reported_before_an_input_out_of_range() {
    let env = Env::default();
    let modulus = Field::Bn254.modulus();
    let mut sponge = Poseidon2Sponge::new(&env, Field::Bn254, 3).unwrap();
    assert_eq!(
        sponge.compute_hash(&vec![modulus, modulus, modulus]),
        Err(PoseidonError::InputExceedsRate)
    );
    assert_eq!(
        sponge.compute_hash(&vec![Uint256::from_u32(1), modulus]),
        Err(PoseidonError::FieldElementOutOfRange)
    );
}

#[test]
fn poseidon2_modulus_boundary_in_every_position() {
    let env = Env::default();
    for field in FIELDS {
        let modulus = field.modulus();
        let largest = minus_one(modulus);
        let mut sponge = Poseidon2Sponge::new(&env, field, 4).unwrap();
        for at in 0..3 {
            let mut inputs = numbers(3);
            inputs[at] = modulus;
            assert_eq!(
                sponge.compute_hash(&inputs),
                Err(PoseidonError::FieldElementOutOfRange)
            );
            inputs[at] = Uint256::from_parts(u64::MAX, u64::MAX, u64::MAX, u64::MAX);
            assert_eq!(
                sponge.compute_hash(&inputs),
                Err(PoseidonError::FieldElementOutOfRange)
            );
            inputs[at] = largest;
            assert!(sponge.compute_hash(&inputs).is_ok());
        }
    }
}

#[test]
fn a_sponge_hashes_again_after_a_refusal() {
    let env = Env::default();
    let mut sponge = Poseidon2Sponge::new(&env, Field::Bn254, 4).unwrap();
    let before = sponge.compute_hash(&numbers(3)).unwrap();
    let refused = vec![
        Uint256::from_u32(7),
        Uint256::from_u32(8),
        Field::Bn254.modulus(),
    ];
    assert_eq!(
        sponge.compute_hash(&refused),
        Err(PoseidonError::FieldElementOutOfRange)
    );
    assert_eq!(sponge.compute_hash(&numbers(3)), Ok(before));

    let mut sponge = PoseidonSponge::new(&env, Field::Bn254, 3).unwrap();
    let before = sponge.compute_hash(&numbers(2)).unwrap();
    assert_eq!(
        sponge.compute_hash(&numbers(3)),
        Err(PoseidonError::InputExceedsRate)
    );
    assert_eq!(
        sponge.compute_hash(&numbers(0)),
        Err(PoseidonError::EmptyInput)
    );
    assert_eq!(sponge.compute_hash(&numbers(2)), Ok(before));
}

#[test]
fn hashing_is_deterministic_across_fresh_and_used_sponges() {
    let env = Env::default();
    for field in FIELDS {
        let inputs = numbers(2);
        let mut used = PoseidonSponge::new(&env, field, 3).unwrap();
        let first = used.compute_hash(&inputs).unwrap();
        let _ = used.compute_hash(&vec![Uint256::from_u32(9)]).unwrap();
        let again = used.compute_hash(&inputs).unwrap();
        let mut fresh = PoseidonSponge::new(&env, field, 3).unwrap();
        assert_eq!(first, again);
        assert_eq!(first, fresh.compute_hash(&inputs).unwrap());
        assert_eq!(first, poseidon_hash(&env, field, 3, &inputs).unwrap());
        let other = Env::default();
        assert_eq!(first, poseidon_hash(&other, field, 3, &inputs).unwrap());

        let mut used = Poseidon2Sponge::new(&env, field, 3).unwrap();
        let first = used.compute_hash(&inputs).unwrap();
        let _ = used.compute_hash(&vec![Uint256::from_u32(9)]).unwrap();
        let again = used.compute_hash(&inputs).unwrap();
        let mut fresh = Poseidon2Sponge::new(&env, field, 3).unwrap();
        assert_eq!(first, again);
        assert_eq!(first, fresh.compute_hash(&inputs).unwrap());
        assert_eq!(first, poseidon2_hash(&env, field, 3, &inputs).unwrap());
        let other = Env::default();
        assert_eq!(first, poseidon2_hash(&other, field, 3, &inputs).unwrap());
    }
}

#[test]
fn the_order_of_the_inputs_changes_the_digest() {
    let env = Env::default();
    for field in FIELDS {
        for width in 3..=6 {
            let inputs = numbers(width - 1);
            let mut reversed = inputs.clone();
            reversed.reverse();
            assert_ne!(
                poseidon_hash(&env, field, width, &inputs).unwrap(),
                poseidon_hash(&env, field, width, &reversed).unwrap()
            );
        }
        for width in 3..=4 {
            let inputs = numbers(width - 1);
            let mut reversed = inputs.clone();
            reversed.reverse();
            assert_ne!(
                poseidon2_hash(&env, field, width, &inputs).unwrap(),
                poseidon2_hash(&env, field, width, &reversed).unwrap()
            );
        }
    }
}

#[test]
fn poseidon_pads_a_partial_rate_with_zeros() {
    let env = Env::default();
    let one = vec![Uint256::from_u32(1)];
    let one_and_zero = vec![Uint256::from_u32(1), Uint256::from_u32(0)];
    assert_eq!(
        poseidon_hash(&env, Field::Bn254, 3, &one).unwrap(),
        poseidon_hash(&env, Field::Bn254, 3, &one_and_zero).unwrap()
    );
    // Poseidon2 tells the two apart by the capacity element.
    assert_ne!(
        poseidon2_hash(&env, Field::Bn254, 3, &one).unwrap(),
        poseidon2_hash(&env, Field::Bn254, 3, &one_and_zero).unwrap()
    );
}

#[test]
fn digests_are_below_the_modulus() {
    let env = Env::default();
    for field in FIELDS {
        let modulus = field.modulus();
        for width in 2..=6 {
            let digest = poseidon_hash(&env, field, width, &numbers(width - 1)).unwrap();
            assert!(digest.lt(&modulus));
        }
        for width in 2..=4 {
            let digest = poseidon2_hash(&env, field, width, &numbers(width - 1)).unwrap();
            assert!(digest.lt(&modulus));
        }
    }
}

#[test]
fn poseidon2_digests_of_full_rates() {
    let env = Env::default();
    let expect = |field, width, hex: &str| {
        assert_eq!(
            poseidon2_hash(&env, field, width, &numbers(width - 1)),
            Ok(parse(hex))
        );
    };
    expect(
        Field::Bn254,
        2,
        "117bdb59d7080bc3b908e9fff4b7a2b0af7cff59efead2270d817894be833c4b",
    );
    expect(
        Field::Bn254,
        3,
        "0210752763833e0245ca2554e847d2e5b327da5ae77038be2c525059254e3bfd",
    );
    expect(
        Field::Bn254,
        4,
        "23864adb160dddf590f1d3303683ebcb914f828e2635f6e85a32f0a1aecd3dd8",
    );
    expect(
        Field::Bls12381,
        2,
        "12159d869d10a706d25b8e8cc94c70441c51e823c07e50cc83aa33ddd5213164",
    );
    expect(
        Field::Bls12381,
        3,
        "389d7ccf1720fced1f4d22c769f41f1a7f34bfdd3f2435add4865687988a469b",
    );
    expect(
        Field::Bls12381,
        4,
        "2d7646f06bef55390756551de81098ad1871b4a3362bc898c1e82bf3d3d7dbef",
    );
}

#[test]
fn poseidon_steps_write_the_rate_after_the_capacity() {
    let env = Env::default();
    let inputs = vec![Uint256::from_u32(5), Uint256::from_u32(6)];
    let mut sponge = PoseidonSponge::new(&env, Field::Bn254, 3).unwrap();
    assert_eq!(sponge.output(), Uint256::from_u32(0));
    assert_eq!(sponge.absorb(&inputs), Ok(()));
    // The first element is the capacity element, which no input reaches.
    assert_eq!(sponge.output(), Uint256::from_u32(0));
    let squeezed = sponge.squeeze();
    assert_eq!(sponge.output(), squeezed);
    assert_eq!(sponge.compute_hash(&inputs), Ok(squeezed));

    // Absorbing over a used state keeps what the inputs do not reach.
    let mut sponge = PoseidonSponge::new(&env, Field::Bn254, 3).unwrap();
    assert_eq!(sponge.absorb(&inputs), Ok(()));
    assert_eq!(sponge.absorb(&vec![Uint256::from_u32(9)]), Ok(()));
    let kept = sponge.squeeze();
    assert_eq!(
        sponge.compute_hash(&vec![Uint256::from_u32(9), Uint256::from_u32(6)]),
        Ok(kept)
    );
    assert_eq!(
        sponge.absorb(&numbers(3)),
        Err(PoseidonError::InputExceedsRate)
    );
    sponge.reset_state();
    assert_eq!(sponge.output(), Uint256::from_u32(0));
    sponge.perform_duplex();
    assert_eq!(
        sponge.output(),
        poseidon_hash(&env, Field::Bn254, 3, &vec![Uint256::from_u32(0)]).unwrap()
    );
}

#[test]
fn poseidon2_steps_write_the_rate_before_the_capacity() {
    let env = Env::default();
    let inputs = vec![Uint256::from_u32(7), Uint256::from_u32(9)];
    let mut sponge = Poseidon2Sponge::new(&env, Field::Bn254, 4).unwrap();
    assert_eq!(sponge.output(), Uint256::from_u32(0));
    // The capacity element of a hash of two inputs: 2 * 2^64.
    sponge.reset_state(&Uint256::from_parts(0, 0, 2, 0));
    assert_eq!(sponge.output(), Uint256::from_u32(0));
    assert_eq!(sponge.absorb(&inputs), Ok(()));
    assert_eq!(sponge.output(), Uint256::from_u32(7));
    let squeezed = sponge.squeeze();
    assert_eq!(sponge.output(), squeezed);
    assert_eq!(sponge.compute_hash(&inputs), Ok(squeezed));

    // Another capacity element gives another digest.
    sponge.reset_state(&Uint256::from_parts(0, 0, 3, 0));
    assert_eq!(sponge.absorb(&inputs), Ok(()));
    assert_ne!(sponge.squeeze(), squeezed);

    // An input out of range stops the absorption where it stands.
    sponge.reset_state(&Uint256::from_u32(0));
    let refused = vec![Uint256::from_u32(4), Field::Bn254.modulus()];
    assert_eq!(
        sponge.absorb(&refused),
        Err(PoseidonError::FieldElementOutOfRange)
    );
    assert_eq!(sponge.output(), Uint256::from_u32(4));
    assert_eq!(
        sponge.absorb(&numbers(4)),
        Err(PoseidonError::InputExceedsRate)
    );
    assert_eq!(sponge.output(), Uint256::from_u32(4));
}
