use editions_core::address::Address;

fn addr(b: u8) -> Address {
    Address { bytes: vec![b; 32] }
}

#[test]
fn derived_handle_verifies_against_its_own_seeds() {
    let program = addr(7);
    let namespace = b"editions_controls".to_vec();
    let seeds = vec![vec![1u8; 32], vec![2u8; 8]];
    let handle = editions_core::address::derive(&program, &namespace, &seeds).unwrap();
    assert!(editions_core::address::verify(&handle, &program, &namespace, &seeds));
}

#[test]
fn derivation_is_deterministic_across_calls() {
    let program = addr(9);
    let namespace = b"editions_deployment".to_vec();
    let seeds = vec![b"COOLSYMBOL".to_vec()];
    let first = editions_core::address::derive(&program, &namespace, &seeds).unwrap();
    let second = editions_core::address::derive(&program, &namespace, &seeds).unwrap();
    assert_eq!(first.bytes, second.bytes);
    assert_eq!(first.bytes.len(), 32);
}

#[test]
fn mutated_handle_never_verifies() {
    let program = addr(7);
    let namespace = b"editions_controls".to_vec();
    let seeds = vec![vec![1u8; 32]];
    let handle = editions_core::address::derive(&program, &namespace, &seeds).unwrap();
    let mut mutated = handle.bytes.clone();
    mutated[0] = mutated[0].wrapping_add(1);
    let mutated = Address { bytes: mutated };
    assert!(!editions_core::address::verify(&mutated, &program, &namespace, &seeds));
}

#[test]
fn mismatched_seeds_never_verify() {
    let program = addr(7);
    let namespace = b"editions_controls".to_vec();
    let seeds = vec![vec![1u8; 32]];
    let other_seeds = vec![vec![2u8; 32]];
    let handle = editions_core::address::derive(&program, &namespace, &seeds).unwrap();
    assert!(!editions_core::address::verify(&handle, &program, &namespace, &other_seeds));
    let other_namespace = b"editions_deployment".to_vec();
    assert!(!editions_core::address::verify(&handle, &program, &other_namespace, &seeds));
}

#[test]
fn derivation_transforms_its_seed_material() {
    // The derived handle is a fresh address, not any input handed back.
    let program = addr(7);
    let namespace = b"legacy_inscription".to_vec();
    let seed = vec![3u8; 32];
    let handle = editions_core::address::derive(&program, &namespace, &vec![seed.clone()]).unwrap();
    assert_ne!(handle.bytes, program.bytes);
    assert_ne!(handle.bytes, seed);
}

#[test]
fn distinct_seed_tuples_give_distinct_handles() {
    let program = addr(7);
    let namespace = b"editions_controls".to_vec();
    let a = editions_core::address::derive(&program, &namespace, &vec![vec![1u8; 32]]).unwrap();
    let b = editions_core::address::derive(&program, &namespace, &vec![vec![2u8; 32]]).unwrap();
    assert_ne!(a.bytes, b.bytes);
}

#[test]
fn oversized_seed_material_fails_seed_too_long() {
    let program = addr(7);
    let long_namespace = vec![5u8; 33];
    assert_eq!(
        editions_core::address::derive(&program, &long_namespace, &vec![]),
        Err(editions_core::errors::EditionsError::SeedTooLong)
    );
    let namespace = b"editions_controls".to_vec();
    let long_seed = vec![vec![5u8; 33]];
    assert_eq!(
        editions_core::address::derive(&program, &namespace, &long_seed),
        Err(editions_core::errors::EditionsError::SeedTooLong)
    );
    let many_seeds = vec![vec![1u8; 4]; 15];
    assert_eq!(
        editions_core::address::derive(&program, &namespace, &many_seeds),
        Err(editions_core::errors::EditionsError::SeedTooLong)
    );
    assert!(!editions_core::address::verify(&program, &program, &long_namespace, &vec![]));
}
