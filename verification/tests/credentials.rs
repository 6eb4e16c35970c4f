use budgeters_server::auth::credentials::{
    digests_equal, pepper_generator, Hasher, PasswordHash, HASH_LENGTH, ITERATIONS, MEMORY_BLOCKS,
    MIN_SALT_LENGTH, PARALLELISM, SALT_LENGTH,
};

#[test]
fn pepper_is_the_configured_key() {
    assert_eq!(
        pepper_generator(),
        vec![12, 61, 178, 12, 3, 87, 12, 225, 17, 143, 162, 8]
    );
}

#[test]
fn cost_is_the_configured_cost() {
    assert_eq!(MEMORY_BLOCKS, 15360);
    assert_eq!(ITERATIONS, 2);
    assert_eq!(PARALLELISM, 1);
    assert_eq!(HASH_LENGTH, 64);
    assert_eq!(SALT_LENGTH, 22);
    assert_eq!(MIN_SALT_LENGTH, 8);
}

#[test]
fn check_accepts_own_digest() {
    let pepper = pepper_generator();
    let hasher = Hasher::new(&pepper);
    let salt = b"0123456789abcdef";
    let digest = hasher.hash_password(b"correct horse", salt);
    assert!(hasher.password_check(b"correct horse", salt, &digest));
}

#[test]
fn check_accepts_processed_password() {
    let pepper = pepper_generator();
    let hasher = Hasher::new(&pepper);
    let (digest, salt) = hasher.process_password(b"pw1");
    assert_eq!(salt.len(), SALT_LENGTH);
    assert_eq!(digest.len(), HASH_LENGTH);
    assert!(hasher.password_check(b"pw1", &salt, &digest));
    assert_eq!(hasher.hash_password(b"pw1", &salt), digest);
}

#[test]
fn check_refuses_flipped_digest_bit() {
    let pepper = pepper_generator();
    let hasher = Hasher::new(&pepper);
    let salt = b"0123456789abcdef";
    let digest = hasher.hash_password(b"correct horse", salt);
    for (index, bit) in [(0usize, 0u8), (0, 7), (31, 3), (63, 0), (63, 7)] {
        let mut flipped: PasswordHash = digest;
        flipped[index] ^= 1 << bit;
        assert!(!hasher.password_check(b"correct horse", salt, &flipped));
    }
}

#[test]
fn check_refuses_flipped_salt_bit() {
    let pepper = pepper_generator();
    let hasher = Hasher::new(&pepper);
    let salt = *b"0123456789abcdef";
    let digest = hasher.hash_password(b"correct horse", &salt);
    for (index, bit) in [(0usize, 0u8), (7, 5), (15, 7)] {
        let mut flipped = salt;
        flipped[index] ^= 1 << bit;
        assert!(!hasher.password_check(b"correct horse", &flipped, &digest));
    }
}

#[test]
fn check_refuses_other_password() {
    let pepper = pepper_generator();
    let hasher = Hasher::new(&pepper);
    let salt = b"0123456789abcdef";
    let digest = hasher.hash_password(b"pw1", salt);
    assert!(!hasher.password_check(b"pw2", salt, &digest));
    assert!(!hasher.password_check(b"", salt, &digest));
}

#[test]
fn digest_depends_on_the_key() {
    let first = Hasher::new(&[1, 2, 3]);
    let second = Hasher::new(&[1, 2, 4]);
    let salt = b"0123456789abcdef";
    let digest = first.hash_password(b"pw1", salt);
    assert_ne!(digest, second.hash_password(b"pw1", salt));
    assert!(!second.password_check(b"pw1", salt, &digest));
}

#[test]
fn digest_is_a_function_of_its_inputs() {
    let pepper = pepper_generator();
    let hasher = Hasher::new(&pepper);
    let salt = b"saltsalt";
    let first = hasher.hash_password(b"pw1", salt);
    let second = hasher.clone().hash_password(b"pw1", salt);
    assert_eq!(first, second);
    assert_ne!(first, [0u8; HASH_LENGTH]);
    assert_ne!(&first[..3], b"pw1");
}

#[test]
fn empty_key_and_shortest_salt_are_accepted() {
    let hasher = Hasher::new(&[]);
    let salt = [7u8; MIN_SALT_LENGTH];
    let digest = hasher.hash_password(b"", &salt);
    assert!(hasher.password_check(b"", &salt, &digest));
}

#[test]
fn salts_are_drawn_anew() {
    let pepper = pepper_generator();
    let hasher = Hasher::new(&pepper);
    let (first_digest, first_salt) = hasher.process_password(b"pw1");
    let (second_digest, second_salt) = hasher.process_password(b"pw1");
    assert_ne!(first_salt, second_salt);
    assert_ne!(first_digest, second_digest);
}

#[test]
fn salt_is_unpadded_base64() {
    let pepper = pepper_generator();
    let hasher = Hasher::new(&pepper);
    let (_, salt) = hasher.process_password(b"pw1");
    assert!(salt
        .iter()
        .all(|b| b.is_ascii_alphanumeric() || *b == b'+' || *b == b'/'));
}

#[test]
fn digests_equal_compares_every_byte() {
    let left: PasswordHash = [9; HASH_LENGTH];
    let mut right: PasswordHash = [9; HASH_LENGTH];
    assert!(digests_equal(&left, &right));
    right[HASH_LENGTH - 1] = 8;
    assert!(!digests_equal(&left, &right));
    right[HASH_LENGTH - 1] = 9;
    right[0] = 137;
    assert!(!digests_equal(&left, &right));
    right[0] = 9;
    right[20] ^= 0x80;
    assert!(!digests_equal(&left, &right));
}
