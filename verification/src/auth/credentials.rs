//! Hashing and checking of passwords.
//!
//! A password is hashed with Argon2id under a secret key, the pepper, that is
//! the same for every credential and never leaves the server, and with a
//! random salt that is drawn for each credential and stored beside the digest.
//! The cost of the hash is fixed configuration.

use vstd::prelude::*;

verus! {

/// The memory that one hash uses, in blocks of one kibibyte.
pub const MEMORY_BLOCKS: u32 = 15360;

/// The number of passes over the memory.
pub const ITERATIONS: u32 = 2;

/// The number of lanes.
pub const PARALLELISM: u32 = 1;

/// The length of a digest in bytes.
pub const HASH_LENGTH: usize = 64;

/// The length in bytes of a salt that [`Hasher::process_password`] draws.
pub const SALT_LENGTH: usize = 22;

/// The shortest salt that can be hashed with.
pub const MIN_SALT_LENGTH: usize = 8;

/// The longest key, password or salt that can be hashed with.
pub const MAX_INPUT_LENGTH: usize = 0xFFFF_FFFF;

/// The digest of a password.
pub type PasswordHash = [u8; HASH_LENGTH];

/// The key that the server hashes with where no other is configured.
pub fn pepper_generator() -> (pepper: Vec<u8>)
    ensures
        pepper@ == seq![12u8, 61u8, 178u8, 12u8, 3u8, 87u8, 12u8, 225u8, 17u8, 143u8, 162u8, 8u8],
{
    let pepper = vec![12u8, 61u8, 178u8, 12u8, 3u8, 87u8, 12u8, 225u8, 17u8, 143u8, 162u8, 8u8];
    assert(pepper@ =~= seq![
        12u8,
        61u8,
        178u8,
        12u8,
        3u8,
        87u8,
        12u8,
        225u8,
        17u8,
        143u8,
        162u8,
        8u8,
    ]);
    pepper
}

/// The digest of `length` bytes that Argon2id, version 0x13, computes of a
/// password under a secret key and a salt, at the given cost.
pub uninterp spec fn argon2id(
    key: Seq<u8>,
    password: Seq<u8>,
    salt: Seq<u8>,
    memory_blocks: u32,
    iterations: u32,
    parallelism: u32,
    length: nat,
) -> Seq<u8>;

/// The costs that `argon2` accepts, for a digest of [`HASH_LENGTH`] bytes: at
/// least 8 blocks of memory for each lane and 0x0FFFFFFF at most, at least
/// one pass, and between one lane and 0xFFFFFF.
pub open spec fn cost_accepted(memory_blocks: u32, iterations: u32, parallelism: u32) -> bool {
    &&& 8 <= memory_blocks <= 0x0FFF_FFFF
    &&& 1 <= iterations
    &&& 1 <= parallelism <= 0xFF_FFFF
    &&& memory_blocks >= 8 * parallelism
}

/// The lengths of key, password and salt that `argon2` accepts.
pub open spec fn input_accepted(key: nat, password: nat, salt: nat) -> bool {
    &&& key <= MAX_INPUT_LENGTH
    &&& password <= MAX_INPUT_LENGTH
    &&& MIN_SALT_LENGTH <= salt <= MAX_INPUT_LENGTH
}

/// Hashes a password with the crate `argon2`: `Params::new` with the given
/// cost and a digest of [`HASH_LENGTH`] bytes, `Argon2::new_with_secret` with
/// the key, Argon2id and version 0x13, then `hash_password_into`. The three
/// calls succeed exactly where the cost and the lengths of the inputs are
/// within the bounds that `argon2` tests, and the digest is then a function of
/// the inputs alone, named [`argon2id`].
#[verifier::external_body]
fn argon2id_hash(
    key: &[u8],
    password: &[u8],
    salt: &[u8],
    memory_blocks: u32,
    iterations: u32,
    parallelism: u32,
) -> (digest: Option<PasswordHash>)
    ensures
        digest.is_some() == (cost_accepted(memory_blocks, iterations, parallelism)
            && input_accepted(key@.len(), password@.len(), salt@.len())),
        digest.is_some() ==> digest.unwrap()@ == argon2id(
            key@,
            password@,
            salt@,
            memory_blocks,
            iterations,
            parallelism,
            HASH_LENGTH as nat,
        ),
{
    let mut digest: PasswordHash = [0; HASH_LENGTH];
    let params = argon2::Params::new(memory_blocks, iterations, parallelism, Some(digest.len())).ok()?;
    let context = argon2::Argon2::new_with_secret(
        key,
        argon2::Algorithm::Argon2id,
        argon2::Version::V0x13,
        params,
    ).ok()?;
    context.hash_password_into(password, salt, &mut digest).ok()?;
    Some(digest)
}

/// Draws a salt with `SaltString::generate` of the crate `password_hash`, from
/// the random numbers of the operating system. The salt is the encoding of 16
/// random bytes in base 64 without padding, which has [`SALT_LENGTH`]
/// characters, one byte each. Nothing else is known of it.
#[verifier::external_body]
fn generate_salt() -> (salt: Vec<u8>)
    ensures
        salt@.len() == SALT_LENGTH,
{
    argon2::password_hash::SaltString::generate(
        &mut argon2::password_hash::rand_core::OsRng,
    ).as_bytes().to_vec()
}

/// Hashes and checks passwords under one secret key. The key is not shown
/// when a value is formatted: the type has no `Debug`.
#[derive(Clone, Copy)]
pub struct Hasher<'a> {
    key: &'a [u8],
}

/// Whether two digests are equal. The time that the comparison takes does not
/// depend on where the digests differ: every byte is looked at.
pub fn digests_equal(left: &PasswordHash, right: &PasswordHash) -> (same: bool)
    ensures
        same == (left@ == right@),
{
    let mut difference: u8 = 0;
    let mut i: usize = 0;
    while i < HASH_LENGTH
        invariant
            i <= HASH_LENGTH,
            difference == 0 <==> (forall|j: int| 0 <= j < i ==> left@[j] == right@[j]),
        decreases HASH_LENGTH - i,
    {
        let l: u8 = left[i];
        let r: u8 = right[i];
        let before: u8 = difference;
        difference = before | (l ^ r);
        proof {
            assert((before | (l ^ r)) == 0 <==> before == 0 && l == r) by (bit_vector);
            if difference != 0 && before == 0 {
                assert(left@[i as int] != right@[i as int]);
            }
        }
        i = i + 1;
    }
    proof {
        if difference == 0 {
            assert(left@ =~= right@);
        }
    }
    difference == 0
}

impl<'a> Hasher<'a> {
    #[verifier::type_invariant]
    spec fn key_fits(self) -> bool {
        self.key@.len() <= MAX_INPUT_LENGTH
    }

    /// The secret key of the hasher.
    pub closed spec fn key(self) -> Seq<u8> {
        self.key@
    }

    /// The digest that this hasher computes of a password under a salt.
    pub open spec fn digest(self, password: Seq<u8>, salt: Seq<u8>) -> Seq<u8> {
        argon2id(
            self.key(),
            password,
            salt,
            MEMORY_BLOCKS,
            ITERATIONS,
            PARALLELISM,
            HASH_LENGTH as nat,
        )
    }

    /// Whether this hasher accepts `hash` as the digest of a password under a
    /// salt: it does if `hash` is the digest that it computes of the two.
    pub open spec fn accepts(self, password: Seq<u8>, salt: Seq<u8>, hash: Seq<u8>) -> bool {
        self.digest(password, salt) == hash
    }

    /// A hasher under the secret key `key`.
    pub fn new(key: &'a [u8]) -> (hasher: Self)
        requires
            key@.len() <= MAX_INPUT_LENGTH,
        ensures
            hasher.key() == key@,
    {
        Hasher { key }
    }

    /// The digest of a password under a salt.
    pub fn hash_password(&self, password: &[u8], salt: &[u8]) -> (hash: PasswordHash)
        requires
            password@.len() <= MAX_INPUT_LENGTH,
            MIN_SALT_LENGTH <= salt@.len() <= MAX_INPUT_LENGTH,
        ensures
            hash@ == self.digest(password@, salt@),
    {
        proof {
            use_type_invariant(self);
        }
        match argon2id_hash(self.key, password, salt, MEMORY_BLOCKS, ITERATIONS, PARALLELISM) {
            Some(hash) => hash,
            None => {
                proof {
                    assert(false);
                }
                [0; HASH_LENGTH]
            },
        }
    }

    /// Hashes a password under a salt that is drawn for the occasion, and
    /// gives the digest and the salt.
    pub fn process_password(&self, password: &[u8]) -> (processed: (PasswordHash, Vec<u8>))
        requires
            password@.len() <= MAX_INPUT_LENGTH,
        ensures
            processed.1@.len() == SALT_LENGTH,
            processed.0@ == self.digest(password@, processed.1@),
            self.accepts(password@, processed.1@, processed.0@),
    {
        let salt = generate_salt();
        let result = self.hash_password(password, salt.as_slice());
        (result, salt)
    }

    /// Whether `hash` is the digest of the password under the salt.
    pub fn password_check(&self, password: &[u8], salt: &[u8], hash: &PasswordHash) -> (same: bool)
        requires
            password@.len() <= MAX_INPUT_LENGTH,
            MIN_SALT_LENGTH <= salt@.len() <= MAX_INPUT_LENGTH,
        ensures
            same == self.accepts(password@, salt@, hash@),
    {
        let calculated_hash = self.hash_password(password, salt);
        digests_equal(&calculated_hash, hash)
    }
}

/// The byte `byte` with its bit number `bit` flipped.
pub open spec fn flip_bit(byte: u8, bit: u8) -> u8 {
    byte ^ (1u8 << bit)
}

/// A hasher accepts the digest that it computes of a password under a salt.
pub proof fn own_digest_is_accepted(hasher: Hasher<'_>, password: Seq<u8>, salt: Seq<u8>)
    ensures
        hasher.accepts(password, salt, hasher.digest(password, salt)),
{
}

/// A hasher accepts one digest only of a password under a salt: a digest that
/// differs from the one it was given for them is refused.
pub proof fn other_digest_is_refused(
    hasher: Hasher<'_>,
    password: Seq<u8>,
    salt: Seq<u8>,
    hash: Seq<u8>,
    other: Seq<u8>,
)
    requires
        hasher.accepts(password, salt, hash),
        other != hash,
    ensures
        !hasher.accepts(password, salt, other),
{
}

/// A digest that a hasher accepts is refused once any one of its bits is
/// flipped.
pub proof fn flipped_digest_is_refused(
    hasher: Hasher<'_>,
    password: Seq<u8>,
    salt: Seq<u8>,
    hash: Seq<u8>,
    index: int,
    bit: u8,
)
    requires
        hasher.accepts(password, salt, hash),
        0 <= index < hash.len(),
        bit < 8,
    ensures
        !hasher.accepts(password, salt, hash.update(index, flip_bit(hash[index], bit))),
{
    let byte = hash[index];
    assert(byte ^ (1u8 << bit) != byte) by (bit_vector)
        requires
            bit < 8,
    ;
    assert(hash.update(index, flip_bit(byte, bit))[index] != hash[index]);
}

} // verus!
