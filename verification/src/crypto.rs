//! Key generation, the two hashes and the two text encodings.
//!
//! The hashes, the encodings and the key generator are the work of other
//! crates. Each call into one of them stands in a small function of its own
//! whose contract is taken on trust; everything else here is proved from those
//! contracts.

use crate::encoding::{
    ascii_lower, base32_decode, base32_lower, base32_upper, base64_padded,
    lemma_base32_alphabet, lemma_base32_round_trip, lemma_quintet_range, quintet,
};
use crate::error::GeneratorError;
use base64::Engine;
use ed25519_dalek::SigningKey;
use rand::rngs::OsRng;
use rand::RngCore;
use sha3::{Digest, Sha3_256, Sha3_512};
use vstd::prelude::*;

verus! {

/// The error of `rand`'s generators: carried through, never looked into.
#[verifier::external_type_specification]
#[verifier::external_body]
pub struct ExRandError(rand::Error);

/// The Ed25519 public key that belongs to a 32-byte seed.
pub uninterp spec fn ed25519_public_key(seed: Seq<u8>) -> Seq<u8>;

/// The SHA3-512 digest of a byte string.
pub uninterp spec fn sha3_512_digest(data: Seq<u8>) -> Seq<u8>;

/// The SHA3-256 digest of a byte string.
pub uninterp spec fn sha3_256_digest(data: Seq<u8>) -> Seq<u8>;

/// One key pair as plain bytes: the private seed and its public key.
#[derive(Debug, Clone, Copy)]
pub struct KeyMaterial {
    /// The 32-byte private seed.
    pub seed: [u8; 32],
    /// The 32-byte public key.
    pub public_key: [u8; 32],
}

impl KeyMaterial {
    /// The public key is the one that belongs to the seed.
    pub open spec fn is_key_pair(&self) -> bool {
        self.public_key@ == ed25519_public_key(self.seed@)
    }

    /// The key pair of a seed.
    pub fn from_seed(seed: [u8; 32]) -> (keys: Self)
        ensures
            keys.seed == seed,
            keys.is_key_pair(),
    {
        let public_key = public_key_of_seed(&seed);
        KeyMaterial { seed, public_key }
    }
}

/// Draws 32 bytes from the operating system's random source:
/// `try_fill_bytes` of `OsRng` of `rand`. Every call gives other bytes, and
/// the system may refuse, so nothing is claimed of the result.
#[verifier::external_body]
fn random_seed() -> (drawn: Result<[u8; 32], rand::Error>) {
    let mut seed = [0u8; 32];
    OsRng.try_fill_bytes(&mut seed)?;
    Ok(seed)
}

/// `SigningKey::from_bytes` of `ed25519_dalek`, then the bytes of the
/// verifying key that the signing key holds. Claimed: the result is the
/// Ed25519 public key of the seed, a function of the seed alone.
#[verifier::external_body]
fn public_key_of_seed(seed: &[u8; 32]) -> (public_key: [u8; 32])
    ensures
        public_key@ == ed25519_public_key(seed@),
{
    SigningKey::from_bytes(seed).verifying_key().to_bytes()
}

/// Generates a new Ed25519 key pair from the operating system's random
/// source.
///
/// Which pair comes is up to chance. Fails with `RandomSource`, and with
/// nothing else, where the system supplies no random bytes.
pub fn generate_keypair() -> (pair: Result<KeyMaterial, GeneratorError>)
    ensures
        match pair {
            Ok(keys) => keys.is_key_pair(),
            Err(error) => error == GeneratorError::RandomSource,
        },
{
    match random_seed() {
        Ok(seed) => Ok(KeyMaterial::from_seed(seed)),
        Err(_) => Err(GeneratorError::RandomSource),
    }
}

/// Hashes `data` with `Sha3_512` of `sha3`, fed in one `update`. Claimed: the
/// result is the 64-byte SHA3-512 digest of `data`.
#[verifier::external_body]
fn sha3_512(data: &[u8]) -> (digest: Vec<u8>)
    ensures
        digest@ == sha3_512_digest(data@),
        digest@.len() == 64,
{
    let mut hasher = Sha3_512::new();
    hasher.update(data);
    hasher.finalize().to_vec()
}

/// Hashes `data` with `Sha3_256` of `sha3`, fed in one `update`. Claimed: the
/// result is the 32-byte SHA3-256 digest of `data`.
#[verifier::external_body]
fn sha3_256(data: &[u8]) -> (digest: Vec<u8>)
    ensures
        digest@ == sha3_256_digest(data@),
        digest@.len() == 32,
{
    let mut hasher = Sha3_256::new();
    hasher.update(data);
    hasher.finalize().to_vec()
}

/// `base32::encode` with the RFC 4648 alphabet and no padding. Claimed: the
/// result is the upper-case base32 text of `data`. The crate sizes its buffer
/// from the input length, so inputs near the top of `usize` are left out.
#[verifier::external_body]
fn base32_upper_text(data: &[u8]) -> (text: String)
    requires
        data@.len() <= usize::MAX / 4,
    ensures
        text@ == base32_upper(data@),
{
    base32::encode(base32::Alphabet::Rfc4648 { padding: false }, data)
}

/// `str::to_ascii_lowercase`. Claimed, as its documentation says: `A` to `Z`
/// become `a` to `z`, every other character stays.
#[verifier::external_body]
fn ascii_lowercase(text: &str) -> (lower: String)
    ensures
        lower@ == Seq::new(text@.len(), |i: int| ascii_lower(text@[i])),
{
    text.to_ascii_lowercase()
}

/// The clamped form of a 64-byte hash: the low three bits of byte 0 cleared,
/// the top bit of byte 63 cleared and the bit below it set.
pub open spec fn clamp(hash: Seq<u8>) -> Seq<u8> {
    hash.update(0, hash[0] & 248).update(63, (hash[63] & 127) | 64)
}

/// The expanded secret key of a 32-byte seed: its SHA3-512 digest, clamped.
pub open spec fn expanded_secret(seed: Seq<u8>) -> Seq<u8> {
    clamp(sha3_512_digest(seed))
}

/// What `expand_secret_key` owes for a seed: the 64-byte expanded secret of a
/// 32-byte seed, `InvalidLength` for any other.
pub open spec fn expand_secret_result(
    seed: Seq<u8>,
    result: Result<Vec<u8>, GeneratorError>,
) -> bool {
    if seed.len() == 32 {
        result matches Ok(expanded) && expanded@ == expanded_secret(seed) && expanded@.len()
            == 64
    } else {
        result == Err::<Vec<u8>, GeneratorError>(GeneratorError::InvalidLength)
    }
}

/// Expands a 32-byte seed into the 64-byte secret that is exported.
///
/// Fails with `InvalidLength` on any other length.
pub fn expand_secret_key(secret_key: &[u8]) -> (result: Result<Vec<u8>, GeneratorError>)
    ensures
        expand_secret_result(secret_key@, result),
        result matches Ok(expanded) ==> {
            &&& expanded@.len() == 64
            &&& expanded@[0] & 7 == 0
            &&& expanded@[63] & 128 == 0
            &&& expanded@[63] & 64 == 64
        },
{
    if secret_key.len() != 32 {
        return Err(GeneratorError::InvalidLength);
    }
    let mut expanded = sha3_512(secret_key);
    let first: u8 = expanded[0] & 248;
    let last: u8 = (expanded[63] & 127) | 64;
    expanded.set(0, first);
    expanded.set(63, last);
    proof {
        lemma_clamp_bits(sha3_512_digest(secret_key@));
    }
    Ok(expanded)
}

/// Expanding is a function of the seed alone: two results for one 32-byte
/// seed are the same 64 bytes.
pub proof fn lemma_expand_secret_deterministic(
    seed: Seq<u8>,
    first: Result<Vec<u8>, GeneratorError>,
    second: Result<Vec<u8>, GeneratorError>,
)
    requires
        seed.len() == 32,
        expand_secret_result(seed, first),
        expand_secret_result(seed, second),
    ensures
        first is Ok,
        second is Ok,
        first->Ok_0@ == second->Ok_0@,
        first->Ok_0@.len() == 64,
{
}

/// The three fixed bits of every clamped hash.
pub proof fn lemma_clamp_bits(hash: Seq<u8>)
    requires
        hash.len() == 64,
    ensures
        clamp(hash).len() == 64,
        clamp(hash)[0] & 7 == 0,
        clamp(hash)[63] & 128 == 0,
        clamp(hash)[63] & 64 == 64,
{
    let a = hash[0];
    let b = hash[63];
    assert((a & 248) & 7 == 0) by (bit_vector);
    assert(((b & 127) | 64) & 128 == 0) by (bit_vector);
    assert(((b & 127) | 64) & 64 == 64) by (bit_vector);
}

/// The bytes of an ASCII text, one for each character.
pub open spec fn ascii_bytes(text: Seq<char>) -> Seq<u8> {
    Seq::new(text.len(), |i: int| text[i] as u8)
}

/// The version byte of a v3 onion address.
pub const ONION_VERSION: u8 = 3;

/// What is hashed for the checksum of a public key: the domain string
/// `.onion checksum`, the key, and the version byte.
pub open spec fn checksum_input(public_key: Seq<u8>) -> Seq<u8> {
    ascii_bytes(".onion checksum"@) + public_key + seq![ONION_VERSION]
}

/// The checksum of a public key: the first two bytes of the SHA3-256 digest
/// of `checksum_input`.
pub open spec fn checksum_of(public_key: Seq<u8>) -> Seq<u8> {
    let digest = sha3_256_digest(checksum_input(public_key));
    seq![digest[0], digest[1]]
}

/// What `calculate_checksum` owes for a key: the checksum of a 32-byte key,
/// `InvalidLength` for any other.
pub open spec fn checksum_result(
    public_key: Seq<u8>,
    result: Result<Vec<u8>, GeneratorError>,
) -> bool {
    if public_key.len() == 32 {
        result matches Ok(checksum) && checksum@ == checksum_of(public_key)
    } else {
        result == Err::<Vec<u8>, GeneratorError>(GeneratorError::InvalidLength)
    }
}

/// The bytes of an ASCII text.
pub(crate) fn ascii_text_bytes(text: &str) -> (bytes: &[u8])
    requires
        text.is_ascii(),
    ensures
        bytes@ == ascii_bytes(text@),
{
    broadcast use vstd::string::is_ascii_spec_bytes;

    text.as_bytes()
}

/// Appends `tail` to `bytes`.
pub(crate) fn append_bytes(bytes: &mut Vec<u8>, tail: &[u8])
    ensures
        final(bytes)@ == old(bytes)@ + tail@,
{
    bytes.extend_from_slice(tail);
}

/// Computes the two checksum bytes of a 32-byte public key.
///
/// Fails with `InvalidLength` on any other length.
pub fn calculate_checksum(public_key: &[u8]) -> (result: Result<Vec<u8>, GeneratorError>)
    ensures
        checksum_result(public_key@, result),
        result matches Ok(checksum) ==> checksum@.len() == 2,
{
    if public_key.len() != 32 {
        return Err(GeneratorError::InvalidLength);
    }
    proof {
        reveal_strlit(".onion checksum");
    }
    let mut input: Vec<u8> = Vec::new();
    append_bytes(&mut input, ascii_text_bytes(".onion checksum"));
    append_bytes(&mut input, public_key);
    input.push(ONION_VERSION);
    assert(input@ == checksum_input(public_key@));
    let hash = sha3_256(input.as_slice());
    let mut checksum: Vec<u8> = Vec::new();
    checksum.push(hash[0]);
    checksum.push(hash[1]);
    assert(checksum@ == checksum_of(public_key@));
    Ok(checksum)
}

/// The checksum is a function of the key alone and always two bytes long:
/// two results for one 32-byte key are the same two bytes.
pub proof fn lemma_checksum_deterministic(
    public_key: Seq<u8>,
    first: Result<Vec<u8>, GeneratorError>,
    second: Result<Vec<u8>, GeneratorError>,
)
    requires
        public_key.len() == 32,
        checksum_result(public_key, first),
        checksum_result(public_key, second),
    ensures
        first is Ok,
        second is Ok,
        first->Ok_0@ == second->Ok_0@,
        first->Ok_0@.len() == 2,
{
}

/// Encodes `data` as unpadded lower-case base32 (RFC 4648 alphabet).
///
/// The text can be decoded back to `data` and holds no `=`.
pub fn base32_encode(data: &[u8]) -> (text: String)
    requires
        data@.len() <= usize::MAX / 4,
    ensures
        text@ == base32_lower(data@),
        base32_decode(text@) == Some(data@),
        !text@.contains('='),
{
    let upper = base32_upper_text(data);
    let lower = ascii_lowercase(upper.as_str());
    proof {
        assert forall|i: int| 0 <= i < lower@.len() implies lower@[i] == base32_lower(data@)[i] by {
            lemma_quintet_range(data@, i);
            lemma_base32_alphabet(quintet(data@, i));
        }
        assert(lower@ =~= base32_lower(data@));
        lemma_base32_round_trip(data@);
    }
    lower
}

/// Encodes `data` as standard base64 with padding: `encode` of the `STANDARD`
/// engine of `base64`. Claimed: the result is the padded base64 text of
/// `data`. The crate refuses input lengths whose text would not fit `usize`,
/// so inputs near the top of `usize` are left out.
#[verifier::external_body]
pub fn base64_encode(data: &[u8]) -> (text: String)
    requires
        data@.len() <= usize::MAX / 4,
    ensures
        text@ == base64_padded(data@),
{
    base64::engine::general_purpose::STANDARD.encode(data)
}

} // verus!
