use onion_generator::crypto::ONION_VERSION;
use onion_generator::{
    base32_encode, base64_encode, calculate_checksum, expand_secret_key, generate_keypair,
    GeneratorError, KeyMaterial,
};

fn hex(bytes: &[u8]) -> String {
    let mut text = String::new();
    for byte in bytes {
        text.push_str(&format!("{:02x}", byte));
    }
    text
}

#[test]
fn test_keypair_generation() {
    let keys = generate_keypair().unwrap();
    assert_eq!(keys.seed.len(), 32);
    assert_eq!(keys.public_key.len(), 32);
}

#[test]
fn keypair_halves_belong_together() {
    let keys = generate_keypair().unwrap();
    let signing_key = ed25519_dalek::SigningKey::from_bytes(&keys.seed);
    assert_eq!(signing_key.verifying_key().to_bytes(), keys.public_key);
    assert_ne!(keys.seed, keys.public_key);
}

#[test]
fn keypairs_differ_between_calls() {
    let first = generate_keypair().unwrap();
    let second = generate_keypair().unwrap();
    assert_ne!(first.seed, second.seed);
    assert_ne!(first.public_key, second.public_key);
}

#[test]
fn key_material_of_the_zero_seed() {
    let keys = KeyMaterial::from_seed([0u8; 32]);
    assert_eq!(keys.seed, [0u8; 32]);
    assert_eq!(
        hex(&keys.public_key),
        "3b6a27bcceb6a42d62a3a8d02a6f0d73653215771de243a63ac048a18b59da29"
    );
}

#[test]
fn key_material_is_a_function_of_the_seed() {
    let seed = [5u8; 32];
    assert_eq!(KeyMaterial::from_seed(seed).public_key, KeyMaterial::from_seed(seed).public_key);
    assert_ne!(
        KeyMaterial::from_seed(seed).public_key,
        KeyMaterial::from_seed([6u8; 32]).public_key
    );
}

#[test]
fn test_expand_secret_key() {
    let secret = [0u8; 32];
    let expanded = expand_secret_key(&secret).unwrap();
    assert_eq!(expanded.len(), 64);

    // Check bit manipulations
    assert_eq!(expanded[0] & 7, 0); // Last 3 bits should be 0
    assert_eq!(expanded[63] & 128, 0); // MSB should be 0
    assert_eq!(expanded[63] & 64, 64); // Second MSB should be 1
}

#[test]
fn expand_secret_key_golden_vector() {
    let expanded = expand_secret_key(&[0u8; 32]).unwrap();
    assert_eq!(
        hex(&expanded),
        "a856c35cab5063b9e7ea568314ec81c40ba577aae630de902004009e88f18da5\
         7bbdfdaaa0fc189c66c8d853248b6b118844d53f7d0ba11de0f3bfaf4cdd9b7f"
    );
}

#[test]
fn expand_secret_key_touches_only_the_first_and_last_byte() {
    // The SHA3-512 digest of 32 zero bytes starts with 0xad and ends with 0x3f.
    let expanded = expand_secret_key(&[0u8; 32]).unwrap();
    assert_eq!(expanded[0], 0xa8);
    assert_eq!(expanded[31], 0xa5);
    assert_eq!(expanded[63], 0x7f);
}

#[test]
fn expand_secret_key_is_deterministic() {
    let seed = [7u8; 32];
    let first = expand_secret_key(&seed).unwrap();
    let second = expand_secret_key(&seed).unwrap();
    assert_eq!(first, second);
    assert_eq!(first.len(), 64);
    assert_ne!(first, expand_secret_key(&[8u8; 32]).unwrap());
}

#[test]
fn expand_secret_key_rejects_other_lengths() {
    assert_eq!(expand_secret_key(&[]), Err(GeneratorError::InvalidLength));
    assert_eq!(expand_secret_key(&[0u8; 31]), Err(GeneratorError::InvalidLength));
    assert_eq!(expand_secret_key(&[0u8; 33]), Err(GeneratorError::InvalidLength));
    assert_eq!(expand_secret_key(&[0u8; 64]), Err(GeneratorError::InvalidLength));
}

#[test]
fn test_checksum_calculation() {
    let public_key = [0u8; 32];
    let checksum = calculate_checksum(&public_key).unwrap();
    assert_eq!(checksum.len(), 2);
}

#[test]
fn checksum_golden_vectors() {
    assert_eq!(calculate_checksum(&[0u8; 32]).unwrap(), vec![0xcd, 0x0e]);
    assert_eq!(calculate_checksum(&[1u8; 32]).unwrap(), vec![0xbf, 0x90]);
}

#[test]
fn checksum_is_deterministic() {
    let key = [42u8; 32];
    assert_eq!(calculate_checksum(&key).unwrap(), calculate_checksum(&key).unwrap());
}

#[test]
fn checksum_rejects_other_lengths() {
    assert_eq!(calculate_checksum(&[]), Err(GeneratorError::InvalidLength));
    assert_eq!(calculate_checksum(&[0u8; 31]), Err(GeneratorError::InvalidLength));
    assert_eq!(calculate_checksum(&[0u8; 33]), Err(GeneratorError::InvalidLength));
}

#[test]
fn version_byte_is_three() {
    assert_eq!(ONION_VERSION, 3);
}

#[test]
fn test_base32_encoding() {
    let data = b"hello world";
    let encoded = base32_encode(data);
    assert!(!encoded.is_empty());
    assert!(!encoded.contains('='));
}

#[test]
fn base32_known_vectors() {
    assert_eq!(base32_encode(b""), "");
    assert_eq!(base32_encode(b"f"), "my");
    assert_eq!(base32_encode(b"fo"), "mzxq");
    assert_eq!(base32_encode(b"foo"), "mzxw6");
    assert_eq!(base32_encode(b"foob"), "mzxw6yq");
    assert_eq!(base32_encode(b"fooba"), "mzxw6ytb");
    assert_eq!(base32_encode(b"foobar"), "mzxw6ytboi");
    assert_eq!(base32_encode(b"hello world"), "nbswy3dpeb3w64tmmq");
    assert_eq!(base32_encode(&[0xff; 5]), "77777777");
}

#[test]
fn base32_round_trips_without_padding() {
    let mut data: Vec<u8> = Vec::new();
    for length in 0..40u8 {
        let encoded = base32_encode(&data);
        assert!(!encoded.contains('='));
        assert_eq!(encoded.len(), (8 * data.len() + 4) / 5);
        let decoded = base32::decode(base32::Alphabet::Rfc4648Lower { padding: false }, &encoded);
        assert_eq!(decoded, Some(data.clone()));
        data.push(length.wrapping_mul(37).wrapping_add(11));
    }
}

#[test]
fn base32_is_lower_case() {
    let encoded = base32_encode(&[0u8, 1, 2, 3, 4, 5, 6, 7, 8, 9]);
    assert_eq!(encoded, encoded.to_lowercase());
    assert_eq!(encoded, "aaaqeayeaudaocaj");
}

#[test]
fn base64_known_vectors() {
    assert_eq!(base64_encode(b""), "");
    assert_eq!(base64_encode(b"f"), "Zg==");
    assert_eq!(base64_encode(b"fo"), "Zm8=");
    assert_eq!(base64_encode(b"foo"), "Zm9v");
    assert_eq!(base64_encode(b"foob"), "Zm9vYg==");
    assert_eq!(base64_encode(b"fooba"), "Zm9vYmE=");
    assert_eq!(base64_encode(b"foobar"), "Zm9vYmFy");
    assert_eq!(base64_encode(&[0xfb, 0xff, 0xbf]), "+/+/");
}

#[test]
fn error_messages() {
    assert_eq!(GeneratorError::InvalidLength.message(), "key must be 32 bytes");
    assert_eq!(GeneratorError::SearchExhausted.message(), "no candidate matched any prefix");
    assert_eq!(GeneratorError::RandomSource.message(), "the system supplied no random bytes");
    assert_eq!(GeneratorError::Stopped.message(), "the search was stopped");
}
