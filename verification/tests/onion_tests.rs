use base64::Engine;
use onion_generator::{
    calculate_checksum, derive_onion_address, encode_public_key, first_matching_prefix,
    generate_onion_address, generate_with_prefix, get_stats, Counters, GeneratorError,
    KeyMaterial,
};
use std::sync::atomic::AtomicBool;

const ZERO_SEED_PUBLIC_KEY: [u8; 32] = [
    0x3b, 0x6a, 0x27, 0xbc, 0xce, 0xb6, 0xa4, 0x2d, 0x62, 0xa3, 0xa8, 0xd0, 0x2a, 0x6f, 0x0d, 0x73,
    0x65, 0x32, 0x15, 0x77, 0x1d, 0xe2, 0x43, 0xa6, 0x3a, 0xc0, 0x48, 0xa1, 0x8b, 0x59, 0xda, 0x29,
];

fn decode_hostname(hostname: &str) -> Vec<u8> {
    let body = hostname.strip_suffix(".onion").unwrap();
    base32::decode(base32::Alphabet::Rfc4648Lower { padding: false }, body).unwrap()
}

#[test]
fn test_generate_onion_address() {
    let counters = Counters::new();
    let result = generate_onion_address(&counters).unwrap();

    assert!(result.hostname.ends_with(".onion"));
    assert!(result.hostname.len() > 10);
    assert!(!result.public_key.is_empty());
    assert!(!result.private_key.is_empty());
}

#[test]
fn test_encode_public_key() {
    let public_key = [0u8; 32];
    let address = encode_public_key(&public_key).unwrap();

    assert!(address.ends_with(".onion"));
    assert!(address.len() > 10);
}

#[test]
fn test_invalid_public_key_length() {
    let invalid_key = [0u8; 31]; // Wrong length
    let result = encode_public_key(&invalid_key);

    assert!(result.is_err());
}

#[test]
fn encode_public_key_golden_vectors() {
    assert_eq!(
        encode_public_key(&[0u8; 32]).unwrap(),
        "aaaaaaaaaaaaaaaaaaaaaaaaaaaaaaaaaaaaaaaaaaaaaaaaaaam2dqd.onion"
    );
    assert_eq!(
        encode_public_key(&ZERO_SEED_PUBLIC_KEY).unwrap(),
        "hnvcppgow2sc2yvdvdicu3ynonsteflxdxrehjr2ybekdc2z3iu63yid.onion"
    );
}

#[test]
fn encode_public_key_rejects_other_lengths() {
    assert_eq!(encode_public_key(&[]), Err(GeneratorError::InvalidLength));
    assert_eq!(encode_public_key(&[0u8; 31]), Err(GeneratorError::InvalidLength));
    assert_eq!(encode_public_key(&[0u8; 33]), Err(GeneratorError::InvalidLength));
}

#[test]
fn hostname_is_62_characters() {
    let hostname = encode_public_key(&[9u8; 32]).unwrap();
    assert_eq!(hostname.len(), 56 + ".onion".len());
}

#[test]
fn zero_seed_end_to_end() {
    let seed = [0u8; 32];
    let public_key = KeyMaterial::from_seed(seed).public_key;
    assert_eq!(public_key, ZERO_SEED_PUBLIC_KEY);

    let address = derive_onion_address(&seed, &public_key).unwrap();
    assert_eq!(
        address.hostname,
        "hnvcppgow2sc2yvdvdicu3ynonsteflxdxrehjr2ybekdc2z3iu63yid.onion"
    );
    assert_eq!(calculate_checksum(&public_key).unwrap(), vec![0xed, 0xe1]);
    assert_eq!(
        address.public_key,
        "PT0gZWQyNTUxOXYxLXB1YmxpYzogdHlwZTAgPT0AAAA7aie8zrakLWKjqNAqbw1zZTIVdx3iQ6Y6wEihi1naKQ=="
    );
    assert_eq!(
        address.private_key,
        "PT0gZWQyNTUxOXYxLXNlY3JldDogdHlwZTAgPT0AAACoVsNcq1BjuefqVoMU7IHEC6V3quYw3pAgBACeiPGNpXu9/aqg/BicZsjYUySLaxGIRNU/fQuhHeDzv69M3Zt/"
    );
}

#[test]
fn derive_rejects_wrong_lengths() {
    let good = [0u8; 32];
    assert_eq!(
        derive_onion_address(&[0u8; 31], &good).map(|address| address.hostname),
        Err(GeneratorError::InvalidLength)
    );
    assert_eq!(
        derive_onion_address(&good, &[0u8; 33]).map(|address| address.hostname),
        Err(GeneratorError::InvalidLength)
    );
    assert_eq!(
        derive_onion_address(&[], &[]).map(|address| address.hostname),
        Err(GeneratorError::InvalidLength)
    );
    assert!(derive_onion_address(&good, &good).is_ok());
}

#[test]
fn generated_hostname_is_self_consistent() {
    let counters = Counters::new();
    for _ in 0..20 {
        let address = generate_onion_address(&counters).unwrap();
        assert!(address.hostname.ends_with(".onion"));
        let record = decode_hostname(&address.hostname);
        assert_eq!(record.len(), 35);
        assert_eq!(record[34], 3);
        assert_eq!(calculate_checksum(&record[..32]).unwrap(), record[32..34].to_vec());
    }
}

#[test]
fn generated_keys_carry_their_tags() {
    let counters = Counters::new();
    let address = generate_onion_address(&counters).unwrap();
    let engine = base64::engine::general_purpose::STANDARD;

    let public_blob = engine.decode(&address.public_key).unwrap();
    assert_eq!(public_blob.len(), 29 + 3 + 32);
    assert_eq!(&public_blob[..29], b"== ed25519v1-public: type0 ==");
    assert_eq!(&public_blob[29..32], &[0u8, 0, 0]);
    assert_eq!(&public_blob[32..], &decode_hostname(&address.hostname)[..32]);

    let secret_blob = engine.decode(&address.private_key).unwrap();
    assert_eq!(secret_blob.len(), 29 + 3 + 64);
    assert_eq!(&secret_blob[..29], b"== ed25519v1-secret: type0 ==");
    assert_eq!(&secret_blob[29..32], &[0u8, 0, 0]);
    assert_eq!(secret_blob[32] & 7, 0);
    assert_eq!(secret_blob[95] & 128, 0);
    assert_eq!(secret_blob[95] & 64, 64);
}

#[test]
fn generate_onion_address_counts_once() {
    let counters = Counters::new();
    assert_eq!(get_stats(&counters), (0, 0));
    generate_onion_address(&counters).unwrap();
    assert_eq!(get_stats(&counters), (1, 0));
    generate_onion_address(&counters).unwrap();
    generate_onion_address(&counters).unwrap();
    assert_eq!(get_stats(&counters), (3, 0));
}

#[test]
fn first_matching_prefix_follows_the_order_of_the_list() {
    let prefixes = vec!["xyz".to_string(), "ab".to_string(), "a".to_string()];
    assert_eq!(first_matching_prefix("abcdef.onion", &prefixes), Some(1));
    assert_eq!(first_matching_prefix("acdef.onion", &prefixes), Some(2));
    assert_eq!(first_matching_prefix("xyz", &prefixes), Some(0));
    assert_eq!(first_matching_prefix("xy", &prefixes), None);
    assert_eq!(first_matching_prefix("bcd.onion", &prefixes), None);
}

#[test]
fn first_matching_prefix_edge_cases() {
    let none: Vec<String> = Vec::new();
    assert_eq!(first_matching_prefix("abc.onion", &none), None);
    let empty = vec!["".to_string()];
    assert_eq!(first_matching_prefix("abc.onion", &empty), Some(0));
    assert_eq!(first_matching_prefix("", &empty), Some(0));
    let upper = vec!["A".to_string()];
    assert_eq!(first_matching_prefix("abc.onion", &upper), None);
}

#[test]
fn generate_with_prefix_returns_only_matches() {
    let prefixes = vec!["a".to_string()];
    let counters = Counters::new();
    let running = AtomicBool::new(true);
    for _ in 0..5 {
        let address = generate_with_prefix(&prefixes, &counters, &running).unwrap();
        assert!(address.hostname.starts_with("a"));
        assert!(address.hostname.ends_with(".onion"));
    }
}

#[test]
fn generate_with_prefix_counts_candidates_and_matches() {
    let prefixes = vec!["b".to_string(), "c".to_string()];
    let counters = Counters::new();
    let running = AtomicBool::new(true);
    let address = generate_with_prefix(&prefixes, &counters, &running).unwrap();
    assert!(address.hostname.starts_with("b") || address.hostname.starts_with("c"));
    let (generated, found) = get_stats(&counters);
    assert_eq!(found, 1);
    assert!(generated >= 1);

    generate_with_prefix(&prefixes, &counters, &running).unwrap();
    let (generated_after, found_after) = get_stats(&counters);
    assert_eq!(found_after, 2);
    assert!(generated_after > generated);
}

#[test]
fn generate_with_empty_prefix_takes_the_first_candidate() {
    let prefixes = vec!["".to_string()];
    let counters = Counters::new();
    let running = AtomicBool::new(true);
    generate_with_prefix(&prefixes, &counters, &running).unwrap();
    assert_eq!(get_stats(&counters), (1, 1));

    let mixed = vec!["zzzzzzzz".to_string(), "".to_string()];
    generate_with_prefix(&mixed, &counters, &running).unwrap();
    assert_eq!(get_stats(&counters), (2, 2));
}

#[test]
fn generate_with_prefix_stops_when_told() {
    let counters = Counters::new();
    let stopped = AtomicBool::new(false);
    let any = vec!["".to_string()];
    assert_eq!(
        generate_with_prefix(&any, &counters, &stopped).map(|address| address.hostname),
        Err(GeneratorError::Stopped)
    );
    let none: Vec<String> = Vec::new();
    assert_eq!(
        generate_with_prefix(&none, &counters, &stopped).map(|address| address.hostname),
        Err(GeneratorError::Stopped)
    );
    assert_eq!(get_stats(&counters), (0, 0));
}

#[test]
fn generated_address_has_the_export_shape() {
    let counters = Counters::new();
    for _ in 0..10 {
        let address = generate_onion_address(&counters).unwrap();
        assert_eq!(address.hostname.len(), 62);
        assert!(address.hostname.ends_with("d.onion"));
        assert_eq!(address.public_key.len(), 88);
        assert!(address.public_key.starts_with("PT0gZWQyNTUxOXYxLXB1YmxpYzogdHlwZTAgPT0AAA"));
        assert!(address.public_key.ends_with("=="));
        assert_eq!(address.private_key.len(), 128);
        assert!(address.private_key.starts_with("PT0gZWQyNTUxOXYxLXNlY3JldDogdHlwZTAgPT0AAA"));
        assert!(!address.private_key.contains('='));
    }
}

#[test]
fn generated_hostname_belongs_to_the_exported_public_key() {
    let counters = Counters::new();
    let address = generate_onion_address(&counters).unwrap();
    let blob = base64::engine::general_purpose::STANDARD.decode(&address.public_key).unwrap();
    assert_eq!(encode_public_key(&blob[32..]).unwrap(), address.hostname);
}
