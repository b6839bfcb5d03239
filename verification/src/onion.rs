//! From a key pair to an onion address, and the search for a prefix.

use crate::counters::{increment_found, increment_generated, is_running, Counters};
use crate::crypto::{
    append_bytes, ascii_bytes, ascii_text_bytes, base32_encode, base64_encode,
    calculate_checksum, checksum_of, expand_secret_key, expanded_secret, generate_keypair,
    KeyMaterial, ONION_VERSION,
};
use crate::encoding::{
    base32_decode, base32_lower, base64_padded, lemma_base32_round_trip, lemma_base64_unpadded,
};
use crate::error::GeneratorError;
use std::sync::atomic::AtomicBool;
use vstd::prelude::*;
use vstd::string::StringExecFns;

verus! {

/// One generated address: the hostname and the two keys in the text form in
/// which they are exported.
#[derive(Debug, Clone)]
pub struct OnionResult {
    /// The hostname, ending in `.onion`.
    pub hostname: String,
    /// The tagged public key, base64.
    pub public_key: String,
    /// The tagged expanded secret key, base64.
    pub private_key: String,
}

/// The 35 bytes behind a hostname: public key, checksum, version.
pub open spec fn address_record(public_key: Seq<u8>) -> Seq<u8> {
    public_key + checksum_of(public_key) + seq![ONION_VERSION]
}

/// The hostname of a public key: its address record in lower-case base32,
/// then `.onion`.
pub open spec fn onion_hostname(public_key: Seq<u8>) -> Seq<char> {
    base32_lower(address_record(public_key)) + ".onion"@
}

/// The exported form of a public key before base64: tag, three zero bytes,
/// the 32 key bytes.
pub open spec fn public_key_blob(public_key: Seq<u8>) -> Seq<u8> {
    ascii_bytes("== ed25519v1-public: type0 =="@) + seq![0u8, 0u8, 0u8] + public_key
}

/// The exported form of a secret key before base64: tag, three zero bytes,
/// the 64 bytes of the expanded secret.
pub open spec fn secret_key_blob(expanded: Seq<u8>) -> Seq<u8> {
    ascii_bytes("== ed25519v1-secret: type0 =="@) + seq![0u8, 0u8, 0u8] + expanded
}

/// `result` is the address of the key pair with this seed and public key.
pub open spec fn is_address_of(result: OnionResult, seed: Seq<u8>, public_key: Seq<u8>) -> bool {
    &&& result.hostname@ == onion_hostname(public_key)
    &&& result.public_key@ == base64_padded(public_key_blob(public_key))
    &&& result.private_key@ == base64_padded(secret_key_blob(expanded_secret(seed)))
}

/// The sizes of an address: a hostname of 62 characters, a public key text
/// of 88, and a private key text of 128 that needs no padding.
pub open spec fn has_export_shape(result: OnionResult) -> bool {
    &&& result.hostname@.len() == 62
    &&& result.public_key@.len() == 88
    &&& result.private_key@.len() == 128
    &&& !result.private_key@.contains('=')
}

/// `result` is the address of some key pair.
pub open spec fn is_generated_address(result: OnionResult) -> bool {
    &&& exists|keys: KeyMaterial|
        keys.is_key_pair() && #[trigger] is_address_of(result, keys.seed@, keys.public_key@)
    &&& is_consistent_hostname(result.hostname@)
    &&& has_export_shape(result)
}

/// No prefix of the list is empty.
pub open spec fn all_prefixes_nonempty(prefixes: Seq<String>) -> bool {
    forall|i: int| 0 <= i < prefixes.len() ==> (#[trigger] prefixes[i])@.len() > 0
}

/// A hostname checks out against itself: it ends in `.onion`, the text before
/// that decodes to 35 bytes, and bytes 32 and 33 are the checksum of the first
/// 32, followed by the version byte.
pub open spec fn is_consistent_hostname(hostname: Seq<char>) -> bool {
    &&& ".onion"@.is_suffix_of(hostname)
    &&& base32_decode(hostname.subrange(0, hostname.len() - ".onion"@.len())) matches Some(record)
    &&& record.len() == 35
    &&& record.subrange(32, 34) == checksum_of(record.subrange(0, 32))
    &&& record[34] == ONION_VERSION
}

/// Some prefix of the list starts the hostname.
pub open spec fn matches_any_prefix(hostname: Seq<char>, prefixes: Seq<String>) -> bool {
    exists|i: int| 0 <= i < prefixes.len() && (#[trigger] prefixes[i])@.is_prefix_of(hostname)
}

/// Every hostname made from a 32-byte public key checks out against itself.
pub proof fn lemma_hostname_consistent(public_key: Seq<u8>)
    requires
        public_key.len() == 32,
    ensures
        is_consistent_hostname(onion_hostname(public_key)),
{
    let record = address_record(public_key);
    let hostname = onion_hostname(public_key);
    let body = base32_lower(record);
    lemma_base32_round_trip(record);
    assert(hostname.subrange(0, hostname.len() - ".onion"@.len()) =~= body);
    assert(hostname.subrange(hostname.len() - ".onion"@.len(), hostname.len() as int)
        =~= ".onion"@);
    assert(record.subrange(0, 32) =~= public_key);
    assert(record.subrange(32, 34) =~= checksum_of(public_key));
}

/// Encodes a 32-byte public key as its onion hostname.
///
/// Fails with `InvalidLength` on any other length.
pub fn encode_public_key(public_key: &[u8]) -> (result: Result<String, GeneratorError>)
    ensures
        public_key@.len() == 32 ==> result is Ok && result->Ok_0@ == onion_hostname(public_key@),
        public_key@.len() != 32 ==> result == Err::<String, GeneratorError>(
            GeneratorError::InvalidLength,
        ),
        result matches Ok(hostname) ==> is_consistent_hostname(hostname@),
{
    if public_key.len() != 32 {
        return Err(GeneratorError::InvalidLength);
    }
    let checksum = match calculate_checksum(public_key) {
        Ok(checksum) => checksum,
        Err(error) => {
            return Err(error);
        },
    };
    let mut address_data: Vec<u8> = Vec::new();
    append_bytes(&mut address_data, public_key);
    append_bytes(&mut address_data, checksum.as_slice());
    address_data.push(ONION_VERSION);
    assert(address_data@ == address_record(public_key@));
    let encoded = base32_encode(address_data.as_slice());
    proof {
        lemma_hostname_consistent(public_key@);
    }
    Ok(encoded.concat(".onion"))
}

/// Puts a key behind its export tag: the tag, three zero bytes, the key.
fn tagged_key(tag: &str, key: &[u8]) -> (blob: Vec<u8>)
    requires
        tag.is_ascii(),
    ensures
        blob@ == ascii_bytes(tag@) + seq![0u8, 0u8, 0u8] + key@,
{
    let mut blob: Vec<u8> = Vec::new();
    append_bytes(&mut blob, ascii_text_bytes(tag));
    blob.push(0);
    blob.push(0);
    blob.push(0);
    append_bytes(&mut blob, key);
    blob
}

/// Derives the address of a key pair from its raw bytes: the hostname of the
/// public key, and both keys in their exported text form.
///
/// Fails with `InvalidLength` unless both are 32 bytes long.
pub fn derive_onion_address(private_bytes: &[u8], public_bytes: &[u8]) -> (result: Result<
    OnionResult,
    GeneratorError,
>)
    ensures
        private_bytes@.len() == 32 && public_bytes@.len() == 32 ==> result is Ok && is_address_of(
            result->Ok_0,
            private_bytes@,
            public_bytes@,
        ),
        private_bytes@.len() != 32 || public_bytes@.len() != 32 ==> result is Err && result->Err_0
            == GeneratorError::InvalidLength,
        result matches Ok(address) ==> is_consistent_hostname(address.hostname@)
            && has_export_shape(address),
{
    let expanded_secret = match expand_secret_key(private_bytes) {
        Ok(expanded) => expanded,
        Err(error) => {
            return Err(error);
        },
    };
    let hostname = match encode_public_key(public_bytes) {
        Ok(hostname) => hostname,
        Err(error) => {
            return Err(error);
        },
    };
    proof {
        reveal_strlit("== ed25519v1-public: type0 ==");
        reveal_strlit("== ed25519v1-secret: type0 ==");
        reveal_strlit(".onion");
    }
    let public_key_data = tagged_key("== ed25519v1-public: type0 ==", public_bytes);
    let private_key_data = tagged_key("== ed25519v1-secret: type0 ==", expanded_secret.as_slice());
    let public_key = base64_encode(public_key_data.as_slice());
    let private_key = base64_encode(private_key_data.as_slice());
    proof {
        lemma_base64_unpadded(private_key_data@);
    }
    Ok(OnionResult { hostname, public_key, private_key })
}

/// `str::starts_with` with a string as the pattern. Claimed, as its
/// documentation says: true exactly when `prefix` is a prefix of `text`.
#[verifier::external_body]
fn starts_with(text: &str, prefix: &str) -> (yes: bool)
    ensures
        yes == prefix@.is_prefix_of(text@),
{
    text.starts_with(prefix)
}

/// Finds the first prefix of the list, in its order, that starts the
/// hostname.
pub fn first_matching_prefix(hostname: &str, prefixes: &[String]) -> (found: Option<usize>)
    ensures
        match found {
            Some(index) => {
                &&& index < prefixes@.len()
                &&& prefixes@[index as int]@.is_prefix_of(hostname@)
                &&& forall|j: int| 0 <= j < index ==> !(#[trigger] prefixes@[j])@.is_prefix_of(hostname@)
            },
            None => !matches_any_prefix(hostname@, prefixes@),
        },
{
    let mut index: usize = 0;
    while index < prefixes.len()
        invariant
            index <= prefixes@.len(),
            forall|j: int| 0 <= j < index ==> !(#[trigger] prefixes@[j])@.is_prefix_of(hostname@),
        decreases prefixes@.len() - index,
    {
        if starts_with(hostname, prefixes[index].as_str()) {
            return Some(index);
        }
        index += 1;
    }
    None
}

/// Generates one candidate: a fresh key pair and its address. Counts it in
/// `counters` as generated, whether or not anybody wants it.
///
/// Fails with `RandomSource`, and with nothing else, where the system
/// supplies no random bytes for the key; nothing is counted then.
pub fn generate_onion_address(counters: &Counters) -> (result: Result<OnionResult, GeneratorError>)
    ensures
        match result {
            Ok(address) => is_generated_address(address),
            Err(error) => error == GeneratorError::RandomSource,
        },
{
    let keys = match generate_keypair() {
        Ok(keys) => keys,
        Err(error) => {
            return Err(error);
        },
    };
    let result = derive_onion_address(keys.seed.as_slice(), keys.public_key.as_slice());
    increment_generated(counters);
    proof {
        if result is Ok {
            assert(is_address_of(result->Ok_0, keys.seed@, keys.public_key@));
        }
    }
    result
}

/// Generates candidates until the hostname of one starts with one of the
/// prefixes, tried in the order of the list, and returns that candidate.
/// Counts every candidate as generated and the returned one as found.
///
/// Before each candidate the search reads `running` and gives up with
/// `Stopped` once it reads false. A failure of the random source ends the
/// search with `RandomSource`. Whether and when a candidate matches is up to
/// chance; with an empty prefix in the list the first candidate does. A
/// search whose prefixes are all non-empty gives up with `SearchExhausted`
/// after `u64::MAX` candidates without a match.
pub fn generate_with_prefix(
    prefixes: &[String],
    counters: &Counters,
    running: &AtomicBool,
) -> (result: Result<OnionResult, GeneratorError>)
    ensures
        match result {
            Ok(address) => {
                &&& matches_any_prefix(address.hostname@, prefixes@)
                &&& is_generated_address(address)
            },
            Err(error) => {
                ||| error == GeneratorError::Stopped
                ||| error == GeneratorError::RandomSource
                ||| error == GeneratorError::SearchExhausted && all_prefixes_nonempty(prefixes@)
            },
        },
{
    let mut remaining: u64 = u64::MAX;
    while remaining > 0
        invariant
            remaining < u64::MAX ==> all_prefixes_nonempty(prefixes@),
        decreases remaining,
    {
        if !is_running(running) {
            return Err(GeneratorError::Stopped);
        }
        remaining -= 1;
        let candidate = match generate_onion_address(counters) {
            Ok(candidate) => candidate,
            Err(error) => {
                return Err(error);
            },
        };
        if first_matching_prefix(candidate.hostname.as_str(), prefixes).is_some() {
            increment_found(counters);
            return Ok(candidate);
        }
        proof {
            assert forall|i: int| 0 <= i < prefixes@.len() implies (#[trigger] prefixes@[i])@.len()
                > 0 by {
                if prefixes@[i]@.len() == 0 {
                    assert(prefixes@[i]@.is_prefix_of(candidate.hostname@));
                }
            }
        }
    }
    Err(GeneratorError::SearchExhausted)
}

} // verus!
