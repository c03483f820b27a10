use hmac::{Hmac, Mac};
use sha2::Sha256;
use sifredb::blind_index::{
    generate_blind_index, generate_deterministic_index, BLIND_INDEX_SIZE,
};
use sifredb::context::IndexContext;
use sifredb::error::Error;
use sifredb::memory_provider::MemoryKeyProvider;
use sifredb::secret::SecretBytes;

fn provider_with_pepper(pepper: Vec<u8>) -> MemoryKeyProvider {
    MemoryKeyProvider::new("test_kek", SecretBytes::new(vec![0u8; 32]))
        .unwrap()
        .with_pepper(SecretBytes::new(pepper))
}

fn provider_without_pepper() -> MemoryKeyProvider {
    MemoryKeyProvider::new("test_kek", SecretBytes::new(vec![0u8; 32])).unwrap()
}

#[test]
fn test_blind_index_deterministic() {
    let provider = provider_with_pepper(vec![42u8; 32]);
    let context = IndexContext::new("users", "email");
    let value = b"alice@example.com";

    let index1 = generate_blind_index(&provider, value, &context).unwrap();
    let index2 = generate_blind_index(&provider, value, &context).unwrap();

    assert_eq!(index1, index2);
    assert_eq!(index1.len(), BLIND_INDEX_SIZE);
}

#[test]
fn test_blind_index_different_values() {
    let provider = provider_with_pepper(vec![42u8; 32]);
    let context = IndexContext::new("users", "email");

    let index1 = generate_blind_index(&provider, b"alice@example.com", &context).unwrap();
    let index2 = generate_blind_index(&provider, b"bob@example.com", &context).unwrap();

    assert_ne!(index1, index2);
}

#[test]
fn test_blind_index_different_contexts() {
    let provider = provider_with_pepper(vec![42u8; 32]);
    let value = b"alice@example.com";

    let context1 = IndexContext::new("users", "email");
    let context2 = IndexContext::new("users", "phone");

    let index1 = generate_blind_index(&provider, value, &context1).unwrap();
    let index2 = generate_blind_index(&provider, value, &context2).unwrap();

    assert_ne!(index1, index2);
}

#[test]
fn test_blind_index_different_tenants() {
    let provider = provider_with_pepper(vec![42u8; 32]);
    let value = b"alice@example.com";

    let context1 = IndexContext::new("users", "email").with_tenant("tenant_1");
    let context2 = IndexContext::new("users", "email").with_tenant("tenant_2");

    let index1 = generate_blind_index(&provider, value, &context1).unwrap();
    let index2 = generate_blind_index(&provider, value, &context2).unwrap();

    assert_ne!(index1, index2);
}

#[test]
fn test_blind_index_no_pepper() {
    let provider = provider_without_pepper();
    let context = IndexContext::new("users", "email");
    let value = b"alice@example.com";

    let result = generate_blind_index(&provider, value, &context);
    assert!(matches!(result, Err(Error::IndexGenerationFailed(_))));
}

#[test]
fn test_blind_index_output_size() {
    let provider = provider_with_pepper(vec![42u8; 32]);
    let context = IndexContext::new("users", "email");

    let index = generate_blind_index(&provider, b"test", &context).unwrap();
    assert_eq!(index.len(), BLIND_INDEX_SIZE);
}

#[test]
fn test_deterministic_index_wrapper() {
    let provider = provider_with_pepper(vec![42u8; 32]);
    let context = IndexContext::new("users", "email");
    let value = b"alice@example.com";

    let index1 = generate_deterministic_index(&provider, value, &context).unwrap();
    let index2 = generate_deterministic_index(&provider, value, &context).unwrap();

    assert_eq!(index1, index2);
}

#[test]
fn test_blind_index_empty_value() {
    let provider = provider_with_pepper(vec![42u8; 32]);
    let context = IndexContext::new("users", "email");

    let index = generate_blind_index(&provider, b"", &context).unwrap();
    assert_eq!(index.len(), BLIND_INDEX_SIZE);
}

#[test]
fn test_blind_index_large_value() {
    let provider = provider_with_pepper(vec![42u8; 32]);
    let context = IndexContext::new("users", "data");
    let large_value = vec![7u8; 10000];

    let index = generate_blind_index(&provider, &large_value, &context).unwrap();
    assert_eq!(index.len(), BLIND_INDEX_SIZE);
}

#[test]
fn test_blind_index_different_peppers() {
    // The pepper keys the HMAC: different peppers must give different
    // indexes for the same value and context.
    let provider1 = provider_with_pepper(vec![1u8; 32]);
    let provider2 = provider_with_pepper(vec![2u8; 32]);
    let context = IndexContext::new("users", "email");
    let value = b"alice@example.com";

    let index1 = generate_blind_index(&provider1, value, &context).unwrap();
    let index2 = generate_blind_index(&provider2, value, &context).unwrap();

    assert_ne!(index1, index2);
}

#[test]
fn test_blind_index_matches_hmac() {
    // The index is HMAC-SHA256(pepper, value || canonical context),
    // truncated to 16 bytes.
    let pepper = vec![42u8; 32];
    let provider = provider_with_pepper(pepper.clone());
    let context = IndexContext::new("users", "email").with_tenant("t9");
    let value = b"alice@example.com";

    let index = generate_blind_index(&provider, value, &context).unwrap();

    let mut mac = <Hmac<Sha256> as Mac>::new_from_slice(&pepper).unwrap();
    mac.update(value);
    mac.update("t9|users|email".as_bytes());
    let expected = mac.finalize().into_bytes();

    assert_eq!(index, expected[..BLIND_INDEX_SIZE].to_vec());
}
