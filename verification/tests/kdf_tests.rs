use hkdf::Hkdf;
use sha2::Sha256;
use sifredb::context::EncryptionContext;
use sifredb::error::Error;
use sifredb::kdf::{derive_dek, generate_dek, DEK_SIZE};
use sifredb::secret::SecretBytes;

#[test]
fn test_derive_dek_deterministic() {
    let kek = SecretBytes::new(vec![1u8; 32]);
    let context =
        EncryptionContext::new("users", "email").with_tenant("tenant_123").with_version(1);

    let dek1 = derive_dek(&kek, &context).expect("DEK derivation failed");
    let dek2 = derive_dek(&kek, &context).expect("DEK derivation failed");

    // Same KEK and context should produce the same DEK
    assert_eq!(dek1.expose_secret(), dek2.expose_secret());
}

#[test]
fn test_derive_dek_different_contexts() {
    let kek = SecretBytes::new(vec![1u8; 32]);
    let context1 = EncryptionContext::new("users", "email");
    let context2 = EncryptionContext::new("users", "name");

    let dek1 = derive_dek(&kek, &context1).expect("DEK derivation failed");
    let dek2 = derive_dek(&kek, &context2).expect("DEK derivation failed");

    // Different contexts should produce different DEKs
    assert_ne!(dek1.expose_secret(), dek2.expose_secret());
}

#[test]
fn test_derive_dek_different_tenants() {
    let kek = SecretBytes::new(vec![1u8; 32]);
    let context1 = EncryptionContext::new("users", "email").with_tenant("tenant_1");
    let context2 = EncryptionContext::new("users", "email").with_tenant("tenant_2");

    let dek1 = derive_dek(&kek, &context1).expect("DEK derivation failed");
    let dek2 = derive_dek(&kek, &context2).expect("DEK derivation failed");

    // Different tenants should produce different DEKs
    assert_ne!(dek1.expose_secret(), dek2.expose_secret());
}

#[test]
fn test_derive_dek_different_versions() {
    let kek = SecretBytes::new(vec![1u8; 32]);
    let context1 = EncryptionContext::new("users", "email").with_version(1);
    let context2 = EncryptionContext::new("users", "email").with_version(2);

    let dek1 = derive_dek(&kek, &context1).expect("DEK derivation failed");
    let dek2 = derive_dek(&kek, &context2).expect("DEK derivation failed");

    // Different versions should produce different DEKs
    assert_ne!(dek1.expose_secret(), dek2.expose_secret());
}

#[test]
fn test_derive_dek_output_length() {
    let kek = SecretBytes::new(vec![42u8; 32]);
    let context = EncryptionContext::new("test_table", "test_column");

    let dek = derive_dek(&kek, &context).expect("DEK derivation failed");

    assert_eq!(dek.expose_secret().len(), DEK_SIZE);
}

#[test]
fn test_generate_dek() {
    let dek1 = generate_dek();
    let dek2 = generate_dek();

    // Generated DEKs should be different
    assert_ne!(dek1.expose_secret(), dek2.expose_secret());

    // Both should be the correct size
    assert_eq!(dek1.expose_secret().len(), DEK_SIZE);
    assert_eq!(dek2.expose_secret().len(), DEK_SIZE);
}

#[test]
fn test_derive_dek_with_different_keks() {
    let kek1 = SecretBytes::new(vec![1u8; 32]);
    let kek2 = SecretBytes::new(vec![2u8; 32]);
    let context = EncryptionContext::new("users", "email");

    let dek1 = derive_dek(&kek1, &context).expect("DEK derivation failed");
    let dek2 = derive_dek(&kek2, &context).expect("DEK derivation failed");

    // Different KEKs should produce different DEKs
    assert_ne!(dek1.expose_secret(), dek2.expose_secret());
}

// RFC 5869 Test Vector (using HKDF-SHA256)
// https://tools.ietf.org/html/rfc5869#appendix-A.1
// Test Case 1: Basic test with SHA-256
#[test]
fn test_hkdf_rfc5869_test_case_1() {
    // Input Key Material: 22 octets of 0x0b
    const IKM_HEX: &str = "0b0b0b0b0b0b0b0b0b0b0b0b0b0b0b0b0b0b0b0b0b0b";
    // Salt: 13 octets from 0x00 to 0x0c
    const SALT_HEX: &str = "000102030405060708090a0b0c";
    // Context/Info: 10 octets from 0xf0 to 0xf9
    const INFO_HEX: &str = "f0f1f2f3f4f5f6f7f8f9";
    // Expected Output: 42 octets
    const EXPECTED_OKM_HEX: &str =
        "3cb25f25faacd57a90434f64d0362f2a2d2d0a90cf1a5a4c5db02d56ecc4c5bf34007208d5b887185865";

    let ikm = hex::decode(IKM_HEX).unwrap();
    let salt = hex::decode(SALT_HEX).unwrap();
    let info = hex::decode(INFO_HEX).unwrap();
    let expected_okm = hex::decode(EXPECTED_OKM_HEX).unwrap();

    let hkdf = Hkdf::<Sha256>::new(Some(&salt), &ikm);
    let mut okm = vec![0u8; 42];
    hkdf.expand(&info, &mut okm).expect("HKDF expand failed");

    assert_eq!(okm, expected_okm);
}

#[test]
fn test_derive_dek_concrete_scenario() {
    // KEK of 32 bytes of 0x01, context users/email, tenant_123, version 1.
    let kek = SecretBytes::new(vec![0x01; 32]);
    let context =
        EncryptionContext::new("users", "email").with_tenant("tenant_123").with_version(1);

    let dek_v1 = derive_dek(&kek, &context).expect("DEK derivation failed");
    assert_eq!(dek_v1.expose_secret().len(), 32);

    // Re-deriving with version 2 must yield a different 32-byte value.
    let context_v2 =
        EncryptionContext::new("users", "email").with_tenant("tenant_123").with_version(2);
    let dek_v2 = derive_dek(&kek, &context_v2).expect("DEK derivation failed");
    assert_eq!(dek_v2.expose_secret().len(), 32);
    assert_ne!(dek_v1.expose_secret(), dek_v2.expose_secret());

    // Re-deriving with identical inputs must exactly reproduce the first value.
    let context_again =
        EncryptionContext::new("users", "email").with_tenant("tenant_123").with_version(1);
    let dek_again = derive_dek(&kek, &context_again).expect("DEK derivation failed");
    assert_eq!(dek_v1.expose_secret(), dek_again.expose_secret());
}

#[test]
fn test_derive_dek_matches_hkdf_expand_of_canonical_string() {
    // derive_dek is HKDF-SHA256-Expand with the KEK itself as the
    // pseudorandom key and the canonical context string as info.
    let kek_bytes = vec![7u8; 32];
    let kek = SecretBytes::new(kek_bytes.clone());
    let context = EncryptionContext::new("users", "email").with_tenant("t1").with_version(3);

    let dek = derive_dek(&kek, &context).expect("DEK derivation failed");

    let hkdf = Hkdf::<Sha256>::from_prk(&kek_bytes).expect("PRK is long enough");
    let mut okm = vec![0u8; 32];
    hkdf.expand("t1|users|email|v3".as_bytes(), &mut okm).expect("HKDF expand failed");

    assert_eq!(dek.expose_secret(), &okm);
}

#[test]
fn test_derive_dek_short_kek_fails() {
    // A KEK shorter than the hash length cannot serve as an HKDF
    // pseudorandom key.
    let kek = SecretBytes::new(vec![1u8; 16]);
    let context = EncryptionContext::new("users", "email");

    let result = derive_dek(&kek, &context);
    assert!(matches!(result, Err(Error::KeyDerivation)));
}
