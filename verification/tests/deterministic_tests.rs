use sifredb::context::EncryptionContext;
use sifredb::deterministic::DeterministicVault;
use sifredb::error::Error;
use sifredb::secret::SecretBytes;

fn create_test_vault() -> DeterministicVault {
    let key = SecretBytes::new(vec![0x42; 64]);
    DeterministicVault::new(key).unwrap()
}

#[test]
fn test_deterministic_encryption() {
    let vault = create_test_vault();
    let context = EncryptionContext::new("users", "email");
    let plaintext = b"alice@example.com";

    let ciphertext1 = vault.encrypt(plaintext, &context).unwrap();
    let ciphertext2 = vault.encrypt(plaintext, &context).unwrap();

    // Same plaintext + context should produce same ciphertext
    assert_eq!(ciphertext1, ciphertext2, "Encryption must be deterministic");
}

#[test]
fn test_deterministic_decrypt() {
    let vault = create_test_vault();
    let context = EncryptionContext::new("users", "email");
    let plaintext = b"alice@example.com";

    let ciphertext = vault.encrypt(plaintext, &context).unwrap();
    let decrypted = vault.decrypt(&ciphertext, &context).unwrap();

    assert_eq!(plaintext, decrypted.as_slice());
}

#[test]
fn test_different_plaintexts_different_ciphertexts() {
    let vault = create_test_vault();
    let context = EncryptionContext::new("users", "email");

    let ct1 = vault.encrypt(b"alice@example.com", &context).unwrap();
    let ct2 = vault.encrypt(b"bob@example.com", &context).unwrap();

    assert_ne!(ct1, ct2, "Different plaintexts must produce different ciphertexts");
}

#[test]
fn test_different_contexts_different_ciphertexts() {
    let vault = create_test_vault();
    let plaintext = b"alice@example.com";

    let ctx1 = EncryptionContext::new("users", "email");
    let ctx2 = EncryptionContext::new("users", "phone");

    let ct1 = vault.encrypt(plaintext, &ctx1).unwrap();
    let ct2 = vault.encrypt(plaintext, &ctx2).unwrap();

    assert_ne!(ct1, ct2, "Different contexts must produce different ciphertexts");
}

#[test]
fn test_wrong_context_fails_authentication() {
    let vault = create_test_vault();
    let plaintext = b"alice@example.com";

    let ctx1 = EncryptionContext::new("users", "email");
    let ctx2 = EncryptionContext::new("users", "phone");

    let ciphertext = vault.encrypt(plaintext, &ctx1).unwrap();
    let result = vault.decrypt(&ciphertext, &ctx2);

    assert!(result.is_err(), "Decryption with wrong context must fail");
}

#[test]
fn test_corrupted_ciphertext_fails() {
    let vault = create_test_vault();
    let context = EncryptionContext::new("users", "email");
    let plaintext = b"alice@example.com";

    let mut ciphertext = vault.encrypt(plaintext, &context).unwrap();

    // Corrupt the ciphertext
    if let Some(byte) = ciphertext.first_mut() {
        *byte ^= 0xFF;
    }

    let result = vault.decrypt(&ciphertext, &context);
    assert!(result.is_err(), "Corrupted ciphertext must fail authentication");
}

#[test]
fn test_empty_plaintext() {
    let vault = create_test_vault();
    let context = EncryptionContext::new("users", "email");

    let ciphertext = vault.encrypt(b"", &context).unwrap();
    let decrypted = vault.decrypt(&ciphertext, &context).unwrap();

    assert_eq!(b"", decrypted.as_slice());
}

#[test]
fn test_large_plaintext() {
    let vault = create_test_vault();
    let context = EncryptionContext::new("users", "data");
    let plaintext = vec![0x42; 10_000];

    let ciphertext = vault.encrypt(&plaintext, &context).unwrap();
    let decrypted = vault.decrypt(&ciphertext, &context).unwrap();

    assert_eq!(plaintext, decrypted);
}

#[test]
fn test_invalid_key_length() {
    let short_key = SecretBytes::new(vec![0x42; 32]);
    let result = DeterministicVault::new(short_key);

    assert!(result.is_err(), "Should reject key with wrong length");
    if let Err(Error::InvalidKeyLength { expected, actual }) = result {
        assert_eq!(expected, 64);
        assert_eq!(actual, 32);
    }
}

#[test]
fn deterministic_test_multi_tenant_isolation() {
    let vault = create_test_vault();
    let plaintext = b"secret@example.com";

    let ctx_tenant1 = EncryptionContext::new("users", "email").with_tenant("tenant1");
    let ctx_tenant2 = EncryptionContext::new("users", "email").with_tenant("tenant2");

    let ct1 = vault.encrypt(plaintext, &ctx_tenant1).unwrap();
    let ct2 = vault.encrypt(plaintext, &ctx_tenant2).unwrap();

    assert_ne!(ct1, ct2, "Different tenants must produce different ciphertexts");

    // Verify decryption works with correct tenant
    let decrypted1 = vault.decrypt(&ct1, &ctx_tenant1).unwrap();
    assert_eq!(plaintext, decrypted1.as_slice());

    // Verify wrong tenant fails
    let result = vault.decrypt(&ct1, &ctx_tenant2);
    assert!(result.is_err(), "Wrong tenant must fail decryption");
}

#[test]
fn deterministic_test_vault_clone() {
    let vault1 = create_test_vault();
    let vault2 = vault1.clone();
    let context = EncryptionContext::new("users", "email");
    let plaintext = b"test@example.com";

    let ct1 = vault1.encrypt(plaintext, &context).unwrap();
    let ct2 = vault2.encrypt(plaintext, &context).unwrap();

    // Cloned vault should produce same deterministic output
    assert_eq!(ct1, ct2);

    // Both should decrypt successfully
    let pt1 = vault1.decrypt(&ct1, &context).unwrap();
    let pt2 = vault2.decrypt(&ct2, &context).unwrap();
    assert_eq!(pt1, pt2);
    assert_eq!(plaintext, pt1.as_slice());
}

#[test]
fn test_deterministic_ciphertext_length() {
    // The ciphertext is the 16-byte synthetic IV plus the payload.
    let vault = create_test_vault();
    let context = EncryptionContext::new("users", "email");
    let plaintext = b"abcdef";

    let ciphertext = vault.encrypt(plaintext, &context).unwrap();
    assert_eq!(ciphertext.len(), plaintext.len() + 16);
}

#[test]
fn test_deterministic_wrong_version_fails() {
    // Changing only the context version must change the output and
    // break decryption under the other version.
    let vault = create_test_vault();
    let plaintext = b"alice@example.com";
    let ctx_v1 = EncryptionContext::new("users", "email").with_version(1);
    let ctx_v2 = EncryptionContext::new("users", "email").with_version(2);

    let ct1 = vault.encrypt(plaintext, &ctx_v1).unwrap();
    let ct2 = vault.encrypt(plaintext, &ctx_v2).unwrap();
    assert_ne!(ct1, ct2);
    assert!(vault.decrypt(&ct1, &ctx_v2).is_err());
}
