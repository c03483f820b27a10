use sifredb::context::{EncryptionContext, IndexContext};

#[test]
fn test_encryption_context_display() {
    let ctx = EncryptionContext::new("users", "email").with_tenant("tenant_123").with_version(2);

    assert_eq!(ctx.canonical_string(), "tenant_123|users|email|v2");
}

#[test]
fn test_encryption_context_display_no_tenant() {
    let ctx = EncryptionContext::new("users", "email");
    assert_eq!(ctx.canonical_string(), "default|users|email|v1");
}

#[test]
fn test_index_context_display() {
    let ctx = IndexContext::new("users", "email").with_tenant("tenant_123");
    assert_eq!(ctx.canonical_string(), "tenant_123|users|email");
}

#[test]
fn test_index_context_from_encryption_context() {
    let enc_ctx =
        EncryptionContext::new("users", "email").with_tenant("tenant_123").with_version(2);

    let idx_ctx = IndexContext::from(&enc_ctx);
    assert_eq!(idx_ctx.tenant_id(), Some("tenant_123"));
    assert_eq!(idx_ctx.table_name(), "users");
    assert_eq!(idx_ctx.column_name(), "email");
}

#[test]
fn test_encryption_context_getters() {
    let ctx = EncryptionContext::new("users", "email");
    assert_eq!(ctx.tenant_id(), None);
    assert_eq!(ctx.table_name(), "users");
    assert_eq!(ctx.column_name(), "email");
    assert_eq!(ctx.version(), 1);

    let ctx = ctx.with_tenant("t1").with_version(7);
    assert_eq!(ctx.tenant_id(), Some("t1"));
    assert_eq!(ctx.version(), 7);
}

#[test]
fn test_canonical_string_large_version() {
    let ctx = EncryptionContext::new("t", "c").with_version(4294967295);
    assert_eq!(ctx.canonical_string(), "default|t|c|v4294967295");
}
