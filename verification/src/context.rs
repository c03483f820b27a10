//! Context types for encryption and indexing operations.
//!
//! A context identifies the cryptographic domain of a field (tenant,
//! table, column, and, for encryption, a key version).  Its canonical
//! string is used both as the key-derivation `info` parameter and as
//! the associated data of every AEAD operation, so that key material
//! and ciphertexts of distinct domains are cryptographically separated.

use vstd::prelude::*;
use vstd::string::StringExecFns;

verus! {

/// Mathematical model of an [`EncryptionContext`].
pub ghost struct EncryptionContextView {
    pub tenant_id: Option<Seq<char>>,
    pub table_name: Seq<char>,
    pub column_name: Seq<char>,
    pub version: u32,
}

/// Mathematical model of an [`IndexContext`].
pub ghost struct IndexContextView {
    pub tenant_id: Option<Seq<char>>,
    pub table_name: Seq<char>,
    pub column_name: Seq<char>,
}

/// The decimal digit character for `d`.
pub open spec fn spec_digit_char(d: nat) -> char {
    if d == 0 {
        '0'
    } else if d == 1 {
        '1'
    } else if d == 2 {
        '2'
    } else if d == 3 {
        '3'
    } else if d == 4 {
        '4'
    } else if d == 5 {
        '5'
    } else if d == 6 {
        '6'
    } else if d == 7 {
        '7'
    } else if d == 8 {
        '8'
    } else {
        '9'
    }
}

/// The decimal representation of `n`, most significant digit first,
/// without leading zeros (except for `n == 0` itself).
pub open spec fn spec_decimal(n: nat) -> Seq<char>
    decreases n,
{
    if n < 10 {
        seq![spec_digit_char(n)]
    } else {
        spec_decimal(n / 10) + seq![spec_digit_char(n % 10)]
    }
}

/// The tenant component of a canonical string: the tenant id when one
/// is set, the literal `default` otherwise.
pub open spec fn spec_tenant_part(tenant_id: Option<Seq<char>>) -> Seq<char> {
    match tenant_id {
        Some(t) => t,
        None => "default"@,
    }
}

/// Canonical string of an encryption context:
/// `{tenant|default}|{table}|{column}|v{version}`.
pub open spec fn spec_encryption_canonical(v: EncryptionContextView) -> Seq<char> {
    spec_tenant_part(v.tenant_id) + "|"@ + v.table_name + "|"@ + v.column_name + "|v"@
        + spec_decimal(v.version as nat)
}

/// Canonical string of an index context: `{tenant|default}|{table}|{column}`.
pub open spec fn spec_index_canonical(v: IndexContextView) -> Seq<char> {
    spec_tenant_part(v.tenant_id) + "|"@ + v.table_name + "|"@ + v.column_name
}

/// The canonical string of an encryption context as UTF-8 bytes: the
/// key-derivation `info` parameter and the AEAD associated data.
pub open spec fn spec_encryption_canonical_bytes(v: EncryptionContextView) -> Seq<u8> {
    vstd::utf8::encode_utf8(spec_encryption_canonical(v))
}

/// The canonical string of an index context as UTF-8 bytes.
pub open spec fn spec_index_canonical_bytes(v: IndexContextView) -> Seq<u8> {
    vstd::utf8::encode_utf8(spec_index_canonical(v))
}

/// Context for encryption operations, used for key derivation and
/// domain separation.
///
/// Two contexts that differ in any field have different canonical
/// strings, provided no field itself contains the `|` delimiter and no
/// tenant id equals the literal `default`
/// (see [`lemma_encryption_canonical_injective`]).  That constraint is
/// documented, not enforced.
#[derive(Debug, PartialEq, Eq)]
pub struct EncryptionContext {
    tenant_id: Option<String>,
    table_name: String,
    column_name: String,
    version: u32,
}

impl View for EncryptionContext {
    type V = EncryptionContextView;

    closed spec fn view(&self) -> EncryptionContextView {
        EncryptionContextView {
            tenant_id: match self.tenant_id {
                Some(t) => Some(t@),
                None => None,
            },
            table_name: self.table_name@,
            column_name: self.column_name@,
            version: self.version,
        }
    }
}

impl EncryptionContext {
    /// Creates a new encryption context for a table and column, with no
    /// tenant and version 1.
    pub fn new(table_name: &str, column_name: &str) -> (r: Self)
        ensures
            r@ == (EncryptionContextView {
                tenant_id: None,
                table_name: table_name@,
                column_name: column_name@,
                version: 1u32,
            }),
    {
        EncryptionContext {
            tenant_id: None,
            table_name: table_name.to_owned(),
            column_name: column_name.to_owned(),
            version: 1,
        }
    }

    /// Sets the tenant id for multi-tenant applications.
    pub fn with_tenant(self, tenant_id: &str) -> (r: Self)
        ensures
            r@ == (EncryptionContextView { tenant_id: Some(tenant_id@), ..self@ }),
    {
        EncryptionContext { tenant_id: Some(tenant_id.to_owned()), ..self }
    }

    /// Sets the version for key-rotation support.
    pub fn with_version(self, version: u32) -> (r: Self)
        ensures
            r@ == (EncryptionContextView { version: version, ..self@ }),
    {
        EncryptionContext { version, ..self }
    }

    /// Returns the tenant id, if one is set.
    pub fn tenant_id(&self) -> (r: Option<&str>)
        ensures
            match r {
                Some(t) => self@.tenant_id == Some(t@),
                None => self@.tenant_id is None,
            },
    {
        match &self.tenant_id {
            Some(t) => Some(t.as_str()),
            None => None,
        }
    }

    /// Returns the table name.
    pub fn table_name(&self) -> (r: &str)
        ensures
            r@ == self@.table_name,
    {
        self.table_name.as_str()
    }

    /// Returns the column name.
    pub fn column_name(&self) -> (r: &str)
        ensures
            r@ == self@.column_name,
    {
        self.column_name.as_str()
    }

    /// Returns the version.
    pub fn version(&self) -> (r: u32)
        ensures
            r == self@.version,
    {
        self.version
    }

    /// Returns the canonical string of this context,
    /// `{tenant|default}|{table}|{column}|v{version}`.
    pub fn canonical_string(&self) -> (r: String)
        ensures
            r@ == spec_encryption_canonical(self@),
    {
        let mut s: String = match &self.tenant_id {
            Some(t) => t.clone(),
            None => "default".to_owned(),
        };
        s.append("|");
        s.append(self.table_name.as_str());
        s.append("|");
        s.append(self.column_name.as_str());
        s.append("|v");
        let digits = u32_to_decimal_string(self.version);
        s.append(digits.as_str());
        s
    }
}

impl Clone for EncryptionContext {
    /// A cloned context identifies the same domain.
    fn clone(&self) -> (r: Self)
        ensures
            r@ == self@,
    {
        EncryptionContext {
            tenant_id: match &self.tenant_id {
                Some(t) => Some(t.clone()),
                None => None,
            },
            table_name: self.table_name.clone(),
            column_name: self.column_name.clone(),
            version: self.version,
        }
    }
}

/// Context for blind-index generation.
///
/// Like [`EncryptionContext`] but without a version: blind indexes must
/// stay stable across key rotation.
#[derive(Debug, PartialEq, Eq)]
pub struct IndexContext {
    tenant_id: Option<String>,
    table_name: String,
    column_name: String,
}

impl View for IndexContext {
    type V = IndexContextView;

    closed spec fn view(&self) -> IndexContextView {
        IndexContextView {
            tenant_id: match self.tenant_id {
                Some(t) => Some(t@),
                None => None,
            },
            table_name: self.table_name@,
            column_name: self.column_name@,
        }
    }
}

impl IndexContext {
    /// Creates a new index context for a table and column, with no tenant.
    pub fn new(table_name: &str, column_name: &str) -> (r: Self)
        ensures
            r@ == (IndexContextView {
                tenant_id: None,
                table_name: table_name@,
                column_name: column_name@,
            }),
    {
        IndexContext {
            tenant_id: None,
            table_name: table_name.to_owned(),
            column_name: column_name.to_owned(),
        }
    }

    /// Sets the tenant id.
    pub fn with_tenant(self, tenant_id: &str) -> (r: Self)
        ensures
            r@ == (IndexContextView { tenant_id: Some(tenant_id@), ..self@ }),
    {
        IndexContext { tenant_id: Some(tenant_id.to_owned()), ..self }
    }

    /// Returns the tenant id, if one is set.
    pub fn tenant_id(&self) -> (r: Option<&str>)
        ensures
            match r {
                Some(t) => self@.tenant_id == Some(t@),
                None => self@.tenant_id is None,
            },
    {
        match &self.tenant_id {
            Some(t) => Some(t.as_str()),
            None => None,
        }
    }

    /// Returns the table name.
    pub fn table_name(&self) -> (r: &str)
        ensures
            r@ == self@.table_name,
    {
        self.table_name.as_str()
    }

    /// Returns the column name.
    pub fn column_name(&self) -> (r: &str)
        ensures
            r@ == self@.column_name,
    {
        self.column_name.as_str()
    }

    /// Returns the canonical string of this context,
    /// `{tenant|default}|{table}|{column}`.
    pub fn canonical_string(&self) -> (r: String)
        ensures
            r@ == spec_index_canonical(self@),
    {
        let mut s: String = match &self.tenant_id {
            Some(t) => t.clone(),
            None => "default".to_owned(),
        };
        s.append("|");
        s.append(self.table_name.as_str());
        s.append("|");
        s.append(self.column_name.as_str());
        s
    }
}

impl IndexContext {
    /// Derives an index context from an encryption context by dropping
    /// the version.
    pub fn from(ctx: &EncryptionContext) -> (r: IndexContext)
        ensures
            r@ == (IndexContextView {
                tenant_id: ctx@.tenant_id,
                table_name: ctx@.table_name,
                column_name: ctx@.column_name,
            }),
    {
        IndexContext {
            tenant_id: match &ctx.tenant_id {
                Some(t) => Some(t.clone()),
                None => None,
            },
            table_name: ctx.table_name.clone(),
            column_name: ctx.column_name.clone(),
        }
    }
}

impl Clone for IndexContext {
    /// A cloned context identifies the same domain.
    fn clone(&self) -> (r: Self)
        ensures
            r@ == self@,
    {
        IndexContext {
            tenant_id: match &self.tenant_id {
                Some(t) => Some(t.clone()),
                None => None,
            },
            table_name: self.table_name.clone(),
            column_name: self.column_name.clone(),
        }
    }
}

/// A one-character string holding the decimal digit of `d`.
fn digit_str(d: u32) -> (r: &'static str)
    requires
        d < 10,
    ensures
        r@ == seq![spec_digit_char(d as nat)],
{
    let r: &'static str = if d == 0 {
        "0"
    } else if d == 1 {
        "1"
    } else if d == 2 {
        "2"
    } else if d == 3 {
        "3"
    } else if d == 4 {
        "4"
    } else if d == 5 {
        "5"
    } else if d == 6 {
        "6"
    } else if d == 7 {
        "7"
    } else if d == 8 {
        "8"
    } else {
        "9"
    };
    proof {
        reveal_strlit("0");
        reveal_strlit("1");
        reveal_strlit("2");
        reveal_strlit("3");
        reveal_strlit("4");
        reveal_strlit("5");
        reveal_strlit("6");
        reveal_strlit("7");
        reveal_strlit("8");
        reveal_strlit("9");
        assert(r@ =~= seq![spec_digit_char(d as nat)]);
    }
    r
}

/// The decimal representation is never empty.
pub proof fn lemma_spec_decimal_len(n: nat)
    ensures
        spec_decimal(n).len() >= 1,
    decreases n,
{
    if n >= 10 {
        lemma_spec_decimal_len(n / 10);
    }
}

/// Decimal representations are unique: equal digit strings come from
/// equal numbers.
pub proof fn lemma_spec_decimal_injective(n1: nat, n2: nat)
    requires
        spec_decimal(n1) == spec_decimal(n2),
    ensures
        n1 == n2,
    decreases n1 + n2,
{
    if n1 < 10 && n2 < 10 {
        assert(spec_decimal(n1)[0] == spec_digit_char(n1));
        assert(spec_decimal(n2)[0] == spec_digit_char(n2));
    } else if n1 < 10 {
        lemma_spec_decimal_len(n2 / 10);
        assert(spec_decimal(n2).len() >= 2);
    } else if n2 < 10 {
        lemma_spec_decimal_len(n1 / 10);
        assert(spec_decimal(n1).len() >= 2);
    } else {
        let s1 = spec_decimal(n1 / 10);
        let s2 = spec_decimal(n2 / 10);
        assert(spec_decimal(n1) == s1 + seq![spec_digit_char(n1 % 10)]);
        assert(spec_decimal(n2) == s2 + seq![spec_digit_char(n2 % 10)]);
        assert(s1.len() == s2.len());
        assert((s1 + seq![spec_digit_char(n1 % 10)])[s1.len() as int] == spec_digit_char(
            n1 % 10,
        ));
        assert((s2 + seq![spec_digit_char(n2 % 10)])[s2.len() as int] == spec_digit_char(
            n2 % 10,
        ));
        assert(spec_digit_char(n1 % 10) == spec_digit_char(n2 % 10));
        assert(n1 % 10 == n2 % 10);
        assert(s1 =~= spec_decimal(n1).subrange(0, s1.len() as int));
        assert(s2 =~= spec_decimal(n2).subrange(0, s2.len() as int));
        lemma_spec_decimal_injective(n1 / 10, n2 / 10);
        assert(n1 == (n1 / 10) * 10 + n1 % 10) by (nonlinear_arith);
        assert(n2 == (n2 / 10) * 10 + n2 % 10) by (nonlinear_arith);
    }
}

/// Joining two delimiter-free prefixes to arbitrary suffixes with a
/// `|` keeps them apart: equal joined strings have equal parts.
pub proof fn lemma_delimited_concat_injective(
    a1: Seq<char>,
    b1: Seq<char>,
    a2: Seq<char>,
    b2: Seq<char>,
)
    requires
        !a1.contains('|'),
        !a2.contains('|'),
        a1 + "|"@ + b1 == a2 + "|"@ + b2,
    ensures
        a1 == a2,
        b1 == b2,
{
    reveal_strlit("|");
    let s = a1 + "|"@ + b1;
    assert(s[a1.len() as int] == '|');
    assert(s[a2.len() as int] == '|');
    if a1.len() < a2.len() {
        assert(a2[a1.len() as int] == '|');
        assert(a2.contains('|'));
    } else if a2.len() < a1.len() {
        assert(a1[a2.len() as int] == '|');
        assert(a1.contains('|'));
    }
    assert(a1.len() == a2.len());
    assert(a1 =~= s.subrange(0, a1.len() as int));
    assert(a2 =~= (a2 + "|"@ + b2).subrange(0, a2.len() as int));
    assert(b1 =~= s.subrange(a1.len() as int + 1, s.len() as int));
    assert(b2 =~= (a2 + "|"@ + b2).subrange(a2.len() as int + 1, s.len() as int));
}

/// Whether a context's fields respect the documented canonical-string
/// constraints: no field contains the `|` delimiter and no tenant id is
/// the literal `default`.
pub open spec fn spec_encryption_fields_unambiguous(v: EncryptionContextView) -> bool {
    &&& (v.tenant_id matches Some(t) ==> !t.contains('|') && t != "default"@)
    &&& !v.table_name.contains('|')
    &&& !v.column_name.contains('|')
}

/// Whether an index context's fields respect the documented
/// canonical-string constraints.
pub open spec fn spec_index_fields_unambiguous(v: IndexContextView) -> bool {
    &&& (v.tenant_id matches Some(t) ==> !t.contains('|') && t != "default"@)
    &&& !v.table_name.contains('|')
    &&& !v.column_name.contains('|')
}

/// The tenant component keeps distinct tenants apart when no tenant id
/// is the literal `default`.
proof fn lemma_tenant_part_injective(t1: Option<Seq<char>>, t2: Option<Seq<char>>)
    requires
        t1 matches Some(t) ==> t != "default"@,
        t2 matches Some(t) ==> t != "default"@,
        spec_tenant_part(t1) == spec_tenant_part(t2),
    ensures
        t1 == t2,
{
}

/// The literal `default` contains no delimiter.
proof fn lemma_default_delimiter_free()
    ensures
        !"default"@.contains('|'),
{
    reveal_strlit("default");
    assert forall|i: int| 0 <= i < "default"@.len() implies "default"@[i] != '|' by {
        assert("default"@.len() == 7);
    }
}

/// Domain separation of encryption contexts: two contexts whose fields
/// respect the documented constraints (no field contains the `|`
/// delimiter, no tenant id is the literal `default`) have equal
/// canonical strings only when they are equal in every field,
/// including the version.
pub proof fn lemma_encryption_canonical_injective(
    c1: EncryptionContextView,
    c2: EncryptionContextView,
)
    requires
        spec_encryption_fields_unambiguous(c1),
        spec_encryption_fields_unambiguous(c2),
        spec_encryption_canonical(c1) == spec_encryption_canonical(c2),
    ensures
        c1 == c2,
{
    reveal_strlit("|");
    reveal_strlit("|v");
    reveal_strlit("v");
    lemma_default_delimiter_free();
    let t1 = spec_tenant_part(c1.tenant_id);
    let t2 = spec_tenant_part(c2.tenant_id);
    let d1 = spec_decimal(c1.version as nat);
    let d2 = spec_decimal(c2.version as nat);
    let rest1 = c1.table_name + "|"@ + (c1.column_name + "|"@ + ("v"@ + d1));
    let rest2 = c2.table_name + "|"@ + (c2.column_name + "|"@ + ("v"@ + d2));
    assert(spec_encryption_canonical(c1) =~= t1 + "|"@ + rest1);
    assert(spec_encryption_canonical(c2) =~= t2 + "|"@ + rest2);
    assert(!t1.contains('|'));
    assert(!t2.contains('|'));
    lemma_delimited_concat_injective(t1, rest1, t2, rest2);
    lemma_tenant_part_injective(c1.tenant_id, c2.tenant_id);
    lemma_delimited_concat_injective(
        c1.table_name,
        c1.column_name + "|"@ + ("v"@ + d1),
        c2.table_name,
        c2.column_name + "|"@ + ("v"@ + d2),
    );
    lemma_delimited_concat_injective(c1.column_name, "v"@ + d1, c2.column_name, "v"@ + d2);
    assert(d1 =~= ("v"@ + d1).subrange(1, ("v"@ + d1).len() as int));
    assert(d2 =~= ("v"@ + d2).subrange(1, ("v"@ + d2).len() as int));
    lemma_spec_decimal_injective(c1.version as nat, c2.version as nat);
}

/// Domain separation of index contexts: two index contexts whose
/// fields respect the documented constraints have equal canonical
/// strings only when they are equal in every field, the tenant
/// included.
pub proof fn lemma_index_canonical_injective(c1: IndexContextView, c2: IndexContextView)
    requires
        spec_index_fields_unambiguous(c1),
        spec_index_fields_unambiguous(c2),
        spec_index_canonical(c1) == spec_index_canonical(c2),
    ensures
        c1 == c2,
{
    reveal_strlit("|");
    lemma_default_delimiter_free();
    let t1 = spec_tenant_part(c1.tenant_id);
    let t2 = spec_tenant_part(c2.tenant_id);
    let rest1 = c1.table_name + "|"@ + c1.column_name;
    let rest2 = c2.table_name + "|"@ + c2.column_name;
    assert(spec_index_canonical(c1) =~= t1 + "|"@ + rest1);
    assert(spec_index_canonical(c2) =~= t2 + "|"@ + rest2);
    assert(!t1.contains('|'));
    assert(!t2.contains('|'));
    lemma_delimited_concat_injective(t1, rest1, t2, rest2);
    lemma_tenant_part_injective(c1.tenant_id, c2.tenant_id);
    lemma_delimited_concat_injective(c1.table_name, c1.column_name, c2.table_name, c2.column_name);
}

/// Renders `n` in decimal, most significant digit first.
pub fn u32_to_decimal_string(n: u32) -> (r: String)
    ensures
        r@ == spec_decimal(n as nat),
    decreases n,
{
    if n < 10 {
        digit_str(n).to_owned()
    } else {
        let mut s = u32_to_decimal_string(n / 10);
        s.append(digit_str(n % 10));
        s
    }
}

} // verus!
