//! What the console writes into the shared server and token tables, decided
//! before any row is written: validation and normalisation of a new server,
//! assembly of its row once the secrets are encrypted, token labels, and the
//! shape of issued tokens.
//!
//! Access model: a single implicit user (`DEFAULT_USER_ID`). Every created
//! server is granted to that user, so every issued token reaches every server.

use vstd::prelude::*;
use crate::text::{is_blank, is_blank_str, lemma_trim_idempotent, trim, trim_str, concat_str};

verus! {

/// The single implicit user that owns every server grant and every token.
pub const DEFAULT_USER_ID: i64 = 1;

/// Number of random bytes behind an issued token.
pub const TOKEN_BYTES: usize = 24;

/// A server as submitted by the management UI.
pub struct ServerInput {
    pub alias: String,
    pub host: String,
    pub port: u16,
    pub username: String,
    pub auth_kind: String,
    /// Password (password) or OpenSSH private key PEM (key/cert).
    pub secret: String,
    pub key_passphrase: Option<String>,
    pub certificate: Option<String>,
    pub jump_host_alias: Option<String>,
    pub description: Option<String>,
    pub tags: Option<String>,
}

/// A server as listed back to the UI; secrets are only reported as present.
pub struct ServerView {
    pub alias: String,
    pub host: String,
    pub port: i64,
    pub username: String,
    pub auth_kind: String,
    pub has_passphrase: bool,
    pub has_certificate: bool,
    pub jump_host_alias: Option<String>,
    pub description: Option<String>,
    pub tags: Option<String>,
}

/// An issued token as listed back to the UI (never its plaintext).
pub struct TokenView {
    pub id: i64,
    pub label: String,
    pub created_at: String,
    pub last_used_at: Option<String>,
    pub revoked_at: Option<String>,
}

/// The SSH port used when the submission names none.
pub fn default_port() -> (p: u16)
    ensures
        p == 22,
{
    22
}

/// How a server authenticates.
#[derive(Clone, Copy, PartialEq, Eq, Structural, Debug)]
pub enum AuthKind {
    Password,
    Key,
    Cert,
}

/// The stored name of each authentication kind.
pub open spec fn auth_kind_name(k: AuthKind) -> Seq<char> {
    match k {
        AuthKind::Password => "password"@,
        AuthKind::Key => "key"@,
        AuthKind::Cert => "cert"@,
    }
}

/// The authentication kind a submitted name denotes, if any.
pub open spec fn auth_kind_of(s: Seq<char>) -> Option<AuthKind> {
    if s == "password"@ {
        Some(AuthKind::Password)
    } else if s == "key"@ {
        Some(AuthKind::Key)
    } else if s == "cert"@ {
        Some(AuthKind::Cert)
    } else {
        None
    }
}

impl AuthKind {
    /// The stored name: `password`, `key` or `cert`.
    pub fn as_str(&self) -> (r: &'static str)
        ensures
            r@ == auth_kind_name(*self),
    {
        match self {
            AuthKind::Password => "password",
            AuthKind::Key => "key",
            AuthKind::Cert => "cert",
        }
    }

    /// Parse a submitted kind; exact, case-sensitive names only.
    pub fn parse(s: &str) -> (r: Option<AuthKind>)
        ensures
            r == auth_kind_of(s@),
    {
        proof {
            reveal_strlit("password");
            reveal_strlit("key");
            reveal_strlit("cert");
        }
        if crate::text::str_eq(s, "password") {
            Some(AuthKind::Password)
        } else if crate::text::str_eq(s, "key") {
            Some(AuthKind::Key)
        } else if crate::text::str_eq(s, "cert") {
            Some(AuthKind::Cert)
        } else {
            None
        }
    }
}

/// Why a server or token could not be written.
#[derive(Debug)]
pub enum StoreError {
    /// The submitted auth kind is none of `password`, `key`, `cert`.
    InvalidAuthKind(String),
    /// Alias or host is blank.
    AliasAndHostRequired,
    /// Encrypting the secret failed, with the cipher's message.
    EncryptSecret(String),
    /// Encrypting the key passphrase failed, with the cipher's message.
    EncryptPassphrase(String),
    /// Encrypting the certificate failed, with the cipher's message.
    EncryptCertificate(String),
    /// `cert` authentication without a certificate.
    CertificateRequired,
    /// A token label that is blank.
    LabelRequired,
}

/// The text reported for each error.
pub open spec fn store_error_text(e: StoreError) -> Seq<char> {
    match e {
        StoreError::InvalidAuthKind(k) => "invalid auth_kind '"@ + k@ + "' (password|key|cert)"@,
        StoreError::AliasAndHostRequired => "alias and host are required"@,
        StoreError::EncryptSecret(m) => "encrypt secret: "@ + m@,
        StoreError::EncryptPassphrase(m) => "encrypt passphrase: "@ + m@,
        StoreError::EncryptCertificate(m) => "encrypt certificate: "@ + m@,
        StoreError::CertificateRequired => "auth_kind=cert requires a certificate"@,
        StoreError::LabelRequired => "label is required"@,
    }
}

impl StoreError {
    /// The message shown to the UI for this error.
    pub fn message(&self) -> (r: String)
        ensures
            r@ == store_error_text(*self),
    {
        match self {
            StoreError::InvalidAuthKind(k) => {
                let head = concat_str("invalid auth_kind '", k.as_str());
                concat_str(head.as_str(), "' (password|key|cert)")
            },
            StoreError::AliasAndHostRequired => String::from_str("alias and host are required"),
            StoreError::EncryptSecret(m) => concat_str("encrypt secret: ", m.as_str()),
            StoreError::EncryptPassphrase(m) => concat_str("encrypt passphrase: ", m.as_str()),
            StoreError::EncryptCertificate(m) => concat_str("encrypt certificate: ", m.as_str()),
            StoreError::CertificateRequired => String::from_str(
                "auth_kind=cert requires a certificate",
            ),
            StoreError::LabelRequired => String::from_str("label is required"),
        }
    }
}

/// The view of an optional text.
pub open spec fn opt_view(o: Option<String>) -> Option<Seq<char>> {
    match o {
        Some(s) => Some(s@),
        None => None,
    }
}

/// An optional text, kept only when it is not empty.
pub open spec fn non_empty(o: Option<String>) -> Option<Seq<char>> {
    match o {
        Some(s) => if s@.len() > 0 { Some(s@) } else { None },
        None => None,
    }
}

/// An optional text, kept only when it is not blank.
pub open spec fn non_blank(o: Option<String>) -> Option<Seq<char>> {
    match o {
        Some(s) => if is_blank(s@) { None } else { Some(s@) },
        None => None,
    }
}

/// A validated server, its secrets still in clear text, waiting to be
/// encrypted and written.
pub struct ServerDraft {
    pub alias: String,
    pub host: String,
    pub port: i64,
    pub username: String,
    pub auth_kind: AuthKind,
    pub secret: String,
    /// Present only when a non-empty passphrase was given.
    pub key_passphrase: Option<String>,
    /// Present only when a non-blank certificate was given.
    pub certificate: Option<String>,
    pub jump_host_alias: Option<String>,
    pub description: Option<String>,
    pub tags: Option<String>,
}

/// The draft that a valid submission with kind `kind` yields.
pub open spec fn draft_matches(d: ServerDraft, input: ServerInput, kind: AuthKind) -> bool {
    &&& d.alias@ == trim(input.alias@)
    &&& d.host@ == trim(input.host@)
    &&& d.port == input.port as i64
    &&& d.username@ == trim(input.username@)
    &&& d.auth_kind == kind
    &&& d.secret@ == input.secret@
    &&& opt_view(d.key_passphrase) == non_empty(input.key_passphrase)
    &&& opt_view(d.certificate) == non_blank(input.certificate)
    &&& opt_view(d.jump_host_alias) == non_empty(input.jump_host_alias)
    &&& opt_view(d.description) == non_empty(input.description)
    &&& opt_view(d.tags) == non_empty(input.tags)
}

fn keep_non_empty(o: &Option<String>) -> (r: Option<String>)
    ensures
        opt_view(r) == non_empty(*o),
{
    match o {
        Some(s) => if s.as_str().unicode_len() > 0 {
            Some(s.clone())
        } else {
            None
        },
        None => None,
    }
}

fn keep_non_blank(o: &Option<String>) -> (r: Option<String>)
    ensures
        opt_view(r) == non_blank(*o),
{
    match o {
        Some(s) => if is_blank_str(s.as_str()) {
            None
        } else {
            Some(s.clone())
        },
        None => None,
    }
}

/// Check a submitted server and normalise it: the kind must be `password`,
/// `key` or `cert`, alias and host must not be blank; alias, host and user
/// name are trimmed, empty optional texts and a blank certificate dropped.
pub fn validate_server_input(input: &ServerInput) -> (r: Result<ServerDraft, StoreError>)
    ensures
        auth_kind_of(input.auth_kind@) is None <==> r matches Err(StoreError::InvalidAuthKind(_)),
        r matches Err(StoreError::InvalidAuthKind(k)) ==> k@ == input.auth_kind@,
        r matches Err(StoreError::AliasAndHostRequired) <==> (auth_kind_of(input.auth_kind@) is Some
            && (is_blank(input.alias@) || is_blank(input.host@))),
        r is Ok <==> (auth_kind_of(input.auth_kind@) is Some && !is_blank(input.alias@)
            && !is_blank(input.host@)),
        r matches Ok(d) ==> draft_matches(d, *input, auth_kind_of(input.auth_kind@)->Some_0),
        r is Err ==> r matches Err(StoreError::InvalidAuthKind(_)) || r matches Err(
            StoreError::AliasAndHostRequired,
        ),
{
    let kind = match AuthKind::parse(input.auth_kind.as_str()) {
        Some(k) => k,
        None => {
            return Err(StoreError::InvalidAuthKind(input.auth_kind.clone()));
        },
    };
    let alias = trim_str(input.alias.as_str());
    let host = trim_str(input.host.as_str());
    if alias.as_str().unicode_len() == 0 || host.as_str().unicode_len() == 0 {
        return Err(StoreError::AliasAndHostRequired);
    }
    Ok(ServerDraft {
        alias,
        host,
        port: input.port as i64,
        username: trim_str(input.username.as_str()),
        auth_kind: kind,
        secret: input.secret.clone(),
        key_passphrase: keep_non_empty(&input.key_passphrase),
        certificate: keep_non_blank(&input.certificate),
        jump_host_alias: keep_non_empty(&input.jump_host_alias),
        description: keep_non_empty(&input.description),
        tags: keep_non_empty(&input.tags),
    })
}

/// A server row ready to insert: normalised fields and encrypted secrets.
pub struct ServerRow {
    pub alias: String,
    pub host: String,
    pub port: i64,
    pub username: String,
    pub auth_kind: AuthKind,
    pub secret_enc: Vec<u8>,
    pub key_passphrase_enc: Option<Vec<u8>>,
    pub certificate_enc: Option<Vec<u8>>,
    pub jump_host_alias: Option<String>,
    pub description: Option<String>,
    pub tags: Option<String>,
}

/// The outcome of encrypting one optional secret: `Ok` of the ciphertext,
/// `Err` of the cipher's message.
pub open spec fn enc_ok(o: Option<Result<Vec<u8>, String>>) -> Option<Vec<u8>> {
    match o {
        Some(Ok(c)) => Some(c),
        _ => None,
    }
}

/// The cipher's message of a failed optional encryption.
pub open spec fn enc_err(o: Option<Result<Vec<u8>, String>>) -> Option<String> {
    match o {
        Some(Err(e)) => Some(e),
        _ => None,
    }
}

/// Combine a draft with the results of encrypting its secret, passphrase and
/// certificate (in that order of precedence for errors). Only after all three
/// succeeded is a `cert` server without certificate refused.
pub fn build_server_row(
    draft: ServerDraft,
    secret_enc: Result<Vec<u8>, String>,
    passphrase_enc: Option<Result<Vec<u8>, String>>,
    certificate_enc: Option<Result<Vec<u8>, String>>,
) -> (r: Result<ServerRow, StoreError>)
    requires
        passphrase_enc is Some <==> draft.key_passphrase is Some,
        certificate_enc is Some <==> draft.certificate is Some,
    ensures
        secret_enc matches Err(e) ==> r == Err::<ServerRow, StoreError>(StoreError::EncryptSecret(e)),
        secret_enc is Ok && enc_err(passphrase_enc) is Some ==> r == Err::<ServerRow, StoreError>(
            StoreError::EncryptPassphrase(enc_err(passphrase_enc)->Some_0),
        ),
        secret_enc is Ok && enc_err(passphrase_enc) is None && enc_err(certificate_enc) is Some ==> r
            == Err::<ServerRow, StoreError>(
            StoreError::EncryptCertificate(enc_err(certificate_enc)->Some_0),
        ),
        secret_enc is Ok && enc_err(passphrase_enc) is None && enc_err(certificate_enc) is None ==> (r
            is Err <==> (draft.auth_kind == AuthKind::Cert && draft.certificate is None)),
        secret_enc is Ok && enc_err(passphrase_enc) is None && enc_err(certificate_enc) is None
            && r is Err ==> r == Err::<ServerRow, StoreError>(StoreError::CertificateRequired),
        r matches Ok(row) ==> {
            &&& row.alias == draft.alias
            &&& row.host == draft.host
            &&& row.port == draft.port
            &&& row.username == draft.username
            &&& row.auth_kind == draft.auth_kind
            &&& secret_enc == Ok::<Vec<u8>, String>(row.secret_enc)
            &&& row.key_passphrase_enc == enc_ok(passphrase_enc)
            &&& row.certificate_enc == enc_ok(certificate_enc)
            &&& row.jump_host_alias == draft.jump_host_alias
            &&& row.description == draft.description
            &&& row.tags == draft.tags
        },
{
    let secret = match secret_enc {
        Ok(c) => c,
        Err(e) => {
            return Err(StoreError::EncryptSecret(e));
        },
    };
    let passphrase = match passphrase_enc {
        Some(Ok(c)) => Some(c),
        Some(Err(e)) => {
            return Err(StoreError::EncryptPassphrase(e));
        },
        None => None,
    };
    let certificate = match certificate_enc {
        Some(Ok(c)) => Some(c),
        Some(Err(e)) => {
            return Err(StoreError::EncryptCertificate(e));
        },
        None => None,
    };
    if draft.auth_kind == AuthKind::Cert && certificate.is_none() {
        return Err(StoreError::CertificateRequired);
    }
    Ok(ServerRow {
        alias: draft.alias,
        host: draft.host,
        port: draft.port,
        username: draft.username,
        auth_kind: draft.auth_kind,
        secret_enc: secret,
        key_passphrase_enc: passphrase,
        certificate_enc: certificate,
        jump_host_alias: draft.jump_host_alias,
        description: draft.description,
        tags: draft.tags,
    })
}

/// Check a token label: it is trimmed and must not be blank.
pub fn validate_token_label(label: &str) -> (r: Result<String, StoreError>)
    ensures
        is_blank(label@) <==> r is Err,
        r is Err ==> r == Err::<String, StoreError>(StoreError::LabelRequired),
        r matches Ok(l) ==> l@ == trim(label@),
{
    let l = trim_str(label);
    if l.as_str().unicode_len() == 0 {
        Err(StoreError::LabelRequired)
    } else {
        Ok(l)
    }
}

/// The lowercase hexadecimal digit for `n < 16`.
pub open spec fn hex_digit(n: int) -> char {
    if n < 10 {
        ((n + 48) as u32) as char
    } else {
        ((n + 87) as u32) as char
    }
}

/// Lowercase hexadecimal text of `bytes`: two digits per byte, high nibble first.
pub open spec fn hex_lower(bytes: Seq<u8>) -> Seq<char>
    decreases bytes.len(),
{
    if bytes.len() == 0 {
        Seq::empty()
    } else {
        seq![hex_digit(bytes[0] as int / 16), hex_digit(bytes[0] as int % 16)] + hex_lower(bytes.drop_first())
    }
}

/// The text of the token made from `raw`.
pub open spec fn token_text(raw: Seq<u8>) -> Seq<char> {
    "cdt_"@ + hex_lower(raw)
}

/// Whether `t` has the shape of an issued token: `cdt_` followed by the
/// hexadecimal text of `TOKEN_BYTES` bytes.
pub open spec fn is_token(t: Seq<char>) -> bool {
    exists|raw: Seq<u8>| raw.len() == TOKEN_BYTES && t == #[trigger] token_text(raw)
}

/// `hex::encode`: the crate writes each byte as two lowercase hexadecimal
/// digits, high nibble first, from the table `0123456789abcdef`; this is
/// what the contract states.
#[verifier::external_body]
fn hex_encode(data: &[u8]) -> (r: String)
    ensures
        r@ == hex_lower(data@),
{
    hex::encode(data)
}

/// `rand::rngs::OsRng.try_fill_bytes`: overwrites the buffer with bytes from
/// the operating system's random source, or reports (as its `Display` text)
/// that the source could not supply them. The contract states only that the
/// length is kept; the bytes, and whether the source fails, are left free.
#[verifier::external_body]
fn os_fill_random(buf: &mut Vec<u8>) -> (r: Result<(), String>)
    ensures
        final(buf)@.len() == old(buf)@.len(),
{
    match rand::RngCore::try_fill_bytes(&mut rand::rngs::OsRng, buf.as_mut_slice()) {
        Ok(()) => Ok(()),
        Err(e) => Err(e.to_string()),
    }
}

/// The token made from the random bytes `raw`: `cdt_` and their lowercase hex.
pub fn token_from_bytes(raw: &[u8]) -> (t: String)
    ensures
        t@ == token_text(raw@),
{
    let hex = hex_encode(raw);
    concat_str("cdt_", hex.as_str())
}

/// Draw a fresh token from the operating system's random source. Whatever
/// bytes the source returns, the result has the shape of a token; when the
/// source fails, its message is returned instead.
pub fn generate_token() -> (r: Result<String, String>)
    ensures
        r matches Ok(t) ==> is_token(t@),
{
    let mut raw: Vec<u8> = Vec::new();
    let mut i: usize = 0;
    while i < TOKEN_BYTES
        invariant
            i <= TOKEN_BYTES,
            raw@.len() == i,
        decreases TOKEN_BYTES - i,
    {
        raw.push(0u8);
        i = i + 1;
    }
    os_fill_random(&mut raw)?;
    let t = token_from_bytes(raw.as_slice());
    assert(raw@.len() == TOKEN_BYTES && t@ == token_text(raw@));
    Ok(t)
}

/// The length of the hexadecimal text is twice the number of bytes.
pub proof fn lemma_hex_lower_len(bytes: Seq<u8>)
    ensures
        hex_lower(bytes).len() == 2 * bytes.len(),
    decreases bytes.len(),
{
    if bytes.len() > 0 {
        lemma_hex_lower_len(bytes.drop_first());
    }
}

proof fn lemma_hex_digit_injective(a: int, b: int)
    requires
        0 <= a < 16,
        0 <= b < 16,
        hex_digit(a) == hex_digit(b),
    ensures
        a == b,
{
}

/// Hexadecimal encoding is injective: different bytes give different text.
pub proof fn lemma_hex_lower_injective(a: Seq<u8>, b: Seq<u8>)
    requires
        hex_lower(a) == hex_lower(b),
    ensures
        a == b,
    decreases a.len(),
{
    lemma_hex_lower_len(a);
    lemma_hex_lower_len(b);
    if a.len() > 0 {
        let ha = hex_lower(a);
        let hb = hex_lower(b);
        assert(ha[0] == hb[0] && ha[1] == hb[1]);
        lemma_hex_digit_injective(a[0] as int / 16, b[0] as int / 16);
        lemma_hex_digit_injective(a[0] as int % 16, b[0] as int % 16);
        assert(a[0] == b[0]);
        assert(hex_lower(a.drop_first()) =~= ha.subrange(2, ha.len() as int));
        assert(hex_lower(b.drop_first()) =~= hb.subrange(2, hb.len() as int));
        lemma_hex_lower_injective(a.drop_first(), b.drop_first());
        assert(a =~= seq![a[0]] + a.drop_first());
        assert(b =~= seq![b[0]] + b.drop_first());
    } else {
        assert(a =~= b);
    }
}

/// Distinct random bytes give distinct tokens, and every token made from
/// `TOKEN_BYTES` bytes is `4 + 2 * TOKEN_BYTES` characters long.
pub proof fn law_tokens_are_distinct(a: Seq<u8>, b: Seq<u8>)
    ensures
        token_text(a) == token_text(b) ==> a == b,
        token_text(a).len() == 4 + 2 * a.len(),
{
    reveal_strlit("cdt_");
    lemma_hex_lower_len(a);
    if token_text(a) == token_text(b) {
        let ta = token_text(a);
        assert(hex_lower(a) =~= ta.subrange(4, ta.len() as int));
        assert(hex_lower(b) =~= token_text(b).subrange(4, token_text(b).len() as int));
        lemma_hex_lower_injective(a, b);
    }
}

/// A `cert` server whose certificate was left blank is never written: its
/// draft carries no certificate, so once its secrets are encrypted the row
/// is refused with `CertificateRequired`.
pub proof fn law_cert_requires_certificate(d: ServerDraft, input: ServerInput)
    requires
        draft_matches(d, input, AuthKind::Cert),
        non_blank(input.certificate) is None,
    ensures
        d.auth_kind == AuthKind::Cert && d.certificate is None,
{
}

/// What a validated draft carries is already normalised: alias, host and user
/// name are trimmed (trimming them again changes nothing), and alias and host
/// are not empty.
pub proof fn law_draft_is_normalized(d: ServerDraft, input: ServerInput, kind: AuthKind)
    requires
        draft_matches(d, input, kind),
        !is_blank(input.alias@),
        !is_blank(input.host@),
    ensures
        trim(d.alias@) == d.alias@,
        trim(d.host@) == d.host@,
        trim(d.username@) == d.username@,
        d.alias@.len() > 0,
        d.host@.len() > 0,
{
    lemma_trim_idempotent(input.alias@);
    lemma_trim_idempotent(input.host@);
    lemma_trim_idempotent(input.username@);
}

/// The stored name of every authentication kind parses back to that kind,
/// and every accepted submitted name is stored unchanged.
pub proof fn law_auth_kind_round_trip(k: AuthKind, s: Seq<char>)
    ensures
        auth_kind_of(auth_kind_name(k)) == Some(k),
        auth_kind_of(s) matches Some(j) ==> auth_kind_name(j) == s,
{
    reveal_strlit("password");
    reveal_strlit("key");
    reveal_strlit("cert");
    assert("password"@ != "key"@ && "password"@ != "cert"@ && "key"@ != "cert"@) by {
        assert("password"@.len() != "key"@.len());
        assert("password"@.len() != "cert"@.len());
        assert("key"@[0] != "cert"@[0]);
    }
}

} // verus!
