//! How the worker's settings become endpoints and credentials, and how it
//! brings up its ClickHouse table.

use crate::errors::IngestError;
use base64::Engine;
use vstd::prelude::*;
use vstd::utf8::encode_utf8;

verus! {

// ---------------------------------------------------------------------------
// Endpoints
// ---------------------------------------------------------------------------

/// `s` contains `://`.
pub open spec fn has_scheme(s: Seq<char>) -> bool {
    exists|i: int| 0 <= i && i + 3 <= s.len() && #[trigger] s[i] == ':' && s[i + 1] == '/' && s[i + 2] == '/'
}

/// The address with its scheme: unchanged when it has one, otherwise with
/// `https://` in front when `secure`, `http://` when not.
pub open spec fn with_scheme(address: Seq<char>, secure: bool) -> Seq<char> {
    if has_scheme(address) {
        address
    } else if secure {
        "https://"@ + address
    } else {
        "http://"@ + address
    }
}

/// Every endpoint ends up with a scheme: the address is kept whole at the
/// end, an address that has a scheme is left as it is, and one without gets
/// exactly `https://` (TLS) or `http://` in front.
pub proof fn lemma_with_scheme(address: Seq<char>, secure: bool)
    ensures
        has_scheme(with_scheme(address, secure)),
        address.is_suffix_of(with_scheme(address, secure)),
        has_scheme(address) ==> with_scheme(address, secure) == address,
        !has_scheme(address) && secure ==> with_scheme(address, secure).len() == address.len() + 8
            && with_scheme(address, secure).subrange(0, 5) == "https"@,
        !has_scheme(address) && !secure ==> with_scheme(address, secure).len() == address.len() + 7
            && with_scheme(address, secure).subrange(0, 4) == "http"@,
{
    reveal_strlit("https://");
    reveal_strlit("http://");
    reveal_strlit("https");
    reveal_strlit("http");
    let u = with_scheme(address, secure);
    if !has_scheme(address) {
        let n: int = if secure { 8 } else { 7 };
        let c: int = n - 3;
        assert(u[c] == ':' && u[c + 1] == '/' && u[c + 2] == '/');
        assert(address =~= u.subrange(u.len() - address.len(), u.len() as int));
        if secure {
            assert(u.subrange(0, 5) =~= "https"@);
        } else {
            assert(u.subrange(0, 4) =~= "http"@);
        }
    } else {
        assert(address =~= u.subrange(u.len() - address.len(), u.len() as int));
    }
}

/// Whether `s` contains `://`.
pub fn contains_scheme(s: &str) -> (b: bool)
    ensures
        b == has_scheme(s@),
{
    let n = s.unicode_len();
    if n < 3 {
        return false;
    }
    let mut i: usize = 0;
    while i < n - 2
        invariant
            n == s@.len(),
            n >= 3,
            i <= n - 2,
            forall|j: int|
                0 <= j < i ==> !(#[trigger] s@[j] == ':' && s@[j + 1] == '/' && s@[j + 2] == '/'),
        decreases n - i,
    {
        if s.get_char(i) == ':' && s.get_char(i + 1) == '/' && s.get_char(i + 2) == '/' {
            return true;
        }
        i = i + 1;
    }
    false
}

/// The address with its scheme (see `with_scheme`).
pub fn address_with_scheme(address: &str, secure: bool) -> (url: String)
    ensures
        url@ == with_scheme(address@, secure),
{
    if contains_scheme(address) {
        address.to_owned()
    } else {
        let mut url = String::new();
        if secure {
            url.append("https://");
        } else {
            url.append("http://");
        }
        url.append(address);
        assert(url@ =~= with_scheme(address@, secure));
        url
    }
}

/// The Temporal frontend URL: TLS selects `https` for an address without a scheme.
pub fn temporal_url(host: &str, tls_enabled: bool) -> (url: String)
    ensures
        url@ == with_scheme(host@, tls_enabled),
{
    address_with_scheme(host, tls_enabled)
}

/// The MinIO endpoint: `http` for an address without a scheme.
pub fn object_store_endpoint(endpoint: &str) -> (url: String)
    ensures
        url@ == with_scheme(endpoint@, false),
{
    address_with_scheme(endpoint, false)
}

/// The ClickHouse HTTP URL of `host` and `port`.
pub fn clickhouse_url(host: &str, port: &str) -> (url: String)
    ensures
        url@ == "http://"@ + host@ + ":"@ + port@,
{
    let mut url = String::new();
    url.append("http://");
    url.append(host);
    url.append(":");
    url.append(port);
    assert(url@ =~= "http://"@ + host@ + ":"@ + port@);
    url
}

/// The values that switch TLS on.
pub open spec fn tls_flag(value: Seq<char>) -> bool {
    value == "1"@ || value == "true"@ || value == "TRUE"@ || value == "yes"@ || value == "YES"@
}

fn same_text(a: &str, b: &str) -> (r: bool)
    ensures
        r == (a@ == b@),
{
    let x: String = a.to_owned();
    let y: String = b.to_owned();
    x == y
}

/// Whether the TLS setting, when given, switches TLS on.
pub fn tls_enabled(value: Option<&str>) -> (b: bool)
    ensures
        b == (value matches Some(v) && tls_flag(v@)),
{
    match value {
        None => false,
        Some(v) => same_text(v, "1") || same_text(v, "true") || same_text(v, "TRUE") || same_text(
            v,
            "yes",
        ) || same_text(v, "YES"),
    }
}

/// The client identity for TLS: the certificate and key paths, both or
/// neither.
pub fn tls_client_identity(cert_path: Option<String>, key_path: Option<String>) -> (r: Result<
    Option<(String, String)>,
    IngestError,
>)
    ensures
        (cert_path is Some) != (key_path is Some) ==> r == Err::<Option<(String, String)>, IngestError>(
            IngestError::TlsIdentityIncomplete,
        ),
        cert_path is None && key_path is None ==> r == Ok::<Option<(String, String)>, IngestError>(None),
        cert_path is Some && key_path is Some ==> r == Ok::<Option<(String, String)>, IngestError>(
            Some((cert_path->0, key_path->0)),
        ),
{
    match (cert_path, key_path) {
        (Some(cert), Some(key)) => Ok(Some((cert, key))),
        (None, None) => Ok(None),
        _ => Err(IngestError::TlsIdentityIncomplete),
    }
}

// ---------------------------------------------------------------------------
// Credentials
// ---------------------------------------------------------------------------

/// The character of a 6-bit value in the standard base64 alphabet:
/// `A`-`Z`, `a`-`z`, `0`-`9`, `+`, `/`.
pub open spec fn base64_digit(v: int) -> char {
    if v < 26 {
        (('A' as int) + v) as char
    } else if v < 52 {
        (('a' as int) + v - 26) as char
    } else if v < 62 {
        (('0' as int) + v - 52) as char
    } else if v == 62 {
        '+'
    } else {
        '/'
    }
}

/// Standard base64 of a byte string: each group of three bytes becomes four
/// characters, and a last group of one or two bytes is padded with `=`.
pub open spec fn base64_standard(b: Seq<u8>) -> Seq<char>
    decreases b.len(),
{
    if b.len() == 0 {
        Seq::empty()
    } else if b.len() == 1 {
        seq![base64_digit(b[0] as int / 4), base64_digit((b[0] as int % 4) * 16), '=', '=']
    } else if b.len() == 2 {
        seq![
            base64_digit(b[0] as int / 4),
            base64_digit((b[0] as int % 4) * 16 + b[1] as int / 16),
            base64_digit((b[1] as int % 16) * 4),
            '=',
        ]
    } else {
        seq![
            base64_digit(b[0] as int / 4),
            base64_digit((b[0] as int % 4) * 16 + b[1] as int / 16),
            base64_digit((b[1] as int % 16) * 4 + b[2] as int / 64),
            base64_digit(b[2] as int % 64),
        ] + base64_standard(b.subrange(3, b.len() as int))
    }
}

/// Standard base64 (with padding) of the UTF-8 bytes of `text`.
pub open spec fn base64_of_text(text: Seq<char>) -> Seq<char> {
    base64_standard(encode_utf8(text))
}

/// Length of the standard base64 (with padding) of `n` bytes.
pub open spec fn base64_encoded_len(n: nat) -> nat {
    ((n + 2) / 3) * 4
}

/// `base64::engine::general_purpose::STANDARD.encode` of the UTF-8 bytes of
/// `text`: the standard alphabet with `=` padding, as `base64_of_text` spells
/// it out. The crate panics when the length of the encoding does not fit in
/// `usize`; `requires` leaves those inputs out.
#[verifier::external_body]
fn base64_encode(text: &str) -> (r: String)
    requires
        base64_encoded_len(encode_utf8(text@).len()) <= usize::MAX,
    ensures
        r@ == base64_of_text(text@),
{
    base64::engine::general_purpose::STANDARD.encode(text)
}

/// The `Authorization` header value for Neo4j's HTTP API:
/// `Basic ` and the base64 of `user:password`.
pub fn neo4j_basic_auth(user: &str, password: &str) -> (auth: String)
    requires
        base64_encoded_len(encode_utf8(user@ + ":"@ + password@).len()) <= usize::MAX,
    ensures
        auth@ == "Basic "@ + base64_of_text(user@ + ":"@ + password@),
{
    let mut raw = String::new();
    raw.append(user);
    raw.append(":");
    raw.append(password);
    assert(raw@ =~= user@ + ":"@ + password@);
    let encoded = base64_encode(raw.as_str());
    basic_authorization(encoded.as_str())
}

/// `Basic ` followed by already encoded credentials.
pub fn basic_authorization(credentials: &str) -> (auth: String)
    ensures
        auth@ == "Basic "@ + credentials@,
{
    let mut auth = String::new();
    auth.append("Basic ");
    auth.append(credentials);
    assert(auth@ =~= "Basic "@ + credentials@);
    auth
}

// ---------------------------------------------------------------------------
// ClickHouse table
// ---------------------------------------------------------------------------

/// Creates the events table when it is missing.
pub const SYSTEM_EVENTS_DDL: &'static str = "
        CREATE TABLE IF NOT EXISTS system_events (
            agent_id String,
            company_id String,
            event_type String,
            source String,
            message String,
            value Float64,
            timestamp DateTime
        ) ENGINE = MergeTree()
        ORDER BY (company_id, agent_id, event_type, timestamp, source)
        SETTINGS non_replicated_deduplication_window = 1000
    ";

/// First migration of a table created before events carried an agent.
pub const ADD_AGENT_ID_COLUMN: &'static str = "ALTER TABLE system_events ADD COLUMN IF NOT EXISTS agent_id String";

/// Second migration of a table created before events carried a company.
pub const ADD_COMPANY_ID_COLUMN: &'static str = "ALTER TABLE system_events ADD COLUMN IF NOT EXISTS company_id String";

/// Third migration: a table created before inserts were deduplicated keeps
/// the tokens of its recent inserts, so that a retried insert is dropped.
pub const ENABLE_INSERT_DEDUPLICATION: &'static str = "ALTER TABLE system_events MODIFY SETTING non_replicated_deduplication_window = 1000";

/// The insert setting that names a deduplication token.
pub const INSERT_DEDUPLICATION_TOKEN_SETTING: &'static str = "insert_deduplication_token";

/// The insert setting that switches deduplication on (`1`) or off (`0`).
pub const INSERT_DEDUPLICATE_SETTING: &'static str = "insert_deduplicate";

/// Stream batches are not deduplicated: two equal batches are two sets of
/// events.
pub const STREAM_INSERT_DEDUPLICATE: &'static str = "0";

/// How many times the table creation is tried.
pub const CLICKHOUSE_INIT_ATTEMPTS: u32 = 5;

/// Seconds to wait after a failed attempt.
pub const CLICKHOUSE_RETRY_DELAY_SECS: u64 = 2;

/// The migrations, applied in this order once the table exists.
pub fn system_events_migrations() -> (m: Vec<&'static str>)
    ensures
        m@.len() == 3,
        m@[0]@ == ADD_AGENT_ID_COLUMN@,
        m@[1]@ == ADD_COMPANY_ID_COLUMN@,
        m@[2]@ == ENABLE_INSERT_DEDUPLICATION@,
{
    let mut m: Vec<&'static str> = Vec::new();
    m.push(ADD_AGENT_ID_COLUMN);
    m.push(ADD_COMPANY_ID_COLUMN);
    m.push(ENABLE_INSERT_DEDUPLICATION);
    m
}

/// What to do after an attempt to create the table.
pub enum InitAction {
    /// The table exists: apply the migrations.
    Migrate,
    /// Wait `delay_secs`, then make attempt number `attempt`.
    Retry { delay_secs: u64, attempt: u32 },
    /// Wait `delay_secs`, then give up.
    GiveUp { delay_secs: u64 },
}

/// The attempts made so far to create the table.
pub struct InitAttempts {
    failed: u32,
}

impl View for InitAttempts {
    type V = nat;

    closed spec fn view(&self) -> nat {
        self.failed as nat
    }
}

impl InitAttempts {
    /// No attempt has failed yet; the first attempt is number 1.
    pub fn new() -> (a: InitAttempts)
        ensures
            a@ == 0,
    {
        InitAttempts { failed: 0 }
    }

    /// Number of the attempt about to be made.
    pub fn attempt(&self) -> (n: u32)
        requires
            self@ < CLICKHOUSE_INIT_ATTEMPTS,
        ensures
            n == self@ + 1,
    {
        self.failed + 1
    }

    /// Records the outcome of an attempt and says what comes next: the
    /// migrations after a success; after a failure, another attempt while
    /// fewer than `CLICKHOUSE_INIT_ATTEMPTS` have failed, otherwise giving up.
    pub fn record(&mut self, created: bool) -> (action: InitAction)
        requires
            old(self)@ < CLICKHOUSE_INIT_ATTEMPTS,
        ensures
            created ==> action == InitAction::Migrate && final(self)@ == old(self)@,
            !created ==> final(self)@ == old(self)@ + 1,
            !created && final(self)@ < CLICKHOUSE_INIT_ATTEMPTS ==> action == (InitAction::Retry {
                delay_secs: CLICKHOUSE_RETRY_DELAY_SECS,
                attempt: (final(self)@ + 1) as u32,
            }),
            !created && final(self)@ == CLICKHOUSE_INIT_ATTEMPTS ==> action == (InitAction::GiveUp {
                delay_secs: CLICKHOUSE_RETRY_DELAY_SECS,
            }),
    {
        if created {
            InitAction::Migrate
        } else {
            self.failed = self.failed + 1;
            if self.failed < CLICKHOUSE_INIT_ATTEMPTS {
                InitAction::Retry { delay_secs: CLICKHOUSE_RETRY_DELAY_SECS, attempt: self.failed + 1 }
            } else {
                InitAction::GiveUp { delay_secs: CLICKHOUSE_RETRY_DELAY_SECS }
            }
        }
    }
}

} // verus!
