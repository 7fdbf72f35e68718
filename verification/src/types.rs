//! Core value types: protocols, providers, record types and errors.

use vstd::prelude::*;
use vstd::string::StringExecFns;

verus! {

/// DNS resolution protocol.
#[derive(Debug, Clone, Copy, PartialEq, Eq, Hash, Structural)]
pub enum Protocol {
    /// DNS-over-HTTPS (HTTP/2)
    Doh,
    /// DNS-over-TLS
    Dot,
    /// DNS-over-HTTPS using HTTP/3 (QUIC)
    Doh3,
}

/// What `Protocol::label` returns for each variant.
pub open spec fn protocol_label(p: Protocol) -> Seq<char> {
    match p {
        Protocol::Doh => "DoH"@,
        Protocol::Dot => "DoT"@,
        Protocol::Doh3 => "DoH3"@,
    }
}

impl Protocol {
    /// Short human-readable name of the protocol.
    pub fn label(&self) -> (r: &'static str)
        ensures
            r@ == protocol_label(*self),
    {
        match self {
            Protocol::Doh => "DoH",
            Protocol::Dot => "DoT",
            Protocol::Doh3 => "DoH3",
        }
    }
}

/// DNS provider.
#[derive(Debug, Clone, Copy, PartialEq, Eq, Hash, Structural)]
pub enum Provider {
    Cloudflare,
    Google,
    Quad9,
    NextDns,
}

/// The fixed order in which `Provider::all` lists the known providers.
pub open spec fn provider_all() -> Seq<Provider> {
    seq![Provider::Cloudflare, Provider::Google, Provider::Quad9, Provider::NextDns]
}

/// What `Provider::label` returns for each variant.
pub open spec fn provider_label(p: Provider) -> Seq<char> {
    match p {
        Provider::Cloudflare => "Cloudflare"@,
        Provider::Google => "Google"@,
        Provider::Quad9 => "Quad9"@,
        Provider::NextDns => "NextDNS"@,
    }
}

impl Provider {
    /// Returns a list of all available providers.
    pub fn all() -> (r: Vec<Provider>)
        ensures
            r@ == provider_all(),
    {
        let mut v: Vec<Provider> = Vec::new();
        v.push(Provider::Cloudflare);
        v.push(Provider::Google);
        v.push(Provider::Quad9);
        v.push(Provider::NextDns);
        proof {
            assert(v@ =~= provider_all());
        }
        v
    }

    /// Human-readable name of the provider.
    pub fn label(&self) -> (r: &'static str)
        ensures
            r@ == provider_label(*self),
    {
        match self {
            Provider::Cloudflare => "Cloudflare",
            Provider::Google => "Google",
            Provider::Quad9 => "Quad9",
            Provider::NextDns => "NextDNS",
        }
    }
}

/// DNS record type.
#[derive(Debug, Clone, Copy, PartialEq, Eq, Hash, Structural)]
pub enum RecordType {
    A,
    AAAA,
    CNAME,
    MX,
    TXT,
    NS,
    HTTPS,
    SVCB,
}

/// The standard numeric DNS type code of each supported record type.
pub open spec fn type_code_of(t: RecordType) -> u16 {
    match t {
        RecordType::A => 1,
        RecordType::AAAA => 28,
        RecordType::CNAME => 5,
        RecordType::MX => 15,
        RecordType::TXT => 16,
        RecordType::NS => 2,
        RecordType::HTTPS => 65,
        RecordType::SVCB => 64,
    }
}

/// The partial inverse of `type_code_of`: the record type a code stands for,
/// if it is one of the supported codes.
pub open spec fn type_of_code(code: u16) -> Option<RecordType> {
    if code == 1 {
        Some(RecordType::A)
    } else if code == 28 {
        Some(RecordType::AAAA)
    } else if code == 5 {
        Some(RecordType::CNAME)
    } else if code == 15 {
        Some(RecordType::MX)
    } else if code == 16 {
        Some(RecordType::TXT)
    } else if code == 2 {
        Some(RecordType::NS)
    } else if code == 65 {
        Some(RecordType::HTTPS)
    } else if code == 64 {
        Some(RecordType::SVCB)
    } else {
        None
    }
}

/// What `RecordType::from_code` returns for each code.
pub open spec fn name_of_code(code: u16) -> Seq<char> {
    match type_of_code(code) {
        Some(t) => record_type_name(t),
        None => "UNKNOWN"@,
    }
}

/// The textual name of each supported record type.
pub open spec fn record_type_name(t: RecordType) -> Seq<char> {
    match t {
        RecordType::A => "A"@,
        RecordType::AAAA => "AAAA"@,
        RecordType::CNAME => "CNAME"@,
        RecordType::MX => "MX"@,
        RecordType::TXT => "TXT"@,
        RecordType::NS => "NS"@,
        RecordType::HTTPS => "HTTPS"@,
        RecordType::SVCB => "SVCB"@,
    }
}

impl RecordType {
    /// Convert record type to DNS type code.
    pub fn to_type_code(&self) -> (r: u16)
        ensures
            r == type_code_of(*self),
    {
        match self {
            RecordType::A => 1,
            RecordType::AAAA => 28,
            RecordType::CNAME => 5,
            RecordType::MX => 15,
            RecordType::TXT => 16,
            RecordType::NS => 2,
            RecordType::HTTPS => 65,
            RecordType::SVCB => 64,
        }
    }

    /// Convert DNS type code to record type name.
    pub fn from_code(code: u16) -> (r: &'static str)
        ensures
            r@ == name_of_code(code),
    {
        match code {
            1 => "A",
            28 => "AAAA",
            5 => "CNAME",
            15 => "MX",
            16 => "TXT",
            2 => "NS",
            65 => "HTTPS",
            64 => "SVCB",
            _ => "UNKNOWN",
        }
    }

    /// Human-readable name of the record type.
    pub fn label(&self) -> (r: &'static str)
        ensures
            r@ == record_type_name(*self),
    {
        match self {
            RecordType::A => "A",
            RecordType::AAAA => "AAAA",
            RecordType::CNAME => "CNAME",
            RecordType::MX => "MX",
            RecordType::TXT => "TXT",
            RecordType::NS => "NS",
            RecordType::HTTPS => "HTTPS",
            RecordType::SVCB => "SVCB",
        }
    }
}

/// Law: the record-type/code mapping round-trips. Converting any supported
/// record type to its numeric code and that code back to a record type yields
/// the type itself, hence the same code again.
pub proof fn lemma_record_type_code_round_trip(t: RecordType)
    ensures
        type_of_code(type_code_of(t)) == Some(t),
        type_code_of(type_of_code(type_code_of(t))->Some_0) == type_code_of(t),
{
}

/// Result of a DNS resolution with timing and provider information.
#[derive(Debug, Clone)]
pub struct ResolutionResult {
    /// The hostname that was resolved.
    pub hostname: String,
    /// The resolved addresses/records.
    pub records: Vec<String>,
    /// The provider that responded.
    pub provider: Provider,
    /// Time taken for the resolution, in milliseconds.
    pub duration_ms: u64,
}

/// Error types for DNS resolution.
#[derive(Debug, Clone)]
pub enum DnsError {
    /// Transport-level connect or handshake problem.
    ConnectionError(String),
    /// The transport accepted the request but the exchange failed.
    QueryError(String),
    /// The exchange succeeded but the answer section was empty.
    NoRecordsFound,
    /// A race or fallback pass exhausted every candidate provider.
    AllProvidersFailed(String),
    /// The input name was malformed.
    InvalidHostname(String),
    /// A TLS-level failure.
    TlsError(String),
    /// A non-success status from an HTTP-based transport.
    HttpError(String),
}

/// What `DnsError::message` returns for each variant.
pub open spec fn error_message(e: DnsError) -> Seq<char> {
    match e {
        DnsError::ConnectionError(s) => "Connection failed: "@ + s@,
        DnsError::QueryError(s) => "Query failed: "@ + s@,
        DnsError::NoRecordsFound => "No records found"@,
        DnsError::AllProvidersFailed(s) => "All providers failed: "@ + s@,
        DnsError::InvalidHostname(s) => "Invalid hostname: "@ + s@,
        DnsError::TlsError(s) => "TLS error: "@ + s@,
        DnsError::HttpError(s) => "HTTP error: "@ + s@,
    }
}

impl DnsError {
    /// Human-readable description of the error, with its cause appended.
    pub fn message(&self) -> (r: String)
        ensures
            r@ == error_message(*self),
    {
        match self {
            DnsError::ConnectionError(s) => {
                let mut r = "Connection failed: ".to_owned();
                r.append(s.as_str());
                r
            },
            DnsError::QueryError(s) => {
                let mut r = "Query failed: ".to_owned();
                r.append(s.as_str());
                r
            },
            DnsError::NoRecordsFound => "No records found".to_owned(),
            DnsError::AllProvidersFailed(s) => {
                let mut r = "All providers failed: ".to_owned();
                r.append(s.as_str());
                r
            },
            DnsError::InvalidHostname(s) => {
                let mut r = "Invalid hostname: ".to_owned();
                r.append(s.as_str());
                r
            },
            DnsError::TlsError(s) => {
                let mut r = "TLS error: ".to_owned();
                r.append(s.as_str());
                r
            },
            DnsError::HttpError(s) => {
                let mut r = "HTTP error: ".to_owned();
                r.append(s.as_str());
                r
            },
        }
    }
}

} // verus!
