//! Secure DNS resolution core: record-type and provider data, the ECH/SVCB
//! answer parser, and the decision logic of the batch, race and fallback
//! resolution strategies. The network transports themselves live outside the
//! library and hand it plain values.

pub mod ech;
pub mod orchestrate;
pub mod providers;
pub mod types;

pub use ech::parse_ech_config;
pub use ech::EchConfigEntry;
pub use providers::DnsProviderConfig;
pub use types::DnsError;
pub use types::Protocol;
pub use types::Provider;
pub use types::RecordType;
pub use types::ResolutionResult;
