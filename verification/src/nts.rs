//! Data carried back from an authenticated (NTS) exchange: key-exchange
//! diagnostics and the TLS certificate summary.  The handshake itself is
//! the binary's concern; these are the plain values it reports.

use vstd::prelude::*;

verus! {

/// TLS certificate summary from the NTS key exchange.
#[derive(Debug)]
pub struct CertificateInfo {
    /// Subject of the certificate.
    pub subject: String,
    /// Issuer of the certificate.
    pub issuer: String,
    /// Start of the validity period, RFC 3339.
    pub valid_from: String,
    /// End of the validity period, RFC 3339.
    pub valid_until: String,
    /// Serial number in hex.
    pub serial_number: String,
    /// Subject alternative DNS names.
    pub san_dns_names: Vec<String>,
    /// Signature algorithm.
    pub signature_algorithm: String,
    /// Public key algorithm.
    pub public_key_algorithm: String,
    /// SHA-256 fingerprint in hex.
    pub fingerprint_sha256: String,
    /// Whether the certificate is self-signed.
    pub is_self_signed: bool,
}

/// Diagnostics of the NTS key exchange.
#[derive(Debug)]
pub struct NtsKeData {
    /// Duration of the key exchange, in nanoseconds.
    pub ke_duration_ns: u64,
    /// Number of cookies received.
    pub cookie_count: usize,
    /// Size of each cookie in bytes.
    pub cookie_sizes: Vec<usize>,
    /// Negotiated AEAD algorithm.
    pub aead_algorithm: String,
    /// The NTP server the key exchange designated.
    pub ntp_server: String,
    /// Certificate summary, when one was captured.
    pub certificate: Option<CertificateInfo>,
}

} // verus!
