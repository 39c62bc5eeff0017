//! QUIC configuration shared by the client and the server.
use vstd::prelude::*;
use vstd::string::*;
use rustls::{Certificate, PrivateKey};
use crate::common::error::CleverestError;

verus! {

#[verifier::external_type_specification]
#[verifier::external_body]
pub struct ExCertificate(rustls::Certificate);

#[verifier::external_type_specification]
#[verifier::external_body]
pub struct ExPrivateKey(rustls::PrivateKey);

#[verifier::external_type_specification]
#[verifier::external_body]
pub struct ExRustlsError(rustls::Error);

#[verifier::external_type_specification]
#[verifier::external_body]
pub struct ExServerConfig(quinn::ServerConfig);

#[verifier::external_type_specification]
#[verifier::external_body]
pub struct ExTransportConfig(quinn::TransportConfig);

/// The ALPN protocol name of the application: the bytes of `cleverest`.
pub const ALPN_PROTOCOL: [u8; 9] = [99, 108, 101, 118, 101, 114, 101, 115, 116];

/// The UDP port that the server listens on unless told otherwise.
pub const DEFAULT_PORT: u16 = 14389;

/// Seconds between keep-alive packets on an idle connection.
pub const KEEP_ALIVE_SECS: u64 = 5;

/// Would make a self-signed certificate for development; none is made, and
/// the error says to use proper certificates.
pub fn generate_self_signed_cert() -> (r: Result<(Vec<Certificate>, PrivateKey), CleverestError>)
    ensures
        r matches Err(CleverestError::Config(m)) && m@
            == "Not implemented: Use proper certificates in production"@,
{
    Err(CleverestError::Config(String::from_str("Not implemented: Use proper certificates in production")))
}

/// Names whether `quinn::ServerConfig::with_single_cert` accepts the
/// certificate chain and private key (rustls must be able to use the key).
pub uninterp spec fn single_cert_accepted(cert_chain: Seq<Certificate>, key: PrivateKey) -> bool;

/// Names the text that `Display` gives for a rustls error.
pub uninterp spec fn rustls_error_text(e: rustls::Error) -> Seq<char>;

/// The text of the only error with which rustls refuses a certificate and
/// key: `Error::General("invalid private key")`, shown by its `Display`.
pub open spec fn refused_key_text() -> Seq<char> {
    "unexpected error: invalid private key"@
}

/// Calls `quinn::ServerConfig::with_single_cert`. Whether it succeeds is a
/// function of its arguments, named `single_cert_accepted`. As the sources
/// of quinn and rustls show, the only error is rustls's
/// `Error::General("invalid private key")`, given when rustls cannot use the
/// key; its text is stated. The config it builds holds a random
/// handshake-token key, so nothing is stated of it.
#[verifier::external_body]
fn server_config_with_single_cert(cert_chain: Vec<Certificate>, key: PrivateKey) -> (r: Result<
    quinn::ServerConfig,
    rustls::Error,
>)
    ensures
        r is Ok <==> single_cert_accepted(cert_chain@, key),
        r matches Err(e) ==> rustls_error_text(e) == refused_key_text(),
{
    quinn::ServerConfig::with_single_cert(cert_chain, key)
}

/// Calls `ToString::to_string` on a rustls error.
#[verifier::external_body]
fn rustls_error_string(e: &rustls::Error) -> (r: String)
    ensures
        r@ == rustls_error_text(*e),
{
    e.to_string()
}

/// Names the keep-alive interval, in milliseconds, that a transport config
/// holds in its private field `keep_alive_interval` (`None`: no keep-alive).
pub uninterp spec fn transport_keep_alive_millis(transport: quinn::TransportConfig) -> Option<u128>;

/// Names the keep-alive interval, in milliseconds, of the transport config
/// that a server config holds in its field `transport`.
pub uninterp spec fn server_keep_alive_millis(config: quinn::ServerConfig) -> Option<u128>;

/// Calls `quinn::TransportConfig::default`, whose keep-alive interval is
/// `None`, as its source shows.
#[verifier::external_body]
fn default_transport() -> (r: quinn::TransportConfig)
    ensures
        transport_keep_alive_millis(r) is None,
{
    quinn::TransportConfig::default()
}

/// Calls `quinn::TransportConfig::keep_alive_interval` with
/// `Some(Duration::from_secs(secs))`, which the source stores as the
/// transport's keep-alive interval: `secs` seconds, `secs * 1000`
/// milliseconds.
#[verifier::external_body]
fn set_keep_alive_secs(transport: &mut quinn::TransportConfig, secs: u64)
    ensures
        transport_keep_alive_millis(*final(transport)) == Some((secs * 1000) as u128),
{
    transport.keep_alive_interval(Some(std::time::Duration::from_secs(secs)));
}

/// Calls `quinn::ServerConfig::transport_config`, which stores `transport`
/// (put behind an `Arc`) as the config's transport, so the config's
/// keep-alive is the transport's.
#[verifier::external_body]
fn install_transport(config: &mut quinn::ServerConfig, transport: quinn::TransportConfig)
    ensures
        server_keep_alive_millis(*final(config)) == transport_keep_alive_millis(transport),
{
    config.transport_config(std::sync::Arc::new(transport));
}

/// The message of the error for a certificate and key that are refused.
pub open spec fn server_config_error_text() -> Seq<char> {
    "Failed to configure server: "@ + refused_key_text()
}

/// Builds the server's QUIC configuration from a certificate chain and its
/// private key, with keep-alive packets every five seconds.
///
/// It succeeds exactly when quinn accepts the certificate and key, and the
/// config it returns sends keep-alive packets every `KEEP_ALIVE_SECS`
/// seconds; else the error carries the message of rustls's refusal.
pub fn configure_server(cert: Vec<Certificate>, key: PrivateKey) -> (r: Result<quinn::ServerConfig, CleverestError>)
    ensures
        single_cert_accepted(cert@, key) <==> r is Ok,
        r matches Ok(config) ==> server_keep_alive_millis(config) == Some((KEEP_ALIVE_SECS * 1000) as u128),
        !single_cert_accepted(cert@, key) ==> (r matches Err(CleverestError::Config(m)) && m@
            == server_config_error_text()),
{
    let mut server_config = match server_config_with_single_cert(cert, key) {
        Ok(config) => config,
        Err(e) => {
            let mut message = String::from_str("Failed to configure server: ");
            let text = rustls_error_string(&e);
            message.append(text.as_str());
            return Err(CleverestError::Config(message));
        },
    };
    let mut transport = default_transport();
    set_keep_alive_secs(&mut transport, KEEP_ALIVE_SECS);
    install_transport(&mut server_config, transport);
    Ok(server_config)
}

} // verus!
