//! The TLS context builder: parses the fetched chain and key material,
//! builds the rustls server configuration, and installs the fixed ALPN
//! preference list.

use vstd::prelude::*;

verus! {

#[verifier::external_type_specification]
#[verifier::external_body]
pub struct ExServerConfig(rustls::ServerConfig);

#[verifier::external_type_specification]
#[verifier::external_body]
pub struct ExCertificateDer<'a>(rustls::pki_types::CertificateDer<'a>);

#[verifier::external_type_specification]
#[verifier::external_body]
pub struct ExPrivateKeyDer<'a>(rustls::pki_types::PrivateKeyDer<'a>);

#[verifier::external_type_specification]
#[verifier::external_body]
pub struct ExRustlsError(rustls::Error);

#[verifier::external_type_specification]
#[verifier::external_body]
pub struct ExIoError(std::io::Error);

/// Why building the TLS server context failed. Every one of these is fatal
/// to startup: the proxy must not serve without valid certificate material.
#[derive(Clone, Copy, PartialEq, Eq, Structural, Debug)]
pub enum TlsContextError {
    /// A PEM section of the certificate chain failed to decode.
    ChainParse,
    /// A PEM private-key section failed to decode.
    KeyParse,
    /// The key material held zero private keys.
    NoPrivateKey,
    /// The chain and key are not a usable pair.
    BadCertKeyPair,
}

/// A short diagnostic for each fatal context error.
pub open spec fn spec_error_message(e: TlsContextError) -> Seq<char> {
    match e {
        TlsContextError::ChainParse => "certificate chain is not valid PEM"@,
        TlsContextError::KeyParse => "private key is not valid PEM"@,
        TlsContextError::NoPrivateKey => "no private key found in key material"@,
        TlsContextError::BadCertKeyPair => "certificate chain and private key do not match"@,
    }
}

impl TlsContextError {
    /// The diagnostic line reported when this error aborts startup.
    pub fn message(&self) -> (r: &'static str)
        ensures
            r@ == spec_error_message(*self),
    {
        match self {
            TlsContextError::ChainParse => "certificate chain is not valid PEM",
            TlsContextError::KeyParse => "private key is not valid PEM",
            TlsContextError::NoPrivateKey => "no private key found in key material",
            TlsContextError::BadCertKeyPair => "certificate chain and private key do not match",
        }
    }
}

// ---------------------------------------------------------------------------
// ALPN preference
// ---------------------------------------------------------------------------

/// The fixed ALPN preference list, most preferred first: `h2`, `http/1.1`,
/// `http/1.0`, each as its protocol identifier bytes.
pub open spec fn spec_alpn_preference() -> Seq<Seq<u8>> {
    seq![
        // "h2"
        seq![0x68u8, 0x32u8],
        // "http/1.1"
        seq![0x68u8, 0x74u8, 0x74u8, 0x70u8, 0x2fu8, 0x31u8, 0x2eu8, 0x31u8],
        // "http/1.0"
        seq![0x68u8, 0x74u8, 0x74u8, 0x70u8, 0x2fu8, 0x31u8, 0x2eu8, 0x30u8],
    ]
}

/// Builds the ALPN preference list as wire bytes.
pub fn alpn_preference() -> (r: Vec<Vec<u8>>)
    ensures
        r.deep_view() == spec_alpn_preference(),
{
    let mut h2: Vec<u8> = Vec::new();
    h2.push(0x68);
    h2.push(0x32);
    let mut http11: Vec<u8> = Vec::new();
    http11.push(0x68);
    http11.push(0x74);
    http11.push(0x74);
    http11.push(0x70);
    http11.push(0x2f);
    http11.push(0x31);
    http11.push(0x2e);
    http11.push(0x31);
    let mut http10: Vec<u8> = Vec::new();
    http10.push(0x68);
    http10.push(0x74);
    http10.push(0x74);
    http10.push(0x70);
    http10.push(0x2f);
    http10.push(0x31);
    http10.push(0x2e);
    http10.push(0x30);
    let mut r: Vec<Vec<u8>> = Vec::new();
    r.push(h2);
    r.push(http11);
    r.push(http10);
    proof {
        assert(r.deep_view() =~~= spec_alpn_preference());
    }
    r
}

// ---------------------------------------------------------------------------
// Trusted wrappers around rustls-pemfile and rustls
// ---------------------------------------------------------------------------

/// Whether rustls_pemfile::certs parses the given bytes without a decode
/// error. The parse reads the in-memory bytes alone, so its outcome is a
/// function of them.
pub uninterp spec fn spec_chain_parses(pem: Seq<u8>) -> bool;

/// What rustls_pemfile::private_key finds in the given bytes: `None` when a
/// PEM section is malformed, `Some(false)` when no private-key section is
/// present, `Some(true)` when a first private key parses. The parse reads
/// the in-memory bytes alone, so its outcome is a function of them.
pub uninterp spec fn spec_key_parse(pem: Seq<u8>) -> Option<bool>;

/// Relies on rustls_pemfile::certs: every X.509 certificate PEM section of
/// the input in order, or the first decode error.
#[verifier::external_body]
fn read_certs(pem: &[u8]) -> (r: Result<
    Vec<rustls::pki_types::CertificateDer<'static>>,
    std::io::Error,
>)
    ensures
        (r matches Ok(_)) <==> spec_chain_parses(pem@),
{
    let mut rd: &[u8] = pem;
    rustls_pemfile::certs(&mut rd).collect()
}

/// Relies on rustls_pemfile::private_key: the first PEM private-key section
/// of the input, `Ok(None)` when the input holds none, `Err` on a malformed
/// section.
#[verifier::external_body]
fn read_private_key(pem: &[u8]) -> (r: Result<
    Option<rustls::pki_types::PrivateKeyDer<'static>>,
    std::io::Error,
>)
    ensures
        (r matches Err(_)) <==> (spec_key_parse(pem@) is None),
        (r matches Ok(Some(_))) <==> spec_key_parse(pem@) == Some(true),
        (r matches Ok(None)) <==> spec_key_parse(pem@) == Some(false),
{
    let mut rd: &[u8] = pem;
    rustls_pemfile::private_key(&mut rd)
}

/// Relies on rustls::ServerConfig::builder, with_no_client_auth and
/// with_single_cert: a server configuration that requires no client
/// authentication, bound to the given chain and key; `Err` when rustls
/// rejects them as a usable pair. `builder` panics only when no usable
/// crypto provider resolves; with this build's single enabled provider that
/// cannot happen unless a process-default provider without TLS suites was
/// installed first, which nothing here does.
#[verifier::external_body]
fn build_server_config(
    chain: Vec<rustls::pki_types::CertificateDer<'static>>,
    key: rustls::pki_types::PrivateKeyDer<'static>,
) -> (r: Result<rustls::ServerConfig, rustls::Error>) {
    rustls::ServerConfig::builder().with_no_client_auth().with_single_cert(chain, key)
}

/// Relies on the public field rustls::ServerConfig::alpn_protocols, which
/// governs ALPN negotiation during every handshake, most preferred first.
#[verifier::external_body]
fn install_alpn(config: &mut rustls::ServerConfig, protocols: Vec<Vec<u8>>) {
    config.alpn_protocols = protocols;
}

// ---------------------------------------------------------------------------
// Verified selection of the parse and build results
// ---------------------------------------------------------------------------

/// Accepts the chain parse result: every decode error is the fatal
/// `ChainParse`; a successfully parsed chain is passed through unchanged.
pub fn select_chain(
    parsed: Result<Vec<rustls::pki_types::CertificateDer<'static>>, std::io::Error>,
) -> (r: Result<Vec<rustls::pki_types::CertificateDer<'static>>, TlsContextError>)
    ensures
        parsed matches Ok(chain) ==> (r matches Ok(c) && c == chain),
        parsed matches Err(_) ==> (r matches Err(e) && e == TlsContextError::ChainParse),
{
    match parsed {
        Ok(chain) => Ok(chain),
        Err(_) => Err(TlsContextError::ChainParse),
    }
}

/// Accepts the key parse result: a decode error is the fatal `KeyParse`;
/// an input with zero private keys is the fatal `NoPrivateKey`; the one
/// parsed key is passed through unchanged.
pub fn select_private_key(
    parsed: Result<Option<rustls::pki_types::PrivateKeyDer<'static>>, std::io::Error>,
) -> (r: Result<rustls::pki_types::PrivateKeyDer<'static>, TlsContextError>)
    ensures
        parsed matches Ok(Some(key)) ==> (r matches Ok(k) && k == key),
        parsed matches Ok(None) ==> (r matches Err(e) && e == TlsContextError::NoPrivateKey),
        parsed matches Err(_) ==> (r matches Err(e) && e == TlsContextError::KeyParse),
{
    match parsed {
        Ok(Some(key)) => Ok(key),
        Ok(None) => Err(TlsContextError::NoPrivateKey),
        Err(_) => Err(TlsContextError::KeyParse),
    }
}

/// Accepts the configuration build result: rustls rejecting the chain/key
/// pair is the fatal `BadCertKeyPair`; a built configuration is passed
/// through unchanged.
pub fn select_config(parsed: Result<rustls::ServerConfig, rustls::Error>) -> (r: Result<
    rustls::ServerConfig,
    TlsContextError,
>)
    ensures
        parsed matches Ok(config) ==> (r matches Ok(c) && c == config),
        parsed matches Err(_) ==> (r matches Err(e) && e == TlsContextError::BadCertKeyPair),
{
    match parsed {
        Ok(config) => Ok(config),
        Err(_) => Err(TlsContextError::BadCertKeyPair),
    }
}

// ---------------------------------------------------------------------------
// The built context
// ---------------------------------------------------------------------------

/// The immutable server-side TLS context: the rustls configuration plus the
/// ALPN preference list that was installed into it. Built once per process,
/// then shared read-only by every forwarding session.
pub struct TlsContext {
    config: rustls::ServerConfig,
    alpn: Vec<Vec<u8>>,
}

impl TlsContext {
    /// The ALPN protocol list this context negotiates with, most preferred
    /// first.
    pub closed spec fn spec_alpn(&self) -> Seq<Seq<u8>> {
        self.alpn.deep_view()
    }

    /// The ALPN protocol list this context was built with.
    pub fn alpn_protocols(&self) -> (r: &Vec<Vec<u8>>)
        ensures
            r.deep_view() == self.spec_alpn(),
    {
        &self.alpn
    }

    /// Surrenders the rustls configuration, for the layer that performs the
    /// handshakes.
    pub fn into_config(self) -> rustls::ServerConfig {
        self.config
    }
}

/// The TLS context builder: parses the chain and key material, builds the
/// server configuration bound to them, and installs the fixed ALPN
/// preference list. Every failure is fatal to startup; a built context
/// negotiates exactly `h2`, `http/1.1`, `http/1.0`, in that order.
///
/// Each fatal error comes exactly on its own inputs: `ChainParse` iff the
/// chain bytes fail to parse; then `KeyParse` iff a key section is
/// malformed, `NoPrivateKey` iff the key bytes hold no key; and once both
/// materials parse, only rustls rejecting the pair (`BadCertKeyPair`) stands
/// between them and a built context.
pub fn build_tls_context(chain_pem: &[u8], key_pem: &[u8]) -> (r: Result<
    TlsContext,
    TlsContextError,
>)
    ensures
        r matches Ok(ctx) ==> ctx.spec_alpn() == spec_alpn_preference(),
        (r matches Err(e) && e == TlsContextError::ChainParse) <==> !spec_chain_parses(
            chain_pem@,
        ),
        spec_chain_parses(chain_pem@) ==> ((r matches Err(e) && e == TlsContextError::KeyParse)
            <==> (spec_key_parse(key_pem@) is None)),
        spec_chain_parses(chain_pem@) ==> ((r matches Err(e) && e
            == TlsContextError::NoPrivateKey) <==> spec_key_parse(key_pem@) == Some(false)),
        spec_chain_parses(chain_pem@) && spec_key_parse(key_pem@) == Some(true) ==> (r is Ok || (
        r matches Err(e) && e == TlsContextError::BadCertKeyPair)),
{
    let chain = match select_chain(read_certs(chain_pem)) {
        Ok(chain) => chain,
        Err(e) => { return Err(e) },
    };
    let key = match select_private_key(read_private_key(key_pem)) {
        Ok(key) => key,
        Err(e) => { return Err(e) },
    };
    let mut config = match select_config(build_server_config(chain, key)) {
        Ok(config) => config,
        Err(e) => { return Err(e) },
    };
    install_alpn(&mut config, alpn_preference());
    Ok(TlsContext { config, alpn: alpn_preference() })
}

} // verus!
