use rustls::pki_types::PrivateKeyDer;
use vstd::prelude::*;
use vstd::string::*;

use crate::error::MemcacheError;
use crate::options::{TlsOptions, TlsOptionsView, VerifyMode};
use crate::parsed_url::UrlView;
use crate::server_name::{is_server_name, server_name_from, TlsServerName};
use crate::transport::{lemma_tls_key_with_cert, transport_of, TransportView};

verus! {

/// Which certificates a TLS connection trusts.
pub enum TrustRoots {
    /// Any server certificate is accepted.
    AcceptAny,
    /// The certificates of the PEM file at this path.
    CaFile(String),
    /// The built-in set of web roots.
    Builtin,
}

pub enum TrustRootsView {
    AcceptAny,
    CaFile(Seq<char>),
    Builtin,
}

impl View for TrustRoots {
    type V = TrustRootsView;

    open spec fn view(&self) -> TrustRootsView {
        match self {
            TrustRoots::AcceptAny => TrustRootsView::AcceptAny,
            TrustRoots::CaFile(p) => TrustRootsView::CaFile(p@),
            TrustRoots::Builtin => TrustRootsView::Builtin,
        }
    }
}

/// The files of a client certificate chain and its private key.
pub struct ClientAuthFiles {
    pub cert_path: String,
    pub key_path: String,
}

/// How the TLS client is configured: what it trusts, and the client
/// certificate it presents, if any.
pub struct TlsSetup {
    pub roots: TrustRoots,
    pub client_auth: Option<ClientAuthFiles>,
}

pub struct TlsSetupView {
    pub roots: TrustRootsView,
    /// The certificate path and the key path.
    pub client_auth: Option<(Seq<char>, Seq<char>)>,
}

impl View for TlsSetup {
    type V = TlsSetupView;

    open spec fn view(&self) -> TlsSetupView {
        TlsSetupView {
            roots: self.roots@,
            client_auth: match self.client_auth {
                Some(f) => Some((f.cert_path@, f.key_path@)),
                None => None,
            },
        }
    }
}

/// The TLS client set-up that the options ask for. Without verification
/// nothing is trusted or presented; with it, the CA file is trusted where one
/// is given (else the built-in roots), and a client certificate is presented
/// where both its file and its key's file are given.
pub open spec fn setup_of(o: TlsOptionsView) -> TlsSetupView {
    if o.verify_mode == VerifyMode::NoVerify {
        TlsSetupView { roots: TrustRootsView::AcceptAny, client_auth: None }
    } else {
        TlsSetupView {
            roots: match o.ca_path {
                Some(p) => TrustRootsView::CaFile(p),
                None => TrustRootsView::Builtin,
            },
            client_auth: match (o.key_path, o.cert_path) {
                (Some(k), Some(c)) => Some((c, k)),
                _ => None,
            },
        }
    }
}

impl TlsOptions {
    /// Decides how the TLS client is configured.
    pub fn setup(&self) -> (r: TlsSetup)
        ensures
            r@ == setup_of(self@),
    {
        match self.verify_mode {
            VerifyMode::NoVerify => TlsSetup { roots: TrustRoots::AcceptAny, client_auth: None },
            VerifyMode::Peer => {
                let roots = match &self.ca_path {
                    Some(p) => TrustRoots::CaFile(p.clone()),
                    None => TrustRoots::Builtin,
                };
                let client_auth = match (&self.key_path, &self.cert_path) {
                    (Some(k), Some(c)) => Some(ClientAuthFiles { cert_path: c.clone(), key_path: k.clone() }),
                    _ => None,
                };
                TlsSetup { roots, client_auth }
            },
        }
    }
}

/// Without verification any certificate is trusted and none is presented.
/// With it, the CA file is trusted exactly where one is given and the built-in
/// roots exactly where none is, whatever the client key and certificate; and
/// the client certificate `c` with key `k` is presented exactly where both
/// paths are given.
pub proof fn lemma_setup_from_options(o: TlsOptionsView)
    ensures
        o.verify_mode == VerifyMode::NoVerify ==> setup_of(o).roots == TrustRootsView::AcceptAny
            && setup_of(o).client_auth is None,
        o.verify_mode == VerifyMode::Peer ==> {
            &&& (o.ca_path matches Some(p) ==> setup_of(o).roots == TrustRootsView::CaFile(p))
            &&& (setup_of(o).roots matches TrustRootsView::CaFile(p) ==> o.ca_path == Some(p))
            &&& (setup_of(o).roots is Builtin <==> o.ca_path is None)
            &&& ((o.cert_path, o.key_path) matches (Some(c), Some(k)) ==> setup_of(o).client_auth
                == Some((c, k)))
            &&& (setup_of(o).client_auth matches Some((c, k)) ==> o.cert_path == Some(c) && o.key_path
                == Some(k))
            &&& (setup_of(o).client_auth is None <==> (o.cert_path is None || o.key_path is None))
        },
{
}

/// For a TLS URL, a client certificate is presented exactly where the
/// server's certificate is verified and the URL names a client key.
pub proof fn lemma_client_auth_needs_verification(u: UrlView)
    ensures
        transport_of(u) matches Ok(TransportView::Tls(o)) ==> (setup_of(o).client_auth is Some <==> (
        o.verify_mode == VerifyMode::Peer && o.key_path is Some)),
{
    lemma_tls_key_with_cert(u);
}

/// The name that a TLS connection to `host` checks the server's certificate
/// against.
pub fn tls_server_name(host: &str) -> (res: Result<TlsServerName, MemcacheError>)
    ensures
        res is Ok <==> is_server_name(host@),
        res matches Ok(n) ==> n@ == host@,
        res matches Err(e) ==> e is BadURL && e->BadURL_0@ == "invalid TLS hostname: "@ + host@,
{
    match server_name_from(host.to_owned()) {
        Ok(name) => Ok(name),
        Err(_) => {
            let msg = String::from_str("invalid TLS hostname: ").concat(host);
            Err(MemcacheError::BadURL(msg))
        },
    }
}

/// Loading the system's root certificates must leave at least one usable
/// root: `usable` is how many were added.
pub fn require_native_roots(usable: usize) -> (res: Result<(), MemcacheError>)
    ensures
        res is Ok <==> usable > 0,
        res matches Err(e) ==> e is BadURL && e->BadURL_0@ == "no usable native root certificates found"@,
{
    if usable == 0 {
        Err(MemcacheError::bad_url("no usable native root certificates found"))
    } else {
        Ok(())
    }
}

/// What `rustls_pemfile::certs` reads from PEM text: the DER bytes of each
/// certificate in order, or `None` where reading fails.
pub uninterp spec fn pem_certificates(pem: Seq<u8>) -> Option<Seq<Seq<u8>>>;

/// Calls `rustls_pemfile::certs` on the bytes and collects the certificates,
/// stopping at the first error. The contract claims that the outcome is a
/// function of the bytes alone (named [`pem_certificates`]); which I/O error
/// comes back is not stated.
#[verifier::external_body]
fn read_pem_certificates(pem: &[u8]) -> (res: Result<Vec<Vec<u8>>, std::io::Error>)
    ensures
        res is Ok <==> pem_certificates(pem@) is Some,
        res matches Ok(v) ==> v.deep_view() == pem_certificates(pem@)->0,
{
    let mut rd = pem;
    rustls_pemfile::certs(&mut rd).map(|c| c.map(|c| c.to_vec())).collect()
}

/// The encoding of a private key, as the PEM section's label gives it.
#[derive(Debug, Clone, Copy, PartialEq, Eq, Structural)]
pub enum KeyKind {
    /// `RSA PRIVATE KEY`
    Pkcs1,
    /// `EC PRIVATE KEY`
    Sec1,
    /// `PRIVATE KEY`
    Pkcs8,
}

/// A private key: its encoding and its DER bytes.
pub struct ClientKey {
    pub kind: KeyKind,
    pub der: Vec<u8>,
}

/// What `rustls_pemfile::private_key` finds in PEM text: `None` where reading
/// fails, `Some(None)` where no private key is there, else the first key's
/// encoding and DER bytes.
pub uninterp spec fn pem_private_key(pem: Seq<u8>) -> Option<Option<(KeyKind, Seq<u8>)>>;

/// Calls `rustls_pemfile::private_key` on the bytes and reads the key's
/// variant and `secret_der` bytes. `PrivateKeyDer` is marked non-exhaustive;
/// its variants are `Pkcs1`, `Sec1` and `Pkcs8`, so the last arm stands for
/// `Pkcs8`. The contract claims that the outcome is a
/// function of the bytes alone (named [`pem_private_key`]); which I/O error
/// comes back is not stated.
#[verifier::external_body]
fn read_pem_private_key(pem: &[u8]) -> (res: Result<Option<(KeyKind, Vec<u8>)>, std::io::Error>)
    ensures
        match res {
            Ok(None) => pem_private_key(pem@) == Some(None::<(KeyKind, Seq<u8>)>),
            Ok(Some((kind, der))) => pem_private_key(pem@) == Some(Some((kind, der@))),
            Err(_) => pem_private_key(pem@) is None,
        },
{
    let mut rd = pem;
    Ok(rustls_pemfile::private_key(&mut rd)?.map(|key| match &key {
        PrivateKeyDer::Pkcs1(_) => (KeyKind::Pkcs1, key.secret_der().to_vec()),
        PrivateKeyDer::Sec1(_) => (KeyKind::Sec1, key.secret_der().to_vec()),
        _ => (KeyKind::Pkcs8, key.secret_der().to_vec()),
    }))
}

/// The certificate chain that the client presents, read from PEM text.
pub fn client_certificates(pem: &[u8]) -> (res: Result<Vec<Vec<u8>>, MemcacheError>)
    ensures
        res is Ok <==> pem_certificates(pem@) is Some,
        res matches Ok(v) ==> v.deep_view() == pem_certificates(pem@)->0,
        res matches Err(e) ==> e is Io,
{
    match read_pem_certificates(pem) {
        Ok(v) => Ok(v),
        Err(e) => Err(MemcacheError::Io(e)),
    }
}

/// The client's private key, read from PEM text; a text without a key is a
/// bad `key_path`.
pub fn client_private_key(pem: &[u8]) -> (res: Result<ClientKey, MemcacheError>)
    ensures
        res is Ok <==> pem_private_key(pem@) matches Some(Some(_)),
        res matches Ok(k) ==> pem_private_key(pem@) == Some(Some((k.kind, k.der@))),
        pem_private_key(pem@) == Some(None::<(KeyKind, Seq<u8>)>) <==> (res matches Err(
            MemcacheError::BadURL(m),
        ) && m@ == "no private key found in key_path"@),
        pem_private_key(pem@) is None <==> res matches Err(MemcacheError::Io(_)),
{
    match read_pem_private_key(pem) {
        Ok(Some((kind, der))) => Ok(ClientKey { kind, der }),
        Ok(None) => Err(MemcacheError::bad_url("no private key found in key_path")),
        Err(e) => Err(MemcacheError::Io(e)),
    }
}

} // verus!
