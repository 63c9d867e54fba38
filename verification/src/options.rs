use vstd::prelude::*;

use crate::error::{outcome_is, MemcacheError};
use crate::parsed_url::{first_value, has_pair, ParsedUrl, UrlView};

verus! {

/// Options of a TCP connection, as the URL's query gives them.
///
/// `timeout` is the text of the first `timeout` parameter; it is read as a
/// number of seconds where the socket is opened. `nodelay` is false only
/// where the query holds `tcp_nodelay=false`.
pub struct TcpOptions {
    pub timeout: Option<String>,
    pub nodelay: bool,
}

pub struct TcpOptionsView {
    pub timeout: Option<Seq<char>>,
    pub nodelay: bool,
}

impl View for TcpOptions {
    type V = TcpOptionsView;

    open spec fn view(&self) -> TcpOptionsView {
        TcpOptionsView { timeout: self.timeout.deep_view(), nodelay: self.nodelay }
    }
}

/// Options of a UDP connection: the local address to bind, from the first
/// `bind` parameter.
pub struct UdpOptions {
    pub bind_addr: Option<String>,
}

pub struct UdpOptionsView {
    pub bind_addr: Option<Seq<char>>,
}

impl View for UdpOptions {
    type V = UdpOptionsView;

    open spec fn view(&self) -> UdpOptionsView {
        UdpOptionsView { bind_addr: self.bind_addr.deep_view() }
    }
}

/// How a TLS connection checks the server's certificate.
#[derive(Debug, Clone, Copy, PartialEq, Eq, Structural)]
pub enum VerifyMode {
    /// Any certificate is accepted (`verify_mode=none`).
    NoVerify,
    /// The certificate must chain to a trusted root (`verify_mode=peer`, the default).
    Peer,
}

/// Options of a TLS connection.
///
/// `key_path` and `cert_path` are both given or both absent.
pub struct TlsOptions {
    pub tcp_options: TcpOptions,
    pub ca_path: Option<String>,
    pub key_path: Option<String>,
    pub cert_path: Option<String>,
    pub verify_mode: VerifyMode,
}

pub struct TlsOptionsView {
    pub tcp_options: TcpOptionsView,
    pub ca_path: Option<Seq<char>>,
    pub key_path: Option<Seq<char>>,
    pub cert_path: Option<Seq<char>>,
    pub verify_mode: VerifyMode,
}

impl View for TlsOptions {
    type V = TlsOptionsView;

    open spec fn view(&self) -> TlsOptionsView {
        TlsOptionsView {
            tcp_options: self.tcp_options@,
            ca_path: self.ca_path.deep_view(),
            key_path: self.key_path.deep_view(),
            cert_path: self.cert_path.deep_view(),
            verify_mode: self.verify_mode,
        }
    }
}

/// The TCP options that a URL asks for.
pub open spec fn tcp_options_of(u: UrlView) -> TcpOptionsView {
    TcpOptionsView {
        timeout: first_value(u.query_pairs, "timeout"@),
        nodelay: !has_pair(u.query_pairs, "tcp_nodelay"@, "false"@),
    }
}

/// The UDP options that a URL asks for.
pub open spec fn udp_options_of(u: UrlView) -> UdpOptionsView {
    UdpOptionsView { bind_addr: first_value(u.query_pairs, "bind"@) }
}

/// A client key and a client certificate go together: the message of the
/// error where only one of the two is given.
pub open spec fn key_cert_paths_check(key_path: Option<Seq<char>>, cert_path: Option<Seq<char>>) -> Result<(), Seq<char>> {
    if key_path is Some && cert_path is None {
        Err("cert_path must be specified when key_path is specified"@)
    } else if key_path is None && cert_path is Some {
        Err("key_path must be specified when cert_path is specified"@)
    } else {
        Ok(())
    }
}

/// The verification mode that the `verify_mode` parameter asks for, or the
/// message of the error for an unknown value.
pub open spec fn verify_mode_of(param: Option<Seq<char>>) -> Result<VerifyMode, Seq<char>> {
    match param {
        None => Ok(VerifyMode::Peer),
        Some(v) => if v == "none"@ {
            Ok(VerifyMode::NoVerify)
        } else if v == "peer"@ {
            Ok(VerifyMode::Peer)
        } else {
            Err("unknown verify_mode, expected 'none' or 'peer'"@)
        },
    }
}

/// The TLS options that a URL asks for, or the message of the error.
pub open spec fn tls_options_of(u: UrlView) -> Result<TlsOptionsView, Seq<char>> {
    let q = u.query_pairs;
    match verify_mode_of(first_value(q, "verify_mode"@)) {
        Err(m) => Err(m),
        Ok(mode) => match key_cert_paths_check(first_value(q, "key_path"@), first_value(q, "cert_path"@)) {
            Err(m) => Err(m),
            Ok(_) => Ok(TlsOptionsView {
                tcp_options: tcp_options_of(u),
                ca_path: first_value(q, "ca_path"@),
                key_path: first_value(q, "key_path"@),
                cert_path: first_value(q, "cert_path"@),
                verify_mode: mode,
            }),
        },
    }
}

/// The TLS options are read from the query alone: the TCP options are those
/// a TCP URL with the same query gets (the first `timeout` value, and nodelay
/// off exactly with `tcp_nodelay=false`), each path is the first value of its
/// parameter, and verification is off exactly with `verify_mode=none`. They
/// are refused exactly where `verify_mode` is neither absent, `none` nor
/// `peer`, or where only one of `key_path` and `cert_path` is given.
pub proof fn lemma_tls_options_from_query(u: UrlView)
    ensures
        tls_options_of(u) matches Ok(o) ==> {
            &&& o.tcp_options.timeout == first_value(u.query_pairs, "timeout"@)
            &&& o.tcp_options.nodelay == !has_pair(u.query_pairs, "tcp_nodelay"@, "false"@)
            &&& o.ca_path == first_value(u.query_pairs, "ca_path"@)
            &&& o.key_path == first_value(u.query_pairs, "key_path"@)
            &&& o.cert_path == first_value(u.query_pairs, "cert_path"@)
            &&& (o.verify_mode == VerifyMode::NoVerify <==> first_value(u.query_pairs, "verify_mode"@)
                == Some("none"@))
        },
        tls_options_of(u) is Ok <==> {
            &&& (first_value(u.query_pairs, "verify_mode"@) matches Some(v) ==> (v == "none"@ || v
                == "peer"@))
            &&& (first_value(u.query_pairs, "key_path"@) is Some <==> first_value(
                u.query_pairs,
                "cert_path"@,
            ) is Some)
        },
{
}

/// Refuses a client key without a certificate, and a certificate without a key.
pub fn validate_key_cert_paths(key_path: &Option<String>, cert_path: &Option<String>) -> (res: Result<(), MemcacheError>)
    ensures
        outcome_is(res, key_cert_paths_check(key_path.deep_view(), cert_path.deep_view())),
{
    if key_path.is_some() && cert_path.is_none() {
        return Err(MemcacheError::bad_url("cert_path must be specified when key_path is specified"));
    } else if key_path.is_none() && cert_path.is_some() {
        return Err(MemcacheError::bad_url("key_path must be specified when cert_path is specified"));
    }
    Ok(())
}

impl TcpOptions {
    /// Reads the TCP options from the URL's query.
    pub fn from_url(url: &ParsedUrl) -> (r: TcpOptions)
        ensures
            r@ == tcp_options_of(url@),
    {
        let nodelay = !url.has_query_pair("tcp_nodelay", "false");
        let timeout = url.get_param("timeout");
        TcpOptions { nodelay, timeout }
    }
}

impl UdpOptions {
    /// Reads the UDP options from the URL's query.
    pub fn from_url(url: &ParsedUrl) -> (r: UdpOptions)
        ensures
            r@ == udp_options_of(url@),
    {
        UdpOptions { bind_addr: url.get_param("bind") }
    }
}

impl TlsOptions {
    /// Reads the TLS options from the URL's query.
    pub fn from_url(url: &ParsedUrl) -> (res: Result<TlsOptions, MemcacheError>)
        ensures
            outcome_is(res, tls_options_of(url@)),
            res matches Ok(o) ==> (o.key_path is Some <==> o.cert_path is Some),
    {
        let verify_param = url.get_param("verify_mode");
        let verify_mode = match verify_param {
            None => VerifyMode::Peer,
            Some(v) => {
                if crate::parsed_url::text_eq(&v, "none") {
                    VerifyMode::NoVerify
                } else if crate::parsed_url::text_eq(&v, "peer") {
                    VerifyMode::Peer
                } else {
                    return Err(MemcacheError::bad_url("unknown verify_mode, expected 'none' or 'peer'"));
                }
            },
        };
        let ca_path = url.get_param("ca_path");
        let key_path = url.get_param("key_path");
        let cert_path = url.get_param("cert_path");
        match validate_key_cert_paths(&key_path, &cert_path) {
            Err(e) => return Err(e),
            Ok(()) => {},
        }
        Ok(TlsOptions { tcp_options: TcpOptions::from_url(url), ca_path, key_path, cert_path, verify_mode })
    }
}

} // verus!
