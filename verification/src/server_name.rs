use rustls::pki_types::{InvalidDnsNameError, ServerName};
use vstd::prelude::*;

verus! {

/// The TLS server name type, carried as it is to the TLS connection.
#[verifier::external_type_specification]
#[verifier::external_body]
pub struct ExServerName<'a>(ServerName<'a>);

/// The error of a refused TLS server name.
#[verifier::external_type_specification]
#[verifier::external_body]
pub struct ExInvalidDnsNameError(InvalidDnsNameError);

/// Whether TLS accepts a text as a server name (a DNS name or an IP address).
pub uninterp spec fn is_server_name(host: Seq<char>) -> bool;

/// A TLS server name, with the host text it was made from. Only
/// [`server_name_from`] makes one, so the name is always the one made from
/// that text.
pub struct TlsServerName {
    host: String,
    name: ServerName<'static>,
}

impl View for TlsServerName {
    type V = Seq<char>;

    /// The host text the name was made from.
    closed spec fn view(&self) -> Seq<char> {
        self.host@
    }
}

impl TlsServerName {
    /// The host text the name was made from.
    pub fn host(&self) -> (r: &String)
        ensures
            r@ == self@,
    {
        &self.host
    }

    /// The name itself, for the TLS connection.
    pub fn into_name(self) -> ServerName<'static> {
        self.name
    }
}

/// Calls `ServerName::try_from` on an owned string and keeps the accepted
/// name together with that string. The contract claims that acceptance is a
/// function of the text alone (named [`is_server_name`]), and that the name
/// handed back is the one made from `host`; what the name holds is not stated.
#[verifier::external_body]
pub(crate) fn server_name_from(host: String) -> (res: Result<TlsServerName, InvalidDnsNameError>)
    ensures
        res is Ok <==> is_server_name(host@),
        res matches Ok(n) ==> n@ == host@,
{
    let text = host.clone();
    ServerName::try_from(host).map(|name| TlsServerName { host: text, name })
}

} // verus!
