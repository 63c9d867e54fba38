use std::sync::Arc;

use vstd::prelude::*;

use crate::error::{outcome_is, MemcacheError};
use crate::options::{TcpOptions, TcpOptionsView, TlsOptions, TlsOptionsView, UdpOptions, UdpOptionsView};
use crate::parsed_url::{has_pair, ParsedUrl, UrlView};
use crate::tls::{setup_of, TlsSetup, TlsSetupView};
use crate::transport::{transport_of, Transport, TransportView};

verus! {

/// A connection to the memcached server: the protocol spoken over its stream,
/// and the URL it was opened with.
pub struct Connection<P> {
    pub protocol: P,
    pub url: Arc<String>,
}

impl<P> Connection<P> {
    /// The URL the connection was opened with.
    pub fn get_url(&self) -> (r: String)
        ensures
            r@ == self.url@,
    {
        (*self.url).clone()
    }
}

impl<P> Connection<P> {
    /// Wraps an opened protocol together with the URL it was opened from.
    pub fn from_parts(protocol: P, url: &ParsedUrl) -> (r: Connection<P>)
        ensures
            r.protocol == protocol,
            r.url@ == url@.serialization,
    {
        Connection { url: Arc::new(url.serialization.clone()), protocol }
    }
}

impl<P> core::ops::Deref for Connection<P> {
    type Target = P;

    fn deref(&self) -> (r: &P)
        ensures
            *r == self.protocol,
    {
        &self.protocol
    }
}

impl<P> core::ops::DerefMut for Connection<P> {
    fn deref_mut(&mut self) -> (r: &mut P)
        ensures
            *r == old(self).protocol,
            final(self).protocol == *final(r),
            final(self).url == old(self).url,
    {
        &mut self.protocol
    }
}

/// Hands out connections to the server at one URL.
pub struct ConnectionManager {
    url: ParsedUrl,
}

impl View for ConnectionManager {
    type V = UrlView;

    closed spec fn view(&self) -> UrlView {
        self.url@
    }
}

/// The user name and password to authenticate with: both given in the URL's
/// authority, with a user name that is not empty.
pub open spec fn credentials_of(u: UrlView) -> Option<(Seq<char>, Seq<char>)> {
    if u.has_authority && u.username.len() > 0 && u.password is Some {
        Some((u.username, u.password->0))
    } else {
        None
    }
}

/// Credentials are offered only together: where they are, they are the
/// URL's user name (not empty) and password, and the URL has an authority;
/// where the URL has an authority, a non-empty user name and a password, they
/// are offered.
pub proof fn lemma_credentials(u: UrlView)
    ensures
        credentials_of(u) matches Some((n, p)) ==> u.has_authority && n == u.username && n.len() > 0
            && u.password == Some(p),
        u.has_authority && u.username.len() > 0 && u.password is Some ==> credentials_of(u) is Some,
{
}

impl ConnectionManager {
    /// A manager for connections to the server at `url`.
    pub fn new(url: ParsedUrl) -> (r: ConnectionManager)
        ensures
            r@ == url@,
    {
        ConnectionManager { url }
    }

    /// The URL that connections are opened from.
    pub fn url(&self) -> (r: &ParsedUrl)
        ensures
            r@ == self@,
    {
        &self.url
    }

    /// The credentials that a fresh connection authenticates with, if any.
    pub fn credentials(&self) -> (r: Option<(String, String)>)
        ensures
            r.deep_view() == credentials_of(self@),
    {
        let url = &self.url;
        if url.has_authority && !url.username.as_str().is_empty() {
            match &url.password {
                Some(p) => Some((url.username.clone(), p.clone())),
                None => None,
            }
        } else {
            None
        }
    }
}

/// Where a connection goes: the socket to open and what it needs.
pub enum Endpoint {
    Tcp(TcpOptions),
    Udp(UdpOptions),
    /// A Unix socket at the URL's path.
    Unix(String),
    /// TLS over TCP to `host`.
    Tls { host: String, options: TlsOptions },
}

pub enum EndpointView {
    Tcp(TcpOptionsView),
    Udp(UdpOptionsView),
    Unix(Seq<char>),
    Tls { host: Seq<char>, options: TlsOptionsView },
}

impl View for Endpoint {
    type V = EndpointView;

    open spec fn view(&self) -> EndpointView {
        match self {
            Endpoint::Tcp(o) => EndpointView::Tcp(o@),
            Endpoint::Udp(o) => EndpointView::Udp(o@),
            Endpoint::Unix(p) => EndpointView::Unix(p@),
            Endpoint::Tls { host, options } => EndpointView::Tls { host: host@, options: options@ },
        }
    }
}

/// One step of opening a connection.
pub enum ConnectStep {
    /// Build the TLS client configuration.
    ConfigureTls(TlsSetup),
    /// Check the TLS server name for this host.
    NameServer(String),
    /// Open a TCP socket.
    OpenTcp(TcpOptions),
    /// Open a UDP socket.
    OpenUdp(UdpOptions),
    /// Open the Unix socket at this path.
    OpenUnix(String),
    /// Start TLS over the TCP socket just opened, with the configuration and
    /// the server name of the earlier steps.
    StartTls,
}

pub enum ConnectStepView {
    ConfigureTls(TlsSetupView),
    NameServer(Seq<char>),
    OpenTcp(TcpOptionsView),
    OpenUdp(UdpOptionsView),
    OpenUnix(Seq<char>),
    StartTls,
}

impl View for ConnectStep {
    type V = ConnectStepView;

    open spec fn view(&self) -> ConnectStepView {
        match self {
            ConnectStep::ConfigureTls(s) => ConnectStepView::ConfigureTls(s@),
            ConnectStep::NameServer(h) => ConnectStepView::NameServer(h@),
            ConnectStep::OpenTcp(o) => ConnectStepView::OpenTcp(o@),
            ConnectStep::OpenUdp(o) => ConnectStepView::OpenUdp(o@),
            ConnectStep::OpenUnix(p) => ConnectStepView::OpenUnix(p@),
            ConnectStep::StartTls => ConnectStepView::StartTls,
        }
    }
}

/// The steps that open a connection to an endpoint, in order. For TLS the
/// client configuration is built and the server name checked before the TCP
/// socket is opened.
pub open spec fn steps_of(e: EndpointView) -> Seq<ConnectStepView> {
    match e {
        EndpointView::Tcp(o) => seq![ConnectStepView::OpenTcp(o)],
        EndpointView::Udp(o) => seq![ConnectStepView::OpenUdp(o)],
        EndpointView::Unix(p) => seq![ConnectStepView::OpenUnix(p)],
        EndpointView::Tls { host, options } => seq![
            ConnectStepView::ConfigureTls(setup_of(options)),
            ConnectStepView::NameServer(host),
            ConnectStepView::OpenTcp(options.tcp_options),
            ConnectStepView::StartTls,
        ],
    }
}

/// Whether a step opens a socket.
pub open spec fn opens_socket(s: ConnectStepView) -> bool {
    s is OpenTcp || s is OpenUdp || s is OpenUnix
}

/// Whether a step checks the TLS set-up.
pub open spec fn checks_tls(s: ConnectStepView) -> bool {
    s is ConfigureTls || s is NameServer
}

/// For every endpoint exactly one step opens a socket, and every TLS check
/// comes before it: a refused TLS set-up or server name opens no socket.
pub proof fn lemma_tls_checked_before_socket(e: EndpointView)
    ensures
        forall|i: int, j: int|
            0 <= i < steps_of(e).len() && 0 <= j < steps_of(e).len() && opens_socket(
                #[trigger] steps_of(e)[i],
            ) && checks_tls(#[trigger] steps_of(e)[j]) ==> j < i,
        forall|i: int, j: int|
            0 <= i < steps_of(e).len() && 0 <= j < steps_of(e).len() && opens_socket(
                #[trigger] steps_of(e)[i],
            ) && opens_socket(#[trigger] steps_of(e)[j]) ==> i == j,
        exists|i: int| 0 <= i < steps_of(e).len() && opens_socket(#[trigger] steps_of(e)[i]),
{
    match e {
        EndpointView::Tls { host, options } => {
            assert(opens_socket(steps_of(e)[2]));
        },
        _ => {
            assert(opens_socket(steps_of(e)[0]));
        },
    }
}

/// Each step carries what its endpoint holds, unchanged: the UDP, TCP or
/// Unix socket step of a plain endpoint carries its options or path; for TLS,
/// the TCP step carries the TLS options' TCP options, the name step the host,
/// and the configuration step the set-up of those options.
pub proof fn lemma_steps_carry_endpoint(e: EndpointView)
    ensures
        forall|i: int| 0 <= i < steps_of(e).len() ==> match #[trigger] steps_of(e)[i] {
            ConnectStepView::OpenUdp(o) => e == EndpointView::Udp(o),
            ConnectStepView::OpenUnix(p) => e == EndpointView::Unix(p),
            ConnectStepView::OpenTcp(o) => e == EndpointView::Tcp(o) || (e matches EndpointView::Tls {
                options,
                ..
            } && o == options.tcp_options),
            ConnectStepView::NameServer(h) => e matches EndpointView::Tls { host, .. } && h == host,
            ConnectStepView::ConfigureTls(s) => e matches EndpointView::Tls { options, .. } && s
                == setup_of(options),
            ConnectStepView::StartTls => e is Tls,
        },
        e matches EndpointView::Udp(o) ==> steps_of(e).contains(ConnectStepView::OpenUdp(o)),
        e matches EndpointView::Tcp(o) ==> steps_of(e).contains(ConnectStepView::OpenTcp(o)),
        e matches EndpointView::Unix(p) ==> steps_of(e).contains(ConnectStepView::OpenUnix(p)),
        e matches EndpointView::Tls { host, options } ==> steps_of(e).contains(
            ConnectStepView::OpenTcp(options.tcp_options),
        ) && steps_of(e).contains(ConnectStepView::NameServer(host)),
{
    match e {
        EndpointView::Tls { host, options } => {
            assert(steps_of(e)[2] == ConnectStepView::OpenTcp(options.tcp_options));
            assert(steps_of(e)[1] == ConnectStepView::NameServer(host));
        },
        EndpointView::Udp(o) => {
            assert(steps_of(e)[0] == ConnectStepView::OpenUdp(o));
        },
        EndpointView::Tcp(o) => {
            assert(steps_of(e)[0] == ConnectStepView::OpenTcp(o));
        },
        EndpointView::Unix(p) => {
            assert(steps_of(e)[0] == ConnectStepView::OpenUnix(p));
        },
    }
}

impl Endpoint {
    /// The steps that open a connection to this endpoint, in order.
    pub fn into_steps(self) -> (r: Vec<ConnectStep>)
        ensures
            r@.map_values(|s: ConnectStep| s@) == steps_of(self@),
    {
        let ghost e = self@;
        let mut steps: Vec<ConnectStep> = Vec::new();
        match self {
            Endpoint::Tcp(o) => steps.push(ConnectStep::OpenTcp(o)),
            Endpoint::Udp(o) => steps.push(ConnectStep::OpenUdp(o)),
            Endpoint::Unix(p) => steps.push(ConnectStep::OpenUnix(p)),
            Endpoint::Tls { host, options } => {
                steps.push(ConnectStep::ConfigureTls(options.setup()));
                steps.push(ConnectStep::NameServer(host));
                steps.push(ConnectStep::OpenTcp(options.tcp_options));
                steps.push(ConnectStep::StartTls);
            },
        }
        assert(steps@.map_values(|s: ConnectStep| s@) =~= steps_of(e));
        steps
    }
}

/// What opening a connection to a URL takes: where to connect, and whether
/// the ASCII protocol is spoken there (else the binary one).
pub struct ConnectPlan {
    pub endpoint: Endpoint,
    pub ascii: bool,
}

pub struct ConnectPlanView {
    pub endpoint: EndpointView,
    pub ascii: bool,
}

impl View for ConnectPlan {
    type V = ConnectPlanView;

    open spec fn view(&self) -> ConnectPlanView {
        ConnectPlanView { endpoint: self.endpoint@, ascii: self.ascii }
    }
}

/// The endpoint of a transport for a URL: a Unix socket at the URL's path, and
/// TLS at the URL's host, which it must have.
pub open spec fn endpoint_of(u: UrlView, t: TransportView) -> Result<EndpointView, Seq<char>> {
    match t {
        TransportView::Tcp(o) => Ok(EndpointView::Tcp(o)),
        TransportView::Udp(o) => Ok(EndpointView::Udp(o)),
        TransportView::Unix => Ok(EndpointView::Unix(u.path)),
        TransportView::Tls(o) => match u.host {
            Some(h) => Ok(EndpointView::Tls { host: h, options: o }),
            None => Err("host required for TLS connection"@),
        },
    }
}

/// The plan for connecting to a URL, or the message of the error.
pub open spec fn plan_of(u: UrlView) -> Result<ConnectPlanView, Seq<char>> {
    match transport_of(u) {
        Err(m) => Err(m),
        Ok(t) => match endpoint_of(u, t) {
            Err(m) => Err(m),
            Ok(e) => Ok(ConnectPlanView { endpoint: e, ascii: has_pair(u.query_pairs, "protocol"@, "ascii"@) }),
        },
    }
}

/// The protocol is ASCII exactly where the query holds `protocol=ascii`,
/// whatever the endpoint. A plan is made exactly where the transport is
/// accepted and, for TLS, the URL has a host; a Unix endpoint is at the URL's
/// path and a TLS one at its host.
pub proof fn lemma_plan_from_url(u: UrlView)
    ensures
        plan_of(u) matches Ok(p) ==> p.ascii == has_pair(u.query_pairs, "protocol"@, "ascii"@),
        plan_of(u) is Ok <==> (transport_of(u) is Ok && !(transport_of(u) matches Ok(TransportView::Tls(_))
            && u.host is None)),
        plan_of(u) matches Ok(p) ==> (p.endpoint matches EndpointView::Unix(path) ==> path == u.path),
        plan_of(u) matches Ok(p) ==> (p.endpoint matches EndpointView::Tls { host, .. } ==> u.host
            == Some(host)),
{
}

impl ConnectPlan {
    /// Decides how to connect to the server at `url`.
    pub fn from_url(url: &ParsedUrl) -> (res: Result<ConnectPlan, MemcacheError>)
        ensures
            outcome_is(res, plan_of(url@)),
    {
        let transport = match Transport::from_url(url) {
            Ok(t) => t,
            Err(e) => return Err(e),
        };
        let ascii = url.has_query_pair("protocol", "ascii");
        let endpoint = match transport {
            Transport::Tcp(o) => Endpoint::Tcp(o),
            Transport::Udp(o) => Endpoint::Udp(o),
            Transport::Unix => Endpoint::Unix(url.path.clone()),
            Transport::Tls(options) => match &url.host {
                Some(h) => Endpoint::Tls { host: h.clone(), options },
                None => return Err(MemcacheError::bad_url("host required for TLS connection")),
            },
        };
        Ok(ConnectPlan { endpoint, ascii })
    }
}

} // verus!
