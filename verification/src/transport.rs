use vstd::prelude::*;
use vstd::string::*;

use crate::error::{outcome_is, MemcacheError};
use crate::options::{
    tcp_options_of, tls_options_of, udp_options_of, TcpOptions, TcpOptionsView, TlsOptions,
    TlsOptionsView, UdpOptions, UdpOptionsView,
};
use crate::options::lemma_tls_options_from_query;
use crate::parsed_url::{first_value, has_pair, text_eq, ParsedUrl, UrlView};

verus! {

/// The kind of socket a memcache URL asks for, with its options.
pub enum Transport {
    Tcp(TcpOptions),
    Udp(UdpOptions),
    Unix,
    Tls(TlsOptions),
}

pub enum TransportView {
    Tcp(TcpOptionsView),
    Udp(UdpOptionsView),
    Unix,
    Tls(TlsOptionsView),
}

impl View for Transport {
    type V = TransportView;

    open spec fn view(&self) -> TransportView {
        match self {
            Transport::Tcp(o) => TransportView::Tcp(o@),
            Transport::Udp(o) => TransportView::Udp(o@),
            Transport::Unix => TransportView::Unix,
            Transport::Tls(o) => TransportView::Tls(o@),
        }
    }
}

/// Whether `i` is the position of the first `+` in `s`.
pub open spec fn is_first_plus(s: Seq<char>, i: int) -> bool {
    &&& 0 <= i < s.len()
    &&& s[i] == '+'
    &&& forall|j: int| 0 <= j < i ==> s[j] != '+'
}

/// The scheme cut at its first `+`: the part before it, and the part after
/// it where there is one.
pub open spec fn split_scheme(s: Seq<char>) -> (Seq<char>, Option<Seq<char>>) {
    if exists|i: int| is_first_plus(s, i) {
        let i = choose|i: int| is_first_plus(s, i);
        (s.take(i), Some(s.skip(i + 1)))
    } else {
        (s, None)
    }
}

/// Cutting at the first `+`: where there is one, the scheme is the head, a
/// `+` and the tail, and the head holds no `+`; where there is none, the head
/// is the whole scheme.
pub proof fn lemma_split_scheme(s: Seq<char>)
    ensures
        split_scheme(s).1 matches Some(t) ==> s =~= split_scheme(s).0 + seq!['+'] + t && !split_scheme(
            s,
        ).0.contains('+'),
        split_scheme(s).1 is None ==> split_scheme(s).0 == s && !s.contains('+'),
{
    if exists|i: int| is_first_plus(s, i) {
        let i = choose|i: int| is_first_plus(s, i);
        assert(s =~= s.take(i) + seq!['+'] + s.skip(i + 1));
        assert(!s.take(i).contains('+'));
    } else {
        if s.contains('+') {
            let k = choose|k: int| 0 <= k < s.len() && s[k] == '+';
            lemma_first_plus_exists(s, k);
            let m = choose|m: int| 0 <= m <= k && s[m] == '+' && forall|j: int| 0 <= j < m ==> s[j] != '+';
            assert(is_first_plus(s, m));
        }
    }
}

proof fn lemma_first_plus_exists(s: Seq<char>, k: int)
    requires
        0 <= k < s.len(),
        s[k] == '+',
    ensures
        exists|m: int| 0 <= m <= k && s[m] == '+' && forall|j: int| 0 <= j < m ==> s[j] != '+',
    decreases k,
{
    if exists|j: int| 0 <= j < k && s[j] == '+' {
        let j = choose|j: int| 0 <= j < k && s[j] == '+';
        lemma_first_plus_exists(s, j);
    } else {
        assert(forall|j: int| 0 <= j < k ==> s[j] != '+');
    }
}

/// The transport that a memcache URL asks for, or the message of the error.
///
/// The scheme must be `memcache` or `memcache+<kind>`. The kind, where given,
/// decides. Without it, `udp=true` in the query asks for UDP, a URL without
/// host and port asks for a Unix socket, and any other for TCP.
pub open spec fn transport_of(u: UrlView) -> Result<TransportView, Seq<char>> {
    let (head, tail) = split_scheme(u.scheme);
    if head != "memcache"@ {
        Err("memcache URL's scheme should start with 'memcache'"@)
    } else {
        match tail {
            Some(kind) => if kind == "tcp"@ {
                Ok(TransportView::Tcp(tcp_options_of(u)))
            } else if kind == "udp"@ {
                Ok(TransportView::Udp(udp_options_of(u)))
            } else if kind == "unix"@ {
                Ok(TransportView::Unix)
            } else if kind == "tls"@ {
                match tls_options_of(u) {
                    Ok(o) => Ok(TransportView::Tls(o)),
                    Err(m) => Err(m),
                }
            } else {
                Err("memcache URL's scheme should be 'memcache+tcp' or 'memcache+udp' or 'memcache+unix' or 'memcache+tls'"@)
            },
            None => if has_pair(u.query_pairs, "udp"@, "true"@) {
                Ok(TransportView::Udp(udp_options_of(u)))
            } else if u.host is None && u.port is None {
                Ok(TransportView::Unix)
            } else {
                Ok(TransportView::Tcp(tcp_options_of(u)))
            },
        }
    }
}

/// Whether two transports are of the same kind, options aside.
pub open spec fn same_kind(a: TransportView, b: TransportView) -> bool {
    match (a, b) {
        (TransportView::Tcp(_), TransportView::Tcp(_)) => true,
        (TransportView::Udp(_), TransportView::Udp(_)) => true,
        (TransportView::Unix, TransportView::Unix) => true,
        (TransportView::Tls(_), TransportView::Tls(_)) => true,
        _ => false,
    }
}

/// The scheme comes first: where two URLs share a scheme that names the kind
/// of transport (`memcache+<kind>`), neither the query (its `udp` flag among
/// the rest) nor the host and port change the kind they get; and unless the
/// kind is `tls`, whose options may be refused, both are accepted or both
/// refused.
pub proof fn lemma_scheme_kind_decides(u1: UrlView, u2: UrlView)
    requires
        u1.scheme == u2.scheme,
        split_scheme(u1.scheme).1 is Some,
    ensures
        transport_of(u1) is Ok && transport_of(u2) is Ok ==> same_kind(
            transport_of(u1)->Ok_0,
            transport_of(u2)->Ok_0,
        ),
        split_scheme(u1.scheme).1 != Some("tls"@) ==> (transport_of(u1) is Ok <==> transport_of(u2) is Ok),
{
}

/// Every TLS transport read from a URL has a client key exactly where it has
/// a client certificate.
pub proof fn lemma_tls_key_with_cert(u: UrlView)
    ensures
        transport_of(u) matches Ok(TransportView::Tls(o)) ==> (o.key_path is Some <==> o.cert_path is Some),
{
}

/// Whatever chose the kind (the scheme or, without a kind there, the query
/// and the host), a transport's options are read from the query alone: TCP
/// gets the first `timeout` value and nodelay off exactly with
/// `tcp_nodelay=false`; UDP binds to the first `bind` value; TLS gets the same
/// TCP options, and each of its paths is the first value of its parameter.
pub proof fn lemma_transport_options_from_query(u: UrlView)
    ensures
        transport_of(u) matches Ok(TransportView::Tcp(o)) ==> o.timeout == first_value(
            u.query_pairs,
            "timeout"@,
        ) && o.nodelay == !has_pair(u.query_pairs, "tcp_nodelay"@, "false"@),
        transport_of(u) matches Ok(TransportView::Udp(o)) ==> o.bind_addr == first_value(
            u.query_pairs,
            "bind"@,
        ),
        transport_of(u) matches Ok(TransportView::Tls(o)) ==> {
            &&& o.tcp_options.timeout == first_value(u.query_pairs, "timeout"@)
            &&& o.tcp_options.nodelay == !has_pair(u.query_pairs, "tcp_nodelay"@, "false"@)
            &&& o.ca_path == first_value(u.query_pairs, "ca_path"@)
            &&& o.key_path == first_value(u.query_pairs, "key_path"@)
            &&& o.cert_path == first_value(u.query_pairs, "cert_path"@)
        },
{
    lemma_tls_options_from_query(u);
}

/// The kind a URL gets: `memcache+tcp`, `+udp`, `+unix` give that kind;
/// `+tls` gives TLS unless its options are refused; any other kind, or a
/// scheme that does not start with `memcache`, is refused. With the bare
/// `memcache` scheme, `udp=true` gives UDP; else a URL with neither host nor
/// port gives a Unix socket, and any other URL TCP.
pub proof fn lemma_transport_kind(u: UrlView)
    ensures
        split_scheme(u.scheme).0 != "memcache"@ ==> transport_of(u) is Err,
        split_scheme(u.scheme) == ("memcache"@, Some("tcp"@)) ==> transport_of(u) matches Ok(
            TransportView::Tcp(_),
        ),
        split_scheme(u.scheme) == ("memcache"@, Some("udp"@)) ==> transport_of(u) matches Ok(
            TransportView::Udp(_),
        ),
        split_scheme(u.scheme) == ("memcache"@, Some("unix"@)) ==> transport_of(u) matches Ok(
            TransportView::Unix,
        ),
        split_scheme(u.scheme) == ("memcache"@, Some("tls"@)) ==> (transport_of(u) is Err || transport_of(
            u,
        ) matches Ok(TransportView::Tls(_))),
        split_scheme(u.scheme).1 matches Some(k) && k != "tcp"@ && k != "udp"@ && k != "unix"@ && k
            != "tls"@ ==> transport_of(u) is Err,
        split_scheme(u.scheme) == ("memcache"@, None::<Seq<char>>) ==> {
            &&& has_pair(u.query_pairs, "udp"@, "true"@) ==> (transport_of(u) matches Ok(
                TransportView::Udp(_),
            ))
            &&& !has_pair(u.query_pairs, "udp"@, "true"@) && u.host is None && u.port is None
                ==> (transport_of(u) matches Ok(TransportView::Unix))
            &&& !has_pair(u.query_pairs, "udp"@, "true"@) && !(u.host is None && u.port is None)
                ==> (transport_of(u) matches Ok(TransportView::Tcp(_)))
        },
{
    reveal_strlit("tcp");
    reveal_strlit("udp");
    reveal_strlit("unix");
    reveal_strlit("tls");
    assert("tcp"@ =~= seq!['t', 'c', 'p']);
    assert("udp"@ =~= seq!['u', 'd', 'p']);
    assert("unix"@ =~= seq!['u', 'n', 'i', 'x']);
    assert("tls"@ =~= seq!['t', 'l', 's']);
}

/// Cuts `s` at its first `+`.
pub fn split_once_plus(s: &str) -> (r: (String, Option<String>))
    ensures
        r.0@ == split_scheme(s@).0,
        r.1.deep_view() == split_scheme(s@).1,
{
    let n = s.unicode_len();
    let mut i: usize = 0;
    while i < n
        invariant
            n == s@.len(),
            i <= n,
            forall|j: int| 0 <= j < i ==> s@[j] != '+',
        decreases n - i,
    {
        if s.get_char(i) == '+' {
            proof {
                assert(is_first_plus(s@, i as int));
                let k = choose|k: int| is_first_plus(s@, k);
                assert(k == i as int);
            }
            let head = s.substring_char(0, i);
            let tail = s.substring_char(i + 1, n);
            proof {
                assert(head@ =~= s@.take(i as int));
                assert(tail@ =~= s@.skip(i + 1));
            }
            return (head.to_owned(), Some(tail.to_owned()));
        }
        i = i + 1;
    }
    (s.to_owned(), None)
}

impl Transport {
    /// Reads the transport and its options from a memcache URL.
    pub fn from_url(url: &ParsedUrl) -> (res: Result<Transport, MemcacheError>)
        ensures
            outcome_is(res, transport_of(url@)),
    {
        let (head, tail) = split_once_plus(url.scheme.as_str());
        if !text_eq(&head, "memcache") {
            return Err(MemcacheError::bad_url("memcache URL's scheme should start with 'memcache'"));
        }
        // the kind named in the scheme comes before anything in the query
        if let Some(kind) = tail {
            if text_eq(&kind, "tcp") {
                return Ok(Transport::Tcp(TcpOptions::from_url(url)));
            } else if text_eq(&kind, "udp") {
                return Ok(Transport::Udp(UdpOptions::from_url(url)));
            } else if text_eq(&kind, "unix") {
                return Ok(Transport::Unix);
            } else if text_eq(&kind, "tls") {
                return match TlsOptions::from_url(url) {
                    Ok(o) => Ok(Transport::Tls(o)),
                    Err(e) => Err(e),
                };
            } else {
                return Err(MemcacheError::bad_url(
                    "memcache URL's scheme should be 'memcache+tcp' or 'memcache+udp' or 'memcache+unix' or 'memcache+tls'",
                ));
            }
        }
        if url.has_query_pair("udp", "true") {
            return Ok(Transport::Udp(UdpOptions::from_url(url)));
        }
        if url.host.is_none() && url.port.is_none() {
            return Ok(Transport::Unix);
        }
        Ok(Transport::Tcp(TcpOptions::from_url(url)))
    }
}

} // verus!
