use vstd::prelude::*;
use vstd::string::*;

use crate::error::MemcacheError;

verus! {

/// The parts of an absolute URL that connection set-up reads, as plain values.
///
/// `query_pairs` holds the decoded `key=value` pairs of the query, in order.
pub struct ParsedUrl {
    pub serialization: String,
    pub scheme: String,
    pub has_authority: bool,
    pub username: String,
    pub password: Option<String>,
    pub host: Option<String>,
    pub port: Option<u16>,
    pub path: String,
    pub query_pairs: Vec<(String, String)>,
}

/// The mathematical value of a [`ParsedUrl`].
pub struct UrlView {
    pub serialization: Seq<char>,
    pub scheme: Seq<char>,
    pub has_authority: bool,
    pub username: Seq<char>,
    pub password: Option<Seq<char>>,
    pub host: Option<Seq<char>>,
    pub port: Option<u16>,
    pub path: Seq<char>,
    pub query_pairs: Seq<(Seq<char>, Seq<char>)>,
}

impl View for ParsedUrl {
    type V = UrlView;

    open spec fn view(&self) -> UrlView {
        UrlView {
            serialization: self.serialization@,
            scheme: self.scheme@,
            has_authority: self.has_authority,
            username: self.username@,
            password: self.password.deep_view(),
            host: self.host.deep_view(),
            port: self.port,
            path: self.path@,
            query_pairs: self.query_pairs.deep_view(),
        }
    }
}

/// What `url::Url::parse` makes of a text: `None` where it refuses the text,
/// else the URL's parts as the accessors of `url::Url` return them.
pub uninterp spec fn url_parse(input: Seq<char>) -> Option<UrlView>;

/// Calls `url::Url::parse` and reads the parsed URL's `as_str`, `scheme`,
/// `has_authority`, `username`, `password`, `host_str`, `port`, `path` and
/// `query_pairs` (keys and values decoded); `host_str` is `None` exactly where
/// `url::Url::host` is, as both test the same field. The contract claims that success and the
/// parts are a function of the text alone (named [`url_parse`]). Which
/// `url::ParseError` comes back on failure is not stated.
#[verifier::external_body]
fn parse_with_url_crate(input: &str) -> (res: Result<ParsedUrl, url::ParseError>)
    ensures
        res is Ok <==> url_parse(input@) is Some,
        res matches Ok(u) ==> u@ == url_parse(input@)->0,
{
    let u = url::Url::parse(input)?;
    Ok(ParsedUrl {
        serialization: u.as_str().to_string(),
        scheme: u.scheme().to_string(),
        has_authority: u.has_authority(),
        username: u.username().to_string(),
        password: u.password().map(|p| p.to_string()),
        host: u.host_str().map(|h| h.to_string()),
        port: u.port(),
        path: u.path().to_string(),
        query_pairs: u.query_pairs().map(|(k, v)| (k.into_owned(), v.into_owned())).collect(),
    })
}

/// The value of the first query pair whose key is `key`.
pub open spec fn first_value(pairs: Seq<(Seq<char>, Seq<char>)>, key: Seq<char>) -> Option<Seq<char>>
    decreases pairs.len(),
{
    if pairs.len() == 0 {
        None
    } else if pairs[0].0 == key {
        Some(pairs[0].1)
    } else {
        first_value(pairs.drop_first(), key)
    }
}

/// A query parameter's value is that of the first pair with its key: where
/// the lookup gives `v`, some pair is `key=v` and no pair before it has that
/// key; where it gives nothing, no pair has that key.
pub proof fn lemma_first_value(pairs: Seq<(Seq<char>, Seq<char>)>, key: Seq<char>)
    ensures
        first_value(pairs, key) matches Some(v) ==> exists|i: int|
            0 <= i < pairs.len() && pairs[i] == (key, v) && forall|j: int| 0 <= j < i ==> (#[trigger] pairs[j]).0 != key,
        first_value(pairs, key) is None ==> forall|j: int| 0 <= j < pairs.len() ==> (#[trigger] pairs[j]).0 != key,
    decreases pairs.len(),
{
    if pairs.len() > 0 {
        let rest = pairs.drop_first();
        lemma_first_value(rest, key);
        if pairs[0].0 != key {
            if let Some(v) = first_value(pairs, key) {
                let i = choose|i: int|
                    0 <= i < rest.len() && rest[i] == (key, v) && forall|j: int| 0 <= j < i ==> (#[trigger] rest[j]).0 != key;
                assert(pairs[i + 1] == (key, v));
                assert forall|j: int| 0 <= j < i + 1 implies (#[trigger] pairs[j]).0 != key by {
                    if j > 0 {
                        assert(pairs[j] == rest[j - 1]);
                    }
                }
            } else {
                assert forall|j: int| 0 <= j < pairs.len() implies (#[trigger] pairs[j]).0 != key by {
                    if j > 0 {
                        assert(pairs[j] == rest[j - 1]);
                    }
                }
            }
        } else {
            assert(pairs[0] == (key, pairs[0].1));
        }
    }
}

/// Whether the query holds the pair `key=value`.
pub open spec fn has_pair(pairs: Seq<(Seq<char>, Seq<char>)>, key: Seq<char>, value: Seq<char>) -> bool {
    exists|i: int| 0 <= i < pairs.len() && #[trigger] pairs[i] == (key, value)
}

/// Text equality between a `String` and a `str`.
pub fn text_eq(a: &String, b: &str) -> (r: bool)
    ensures
        r == (a@ == b@),
{
    *a == String::from_str(b)
}

impl ParsedUrl {
    /// Parses `input` as an absolute URL.
    pub fn parse(input: &str) -> (res: Result<ParsedUrl, MemcacheError>)
        ensures
            res is Ok <==> url_parse(input@) is Some,
            res matches Ok(u) ==> u@ == url_parse(input@)->0,
            res matches Err(e) ==> e is UrlParse,
    {
        match parse_with_url_crate(input) {
            Ok(u) => Ok(u),
            Err(e) => Err(MemcacheError::UrlParse(e)),
        }
    }

    /// The value of the first query parameter named `key`, if any.
    pub fn get_param(&self, key: &str) -> (r: Option<String>)
        ensures
            r.deep_view() == first_value(self@.query_pairs, key@),
    {
        let n = self.query_pairs.len();
        let ghost pairs = self@.query_pairs;
        let mut i: usize = 0;
        assert(pairs.skip(0) =~= pairs);
        while i < n
            invariant
                n == self.query_pairs.len(),
                pairs == self@.query_pairs,
                pairs.len() == n,
                i <= n,
                first_value(pairs, key@) == first_value(pairs.skip(i as int), key@),
            decreases n - i,
        {
            assert(pairs[i as int] == (self.query_pairs[i as int].0@, self.query_pairs[i as int].1@));
            assert(pairs.skip(i as int).drop_first() =~= pairs.skip(i + 1));
            if text_eq(&self.query_pairs[i].0, key) {
                return Some(self.query_pairs[i].1.clone());
            }
            i = i + 1;
        }
        assert(pairs.skip(n as int).len() == 0);
        None
    }

    /// Whether the query holds the pair `key=value`.
    pub fn has_query_pair(&self, key: &str, value: &str) -> (r: bool)
        ensures
            r == has_pair(self@.query_pairs, key@, value@),
    {
        let n = self.query_pairs.len();
        let ghost pairs = self@.query_pairs;
        let mut i: usize = 0;
        while i < n
            invariant
                n == self.query_pairs.len(),
                pairs == self@.query_pairs,
                pairs.len() == n,
                i <= n,
                forall|j: int| 0 <= j < i ==> pairs[j] != (key@, value@),
            decreases n - i,
        {
            assert(pairs[i as int] == (self.query_pairs[i as int].0@, self.query_pairs[i as int].1@));
            if text_eq(&self.query_pairs[i].0, key) && text_eq(&self.query_pairs[i].1, value) {
                return true;
            }
            i = i + 1;
        }
        false
    }
}

} // verus!
