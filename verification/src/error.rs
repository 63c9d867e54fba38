use vstd::prelude::*;

verus! {

/// The URL parser's error type, carried as it is inside [`MemcacheError`].
#[verifier::external_type_specification]
#[verifier::external_body]
pub struct ExUrlParseError(url::ParseError);

/// The standard I/O error, carried as it is inside [`MemcacheError`].
#[verifier::external_type_specification]
#[verifier::external_body]
pub struct ExIoError(std::io::Error);

/// Errors raised while reading a memcache URL or preparing a connection.
#[derive(Debug)]
pub enum MemcacheError {
    /// The URL is well formed but does not describe a usable connection.
    BadURL(String),
    /// The text is not a URL at all.
    UrlParse(url::ParseError),
    /// Reading or decoding key material failed.
    Io(std::io::Error),
}

impl MemcacheError {
    /// Builds a `BadURL` error from a message.
    pub fn bad_url(msg: &str) -> (e: MemcacheError)
        ensures
            e is BadURL,
            e->BadURL_0@ == msg@,
    {
        MemcacheError::BadURL(msg.to_owned())
    }
}

/// What a computation that may fail with `BadURL` was owed: the result's view,
/// or the message of the `BadURL` error.
pub open spec fn outcome_is<T: View>(res: Result<T, MemcacheError>, expected: Result<T::V, Seq<char>>) -> bool {
    match (res, expected) {
        (Ok(v), Ok(w)) => v@ == w,
        (Err(MemcacheError::BadURL(m)), Err(w)) => m@ == w,
        _ => false,
    }
}

} // verus!
