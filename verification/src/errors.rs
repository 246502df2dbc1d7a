//! The error taxonomy: configuration, transport, and response-level
//! failures. Every kind is returned to the caller; none is swallowed or
//! retried inside this layer.
use vstd::prelude::*;

use crate::headers::Headers;

verus! {

/// Which check on an expected response header failed.
#[derive(Clone, Copy, Debug, PartialEq, Eq, Structural)]
pub enum HeaderError {
    /// The header's bytes were not valid UTF-8.
    InvalidUtf8,
    /// The header's text did not parse as an unsigned 64-bit integer.
    InvalidInteger,
}

impl HeaderError {
    /// A human-readable account of the failed check.
    pub fn message(&self) -> (m: &'static str)
        ensures
            *self is InvalidUtf8 ==> m@ == "Invalid UTF-8 in X-Consul-Index header"@,
            *self is InvalidInteger ==> m@ == "Failed to parse X-Consul-Index from header"@,
    {
        match self {
            HeaderError::InvalidUtf8 => "Invalid UTF-8 in X-Consul-Index header",
            HeaderError::InvalidInteger => "Failed to parse X-Consul-Index from header",
        }
    }
}

/// A failure found in the server's response.
#[derive(Clone, Debug, PartialEq, Eq)]
pub enum ResponseError {
    /// The status code was not acceptable for the call shape used; carries
    /// the raw status, headers and body for diagnostics.
    UnexpectedStatus { status: u16, headers: Headers, body: String },
    /// The response body could not be decoded into the expected shape.
    InvalidPayload,
    /// One or more expected response headers were absent or malformed.
    InvalidHeaders(Vec<HeaderError>),
}

/// A failure of a call, or of client configuration.
#[derive(Clone, Debug, PartialEq, Eq)]
pub enum Error {
    /// A required client configuration key was absent at build time.
    MissingClientConfig(&'static str),
    /// The configured address or a call's relative path failed to parse or
    /// join into a valid URL.
    InvalidConsulEndpoint,
    /// The underlying HTTP call failed; carries the transport's account.
    RequestError(String),
    /// The response itself was unacceptable.
    ResponseError(ResponseError),
}

/// `items` joined with a comma and a space between neighbours.
pub open spec fn comma_join(items: Seq<Seq<char>>) -> Seq<char>
    decreases items.len(),
{
    if items.len() == 0 {
        Seq::empty()
    } else if items.len() == 1 {
        items[0]
    } else {
        comma_join(items.drop_last()) + ", "@ + items.last()
    }
}

/// Joins the strings with `", "`, for diagnostic messages.
pub fn strs_to_str(strs: &[&'static str]) -> (r: String)
    ensures
        r@ == comma_join(strs@.map_values(|t: &'static str| t@)),
{
    let ghost views = strs@.map_values(|t: &'static str| t@);
    let mut r = String::new();
    let n = strs.len();
    let mut i: usize = 0;
    while i < n
        invariant
            n == strs@.len(),
            i <= n,
            views == strs@.map_values(|t: &'static str| t@),
            r@ == comma_join(views.take(i as int)),
        decreases n - i,
    {
        if i > 0 {
            crate::text::push_str(&mut r, ", ");
        }
        let piece: &'static str = strs[i];
        crate::text::push_str(&mut r, piece);
        proof {
            let upto = views.take(i as int);
            let next = views.take(i + 1 as int);
            assert(next.drop_last() =~= upto);
            assert(next.last() == views[i as int]);
            if i > 0 {
                assert(r@ == comma_join(upto) + ", "@ + views[i as int]);
            } else {
                assert(upto.len() == 0);
                assert(r@ =~= views[i as int]);
            }
        }
        i += 1;
    }
    proof {
        assert(views.take(n as int) =~= views);
    }
    r
}

} // verus!
