//! Response headers as plain values: a list of (name, raw bytes) pairs.
//!
//! Header names are held lowercase, as HTTP header names are
//! case-insensitive; whoever builds a `Headers` value from a transport's
//! header map is expected to lowercase the names.
use vstd::prelude::*;
use vstd::utf8::valid_utf8;

use crate::errors::{Error, HeaderError, ResponseError};
use crate::numbers::parse_u64_dec;

verus! {

/// The response headers of one HTTP call, in arrival order.
#[derive(Debug, PartialEq, Eq)]
pub struct Headers {
    entries: Vec<(String, Vec<u8>)>,
}

fn clone_bytes(v: &Vec<u8>) -> (r: Vec<u8>)
    ensures
        r@ == v@,
{
    let mut r: Vec<u8> = Vec::new();
    let n = v.len();
    let mut i: usize = 0;
    while i < n
        invariant
            n == v@.len(),
            i <= n,
            r@ == v@.take(i as int),
        decreases n - i,
    {
        r.push(v[i]);
        proof {
            assert(v@.take(i + 1 as int) =~= v@.take(i as int).push(v@[i as int]));
        }
        i += 1;
    }
    proof {
        assert(v@.take(n as int) =~= v@);
    }
    r
}

impl Clone for Headers {
    /// A copy with the same headers.
    fn clone(&self) -> (r: Self)
        ensures
            r@ == self@,
    {
        let mut entries: Vec<(String, Vec<u8>)> = Vec::new();
        let n = self.entries.len();
        let mut i: usize = 0;
        while i < n
            invariant
                n == self.entries@.len(),
                i <= n,
                entries@.len() == i,
                forall|j: int| 0 <= j < i ==> (#[trigger] entries@[j]).0@
                    == self.entries@[j].0@ && entries@[j].1@ == self.entries@[j].1@,
            decreases n - i,
        {
            let name = self.entries[i].0.clone();
            let value = clone_bytes(&self.entries[i].1);
            entries.push((name, value));
            i += 1;
        }
        let r = Headers { entries };
        proof {
            assert(r@ =~= self@);
        }
        r
    }
}

impl View for Headers {
    type V = Seq<(Seq<char>, Seq<u8>)>;

    closed spec fn view(&self) -> Self::V {
        self.entries@.map_values(|p: (String, Vec<u8>)| (p.0@, p.1@))
    }
}

/// The value of the first header named `name`, or `None` if there is none.
pub open spec fn header_lookup(h: Seq<(Seq<char>, Seq<u8>)>, name: Seq<char>) -> Option<Seq<u8>>
    decreases h.len(),
{
    if h.len() == 0 {
        None
    } else if h[0].0 == name {
        Some(h[0].1)
    } else {
        header_lookup(h.drop_first(), name)
    }
}

proof fn lemma_header_lookup_skip(h: Seq<(Seq<char>, Seq<u8>)>, name: Seq<char>, i: int)
    requires
        0 <= i <= h.len(),
        forall|j: int| 0 <= j < i ==> h[j].0 != name,
    ensures
        header_lookup(h, name) == header_lookup(h.skip(i), name),
    decreases i,
{
    if i > 0 {
        assert(h.skip(i - 1).drop_first() =~= h.skip(i));
        lemma_header_lookup_skip(h, name, i - 1);
        assert(h.skip(i - 1)[0] == h[i - 1]);
    } else {
        assert(h.skip(0) =~= h);
    }
}

impl Headers {
    /// An empty header list.
    pub fn new() -> (r: Headers)
        ensures
            r@ == Seq::<(Seq<char>, Seq<u8>)>::empty(),
    {
        let r = Headers { entries: Vec::new() };
        proof {
            assert(r@ =~= Seq::<(Seq<char>, Seq<u8>)>::empty());
        }
        r
    }

    /// Appends one header.
    pub fn push(&mut self, name: String, value: Vec<u8>)
        ensures
            final(self)@ == old(self)@.push((name@, value@)),
    {
        let ghost before = self@;
        let ghost p = (name, value);
        self.entries.push((name, value));
        proof {
            assert(self@ =~= before.push((p.0@, p.1@)));
        }
    }

    /// The value of the first header named `name`.
    pub fn get<'a>(&'a self, name: &str) -> (r: Option<&'a Vec<u8>>)
        ensures
            match r {
                Some(v) => header_lookup(self@, name@) == Some(v@),
                None => header_lookup(self@, name@) is None,
            },
    {
        let needle: String = name.to_owned();
        let n = self.entries.len();
        let mut i: usize = 0;
        while i < n
            invariant
                n == self.entries.len(),
                i <= n,
                needle@ == name@,
                forall|j: int| 0 <= j < i ==> self@[j].0 != name@,
            decreases n - i,
        {
            if self.entries[i].0 == needle {
                proof {
                    lemma_header_lookup_skip(self@, name@, i as int);
                    assert(self@.skip(i as int)[0] == self@[i as int]);
                }
                return Some(&self.entries[i].1);
            }
            assert(self@[i as int].0 == self.entries@[i as int].0@);
            i += 1;
        }
        proof {
            lemma_header_lookup_skip(self@, name@, n as int);
            assert(self@.skip(n as int).len() == 0);
        }
        None
    }
}

/// Whether reading the change-index header succeeds: it may be absent, but
/// when present it must be valid UTF-8 and parse as an unsigned 64-bit
/// decimal integer.
pub open spec fn index_extraction_ok(h: Seq<(Seq<char>, Seq<u8>)>) -> bool {
    match header_lookup(h, "x-consul-index"@) {
        None => true,
        Some(b) => valid_utf8(b) && parse_u64_dec(b) is Some,
    }
}

/// The change index the headers carry: `None` when the header is absent,
/// meaning the server did not report one.
pub open spec fn index_extraction_value(h: Seq<(Seq<char>, Seq<u8>)>) -> Option<u64> {
    match header_lookup(h, "x-consul-index"@) {
        None => None,
        Some(b) => parse_u64_dec(b),
    }
}

/// Which check failed, when extraction fails.
pub open spec fn index_extraction_error(h: Seq<(Seq<char>, Seq<u8>)>) -> HeaderError {
    match header_lookup(h, "x-consul-index"@) {
        Some(b) => if !valid_utf8(b) {
            HeaderError::InvalidUtf8
        } else {
            HeaderError::InvalidInteger
        },
        None => HeaderError::InvalidInteger,
    }
}

/// Reads the service's change-index response header: absent means "no
/// index" (not an error, not zero); present, it must be UTF-8 text holding
/// an unsigned 64-bit decimal integer. Only this one header is consulted:
/// no other header, however malformed, and never the body.
pub fn parse_consul_index(headers: &Headers) -> (r: Result<Option<u64>, Error>)
    ensures
        index_extraction_ok(headers@) ==> r == Ok::<Option<u64>, Error>(
            index_extraction_value(headers@),
        ),
        !index_extraction_ok(headers@) ==> (r matches Err(
            Error::ResponseError(ResponseError::InvalidHeaders(reasons)),
        ) && reasons@.len() == 1 && reasons@[0] == index_extraction_error(headers@)),
{
    match headers.get("x-consul-index") {
        None => Ok(None),
        Some(bytes) => {
            if !crate::encoding::check_utf8(bytes.as_slice()) {
                let mut reasons: Vec<HeaderError> = Vec::new();
                reasons.push(HeaderError::InvalidUtf8);
                Err(Error::ResponseError(ResponseError::InvalidHeaders(reasons)))
            } else {
                match crate::numbers::parse_u64_bytes(bytes.as_slice()) {
                    Some(v) => Ok(Some(v)),
                    None => {
                        let mut reasons: Vec<HeaderError> = Vec::new();
                        reasons.push(HeaderError::InvalidInteger);
                        Err(Error::ResponseError(ResponseError::InvalidHeaders(reasons)))
                    },
                }
            }
        },
    }
}

} // verus!
