//! The request executor's two verified halves. Before the call: merge the
//! consistency parameters and build the full request URL. After the call:
//! extract the change index, judge the status code for the call shape used
//! (read-one, read-many, write), and shape the result metadata. The HTTP
//! round trip itself sits between the halves, outside this crate.
use vstd::prelude::*;

use crate::common::{opt_string_view, QueryMeta, QueryOptions, WriteMeta, WriteOptions};
use crate::errors::{Error, ResponseError};
use crate::headers::{
    index_extraction_error, index_extraction_ok, index_extraction_value, parse_consul_index,
    Headers,
};
use crate::params::{
    fill_query_params, fill_write_params, q_dc, q_index, q_wait, query_additions, w_dc,
    write_additions,
};
use crate::urls::{joined_url, pairs_view, with_query};
use crate::Config;

verus! {

/// The HTTP method of a prepared request.
#[derive(Clone, Copy, Debug, PartialEq, Eq, Structural)]
pub enum HttpMethod {
    Get,
    Put,
}

/// An outbound request, ready for a transport to send.
#[derive(Clone, Debug)]
pub struct PreparedRequest {
    /// The method to use.
    pub method: HttpMethod,
    /// The full request URL, query string included.
    pub url: String,
    /// The JSON text to attach as the request body; `None` attaches no
    /// payload at all.
    pub body: Option<String>,
}

/// An HTTP response as plain values, as the transport got it back.
#[derive(Clone, Debug)]
pub struct HttpResponse {
    /// The status code.
    pub status: u16,
    /// The response headers, names lowercase.
    pub headers: Headers,
    /// The response body, as text.
    pub body: String,
}

/// Whether a status code is acceptable: a 2xx success.
pub open spec fn is_success_status(status: u16) -> bool {
    200 <= status && status < 300
}

/// The URL of a request: the relative path joined onto the base address,
/// with the given pairs as the query string.
pub open spec fn request_url(
    address: Seq<char>,
    path: Seq<char>,
    pairs: Seq<(Seq<char>, Seq<char>)>,
) -> Option<Seq<char>> {
    match joined_url(address, path) {
        Some(j) => with_query(j, pairs),
        None => None,
    }
}

/// Builds a read-path request: merges the consistency parameters after the
/// base pairs and resolves the URL. No body is attached to a read.
pub fn prepare_get(
    config: &Config,
    path: &str,
    params: Vec<(String, String)>,
    options: Option<&QueryOptions>,
) -> (r: Result<PreparedRequest, Error>)
    ensures
        ({
            let pairs = pairs_view(params@) + query_additions(
                opt_string_view(config.datacenter),
                q_dc(options),
                q_index(options),
                q_wait(options),
            );
            match r {
                Ok(p) => request_url(config.address@, path@, pairs) == Some(p.url@) && p.method
                    == HttpMethod::Get && p.body is None,
                Err(e) => request_url(config.address@, path@, pairs) is None && e
                    == Error::InvalidConsulEndpoint,
            }
        }),
{
    let mut params = params;
    fill_query_params(&mut params, config, options);
    match crate::urls::join_url(config.address.as_str(), path) {
        None => Err(Error::InvalidConsulEndpoint),
        Some(joined) => match crate::urls::url_with_query(joined.as_str(), &params) {
            None => Err(Error::InvalidConsulEndpoint),
            Some(url) => Ok(PreparedRequest { method: HttpMethod::Get, url, body: None }),
        },
    }
}

/// Builds a write-path request: merges the write-path parameters (only the
/// datacenter) after the base pairs, resolves the URL, and attaches the
/// JSON body exactly as supplied — none at all when none is supplied.
pub fn prepare_put(
    config: &Config,
    path: &str,
    body: Option<String>,
    params: Vec<(String, String)>,
    options: Option<&WriteOptions>,
) -> (r: Result<PreparedRequest, Error>)
    ensures
        ({
            let pairs = pairs_view(params@) + write_additions(
                opt_string_view(config.datacenter),
                w_dc(options),
            );
            match r {
                Ok(p) => request_url(config.address@, path@, pairs) == Some(p.url@) && p.method
                    == HttpMethod::Put && p.body == body,
                Err(e) => request_url(config.address@, path@, pairs) is None && e
                    == Error::InvalidConsulEndpoint,
            }
        }),
{
    let mut params = params;
    fill_write_params(&mut params, config, options);
    match crate::urls::join_url(config.address.as_str(), path) {
        None => Err(Error::InvalidConsulEndpoint),
        Some(joined) => match crate::urls::url_with_query(joined.as_str(), &params) {
            None => Err(Error::InvalidConsulEndpoint),
            Some(url) => Ok(PreparedRequest { method: HttpMethod::Put, url, body }),
        },
    }
}

/// Judges a read-one response: the change index is extracted first (a
/// malformed index header fails the call), then any non-2xx status — 404
/// included, a singular read is not sequence-shaped — is an unexpected
/// status. On success the body text is handed back for decoding, with the
/// call's metadata.
pub fn read_one_response(resp: &HttpResponse, elapsed_ms: u64) -> (r: Result<
    (String, QueryMeta),
    Error,
>)
    ensures
        !index_extraction_ok(resp.headers@) ==> (r matches Err(
            Error::ResponseError(ResponseError::InvalidHeaders(reasons)),
        ) && reasons@.len() == 1 && reasons@[0] == index_extraction_error(resp.headers@)),
        index_extraction_ok(resp.headers@) && !is_success_status(resp.status) ==> (r matches Err(
            Error::ResponseError(ResponseError::UnexpectedStatus { status, headers, body }),
        ) && status == resp.status && headers@ == resp.headers@ && body@ == resp.body@),
        index_extraction_ok(resp.headers@) && is_success_status(resp.status) ==> (r matches Ok(ok)
            && ok.0@ == resp.body@ && ok.1.last_index == index_extraction_value(resp.headers@)
            && ok.1.request_time == elapsed_ms),
{
    let last_index = match parse_consul_index(&resp.headers) {
        Ok(i) => i,
        Err(e) => {
            return Err(e);
        },
    };
    if !(200 <= resp.status && resp.status < 300) {
        return Err(
            Error::ResponseError(
                ResponseError::UnexpectedStatus {
                    status: resp.status,
                    headers: resp.headers.clone(),
                    body: resp.body.clone(),
                },
            ),
        );
    }
    Ok((resp.body.clone(), QueryMeta { last_index, request_time: elapsed_ms }))
}

/// What a read-many caller is to do with the body.
#[derive(Clone, Debug)]
pub enum ReadManyBody {
    /// Decode the body text as a sequence of items.
    Decode(String),
    /// The resource was not found: the result is an empty sequence, and the
    /// body — whatever it holds — is not consulted.
    Empty,
}

/// Judges a read-many response: the change index is extracted first, then
/// a `404 Not Found` — the query names no items — yields an empty sequence
/// rather than an error, whatever the body holds; any other non-2xx status
/// is unexpected. On success the body text is handed back for decoding.
pub fn read_many_response(resp: &HttpResponse, elapsed_ms: u64) -> (r: Result<
    (ReadManyBody, QueryMeta),
    Error,
>)
    ensures
        !index_extraction_ok(resp.headers@) ==> (r matches Err(
            Error::ResponseError(ResponseError::InvalidHeaders(reasons)),
        ) && reasons@.len() == 1 && reasons@[0] == index_extraction_error(resp.headers@)),
        index_extraction_ok(resp.headers@) && resp.status == 404 ==> (r matches Ok(ok)
            && ok.0 is Empty && ok.1.last_index == index_extraction_value(resp.headers@)
            && ok.1.request_time == elapsed_ms),
        index_extraction_ok(resp.headers@) && resp.status != 404 && !is_success_status(resp.status)
            ==> (r matches Err(
            Error::ResponseError(ResponseError::UnexpectedStatus { status, headers, body }),
        ) && status == resp.status && headers@ == resp.headers@ && body@ == resp.body@),
        index_extraction_ok(resp.headers@) && is_success_status(resp.status) ==> (r matches Ok(ok)
            && (ok.0 matches ReadManyBody::Decode(b) && b@ == resp.body@) && ok.1.last_index
            == index_extraction_value(resp.headers@) && ok.1.request_time == elapsed_ms),
{
    let last_index = match parse_consul_index(&resp.headers) {
        Ok(i) => i,
        Err(e) => {
            return Err(e);
        },
    };
    let meta = QueryMeta { last_index, request_time: elapsed_ms };
    if resp.status == 404 {
        return Ok((ReadManyBody::Empty, meta));
    }
    if !(200 <= resp.status && resp.status < 300) {
        return Err(
            Error::ResponseError(
                ResponseError::UnexpectedStatus {
                    status: resp.status,
                    headers: resp.headers.clone(),
                    body: resp.body.clone(),
                },
            ),
        );
    }
    Ok((ReadManyBody::Decode(resp.body.clone()), meta))
}

/// Judges a write response: any non-2xx status is unexpected; on success
/// the body text is handed back for decoding with the write's metadata.
/// No change index is extracted on the write path: the protocol does not
/// define one there.
pub fn write_response(resp: &HttpResponse, elapsed_ms: u64) -> (r: Result<
    (String, WriteMeta),
    Error,
>)
    ensures
        !is_success_status(resp.status) ==> (r matches Err(
            Error::ResponseError(ResponseError::UnexpectedStatus { status, headers, body }),
        ) && status == resp.status && headers@ == resp.headers@ && body@ == resp.body@),
        is_success_status(resp.status) ==> (r matches Ok(ok) && ok.0@ == resp.body@
            && ok.1.request_time == elapsed_ms),
{
    if !(200 <= resp.status && resp.status < 300) {
        return Err(
            Error::ResponseError(
                ResponseError::UnexpectedStatus {
                    status: resp.status,
                    headers: resp.headers.clone(),
                    body: resp.body.clone(),
                },
            ),
        );
    }
    Ok((resp.body.clone(), WriteMeta { request_time: elapsed_ms }))
}

/// Folds the outcome of decoding a read body into the call's result: a
/// decoded value is the success pair, a decode failure is an invalid
/// payload.
pub fn decode_read_result<R>(decoded: Option<R>, meta: QueryMeta) -> (r: Result<
    (R, QueryMeta),
    Error,
>)
    ensures
        decoded matches Some(v) ==> (r matches Ok(ok) && ok.0 == v && ok.1 == meta),
        decoded is None ==> r matches Err(Error::ResponseError(ResponseError::InvalidPayload)),
{
    match decoded {
        Some(v) => Ok((v, meta)),
        None => Err(Error::ResponseError(ResponseError::InvalidPayload)),
    }
}

/// Folds the outcome of decoding a write body into the call's result, as
/// `decode_read_result` does for reads.
pub fn decode_write_result<R>(decoded: Option<R>, meta: WriteMeta) -> (r: Result<
    (R, WriteMeta),
    Error,
>)
    ensures
        decoded matches Some(v) ==> (r matches Ok(ok) && ok.0 == v && ok.1 == meta),
        decoded is None ==> r matches Err(Error::ResponseError(ResponseError::InvalidPayload)),
{
    match decoded {
        Some(v) => Ok((v, meta)),
        None => Err(Error::ResponseError(ResponseError::InvalidPayload)),
    }
}

} // verus!
