//! The key/value store resource: its record shape and the request that
//! lists every entry under a prefix.
use vstd::prelude::*;

use crate::common::QueryOptions;
use crate::errors::Error;
use crate::params::{q_dc, q_index, q_wait, query_additions};
use crate::request::{prepare_get, request_url, HttpMethod, PreparedRequest};
use crate::urls::pairs_view;
use crate::common::opt_string_view;
use crate::Config;

verus! {

/// One key/value entry.
#[allow(non_snake_case)]
#[derive(Clone, Default, Eq, PartialEq, Debug)]
pub struct KVPair {
    pub Key: String,
    pub CreateIndex: Option<u64>,
    pub ModifyIndex: Option<u64>,
    pub LockIndex: Option<u64>,
    pub Flags: Option<u64>,
    pub Value: String,
    pub Session: Option<String>,
}

/// The fixed pair a key/value listing always sends: recurse below the
/// prefix.
pub open spec fn kv_list_base_pairs() -> Seq<(Seq<char>, Seq<char>)> {
    seq![("recurse"@, "true"@)]
}

/// Builds the read-many request that lists the entries under `prefix`:
/// path `/v1/kv/<prefix>`, with `recurse=true` ahead of the merged
/// consistency parameters.
pub fn kv_list_request(config: &Config, prefix: &str, options: Option<&QueryOptions>) -> (r:
    Result<PreparedRequest, Error>)
    ensures
        ({
            let pairs = kv_list_base_pairs() + query_additions(
                opt_string_view(config.datacenter),
                q_dc(options),
                q_index(options),
                q_wait(options),
            );
            let path = "/v1/kv/"@ + prefix@;
            match r {
                Ok(p) => request_url(config.address@, path, pairs) == Some(p.url@) && p.method
                    == HttpMethod::Get && p.body is None,
                Err(e) => request_url(config.address@, path, pairs) is None && e
                    == Error::InvalidConsulEndpoint,
            }
        }),
{
    let mut path = "/v1/kv/".to_owned();
    crate::text::push_str(&mut path, prefix);
    let mut params: Vec<(String, String)> = Vec::new();
    params.push(("recurse".to_owned(), "true".to_owned()));
    proof {
        assert(pairs_view(params@) =~= kv_list_base_pairs());
    }
    prepare_get(config, path.as_str(), params, options)
}

} // verus!
