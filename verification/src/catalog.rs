//! The catalog resource: the registration record and the request that
//! registers a node, service or check.
use std::collections::HashMap;

use vstd::prelude::*;

use crate::agent::{AgentCheck, AgentService};
use crate::common::{opt_string_view, WriteOptions};
use crate::errors::Error;
use crate::params::{w_dc, write_additions};
use crate::request::{prepare_put, request_url, HttpMethod, PreparedRequest};
use crate::urls::pairs_view;
use crate::Config;

verus! {

/// A catalog registration record.
#[allow(non_snake_case)]
#[derive(Eq, Default, PartialEq, Debug)]
pub struct CatalogRegistration {
    pub ID: String,
    pub Node: String,
    pub Address: String,
    pub TaggedAddresses: HashMap<String, String>,
    pub NodeMeta: HashMap<String, String>,
    pub Datacenter: String,
    pub Service: Option<AgentService>,
    pub Check: Option<AgentCheck>,
    pub SkipNodeUpdate: bool,
}

/// Builds the write request that registers `body` — the registration
/// record, already encoded as JSON text — at `/v1/catalog/register`, with
/// the write-path parameters merged in.
pub fn register_request(config: &Config, body: String, options: Option<&WriteOptions>) -> (r:
    Result<PreparedRequest, Error>)
    ensures
        ({
            let pairs = write_additions(opt_string_view(config.datacenter), w_dc(options));
            match r {
                Ok(p) => request_url(config.address@, "/v1/catalog/register"@, pairs) == Some(
                    p.url@,
                ) && p.method == HttpMethod::Put && p.body == Some(body),
                Err(e) => request_url(config.address@, "/v1/catalog/register"@, pairs) is None
                    && e == Error::InvalidConsulEndpoint,
            }
        }),
{
    let params: Vec<(String, String)> = Vec::new();
    proof {
        assert(pairs_view(params@) + write_additions(
            opt_string_view(config.datacenter),
            w_dc(options),
        ) =~= write_additions(opt_string_view(config.datacenter), w_dc(options)));
    }
    prepare_put(config, "/v1/catalog/register", Some(body), params, options)
}

} // verus!
