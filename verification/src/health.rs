//! The health resource: its record shapes and the request that lists the
//! healthy (or all) instances of a service.
use std::collections::HashMap;

use vstd::prelude::*;

use crate::agent::AgentService;
use crate::common::{opt_string_view, QueryOptions};
use crate::errors::Error;
use crate::params::{lemma_pairs_view_push, q_dc, q_index, q_wait, query_additions};
use crate::request::{prepare_get, request_url, HttpMethod, PreparedRequest};
use crate::urls::pairs_view;
use crate::Config;

verus! {

/// A health check of a node or service instance.
#[allow(non_snake_case)]
#[derive(Eq, Default, PartialEq, Debug, Clone)]
pub struct HealthCheck {
    pub Node: String,
    pub CheckID: String,
    pub Name: String,
    pub Status: String,
    pub Notes: String,
    pub Output: String,
    pub ServiceID: String,
    pub ServiceName: String,
    pub ServiceTags: Option<Vec<String>>,
}

/// A node of the cluster.
#[allow(non_snake_case)]
#[derive(Eq, Default, PartialEq, Debug, Clone)]
pub struct Node {
    pub ID: String,
    pub Node: String,
    pub Address: String,
    pub Datacenter: Option<String>,
    pub TaggedAddresses: Option<HashMap<String, String>>,
    pub Meta: Option<HashMap<String, String>>,
    pub CreateIndex: u64,
    pub ModifyIndex: u64,
}

/// One service instance with its node and its checks.
#[allow(non_snake_case)]
#[derive(Eq, Default, PartialEq, Debug, Clone)]
pub struct ServiceEntry {
    pub Node: Node,
    pub Service: AgentService,
    pub Checks: Vec<HealthCheck>,
}

/// The character sequence of an optional string slice.
pub open spec fn opt_str_view(o: Option<&str>) -> Option<Seq<char>> {
    match o {
        Some(s) => Some(s@),
        None => None,
    }
}

/// The pairs a health-service listing adds to the caller's own: `passing=1`
/// when only passing instances are wanted, and the tag filter when one is
/// given.
pub open spec fn health_extra_pairs(passing_only: bool, tag: Option<Seq<char>>) -> Seq<
    (Seq<char>, Seq<char>),
> {
    (if passing_only {
        seq![("passing"@, "1"@)]
    } else {
        Seq::empty()
    }) + (match tag {
        Some(t) => seq![("tag"@, t)],
        None => Seq::empty(),
    })
}

/// Builds the read-many request that lists the instances of `service`:
/// path `/v1/health/service/<service>`, the caller's pairs first, then the
/// passing and tag filters, then the merged consistency parameters.
pub fn health_service_request(
    config: &Config,
    service: &str,
    tag: Option<&str>,
    passing_only: bool,
    params: Option<Vec<(String, String)>>,
    options: Option<&QueryOptions>,
) -> (r: Result<PreparedRequest, Error>)
    ensures
        ({
            let pairs = (match params {
                Some(p) => pairs_view(p@),
                None => Seq::empty(),
            }) + health_extra_pairs(passing_only, opt_str_view(tag)) + query_additions(
                opt_string_view(config.datacenter),
                q_dc(options),
                q_index(options),
                q_wait(options),
            );
            let path = "/v1/health/service/"@ + service@;
            match r {
                Ok(p) => request_url(config.address@, path, pairs) == Some(p.url@) && p.method
                    == HttpMethod::Get && p.body is None,
                Err(e) => request_url(config.address@, path, pairs) is None && e
                    == Error::InvalidConsulEndpoint,
            }
        }),
{
    let ghost base = (match &params {
        Some(p) => pairs_view(p@),
        None => Seq::<(Seq<char>, Seq<char>)>::empty(),
    });
    let mut p: Vec<(String, String)> = match params {
        Some(v) => v,
        None => Vec::new(),
    };
    proof {
        assert(pairs_view(p@) =~= base);
    }
    if passing_only {
        let ghost before = p@;
        let pair = ("passing".to_owned(), "1".to_owned());
        let ghost pairg = pair;
        p.push(pair);
        proof {
            lemma_pairs_view_push(before, pairg);
        }
    }
    if let Some(t) = tag {
        let ghost before = p@;
        let pair = ("tag".to_owned(), t.to_owned());
        let ghost pairg = pair;
        p.push(pair);
        proof {
            lemma_pairs_view_push(before, pairg);
        }
    }
    proof {
        assert(pairs_view(p@) =~= base + health_extra_pairs(passing_only, opt_str_view(tag)));
    }
    let mut path = "/v1/health/service/".to_owned();
    crate::text::push_str(&mut path, service);
    prepare_get(config, path.as_str(), p, options)
}

} // verus!
