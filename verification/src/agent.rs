//! Records describing what an agent knows of a service and its checks, as
//! the service catalog's JSON carries them. Field names follow the wire
//! format.
use std::collections::HashMap;

use vstd::prelude::*;

verus! {

/// A service instance, as an agent reports it.
#[allow(non_snake_case)]
#[derive(Eq, Default, PartialEq, Debug, Clone)]
pub struct AgentService {
    pub ID: String,
    pub Service: String,
    pub Tags: Option<Vec<String>>,
    pub Port: u16,
    pub Address: String,
    pub Meta: HashMap<String, String>,
    pub EnableTagOverride: bool,
    pub CreateIndex: u64,
    pub ModifyIndex: u64,
}

/// A health check, as an agent reports it.
#[allow(non_snake_case)]
#[derive(Clone, Default, Eq, PartialEq, Debug)]
pub struct AgentCheck {
    pub Node: String,
    pub CheckID: String,
    pub Name: String,
    pub Status: String,
    pub Notes: String,
    pub Output: String,
    pub ServiceID: String,
    pub ServiceName: String,
}

} // verus!
