//! A client library for a consistency-aware coordination service speaking
//! HTTP: it builds request URLs, merges query-consistency parameters
//! (datacenter, wait-index, wait-time), classifies responses, extracts the
//! server's change-index header, and maps failures into a typed error
//! taxonomy. The HTTP transport itself is the caller's concern: this crate
//! prepares requests as plain values and judges responses handed back to it.
pub mod agent;
pub mod catalog;
pub mod common;
pub mod encoding;
pub mod errors;
pub mod headers;
pub mod health;
pub mod kv;
pub mod numbers;
pub mod params;
pub mod request;
mod text;
pub mod urls;

use vstd::prelude::*;

use crate::errors::Error;
use crate::urls::parsed_url;

verus! {

/// The client's immutable configuration: the parsed base address of the
/// service, an optional default datacenter for every call, and an optional
/// default wait-time, in milliseconds.
#[derive(Clone, Debug)]
pub struct Config {
    /// The normalized serialization of the configured base URL.
    pub address: String,
    /// The datacenter used when a call does not name one.
    pub datacenter: Option<String>,
    /// A default long-poll timeout, in milliseconds.
    pub wait_time: Option<u64>,
}

/// Collects the pieces of a `Config` before validation.
#[derive(Clone, Debug, Default)]
pub struct ConfigBuilder {
    /// The base address, not yet validated.
    pub address: Option<String>,
    /// The default datacenter.
    pub datacenter: Option<String>,
    /// The default wait-time, in milliseconds.
    pub wait_time: Option<u64>,
}

impl Config {
    /// A builder with nothing set.
    pub fn builder() -> (b: ConfigBuilder)
        ensures
            b.address is None,
            b.datacenter is None,
            b.wait_time is None,
    {
        ConfigBuilder { address: None, datacenter: None, wait_time: None }
    }
}

impl ConfigBuilder {
    /// Sets the base address of the service.
    pub fn address(self, address: String) -> (r: Self)
        ensures
            r.address == Some(address),
            r.datacenter == self.datacenter,
            r.wait_time == self.wait_time,
    {
        let mut b = self;
        b.address = Some(address);
        b
    }

    /// Sets the default datacenter.
    pub fn datacenter(self, datacenter: String) -> (r: Self)
        ensures
            r.datacenter == Some(datacenter),
            r.address == self.address,
            r.wait_time == self.wait_time,
    {
        let mut b = self;
        b.datacenter = Some(datacenter);
        b
    }

    /// Validates the collected pieces: the address is required and must
    /// parse as a URL; it is stored in normalized form.
    pub fn build(self) -> (r: Result<Config, Error>)
        ensures
            self.address is None ==> (r matches Err(Error::MissingClientConfig(f)) && f@
                == "address"@),
            self.address matches Some(a) ==> (match parsed_url(a@) {
                Some(n) => r matches Ok(c) && c.address@ == n && c.datacenter == self.datacenter
                    && c.wait_time == self.wait_time,
                None => r matches Err(Error::InvalidConsulEndpoint),
            }),
    {
        match self.address {
            None => Err(Error::MissingClientConfig("address")),
            Some(a) => match crate::urls::parse_address(a.as_str()) {
                None => Err(Error::InvalidConsulEndpoint),
                Some(normalized) => Ok(
                    Config {
                        address: normalized,
                        datacenter: self.datacenter,
                        wait_time: self.wait_time,
                    },
                ),
            },
        }
    }
}

} // verus!
