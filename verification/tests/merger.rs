//! The consistency-parameter merger: datacenter resolution, wait-index and
//! wait-time emission, idempotence and order-independence at the map level.
use std::collections::HashMap;

use consul_client::params::{fill_query_params, fill_write_params};
use consul_client::common::{QueryOptions, WriteOptions};
use consul_client::Config;

fn config(datacenter: Option<&str>) -> Config {
    Config {
        address: "http://localhost:8500/".to_owned(),
        datacenter: datacenter.map(|d| d.to_owned()),
        wait_time: None,
    }
}

fn as_map(pairs: &[(String, String)]) -> HashMap<String, String> {
    let mut m = HashMap::new();
    for (k, v) in pairs {
        m.insert(k.clone(), v.clone());
    }
    m
}

#[test]
fn dc_absent_when_neither_is_set() {
    let mut params: Vec<(String, String)> = Vec::new();
    fill_query_params(&mut params, &config(None), Some(&QueryOptions::default()));
    assert!(params.is_empty());

    let mut params: Vec<(String, String)> = Vec::new();
    fill_query_params(&mut params, &config(None), None);
    assert!(params.is_empty());
}

#[test]
fn dc_from_client_default_alone() {
    let mut params: Vec<(String, String)> = Vec::new();
    fill_query_params(&mut params, &config(Some("dc1")), Some(&QueryOptions::default()));
    assert_eq!(params, vec![("dc".to_owned(), "dc1".to_owned())]);

    // The default applies even when no per-call options are given at all.
    let mut params: Vec<(String, String)> = Vec::new();
    fill_query_params(&mut params, &config(Some("dc1")), None);
    assert_eq!(params, vec![("dc".to_owned(), "dc1".to_owned())]);
}

#[test]
fn dc_from_call_alone() {
    let mut params: Vec<(String, String)> = Vec::new();
    let options = QueryOptions { datacenter: Some("dc2".to_owned()), ..Default::default() };
    fill_query_params(&mut params, &config(None), Some(&options));
    assert_eq!(params, vec![("dc".to_owned(), "dc2".to_owned())]);
}

#[test]
fn call_level_dc_wins_over_default() {
    let mut params: Vec<(String, String)> = Vec::new();
    let options = QueryOptions { datacenter: Some("dc2".to_owned()), ..Default::default() };
    fill_query_params(&mut params, &config(Some("dc1")), Some(&options));
    assert_eq!(params, vec![("dc".to_owned(), "dc2".to_owned())]);
}

#[test]
fn wait_index_emitted_as_decimal() {
    let mut params: Vec<(String, String)> = Vec::new();
    let options = QueryOptions { wait_index: Some(42), ..Default::default() };
    fill_query_params(&mut params, &config(None), Some(&options));
    assert_eq!(params, vec![("index".to_owned(), "42".to_owned())]);
}

#[test]
fn wait_time_truncates_to_whole_seconds() {
    // 1500 ms is one and a half seconds: emitted as "1s", never "2s".
    let mut params: Vec<(String, String)> = Vec::new();
    let options = QueryOptions { wait_time: Some(1500), ..Default::default() };
    fill_query_params(&mut params, &config(None), Some(&options));
    assert_eq!(params, vec![("wait".to_owned(), "1s".to_owned())]);

    let mut params: Vec<(String, String)> = Vec::new();
    let options = QueryOptions { wait_time: Some(999), ..Default::default() };
    fill_query_params(&mut params, &config(None), Some(&options));
    assert_eq!(params, vec![("wait".to_owned(), "0s".to_owned())]);

    let mut params: Vec<(String, String)> = Vec::new();
    let options = QueryOptions { wait_time: Some(10_000), ..Default::default() };
    fill_query_params(&mut params, &config(None), Some(&options));
    assert_eq!(params, vec![("wait".to_owned(), "10s".to_owned())]);
}

#[test]
fn all_three_parameters_in_order() {
    let mut params: Vec<(String, String)> = Vec::new();
    params.push(("recurse".to_owned(), "true".to_owned()));
    let options = QueryOptions {
        datacenter: Some("dc2".to_owned()),
        wait_index: Some(7),
        wait_time: Some(30_000),
    };
    fill_query_params(&mut params, &config(Some("dc1")), Some(&options));
    assert_eq!(
        params,
        vec![
            ("recurse".to_owned(), "true".to_owned()),
            ("dc".to_owned(), "dc2".to_owned()),
            ("index".to_owned(), "7".to_owned()),
            ("wait".to_owned(), "30s".to_owned()),
        ]
    );
}

#[test]
fn merging_twice_is_a_no_op_on_the_parameter_map() {
    let config = config(Some("dc1"));
    let options = QueryOptions {
        datacenter: None,
        wait_index: Some(7),
        wait_time: Some(1500),
    };
    let mut once: Vec<(String, String)> = Vec::new();
    fill_query_params(&mut once, &config, Some(&options));
    let mut twice = once.clone();
    fill_query_params(&mut twice, &config, Some(&options));
    assert_eq!(as_map(&once), as_map(&twice));
}

#[test]
fn write_path_merges_only_the_datacenter() {
    let mut params: Vec<(String, String)> = Vec::new();
    let options = WriteOptions { datacenter: Some("dc2".to_owned()) };
    fill_write_params(&mut params, &config(Some("dc1")), Some(&options));
    assert_eq!(params, vec![("dc".to_owned(), "dc2".to_owned())]);

    let mut params: Vec<(String, String)> = Vec::new();
    fill_write_params(&mut params, &config(None), None);
    assert!(params.is_empty());
}
