//! The request executor end to end: URL building, the three call shapes,
//! the 404 special case of the read-many path, and body pass-through.
use consul_client::common::{QueryOptions, WriteOptions};
use consul_client::errors::{Error, ResponseError};
use consul_client::headers::Headers;
use consul_client::kv::kv_list_request;
use consul_client::health::health_service_request;
use consul_client::catalog::register_request;
use consul_client::request::{
    decode_read_result, decode_write_result, prepare_get, prepare_put, read_many_response,
    read_one_response, write_response, HttpMethod, HttpResponse, ReadManyBody,
};
use consul_client::Config;

fn client_config() -> Config {
    Config::builder()
        .address("http://localhost:8500".to_owned())
        .datacenter("dc1".to_owned())
        .build()
        .unwrap()
}

fn response(status: u16, index: Option<&[u8]>, body: &str) -> HttpResponse {
    let mut headers = Headers::new();
    if let Some(v) = index {
        headers.push("x-consul-index".to_owned(), v.to_vec());
    }
    HttpResponse { status, headers, body: body.to_owned() }
}

#[test]
fn config_build_normalizes_the_address() {
    // The url crate serializes the authority-only address with a path.
    assert_eq!(client_config().address, "http://localhost:8500/");
}

#[test]
fn config_without_address_is_missing_config() {
    assert!(matches!(
        Config::builder().datacenter("dc1".to_owned()).build(),
        Err(Error::MissingClientConfig("address"))
    ));
}

#[test]
fn config_with_unparsable_address_is_invalid_endpoint() {
    assert!(matches!(
        Config::builder().address("not a url".to_owned()).build(),
        Err(Error::InvalidConsulEndpoint)
    ));
}

#[test]
fn kv_list_builds_the_documented_url() {
    let prepared = kv_list_request(&client_config(), "foo", None).unwrap();
    assert_eq!(prepared.url, "http://localhost:8500/v1/kv/foo?recurse=true&dc=dc1");
    assert_eq!(prepared.method, HttpMethod::Get);
    assert!(prepared.body.is_none());
}

#[test]
fn read_many_scenario_two_items_and_index() {
    let prepared = kv_list_request(&client_config(), "foo", None).unwrap();
    assert_eq!(prepared.url, "http://localhost:8500/v1/kv/foo?recurse=true&dc=dc1");
    let resp = response(200, Some(b"7"), "[{\"Key\":\"a\"},{\"Key\":\"b\"}]");
    let (body, meta) = read_many_response(&resp, 3).unwrap();
    assert_eq!(meta.last_index, Some(7));
    assert_eq!(meta.request_time, 3);
    let text = match body {
        ReadManyBody::Decode(text) => text,
        ReadManyBody::Empty => panic!("a success carries a body to decode"),
    };
    let items: Option<Vec<serde_json::Value>> = serde_json::from_str(&text).ok();
    let (items, meta) = decode_read_result(items, meta).unwrap();
    assert_eq!(items.len(), 2);
    assert_eq!(meta.last_index, Some(7));
}

#[test]
fn read_many_404_is_an_empty_sequence_not_an_error() {
    let resp = response(404, None, "no such prefix, and not JSON either");
    let (body, meta) = read_many_response(&resp, 1).unwrap();
    assert!(matches!(body, ReadManyBody::Empty));
    assert_eq!(meta.last_index, None);

    // Whatever index header the 404 carries is still reported.
    let resp = response(404, Some(b"12"), "[]");
    let (body, meta) = read_many_response(&resp, 1).unwrap();
    assert!(matches!(body, ReadManyBody::Empty));
    assert_eq!(meta.last_index, Some(12));
}

#[test]
fn read_many_other_failures_are_unexpected_status() {
    let resp = response(500, Some(b"3"), "boom");
    match read_many_response(&resp, 1) {
        Err(Error::ResponseError(ResponseError::UnexpectedStatus { status, body, .. })) => {
            assert_eq!(status, 500);
            assert_eq!(body, "boom");
        },
        other => panic!("expected an unexpected-status error, got {:?}", other),
    }
}

#[test]
fn read_one_404_is_an_unexpected_status() {
    let resp = response(404, None, "missing");
    match read_one_response(&resp, 1) {
        Err(Error::ResponseError(ResponseError::UnexpectedStatus { status, body, .. })) => {
            assert_eq!(status, 404);
            assert_eq!(body, "missing");
        },
        other => panic!("expected an unexpected-status error, got {:?}", other),
    }
}

#[test]
fn read_one_success_hands_back_body_and_index() {
    let resp = response(200, Some(b"42"), "{\"ID\":\"x\"}");
    let (text, meta) = read_one_response(&resp, 9).unwrap();
    assert_eq!(text, "{\"ID\":\"x\"}");
    assert_eq!(meta.last_index, Some(42));
    assert_eq!(meta.request_time, 9);
}

#[test]
fn read_paths_fail_on_a_malformed_index_header() {
    let resp = response(200, Some(b"abc"), "[]");
    assert!(matches!(
        read_many_response(&resp, 1),
        Err(Error::ResponseError(ResponseError::InvalidHeaders(_)))
    ));
    assert!(matches!(
        read_one_response(&resp, 1),
        Err(Error::ResponseError(ResponseError::InvalidHeaders(_)))
    ));
}

#[test]
fn write_with_no_body_attaches_no_payload() {
    let prepared = prepare_put(&client_config(), "/v1/agent/leave", None, Vec::new(), None)
        .unwrap();
    assert_eq!(prepared.method, HttpMethod::Put);
    assert!(prepared.body.is_none());
}

#[test]
fn write_with_body_passes_the_payload_through() {
    let options = WriteOptions { datacenter: Some("dc9".to_owned()) };
    let prepared = register_request(
        &client_config(),
        "{\"Node\":\"n1\"}".to_owned(),
        Some(&options),
    )
    .unwrap();
    assert_eq!(prepared.method, HttpMethod::Put);
    assert_eq!(prepared.url, "http://localhost:8500/v1/catalog/register?dc=dc9");
    assert_eq!(prepared.body.as_deref(), Some("{\"Node\":\"n1\"}"));

    let resp = response(200, None, "true");
    let (text, meta) = write_response(&resp, 5).unwrap();
    assert_eq!(meta.request_time, 5);
    let decoded: Option<bool> = serde_json::from_str(&text).ok();
    let (value, _) = decode_write_result(decoded, meta).unwrap();
    assert!(value);
}

#[test]
fn write_failure_statuses_are_unexpected() {
    let resp = response(500, None, "boom");
    assert!(matches!(
        write_response(&resp, 1),
        Err(Error::ResponseError(ResponseError::UnexpectedStatus { status: 500, .. }))
    ));
}

#[test]
fn decode_failure_is_invalid_payload() {
    let resp = response(200, Some(b"1"), "not json");
    let (_, meta) = read_one_response(&resp, 1).unwrap();
    let decoded: Option<bool> = serde_json::from_str("not json").ok();
    assert!(matches!(
        decode_read_result(decoded, meta),
        Err(Error::ResponseError(ResponseError::InvalidPayload))
    ));
}

#[test]
fn blocking_query_parameters_reach_the_url() {
    let options = QueryOptions {
        datacenter: None,
        wait_index: Some(7),
        wait_time: Some(90_500),
    };
    let prepared = kv_list_request(&client_config(), "foo", Some(&options)).unwrap();
    assert_eq!(
        prepared.url,
        "http://localhost:8500/v1/kv/foo?recurse=true&dc=dc1&index=7&wait=90s"
    );
}

#[test]
fn health_service_request_adds_filters_in_order() {
    let prepared = health_service_request(
        &client_config(),
        "web",
        Some("primary"),
        true,
        None,
        None,
    )
    .unwrap();
    assert_eq!(
        prepared.url,
        "http://localhost:8500/v1/health/service/web?passing=1&tag=primary&dc=dc1"
    );
}

#[test]
fn query_values_are_form_encoded() {
    let options = QueryOptions {
        datacenter: Some("dc one".to_owned()),
        wait_index: None,
        wait_time: None,
    };
    let prepared = prepare_get(&client_config(), "/v1/agent/self", Vec::new(), Some(&options))
        .unwrap();
    assert_eq!(prepared.url, "http://localhost:8500/v1/agent/self?dc=dc+one");
}

#[test]
fn unjoinable_path_is_an_invalid_endpoint() {
    // A base that cannot be a base refuses every join.
    let config = Config {
        address: "data:text/plain,x".to_owned(),
        datacenter: None,
        wait_time: None,
    };
    assert!(matches!(
        prepare_get(&config, "/v1/kv/foo", Vec::new(), None),
        Err(Error::InvalidConsulEndpoint)
    ));
}
