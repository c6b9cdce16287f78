use apitally::client::ApitallyClient;
use apitally::client::TelemetryError;
use apitally::messages::Emission;
use apitally::meta::RequestLogConfig;
use apitally::meta::RequestMeta;
use apitally::meta::ResponseMeta;

fn sample_meta() -> RequestMeta {
    RequestMeta {
        content_length: 3,
        matched_path: String::from("/items/:id"),
        method: String::from("GET"),
        url: String::from("http://localhost/items/7"),
    }
}

#[test]
fn construction_derives_base_url() {
    let (client, _) = ApitallyClient::new("abc", "prod");
    assert_eq!(client.base_url, "https://hub.apitally.io/v2/abc/prod");
}

#[test]
fn construction_emits_exactly_one_startup_message() {
    let (client, emissions) = ApitallyClient::new("abc", "prod");
    assert_eq!(emissions.len(), 1);
    match &emissions[0] {
        Emission::Startup(m) => {
            assert_eq!(m.instance_uuid, client.instance_id);
            assert!(m.paths.is_empty());
            assert!(m.versions.is_empty());
            assert_eq!(m.client, "rs:axum");
        }
        _ => panic!("the construction emission must be a startup message"),
    }
}

#[test]
fn startup_count_independent_of_request_volume() {
    let (mut client, emissions) = ApitallyClient::new("abc", "prod");
    let mut startups = emissions
        .iter()
        .filter(|e| matches!(e, Emission::Startup(_)))
        .count();
    let mut syncs: usize = 0;
    for key in 0..50u128 {
        client.stash_request_data(key, sample_meta()).unwrap();
        let batch = client
            .send_request_data(key, ResponseMeta { size: 1, status: 200 })
            .unwrap();
        startups += batch
            .iter()
            .filter(|e| matches!(e, Emission::Startup(_)))
            .count();
        syncs += batch
            .iter()
            .filter(|e| matches!(e, Emission::Sync(_)))
            .count();
    }
    assert_eq!(startups, 1);
    assert_eq!(syncs, 50);
}

#[test]
fn usage_sync_count_matches_completed_requests() {
    let (mut client, _) = ApitallyClient::new("abc", "prod");
    for key in [11u128, 22, 33] {
        client.stash_request_data(key, sample_meta()).unwrap();
        let batch = client
            .send_request_data(key, ResponseMeta { size: 2, status: 200 })
            .unwrap();
        assert_eq!(batch.len(), 1);
        assert!(matches!(batch[0], Emission::Sync(_)));
    }
}

#[test]
fn lookup_miss_is_reported_not_fatal() {
    let (mut client, _) = ApitallyClient::new("abc", "prod");
    let r = client.send_request_data(99, ResponseMeta { size: 0, status: 200 });
    assert_eq!(r.err(), Some(TelemetryError::LookupMiss));
}

#[test]
fn scenario_get_items_route() {
    let (mut client, _) = ApitallyClient::new("abc", "prod");
    assert_eq!(client.base_url, "https://hub.apitally.io/v2/abc/prod");
    let meta = apitally::extract::build_request_meta(
        None,
        Some(String::from("/items/:id")),
        String::from("GET"),
        String::from("http://localhost/items/7"),
        String::from("/items/7"),
    );
    assert_eq!(meta.content_length, 0);
    assert_eq!(meta.method, "GET");
    assert_eq!(meta.matched_path, "/items/:id");
    let key = 42u128;
    client.stash_request_data(key, meta).unwrap();
    let batch = client
        .send_request_data(key, ResponseMeta { size: 10, status: 200 })
        .unwrap();
    assert_eq!(batch.len(), 1);
    match &batch[0] {
        Emission::Sync(bundle) => {
            assert_eq!(bundle.instance_uuid, client.instance_id);
            assert_eq!(bundle.message_uuid, key);
            assert_eq!(bundle.requests.len(), 1);
            let captured = &bundle.requests[0];
            assert_eq!(captured.method, "GET");
            assert_eq!(captured.path, "/items/:id");
            assert_eq!(captured.status_code, 200);
            assert_eq!(captured.request_count, 1);
            assert_eq!(captured.request_size_sum, 0);
            assert_eq!(captured.response_size_sum, 10);
            assert!(bundle.validation_errors.is_empty());
            assert!(bundle.server_errors.is_empty());
            assert!(bundle.consumers.is_empty());
        }
        _ => panic!("the first emission of a completed request must be a usage sync"),
    }
}

#[test]
fn log_emission_only_when_enabled() {
    let (mut client, _) = ApitallyClient::new("abc", "prod");
    client.set_request_log_config(RequestLogConfig {
        enabled: true,
        log_query_params: None,
        log_request_headers: None,
        log_request_body: None,
        log_response_headers: None,
        log_response_body: None,
    });
    client.stash_request_data(5, sample_meta()).unwrap();
    let batch = client
        .send_request_data(5, ResponseMeta { size: 8, status: 404 })
        .unwrap();
    assert_eq!(batch.len(), 2);
    assert!(matches!(batch[0], Emission::Sync(_)));
    match &batch[1] {
        Emission::Log(log) => {
            assert_eq!(log.request.method, "GET");
            assert_eq!(log.request.path, "/items/:id");
            assert_eq!(log.request.url, "http://localhost/items/7");
            assert_eq!(log.request.size, 3);
            assert_eq!(log.response.status_code, 404);
            assert_eq!(log.response.size, 8);
        }
        _ => panic!("the second emission must be the request log entry"),
    }
}

#[test]
fn stash_then_read_observes_exact_record() {
    let (mut client, _) = ApitallyClient::new("abc", "prod");
    let meta = RequestMeta {
        content_length: 123,
        matched_path: String::from("/route/:dynamic"),
        method: String::from("DELETE"),
        url: String::from("http://localhost/route/x?q=1"),
    };
    client.stash_request_data(77, meta).unwrap();
    let batch = client
        .send_request_data(77, ResponseMeta { size: 0, status: 500 })
        .unwrap();
    match &batch[0] {
        Emission::Sync(bundle) => {
            let captured = &bundle.requests[0];
            assert_eq!(captured.method, "DELETE");
            assert_eq!(captured.path, "/route/:dynamic");
            assert_eq!(captured.request_size_sum, 123);
            assert_eq!(captured.status_code, 500);
        }
        _ => panic!("expected a usage sync"),
    }
    let again = client.send_request_data(77, ResponseMeta { size: 0, status: 500 });
    assert_eq!(again.err(), Some(TelemetryError::LookupMiss));
}

#[test]
fn endpoint_urls_by_emission_kind() {
    let (client, emissions) = ApitallyClient::new("abc", "prod");
    assert_eq!(
        client.endpoint_url(&emissions[0]),
        "https://hub.apitally.io/v2/abc/prod/startup"
    );
    let (mut client, _) = ApitallyClient::new("abc", "prod");
    client.stash_request_data(1, sample_meta()).unwrap();
    let batch = client
        .send_request_data(1, ResponseMeta { size: 0, status: 200 })
        .unwrap();
    assert_eq!(
        client.endpoint_url(&batch[0]),
        "https://hub.apitally.io/v2/abc/prod/sync"
    );
    let log = client.send_log_data(sample_meta(), ResponseMeta { size: 0, status: 200 });
    assert_eq!(
        client.endpoint_url(&Emission::Log(log)),
        "https://hub.apitally.io/v2/abc/prod/log"
    );
}

#[test]
fn log_entry_fields_fixed_by_records() {
    let (client, _) = ApitallyClient::new("abc", "prod");
    let log = client.send_log_data(
        sample_meta(),
        ResponseMeta { size: 9, status: 201 },
    );
    assert_eq!(log.request.timestamp, 0);
    assert_eq!(log.request.method, "GET");
    assert_eq!(log.request.path, "/items/:id");
    assert_eq!(log.request.url, "http://localhost/items/7");
    assert!(log.request.headers.is_empty());
    assert_eq!(log.request.size, 3);
    assert_eq!(log.request.consumer, "");
    assert_eq!(log.request.body, "");
    assert_eq!(log.response.status_code, 201);
    assert_eq!(log.response.response_time, 100);
    assert!(log.response.headers.is_empty());
    assert_eq!(log.response.size, 9);
    assert_eq!(log.response.body, "");
}

#[test]
fn default_config_has_logging_disabled() {
    let config = RequestLogConfig::default();
    assert!(!config.enabled);
    assert!(config.log_query_params.is_none());
    assert!(config.log_request_headers.is_none());
    assert!(config.log_request_body.is_none());
    assert!(config.log_response_headers.is_none());
    assert!(config.log_response_body.is_none());
}
