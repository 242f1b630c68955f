use opengatellm::{is_success_status, Client, ClientBuilder, Error};
use std::time::Duration;

fn client() -> Client {
    Client::new("http://localhost:8000", None).unwrap()
}

fn invalid_url_message(r: Result<Client, Error>) -> String {
    match r {
        Err(Error::InvalidUrl(m)) => m,
        other => panic!("expected Error::InvalidUrl, got {other:?}"),
    }
}

#[test]
fn client_new_stores_parsed_base_url() {
    let c = client();
    assert_eq!(c.base_url(), "http://localhost:8000/");
    assert_eq!(c.api_key(), None);
}

#[test]
fn client_new_keeps_the_token() {
    let c = Client::new("http://localhost:8000", Some("TOKEN")).unwrap();
    assert_eq!(c.api_key(), Some("TOKEN"));
}

#[test]
fn client_new_rejects_relative_base_url() {
    let m = invalid_url_message(Client::new("not a url", None));
    assert_eq!(m, "relative URL without a base");
}

#[test]
fn client_new_rejects_bad_port() {
    let m = invalid_url_message(Client::new("http://localhost:99999", None));
    assert_eq!(m, "invalid port number");
}

#[test]
fn builder_agrees_with_new() {
    let a = Client::builder("http://localhost:8000")
        .api_key("TOKEN")
        .timeout(Duration::from_secs(30))
        .build()
        .unwrap();
    let b = Client::new("http://localhost:8000", Some("TOKEN")).unwrap();
    assert_eq!(a.base_url(), b.base_url());
    assert_eq!(a.api_key(), b.api_key());
    let c = ClientBuilder::new("http://localhost:8000").build().unwrap();
    assert_eq!(c.api_key(), None);
}

#[test]
fn endpoint_resolves_absolute_path() {
    let c = client();
    assert_eq!(c.endpoint("/v1/models").unwrap(), "http://localhost:8000/v1/models");
    assert_eq!(c.models_url().unwrap(), "http://localhost:8000/v1/models");
    assert_eq!(c.chat_completions_url().unwrap(), "http://localhost:8000/v1/chat/completions");
    assert_eq!(c.embeddings_url().unwrap(), "http://localhost:8000/v1/embeddings");
    assert_eq!(c.health_url().unwrap(), "http://localhost:8000/health");
    assert_eq!(c.health_models_url().unwrap(), "http://localhost:8000/health/models");
    assert_eq!(c.metrics_url().unwrap(), "http://localhost:8000/metrics");
    assert_eq!(c.me_info_url().unwrap(), "http://localhost:8000/v1/me/info");
    assert_eq!(c.keys_url().unwrap(), "http://localhost:8000/v1/me/keys");
    assert_eq!(c.usage_url().unwrap(), "http://localhost:8000/v1/me/usage");
    assert_eq!(c.rerank_url().unwrap(), "http://localhost:8000/v1/rerank");
    assert_eq!(c.search_url().unwrap(), "http://localhost:8000/v1/search");
    assert_eq!(c.collections_url().unwrap(), "http://localhost:8000/v1/collections");
    assert_eq!(c.documents_url().unwrap(), "http://localhost:8000/v1/documents");
}

#[test]
fn endpoint_replaces_base_path() {
    let c = Client::new("http://gw.example/api/", None).unwrap();
    assert_eq!(c.endpoint("/v1/models").unwrap(), "http://gw.example/v1/models");
}

#[test]
fn key_and_model_urls_have_single_slash() {
    let c = client();
    assert_eq!(c.key_url("42").unwrap(), "http://localhost:8000/v1/me/keys/42");
    assert_eq!(c.model_url("gpt-4").unwrap(), "http://localhost:8000/v1/models/gpt-4");
    assert_eq!(c.collection_url("5").unwrap(), "http://localhost:8000/v1/collections/5");
    assert_eq!(c.document_url("8").unwrap(), "http://localhost:8000/v1/documents/8");
    assert_eq!(c.document_chunks_url("7").unwrap(), "http://localhost:8000/v1/chunks/7");
}

#[test]
fn chunk_url_has_two_segments() {
    let c = client();
    assert_eq!(c.chunk_url("7", "3").unwrap(), "http://localhost:8000/v1/chunks/7/3");
    assert_eq!(
        c.endpoint_with_segments("/v1/chunks", &["7", "3"]).unwrap(),
        "http://localhost:8000/v1/chunks/7/3"
    );
}

#[test]
fn segment_is_escaped() {
    let c = client();
    assert_eq!(c.model_url("a/b").unwrap(), "http://localhost:8000/v1/models/a%2Fb");
}

#[test]
fn segment_on_cannot_be_a_base_url_is_refused() {
    let c = Client::new("mailto:me@example.com", None).unwrap();
    match c.endpoint_with_segment("me@example.com", "x") {
        Err(Error::InvalidUrl(m)) => {
            assert!(m == "base URL cannot have path segments" || m.contains("cannot-be-a-base"))
        }
        other => panic!("expected Error::InvalidUrl, got {other:?}"),
    }
}

#[test]
fn success_is_exactly_2xx() {
    for s in [200u16, 201, 204, 250, 299] {
        assert!(is_success_status(s), "{s}");
    }
    for s in [0u16, 100, 199, 300, 301, 401, 404, 500, 999] {
        assert!(!is_success_status(s), "{s}");
    }
}

#[test]
fn api_error_keeps_status_and_body() {
    match Error::api(401, Some("unauthorized".to_owned())) {
        Error::Api { status, detail } => {
            assert_eq!(status, 401);
            assert_eq!(detail, "unauthorized");
        }
        other => panic!("expected Error::Api, got {other:?}"),
    }
    match Error::api(404, None) {
        Error::Api { status, detail } => {
            assert_eq!(status, 404);
            assert_eq!(detail, "");
        }
        other => panic!("expected Error::Api, got {other:?}"),
    }
}

#[test]
fn overlong_segment_is_refused() {
    let c = client();
    let long = "a".repeat(0x40_0000);
    match c.model_url(&long) {
        Err(Error::InvalidUrl(m)) => assert_eq!(m, "URL or path segment too long"),
        other => panic!("expected Error::InvalidUrl, got {:?}", other.map(|s| s.len())),
    }
    let fits = "a".repeat(1000);
    assert!(c.chunk_url(&fits, "3").unwrap().ends_with("/3"));
}

#[test]
fn cloned_client_keeps_its_settings() {
    let c = Client::new("http://localhost:8000", Some("TOKEN")).unwrap();
    let d = c.clone();
    assert_eq!(d.base_url(), c.base_url());
    assert_eq!(d.api_key(), Some("TOKEN"));
}
