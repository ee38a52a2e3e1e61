use mcp_gateway::health::{
    engine_health_url, health_request, litellm_health_url, response_indicates_healthy,
    split_health_url,
};

#[test]
fn url_splits_into_host_port_and_path() {
    let (host_port, path) = split_health_url("http://127.0.0.1:8001/health");
    assert_eq!(host_port, "127.0.0.1:8001");
    assert_eq!(path, "/health");
}

#[test]
fn url_without_scheme_is_taken_as_is() {
    let (host_port, path) = split_health_url("127.0.0.1:4000/health");
    assert_eq!(host_port, "127.0.0.1:4000");
    assert_eq!(path, "/health");
}

#[test]
fn url_without_path_probes_the_root() {
    let (host_port, path) = split_health_url("http://127.0.0.1:8001");
    assert_eq!(host_port, "127.0.0.1:8001");
    assert_eq!(path, "/");
}

#[test]
fn request_text_is_one_closing_get() {
    let request = health_request("127.0.0.1:8001", "/health");
    assert_eq!(
        request,
        "GET /health HTTP/1.1\r\nHost: 127.0.0.1:8001\r\nConnection: close\r\n\r\n"
    );
}

#[test]
fn success_status_is_recognized() {
    assert!(response_indicates_healthy(&b"HTTP/1.1 200 OK\r\n\r\nok".to_vec()));
    assert!(response_indicates_healthy(&b"200".to_vec()));
}

#[test]
fn failure_and_empty_responses_are_rejected() {
    assert!(!response_indicates_healthy(&b"HTTP/1.1 404 Not Found\r\n\r\n".to_vec()));
    assert!(!response_indicates_healthy(&b"HTTP/1.1 503 Unavailable".to_vec()));
    assert!(!response_indicates_healthy(&b"".to_vec()));
    assert!(!response_indicates_healthy(&b"20".to_vec()));
}

#[test]
fn endpoint_constants_name_the_two_services() {
    assert_eq!(engine_health_url(), "http://127.0.0.1:8001/health");
    assert_eq!(litellm_health_url(), "http://127.0.0.1:4000/health");
}
