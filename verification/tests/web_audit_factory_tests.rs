use hare::audit_log::{extract_http_response_code, AuditRecordFactory, AuditRequest, AuditResponse};
use hare::audit_record::AuditRecord;
use hare::connect_info::ConnectionInformation;
use hare::request_id::RequestIdGenerator;
use hare::time::UnixTime;
use hare::web::audit_log::WebAuditRecordFactory;

fn tcp_connection() -> ConnectionInformation {
    ConnectionInformation::tcp(
        Some("192.168.1.100".to_string()),
        Some(54321),
        Some("127.0.0.1".to_string()),
        Some(8080),
    )
}

fn request_with_request_id(uri: &str, headers: http::HeaderMap, connect_info: ConnectionInformation) -> AuditRequest {
    let mut extensions = http::Extensions::new();
    extensions.insert(axum::extract::ConnectInfo(connect_info));
    extensions.insert(tower_http::request_id::RequestId::new(
        RequestIdGenerator::generate_request_id().get_id().parse().unwrap(),
    ));
    AuditRequest::from_parts(uri.to_string(), headers, &extensions)
}

fn tcp_request(uri: &str, headers: Vec<(http::header::HeaderName, &str)>) -> AuditRequest {
    let mut map = http::HeaderMap::new();
    for (name, value) in headers {
        map.append(name, value.parse().unwrap());
    }
    request_with_request_id(uri, map, tcp_connection())
}

fn response(code: u16, content_length: Option<&str>) -> AuditResponse {
    let mut builder = http::Response::builder().status(code);
    if let Some(length) = content_length {
        builder = builder.header("Content-Length", length);
    }
    let response = builder.body(()).unwrap();
    AuditResponse::from_parts(extract_http_response_code(&response), response.headers())
}

fn now() -> UnixTime {
    let since_epoch = std::time::SystemTime::now().duration_since(std::time::UNIX_EPOCH).unwrap();
    UnixTime::new(since_epoch.as_secs() as i64, since_epoch.subsec_nanos()).unwrap()
}

fn record_of(request: &AuditRequest, response: &AuditResponse) -> AuditRecord {
    let factory = WebAuditRecordFactory::default();
    let builder = factory.extract_from_request(request, now());
    factory.extract_from_response(response, builder)
}

#[test]
fn test_web_audit_extracts_url() {
    let record = record_of(&tcp_request("/api/v1/users?page=1", vec![]), &response(200, None));
    assert_eq!(record.http_request_url, "/api/v1/users?page=1");
}

#[test]
fn test_web_audit_no_referer_when_missing() {
    let record = record_of(&tcp_request("/test", vec![]), &response(200, None));
    assert_eq!(record.http_request_referer, None);
}

#[test]
fn test_web_audit_extracts_referer() {
    let request = tcp_request("/test", vec![(http::header::REFERER, "https://example.com/source")]);
    let record = record_of(&request, &response(200, None));
    assert_eq!(record.http_request_referer, Some(vec!["https://example.com/source".to_string()]));
}

#[test]
fn test_web_audit_extracts_user_agent() {
    let request = tcp_request("/test", vec![(http::header::USER_AGENT, "Mozilla/5.0 (X11; Linux x86_64)")]);
    let record = record_of(&request, &response(200, None));
    assert_eq!(record.http_request_user_agent, Some(vec!["Mozilla/5.0 (X11; Linux x86_64)".to_string()]));
}

#[test]
fn test_web_audit_extracts_last_forwarded() {
    let request = tcp_request(
        "/test",
        vec![(http::header::FORWARDED, "for=10.0.0.1"), (http::header::FORWARDED, "for=10.0.0.2")],
    );
    let record = record_of(&request, &response(200, None));
    assert_eq!(record.http_request_x_forwarded_for, Some(vec!["for=10.0.0.2".to_string()]));
}

#[test]
fn test_web_audit_extracts_request_id() {
    let record = record_of(&tcp_request("/test", vec![]), &response(200, None));
    assert!(!record.http_request_uid.is_empty());
    assert_eq!(record.http_request_uid.len(), 36);
}

#[test]
fn test_web_audit_request_without_request_id_has_none() {
    let extensions = http::Extensions::new();
    assert_eq!(hare::audit_log::try_extract_request_id(&extensions), None);
}

#[test]
fn test_web_audit_extracts_tcp_connection_info() {
    let record = record_of(&tcp_request("/test", vec![]), &response(200, None));
    assert_eq!(record.src_endpoint_ip, Some("192.168.1.100".to_string()));
    assert_eq!(record.src_endpoint_port, Some(54321));
    assert_eq!(record.dst_endpoint_ip, Some("127.0.0.1".to_string()));
    assert_eq!(record.dst_endpoint_port, Some(8080));
    assert_eq!(record.dst_endpoint_socket_file_path, None);
    assert_eq!(record.actor_process_pid, None);
    assert_eq!(record.actor_process_user_uid, None);
}

#[test]
fn test_web_audit_truncates_long_header() {
    let long_user_agent = "x".repeat(2000);
    let request = tcp_request("/test", vec![(http::header::USER_AGENT, long_user_agent.as_str())]);
    let record = record_of(&request, &response(200, None));
    assert!(record.metadata_is_truncated);
    assert_eq!(record.http_request_user_agent.unwrap()[0].len(), 1024);
}

#[test]
fn test_web_audit_truncates_multiple_headers() {
    let long_value = "x".repeat(2000);
    let request = tcp_request(
        "/test",
        vec![(http::header::USER_AGENT, long_value.as_str()), (http::header::REFERER, long_value.as_str())],
    );
    let record = record_of(&request, &response(200, None));
    assert!(record.metadata_is_truncated);
}

#[test]
fn test_web_audit_not_truncated_for_short_headers() {
    let request = tcp_request("/test", vec![(http::header::USER_AGENT, "curl/8.0")]);
    let record = record_of(&request, &response(200, None));
    assert!(!record.metadata_is_truncated);
}

#[test]
fn test_web_audit_extracts_response_code_200() {
    let record = record_of(&tcp_request("/test", vec![]), &response(200, None));
    assert_eq!(record.http_response_code, 200);
    assert_eq!(record.status_id, 1);
    assert_eq!(record.status_code, None);
}

#[test]
fn test_web_audit_extracts_response_code_404() {
    let record = record_of(&tcp_request("/test", vec![]), &response(404, None));
    assert_eq!(record.http_response_code, 404);
    assert_eq!(record.status_id, 2);
    assert_eq!(record.status_code, Some("NotFound".to_string()));
}

#[test]
fn test_web_audit_extracts_response_code_500() {
    let record = record_of(&tcp_request("/test", vec![]), &response(500, None));
    assert_eq!(record.http_response_code, 500);
    assert_eq!(record.status_id, 2);
    assert_eq!(record.status_code, Some("InternalError".to_string()));
}

#[test]
fn test_web_audit_extracts_content_length() {
    let record = record_of(&tcp_request("/test", vec![]), &response(200, Some("1024")));
    assert_eq!(record.http_response_length, 1024);
}

#[test]
fn test_web_audit_missing_content_length_defaults_to_zero() {
    let record = record_of(&tcp_request("/test", vec![]), &response(200, None));
    assert_eq!(record.http_response_length, 0);
}

#[test]
fn test_web_audit_timestamps_are_iso8601() {
    let factory = WebAuditRecordFactory::default();
    let request = tcp_request("/test", vec![]);
    let fixed_time = UnixTime::new(1577836800, 0).unwrap();
    let builder = factory.extract_from_request(&request, fixed_time);
    let record = factory.extract_from_response(&response(200, None), builder);

    assert_eq!(record.start_time, "2020-01-01T00:00:00.000Z");
    assert_eq!(record.time, "2020-01-01T00:00:00.000Z");
    assert!(!record.end_time.is_empty());
    assert!(record.end_time.ends_with("Z"));
}

#[test]
fn test_web_audit_end_time_after_start_time() {
    let record = record_of(&tcp_request("/test", vec![]), &response(200, None));
    assert!(!record.start_time.is_empty());
    assert!(!record.end_time.is_empty());
    assert!(record.end_time.as_str() >= record.start_time.as_str());
}

#[test]
fn test_web_audit_extracts_unix_socket_info() {
    let connection = ConnectionInformation::unix_socket(Some(1234), Some(1000), Some("/tmp/hare.sock".to_string()));
    let request = request_with_request_id("/test", http::HeaderMap::new(), connection);
    let record = record_of(&request, &response(200, None));

    assert_eq!(record.actor_process_pid, Some(1234));
    assert_eq!(record.actor_process_user_uid, Some(1000));
    assert_eq!(record.src_endpoint_ip, None);
    assert_eq!(record.src_endpoint_port, None);
    assert_eq!(record.dst_endpoint_ip, None);
    assert_eq!(record.dst_endpoint_port, None);
    assert_eq!(record.dst_endpoint_socket_file_path, Some("/tmp/hare.sock".to_string()));
}

#[test]
fn test_audit_record_fields_emit_only_present_values() {
    let record = record_of(&tcp_request("/test", vec![]), &response(404, Some("12")));
    let fields = record.fields();
    let names: Vec<&str> = fields.iter().map(|field| field.name).collect();
    assert!(names.contains(&"http_request_url"));
    assert!(names.contains(&"status_code"));
    assert!(!names.contains(&"http_request_referer"));
    assert!(!names.contains(&"tls_cipher"));
}

#[test]
fn test_time_before_earliest_is_not_representable() {
    assert!(UnixTime::new(hare::time::EARLIEST_SECS - 1, 0).is_none());
    assert!(UnixTime::new(0, 1_000_000_000).is_none());
    assert!(UnixTime::new(hare::time::LATEST_SECS, 999_999_999).is_some());
}

#[test]
fn test_time_with_millis_formats_iso8601() {
    let time = UnixTime::new(1577836800, 123_456_789).unwrap();
    assert_eq!(time.to_iso8601(), "2020-01-01T00:00:00.123Z");
    assert_eq!(time.secs(), 1577836800);
    assert_eq!(time.nanos(), 123_456_789);
}

#[test]
fn test_try_from_parts_needs_request_id_and_connection() {
    let mut extensions = http::Extensions::new();
    assert!(AuditRequest::try_from_parts("/test".to_string(), http::HeaderMap::new(), &extensions).is_none());
    extensions.insert(tower_http::request_id::RequestId::new("id-1".parse().unwrap()));
    assert!(AuditRequest::try_from_parts("/test".to_string(), http::HeaderMap::new(), &extensions).is_none());
    extensions.insert(axum::extract::ConnectInfo(tcp_connection()));
    let request = AuditRequest::try_from_parts("/test".to_string(), http::HeaderMap::new(), &extensions).unwrap();
    assert_eq!(request.request_id, "id-1");
    assert_eq!(request.uri, "/test");
    assert_eq!(request.connect_info, tcp_connection());
}

#[test]
fn test_response_try_from_parts_reads_content_length() {
    let mut headers = http::HeaderMap::new();
    assert_eq!(AuditResponse::try_from_parts(200, &headers), Some(AuditResponse { status: 200, content_length: 0 }));
    headers.insert(http::header::CONTENT_LENGTH, "12".parse().unwrap());
    assert_eq!(AuditResponse::try_from_parts(404, &headers), Some(AuditResponse { status: 404, content_length: 12 }));
    headers.insert(http::header::CONTENT_LENGTH, "-1".parse().unwrap());
    assert_eq!(AuditResponse::try_from_parts(200, &headers), None);
}

#[test]
fn test_time_at_the_bounds_formats() {
    let earliest = UnixTime::new(hare::time::EARLIEST_SECS, 0).unwrap();
    assert_eq!(earliest.to_iso8601(), "-262143-01-01T00:00:00.000Z");
    let latest = UnixTime::new(hare::time::LATEST_SECS, 999_999_999).unwrap();
    let text = latest.to_iso8601();
    assert!(text.contains("262142-12-31T23:59:59.999"));
    assert!(text.ends_with("Z"));
    assert!(UnixTime::new(hare::time::EARLIEST_SECS - 86_400, 0).is_none());
}
