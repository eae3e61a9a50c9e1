use hare::audit_log::{
    extract_header_values, extract_http_response_code, extract_http_response_length, extract_request_id,
    extract_status_code, extract_status_id, AuditRecordFactory, AuditRequest, AuditResponse, HeaderPosition,
    MAXIMUM_HEADER_COUNT, MAXIMUM_HEADER_VALUE_LENGTH,
};
use hare::audit_record::{AuditRecord, AuditRecordBuilder};
use hare::connect_info::ConnectionInformation;
use hare::time::UnixTime;

// ============================================================================
// extract_request_id() tests
// ============================================================================

#[test]
fn test_extract_request_id_when_present_then_returns_id() {
    let mut extensions = http::Extensions::new();
    extensions.insert(tower_http::request_id::RequestId::new("test-request-123".parse().unwrap()));

    let request_id = extract_request_id(&extensions);
    assert_eq!(request_id, "test-request-123");
}

#[test]
#[should_panic(expected = "RequestId must be set")]
fn test_extract_request_id_when_missing_then_panics() {
    let extensions = http::Extensions::new();
    extract_request_id(&extensions);
}

// ============================================================================
// extract_header_values() tests
// ============================================================================

#[test]
fn test_extract_header_values_when_not_present_then_none() {
    let headers = http::HeaderMap::new();
    let (values, was_truncated) = extract_header_values(&headers, http::header::REFERER.as_str(), None, None);
    assert_eq!(values, None);
    assert_eq!(was_truncated, false);
}

#[test]
fn test_extract_header_values_when_single_header_then_returns_value() {
    let mut headers = http::HeaderMap::new();
    headers.insert(http::header::USER_AGENT, "Mozilla/5.0".parse().unwrap());

    let (values, was_truncated) = extract_header_values(&headers, http::header::USER_AGENT.as_str(), None, None);
    assert_eq!(values, Some(vec!["Mozilla/5.0".to_string()]));
    assert_eq!(was_truncated, false);
}

#[test]
fn test_extract_header_values_when_multiple_with_position_all_then_returns_all() {
    let mut headers = http::HeaderMap::new();
    headers.append(http::header::ACCEPT, "application/json".parse().unwrap());
    headers.append(http::header::ACCEPT, "text/html".parse().unwrap());
    headers.append(http::header::ACCEPT, "text/plain".parse().unwrap());

    let (values, was_truncated) =
        extract_header_values(&headers, http::header::ACCEPT.as_str(), None, Some(HeaderPosition::All));
    assert_eq!(values.as_ref().map(|v| v.len()), Some(3));
    assert!(values.unwrap().contains(&"application/json".to_string()));
    assert_eq!(was_truncated, false);
}

#[test]
fn test_extract_header_values_when_max_count_specified_then_respects_limit() {
    let mut headers = http::HeaderMap::new();
    headers.append(http::header::ACCEPT, "value1".parse().unwrap());
    headers.append(http::header::ACCEPT, "value2".parse().unwrap());
    headers.append(http::header::ACCEPT, "value3".parse().unwrap());
    headers.append(http::header::ACCEPT, "value4".parse().unwrap());

    let (values, _) =
        extract_header_values(&headers, http::header::ACCEPT.as_str(), Some(2), Some(HeaderPosition::All));
    assert_eq!(values.map(|v| v.len()), Some(2));
}

#[test]
fn test_extract_header_values_when_position_first_then_returns_first_only() {
    let mut headers = http::HeaderMap::new();
    headers.append(http::header::ACCEPT, "first".parse().unwrap());
    headers.append(http::header::ACCEPT, "second".parse().unwrap());
    headers.append(http::header::ACCEPT, "third".parse().unwrap());

    let (values, _) =
        extract_header_values(&headers, http::header::ACCEPT.as_str(), None, Some(HeaderPosition::First));
    assert_eq!(values, Some(vec!["first".to_string()]));
}

#[test]
fn test_extract_header_values_when_position_last_then_returns_last_only() {
    let mut headers = http::HeaderMap::new();
    headers.append(http::header::ACCEPT, "first".parse().unwrap());
    headers.append(http::header::ACCEPT, "second".parse().unwrap());
    headers.append(http::header::ACCEPT, "third".parse().unwrap());

    let (values, _) =
        extract_header_values(&headers, http::header::ACCEPT.as_str(), None, Some(HeaderPosition::Last));
    assert_eq!(values, Some(vec!["third".to_string()]));
}

#[test]
fn test_extract_header_values_when_value_exceeds_max_length_then_truncates_and_flags() {
    let mut headers = http::HeaderMap::new();
    let long_value = "x".repeat(MAXIMUM_HEADER_VALUE_LENGTH + 100);
    headers.insert(http::header::USER_AGENT, long_value.parse().unwrap());

    let (values, was_truncated) = extract_header_values(&headers, http::header::USER_AGENT.as_str(), None, None);
    assert_eq!(was_truncated, true);
    assert_eq!(values.unwrap()[0].len(), MAXIMUM_HEADER_VALUE_LENGTH);
}

#[test]
fn test_extract_header_values_when_no_max_count_then_uses_default() {
    let mut headers = http::HeaderMap::new();
    for i in 0..10 {
        headers.append(http::header::ACCEPT, format!("value{}", i).parse().unwrap());
    }

    let (values, _) = extract_header_values(&headers, http::header::ACCEPT.as_str(), None, Some(HeaderPosition::All));
    assert_eq!(values.map(|v| v.len()), Some(MAXIMUM_HEADER_COUNT));
}

// ============================================================================
// extract_http_response_code() tests
// ============================================================================

#[test]
fn test_extract_http_response_code_when_status_200_then_returns_200() {
    let response = http::Response::builder().status(200).body(()).unwrap();
    assert_eq!(extract_http_response_code(&response), 200);
}

#[test]
fn test_extract_http_response_code_when_status_404_then_returns_404() {
    let response = http::Response::builder().status(404).body(()).unwrap();
    assert_eq!(extract_http_response_code(&response), 404);
}

#[test]
fn test_extract_http_response_code_when_status_500_then_returns_500() {
    let response = http::Response::builder().status(500).body(()).unwrap();
    assert_eq!(extract_http_response_code(&response), 500);
}

// ============================================================================
// extract_http_response_length() tests
// ============================================================================

#[test]
fn test_extract_http_response_length_when_valid_then_returns_value() {
    let mut headers = http::HeaderMap::new();
    headers.insert(http::header::CONTENT_LENGTH, "1024".parse().unwrap());
    assert_eq!(extract_http_response_length(&headers), 1024);
}

#[test]
fn test_extract_http_response_length_when_zero_then_returns_zero() {
    let mut headers = http::HeaderMap::new();
    headers.insert(http::header::CONTENT_LENGTH, "0".parse().unwrap());
    assert_eq!(extract_http_response_length(&headers), 0);
}

#[test]
fn test_extract_http_response_length_when_large_value_then_returns_value() {
    let mut headers = http::HeaderMap::new();
    headers.insert(http::header::CONTENT_LENGTH, "9999999999".parse().unwrap());
    assert_eq!(extract_http_response_length(&headers), 9999999999);
}

#[test]
fn test_extract_http_response_length_when_missing_then_returns_zero() {
    let headers = http::HeaderMap::new();
    assert_eq!(extract_http_response_length(&headers), 0);
}

#[test]
#[should_panic(expected = "Content-Length must be a non-negative integer")]
fn test_extract_http_response_length_when_negative_then_panics() {
    let mut headers = http::HeaderMap::new();
    headers.insert(http::header::CONTENT_LENGTH, "-1".parse().unwrap());
    extract_http_response_length(&headers);
}

#[test]
#[should_panic(expected = "Content-Length must be a non-negative integer")]
fn test_extract_http_response_length_when_non_numeric_then_panics() {
    let mut headers = http::HeaderMap::new();
    headers.insert(http::header::CONTENT_LENGTH, "not_a_number".parse().unwrap());
    extract_http_response_length(&headers);
}

#[test]
#[should_panic(expected = "Content-Length must be a non-negative integer")]
fn test_extract_http_response_length_when_overflow_then_panics() {
    let mut headers = http::HeaderMap::new();
    headers.insert(http::header::CONTENT_LENGTH, "99999999999999999999".parse().unwrap());
    extract_http_response_length(&headers);
}

// ============================================================================
// extract_status_id() tests
// ============================================================================

fn status_of(code: u16) -> u16 {
    let response = http::Response::builder().status(code).body(()).unwrap();
    extract_http_response_code(&response)
}

#[test]
fn test_extract_status_id_when_2xx_then_returns_1() {
    assert_eq!(extract_status_id(status_of(200)), 1);
    assert_eq!(extract_status_id(status_of(201)), 1);
    assert_eq!(extract_status_id(status_of(299)), 1);
}

#[test]
fn test_extract_status_id_when_3xx_then_returns_1() {
    assert_eq!(extract_status_id(status_of(300)), 1);
    assert_eq!(extract_status_id(status_of(301)), 1);
    assert_eq!(extract_status_id(status_of(399)), 1);
}

#[test]
fn test_extract_status_id_when_4xx_then_returns_2() {
    assert_eq!(extract_status_id(status_of(400)), 2);
    assert_eq!(extract_status_id(status_of(404)), 2);
    assert_eq!(extract_status_id(status_of(499)), 2);
}

#[test]
fn test_extract_status_id_when_5xx_then_returns_2() {
    assert_eq!(extract_status_id(status_of(500)), 2);
    assert_eq!(extract_status_id(status_of(502)), 2);
    assert_eq!(extract_status_id(status_of(599)), 2);
}

#[test]
fn test_extract_status_id_when_1xx_then_returns_0() {
    assert_eq!(extract_status_id(status_of(100)), 0);
}

// ============================================================================
// extract_status_code() tests
// ============================================================================

#[test]
fn test_extract_status_code_when_2xx_then_returns_none() {
    assert_eq!(extract_status_code(status_of(200)), None);
    assert_eq!(extract_status_code(status_of(204)), None);
}

#[test]
fn test_extract_status_code_when_3xx_then_returns_none() {
    assert_eq!(extract_status_code(status_of(301)), None);
}

#[test]
fn test_extract_status_code_when_known_error_codes_then_returns_string() {
    assert_eq!(extract_status_code(status_of(400)), Some("BadRequest".to_string()));
    assert_eq!(extract_status_code(status_of(401)), Some("Unauthorized".to_string()));
    assert_eq!(extract_status_code(status_of(403)), Some("Forbidden".to_string()));
    assert_eq!(extract_status_code(status_of(404)), Some("NotFound".to_string()));
    assert_eq!(extract_status_code(status_of(500)), Some("InternalError".to_string()));
}

#[test]
fn test_extract_status_code_when_unmapped_error_code_then_returns_none() {
    assert_eq!(extract_status_code(status_of(418)), None);
}

// ============================================================================
// AuditRecordFactory tests
// ============================================================================

/// Mock factory implementation for testing trait behavior
#[derive(Clone)]
struct MockAuditRecordFactory;

impl AuditRecordFactory for MockAuditRecordFactory {
    fn extract_from_request(&self, _request: &AuditRequest, start_time: UnixTime) -> AuditRecordBuilder {
        let timestamp = start_time.to_iso8601();

        AuditRecordBuilder {
            actor_process_pid: None,
            actor_process_user_uid: None,
            dst_endpoint_ip: None,
            dst_endpoint_port: None,
            dst_endpoint_socket_file_path: None,
            http_request_url: "http://test.example.com/test".to_string(),
            http_request_referer: None,
            http_request_user_agent: None,
            http_request_x_forwarded_for: None,
            http_request_uid: "test-request-id".to_string(),
            metadata_is_truncated: false,
            src_endpoint_ip: None,
            src_endpoint_port: None,
            start_time: timestamp.clone(),
            time: timestamp,
        }
    }

    fn extract_from_response(&self, response: &AuditResponse, builder: AuditRecordBuilder) -> AuditRecord {
        let end_time = chrono::Utc::now().format("%Y-%m-%dT%H:%M:%S%.3fZ").to_string();

        builder.build(
            response.status,
            0,
            extract_status_id(response.status),
            extract_status_code(response.status),
            end_time,
        )
    }
}

fn request_for(uri: &str) -> AuditRequest {
    let mut extensions = http::Extensions::new();
    extensions.insert(tower_http::request_id::RequestId::new("test-request-id".parse().unwrap()));
    extensions.insert(axum::extract::ConnectInfo(ConnectionInformation::tcp(
        Some("192.168.1.100".to_string()),
        Some(54321),
        Some("127.0.0.1".to_string()),
        Some(8080),
    )));
    AuditRequest::from_parts(uri.to_string(), http::HeaderMap::new(), &extensions)
}

fn response_for(code: u16) -> AuditResponse {
    let response = http::Response::builder().status(code).body(()).unwrap();
    AuditResponse::from_parts(extract_http_response_code(&response), response.headers())
}

fn now() -> UnixTime {
    let since_epoch = std::time::SystemTime::now().duration_since(std::time::UNIX_EPOCH).unwrap();
    UnixTime::new(since_epoch.as_secs() as i64, since_epoch.subsec_nanos()).unwrap()
}

#[test]
fn test_audit_record_factory_trait_is_send_and_sync() {
    // This test verifies that any type implementing AuditRecordFactory
    // is Send + Sync, which is required by the Service trait bounds
    fn assert_send_sync<T: Send + Sync>() {}
    assert_send_sync::<MockAuditRecordFactory>();
}

#[test]
fn test_audit_record_factory_trait_is_clone() {
    // This test verifies that any type implementing AuditRecordFactory
    // is Clone, which is required by the Service trait
    let factory = MockAuditRecordFactory;
    let _factory_clone = factory.clone();
}

#[test]
fn test_audit_record_factory_extract_request_then_response_returns_complete_record() {
    let factory = MockAuditRecordFactory;
    let request = request_for("http://test.example.com/test");

    let response = response_for(200);

    let builder = factory.extract_from_request(&request, now());
    let audit_record = factory.extract_from_response(&response, builder);

    // Verify the complete audit record has expected fields from both request and response
    assert_eq!(audit_record.http_request_url, "http://test.example.com/test");
    assert_eq!(audit_record.http_request_uid, "test-request-id");
    assert_eq!(audit_record.http_response_code, 200);
    assert_eq!(audit_record.status_id, 1); // 2xx code maps to 1
    assert_eq!(audit_record.status_code, None); // 2xx codes return None
}

#[test]
fn test_audit_record_factory_handles_error_response() {
    let factory = MockAuditRecordFactory;
    let request = request_for("http://test.example.com/test");

    let response = response_for(404);

    let builder = factory.extract_from_request(&request, now());
    let audit_record = factory.extract_from_response(&response, builder);

    // Verify error response fields
    assert_eq!(audit_record.http_response_code, 404);
    assert_eq!(audit_record.status_id, 2); // 4xx code maps to 2
    assert_eq!(audit_record.status_code, Some("NotFound".to_string()));
}

#[test]
fn test_audit_record_factory_timestamps_are_iso8601_format() {
    let factory = MockAuditRecordFactory;
    let request = request_for("http://test.example.com/test");

    let response = response_for(200);

    // Use a fixed time to get a predictable timestamp
    let fixed_time = UnixTime::new(1577836800, 0).unwrap(); // 2020-01-01T00:00:00Z
    let builder = factory.extract_from_request(&request, fixed_time);
    let audit_record = factory.extract_from_response(&response, builder);

    // Verify start_time is the expected ISO-8601 format
    assert_eq!(audit_record.start_time, "2020-01-01T00:00:00.000Z");
    // end_time will be current time, so just verify it's not empty and follows the pattern
    assert!(!audit_record.end_time.is_empty());
    assert!(audit_record.end_time.ends_with("Z"));
}
