//! Audit records of the redirect web server.
use vstd::prelude::*;

use crate::audit_log::{
    extract_header_values, extract_status_code, extract_status_id, option_string_view,
    request_header_text, status_code_name, status_id_of, strings_view, AuditRecordFactory,
    AuditRequest, AuditResponse, HeaderPosition,
};
use crate::audit_record::{AuditRecord, AuditRecordBuilder};
use crate::time::{now_iso8601, utc_millis_text, UnixTime};

verus! {

/// Factory for creating audit records from the web server's HTTP requests and responses.
#[derive(Debug, Clone, Copy, Default)]
pub struct WebAuditRecordFactory;

impl AuditRecordFactory for WebAuditRecordFactory {
    /// Fills in the request-level fields: the connection information, the URL, the
    /// referer, user agent and last forwarded header, the request ID, and the start time.
    fn extract_from_request(&self, request: &AuditRequest, start_time: UnixTime) -> (builder:
        AuditRecordBuilder)
        ensures
            builder.actor_process_pid == request.connect_info.actor_process_pid,
            builder.actor_process_user_uid == request.connect_info.actor_process_user_uid,
            builder.dst_endpoint_ip == request.connect_info.dst_endpoint_ip,
            builder.dst_endpoint_port == request.connect_info.dst_endpoint_port,
            builder.dst_endpoint_socket_file_path
                == request.connect_info.dst_endpoint_socket_file_path,
            builder.src_endpoint_ip == request.connect_info.src_endpoint_ip,
            builder.src_endpoint_port == request.connect_info.src_endpoint_port,
            builder.http_request_url@ == request.uri@,
            builder.http_request_uid@ == request.request_id@,
            strings_view(builder.http_request_referer) == request_header_text(
                request.headers,
                "referer"@,
                None,
                None,
            ).0,
            strings_view(builder.http_request_user_agent) == request_header_text(
                request.headers,
                "user-agent"@,
                None,
                None,
            ).0,
            strings_view(builder.http_request_x_forwarded_for) == request_header_text(
                request.headers,
                "forwarded"@,
                None,
                Some(HeaderPosition::Last),
            ).0,
            builder.metadata_is_truncated == (request_header_text(
                request.headers,
                "referer"@,
                None,
                None,
            ).1 || request_header_text(request.headers, "user-agent"@, None, None).1
                || request_header_text(
                request.headers,
                "forwarded"@,
                None,
                Some(HeaderPosition::Last),
            ).1),
            builder.start_time@ == utc_millis_text(
                start_time.spec_secs() as int,
                start_time.spec_nanos() as int,
            ),
            builder.time@ == builder.start_time@,
    {
        let (http_request_referer, referer_truncated) = extract_header_values(
            &request.headers,
            "referer",
            None,
            None,
        );
        let (http_request_user_agent, ua_truncated) = extract_header_values(
            &request.headers,
            "user-agent",
            None,
            None,
        );
        // Only the last forwarded header is kept: earlier ones may have been set by
        // untrusted proxies further up the network chain.
        let (http_request_x_forwarded_for, forwarded_truncated) = extract_header_values(
            &request.headers,
            "forwarded",
            None,
            Some(HeaderPosition::Last),
        );
        let timestamp = start_time.to_iso8601();
        let connect_info = &request.connect_info;
        AuditRecordBuilder {
            actor_process_pid: connect_info.actor_process_pid,
            actor_process_user_uid: connect_info.actor_process_user_uid,
            dst_endpoint_ip: connect_info.dst_endpoint_ip.clone(),
            dst_endpoint_port: connect_info.dst_endpoint_port,
            dst_endpoint_socket_file_path: connect_info.dst_endpoint_socket_file_path.clone(),
            http_request_url: request.uri.clone(),
            http_request_referer,
            http_request_user_agent,
            http_request_x_forwarded_for,
            http_request_uid: request.request_id.clone(),
            metadata_is_truncated: referer_truncated || ua_truncated || forwarded_truncated,
            src_endpoint_ip: connect_info.src_endpoint_ip.clone(),
            src_endpoint_port: connect_info.src_endpoint_port,
            start_time: timestamp.clone(),
            time: timestamp,
        }
    }

    /// Completes the record with the response code and length, the status derived
    /// from the code, and the current time as end time.
    fn extract_from_response(&self, response: &AuditResponse, builder: AuditRecordBuilder) -> (record:
        AuditRecord)
        ensures
            record.http_response_code == response.status,
            record.http_response_length == response.content_length,
            record.status_id == status_id_of(response.status),
            option_string_view(record.status_code) == status_code_name(response.status),
            record.end_time@.len() > 0 && record.end_time@.last() == 'Z',
            record.actor_process_pid == builder.actor_process_pid,
            record.actor_process_user_uid == builder.actor_process_user_uid,
            record.actor_user_account_uid is None,
            record.actor_user_name is None,
            record.actor_user_uid is None,
            record.dst_endpoint_ip == builder.dst_endpoint_ip,
            record.dst_endpoint_port == builder.dst_endpoint_port,
            record.dst_endpoint_socket_file_path == builder.dst_endpoint_socket_file_path,
            record.http_request_referer == builder.http_request_referer,
            record.http_request_uid == builder.http_request_uid,
            record.http_request_url == builder.http_request_url,
            record.http_request_user_agent == builder.http_request_user_agent,
            record.http_request_x_forwarded_for == builder.http_request_x_forwarded_for,
            record.metadata_is_truncated == builder.metadata_is_truncated,
            record.src_endpoint_ip == builder.src_endpoint_ip,
            record.src_endpoint_port == builder.src_endpoint_port,
            record.start_time == builder.start_time,
            record.status_details is None,
            record.time == builder.time,
            record.tls_cipher is None,
            record.tls_version is None,
    {
        let end_time = now_iso8601();
        builder.build(
            response.status,
            response.content_length,
            extract_status_id(response.status),
            extract_status_code(response.status),
            end_time,
        )
    }
}

} // verus!
