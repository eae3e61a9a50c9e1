//! Audit records of single request-response exchanges.
use vstd::prelude::*;

verus! {

/// An audit record of a single request-response from the service.
///
/// A good audit record captures:
///     * When (timestamp of the event)
///     * Who (the actor that performed an action or triggered the event)
///     * What (the resources impacted by the request)
///     * Result (whether the action was successful and the resulting impact)
///
/// The fields in this record are modelled after the Open Cybersecurity Schema Framework
/// Network Activity class.
#[derive(Debug, Clone)]
pub struct AuditRecord {
    /// The PID of the process that initiated the connection (Unix domain sockets only).
    pub actor_process_pid: Option<i32>,
    /// The UID of the user that owned the connection-initiating process (Unix domain sockets only).
    pub actor_process_user_uid: Option<u32>,
    /// Account identifier of the calling identity.
    pub actor_user_account_uid: Option<String>,
    /// Name of the calling identity.
    pub actor_user_name: Option<String>,
    /// Identifier of the calling identity.
    pub actor_user_uid: Option<String>,
    /// IP address of the destination endpoint (node that received the request).
    pub dst_endpoint_ip: Option<String>,
    /// Port of the destination endpoint (node that received the request).
    pub dst_endpoint_port: Option<u16>,
    /// The full path to the connection socket file (Unix domain sockets only).
    pub dst_endpoint_socket_file_path: Option<String>,
    /// Timestamp when request processing finished.
    pub end_time: String,
    /// HTTP Referer header values.
    pub http_request_referer: Option<Vec<String>>,
    /// Identifier of the request.
    pub http_request_uid: String,
    /// URL of the request.
    pub http_request_url: String,
    /// HTTP User-Agent header values.
    pub http_request_user_agent: Option<Vec<String>>,
    /// HTTP Forwarded header values.
    pub http_request_x_forwarded_for: Option<Vec<String>>,
    /// HTTP response code.
    pub http_response_code: u16,
    /// Response size in bytes.
    pub http_response_length: u64,
    /// Whether any or all fields in the audit record are truncated.
    pub metadata_is_truncated: bool,
    /// IP address of the source endpoint (prior network hop).
    pub src_endpoint_ip: Option<String>,
    /// Port of the source endpoint (prior network hop).
    pub src_endpoint_port: Option<u16>,
    /// Timestamp when request was received.
    pub start_time: String,
    /// Status of the request: 0 unknown, 1 success, 2 failure, 99 other.
    pub status_id: u16,
    /// Status code of the request (e.g. error code).
    pub status_code: Option<String>,
    /// Additional information about the request status (e.g. error message).
    pub status_details: Option<String>,
    /// Timestamp when request was received.
    pub time: String,
    /// Cipher of the negotiated TLS session.
    pub tls_cipher: Option<String>,
    /// Version of the negotiated TLS session.
    pub tls_version: Option<String>,
}

/// The request-level part of an audit record, filled in before the request is served.
#[derive(Debug, Clone)]
pub struct AuditRecordBuilder {
    pub actor_process_pid: Option<i32>,
    pub actor_process_user_uid: Option<u32>,
    pub dst_endpoint_ip: Option<String>,
    pub dst_endpoint_port: Option<u16>,
    pub dst_endpoint_socket_file_path: Option<String>,
    pub http_request_url: String,
    pub http_request_referer: Option<Vec<String>>,
    pub http_request_user_agent: Option<Vec<String>>,
    pub http_request_x_forwarded_for: Option<Vec<String>>,
    pub http_request_uid: String,
    pub metadata_is_truncated: bool,
    pub src_endpoint_ip: Option<String>,
    pub src_endpoint_port: Option<u16>,
    pub start_time: String,
    pub time: String,
}

impl AuditRecordBuilder {
    /// Complete the record with the response-level fields; the identity, status
    /// details and TLS fields stay empty.
    pub fn build(
        self,
        http_response_code: u16,
        http_response_length: u64,
        status_id: u16,
        status_code: Option<String>,
        end_time: String,
    ) -> (record: AuditRecord)
        ensures
            record == (AuditRecord {
                actor_process_pid: self.actor_process_pid,
                actor_process_user_uid: self.actor_process_user_uid,
                actor_user_account_uid: None,
                actor_user_name: None,
                actor_user_uid: None,
                dst_endpoint_ip: self.dst_endpoint_ip,
                dst_endpoint_port: self.dst_endpoint_port,
                dst_endpoint_socket_file_path: self.dst_endpoint_socket_file_path,
                end_time,
                http_request_referer: self.http_request_referer,
                http_request_uid: self.http_request_uid,
                http_request_url: self.http_request_url,
                http_request_user_agent: self.http_request_user_agent,
                http_request_x_forwarded_for: self.http_request_x_forwarded_for,
                http_response_code,
                http_response_length,
                metadata_is_truncated: self.metadata_is_truncated,
                src_endpoint_ip: self.src_endpoint_ip,
                src_endpoint_port: self.src_endpoint_port,
                start_time: self.start_time,
                status_id,
                status_code,
                status_details: None,
                time: self.time,
                tls_cipher: None,
                tls_version: None,
            }),
    {
        AuditRecord {
            actor_process_pid: self.actor_process_pid,
            actor_process_user_uid: self.actor_process_user_uid,
            actor_user_account_uid: None,
            actor_user_name: None,
            actor_user_uid: None,
            dst_endpoint_ip: self.dst_endpoint_ip,
            dst_endpoint_port: self.dst_endpoint_port,
            dst_endpoint_socket_file_path: self.dst_endpoint_socket_file_path,
            end_time,
            http_request_referer: self.http_request_referer,
            http_request_uid: self.http_request_uid,
            http_request_url: self.http_request_url,
            http_request_user_agent: self.http_request_user_agent,
            http_request_x_forwarded_for: self.http_request_x_forwarded_for,
            http_response_code,
            http_response_length,
            metadata_is_truncated: self.metadata_is_truncated,
            src_endpoint_ip: self.src_endpoint_ip,
            src_endpoint_port: self.src_endpoint_port,
            start_time: self.start_time,
            status_id,
            status_code,
            status_details: None,
            time: self.time,
            tls_cipher: None,
            tls_version: None,
        }
    }
}

/// The value of one emitted audit field.
#[derive(Debug, Clone, PartialEq, Eq)]
pub enum AuditValue {
    Int(i32),
    UnsignedInt(u32),
    Short(u16),
    Long(u64),
    Flag(bool),
    Text(String),
    TextList(Vec<String>),
}

/// One emitted audit field: its name and its value.
#[derive(Debug, Clone, PartialEq, Eq)]
pub struct AuditField {
    pub name: &'static str,
    pub value: AuditValue,
}

/// The fields emitted so far, followed by one more field.
pub open spec fn emit(fields: Seq<(Seq<char>, AuditValue)>, name: Seq<char>, value: AuditValue) -> Seq<
    (Seq<char>, AuditValue),
> {
    fields.push((name, value))
}

/// The fields emitted so far, followed by one more field when it has a value.
pub open spec fn emit_optional(
    fields: Seq<(Seq<char>, AuditValue)>,
    name: Seq<char>,
    value: Option<AuditValue>,
) -> Seq<(Seq<char>, AuditValue)> {
    match value {
        Some(v) => fields.push((name, v)),
        None => fields,
    }
}

pub open spec fn opt_int(v: Option<i32>) -> Option<AuditValue> {
    match v {
        Some(x) => Some(AuditValue::Int(x)),
        None => None,
    }
}

pub open spec fn opt_unsigned(v: Option<u32>) -> Option<AuditValue> {
    match v {
        Some(x) => Some(AuditValue::UnsignedInt(x)),
        None => None,
    }
}

pub open spec fn opt_short(v: Option<u16>) -> Option<AuditValue> {
    match v {
        Some(x) => Some(AuditValue::Short(x)),
        None => None,
    }
}

pub open spec fn opt_text(v: Option<String>) -> Option<AuditValue> {
    match v {
        Some(x) => Some(AuditValue::Text(x)),
        None => None,
    }
}

pub open spec fn opt_text_list(v: Option<Vec<String>>) -> Option<AuditValue> {
    match v {
        Some(x) => Some(AuditValue::TextList(x)),
        None => None,
    }
}

#[verifier::opaque]
pub open spec fn field_views(fields: Seq<AuditField>) -> Seq<(Seq<char>, AuditValue)> {
    fields.map_values(|f: AuditField| (f.name@, f.value))
}

/// The fields a record emits, in order: every required field, and every optional
/// field that is populated.
pub open spec fn emitted_fields(r: AuditRecord) -> Seq<(Seq<char>, AuditValue)> {
    let f = Seq::empty();
    let f = emit_optional(f, "actor_process_pid"@, opt_int(r.actor_process_pid));
    let f = emit_optional(f, "actor_process_user_uid"@, opt_unsigned(r.actor_process_user_uid));
    let f = emit_optional(f, "actor_user_account_uid"@, opt_text(r.actor_user_account_uid));
    let f = emit_optional(f, "actor_user_name"@, opt_text(r.actor_user_name));
    let f = emit_optional(f, "actor_user_uid"@, opt_text(r.actor_user_uid));
    let f = emit_optional(f, "dst_endpoint_ip"@, opt_text(r.dst_endpoint_ip));
    let f = emit_optional(f, "dst_endpoint_port"@, opt_short(r.dst_endpoint_port));
    let f = emit_optional(
        f,
        "dst_endpoint_socket_file_path"@,
        opt_text(r.dst_endpoint_socket_file_path),
    );
    let f = emit(f, "end_time"@, AuditValue::Text(r.end_time));
    let f = emit_optional(f, "http_request_referer"@, opt_text_list(r.http_request_referer));
    let f = emit(f, "http_request_uid"@, AuditValue::Text(r.http_request_uid));
    let f = emit(f, "http_request_url"@, AuditValue::Text(r.http_request_url));
    let f = emit_optional(f, "http_request_user_agent"@, opt_text_list(r.http_request_user_agent));
    let f = emit_optional(
        f,
        "http_request_x_forwarded_for"@,
        opt_text_list(r.http_request_x_forwarded_for),
    );
    let f = emit(f, "http_response_code"@, AuditValue::Short(r.http_response_code));
    let f = emit(f, "http_response_length"@, AuditValue::Long(r.http_response_length));
    let f = emit(f, "metadata_is_truncated"@, AuditValue::Flag(r.metadata_is_truncated));
    let f = emit_optional(f, "src_endpoint_ip"@, opt_text(r.src_endpoint_ip));
    let f = emit_optional(f, "src_endpoint_port"@, opt_short(r.src_endpoint_port));
    let f = emit(f, "start_time"@, AuditValue::Text(r.start_time));
    let f = emit(f, "status_id"@, AuditValue::Short(r.status_id));
    let f = emit_optional(f, "status_code"@, opt_text(r.status_code));
    let f = emit_optional(f, "status_details"@, opt_text(r.status_details));
    let f = emit(f, "time"@, AuditValue::Text(r.time));
    let f = emit_optional(f, "tls_cipher"@, opt_text(r.tls_cipher));
    emit_optional(f, "tls_version"@, opt_text(r.tls_version))
}

fn push_field(fields: &mut Vec<AuditField>, name: &'static str, value: AuditValue)
    ensures
        field_views(final(fields)@) == emit(field_views(old(fields)@), name@, value),
{
    let ghost before = fields@;
    fields.push(AuditField { name, value });
    proof {
        reveal(field_views);
    }
    assert(field_views(fields@) =~= emit(field_views(before), name@, value));
}

fn push_optional_field(fields: &mut Vec<AuditField>, name: &'static str, value: Option<AuditValue>)
    ensures
        field_views(final(fields)@) == emit_optional(field_views(old(fields)@), name@, value),
{
    match value {
        Some(v) => push_field(fields, name, v),
        None => {},
    }
}

fn text_value(s: Option<String>) -> (v: Option<AuditValue>)
    ensures
        v == opt_text(s),
{
    match s {
        Some(t) => Some(AuditValue::Text(t)),
        None => None,
    }
}

fn text_list_value(s: Option<Vec<String>>) -> (v: Option<AuditValue>)
    ensures
        v == opt_text_list(s),
{
    match s {
        Some(t) => Some(AuditValue::TextList(t)),
        None => None,
    }
}

fn int_value(s: Option<i32>) -> (v: Option<AuditValue>)
    ensures
        v == opt_int(s),
{
    match s {
        Some(x) => Some(AuditValue::Int(x)),
        None => None,
    }
}

fn unsigned_value(s: Option<u32>) -> (v: Option<AuditValue>)
    ensures
        v == opt_unsigned(s),
{
    match s {
        Some(x) => Some(AuditValue::UnsignedInt(x)),
        None => None,
    }
}

fn short_value(s: Option<u16>) -> (v: Option<AuditValue>)
    ensures
        v == opt_short(s),
{
    match s {
        Some(x) => Some(AuditValue::Short(x)),
        None => None,
    }
}

impl AuditRecord {
    /// The fields the record emits to a log, in order. Optional fields are emitted
    /// only when populated; required fields always are.
    pub fn fields(self) -> (fields: Vec<AuditField>)
        ensures
            field_views(fields@) == emitted_fields(self),
    {
        let r = self;
        let mut f: Vec<AuditField> = Vec::new();
        proof {
            reveal(field_views);
        }
        assert(field_views(f@) =~= Seq::empty());
        push_optional_field(&mut f, "actor_process_pid", int_value(r.actor_process_pid));
        push_optional_field(&mut f, "actor_process_user_uid", unsigned_value(r.actor_process_user_uid));
        push_optional_field(&mut f, "actor_user_account_uid", text_value(r.actor_user_account_uid));
        push_optional_field(&mut f, "actor_user_name", text_value(r.actor_user_name));
        push_optional_field(&mut f, "actor_user_uid", text_value(r.actor_user_uid));
        push_optional_field(&mut f, "dst_endpoint_ip", text_value(r.dst_endpoint_ip));
        push_optional_field(&mut f, "dst_endpoint_port", short_value(r.dst_endpoint_port));
        push_optional_field(
            &mut f,
            "dst_endpoint_socket_file_path",
            text_value(r.dst_endpoint_socket_file_path),
        );
        push_field(&mut f, "end_time", AuditValue::Text(r.end_time));
        push_optional_field(&mut f, "http_request_referer", text_list_value(r.http_request_referer));
        push_field(&mut f, "http_request_uid", AuditValue::Text(r.http_request_uid));
        push_field(&mut f, "http_request_url", AuditValue::Text(r.http_request_url));
        push_optional_field(
            &mut f,
            "http_request_user_agent",
            text_list_value(r.http_request_user_agent),
        );
        push_optional_field(
            &mut f,
            "http_request_x_forwarded_for",
            text_list_value(r.http_request_x_forwarded_for),
        );
        push_field(&mut f, "http_response_code", AuditValue::Short(r.http_response_code));
        push_field(&mut f, "http_response_length", AuditValue::Long(r.http_response_length));
        push_field(&mut f, "metadata_is_truncated", AuditValue::Flag(r.metadata_is_truncated));
        push_optional_field(&mut f, "src_endpoint_ip", text_value(r.src_endpoint_ip));
        push_optional_field(&mut f, "src_endpoint_port", short_value(r.src_endpoint_port));
        push_field(&mut f, "start_time", AuditValue::Text(r.start_time));
        push_field(&mut f, "status_id", AuditValue::Short(r.status_id));
        push_optional_field(&mut f, "status_code", text_value(r.status_code));
        push_optional_field(&mut f, "status_details", text_value(r.status_details));
        push_field(&mut f, "time", AuditValue::Text(r.time));
        push_optional_field(&mut f, "tls_cipher", text_value(r.tls_cipher));
        push_optional_field(&mut f, "tls_version", text_value(r.tls_version));
        f
    }
}

/// Every audit record emits each of its required fields (`end_time`, `http_request_uid`,
/// `http_request_url`, `http_response_code`, `http_response_length`,
/// `metadata_is_truncated`, `start_time`, `status_id`, `time`) with its value, and each
/// optional field that is populated with its value.
pub proof fn lemma_audit_fields_complete(r: AuditRecord)
    ensures
        emitted_fields(r).contains(("end_time"@, AuditValue::Text(r.end_time))),
        emitted_fields(r).contains(("http_request_uid"@, AuditValue::Text(r.http_request_uid))),
        emitted_fields(r).contains(("http_request_url"@, AuditValue::Text(r.http_request_url))),
        emitted_fields(r).contains(("http_response_code"@, AuditValue::Short(r.http_response_code))),
        emitted_fields(r).contains(("http_response_length"@, AuditValue::Long(r.http_response_length))),
        emitted_fields(r).contains(("metadata_is_truncated"@, AuditValue::Flag(r.metadata_is_truncated))),
        emitted_fields(r).contains(("start_time"@, AuditValue::Text(r.start_time))),
        emitted_fields(r).contains(("status_id"@, AuditValue::Short(r.status_id))),
        emitted_fields(r).contains(("time"@, AuditValue::Text(r.time))),
        r.actor_process_pid matches Some(v) ==> emitted_fields(r).contains(("actor_process_pid"@, AuditValue::Int(v))),
        r.actor_process_user_uid matches Some(v) ==> emitted_fields(r).contains(("actor_process_user_uid"@, AuditValue::UnsignedInt(v))),
        r.actor_user_account_uid matches Some(v) ==> emitted_fields(r).contains(("actor_user_account_uid"@, AuditValue::Text(v))),
        r.actor_user_name matches Some(v) ==> emitted_fields(r).contains(("actor_user_name"@, AuditValue::Text(v))),
        r.actor_user_uid matches Some(v) ==> emitted_fields(r).contains(("actor_user_uid"@, AuditValue::Text(v))),
        r.dst_endpoint_ip matches Some(v) ==> emitted_fields(r).contains(("dst_endpoint_ip"@, AuditValue::Text(v))),
        r.dst_endpoint_port matches Some(v) ==> emitted_fields(r).contains(("dst_endpoint_port"@, AuditValue::Short(v))),
        r.dst_endpoint_socket_file_path matches Some(v) ==> emitted_fields(r).contains(("dst_endpoint_socket_file_path"@, AuditValue::Text(v))),
        r.http_request_referer matches Some(v) ==> emitted_fields(r).contains(("http_request_referer"@, AuditValue::TextList(v))),
        r.http_request_user_agent matches Some(v) ==> emitted_fields(r).contains(("http_request_user_agent"@, AuditValue::TextList(v))),
        r.http_request_x_forwarded_for matches Some(v) ==> emitted_fields(r).contains(("http_request_x_forwarded_for"@, AuditValue::TextList(v))),
        r.src_endpoint_ip matches Some(v) ==> emitted_fields(r).contains(("src_endpoint_ip"@, AuditValue::Text(v))),
        r.src_endpoint_port matches Some(v) ==> emitted_fields(r).contains(("src_endpoint_port"@, AuditValue::Short(v))),
        r.status_code matches Some(v) ==> emitted_fields(r).contains(("status_code"@, AuditValue::Text(v))),
        r.status_details matches Some(v) ==> emitted_fields(r).contains(("status_details"@, AuditValue::Text(v))),
        r.tls_cipher matches Some(v) ==> emitted_fields(r).contains(("tls_cipher"@, AuditValue::Text(v))),
        r.tls_version matches Some(v) ==> emitted_fields(r).contains(("tls_version"@, AuditValue::Text(v))),
{
    broadcast use vstd::seq_lib::lemma_seq_contains_after_push;

}

} // verus!
