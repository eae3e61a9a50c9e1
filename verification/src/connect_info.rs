//! Connection information for incoming connections.
use vstd::prelude::*;

verus! {

/// Connection information for incoming connections: TCP endpoints, or the peer
/// process and socket file of a Unix domain socket.
#[derive(Clone, Debug, PartialEq, Eq)]
pub struct ConnectionInformation {
    pub actor_process_pid: Option<i32>,
    pub actor_process_user_uid: Option<u32>,
    pub dst_endpoint_ip: Option<String>,
    pub dst_endpoint_port: Option<u16>,
    pub dst_endpoint_socket_file_path: Option<String>,
    pub src_endpoint_ip: Option<String>,
    pub src_endpoint_port: Option<u16>,
}

impl ConnectionInformation {
    /// Information of a TCP connection: the peer is the source, the local end the destination.
    pub fn tcp(
        src_endpoint_ip: Option<String>,
        src_endpoint_port: Option<u16>,
        dst_endpoint_ip: Option<String>,
        dst_endpoint_port: Option<u16>,
    ) -> (info: Self)
        ensures
            info.actor_process_pid is None,
            info.actor_process_user_uid is None,
            info.dst_endpoint_socket_file_path is None,
            info.src_endpoint_ip == src_endpoint_ip,
            info.src_endpoint_port == src_endpoint_port,
            info.dst_endpoint_ip == dst_endpoint_ip,
            info.dst_endpoint_port == dst_endpoint_port,
    {
        ConnectionInformation {
            actor_process_pid: None,
            actor_process_user_uid: None,
            src_endpoint_ip,
            src_endpoint_port,
            dst_endpoint_ip,
            dst_endpoint_port,
            dst_endpoint_socket_file_path: None,
        }
    }

    /// Information of a Unix domain socket connection: no IP endpoints, the peer's
    /// process and user, and the socket file.
    pub fn unix_socket(
        actor_process_pid: Option<i32>,
        actor_process_user_uid: Option<u32>,
        dst_endpoint_socket_file_path: Option<String>,
    ) -> (info: Self)
        ensures
            info.actor_process_pid == actor_process_pid,
            info.actor_process_user_uid == actor_process_user_uid,
            info.dst_endpoint_socket_file_path == dst_endpoint_socket_file_path,
            info.src_endpoint_ip is None,
            info.src_endpoint_port is None,
            info.dst_endpoint_ip is None,
            info.dst_endpoint_port is None,
    {
        ConnectionInformation {
            actor_process_pid,
            actor_process_user_uid,
            src_endpoint_ip: None,
            src_endpoint_port: None,
            dst_endpoint_ip: None,
            dst_endpoint_port: None,
            dst_endpoint_socket_file_path,
        }
    }
}

} // verus!
