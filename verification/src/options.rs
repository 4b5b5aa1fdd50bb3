//! Options that supplement a listening address.
use vstd::prelude::*;
use crate::tcp_keepalive_params::TcpKeepaliveParams;
use crate::unix_chmod::UnixChmodVariant;

verus! {

/// User options that supplement listening address.
///
/// Create instances with `Default::default()` and modify available fields.
///
/// Non-relevant options are ignored when binding.
#[derive(Debug)]
#[non_exhaustive]
pub struct UserOptions {
    /// remove UNIX socket prior to binding to it
    pub unix_listen_unlink: bool,
    /// change filesystem mode of the newly bound UNIX socket to `owner`, `group` or `everybody`
    pub unix_listen_chmod: Option<UnixChmodVariant>,
    /// change owner user of the newly bound UNIX socket to this numeric uid
    pub unix_listen_uid: Option<u32>,
    /// change owner group of the newly bound UNIX socket to this numeric uid
    pub unix_listen_gid: Option<u32>,
    /// ignore environment variables like LISTEN_PID or LISTEN_FDS and unconditionally use
    /// file descriptor `3` as a socket in sd-listen or sd-listen-unix modes
    pub sd_accept_ignore_environment: bool,
    /// set SO_KEEPALIVE settings for each accepted TCP connection.
    ///
    /// Value is a colon-separated triplet of time_ms:count:interval_ms, each of which is optional.
    pub tcp_keepalive: Option<TcpKeepaliveParams>,
    /// Try to set SO_REUSEPORT, so that multiple processes can accept connections from the same port
    /// in a round-robin fashion
    pub tcp_reuse_port: bool,
    /// Set socket's SO_RCVBUF value.
    pub recv_buffer_size: Option<usize>,
    /// Set socket's SO_SNDBUF value.
    pub send_buffer_size: Option<usize>,
    /// Set socket's IPV6_V6ONLY to true, to avoid receiving IPv4 connections on IPv6 socket.
    pub tcp_only_v6: bool,
    /// Maximum number of pending unaccepted connections
    pub tcp_listen_backlog: Option<u32>,
}

impl Default for UserOptions {
    /// Every switch off and every value unset.
    fn default() -> (r: UserOptions)
        ensures
            !r.unix_listen_unlink,
            r.unix_listen_chmod is None,
            r.unix_listen_uid is None,
            r.unix_listen_gid is None,
            !r.sd_accept_ignore_environment,
            r.tcp_keepalive is None,
            !r.tcp_reuse_port,
            r.recv_buffer_size is None,
            r.send_buffer_size is None,
            !r.tcp_only_v6,
            r.tcp_listen_backlog is None,
    {
        UserOptions {
            unix_listen_unlink: false,
            unix_listen_chmod: None,
            unix_listen_uid: None,
            unix_listen_gid: None,
            sd_accept_ignore_environment: false,
            tcp_keepalive: None,
            tcp_reuse_port: false,
            recv_buffer_size: None,
            send_buffer_size: None,
            tcp_only_v6: false,
            tcp_listen_backlog: None,
        }
    }
}

/// Listener options that are supposed to be hard coded in the code
/// (not configurable by user)
#[derive(Debug, Clone, Copy)]
#[non_exhaustive]
pub struct SystemOptions {
    /// Wait for one second and retry if accepting connections fail (for reasons unrelated to the connections themselves),
    /// assuming it is file descriptor number exhaustion, which may be temporary
    pub sleep_on_errors: bool,
    /// Set TCP_NODELAY on accepted TCP sockets. Does not affect other socket types.
    pub nodelay: bool,
}

impl Default for SystemOptions {
    /// Neither sleeping on errors nor `TCP_NODELAY`.
    fn default() -> (r: SystemOptions)
        ensures
            !r.sleep_on_errors,
            !r.nodelay,
    {
        SystemOptions { sleep_on_errors: false, nodelay: false }
    }
}

} // verus!
