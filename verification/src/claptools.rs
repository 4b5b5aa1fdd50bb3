//! Command-line option groups: a listening address with its user options.
use vstd::prelude::*;
use crate::listener_address::ListenerAddress;
use crate::options::UserOptions;

verus! {

/// Listener address as a required positional argument `listen_address`,
/// together with the options that adjust the way it listens.
pub struct ListenerAddressPositional {
    /// Socket address to listen for incoming connections.
    ///
    /// Various types of addresses are supported:
    ///
    /// * TCP socket address and port, like 127.0.0.1:8080 or [::]:80
    ///
    /// * UNIX socket path like /tmp/mysock or Linux abstract address like @abstract
    ///
    /// * Special keyword "inetd" for serving one connection from stdin/stdout
    ///
    /// * Special keyword "sd-listen" or "sd-listen-unix" to accept connections from file descriptor 3 (e.g. systemd socket activation)
    pub listen_address: ListenerAddress,
    /// Options that adjust the way it listens.
    pub listener_options: UserOptions,
}

/// Optional listener address as a named argument `--listen-address` or `-l`,
/// together with the options that adjust the way it listens.
pub struct ListenerAddressLFlag {
    /// Socket address to listen for incoming connections, if any.
    ///
    /// The same forms as for [`ListenerAddressPositional::listen_address`] are supported.
    pub listen_address: Option<ListenerAddress>,
    /// Options that adjust the way it listens.
    pub listener_options: UserOptions,
}

} // verus!
