//! Address parsing, option handling and accept-loop decisions for a listener
//! that abstracts over TCP sockets, UNIX sockets, inherited file descriptors
//! and an inetd-style stdin/stdout pseudo-socket.
pub mod text;
pub mod decimal;
pub mod unix_chmod;
pub mod tcp_keepalive_params;
pub mod listener_address;
pub mod sd_listen;
pub mod error;
pub mod options;
pub mod listener;
pub mod claptools;
pub mod axum07;
