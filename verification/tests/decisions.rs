use tokio_listener::axum07::{
    connection_step, graceful_step, serve, ConnectionAction, ConnectionEvent, GracefulAction,
    GracefulEvent, GracefulPhase,
};
use tokio_listener::error::{AcceptError, BindError};
use tokio_listener::listener::{
    accept_error_action, is_connection_error, is_connection_error_kind,
    stdio_accept_step, tcp_socket_plan, unix_path_setup, AcceptErrorAction, FileOwner,
    io_error_kind, io_error_kind_named, IoErrorKind, StdioAcceptOutcome, TcpSocketPlan, UnixPathSetup, ACCEPT_RETRY_PAUSE_SECS,
};
use tokio_listener::options::UserOptions;
use tokio_listener::sd_listen::{check_env_for_fd, fd_for_name};
use tokio_listener::unix_chmod::UnixChmodVariant;

#[test]
fn accept_errors() {
    for k in [IoErrorKind::ConnectionRefused, IoErrorKind::ConnectionAborted, IoErrorKind::ConnectionReset] {
        assert!(is_connection_error_kind(k));
        assert_eq!(accept_error_action(k, false), AcceptErrorAction::Retry);
        assert_eq!(accept_error_action(k, true), AcceptErrorAction::Retry);
    }
    assert!(!is_connection_error_kind(IoErrorKind::Other));
    assert_eq!(accept_error_action(IoErrorKind::Other, true), AcceptErrorAction::PauseThenRetry);
    assert_eq!(accept_error_action(IoErrorKind::Other, false), AcceptErrorAction::Fail);
    assert_eq!(ACCEPT_RETRY_PAUSE_SECS, 1);
}

#[test]
fn io_error_kinds() {
    let reset = std::io::Error::new(std::io::ErrorKind::ConnectionReset, "x");
    assert!(is_connection_error(&reset));
    let refused = std::io::Error::new(std::io::ErrorKind::ConnectionRefused, "x");
    assert!(is_connection_error(&refused));
    let aborted = std::io::Error::new(std::io::ErrorKind::ConnectionAborted, "x");
    assert!(is_connection_error(&aborted));
    let other = std::io::Error::new(std::io::ErrorKind::OutOfMemory, "x");
    assert!(!is_connection_error(&other));
}

#[test]
fn inetd_hands_out_one_connection() {
    assert_eq!(stdio_accept_step(true, false), (StdioAcceptOutcome::HandOut, false));
    assert_eq!(stdio_accept_step(true, true), (StdioAcceptOutcome::HandOut, false));
    assert_eq!(stdio_accept_step(false, false), (StdioAcceptOutcome::Wait, false));
    assert_eq!(stdio_accept_step(false, true), (StdioAcceptOutcome::AlreadyUsed, false));
    let mut token = true;
    let mut handed = 0;
    for released in [false, false, false, true] {
        let (o, t) = stdio_accept_step(token, released);
        token = t;
        if o == StdioAcceptOutcome::HandOut {
            handed += 1;
        }
    }
    assert_eq!(handed, 1);
    assert!(!token);
}

#[test]
fn tcp_plans() {
    let mut o = UserOptions::default();
    assert_eq!(tcp_socket_plan(&o), None);
    o.tcp_only_v6 = true;
    assert_eq!(tcp_socket_plan(&o), Some(TcpSocketPlan { only_v6: true, reuse_port: false, backlog: Some(1024) }));
    let mut o = UserOptions::default();
    o.tcp_listen_backlog = Some(7);
    assert_eq!(tcp_socket_plan(&o), Some(TcpSocketPlan { only_v6: false, reuse_port: false, backlog: Some(7) }));
    o.tcp_listen_backlog = Some(u32::MAX);
    o.tcp_reuse_port = true;
    assert_eq!(tcp_socket_plan(&o), Some(TcpSocketPlan { only_v6: false, reuse_port: true, backlog: None }));
    o.tcp_listen_backlog = Some(2147483647);
    assert_eq!(tcp_socket_plan(&o).unwrap().backlog, Some(i32::MAX));
}

#[test]
fn unix_path_plans() {
    let mut o = UserOptions::default();
    assert_eq!(unix_path_setup(&o), UnixPathSetup { unlink_first: false, mode: None, owner: None });
    o.unix_listen_unlink = true;
    o.unix_listen_chmod = Some(UnixChmodVariant::Group);
    o.unix_listen_gid = Some(100);
    assert_eq!(
        unix_path_setup(&o),
        UnixPathSetup { unlink_first: true, mode: Some(0o660), owner: Some(FileOwner { uid: None, gid: Some(100) }) }
    );
}

#[test]
fn sd_listen_environment() {
    assert_eq!(check_env_for_fd(Some("42"), Some("1"), 42, 3), Some(()));
    assert_eq!(check_env_for_fd(Some("42"), Some("2"), 42, 4), Some(()));
    assert_eq!(check_env_for_fd(Some("42"), Some("2"), 42, 5), None);
    assert_eq!(check_env_for_fd(Some("42"), Some("2"), 42, 2), None);
    assert_eq!(check_env_for_fd(Some("42"), Some("1"), 43, 3), None);
    assert_eq!(check_env_for_fd(None, Some("1"), 42, 3), None);
    assert_eq!(check_env_for_fd(Some("42"), None, 42, 3), None);
    assert_eq!(check_env_for_fd(Some("x"), Some("1"), 42, 3), None);
    assert_eq!(check_env_for_fd(Some("42"), Some("2147483647"), 42, 3), None);
    assert_eq!(check_env_for_fd(Some("42"), Some("2147483644"), 42, 2147483646), Some(()));
    assert_eq!(check_env_for_fd(Some("+42"), Some("-1"), 42, 3), None);
}

#[test]
fn named_descriptors() {
    assert_eq!(fd_for_name("http:https:admin", "https"), Some(4));
    assert_eq!(fd_for_name("http:https:admin", "admin"), Some(5));
    assert_eq!(fd_for_name("http:https:http", "http"), Some(3));
    assert_eq!(fd_for_name("http", "https"), None);
    assert_eq!(fd_for_name("a::b", ""), Some(4));
    assert_eq!(fd_for_name("", ""), Some(3));
}

#[test]
fn error_messages() {
    assert_eq!(
        BindError::MissingCompileTimeFeature { reason: "bind", feature: "unix" }.message(),
        "tokio-listener: cannot bind because of unix was not enabled at compile time"
    );
    assert_eq!(
        BindError::MissingPlatformSupport { reason: "bind", feature: "Linux" }.message(),
        "tokio-listener: cannot bind because of it is not a Linux"
    );
    assert_eq!(
        BindError::env_var_problem("serve", "LISTEN_FDS", false).message(),
        "tokio-listener: cannot serve due to problem with environment variable LISTEN_FDS: not present"
    );
    assert_eq!(
        BindError::env_var_problem("serve", "LISTEN_FDS", true).message(),
        "tokio-listener: cannot serve due to problem with environment variable LISTEN_FDS: not unicode"
    );
    assert_eq!(
        BindError::MultiBindWithoutAddresses.message(),
        "tokio-listener: no addresses specified to bind to"
    );
    assert_eq!(
        BindError::InvalidUserOption { name: "tcp_keepalive" }.message(),
        "tokio-listener: invalid value for user option tcp_keepalive"
    );
    assert_eq!(
        AcceptError::InetdPseudosocketAlreadyTaken.message(),
        "tokio-listener: Cannot serve a second connection in inetd mode"
    );
}

#[test]
fn graceful_shutdown_keeps_parts() {
    let s = serve::<u32, &str, ()>(7, "maker");
    let w = s.with_graceful_shutdown(9u8);
    assert_eq!(w.into_parts(), (7, "maker", 9u8));
    let s2 = serve::<u32, &str, ()>(1, "m");
    assert_eq!(s2.into_parts(), (1, "m"));
}

#[test]
fn other_io_error_kinds_are_not_connection_errors() {
    for k in [
        std::io::ErrorKind::NotConnected,
        std::io::ErrorKind::BrokenPipe,
        std::io::ErrorKind::TimedOut,
        std::io::ErrorKind::Other,
        std::io::ErrorKind::WouldBlock,
    ] {
        assert!(!is_connection_error(&std::io::Error::new(k, "x")));
    }
    assert!(!is_connection_error_kind(IoErrorKind::Unlisted));
    assert!(!is_connection_error_kind(IoErrorKind::NotConnected));
    assert_eq!(accept_error_action(IoErrorKind::Unlisted, true), AcceptErrorAction::PauseThenRetry);
}

#[test]
fn graceful_shutdown_run() {
    let mut p = GracefulPhase { draining: false, open_connections: 0 };
    let script = [
        (GracefulEvent::Accepted, GracefulAction::ServeConnection, false, 1),
        (GracefulEvent::Accepted, GracefulAction::ServeConnection, false, 2),
        (GracefulEvent::ConnectionClosed, GracefulAction::AcceptAgain, false, 1),
        (GracefulEvent::AcceptRetried, GracefulAction::AcceptAgain, false, 1),
        (GracefulEvent::Accepted, GracefulAction::ServeConnection, false, 2),
        (GracefulEvent::ShutdownSignal, GracefulAction::StopAccepting, true, 2),
        (GracefulEvent::Accepted, GracefulAction::AwaitConnections, true, 2),
        (GracefulEvent::ShutdownSignal, GracefulAction::AwaitConnections, true, 2),
        (GracefulEvent::ConnectionClosed, GracefulAction::AwaitConnections, true, 1),
        (GracefulEvent::ConnectionClosed, GracefulAction::Finish, true, 0),
    ];
    for (event, action, draining, open) in script {
        let (q, a) = graceful_step(p, event);
        assert_eq!(a, action);
        assert_eq!(q, GracefulPhase { draining, open_connections: open });
        p = q;
    }
}

#[test]
fn graceful_shutdown_without_connections_finishes_at_once() {
    let p = GracefulPhase { draining: false, open_connections: 0 };
    assert_eq!(
        graceful_step(p, GracefulEvent::ShutdownSignal),
        (GracefulPhase { draining: true, open_connections: 0 }, GracefulAction::Finish)
    );
}

#[test]
fn connection_graceful_shutdown() {
    assert_eq!(
        connection_step(false, ConnectionEvent::ShutdownSignal),
        (true, ConnectionAction::StartGracefulShutdown)
    );
    assert_eq!(connection_step(true, ConnectionEvent::ShutdownSignal), (true, ConnectionAction::KeepServing));
    assert_eq!(connection_step(true, ConnectionEvent::Completed), (true, ConnectionAction::Close));
    assert_eq!(connection_step(false, ConnectionEvent::Completed), (false, ConnectionAction::Close));
}

#[test]
fn bind_error_to_io() {
    let e = BindError::MultiBindWithoutAddresses;
    let text = e.message();
    let r = e.to_io::<u8>();
    let err = r.unwrap_err();
    assert_eq!(err.kind(), std::io::ErrorKind::Other);
    assert_eq!(err.to_string(), text);
    assert_eq!(err.get_ref().unwrap().to_string(), text);
    assert!(!is_connection_error(&err));
}

#[test]
fn every_io_error_kind_keeps_its_name() {
    let pairs = [
        (std::io::ErrorKind::NotFound, IoErrorKind::NotFound),
        (std::io::ErrorKind::PermissionDenied, IoErrorKind::PermissionDenied),
        (std::io::ErrorKind::ConnectionRefused, IoErrorKind::ConnectionRefused),
        (std::io::ErrorKind::ConnectionReset, IoErrorKind::ConnectionReset),
        (std::io::ErrorKind::HostUnreachable, IoErrorKind::HostUnreachable),
        (std::io::ErrorKind::NetworkUnreachable, IoErrorKind::NetworkUnreachable),
        (std::io::ErrorKind::ConnectionAborted, IoErrorKind::ConnectionAborted),
        (std::io::ErrorKind::NotConnected, IoErrorKind::NotConnected),
        (std::io::ErrorKind::AddrInUse, IoErrorKind::AddrInUse),
        (std::io::ErrorKind::AddrNotAvailable, IoErrorKind::AddrNotAvailable),
        (std::io::ErrorKind::NetworkDown, IoErrorKind::NetworkDown),
        (std::io::ErrorKind::BrokenPipe, IoErrorKind::BrokenPipe),
        (std::io::ErrorKind::AlreadyExists, IoErrorKind::AlreadyExists),
        (std::io::ErrorKind::WouldBlock, IoErrorKind::WouldBlock),
        (std::io::ErrorKind::NotADirectory, IoErrorKind::NotADirectory),
        (std::io::ErrorKind::IsADirectory, IoErrorKind::IsADirectory),
        (std::io::ErrorKind::DirectoryNotEmpty, IoErrorKind::DirectoryNotEmpty),
        (std::io::ErrorKind::ReadOnlyFilesystem, IoErrorKind::ReadOnlyFilesystem),
        (std::io::ErrorKind::StaleNetworkFileHandle, IoErrorKind::StaleNetworkFileHandle),
        (std::io::ErrorKind::InvalidInput, IoErrorKind::InvalidInput),
        (std::io::ErrorKind::InvalidData, IoErrorKind::InvalidData),
        (std::io::ErrorKind::TimedOut, IoErrorKind::TimedOut),
        (std::io::ErrorKind::WriteZero, IoErrorKind::WriteZero),
        (std::io::ErrorKind::StorageFull, IoErrorKind::StorageFull),
        (std::io::ErrorKind::NotSeekable, IoErrorKind::NotSeekable),
        (std::io::ErrorKind::QuotaExceeded, IoErrorKind::QuotaExceeded),
        (std::io::ErrorKind::FileTooLarge, IoErrorKind::FileTooLarge),
        (std::io::ErrorKind::ResourceBusy, IoErrorKind::ResourceBusy),
        (std::io::ErrorKind::ExecutableFileBusy, IoErrorKind::ExecutableFileBusy),
        (std::io::ErrorKind::Deadlock, IoErrorKind::Deadlock),
        (std::io::ErrorKind::CrossesDevices, IoErrorKind::CrossesDevices),
        (std::io::ErrorKind::TooManyLinks, IoErrorKind::TooManyLinks),
        (std::io::ErrorKind::InvalidFilename, IoErrorKind::InvalidFilename),
        (std::io::ErrorKind::ArgumentListTooLong, IoErrorKind::ArgumentListTooLong),
        (std::io::ErrorKind::Interrupted, IoErrorKind::Interrupted),
        (std::io::ErrorKind::Unsupported, IoErrorKind::Unsupported),
        (std::io::ErrorKind::UnexpectedEof, IoErrorKind::UnexpectedEof),
        (std::io::ErrorKind::OutOfMemory, IoErrorKind::OutOfMemory),
        (std::io::ErrorKind::Other, IoErrorKind::Other),
    ];
    for (std_kind, kind) in pairs {
        assert_eq!(io_error_kind(&std::io::Error::new(std_kind, "x")), kind);
        assert_eq!(io_error_kind(&std::io::Error::from(std_kind)), kind);
        let connection = matches!(
            kind,
            IoErrorKind::ConnectionRefused | IoErrorKind::ConnectionAborted | IoErrorKind::ConnectionReset
        );
        assert_eq!(is_connection_error_kind(kind), connection);
    }
    assert_eq!(io_error_kind_named("ConnectionReset"), IoErrorKind::ConnectionReset);
    assert_eq!(io_error_kind_named("connection reset"), IoErrorKind::Unlisted);
    assert_eq!(io_error_kind_named(""), IoErrorKind::Unlisted);
}

#[test]
fn graceful_without_signal_serves_as_plain() {
    let mut p = GracefulPhase { draining: false, open_connections: 0 };
    let events = [
        GracefulEvent::Accepted,
        GracefulEvent::AcceptRetried,
        GracefulEvent::Accepted,
        GracefulEvent::ConnectionClosed,
        GracefulEvent::Accepted,
        GracefulEvent::ConnectionClosed,
        GracefulEvent::ConnectionClosed,
    ];
    for e in events {
        let (q, a) = graceful_step(p, e);
        let plain = if e == GracefulEvent::Accepted {
            GracefulAction::ServeConnection
        } else {
            GracefulAction::AcceptAgain
        };
        assert_eq!(a, plain);
        assert!(!q.draining);
        p = q;
    }
    assert_eq!(p.open_connections, 0);
}
