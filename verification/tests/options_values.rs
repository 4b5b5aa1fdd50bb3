use std::time::Duration;
use tokio_listener::tcp_keepalive_params::TcpKeepaliveParams;
use tokio_listener::unix_chmod::UnixChmodVariant;
use tokio_listener::options::{SystemOptions, UserOptions};

#[test]
fn keepalive_documented_example() {
    let k1 = TcpKeepaliveParams::parse("60000:3:5000").unwrap();
    assert_eq!(k1, TcpKeepaliveParams { timeout_ms: Some(60000), count: Some(3), interval_ms: Some(5000) });
    let k2 = TcpKeepaliveParams::parse("60000").unwrap();
    assert_eq!(k2, TcpKeepaliveParams { timeout_ms: Some(60000), count: None, interval_ms: None });
    let k3 = TcpKeepaliveParams::parse("").unwrap();
    assert_eq!(k3, TcpKeepaliveParams::default());
    let k4: TcpKeepaliveParams = "60000:3:5000".parse().unwrap();
    assert_eq!(k4, k1);
}

#[test]
fn keepalive_pieces() {
    assert_eq!(
        TcpKeepaliveParams::parse(" 10 : : 7 ").unwrap(),
        TcpKeepaliveParams { timeout_ms: Some(10), count: None, interval_ms: Some(7) }
    );
    assert_eq!(
        TcpKeepaliveParams::parse(":4").unwrap(),
        TcpKeepaliveParams { timeout_ms: None, count: Some(4), interval_ms: None }
    );
    assert_eq!(
        TcpKeepaliveParams::parse("+5::").unwrap(),
        TcpKeepaliveParams { timeout_ms: Some(5), count: None, interval_ms: None }
    );
    assert_eq!(
        TcpKeepaliveParams::parse("4294967295").unwrap(),
        TcpKeepaliveParams { timeout_ms: Some(4294967295), count: None, interval_ms: None }
    );
}

#[test]
fn keepalive_errors() {
    assert_eq!(TcpKeepaliveParams::parse("1:2:3:4"), Err("Too many colon-separated chunks"));
    assert_eq!(TcpKeepaliveParams::parse(":::"), Err("Too many colon-separated chunks"));
    assert_eq!(TcpKeepaliveParams::parse("x"), Err("failed to parse timeout as a number"));
    assert_eq!(TcpKeepaliveParams::parse("-5"), Err("failed to parse timeout as a number"));
    assert_eq!(TcpKeepaliveParams::parse("4294967296"), Err("failed to parse timeout as a number"));
    assert_eq!(TcpKeepaliveParams::parse("+"), Err("failed to parse timeout as a number"));
    assert_eq!(TcpKeepaliveParams::parse("1:x"), Err("failed to parse count as a number"));
    assert_eq!(TcpKeepaliveParams::parse("x:x"), Err("failed to parse timeout as a number"));
    assert_eq!(TcpKeepaliveParams::parse("1:2:1 2"), Err("failed to parse interval as a number"));
}

#[test]
fn keepalive_text() {
    let k = TcpKeepaliveParams { timeout_ms: Some(60000), count: Some(3), interval_ms: Some(5000) };
    assert_eq!(k.to_string(), "60000:3:5000");
    assert_eq!(TcpKeepaliveParams::default().to_string(), "::");
    let k = TcpKeepaliveParams { timeout_ms: None, count: Some(0), interval_ms: None };
    assert_eq!(k.to_string(), ":0:");
    for k in [
        TcpKeepaliveParams { timeout_ms: Some(0), count: None, interval_ms: Some(u32::MAX) },
        TcpKeepaliveParams { timeout_ms: None, count: Some(9), interval_ms: Some(10) },
        TcpKeepaliveParams::default(),
    ] {
        assert_eq!(TcpKeepaliveParams::parse(&k.to_string()), Ok(k));
    }
}

#[test]
fn keepalive_to_socket2() {
    let k = TcpKeepaliveParams { timeout_ms: Some(60000), count: Some(3), interval_ms: Some(5000) };
    let expected = socket2::TcpKeepalive::new()
        .with_time(Duration::from_millis(60000))
        .with_retries(3)
        .with_interval(Duration::from_millis(5000));
    assert_eq!(format!("{:?}", k.to_socket2()), format!("{:?}", expected));
    let k = TcpKeepaliveParams { timeout_ms: None, count: Some(7), interval_ms: None };
    let expected = socket2::TcpKeepalive::new().with_retries(7);
    assert_eq!(format!("{:?}", k.to_socket2()), format!("{:?}", expected));
    let k = TcpKeepaliveParams { timeout_ms: Some(1), count: None, interval_ms: Some(2) };
    let expected = socket2::TcpKeepalive::new()
        .with_time(Duration::from_millis(1))
        .with_interval(Duration::from_millis(2));
    assert_eq!(format!("{:?}", k.to_socket2()), format!("{:?}", expected));
    let empty = format!("{:?}", TcpKeepaliveParams::default().to_socket2());
    assert_eq!(empty, format!("{:?}", socket2::TcpKeepalive::new()));
}

#[test]
fn chmod_variants() {
    assert_eq!(UnixChmodVariant::parse("owner"), Ok(UnixChmodVariant::Owner));
    assert_eq!(UnixChmodVariant::parse("GROUP"), Ok(UnixChmodVariant::Group));
    assert_eq!(UnixChmodVariant::parse("EveryBody"), Ok(UnixChmodVariant::Everybody));
    assert_eq!(
        UnixChmodVariant::parse("all"),
        Err("Unknown chmod variant. Expected `owner`, `group` or `everybody`.")
    );
    assert_eq!(UnixChmodVariant::parse(" owner"), UnixChmodVariant::parse("x"));
    let g: UnixChmodVariant = "group".parse().unwrap();
    assert_eq!(g, UnixChmodVariant::Group);
    for v in [UnixChmodVariant::Owner, UnixChmodVariant::Group, UnixChmodVariant::Everybody] {
        assert_eq!(UnixChmodVariant::parse(&v.to_string()), Ok(v));
    }
    assert_eq!(UnixChmodVariant::Owner.to_string(), "owner");
    assert_eq!(UnixChmodVariant::Everybody.to_string(), "everybody");
    assert_eq!(UnixChmodVariant::Owner.mode(), 0o600);
    assert_eq!(UnixChmodVariant::Group.mode(), 0o660);
    assert_eq!(UnixChmodVariant::Everybody.mode(), 0o666);
}

#[test]
fn default_options() {
    let u = UserOptions::default();
    assert!(!u.unix_listen_unlink);
    assert!(u.unix_listen_chmod.is_none());
    assert!(u.tcp_keepalive.is_none());
    assert!(u.tcp_listen_backlog.is_none());
    assert!(!u.tcp_only_v6);
    let s = SystemOptions::default();
    assert!(!s.sleep_on_errors);
    assert!(!s.nodelay);
}
