use tokio_listener::listener_address::{ListenerAddress, SocketAddress};

fn v4(a: u8, b: u8, c: u8, d: u8, port: u16) -> SocketAddress {
    SocketAddress::V4 { ip: u32::from_be_bytes([a, b, c, d]), port }
}

#[test]
fn parses_documented_forms() {
    let tcp = v4(127, 0, 0, 1, 8087);
    assert_eq!(ListenerAddress::parse("127.0.0.1:8087", Some(tcp)), Ok(ListenerAddress::Tcp(tcp)));
    let any6 = SocketAddress::V6 { ip: 0, port: 80, flowinfo: 0, scope_id: 0 };
    assert_eq!(ListenerAddress::parse("[::]:80", Some(any6)), Ok(ListenerAddress::Tcp(any6)));
    assert_eq!(
        ListenerAddress::parse("/path/to/socket", None),
        Ok(ListenerAddress::Path("/path/to/socket".to_string()))
    );
    assert_eq!(
        ListenerAddress::parse("@abstract_linux_address", None),
        Ok(ListenerAddress::Abstract("abstract_linux_address".to_string()))
    );
    assert_eq!(ListenerAddress::parse("inetd", None), Ok(ListenerAddress::Inetd));
    assert_eq!(ListenerAddress::parse("sd-listen", None), Ok(ListenerAddress::FromFd(3)));
    assert_eq!(ListenerAddress::parse("SD_LISTEN", None), Ok(ListenerAddress::FromFd(3)));
    assert_eq!(
        ListenerAddress::parse("sd-listen:named_socket", None),
        Ok(ListenerAddress::FromFdNamed("named_socket".to_string()))
    );
    assert_eq!(
        ListenerAddress::parse("sd-listen:*", None),
        Ok(ListenerAddress::FromFdNamed("*".to_string()))
    );
}

#[test]
fn parses_other_words() {
    assert_eq!(ListenerAddress::parse("STDIO", None), Ok(ListenerAddress::Inetd));
    assert_eq!(ListenerAddress::parse("-", None), Ok(ListenerAddress::Inetd));
    assert_eq!(ListenerAddress::parse("InEtD", None), Ok(ListenerAddress::Inetd));
    assert_eq!(ListenerAddress::parse("sd-listen-unix", None), Ok(ListenerAddress::FromFd(3)));
    assert_eq!(ListenerAddress::parse("SD_LISTEN_UNIX", None), Ok(ListenerAddress::FromFd(3)));
    assert_eq!(
        ListenerAddress::parse("sd_listen:x", None),
        Ok(ListenerAddress::FromFdNamed("x".to_string()))
    );
    assert_eq!(
        ListenerAddress::parse("./mysock", None),
        Ok(ListenerAddress::Path("./mysock".to_string()))
    );
    assert_eq!(ListenerAddress::parse("@", None), Ok(ListenerAddress::Abstract(String::new())));
    assert_eq!(
        ListenerAddress::parse("../sock", None),
        Ok(ListenerAddress::Path("../sock".to_string()))
    );
    assert_eq!(
        ListenerAddress::parse(".sock", None),
        Ok(ListenerAddress::Path(".sock".to_string()))
    );
    assert_eq!(ListenerAddress::parse(".", None), Ok(ListenerAddress::Path(".".to_string())));
}

#[test]
fn special_forms_win_over_socket_addresses() {
    let tcp = v4(10, 0, 0, 1, 1);
    assert_eq!(
        ListenerAddress::parse("/x", Some(tcp)),
        Ok(ListenerAddress::Path("/x".to_string()))
    );
    assert_eq!(ListenerAddress::parse("inetd", Some(tcp)), Ok(ListenerAddress::Inetd));
}

#[test]
fn rejects_bad_addresses() {
    assert_eq!(
        ListenerAddress::parse("sd-listen:a:b", None),
        Err("Invalid tokio-listener sd-listen: name")
    );
    assert_eq!(
        ListenerAddress::parse("localhost:80", None),
        Err("Invalid tokio-listener address type")
    );
    assert_eq!(ListenerAddress::parse("", None), Err("Invalid tokio-listener address type"));
    assert_eq!(ListenerAddress::parse("mysock", None), Err("Invalid tokio-listener address type"));
}

#[test]
fn writes_addresses() {
    assert_eq!(ListenerAddress::Tcp(v4(127, 0, 0, 1, 8080)).to_text("127.0.0.1:8080"), "127.0.0.1:8080");
    assert_eq!(ListenerAddress::Path("/tmp/s".to_string()).to_text(""), "/tmp/s");
    assert_eq!(ListenerAddress::Path("./s".to_string()).to_text(""), "./s");
    assert_eq!(ListenerAddress::Path("s".to_string()).to_text(""), "./s");
    assert_eq!(ListenerAddress::Path("../s".to_string()).to_text(""), "./../s");
    assert_eq!(ListenerAddress::Path(".s".to_string()).to_text(""), "./.s");
    assert_eq!(ListenerAddress::Abstract("srv".to_string()).to_text(""), "@srv");
    assert_eq!(ListenerAddress::Inetd.to_text(""), "inetd");
    assert_eq!(ListenerAddress::FromFd(3).to_text(""), "sd-listen");
    assert_eq!(ListenerAddress::FromFd(5).to_text(""), "accept-from-fd:5");
    assert_eq!(ListenerAddress::FromFd(-12).to_text(""), "accept-from-fd:-12");
    assert_eq!(ListenerAddress::FromFd(i32::MIN).to_text(""), "accept-from-fd:-2147483648");
    assert_eq!(ListenerAddress::FromFdNamed("web".to_string()).to_text(""), "sd-listen:web");
}

#[test]
fn text_reads_back() {
    let addrs = vec![
        ListenerAddress::Path("/a/b".to_string()),
        ListenerAddress::Path("./c".to_string()),
        ListenerAddress::Abstract("x y".to_string()),
        ListenerAddress::Inetd,
        ListenerAddress::FromFd(3),
        ListenerAddress::FromFdNamed("name".to_string()),
    ];
    for a in addrs {
        let t = a.to_text("");
        assert_eq!(ListenerAddress::parse(&t, None), Ok(a));
    }
    let relative = ListenerAddress::Path("rel".to_string());
    let t = relative.to_text("");
    assert_eq!(ListenerAddress::parse(&t, None), Ok(ListenerAddress::Path("./rel".to_string())));
    let dotted = ListenerAddress::parse("../up", None).unwrap();
    let t = dotted.to_text("");
    assert_eq!(ListenerAddress::parse(&t, None), Ok(ListenerAddress::Path("./../up".to_string())));
}
