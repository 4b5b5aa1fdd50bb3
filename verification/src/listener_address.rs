//! Listening addresses: which way, and at what address, to listen.
use vstd::prelude::*;
use vstd::string::*;
use crate::decimal::{decimal_i32, push_i32};
use crate::text::{
    eq_ignore_ascii_case, lemma_prefix_char, push_char, str_contains_char, str_eq_ignore_ascii_case, str_starts_with,
    str_strip_prefix,
};

verus! {

/// An IP socket address, by the numbers that make it up.
///
/// `V4` holds the IPv4 address as its 32-bit big-endian value, `V6` the IPv6
/// address as its 128-bit big-endian value, with the flow label and scope id.
#[derive(Debug, Clone, Copy, PartialEq, Eq, Structural, PartialOrd, Ord, Hash)]
#[allow(inconsistent_fields)]
pub enum SocketAddress {
    V4 { ip: u32, port: u16 },
    V6 { ip: u128, port: u16, flowinfo: u32, scope_id: u32 },
}

/// The file descriptor number that systemd hands over first.
pub const SD_LISTEN_FDS_START: i32 = 3;

/// Abstraction over socket address that instructs in which way and at what address (if any) a listener
/// should listen for incoming stream connections.
///
/// All address variants are available on all platforms, regardless of actual support in the listener.
///
/// Accepted text forms:
///
/// * `127.0.0.1:8087`, `[::]:80` — TCP;
/// * `/path/to/socket`, `./socket`, `../socket` — UNIX socket path (any text starting with `/` or `.`);
/// * `@abstract_linux_address` — Linux abstract UNIX socket;
/// * `inetd`, `stdio`, `-` — serve one connection on stdin/stdout;
/// * `sd-listen`, `sd-listen-unix` — inherited file descriptor 3;
/// * `sd-listen:name`, `sd-listen:*` — inherited descriptor found by name in `LISTEN_FDNAMES`.
#[derive(Debug, PartialEq, Eq, PartialOrd, Ord, Hash)]
pub enum ListenerAddress {
    /// Usual server TCP socket. Triggered by specifying IPv4 or IPv6 address and port pair.
    /// Example: `127.0.0.1:8080`.
    ///
    /// Hostnames are not supported.
    Tcp(SocketAddress),
    /// Path-based UNIX socket. Path must begin with `/` or `.`.
    /// Examples: `/tmp/mysock`, `./mysock`
    Path(String),
    /// Linux abstract-namespaced UNIX socket. Indicated by using `@` as a first character.
    /// Example: `@server`
    Abstract(String),
    /// "inetd" or "Accept=yes" mode where stdin and stdout (file descriptors 0 and 1) are used together as a socket
    /// and only one connection is served. Triggered by using `inetd` or `stdio` or `-` as the address.
    Inetd,
    /// SystemD's "Accept=no" mode - using manually specified file descriptor as a pre-created server socket ready to accept TCP or UNIX connections.
    /// Triggered by specifying `sd-listen` as address, which sets `3` as file descriptor number.
    FromFd(i32),
    /// SystemD's "Accept=no" mode - relying on `LISTEN_FDNAMES` environment variable instead of using the hard coded number
    /// Triggered by using appending a colon and a name after `sd-listen`. Example: `sd-listen:mynamedsock`
    ///
    /// Special name `*` means to bind all passed addresses simultaneously.
    FromFdNamed(String),
}

/// The mathematical value of a [`ListenerAddress`]: texts as character sequences.
pub enum AddressModel {
    Tcp(SocketAddress),
    Path(Seq<char>),
    Abstract(Seq<char>),
    Inetd,
    FromFd(i32),
    FromFdNamed(Seq<char>),
}

impl View for ListenerAddress {
    type V = AddressModel;

    open spec fn view(&self) -> AddressModel {
        match self {
            ListenerAddress::Tcp(a) => AddressModel::Tcp(*a),
            ListenerAddress::Path(p) => AddressModel::Path(p@),
            ListenerAddress::Abstract(p) => AddressModel::Abstract(p@),
            ListenerAddress::Inetd => AddressModel::Inetd,
            ListenerAddress::FromFd(fd) => AddressModel::FromFd(*fd),
            ListenerAddress::FromFdNamed(n) => AddressModel::FromFdNamed(n@),
        }
    }
}

impl Clone for ListenerAddress {
    fn clone(&self) -> (r: ListenerAddress)
        ensures
            r@ == self@,
    {
        match self {
            ListenerAddress::Tcp(a) => ListenerAddress::Tcp(*a),
            ListenerAddress::Path(p) => ListenerAddress::Path(p.clone()),
            ListenerAddress::Abstract(p) => ListenerAddress::Abstract(p.clone()),
            ListenerAddress::Inetd => ListenerAddress::Inetd,
            ListenerAddress::FromFd(fd) => ListenerAddress::FromFd(*fd),
            ListenerAddress::FromFdNamed(n) => ListenerAddress::FromFdNamed(n.clone()),
        }
    }
}

/// A text that names a UNIX socket path: it begins with `/` or `.`.
pub open spec fn is_path_text(s: Seq<char>) -> bool {
    "/"@.is_prefix_of(s) || "."@.is_prefix_of(s)
}

/// A path that is written as it is: absolute, or relative starting with `./`.
pub open spec fn is_explicit_path(p: Seq<char>) -> bool {
    "/"@.is_prefix_of(p) || "./"@.is_prefix_of(p)
}

/// One of the words that select inetd mode.
pub open spec fn is_inetd_word(s: Seq<char>) -> bool {
    eq_ignore_ascii_case(s, "inetd"@) || eq_ignore_ascii_case(s, "stdio"@) || s == "-"@
}

/// One of the words that select the first inherited file descriptor.
pub open spec fn is_sd_listen_word(s: Seq<char>) -> bool {
    ||| eq_ignore_ascii_case(s, "sd-listen"@)
    ||| eq_ignore_ascii_case(s, "sd_listen"@)
    ||| eq_ignore_ascii_case(s, "sd-listen-unix"@)
    ||| eq_ignore_ascii_case(s, "sd_listen_unix"@)
}

/// The prefix that introduces a named inherited file descriptor.
pub open spec fn has_sd_listen_name_prefix(s: Seq<char>) -> bool {
    "sd-listen:"@.is_prefix_of(s) || "sd_listen:"@.is_prefix_of(s)
}

/// What reading the text `s` gives, when std's socket-address parser gives
/// `socket` for the same text. The forms are tried in order: paths, abstract
/// names, inetd words, sd-listen words, named descriptors, and last a TCP
/// socket address.
pub open spec fn listener_address_of(s: Seq<char>, socket: Option<SocketAddress>) -> Result<
    AddressModel,
    Seq<char>,
> {
    if is_path_text(s) {
        Ok(AddressModel::Path(s))
    } else if "@"@.is_prefix_of(s) {
        Ok(AddressModel::Abstract(s.skip(1)))
    } else if is_inetd_word(s) {
        Ok(AddressModel::Inetd)
    } else if is_sd_listen_word(s) {
        Ok(AddressModel::FromFd(3))
    } else if has_sd_listen_name_prefix(s) {
        if s.skip(10).contains(':') {
            Err("Invalid tokio-listener sd-listen: name"@)
        } else {
            Ok(AddressModel::FromFdNamed(s.skip(10)))
        }
    } else {
        match socket {
            Some(a) => Ok(AddressModel::Tcp(a)),
            None => Err("Invalid tokio-listener address type"@),
        }
    }
}

/// The text of a path: an explicit path as it is, any other path behind `./`.
pub open spec fn path_text(p: Seq<char>) -> Seq<char> {
    if is_explicit_path(p) {
        p
    } else {
        "./"@ + p
    }
}

/// The text of an address, with `socket_text` standing for std's text of a TCP address.
pub open spec fn listener_address_text(a: AddressModel, socket_text: Seq<char>) -> Seq<char> {
    match a {
        AddressModel::Tcp(_) => socket_text,
        AddressModel::Path(p) => path_text(p),
        AddressModel::Abstract(p) => "@"@ + p,
        AddressModel::Inetd => "inetd"@,
        AddressModel::FromFd(fd) => if fd == 3 {
            "sd-listen"@
        } else {
            "accept-from-fd:"@ + decimal_i32(fd)
        },
        AddressModel::FromFdNamed(n) => "sd-listen:"@ + n,
    }
}

impl ListenerAddress {
    /// Reads an address from its text. `socket_addr` is what std's
    /// socket-address parser (`SocketAddr::from_str`) gives for the same text;
    /// it is used only when the text is none of the other forms.
    pub fn parse(s: &str, socket_addr: Option<SocketAddress>) -> (r: Result<
        ListenerAddress,
        &'static str,
    >)
        ensures
            match r {
                Ok(a) => listener_address_of(s@, socket_addr) == Ok::<AddressModel, Seq<char>>(a@),
                Err(e) => listener_address_of(s@, socket_addr) == Err::<AddressModel, Seq<char>>(
                    e@,
                ),
            },
    {
        if str_starts_with(s, "/") || str_starts_with(s, ".") {
            Ok(ListenerAddress::Path(s.to_owned()))
        } else if let Some(x) = str_strip_prefix(s, "@") {
            proof {
                reveal_strlit("@");
            }
            Ok(ListenerAddress::Abstract(x.to_owned()))
        } else if str_eq_ignore_ascii_case(s, "inetd") || str_eq_ignore_ascii_case(s, "stdio")
            || str_is_dash(s) {
            Ok(ListenerAddress::Inetd)
        } else if str_eq_ignore_ascii_case(s, "sd-listen") || str_eq_ignore_ascii_case(
            s,
            "sd_listen",
        ) {
            Ok(ListenerAddress::FromFd(SD_LISTEN_FDS_START))
        } else if str_eq_ignore_ascii_case(s, "sd-listen-unix") || str_eq_ignore_ascii_case(
            s,
            "sd_listen_unix",
        ) {
            Ok(ListenerAddress::FromFd(SD_LISTEN_FDS_START))
        } else {
            let named = match str_strip_prefix(s, "sd-listen:") {
                Some(x) => Some(x),
                None => str_strip_prefix(s, "sd_listen:"),
            };
            proof {
                reveal_strlit("sd-listen:");
                reveal_strlit("sd_listen:");
            }
            if let Some(x) = named {
                if str_contains_char(x, ':') {
                    return Err("Invalid tokio-listener sd-listen: name");
                }
                Ok(ListenerAddress::FromFdNamed(x.to_owned()))
            } else if let Some(a) = socket_addr {
                Ok(ListenerAddress::Tcp(a))
            } else {
                Err("Invalid tokio-listener address type")
            }
        }
    }

    /// The text of the address. `socket_text` is std's text (`Display`) of
    /// the socket address, used when the address is a TCP one.
    pub fn to_text(&self, socket_text: &str) -> (r: String)
        ensures
            r@ == listener_address_text(self@, socket_text@),
    {
        match self {
            ListenerAddress::Tcp(_) => socket_text.to_owned(),
            ListenerAddress::Path(p) => {
                let ps = p.as_str();
                if str_starts_with(ps, "/") || str_starts_with(ps, "./") {
                    p.clone()
                } else {
                    String::from_str("./").concat(ps)
                }
            },
            ListenerAddress::Abstract(p) => String::from_str("@").concat(p.as_str()),
            ListenerAddress::Inetd => String::from_str("inetd"),
            ListenerAddress::FromFd(fd) => {
                if *fd == SD_LISTEN_FDS_START {
                    String::from_str("sd-listen")
                } else {
                    let mut s = String::from_str("accept-from-fd:");
                    push_i32(&mut s, *fd);
                    s
                }
            },
            ListenerAddress::FromFdNamed(name) => String::from_str("sd-listen:").concat(
                name.as_str(),
            ),
        }
    }
}

/// The address that reading back the text of `a` gives: a path is made
/// explicit, every other address stays as it is.
pub open spec fn canonical_address(a: AddressModel) -> AddressModel {
    match a {
        AddressModel::Path(p) => AddressModel::Path(path_text(p)),
        _ => a,
    }
}

/// The addresses whose text this library reads back by itself: all but TCP
/// addresses (whose text std writes), descriptors other than 3 (written as
/// `accept-from-fd:N`, a form the reader does not take) and descriptor names
/// that hold a colon.
pub open spec fn text_reads_back(a: AddressModel) -> bool {
    match a {
        AddressModel::Tcp(_) => false,
        AddressModel::FromFd(fd) => fd == 3,
        AddressModel::FromFdNamed(n) => !n.contains(':'),
        _ => true,
    }
}

/// A text whose first character is neither `/`, `.` nor `@` is no path and no abstract name.
proof fn lemma_not_path_or_abstract(t: Seq<char>)
    requires
        t.len() > 0,
        t[0] != '/' && t[0] != '.' && t[0] != '@',
    ensures
        !is_path_text(t),
        !"@"@.is_prefix_of(t),
{
    reveal_strlit("/");
    reveal_strlit(".");
    reveal_strlit("@");
    if "/"@.is_prefix_of(t) {
        lemma_prefix_char("/"@, t, 0);
    }
    if "."@.is_prefix_of(t) {
        lemma_prefix_char("."@, t, 0);
    }
    if "@"@.is_prefix_of(t) {
        lemma_prefix_char("@"@, t, 0);
    }
}

/// A text whose first character is `c` differs, ignoring ASCII case, from
/// every word whose first character lower-cases differently.
proof fn lemma_first_char_differs(s: Seq<char>, w: Seq<char>)
    requires
        s.len() > 0,
        w.len() > 0,
        crate::text::ascii_lower(s[0]) != crate::text::ascii_lower(w[0]),
    ensures
        !eq_ignore_ascii_case(s, w),
{
}

/// Reading back the text of an address gives the address, with relative
/// paths made explicit, for every address whose text the reader takes.
pub proof fn lemma_listener_address_round_trip(
    a: AddressModel,
    socket_text: Seq<char>,
    socket: Option<SocketAddress>,
)
    requires
        text_reads_back(a),
    ensures
        listener_address_of(listener_address_text(a, socket_text), socket) == Ok::<
            AddressModel,
            Seq<char>,
        >(canonical_address(a)),
{
    reveal_strlit("/");
    reveal_strlit("./");
    reveal_strlit(".");
    reveal_strlit("@");
    reveal_strlit("inetd");
    reveal_strlit("stdio");
    reveal_strlit("-");
    reveal_strlit("sd-listen");
    reveal_strlit("sd_listen");
    reveal_strlit("sd-listen-unix");
    reveal_strlit("sd_listen_unix");
    reveal_strlit("sd-listen:");
    reveal_strlit("sd_listen:");
    let t = listener_address_text(a, socket_text);
    match a {
        AddressModel::Path(p) => {
            if "/"@.is_prefix_of(t) {
            } else {
                if is_explicit_path(p) {
                    lemma_prefix_char("./"@, t, 0);
                } else {
                    assert(t[0] == '.');
                }
                assert("."@.is_prefix_of(t)) by {
                    assert("."@ =~= t.subrange(0, 1));
                };
            }
        },
        AddressModel::Abstract(p) => {
            assert(t[0] == '@');
            assert(!is_path_text(t)) by {
                if "/"@.is_prefix_of(t) {
                    lemma_prefix_char("/"@, t, 0);
                }
                if "."@.is_prefix_of(t) {
                    lemma_prefix_char("."@, t, 0);
                }
            };
            assert("@"@.is_prefix_of(t)) by {
                assert("@"@ =~= t.subrange(0, 1));
            };
            assert(t.skip(1) =~= p);
        },
        AddressModel::Inetd => {
            lemma_not_path_or_abstract(t);
            assert(eq_ignore_ascii_case(t, "inetd"@));
        },
        AddressModel::FromFd(fd) => {
            lemma_not_path_or_abstract(t);
            lemma_first_char_differs(t, "inetd"@);
            assert(!eq_ignore_ascii_case(t, "stdio"@)) by {
                assert(t.len() != 5);
            };
            assert(eq_ignore_ascii_case(t, "sd-listen"@));
        },
        AddressModel::FromFdNamed(n) => {
            assert(t[0] == 's' && t[2] == '-' && t[9] == ':');
            lemma_not_path_or_abstract(t);
            lemma_first_char_differs(t, "inetd"@);
            assert(!eq_ignore_ascii_case(t, "stdio"@)) by {
                assert(t.len() != 5);
            };
            assert(!is_sd_listen_word(t)) by {
                assert(crate::text::ascii_lower(t[9]) != crate::text::ascii_lower(
                    "sd-listen-unix"@[9],
                ));
                assert(crate::text::ascii_lower(t[9]) != crate::text::ascii_lower(
                    "sd_listen_unix"@[9],
                ));
            };
            assert("sd-listen:"@.is_prefix_of(t)) by {
                assert("sd-listen:"@ =~= t.subrange(0, 10));
            };
            assert(t.skip(10) =~= n);
        },
        AddressModel::Tcp(_) => {},
    }
}

/// Every address read from a text, other than a TCP one and other than a
/// relative path that does not start with `./` (which is written back behind
/// `./`), is written back as a text that reads as the same address.
pub proof fn lemma_parsed_address_reads_back(
    s: Seq<char>,
    socket: Option<SocketAddress>,
    a: AddressModel,
    socket_text: Seq<char>,
    other_socket: Option<SocketAddress>,
)
    requires
        listener_address_of(s, socket) == Ok::<AddressModel, Seq<char>>(a),
        !(a is Tcp),
        a matches AddressModel::Path(p) ==> is_explicit_path(p),
    ensures
        listener_address_of(listener_address_text(a, socket_text), other_socket) == Ok::<
            AddressModel,
            Seq<char>,
        >(a),
{
    assert(text_reads_back(a));
    assert(canonical_address(a) == a);
    lemma_listener_address_round_trip(a, socket_text, other_socket);
}

/// A TCP address reads back when std writes its text starting with a digit
/// (IPv4) or `[` (IPv6) and std's parser reads that text back as the address.
pub proof fn lemma_tcp_address_round_trip(a: SocketAddress, socket_text: Seq<char>)
    requires
        socket_text.len() > 0,
        ('0' <= socket_text[0] && socket_text[0] <= '9') || socket_text[0] == '[',
    ensures
        listener_address_of(
            listener_address_text(AddressModel::Tcp(a), socket_text),
            Some(a),
        ) == Ok::<AddressModel, Seq<char>>(AddressModel::Tcp(a)),
{
    reveal_strlit("/");
    reveal_strlit("./");
    reveal_strlit(".");
    reveal_strlit("@");
    reveal_strlit("inetd");
    reveal_strlit("stdio");
    reveal_strlit("-");
    reveal_strlit("sd-listen");
    reveal_strlit("sd_listen");
    reveal_strlit("sd-listen-unix");
    reveal_strlit("sd_listen_unix");
    reveal_strlit("sd-listen:");
    reveal_strlit("sd_listen:");
    let t = socket_text;
    lemma_not_path_or_abstract(t);
    lemma_first_char_differs(t, "inetd"@);
    lemma_first_char_differs(t, "stdio"@);
    lemma_first_char_differs(t, "sd-listen"@);
    lemma_first_char_differs(t, "sd_listen"@);
    lemma_first_char_differs(t, "sd-listen-unix"@);
    lemma_first_char_differs(t, "sd_listen_unix"@);
    assert(t != "-"@);
    if "sd-listen:"@.is_prefix_of(t) {
        lemma_prefix_char("sd-listen:"@, t, 0);
    }
    if "sd_listen:"@.is_prefix_of(t) {
        lemma_prefix_char("sd_listen:"@, t, 0);
    }
}

/// Whether the text is exactly `-`.
fn str_is_dash(s: &str) -> (r: bool)
    ensures
        r == (s@ == "-"@),
{
    proof {
        reveal_strlit("-");
    }
    if s.unicode_len() == 1 {
        let c = s.get_char(0);
        assert(c == '-' ==> s@ =~= "-"@);
        c == '-'
    } else {
        false
    }
}

} // verus!
