//! The decisions of binding and of the accept loop: which socket options to
//! apply, what to do after a failed accept, and how the single inetd
//! connection is handed out.
use vstd::prelude::*;
use crate::options::UserOptions;
use crate::unix_chmod::chmod_mode_bits;
use crate::text::str_eq;

verus! {

/// `std::io::Error`, carried through opaque.
#[verifier::external_type_specification]
#[verifier::external_body]
pub struct ExIoError(std::io::Error);

/// The kind of an I/O error: one variant for each kind of `std::io::ErrorKind`,
/// under the same name.
#[derive(Debug, Clone, Copy, PartialEq, Eq, Structural)]
pub enum IoErrorKind {
    NotFound,
    PermissionDenied,
    ConnectionRefused,
    ConnectionReset,
    HostUnreachable,
    NetworkUnreachable,
    ConnectionAborted,
    NotConnected,
    AddrInUse,
    AddrNotAvailable,
    NetworkDown,
    BrokenPipe,
    AlreadyExists,
    WouldBlock,
    NotADirectory,
    IsADirectory,
    DirectoryNotEmpty,
    ReadOnlyFilesystem,
    StaleNetworkFileHandle,
    InvalidInput,
    InvalidData,
    TimedOut,
    WriteZero,
    StorageFull,
    NotSeekable,
    QuotaExceeded,
    FileTooLarge,
    ResourceBusy,
    ExecutableFileBusy,
    Deadlock,
    CrossesDevices,
    TooManyLinks,
    InvalidFilename,
    ArgumentListTooLong,
    Interrupted,
    Unsupported,
    UnexpectedEof,
    OutOfMemory,
    Other,
    /// A kind that `std::io::ErrorKind` has beyond those above (the enum is
    /// open to new kinds).
    Unlisted,
}

/// The name of the kind of an I/O error: what `{:?}` writes of
/// `std::io::Error::kind`, the name of the `std::io::ErrorKind` variant.
pub uninterp spec fn io_error_kind_name(e: std::io::Error) -> Seq<char>;

/// `std::io::Error::kind`, written with `{:?}`: the name of the kind, which
/// [`io_error_kind_name`] names.
#[verifier::external_body]
fn io_error_kind_text(e: &std::io::Error) -> (r: String)
    ensures
        r@ == io_error_kind_name(*e),
{
    format!("{:?}", e.kind())
}

/// The kind with the name `name`; `Unlisted` for a name of none of them.
pub open spec fn kind_named(name: Seq<char>) -> IoErrorKind {
    if name == "Other"@ {
        IoErrorKind::Other
    } else if name == "NotFound"@ {
        IoErrorKind::NotFound
    } else if name == "PermissionDenied"@ {
        IoErrorKind::PermissionDenied
    } else if name == "ConnectionRefused"@ {
        IoErrorKind::ConnectionRefused
    } else if name == "ConnectionReset"@ {
        IoErrorKind::ConnectionReset
    } else if name == "HostUnreachable"@ {
        IoErrorKind::HostUnreachable
    } else if name == "NetworkUnreachable"@ {
        IoErrorKind::NetworkUnreachable
    } else if name == "ConnectionAborted"@ {
        IoErrorKind::ConnectionAborted
    } else if name == "NotConnected"@ {
        IoErrorKind::NotConnected
    } else if name == "AddrInUse"@ {
        IoErrorKind::AddrInUse
    } else if name == "AddrNotAvailable"@ {
        IoErrorKind::AddrNotAvailable
    } else if name == "NetworkDown"@ {
        IoErrorKind::NetworkDown
    } else if name == "BrokenPipe"@ {
        IoErrorKind::BrokenPipe
    } else if name == "AlreadyExists"@ {
        IoErrorKind::AlreadyExists
    } else if name == "WouldBlock"@ {
        IoErrorKind::WouldBlock
    } else if name == "NotADirectory"@ {
        IoErrorKind::NotADirectory
    } else if name == "IsADirectory"@ {
        IoErrorKind::IsADirectory
    } else if name == "DirectoryNotEmpty"@ {
        IoErrorKind::DirectoryNotEmpty
    } else if name == "ReadOnlyFilesystem"@ {
        IoErrorKind::ReadOnlyFilesystem
    } else if name == "StaleNetworkFileHandle"@ {
        IoErrorKind::StaleNetworkFileHandle
    } else if name == "InvalidInput"@ {
        IoErrorKind::InvalidInput
    } else if name == "InvalidData"@ {
        IoErrorKind::InvalidData
    } else if name == "TimedOut"@ {
        IoErrorKind::TimedOut
    } else if name == "WriteZero"@ {
        IoErrorKind::WriteZero
    } else if name == "StorageFull"@ {
        IoErrorKind::StorageFull
    } else if name == "NotSeekable"@ {
        IoErrorKind::NotSeekable
    } else if name == "QuotaExceeded"@ {
        IoErrorKind::QuotaExceeded
    } else if name == "FileTooLarge"@ {
        IoErrorKind::FileTooLarge
    } else if name == "ResourceBusy"@ {
        IoErrorKind::ResourceBusy
    } else if name == "ExecutableFileBusy"@ {
        IoErrorKind::ExecutableFileBusy
    } else if name == "Deadlock"@ {
        IoErrorKind::Deadlock
    } else if name == "CrossesDevices"@ {
        IoErrorKind::CrossesDevices
    } else if name == "TooManyLinks"@ {
        IoErrorKind::TooManyLinks
    } else if name == "InvalidFilename"@ {
        IoErrorKind::InvalidFilename
    } else if name == "ArgumentListTooLong"@ {
        IoErrorKind::ArgumentListTooLong
    } else if name == "Interrupted"@ {
        IoErrorKind::Interrupted
    } else if name == "Unsupported"@ {
        IoErrorKind::Unsupported
    } else if name == "UnexpectedEof"@ {
        IoErrorKind::UnexpectedEof
    } else if name == "OutOfMemory"@ {
        IoErrorKind::OutOfMemory
    } else {
        IoErrorKind::Unlisted
    }
}

/// The kind of the I/O error `e`.
pub open spec fn io_error_kind_of(e: std::io::Error) -> IoErrorKind {
    kind_named(io_error_kind_name(e))
}

/// The kind with the name `name`.
pub fn io_error_kind_named(name: &str) -> (r: IoErrorKind)
    ensures
        r == kind_named(name@),
{
    if str_eq(name, "Other") {
        IoErrorKind::Other
    } else if str_eq(name, "NotFound") {
        IoErrorKind::NotFound
    } else if str_eq(name, "PermissionDenied") {
        IoErrorKind::PermissionDenied
    } else if str_eq(name, "ConnectionRefused") {
        IoErrorKind::ConnectionRefused
    } else if str_eq(name, "ConnectionReset") {
        IoErrorKind::ConnectionReset
    } else if str_eq(name, "HostUnreachable") {
        IoErrorKind::HostUnreachable
    } else if str_eq(name, "NetworkUnreachable") {
        IoErrorKind::NetworkUnreachable
    } else if str_eq(name, "ConnectionAborted") {
        IoErrorKind::ConnectionAborted
    } else if str_eq(name, "NotConnected") {
        IoErrorKind::NotConnected
    } else if str_eq(name, "AddrInUse") {
        IoErrorKind::AddrInUse
    } else if str_eq(name, "AddrNotAvailable") {
        IoErrorKind::AddrNotAvailable
    } else if str_eq(name, "NetworkDown") {
        IoErrorKind::NetworkDown
    } else if str_eq(name, "BrokenPipe") {
        IoErrorKind::BrokenPipe
    } else if str_eq(name, "AlreadyExists") {
        IoErrorKind::AlreadyExists
    } else if str_eq(name, "WouldBlock") {
        IoErrorKind::WouldBlock
    } else if str_eq(name, "NotADirectory") {
        IoErrorKind::NotADirectory
    } else if str_eq(name, "IsADirectory") {
        IoErrorKind::IsADirectory
    } else if str_eq(name, "DirectoryNotEmpty") {
        IoErrorKind::DirectoryNotEmpty
    } else if str_eq(name, "ReadOnlyFilesystem") {
        IoErrorKind::ReadOnlyFilesystem
    } else if str_eq(name, "StaleNetworkFileHandle") {
        IoErrorKind::StaleNetworkFileHandle
    } else if str_eq(name, "InvalidInput") {
        IoErrorKind::InvalidInput
    } else if str_eq(name, "InvalidData") {
        IoErrorKind::InvalidData
    } else if str_eq(name, "TimedOut") {
        IoErrorKind::TimedOut
    } else if str_eq(name, "WriteZero") {
        IoErrorKind::WriteZero
    } else if str_eq(name, "StorageFull") {
        IoErrorKind::StorageFull
    } else if str_eq(name, "NotSeekable") {
        IoErrorKind::NotSeekable
    } else if str_eq(name, "QuotaExceeded") {
        IoErrorKind::QuotaExceeded
    } else if str_eq(name, "FileTooLarge") {
        IoErrorKind::FileTooLarge
    } else if str_eq(name, "ResourceBusy") {
        IoErrorKind::ResourceBusy
    } else if str_eq(name, "ExecutableFileBusy") {
        IoErrorKind::ExecutableFileBusy
    } else if str_eq(name, "Deadlock") {
        IoErrorKind::Deadlock
    } else if str_eq(name, "CrossesDevices") {
        IoErrorKind::CrossesDevices
    } else if str_eq(name, "TooManyLinks") {
        IoErrorKind::TooManyLinks
    } else if str_eq(name, "InvalidFilename") {
        IoErrorKind::InvalidFilename
    } else if str_eq(name, "ArgumentListTooLong") {
        IoErrorKind::ArgumentListTooLong
    } else if str_eq(name, "Interrupted") {
        IoErrorKind::Interrupted
    } else if str_eq(name, "Unsupported") {
        IoErrorKind::Unsupported
    } else if str_eq(name, "UnexpectedEof") {
        IoErrorKind::UnexpectedEof
    } else if str_eq(name, "OutOfMemory") {
        IoErrorKind::OutOfMemory
    } else {
        IoErrorKind::Unlisted
    }
}

/// The kind of the I/O error `e`.
pub fn io_error_kind(e: &std::io::Error) -> (r: IoErrorKind)
    ensures
        r == io_error_kind_of(*e),
{
    let name = io_error_kind_text(e);
    io_error_kind_named(name.as_str())
}

/// Errors that concern one connection only: after them the next connection
/// may be ready to be accepted at once.
pub open spec fn is_connection_kind(kind: IoErrorKind) -> bool {
    ||| kind == IoErrorKind::ConnectionRefused
    ||| kind == IoErrorKind::ConnectionAborted
    ||| kind == IoErrorKind::ConnectionReset
}

/// Whether an error kind concerns one connection only (refused, aborted or reset).
pub fn is_connection_error_kind(kind: IoErrorKind) -> (r: bool)
    ensures
        r == is_connection_kind(kind),
{
    matches!(kind, IoErrorKind::ConnectionRefused | IoErrorKind::ConnectionAborted | IoErrorKind::ConnectionReset)
}

/// This function defines errors that are per-connection. Which basically
/// means that if we get this error from `accept()` system call it means
/// next connection might be ready to be accepted.
///
/// All other errors will incur a timeout before next `accept()` is performed.
/// The timeout is useful to handle resource exhaustion errors like ENFILE
/// and EMFILE. Otherwise, could enter into tight loop.
pub fn is_connection_error(e: &std::io::Error) -> (r: bool)
    ensures
        r == is_connection_kind(io_error_kind_of(*e)),
        r <==> (io_error_kind_of(*e) == IoErrorKind::ConnectionRefused || io_error_kind_of(*e)
            == IoErrorKind::ConnectionAborted || io_error_kind_of(*e)
            == IoErrorKind::ConnectionReset),
{
    is_connection_error_kind(io_error_kind(e))
}

/// What the accept loop does after `accept` failed with the error `e`: the
/// action for the kind of `e` (see [`accept_error_action`]).
pub fn accept_error_action_for(e: &std::io::Error, sleep_on_errors: bool) -> (r:
    AcceptErrorAction)
    ensures
        r == accept_error_action_spec(io_error_kind_of(*e), sleep_on_errors),
{
    let k = io_error_kind(e);
    accept_error_action(k, sleep_on_errors)
}

/// What the accept loop does after `accept` failed.
#[derive(Debug, Clone, Copy, PartialEq, Eq, Structural)]
pub enum AcceptErrorAction {
    /// Accept again at once.
    Retry,
    /// Wait [`ACCEPT_RETRY_PAUSE_SECS`] seconds, then accept again.
    PauseThenRetry,
    /// Report the error to the caller.
    Fail,
}

/// How long the accept loop waits after an error that is not a connection's own.
pub const ACCEPT_RETRY_PAUSE_SECS: u64 = 1;

/// The action after a failed accept: connection errors are retried at once;
/// any other error waits and retries when `sleep_on_errors` is set, and is
/// reported otherwise.
pub open spec fn accept_error_action_spec(kind: IoErrorKind, sleep_on_errors: bool) -> AcceptErrorAction {
    if is_connection_kind(kind) {
        AcceptErrorAction::Retry
    } else if sleep_on_errors {
        AcceptErrorAction::PauseThenRetry
    } else {
        AcceptErrorAction::Fail
    }
}

/// A connection's own error never ends the accept loop: it is retried at
/// once. With `sleep_on_errors` set, no error ends it.
pub proof fn lemma_accept_loop_survives(kind: IoErrorKind, sleep_on_errors: bool)
    ensures
        is_connection_kind(kind) ==> accept_error_action_spec(kind, sleep_on_errors)
            == AcceptErrorAction::Retry,
        sleep_on_errors ==> accept_error_action_spec(kind, sleep_on_errors)
            != AcceptErrorAction::Fail,
        accept_error_action_spec(kind, sleep_on_errors) == AcceptErrorAction::Fail <==> (
        !is_connection_kind(kind) && !sleep_on_errors),
{
}

/// After a failed accept, only a refused, aborted or reset connection is
/// retried at once. Any other error waits [`ACCEPT_RETRY_PAUSE_SECS`] and
/// retries when `sleep_on_errors` is set, and is reported otherwise.
pub proof fn lemma_accept_error_action_by_kind(kind: IoErrorKind, sleep_on_errors: bool)
    ensures
        kind == IoErrorKind::ConnectionRefused || kind == IoErrorKind::ConnectionAborted || kind
            == IoErrorKind::ConnectionReset ==> accept_error_action_spec(kind, sleep_on_errors)
            == AcceptErrorAction::Retry,
        kind != IoErrorKind::ConnectionRefused && kind != IoErrorKind::ConnectionAborted && kind
            != IoErrorKind::ConnectionReset ==> accept_error_action_spec(kind, sleep_on_errors) == (
        if sleep_on_errors {
            AcceptErrorAction::PauseThenRetry
        } else {
            AcceptErrorAction::Fail
        }),
{
}

/// Decides what to do after `accept` failed with an error of `kind`.
pub fn accept_error_action(kind: IoErrorKind, sleep_on_errors: bool) -> (r: AcceptErrorAction)
    ensures
        r == accept_error_action_spec(kind, sleep_on_errors),
{
    if is_connection_error_kind(kind) {
        AcceptErrorAction::Retry
    } else if sleep_on_errors {
        AcceptErrorAction::PauseThenRetry
    } else {
        AcceptErrorAction::Fail
    }
}

/// The outcome of one accept on the stdin/stdout pseudo-socket (inetd mode).
#[derive(Debug, Clone, Copy, PartialEq, Eq, Structural)]
pub enum StdioAcceptOutcome {
    /// Hand out stdin/stdout as the connection, with the release token.
    HandOut,
    /// The connection is still being served: wait.
    Wait,
    /// The connection was served and released: no other can be accepted.
    AlreadyUsed,
}

/// One accept in inetd mode. `token_present` says whether the release token
/// is still held by the listener; `released` whether the served connection
/// has signalled (or dropped) its token. Gives the outcome and whether the
/// token is held afterwards.
pub open spec fn stdio_accept_spec(token_present: bool, released: bool) -> (StdioAcceptOutcome, bool) {
    if token_present {
        (StdioAcceptOutcome::HandOut, false)
    } else if released {
        (StdioAcceptOutcome::AlreadyUsed, false)
    } else {
        (StdioAcceptOutcome::Wait, false)
    }
}

/// Decides one accept in inetd mode.
pub fn stdio_accept_step(token_present: bool, released: bool) -> (r: (StdioAcceptOutcome, bool))
    ensures
        r == stdio_accept_spec(token_present, released),
{
    if token_present {
        (StdioAcceptOutcome::HandOut, false)
    } else if released {
        (StdioAcceptOutcome::AlreadyUsed, false)
    } else {
        (StdioAcceptOutcome::Wait, false)
    }
}

/// The outcomes of a run of accepts in inetd mode, starting with the token
/// held or not, where `releases[i]` is what the release signal shows at the
/// `i`-th accept.
pub open spec fn stdio_accept_run(token_present: bool, releases: Seq<bool>) -> Seq<StdioAcceptOutcome>
    decreases releases.len(),
{
    if releases.len() == 0 {
        Seq::<StdioAcceptOutcome>::empty()
    } else {
        let (outcome, token_after) = stdio_accept_spec(token_present, releases[0]);
        seq![outcome] + stdio_accept_run(token_after, releases.drop_first())
    }
}

proof fn lemma_stdio_run_without_token(releases: Seq<bool>)
    ensures
        stdio_accept_run(false, releases).len() == releases.len(),
        forall|i: int|
            0 <= i < releases.len() ==> (#[trigger] stdio_accept_run(false, releases)[i]
                == if releases[i] {
                StdioAcceptOutcome::AlreadyUsed
            } else {
                StdioAcceptOutcome::Wait
            }),
    decreases releases.len(),
{
    if releases.len() > 0 {
        let rest = releases.drop_first();
        lemma_stdio_run_without_token(rest);
        let run = stdio_accept_run(false, releases);
        assert forall|i: int| 0 <= i < releases.len() implies (#[trigger] run[i] == if releases[i] {
            StdioAcceptOutcome::AlreadyUsed
        } else {
            StdioAcceptOutcome::Wait
        }) by {
            if i > 0 {
                assert(run[i] == stdio_accept_run(false, rest)[i - 1]);
                assert(rest[i - 1] == releases[i]);
            }
        }
    }
}

/// In inetd mode exactly one connection is served: the first accept hands
/// out stdin/stdout, no later accept hands out anything, and a later accept
/// reports that the pseudo-socket is used up only once the served
/// connection has been released; until then it waits.
pub proof fn lemma_inetd_serves_one_connection(releases: Seq<bool>)
    requires
        releases.len() > 0,
    ensures
        stdio_accept_run(true, releases).len() == releases.len(),
        stdio_accept_run(true, releases)[0] == StdioAcceptOutcome::HandOut,
        forall|i: int|
            1 <= i < releases.len() ==> #[trigger] stdio_accept_run(true, releases)[i]
                != StdioAcceptOutcome::HandOut,
        forall|i: int|
            1 <= i < releases.len() ==> (#[trigger] stdio_accept_run(true, releases)[i]
                == StdioAcceptOutcome::AlreadyUsed <==> releases[i]),
{
    let rest = releases.drop_first();
    lemma_stdio_run_without_token(rest);
    let run = stdio_accept_run(true, releases);
    assert forall|i: int| 1 <= i < releases.len() implies run[i] == stdio_accept_run(
        false,
        rest,
    )[i - 1] && rest[i - 1] == releases[i] by {}
}

/// How a TCP listening socket is set up when options ask for more than a plain bind.
#[derive(Debug, Clone, Copy, PartialEq, Eq, Structural)]
pub struct TcpSocketPlan {
    /// Set `IPV6_V6ONLY`.
    pub only_v6: bool,
    /// Set `SO_REUSEPORT`.
    pub reuse_port: bool,
    /// The listen backlog; `None` when the requested value does not fit a C `int`,
    /// which fails the bind with "Invalid socket listen backlog value".
    pub backlog: Option<i32>,
}

/// The backlog used when none is given.
pub const DEFAULT_LISTEN_BACKLOG: u32 = 1024;

/// The TCP socket set-up the options ask for: `None` for a plain bind, which
/// is used unless `IPV6_V6ONLY`, `SO_REUSEPORT` or a backlog is requested.
pub open spec fn tcp_socket_plan_spec(opts: UserOptions) -> Option<TcpSocketPlan> {
    if opts.tcp_only_v6 || opts.tcp_reuse_port || opts.tcp_listen_backlog is Some {
        let b: u32 = match opts.tcp_listen_backlog {
            Some(b) => b,
            None => 1024,
        };
        Some(
            TcpSocketPlan {
                only_v6: opts.tcp_only_v6,
                reuse_port: opts.tcp_reuse_port,
                backlog: if b <= i32::MAX {
                    Some(b as i32)
                } else {
                    None
                },
            },
        )
    } else {
        None
    }
}

/// Decides how a TCP listening socket is set up.
pub fn tcp_socket_plan(opts: &UserOptions) -> (r: Option<TcpSocketPlan>)
    ensures
        r == tcp_socket_plan_spec(*opts),
{
    if opts.tcp_only_v6 || opts.tcp_reuse_port || opts.tcp_listen_backlog.is_some() {
        let b: u32 = match opts.tcp_listen_backlog {
            Some(b) => b,
            None => DEFAULT_LISTEN_BACKLOG,
        };
        let backlog: Option<i32> = if b <= 0x7FFF_FFFF {
            Some(b as i32)
        } else {
            None
        };
        Some(TcpSocketPlan { only_v6: opts.tcp_only_v6, reuse_port: opts.tcp_reuse_port, backlog })
    } else {
        None
    }
}

/// A new owner for a file: user and group ids, either of which may stay as it is.
#[derive(Debug, Clone, Copy, PartialEq, Eq, Structural)]
pub struct FileOwner {
    pub uid: Option<u32>,
    pub gid: Option<u32>,
}

/// What is done around binding a UNIX path socket.
#[derive(Debug, Clone, Copy, PartialEq, Eq, Structural)]
pub struct UnixPathSetup {
    /// Remove the file before binding (failure to remove is ignored).
    pub unlink_first: bool,
    /// File mode bits to give the socket file after binding.
    pub mode: Option<u32>,
    /// New owner user and group of the socket file, when at least one is given.
    pub owner: Option<FileOwner>,
}

pub open spec fn unix_path_setup_spec(opts: UserOptions) -> UnixPathSetup {
    UnixPathSetup {
        unlink_first: opts.unix_listen_unlink,
        mode: match opts.unix_listen_chmod {
            Some(v) => Some(chmod_mode_bits(v)),
            None => None,
        },
        owner: if opts.unix_listen_uid is None && opts.unix_listen_gid is None {
            None
        } else {
            Some(FileOwner { uid: opts.unix_listen_uid, gid: opts.unix_listen_gid })
        },
    }
}

/// Decides what is done around binding a UNIX path socket.
pub fn unix_path_setup(opts: &UserOptions) -> (r: UnixPathSetup)
    ensures
        r == unix_path_setup_spec(*opts),
{
    let mode = match opts.unix_listen_chmod {
        Some(v) => Some(v.mode()),
        None => None,
    };
    let owner = if opts.unix_listen_uid.is_none() && opts.unix_listen_gid.is_none() {
        None
    } else {
        Some(FileOwner { uid: opts.unix_listen_uid, gid: opts.unix_listen_gid })
    };
    UnixPathSetup { unlink_first: opts.unix_listen_unlink, mode, owner }
}


/// The TCP socket is built by hand exactly when some socket option is asked
/// for (IPv6 only, port reuse or a backlog); it then carries the two flags as
/// given, and the backlog asked for, 1024 when none is.
pub proof fn lemma_tcp_socket_plan_options(opts: UserOptions)
    ensures
        tcp_socket_plan_spec(opts) is None <==> (!opts.tcp_only_v6 && !opts.tcp_reuse_port
            && opts.tcp_listen_backlog is None),
        opts.tcp_reuse_port ==> (tcp_socket_plan_spec(opts) is Some && tcp_socket_plan_spec(
            opts,
        )->0.reuse_port),
        opts.tcp_only_v6 ==> (tcp_socket_plan_spec(opts) is Some && tcp_socket_plan_spec(
            opts,
        )->0.only_v6),
        tcp_socket_plan_spec(opts) matches Some(plan) ==> {
            &&& plan.only_v6 == opts.tcp_only_v6
            &&& plan.reuse_port == opts.tcp_reuse_port
            &&& opts.tcp_listen_backlog is None ==> plan.backlog == Some(1024i32)
            &&& (opts.tcp_listen_backlog is Some && opts.tcp_listen_backlog->0 <= 0x7FFF_FFFF)
                ==> plan.backlog == Some(opts.tcp_listen_backlog->0 as i32)
        },
{
}

/// The socket file is chowned exactly when an owner or a group is asked for,
/// to both as given; it is unlinked first exactly when asked, and chmodded
/// exactly when a mode is asked for.
pub proof fn lemma_unix_path_setup_options(opts: UserOptions)
    ensures
        unix_path_setup_spec(opts).owner is Some <==> (opts.unix_listen_uid is Some
            || opts.unix_listen_gid is Some),
        unix_path_setup_spec(opts).owner matches Some(o) ==> o.uid == opts.unix_listen_uid
            && o.gid == opts.unix_listen_gid,
        unix_path_setup_spec(opts).unlink_first == opts.unix_listen_unlink,
        unix_path_setup_spec(opts).mode is Some <==> opts.unix_listen_chmod is Some,
        opts.unix_listen_chmod is Some ==> unix_path_setup_spec(opts).mode == Some(
            chmod_mode_bits(opts.unix_listen_chmod->0),
        ),
{
}

} // verus!
