//! Checks for file descriptors inherited through systemd socket activation.
use vstd::prelude::*;
use crate::decimal::{parse_i32, parse_i32_spec, parse_u32, parse_u32_spec};
use crate::listener_address::SD_LISTEN_FDS_START;
use crate::text::{lemma_split_on_len, split_on, str_eq, str_split, str_views};

verus! {

/// Whether the environment hands descriptor `fdnum` to this process:
/// `LISTEN_PID` must be this process's id and `fdnum` must lie among the
/// `LISTEN_FDS` descriptors that start at 3.
pub open spec fn fd_env_allows(
    listen_pid: Option<Seq<char>>,
    listen_fds: Option<Seq<char>>,
    process_id: u32,
    fdnum: i32,
) -> bool {
    match (listen_pid, listen_fds) {
        (Some(p), Some(f)) => match (parse_u32_spec(p), parse_i32_spec(f)) {
            (Some(pid), Some(fds)) => {
                &&& pid == process_id
                &&& 3 + fds <= i32::MAX
                &&& 3 <= fdnum < 3 + fds
            },
            _ => false,
        },
        _ => false,
    }
}

pub open spec fn opt_view(s: Option<&str>) -> Option<Seq<char>> {
    match s {
        Some(x) => Some(x@),
        None => None,
    }
}

/// Checks `LISTEN_PID` and `LISTEN_FDS` (given as read from the environment,
/// `None` when absent or not Unicode) against this process's id and the
/// descriptor number `fdnum`.
pub fn check_env_for_fd(
    listen_pid: Option<&str>,
    listen_fds: Option<&str>,
    process_id: u32,
    fdnum: i32,
) -> (r: Option<()>)
    ensures
        r is Some <==> fd_env_allows(opt_view(listen_pid), opt_view(listen_fds), process_id, fdnum),
{
    let listen_pid = match listen_pid {
        Some(p) => p,
        None => return None,
    };
    let listen_pid: u32 = match parse_u32(listen_pid) {
        Some(v) => v,
        None => return None,
    };
    let listen_fds = match listen_fds {
        Some(f) => f,
        None => return None,
    };
    let listen_fds: i32 = match parse_i32(listen_fds) {
        Some(v) => v,
        None => return None,
    };
    if listen_pid != process_id {
        return None;
    }
    let end: i32 = match SD_LISTEN_FDS_START.checked_add(listen_fds) {
        Some(e) => e,
        None => return None,
    };
    if fdnum < SD_LISTEN_FDS_START || fdnum >= end {
        return None;
    }
    Some(())
}

/// The descriptor that `LISTEN_FDNAMES` gives to `name`: the names are
/// colon-separated and belong to descriptors 3, 4, ... in order; the first
/// equal name counts.
pub open spec fn fd_of_name(names: Seq<Seq<char>>, name: Seq<char>, fd: i32) -> bool {
    let i = fd - 3;
    &&& 0 <= i < names.len()
    &&& names[i] == name
    &&& forall|j: int| 0 <= j < i ==> names[j] != name
}

/// Finds the inherited descriptor named `fdname` in the value of `LISTEN_FDNAMES`.
pub fn fd_for_name(listen_fdnames: &str, fdname: &str) -> (r: Option<i32>)
    requires
        listen_fdnames@.len() < i32::MAX - 4,
    ensures
        match r {
            Some(fd) => fd_of_name(split_on(listen_fdnames@, ':'), fdname@, fd),
            None => forall|i: int|
                0 <= i < split_on(listen_fdnames@, ':').len() ==> split_on(
                    listen_fdnames@,
                    ':',
                )[i] != fdname@,
        },
{
    let names = str_split(listen_fdnames, ':');
    let ghost views = split_on(listen_fdnames@, ':');
    proof {
        lemma_split_on_len(listen_fdnames@, ':');
        assert(str_views(names@).len() == names@.len());
    }
    let mut fd: i32 = SD_LISTEN_FDS_START;
    let mut i: usize = 0;
    while i < names.len()
        invariant
            views == str_views(names@),
            views == split_on(listen_fdnames@, ':'),
            names@.len() == views.len(),
            views.len() < i32::MAX - 3,
            i <= names@.len(),
            fd == 3 + i,
            forall|j: int| 0 <= j < i ==> views[j] != fdname@,
        decreases names@.len() - i,
    {
        let name = names[i];
        assert(views[i as int] == name@);
        if str_eq(name, fdname) {
            assert(fd_of_name(views, fdname@, fd));
            return Some(fd);
        }
        fd = fd + 1;
        i = i + 1;
    }
    None
}

} // verus!
