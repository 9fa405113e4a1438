//! Thin trusted wrappers around the host's descriptor system calls. Each
//! wrapper holds exactly one outside call; everything decided around these
//! calls — which descriptor goes where, what is closed, what is reported —
//! is verified code in the other modules.

use crate::plan::Channel;
use vstd::prelude::*;

verus! {

/// Relies on nix::unistd::pipe: on success the kernel hands back one fresh
/// channel as two distinct, non-negative descriptors, the read end first.
#[verifier::external_body]
pub(crate) fn sys_pipe() -> (r: Option<Channel>)
    ensures
        r matches Some(c) ==> c.read_fd >= 0 && c.write_fd >= 0 && c.read_fd != c.write_fd,
{
    match nix::unistd::pipe() {
        Ok((rd, wr)) => Some(Channel { read_fd: rd, write_fd: wr }),
        Err(_) => None,
    }
}

/// Relies on nix::unistd::close: gives the descriptor back to the kernel.
/// The result only says whether the kernel accepted it; there is nothing
/// further for a caller to do either way.
#[verifier::external_body]
pub(crate) fn sys_close(fd: i32) -> (r: bool) {
    nix::unistd::close(fd).is_ok()
}

/// Relies on nix::unistd::dup2: on a `true` result the stream at `newfd`
/// refers to the same open channel or file as `oldfd`.
#[verifier::external_body]
pub(crate) fn sys_dup2(oldfd: i32, newfd: i32) -> (r: bool) {
    nix::unistd::dup2(oldfd, newfd).is_ok()
}

/// Relies on nix::fcntl::open, read-only and with no creation flags: on
/// success the returned descriptor is non-negative and reads the named
/// existing file from its start.
#[verifier::external_body]
pub(crate) fn sys_open_read(path: &Vec<u8>) -> (r: Option<i32>)
    ensures
        r matches Some(fd) ==> fd >= 0,
{
    let flags = nix::fcntl::OFlag::O_RDONLY;
    match nix::fcntl::open(path.as_slice(), flags, nix::sys::stat::Mode::empty()) {
        Ok(fd) => Some(fd),
        Err(_) => None,
    }
}

/// Relies on nix::fcntl::open with create, write-only and truncate flags
/// and permission bits 0o644: on success the returned descriptor is
/// non-negative and writes the named file, created if absent and truncated
/// if present.
#[verifier::external_body]
pub(crate) fn sys_open_write(path: &Vec<u8>) -> (r: Option<i32>)
    ensures
        r matches Some(fd) ==> fd >= 0,
{
    let flags = nix::fcntl::OFlag::O_CREAT | nix::fcntl::OFlag::O_WRONLY
        | nix::fcntl::OFlag::O_TRUNC;
    match nix::fcntl::open(path.as_slice(), flags, nix::sys::stat::Mode::from_bits_truncate(0o644))
    {
        Ok(fd) => Some(fd),
        Err(_) => None,
    }
}

/// Relies on nix::sys::wait::waitpid with no options: blocks until the
/// named child terminates and reaps it, so the host keeps no record of it;
/// `false` reports a failed wait, after which there is nothing to reap.
#[verifier::external_body]
pub(crate) fn sys_waitpid(pid: i32) -> (r: bool) {
    nix::sys::wait::waitpid(nix::unistd::Pid::from_raw(pid), None).is_ok()
}

} // verus!
