//! The trusted platform boundary: the open and read system calls, made
//! through `rustix`, behind contracts that state only what that crate's
//! source shows. Everything else in the library is verified against these.

use vstd::prelude::*;

verus! {

#[verifier::external_type_specification]
#[verifier::external_body]
pub struct ExOwnedFd(rustix::fd::OwnedFd);

/// Relies on `rustix::fs::open`: opens the first `len` bytes of `path` as a
/// path, read-only and non-blocking, and returns the descriptor, or the OS
/// error code on failure. `rustix::io::Errno` keeps its raw code in
/// `1..=4095`, so the error is never zero.
#[verifier::external_body]
pub(crate) fn open_readonly_nonblocking(path: &[u8], len: usize) -> (r: Result<
    rustix::fd::OwnedFd,
    usize,
>)
    requires
        len <= path@.len(),
    ensures
        r matches Err(e) ==> 0 < e <= 4095,
{
    let flags = rustix::fs::OFlags::RDONLY | rustix::fs::OFlags::NONBLOCK;
    match rustix::fs::open(&path[..len], flags, rustix::fs::Mode::empty()) {
        Ok(fd) => Ok(fd),
        Err(e) => Err(e.raw_os_error() as usize),
    }
}

/// Relies on `rustix::io::read`: reads from the descriptor into an
/// eight-byte buffer, storing at most eight bytes and returning how many it
/// stored, or the OS error code on failure (among them the would-block
/// condition of a non-blocking descriptor). `rustix::io::Errno` keeps its
/// raw code in `1..=4095`, so the error is never zero.
#[verifier::external_body]
pub(crate) fn read_record_bytes(fd: &rustix::fd::OwnedFd) -> (r: Result<([u8; 8], usize), usize>)
    ensures
        r matches Ok(p) ==> p.1 <= 8,
        r matches Err(e) ==> 0 < e <= 4095,
{
    let mut buf = [0u8; 8];
    match rustix::io::read(fd, &mut buf) {
        Ok(n) => Ok((buf, n)),
        Err(e) => Err(e.raw_os_error() as usize),
    }
}

} // verus!
