//! The device handle: owns the open descriptor and pulls decoded events
//! from it, one read attempt per pull, never blocking.

use vstd::prelude::*;
use crate::codec::{decode, record_from_bytes, spec_decode, spec_record_of, Event, RECORD_SIZE};
use crate::sys;

verus! {

/// The synthetic error code returned when the path given to [`Device::open`]
/// does not end in a null byte; the OS invalid-argument code.
pub const EINVAL: usize = 22;

/// Whether a path is a well-formed null-terminated byte string: non-empty,
/// with a null byte last.
pub open spec fn path_null_terminated(p: Seq<u8>) -> bool {
    p.len() > 0 && p[p.len() - 1] == 0
}

/// What one pull yields for each possible outcome of its single read
/// attempt: a full record is decoded into its event; a read error (among
/// them the would-block condition) or fewer bytes than one full record
/// yield no event.
pub fn event_from_read(outcome: Result<([u8; 8], usize), usize>) -> (r: Option<Event>)
    ensures
        outcome matches Ok(p) ==> r == (if p.1 == RECORD_SIZE {
            spec_decode(spec_record_of(p.0@))
        } else {
            None::<Event>
        }),
        outcome matches Err(_) ==> r is None,
{
    match outcome {
        Ok((buf, n)) => {
            if n == RECORD_SIZE {
                decode(&record_from_bytes(&buf))
            } else {
                None
            }
        },
        Err(_) => None,
    }
}

/// An exclusively owned joystick device handle.
///
/// It holds exactly one descriptor, opened read-only and non-blocking; the
/// descriptor is released when the handle is dropped, on every exit path,
/// because the owned descriptor type closes itself on drop. The handle is
/// neither shareable nor cloneable.
pub struct Device {
    fd: rustix::fd::OwnedFd,
}

impl Device {
    /// Opens the device at the given null-terminated path.
    ///
    /// If the path does not end in a null byte, this fails at once with
    /// [`EINVAL`], before any OS call. Otherwise it makes exactly one OS
    /// open call, read-only and non-blocking, and returns either the owned
    /// handle or the OS error code, which is always nonzero.
    pub fn open(path: &[u8]) -> (r: Result<Device, usize>)
        ensures
            !path_null_terminated(path@) ==> r == Err::<Device, usize>(EINVAL),
            r matches Err(e) ==> 0 < e <= 4095,
            r matches Ok(_) ==> path_null_terminated(path@),
    {
        let n: usize = path.len();
        if n == 0 || path[n - 1] != 0 {
            return Err(EINVAL);
        }
        match sys::open_readonly_nonblocking(path, n - 1) {
            Ok(fd) => Ok(Device { fd }),
            Err(e) => Err(e),
        }
    }

    /// Pulls at most one event: exactly one read attempt against the
    /// descriptor, fed through the decoder.
    ///
    /// `None` means no event from this attempt — the read failed (among
    /// other causes, it would have blocked), returned fewer bytes than one
    /// full record, or a full record of an unrecognized class arrived. It is
    /// never end-of-stream: a later pull may yield an event again. No retry
    /// happens within one call, and the call never blocks, since the
    /// descriptor is non-blocking.
    pub fn next(&mut self) -> (r: Option<Event>)
        ensures
            *final(self) == *old(self),
    {
        event_from_read(sys::read_record_bytes(&self.fd))
    }
}

} // verus!
