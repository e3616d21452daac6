//! The descriptor-backed data path, as the logic sees it.
//!
//! The raw system calls — read, write, the readiness wait, the wake pipe —
//! stay outside the crate.  Here is everything the read path decides: which
//! route a blocking read takes, and what the caller is told after the wait
//! returns.  The shutdown flag is what lets a concurrent `shutdown()`
//! unblock a reader: the waker descriptor ends the wait, and the re-read
//! flag turns the outcome into a broken-connection error.

use vstd::prelude::*;
use crate::error::{ConfigError, IoError, IoErrorKind};

verus! {

/// A POSIX descriptor with the state the read path consults: whether it is
/// in non-blocking mode and whether it was shut down.
#[derive(Clone, Copy, Debug, PartialEq, Eq, Structural)]
pub struct Fd {
    pub fd: i32,
    pub close_fd_on_drop: bool,
    pub nonblocking: bool,
    pub shutdown: bool,
}

impl Fd {
    /// Adopt a raw descriptor.  A negative number cannot be an open
    /// descriptor and is rejected.
    pub fn new(value: i32, close_fd_on_drop: bool) -> (r: Result<Fd, ConfigError>)
        ensures
            value < 0 ==> r == Err::<Fd, ConfigError>(ConfigError::InvalidDescriptor),
            value >= 0 ==> r == Ok::<Fd, ConfigError>(Fd {
                fd: value,
                close_fd_on_drop,
                nonblocking: false,
                shutdown: false,
            }),
    {
        if value < 0 {
            Err(ConfigError::InvalidDescriptor)
        } else {
            Ok(Fd { fd: value, close_fd_on_drop, nonblocking: false, shutdown: false })
        }
    }

    /// Record that the descriptor was put into non-blocking mode.
    pub fn set_nonblock(&mut self)
        ensures
            *final(self) == (Fd { nonblocking: true, ..*old(self) }),
    {
        self.nonblocking = true;
    }

    /// Shut the descriptor down.  Idempotent: the state after the call
    /// does not depend on how often it was called before.
    pub fn shutdown(&mut self)
        ensures
            *final(self) == (Fd { shutdown: true, ..*old(self) }),
    {
        self.shutdown = true;
    }

    /// Decide the route of a blocking read before any OS call.
    pub fn plan_read(&self) -> (r: ReadPlan)
        ensures
            r == spec_read_plan(*self),
    {
        if self.shutdown {
            ReadPlan::Aborted
        } else if self.nonblocking {
            ReadPlan::Direct
        } else {
            ReadPlan::WaitThenRead
        }
    }
}

/// The route a blocking read takes: fail at once after a shutdown, read
/// directly in non-blocking mode, or wait for readiness first.
#[derive(Clone, Copy, Debug, PartialEq, Eq, Structural)]
pub enum ReadPlan {
    Aborted,
    Direct,
    WaitThenRead,
}

/// Which route the read path takes, from the descriptor's state alone.
pub open spec fn spec_read_plan(fd: Fd) -> ReadPlan {
    if fd.shutdown {
        ReadPlan::Aborted
    } else if fd.nonblocking {
        ReadPlan::Direct
    } else {
        ReadPlan::WaitThenRead
    }
}

/// What the readiness wait reported.
#[derive(Clone, Copy, Debug, PartialEq, Eq, Structural)]
pub enum WaitOutcome {
    /// The wait itself failed with this OS code.
    Failed(i32),
    /// The bounded wait elapsed with nothing ready.
    TimedOut,
    /// The descriptor (or the waker) became ready.
    Ready,
}

/// What the caller is told once the wait returns and the shutdown flag has
/// been read again: a shutdown observed at that point aborts the read no
/// matter how the wait ended.
pub open spec fn spec_after_wait(shutdown_now: bool, outcome: WaitOutcome) -> Result<
    (),
    IoError,
> {
    if shutdown_now {
        Err(IoError { kind: IoErrorKind::ConnectionAborted, code: 0 })
    } else {
        match outcome {
            WaitOutcome::Failed(c) => Err(IoError { kind: IoErrorKind::Other, code: c }),
            WaitOutcome::TimedOut => Err(IoError { kind: IoErrorKind::TimedOut, code: 0 }),
            WaitOutcome::Ready => Ok(()),
        }
    }
}

/// Decide what follows the readiness wait.  `Ok` means: go on and read.
pub fn read_after_wait(shutdown_now: bool, outcome: WaitOutcome) -> (r: Result<(), IoError>)
    ensures
        r == spec_after_wait(shutdown_now, outcome),
{
    if shutdown_now {
        Err(IoError { kind: IoErrorKind::ConnectionAborted, code: 0 })
    } else {
        match outcome {
            WaitOutcome::Failed(c) => Err(IoError { kind: IoErrorKind::Other, code: c }),
            WaitOutcome::TimedOut => Err(IoError { kind: IoErrorKind::TimedOut, code: 0 }),
            WaitOutcome::Ready => Ok(()),
        }
    }
}

/// Shutdown unblocks: once the flag is set, a read that has not yet made
/// its OS call fails at once, and a read already waiting fails with a
/// broken-connection error whatever the wait reported — it never goes on
/// to block again.
pub proof fn lemma_shutdown_unblocks(fd: Fd)
    requires
        fd.shutdown,
    ensures
        spec_read_plan(fd) == ReadPlan::Aborted,
        forall|o: WaitOutcome| spec_after_wait(true, o) == Err::<(), IoError>(IoError {
            kind: IoErrorKind::ConnectionAborted,
            code: 0,
        }),
{
}

/// The descriptor-based device backend: the descriptor plus the
/// packet-information flags of the platform's framing.
pub struct Tun {
    pub fd: Fd,
    pub packet_information: bool,
    pub ignore_packet_info: bool,
}

impl Tun {
    /// Wrap a descriptor; `packet_information` says whether the platform
    /// prepends its header to every packet.
    pub fn new(fd: Fd, packet_information: bool) -> (r: Tun)
        ensures
            r.fd == fd,
            r.packet_information == packet_information,
            !r.ignore_packet_info,
    {
        Tun { fd, packet_information, ignore_packet_info: false }
    }

    /// Whether the platform prepends its packet-information header.
    pub fn packet_information(&self) -> (r: bool)
        ensures
            r == self.packet_information,
    {
        self.packet_information
    }

    /// Whether the header is stripped and ignored.
    pub fn ignore_packet_info(&self) -> (r: bool)
        ensures
            r == self.ignore_packet_info,
    {
        self.ignore_packet_info
    }

    /// Choose whether to strip and ignore the header.
    pub fn set_ignore_packet_info(&mut self, ign: bool)
        ensures
            *final(self) == (Tun { ignore_packet_info: ign, ..*old(self) }),
    {
        self.ignore_packet_info = ign;
    }

    /// Record non-blocking mode on the descriptor.
    pub fn set_nonblock(&mut self)
        ensures
            final(self).fd == (Fd { nonblocking: true, ..old(self).fd }),
            final(self).packet_information == old(self).packet_information,
            final(self).ignore_packet_info == old(self).ignore_packet_info,
    {
        self.fd.set_nonblock();
    }

    /// Shut the descriptor down; idempotent.
    pub fn shutdown(&mut self)
        ensures
            final(self).fd == (Fd { shutdown: true, ..old(self).fd }),
            final(self).packet_information == old(self).packet_information,
            final(self).ignore_packet_info == old(self).ignore_packet_info,
    {
        self.fd.shutdown();
    }
}

} // verus!
