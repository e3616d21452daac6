//! The ring-session data plane of the Windows driver backend.
//!
//! The driver exposes a shared-memory packet ring through a session handle.
//! The raw ring calls — receive a packet, allocate room for one, post it —
//! are unsafe FFI through a dynamically loaded library and stay outside
//! this crate; the surrounding loop makes them and hands their outcomes in
//! as plain values.  Everything the backend decides about those outcomes is
//! here and verified: how ring faults map onto the library's error classes,
//! when the full-ring condition becomes the retry-later signal, and how a
//! received packet lands in the caller's buffer.

use vstd::prelude::*;
use crate::async_device::{copy_packet, spec_deliver_result, spec_delivered};
use crate::error::{IoError, IoErrorKind};

verus! {

/// The OS error code the driver reports when the send ring has no room
/// for the packet.
pub const RING_FULL_CODE: i32 = 111;

/// Session state the logic reads: the ring capacity it was started with
/// and whether the session is still live.  The ring memory itself belongs
/// to the driver.
#[derive(Clone, Copy, Debug, PartialEq, Eq, Structural)]
pub struct Session {
    pub ring_capacity: u32,
    pub alive: bool,
}

impl Session {
    /// A freshly started session with the given ring capacity.
    pub fn start(ring_capacity: u32) -> (r: Session)
        ensures
            r.ring_capacity == ring_capacity,
            r.alive,
    {
        Session { ring_capacity, alive: true }
    }

    /// End the session.  Idempotent: the state after the call does not
    /// depend on how often it was called before.
    pub fn shutdown(&mut self)
        ensures
            !final(self).alive,
            final(self).ring_capacity == old(self).ring_capacity,
    {
        self.alive = false;
    }
}

/// A fault reported by a ring call: the raw OS error code.
#[derive(Clone, Copy, Debug, PartialEq, Eq, Structural)]
pub struct DriverFault {
    pub os_code: i32,
}

/// A packet taken out of the receive ring.
#[derive(Debug)]
pub struct Packet {
    pub bytes: Vec<u8>,
}

/// A packet accepted into the send ring: exactly the caller's bytes.
#[derive(Debug)]
pub struct SendPacket {
    pub bytes: Vec<u8>,
}

/// What one receive attempt on either backend produced: a driver ring
/// packet, or a raw frame.
#[derive(Debug)]
pub enum PacketVariant {
    Tun(Packet),
    Tap(Vec<u8>),
}

impl PacketVariant {
    /// The carried bytes.
    pub open spec fn spec_bytes(&self) -> Seq<u8> {
        match self {
            PacketVariant::Tun(p) => p.bytes@,
            PacketVariant::Tap(v) => v@,
        }
    }

    /// The carried bytes.
    pub fn bytes(&self) -> (r: &Vec<u8>)
        ensures
            r@ == self.spec_bytes(),
    {
        match self {
            PacketVariant::Tun(p) => &p.bytes,
            PacketVariant::Tap(v) => v,
        }
    }
}

/// The driver-session backend of a device.
pub struct Tun {
    session: Session,
}

impl Tun {
    /// The session state this backend runs on.
    pub closed spec fn spec_session(&self) -> Session {
        self.session
    }

    /// Wrap a started session.
    pub fn from_session(session: Session) -> (r: Tun)
        ensures
            r.spec_session() == session,
    {
        Tun { session }
    }

    /// The session state, for sharing with background work.
    pub fn get_session(&self) -> (r: Session)
        ensures
            r == self.spec_session(),
    {
        self.session
    }

    /// End the session, unblocking pending ring waits.  Idempotent.
    pub fn shutdown(&mut self)
        ensures
            !final(self).spec_session().alive,
            final(self).spec_session().ring_capacity == old(self).spec_session().ring_capacity,
    {
        self.session.shutdown();
    }

    /// A blocking receive returned: copy the packet into the caller's
    /// buffer; a ring fault (the session ended) is a broken connection.
    pub fn read_by_ref(&self, fetched: Result<Vec<u8>, DriverFault>, buf: &mut Vec<u8>) -> (r:
        Result<usize, IoError>)
        ensures
            fetched matches Ok(p) ==> r == spec_deliver_result(p@.len() as int, old(buf)@.len() as int)
                && final(buf)@ == spec_delivered(p@, p@.len() as int, old(buf)@),
            fetched matches Err(f) ==> r == Err::<usize, IoError>(IoError {
                kind: IoErrorKind::ConnectionAborted,
                code: f.os_code,
            }) && final(buf)@ == old(buf)@,
    {
        match fetched {
            Ok(packet) => {
                let n = packet.len();
                copy_packet(&packet, n, buf)
            },
            Err(f) => Err(IoError { kind: IoErrorKind::ConnectionAborted, code: f.os_code }),
        }
    }

    /// A non-blocking receive returned: an empty ring is the retry-later
    /// signal, a fault is a broken connection, a packet is delivered.
    pub fn try_read_by_ref(
        &self,
        fetched: Result<Option<Vec<u8>>, DriverFault>,
        buf: &mut Vec<u8>,
    ) -> (r: Result<usize, IoError>)
        ensures
            fetched matches Ok(Some(p)) ==> r == spec_deliver_result(
                p@.len() as int,
                old(buf)@.len() as int,
            ) && final(buf)@ == spec_delivered(p@, p@.len() as int, old(buf)@),
            fetched matches Ok(None) ==> r == Err::<usize, IoError>(IoError {
                kind: IoErrorKind::WouldBlock,
                code: 0,
            }) && final(buf)@ == old(buf)@,
            fetched matches Err(f) ==> r == Err::<usize, IoError>(IoError {
                kind: IoErrorKind::ConnectionAborted,
                code: f.os_code,
            }) && final(buf)@ == old(buf)@,
    {
        match fetched {
            Ok(Some(packet)) => {
                let n = packet.len();
                copy_packet(&packet, n, buf)
            },
            Ok(None) => Err(IoError { kind: IoErrorKind::WouldBlock, code: 0 }),
            Err(f) => Err(IoError { kind: IoErrorKind::ConnectionAborted, code: f.os_code }),
        }
    }

    /// Ring room was requested for a blocking send.  With room, the packet
    /// posted is exactly the caller's bytes; a fault keeps its OS code.
    pub fn write_by_ref(&self, alloc: Result<(), DriverFault>, buf: &Vec<u8>) -> (r: Result<
        SendPacket,
        IoError,
    >)
        ensures
            alloc is Ok ==> (r matches Ok(p) && p.bytes@ == buf@),
            alloc matches Err(f) ==> r == Err::<SendPacket, IoError>(IoError {
                kind: IoErrorKind::Other,
                code: f.os_code,
            }),
    {
        match alloc {
            Ok(()) => Ok(SendPacket { bytes: buf.clone() }),
            Err(f) => Err(IoError { kind: IoErrorKind::Other, code: f.os_code }),
        }
    }

    /// Ring room was requested for a non-blocking send.  A full ring is
    /// the retry-later signal, never a hard error; any other fault keeps
    /// its OS code.
    pub fn try_write_by_ref(&self, alloc: Result<(), DriverFault>, buf: &Vec<u8>) -> (r: Result<
        SendPacket,
        IoError,
    >)
        ensures
            alloc is Ok ==> (r matches Ok(p) && p.bytes@ == buf@),
            alloc matches Err(f) ==> r == Err::<SendPacket, IoError>(
                if f.os_code == RING_FULL_CODE {
                    IoError { kind: IoErrorKind::WouldBlock, code: 0 }
                } else {
                    IoError { kind: IoErrorKind::Other, code: f.os_code }
                },
            ),
    {
        match alloc {
            Ok(()) => Ok(SendPacket { bytes: buf.clone() }),
            Err(f) => {
                if f.os_code == RING_FULL_CODE {
                    Err(IoError { kind: IoErrorKind::WouldBlock, code: 0 })
                } else {
                    Err(IoError { kind: IoErrorKind::Other, code: f.os_code })
                }
            },
        }
    }

    /// The session backend has no link-layer address to set: the driver
    /// owns the adapter's identity.
    pub fn set_mac_address(&self, _eth_addr: [u8; 6]) -> (r: Result<(), IoError>)
        ensures
            r == Err::<(), IoError>(IoError { kind: IoErrorKind::Unsupported, code: 0 }),
    {
        Err(IoError { kind: IoErrorKind::Unsupported, code: 0 })
    }

    /// Nor one to read.
    pub fn get_mac_address(&self) -> (r: Result<[u8; 6], IoError>)
        ensures
            r == Err::<[u8; 6], IoError>(IoError { kind: IoErrorKind::Unsupported, code: 0 }),
    {
        Err(IoError { kind: IoErrorKind::Unsupported, code: 0 })
    }

    /// A blocking whole-packet receive returned: wrap the packet, or pass
    /// the fault on with its OS code.
    pub fn receive_blocking(&self, fetched: Result<Vec<u8>, DriverFault>) -> (r: Result<
        PacketVariant,
        IoError,
    >)
        ensures
            fetched matches Ok(p) ==> (r matches Ok(v) && v.spec_bytes() == p@),
            fetched matches Err(f) ==> r == Err::<PacketVariant, IoError>(IoError {
                kind: IoErrorKind::Other,
                code: f.os_code,
            }),
    {
        match fetched {
            Ok(bytes) => Ok(PacketVariant::Tun(Packet { bytes })),
            Err(f) => Err(IoError { kind: IoErrorKind::Other, code: f.os_code }),
        }
    }
}

/// The backend a device runs on.  The raw-frame backend's handle I/O is
/// unsafe OS work that cannot live in the verified library, so only the
/// driver-session backend is dispatched here.
pub enum Driver {
    Tun(Tun),
}

impl Driver {
    /// The session backend.
    pub open spec fn spec_tun(&self) -> Tun {
        self->0
    }

    /// A blocking receive returned; deliver it into the caller's buffer.
    pub fn read_by_ref(&self, fetched: Result<Vec<u8>, DriverFault>, buf: &mut Vec<u8>) -> (r:
        Result<usize, IoError>)
        ensures
            fetched matches Ok(p) ==> r == spec_deliver_result(p@.len() as int, old(buf)@.len() as int)
                && final(buf)@ == spec_delivered(p@, p@.len() as int, old(buf)@),
            fetched matches Err(f) ==> r == Err::<usize, IoError>(IoError {
                kind: IoErrorKind::ConnectionAborted,
                code: f.os_code,
            }) && final(buf)@ == old(buf)@,
    {
        match self {
            Driver::Tun(tun) => tun.read_by_ref(fetched, buf),
        }
    }

    /// A non-blocking receive returned; empty ring means retry later.
    pub fn try_read_by_ref(
        &self,
        fetched: Result<Option<Vec<u8>>, DriverFault>,
        buf: &mut Vec<u8>,
    ) -> (r: Result<usize, IoError>)
        ensures
            fetched matches Ok(Some(p)) ==> r == spec_deliver_result(
                p@.len() as int,
                old(buf)@.len() as int,
            ) && final(buf)@ == spec_delivered(p@, p@.len() as int, old(buf)@),
            fetched matches Ok(None) ==> r == Err::<usize, IoError>(IoError {
                kind: IoErrorKind::WouldBlock,
                code: 0,
            }) && final(buf)@ == old(buf)@,
            fetched matches Err(f) ==> r == Err::<usize, IoError>(IoError {
                kind: IoErrorKind::ConnectionAborted,
                code: f.os_code,
            }) && final(buf)@ == old(buf)@,
    {
        match self {
            Driver::Tun(tun) => tun.try_read_by_ref(fetched, buf),
        }
    }

    /// Ring room granted or refused for a blocking send.
    pub fn write_by_ref(&self, alloc: Result<(), DriverFault>, buf: &Vec<u8>) -> (r: Result<
        SendPacket,
        IoError,
    >)
        ensures
            alloc is Ok ==> (r matches Ok(p) && p.bytes@ == buf@),
            alloc matches Err(f) ==> r == Err::<SendPacket, IoError>(IoError {
                kind: IoErrorKind::Other,
                code: f.os_code,
            }),
    {
        match self {
            Driver::Tun(tun) => tun.write_by_ref(alloc, buf),
        }
    }

    /// Ring room granted or refused for a non-blocking send; a full ring
    /// means retry later.
    pub fn try_write_by_ref(&self, alloc: Result<(), DriverFault>, buf: &Vec<u8>) -> (r: Result<
        SendPacket,
        IoError,
    >)
        ensures
            alloc is Ok ==> (r matches Ok(p) && p.bytes@ == buf@),
            alloc matches Err(f) ==> r == Err::<SendPacket, IoError>(
                if f.os_code == RING_FULL_CODE {
                    IoError { kind: IoErrorKind::WouldBlock, code: 0 }
                } else {
                    IoError { kind: IoErrorKind::Other, code: f.os_code }
                },
            ),
    {
        match self {
            Driver::Tun(tun) => tun.try_write_by_ref(alloc, buf),
        }
    }

    /// A blocking whole-packet receive returned.
    pub fn receive_blocking(&self, fetched: Result<Vec<u8>, DriverFault>) -> (r: Result<
        PacketVariant,
        IoError,
    >)
        ensures
            fetched matches Ok(p) ==> (r matches Ok(v) && v.spec_bytes() == p@),
            fetched matches Err(f) ==> r == Err::<PacketVariant, IoError>(IoError {
                kind: IoErrorKind::Other,
                code: f.os_code,
            }),
    {
        match self {
            Driver::Tun(tun) => tun.receive_blocking(fetched),
        }
    }
}

} // verus!
