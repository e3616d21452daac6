use tun_core::driver::{
    Driver, DriverFault, Packet, PacketVariant, Session, Tun, RING_FULL_CODE,
};
use tun_core::error::{IoError, IoErrorKind};

fn tun() -> Tun {
    Tun::from_session(Session::start(0x20_0000))
}

#[test]
fn session_shutdown_is_idempotent() {
    let mut session = Session::start(0x20_0000);
    assert!(session.alive);
    session.shutdown();
    assert!(!session.alive);
    assert_eq!(session.ring_capacity, 0x20_0000);
    let once = session;
    session.shutdown();
    assert_eq!(session, once);
}

#[test]
fn read_delivers_ring_packet() {
    let t = tun();
    let mut buf = vec![0u8; 6];
    let r = t.read_by_ref(Ok(vec![0x45, 0, 0, 20]), &mut buf);
    assert_eq!(r, Ok(4));
    assert_eq!(buf, vec![0x45, 0, 0, 20, 0, 0]);
}

#[test]
fn read_fault_is_connection_aborted() {
    let t = tun();
    let mut buf = vec![0u8; 4];
    let r = t.read_by_ref(Err(DriverFault { os_code: 6 }), &mut buf);
    assert_eq!(r, Err(IoError { kind: IoErrorKind::ConnectionAborted, code: 6 }));
    assert_eq!(buf, vec![0, 0, 0, 0]);
}

#[test]
fn try_read_empty_ring_is_would_block() {
    let t = tun();
    let mut buf = vec![0u8; 4];
    assert_eq!(
        t.try_read_by_ref(Ok(None), &mut buf),
        Err(IoError { kind: IoErrorKind::WouldBlock, code: 0 })
    );
    assert_eq!(t.try_read_by_ref(Ok(Some(vec![9, 9])), &mut buf), Ok(2));
    assert_eq!(buf, vec![9, 9, 0, 0]);
    assert_eq!(
        t.try_read_by_ref(Err(DriverFault { os_code: 1 }), &mut buf),
        Err(IoError { kind: IoErrorKind::ConnectionAborted, code: 1 })
    );
}

#[test]
fn write_posts_exactly_the_callers_bytes() {
    let t = tun();
    let data = vec![1u8, 2, 3];
    let posted = t.write_by_ref(Ok(()), &data).unwrap();
    assert_eq!(posted.bytes, data);
    let r = t.write_by_ref(Err(DriverFault { os_code: 8 }), &data);
    assert!(matches!(r, Err(IoError { kind: IoErrorKind::Other, code: 8 })));
}

#[test]
fn try_write_full_ring_is_would_block_never_hard() {
    let t = tun();
    let data = vec![1u8, 2, 3];
    let r = t.try_write_by_ref(Err(DriverFault { os_code: RING_FULL_CODE }), &data);
    assert_eq!(r.unwrap_err(), IoError { kind: IoErrorKind::WouldBlock, code: 0 });
    let other = t.try_write_by_ref(Err(DriverFault { os_code: 5 }), &data);
    assert_eq!(other.unwrap_err(), IoError { kind: IoErrorKind::Other, code: 5 });
    let posted = t.try_write_by_ref(Ok(()), &data).unwrap();
    assert_eq!(posted.bytes, data);
}

#[test]
fn receive_blocking_wraps_whole_packets() {
    let t = tun();
    let got = t.receive_blocking(Ok(vec![4, 5, 6])).unwrap();
    assert_eq!(got.bytes(), &vec![4, 5, 6]);
    let fault = t.receive_blocking(Err(DriverFault { os_code: 2 }));
    assert!(matches!(fault, Err(IoError { kind: IoErrorKind::Other, code: 2 })));
}

#[test]
fn packet_variants_carry_their_bytes() {
    let ring = PacketVariant::Tun(Packet { bytes: vec![1, 2] });
    assert_eq!(ring.bytes(), &vec![1, 2]);
    let frame = PacketVariant::Tap(vec![3, 4, 5]);
    assert_eq!(frame.bytes(), &vec![3, 4, 5]);
}

#[test]
fn driver_dispatch_matches_backend() {
    let driver = Driver::Tun(tun());
    let mut buf = vec![0u8; 2];
    assert_eq!(driver.read_by_ref(Ok(vec![7, 7]), &mut buf), Ok(2));
    assert_eq!(buf, vec![7, 7]);
    assert_eq!(
        driver.try_read_by_ref(Ok(None), &mut buf),
        Err(IoError { kind: IoErrorKind::WouldBlock, code: 0 })
    );
    let posted = driver.write_by_ref(Ok(()), &vec![9u8]).unwrap();
    assert_eq!(posted.bytes, vec![9]);
    let r = driver.try_write_by_ref(Err(DriverFault { os_code: RING_FULL_CODE }), &vec![9u8]);
    assert_eq!(r.unwrap_err().kind, IoErrorKind::WouldBlock);
    let got = driver.receive_blocking(Ok(vec![1])).unwrap();
    assert_eq!(got.bytes(), &vec![1]);
}

#[test]
fn loopback_round_trip_is_byte_identical() {
    // A packet sent on one end and received on the other comes back with
    // identical content and length.
    let sender = tun();
    let receiver = tun();
    let packet = vec![0x45u8, 0x00, 0x00, 0x1C, 0xAB, 0xCD];
    let posted = sender.write_by_ref(Ok(()), &packet).unwrap();
    let mut out = vec![0u8; 6];
    let n = receiver.read_by_ref(Ok(posted.bytes), &mut out).unwrap();
    assert_eq!(n, packet.len());
    assert_eq!(out, packet);
}

#[test]
fn tun_session_state_is_shared_value() {
    let mut t = tun();
    let s = t.get_session();
    assert!(s.alive);
    t.shutdown();
    assert!(!t.get_session().alive);
}

#[test]
fn session_backend_has_no_settable_hardware_address() {
    let t = tun();
    assert_eq!(
        t.set_mac_address([1, 2, 3, 4, 5, 6]),
        Err(IoError { kind: IoErrorKind::Unsupported, code: 0 })
    );
    assert_eq!(
        t.get_mac_address(),
        Err(IoError { kind: IoErrorKind::Unsupported, code: 0 })
    );
}
