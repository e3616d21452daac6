use tun_core::builder::Layer;
use tun_core::device::{
    apply_enabled_flags, mtu_from_os, validate_creation_request, validate_ifname, DeviceImpl,
    IFF_RUNNING, IFF_UP,
};
use tun_core::error::ConfigError;
use tun_core::fd::{read_after_wait, Fd, ReadPlan, Tun, WaitOutcome};
use tun_core::error::{IoError, IoErrorKind};

#[test]
fn interface_name_validation() {
    assert_eq!(validate_ifname("tun0"), Ok(()));
    assert_eq!(validate_ifname(""), Ok(()));
    assert_eq!(validate_ifname("fifteen-chars-x"), Ok(()));
    assert_eq!(validate_ifname("sixteen-chars-xy"), Err(ConfigError::NameTooLong));
    assert_eq!(validate_ifname("way-too-long-interface-name"), Err(ConfigError::NameTooLong));
    assert_eq!(validate_ifname("tun\0zero"), Err(ConfigError::InvalidConfig));
}

#[test]
fn enabled_flag_word_edits() {
    assert_eq!(apply_enabled_flags(0, true), IFF_UP | IFF_RUNNING);
    assert_eq!(apply_enabled_flags(0x1000, true), 0x1000 | IFF_UP | IFF_RUNNING);
    // Going down clears only the up flag; running stays as the OS left it.
    assert_eq!(apply_enabled_flags(IFF_UP | IFF_RUNNING, false), IFF_RUNNING);
    assert_eq!(apply_enabled_flags(IFF_UP, false), 0);
}

#[test]
fn mtu_from_os_bounds() {
    assert_eq!(mtu_from_os(1500), Ok(1500));
    assert_eq!(mtu_from_os(0), Ok(0));
    assert_eq!(mtu_from_os(65535), Ok(65535));
    assert_eq!(mtu_from_os(65536), Err(ConfigError::InvalidConfig));
    assert_eq!(mtu_from_os(-1), Err(ConfigError::InvalidConfig));
}

#[test]
fn descriptor_rejects_negative_numbers() {
    assert_eq!(Fd::new(-1, true), Err(ConfigError::InvalidDescriptor));
    let fd = Fd::new(3, true).unwrap();
    assert_eq!(fd.fd, 3);
    assert!(!fd.nonblocking);
    assert!(!fd.shutdown);
}

#[test]
fn read_path_routes_by_descriptor_state() {
    let mut fd = Fd::new(3, true).unwrap();
    assert_eq!(fd.plan_read(), ReadPlan::WaitThenRead);
    fd.set_nonblock();
    assert_eq!(fd.plan_read(), ReadPlan::Direct);
    fd.shutdown();
    assert_eq!(fd.plan_read(), ReadPlan::Aborted);
    // Idempotent: a second shutdown leaves the same state.
    let after_once = fd;
    fd.shutdown();
    assert_eq!(fd, after_once);
}

#[test]
fn shutdown_unblocks_waiting_read() {
    // Whatever the wait reported, a shutdown observed on wakeup turns the
    // blocked read into a broken-connection error.
    let aborted = IoError { kind: IoErrorKind::ConnectionAborted, code: 0 };
    assert_eq!(read_after_wait(true, WaitOutcome::Ready), Err(aborted));
    assert_eq!(read_after_wait(true, WaitOutcome::TimedOut), Err(aborted));
    assert_eq!(read_after_wait(true, WaitOutcome::Failed(4)), Err(aborted));
    // Without a shutdown the wait outcome decides.
    assert_eq!(read_after_wait(false, WaitOutcome::Ready), Ok(()));
    assert_eq!(
        read_after_wait(false, WaitOutcome::TimedOut),
        Err(IoError { kind: IoErrorKind::TimedOut, code: 0 })
    );
    assert_eq!(
        read_after_wait(false, WaitOutcome::Failed(9)),
        Err(IoError { kind: IoErrorKind::Other, code: 9 })
    );
}

#[test]
fn device_packet_info_switch() {
    let fd = Fd::new(5, true).unwrap();
    let tun = Tun::new(fd, true);
    let mut device = DeviceImpl::from_tun(tun);
    assert!(device.packet_information());
    assert!(!device.ignore_packet_info());
    device.set_ignore_packet_info(true);
    assert!(device.ignore_packet_info());
    device.set_ignore_packet_info(false);
    assert!(!device.ignore_packet_info());
}

#[test]
fn creation_request_validation() {
    assert_eq!(validate_creation_request(Layer::L3, 1), Ok(()));
    assert_eq!(validate_creation_request(Layer::L2, 1), Err(ConfigError::UnsupportedLayer));
    assert_eq!(validate_creation_request(Layer::L3, 2), Err(ConfigError::InvalidQueuesNumber));
    assert_eq!(validate_creation_request(Layer::L3, 0), Err(ConfigError::InvalidQueuesNumber));
}
