//! Tests of the vdpa control-plane binding: request codes, payload layout,
//! the variable-length configuration record, vring validation and the
//! failure taxonomy.

use vhost_vdpa::config::build_config_block;
use vhost_vdpa::config::config_block_payload;
use vhost_vdpa::config::CONFIG_HEADER_LEN;
use vhost_vdpa::error::VdpaError;
use vhost_vdpa::ops::check_vring_config;
use vhost_vdpa::ops::get_config_request;
use vhost_vdpa::ops::get_config_result;
use vhost_vdpa::ops::get_device_id_request;
use vhost_vdpa::ops::get_device_id_result;
use vhost_vdpa::ops::get_iova_range_request;
use vhost_vdpa::ops::get_iova_range_result;
use vhost_vdpa::ops::get_status_request;
use vhost_vdpa::ops::get_status_result;
use vhost_vdpa::ops::get_vring_num_request;
use vhost_vdpa::ops::get_vring_num_result;
use vhost_vdpa::ops::set_config_call_request;
use vhost_vdpa::ops::set_config_request;
use vhost_vdpa::ops::set_log_base;
use vhost_vdpa::ops::set_log_fd;
use vhost_vdpa::ops::set_status_request;
use vhost_vdpa::ops::set_vring_enable_request;
use vhost_vdpa::ops::set_vring_num_request;
use vhost_vdpa::ops::VhostVdpaIovaRange;
use vhost_vdpa::request::ioctl_result;
use vhost_vdpa::vring::VhostUserDirtyLogRegion;
use vhost_vdpa::vring::VringConfigData;

fn sample_config(queue_size: u16) -> VringConfigData {
    VringConfigData {
        queue_max_size: 32,
        queue_size,
        flags: 0,
        desc_table_addr: 0x1000,
        used_ring_addr: 0x2000,
        avail_ring_addr: 0x3000,
        log_addr: None,
    }
}

#[test]
fn test_vdpa_kern_is_valid() {
    let mut config = VringConfigData {
        queue_max_size: 32,
        queue_size: 32,
        flags: 0,
        desc_table_addr: 0x1000,
        used_ring_addr: 0x2000,
        avail_ring_addr: 0x3000,
        log_addr: None,
    };
    assert_eq!(config.is_valid(), true);

    config.queue_size = 0;
    assert_eq!(config.is_valid(), false);
    config.queue_size = 31;
    assert_eq!(config.is_valid(), false);
    config.queue_size = 33;
    assert_eq!(config.is_valid(), false);
}

#[test]
fn test_is_valid_accepts_exactly_bounded_powers_of_two() {
    // Every power of two within [1, queue_max_size] is accepted.
    let mut q: u16 = 1;
    loop {
        let mut c = sample_config(q);
        c.queue_max_size = 0x8000;
        assert!(c.is_valid());
        if q == 0x8000 {
            break;
        }
        q *= 2;
    }
    // A power of two above the maximum is rejected.
    let mut c = sample_config(64);
    c.queue_max_size = 32;
    assert!(!c.is_valid());
    // Zero and values that are no power of two are rejected.
    for bad in [0u16, 3, 5, 6, 7, 12, 24, 100, 1023] {
        let mut c = sample_config(bad);
        c.queue_max_size = 0xFFFF;
        assert!(!c.is_valid());
    }
}

#[test]
fn test_is_log_addr_available() {
    let mut config = sample_config(32);
    assert!(!config.is_log_addr_available());
    config.log_addr = Some(0x4000);
    assert!(config.is_log_addr_available());
}

#[test]
fn test_request_code_values() {
    assert_eq!(get_device_id_request().code, 0x8004AF70);
    assert_eq!(get_status_request().code, 0x8001AF71);
    assert_eq!(set_status_request(0).code, 0x4001AF72);
    assert_eq!(get_config_request(0, 0).code, 0x8008AF73);
    assert_eq!(set_config_request(0, &[]).code, 0x4008AF74);
    assert_eq!(set_vring_enable_request(0, true).code, 0x4008AF75);
    assert_eq!(get_vring_num_request().code, 0x8002AF76);
    assert_eq!(set_config_call_request(3).code, 0x4004AF77);
    assert_eq!(get_iova_range_request().code, 0x8010AF78);
    assert_eq!(set_vring_num_request(32, 0, 32).unwrap().code, 0x4008AF03);
}

#[test]
fn test_request_payload_sizes() {
    assert_eq!(get_device_id_request().payload, vec![0u8; 4]);
    assert_eq!(get_status_request().payload, vec![0u8; 1]);
    assert_eq!(get_vring_num_request().payload, vec![0u8; 2]);
    assert_eq!(get_iova_range_request().payload, vec![0u8; 16]);
    assert_eq!(set_status_request(0x42).payload, vec![0x42u8]);
}

#[test]
fn test_config_block_layout() {
    let block = build_config_block(0x01020304, &[0xAA, 0xBB, 0xCC]);
    assert_eq!(block.len(), CONFIG_HEADER_LEN + 3);
    // Offset field, little-endian.
    assert_eq!(&block[0..4], &[0x04, 0x03, 0x02, 0x01]);
    // Length field equals the payload length.
    assert_eq!(&block[4..8], &[0x03, 0x00, 0x00, 0x00]);
    // Trailing region holds the payload bytes unchanged.
    assert_eq!(&block[8..], &[0xAA, 0xBB, 0xCC]);
}

#[test]
fn test_config_block_zero_length() {
    // A zero-length transfer is legal: the block is the bare header, with
    // the offset field still populated before the length field.
    let block = build_config_block(7, &[]);
    assert_eq!(block.len(), CONFIG_HEADER_LEN);
    assert_eq!(&block[0..4], &[0x07, 0x00, 0x00, 0x00]);
    assert_eq!(&block[4..8], &[0x00, 0x00, 0x00, 0x00]);
    let read_back = config_block_payload(&block, 0);
    assert!(read_back.is_empty());
}

#[test]
fn test_config_round_trip_representative_lengths() {
    for n in [0usize, 1, 2, 7, 8, 64, 255, 1024] {
        let data: Vec<u8> = (0..n).map(|i| (i * 7 + 3) as u8).collect();
        let block = build_config_block(16, &data);
        let read_back = config_block_payload(&block, n);
        assert_eq!(read_back, data);
    }
}

#[test]
fn test_get_config_request_and_result() {
    let req = get_config_request(4, 8);
    assert_eq!(req.payload.len(), CONFIG_HEADER_LEN + 8);
    assert_eq!(&req.payload[0..4], &[0x04, 0x00, 0x00, 0x00]);
    assert_eq!(&req.payload[4..8], &[0x08, 0x00, 0x00, 0x00]);
    assert_eq!(&req.payload[8..], &[0u8; 8]);

    // The kernel fills the trailing region and returns zero.
    let mut block = req.payload;
    for (i, b) in block[8..].iter_mut().enumerate() {
        *b = 0x10 + i as u8;
    }
    let data = get_config_result(0, 0, &block, 8).unwrap();
    assert_eq!(data, vec![0x10, 0x11, 0x12, 0x13, 0x14, 0x15, 0x16, 0x17]);

    // A failed request surfaces the OS error untranslated.
    let err = get_config_result(-1, 14, &block, 8).unwrap_err();
    assert_eq!(err, VdpaError::IoctlError(14));
}

#[test]
fn test_scalar_decoders() {
    assert_eq!(
        get_device_id_result(0, 0, &[0x78, 0x56, 0x34, 0x12]),
        Ok(0x12345678)
    );
    assert_eq!(get_status_result(0, 0, &[0x03]), Ok(0x03));
    assert_eq!(get_vring_num_result(0, 0, &[0x00, 0x01]), Ok(256));
    let payload = [
        0x00, 0x10, 0x00, 0x00, 0x00, 0x00, 0x00, 0x00, // first
        0xFF, 0xFF, 0xFF, 0xFF, 0x00, 0x00, 0x00, 0x00, // last
    ];
    assert_eq!(
        get_iova_range_result(0, 0, &payload),
        Ok(VhostVdpaIovaRange {
            first: 0x1000,
            last: 0xFFFF_FFFF,
        })
    );
}

#[test]
fn test_decoders_surface_os_errors() {
    assert_eq!(
        get_device_id_result(-1, 5, &[0; 4]),
        Err(VdpaError::IoctlError(5))
    );
    assert_eq!(
        get_status_result(-1, 22, &[0]),
        Err(VdpaError::IoctlError(22))
    );
    assert_eq!(
        get_vring_num_result(-1, 1, &[0; 2]),
        Err(VdpaError::IoctlError(1))
    );
    assert_eq!(
        get_iova_range_result(-1, 95, &[0; 16]),
        Err(VdpaError::IoctlError(95))
    );
    assert_eq!(ioctl_result(-1, 13, ()), Err(VdpaError::IoctlError(13)));
    assert_eq!(ioctl_result(0, 0, ()), Ok(()));
}

#[test]
fn test_vring_enable_payload() {
    let req = set_vring_enable_request(5, true);
    assert_eq!(req.payload, vec![5, 0, 0, 0, 1, 0, 0, 0]);
    let req = set_vring_enable_request(5, false);
    assert_eq!(req.payload, vec![5, 0, 0, 0, 0, 0, 0, 0]);
}

#[test]
fn test_config_call_payload() {
    let req = set_config_call_request(0x0102);
    assert_eq!(req.payload, vec![0x02, 0x01, 0x00, 0x00]);
}

#[test]
fn test_set_vring_num_bound() {
    // A size above the reported maximum is rejected before any request.
    let err = set_vring_num_request(32, 0, 33).unwrap_err();
    assert_eq!(err, VdpaError::InvalidQueue);
    // Any size at or below the maximum is planned.
    let req = set_vring_num_request(32, 0, 32).unwrap();
    assert_eq!(req.payload, vec![0, 0, 0, 0, 32, 0, 0, 0]);
    let req = set_vring_num_request(32, 3, 1).unwrap();
    assert_eq!(req.payload, vec![3, 0, 0, 0, 1, 0, 0, 0]);
}

#[test]
fn test_check_vring_config_gate() {
    assert_eq!(check_vring_config(&sample_config(32)), Ok(()));
    assert_eq!(
        check_vring_config(&sample_config(31)),
        Err(VdpaError::InvalidQueue)
    );
    assert_eq!(
        check_vring_config(&sample_config(0)),
        Err(VdpaError::InvalidQueue)
    );
}

#[test]
fn test_log_operations_unsupported() {
    // Dirty-page logging fails unconditionally on this device class, with a
    // failure kind distinct from an ordinary kernel-request failure.
    let region = VhostUserDirtyLogRegion {
        mmap_size: 0x1000,
        mmap_offset: 0x10,
        mmap_handle: 1,
    };
    assert_eq!(set_log_base(0x4000, Some(region)), Err(VdpaError::LogAddress));
    assert_eq!(set_log_base(0x4000, None), Err(VdpaError::LogAddress));
    assert_eq!(set_log_fd(7), Err(VdpaError::LogAddress));
    assert_ne!(set_log_fd(7), Err(VdpaError::IoctlError(95)));
}

#[test]
fn test_error_kinds_are_distinct() {
    assert_ne!(VdpaError::VhostOpen(2), VdpaError::IoctlError(2));
    assert_ne!(VdpaError::LogAddress, VdpaError::InvalidQueue);
    assert_ne!(VdpaError::IoctlError(5), VdpaError::IoctlError(6));
}

#[test]
fn test_control_scenario() {
    // The concrete control cycle, with the kernel's side of each request
    // played back as the bytes a freshly reset device would produce.

    // Status reads back as the reset value.
    let req = get_status_request();
    assert_eq!(get_status_result(0, 0, &req.payload), Ok(0));

    // Setting status to 1, then reading it back.
    let req = set_status_request(1);
    assert_eq!(req.payload, vec![1]);
    assert_eq!(ioctl_result(0, 0, ()), Ok(()));
    assert_eq!(get_status_result(0, 0, &req.payload), Ok(1));

    // An eight-byte configuration transfer round trips.
    let req = get_config_request(0, 8);
    let mut block = req.payload;
    for (i, b) in block[8..].iter_mut().enumerate() {
        *b = 0xA0 + i as u8;
    }
    let data = get_config_result(0, 0, &block, 8).unwrap();
    let req = set_config_request(0, &data);
    assert_eq!(config_block_payload(&req.payload, 8), data);

    // The device id is a nonzero word.
    let id: u32 = get_device_id_result(0, 0, &[0x01, 0x00, 0x00, 0x00]).unwrap();
    assert!(id > 0);

    // Enabling then disabling vring zero both plan well-formed requests
    // that the kernel accepts.
    let req = set_vring_enable_request(0, true);
    assert_eq!(req.payload, vec![0, 0, 0, 0, 1, 0, 0, 0]);
    assert_eq!(ioctl_result(0, 0, ()), Ok(()));
    let req = set_vring_enable_request(0, false);
    assert_eq!(req.payload, vec![0, 0, 0, 0, 0, 0, 0, 0]);
    assert_eq!(ioctl_result(0, 0, ()), Ok(()));
}
