//! The vdpa control operations, as verified request planners and result
//! decoders.
//!
//! Every control operation is one synchronous kernel request with no
//! partial-success path.  The planner of an operation lays the request out
//! byte-exactly — the packed request code and the payload the kernel reads
//! or fills — and the decoder turns the kernel's raw return status and the
//! payload it left behind into the operation's typed result.  An unverified
//! shell owns the device descriptor, performs the raw call between the two,
//! and hands its outcome back unchanged.
//!
//! Operations the device class does not implement (dirty-page logging) are
//! rejected here deterministically, and a vring bound or configuration that
//! fails validation is refused before any request is planned.

use vstd::bytes::spec_u16_from_le_bytes;
use vstd::bytes::spec_u32_from_le_bytes;
use vstd::bytes::spec_u32_to_le_bytes;
use vstd::bytes::spec_u64_from_le_bytes;
use vstd::bytes::u16_from_le_bytes;
use vstd::bytes::u32_from_le_bytes;
use vstd::bytes::u32_to_le_bytes;
use vstd::bytes::u64_from_le_bytes;
use vstd::prelude::*;
use vstd::slice::slice_subrange;

use crate::config::build_config_block;
use crate::config::config_block_payload;
use crate::config::new_config_block;
use crate::config::spec_config_block;
use crate::config::spec_config_payload;
use crate::config::zero_bytes;
use crate::config::CONFIG_HEADER_LEN;
use crate::error::VdpaError;
use crate::request::ioctl_result;
use crate::request::IoctlRequest;
use crate::request::VHOST_SET_VRING_NUM;
use crate::request::VHOST_VDPA_GET_CONFIG;
use crate::request::VHOST_VDPA_GET_DEVICE_ID;
use crate::request::VHOST_VDPA_GET_IOVA_RANGE;
use crate::request::VHOST_VDPA_GET_STATUS;
use crate::request::VHOST_VDPA_GET_VRING_NUM;
use crate::request::VHOST_VDPA_SET_CONFIG;
use crate::request::VHOST_VDPA_SET_CONFIG_CALL;
use crate::request::VHOST_VDPA_SET_STATUS;
use crate::request::VHOST_VDPA_SET_VRING_ENABLE;
use crate::vring::spec_vring_config_valid;
use crate::vring::VhostUserDirtyLogRegion;
use crate::vring::VringConfigData;

verus! {

/// The usable I/O virtual address space for DMA mappings, as an inclusive
/// interval.
#[derive(Clone, Copy, Debug, PartialEq, Eq, Structural)]
pub struct VhostVdpaIovaRange {
    /// First usable I/O virtual address.
    pub first: u64,
    /// Last usable I/O virtual address, inclusive.
    pub last: u64,
}

/// Plans the device-id read: a four-byte payload the kernel fills.
pub fn get_device_id_request() -> (r: IoctlRequest)
    ensures
        r.code == VHOST_VDPA_GET_DEVICE_ID,
        r.payload@ == zero_bytes(4),
{
    let payload: Vec<u8> = vec![0u8; 4];
    proof {
        assert(payload@ =~= zero_bytes(4));
    }
    IoctlRequest { code: VHOST_VDPA_GET_DEVICE_ID, payload }
}

/// Decodes the device-id read: on success the little-endian word the kernel
/// left in the payload, on failure the OS error, untranslated.
pub fn get_device_id_result(ret: i32, errno: i32, payload: &[u8]) -> (r: Result<u32, VdpaError>)
    requires
        payload@.len() == 4,
    ensures
        ret >= 0 ==> r == Ok::<u32, VdpaError>(spec_u32_from_le_bytes(payload@)),
        ret < 0 ==> r == Err::<u32, VdpaError>(VdpaError::IoctlError(errno)),
{
    ioctl_result(ret, errno, u32_from_le_bytes(payload))
}

/// Plans the status read: a one-byte payload the kernel fills.
pub fn get_status_request() -> (r: IoctlRequest)
    ensures
        r.code == VHOST_VDPA_GET_STATUS,
        r.payload@ == zero_bytes(1),
{
    let payload: Vec<u8> = vec![0u8; 1];
    proof {
        assert(payload@ =~= zero_bytes(1));
    }
    IoctlRequest { code: VHOST_VDPA_GET_STATUS, payload }
}

/// Decodes the status read: on success the byte the kernel left in the
/// payload.
pub fn get_status_result(ret: i32, errno: i32, payload: &[u8]) -> (r: Result<u8, VdpaError>)
    requires
        payload@.len() == 1,
    ensures
        ret >= 0 ==> r == Ok::<u8, VdpaError>(payload@[0]),
        ret < 0 ==> r == Err::<u8, VdpaError>(VdpaError::IoctlError(errno)),
{
    let byte: u8 = *vstd::slice::slice_index_get(payload, 0);
    ioctl_result(ret, errno, byte)
}

/// Plans the status write: the payload is the one status byte.
pub fn set_status_request(status: u8) -> (r: IoctlRequest)
    ensures
        r.code == VHOST_VDPA_SET_STATUS,
        r.payload@ == seq![status],
{
    let mut payload: Vec<u8> = Vec::new();
    payload.push(status);
    proof {
        assert(payload@ =~= seq![status]);
    }
    IoctlRequest { code: VHOST_VDPA_SET_STATUS, payload }
}

/// Plans the vring-enable write: the zero-based queue index and the enable
/// flag as zero or one, each a little-endian `u32`.
pub fn set_vring_enable_request(queue_index: usize, enabled: bool) -> (r: IoctlRequest)
    requires
        queue_index as int <= u32::MAX as int,
    ensures
        r.code == VHOST_VDPA_SET_VRING_ENABLE,
        r.payload@ == spec_u32_to_le_bytes(queue_index as u32) + spec_u32_to_le_bytes(
            if enabled {
                1u32
            } else {
                0u32
            },
        ),
{
    let num: u32 = if enabled {
        1
    } else {
        0
    };
    let mut payload = u32_to_le_bytes(queue_index as u32);
    let mut num_field = u32_to_le_bytes(num);
    payload.append(&mut num_field);
    IoctlRequest { code: VHOST_VDPA_SET_VRING_ENABLE, payload }
}

/// Plans the read of the maximum vring size: a two-byte payload the kernel
/// fills.
pub fn get_vring_num_request() -> (r: IoctlRequest)
    ensures
        r.code == VHOST_VDPA_GET_VRING_NUM,
        r.payload@ == zero_bytes(2),
{
    let payload: Vec<u8> = vec![0u8; 2];
    proof {
        assert(payload@ =~= zero_bytes(2));
    }
    IoctlRequest { code: VHOST_VDPA_GET_VRING_NUM, payload }
}

/// Decodes the maximum-vring-size read: on success the little-endian
/// halfword the kernel left in the payload.
pub fn get_vring_num_result(ret: i32, errno: i32, payload: &[u8]) -> (r: Result<u16, VdpaError>)
    requires
        payload@.len() == 2,
    ensures
        ret >= 0 ==> r == Ok::<u16, VdpaError>(spec_u16_from_le_bytes(payload@)),
        ret < 0 ==> r == Err::<u16, VdpaError>(VdpaError::IoctlError(errno)),
{
    ioctl_result(ret, errno, u16_from_le_bytes(payload))
}

/// Plans the binding of an eventfd to configuration-change notifications:
/// the payload is the descriptor number as a C `int`.  The caller owns the
/// descriptor; it is passed by value and never closed here.
pub fn set_config_call_request(fd: i32) -> (r: IoctlRequest)
    requires
        fd >= 0,
    ensures
        r.code == VHOST_VDPA_SET_CONFIG_CALL,
        r.payload@ == spec_u32_to_le_bytes(fd as u32),
{
    let payload = u32_to_le_bytes(fd as u32);
    IoctlRequest { code: VHOST_VDPA_SET_CONFIG_CALL, payload }
}

/// Plans the IOVA-range read: a sixteen-byte payload the kernel fills with
/// the inclusive interval bounds.
pub fn get_iova_range_request() -> (r: IoctlRequest)
    ensures
        r.code == VHOST_VDPA_GET_IOVA_RANGE,
        r.payload@ == zero_bytes(16),
{
    let payload: Vec<u8> = vec![0u8; 16];
    proof {
        assert(payload@ =~= zero_bytes(16));
    }
    IoctlRequest { code: VHOST_VDPA_GET_IOVA_RANGE, payload }
}

/// Decodes the IOVA-range read: two little-endian `u64`s, first and last
/// usable address.
pub fn get_iova_range_result(ret: i32, errno: i32, payload: &[u8]) -> (r: Result<
    VhostVdpaIovaRange,
    VdpaError,
>)
    requires
        payload@.len() == 16,
    ensures
        ret >= 0 ==> r == Ok::<VhostVdpaIovaRange, VdpaError>(
            VhostVdpaIovaRange {
                first: spec_u64_from_le_bytes(payload@.subrange(0, 8)),
                last: spec_u64_from_le_bytes(payload@.subrange(8, 16)),
            },
        ),
        ret < 0 ==> r == Err::<VhostVdpaIovaRange, VdpaError>(VdpaError::IoctlError(errno)),
{
    let first: u64 = u64_from_le_bytes(slice_subrange(payload, 0, 8));
    let last: u64 = u64_from_le_bytes(slice_subrange(payload, 8, 16));
    ioctl_result(ret, errno, VhostVdpaIovaRange { first, last })
}

/// Plans the configuration-space read at byte `offset` for `len` bytes: the
/// record's header is populated before its trailing region, which is left
/// zeroed for the kernel.  A zero `len` is legal.
pub fn get_config_request(offset: u32, len: u32) -> (r: IoctlRequest)
    requires
        CONFIG_HEADER_LEN + len <= usize::MAX,
    ensures
        r.code == VHOST_VDPA_GET_CONFIG,
        r.payload@ == spec_config_block(offset, zero_bytes(len as nat)),
{
    let payload = new_config_block(offset, len);
    IoctlRequest { code: VHOST_VDPA_GET_CONFIG, payload }
}

/// Decodes the configuration-space read: on success exactly the `len` bytes
/// the kernel left in the record's trailing region.
pub fn get_config_result(ret: i32, errno: i32, block: &[u8], len: usize) -> (r: Result<
    Vec<u8>,
    VdpaError,
>)
    requires
        block@.len() >= CONFIG_HEADER_LEN + len,
    ensures
        ret >= 0 ==> (r matches Ok(data) && data@ == spec_config_payload(block@, len as nat)),
        ret < 0 ==> r == Err::<Vec<u8>, VdpaError>(VdpaError::IoctlError(errno)),
{
    ioctl_result(ret, errno, config_block_payload(block, len))
}

/// Plans the configuration-space write at byte `offset`: the record's
/// header is populated, then the caller's bytes are copied into the
/// trailing region before the request is issued.
pub fn set_config_request(offset: u32, data: &[u8]) -> (r: IoctlRequest)
    requires
        data@.len() <= u32::MAX,
    ensures
        r.code == VHOST_VDPA_SET_CONFIG,
        r.payload@ == spec_config_block(offset, data@),
{
    let payload = build_config_block(offset, data);
    IoctlRequest { code: VHOST_VDPA_SET_CONFIG, payload }
}

/// Plans the vring-size write, gated on the maximum the device reported:
/// a size above `queue_max` is refused before any kernel request, with a
/// validation failure; a size at or below it is planned as the queue index
/// and the size, each a little-endian `u32`.
pub fn set_vring_num_request(queue_max: u16, queue_index: u32, num: u16) -> (r: Result<
    IoctlRequest,
    VdpaError,
>)
    ensures
        num > queue_max ==> r == Err::<IoctlRequest, VdpaError>(VdpaError::InvalidQueue),
        num <= queue_max ==> (r matches Ok(req) && req.code == VHOST_SET_VRING_NUM
            && req.payload@ == spec_u32_to_le_bytes(queue_index) + spec_u32_to_le_bytes(
            num as u32,
        )),
{
    if num > queue_max {
        return Err(VdpaError::InvalidQueue);
    }
    let mut payload = u32_to_le_bytes(queue_index);
    let mut num_field = u32_to_le_bytes(num as u32);
    payload.append(&mut num_field);
    Ok(IoctlRequest { code: VHOST_SET_VRING_NUM, payload })
}

/// The validation gate of the vring setup path: accepts a candidate
/// configuration exactly when it passes the structural predicate, and
/// refuses it with a validation failure — before any kernel request —
/// otherwise.
pub fn check_vring_config(config: &VringConfigData) -> (r: Result<(), VdpaError>)
    ensures
        r == Ok::<(), VdpaError>(()) <==> spec_vring_config_valid(*config),
        !spec_vring_config_valid(*config) ==> r == Err::<(), VdpaError>(VdpaError::InvalidQueue),
{
    if config.is_valid() {
        Ok(())
    } else {
        Err(VdpaError::InvalidQueue)
    }
}

/// Binding of a dirty-page log base: not implemented by this device class,
/// so the operation fails deterministically for every input, before any
/// kernel request.
pub fn set_log_base(base: u64, region: Option<VhostUserDirtyLogRegion>) -> (r: Result<
    (),
    VdpaError,
>)
    ensures
        r == Err::<(), VdpaError>(VdpaError::LogAddress),
{
    let _ = base;
    let _ = region;
    Err(VdpaError::LogAddress)
}

/// Binding of a dirty-page log descriptor: not implemented by this device
/// class, so the operation fails deterministically for every input, before
/// any kernel request.
pub fn set_log_fd(fd: i32) -> (r: Result<(), VdpaError>)
    ensures
        r == Err::<(), VdpaError>(VdpaError::LogAddress),
{
    let _ = fd;
    Err(VdpaError::LogAddress)
}

} // verus!
