//! Control-request codes of the vhost-vdpa kernel interface, and the
//! translation of a raw kernel return status into a typed result.
//!
//! A request code is a 32-bit word (carried here as `u64`, the width the
//! kernel call takes) that packs four fields: the transfer direction, the
//! byte size of the payload, the type group shared by all vhost requests,
//! and the request number.  The codes are fixed by the kernel UAPI and are
//! not negotiated at runtime.

use vstd::prelude::*;

use crate::error::VdpaError;

verus! {

/// Direction field: the kernel reads the payload from the caller.
pub const IOC_WRITE: u64 = 1;

/// Direction field: the kernel fills the payload for the caller.
pub const IOC_READ: u64 = 2;

/// Bit offset of the request-number field.
pub const IOC_NRSHIFT: u64 = 0;

/// Bit offset of the type-group field.
pub const IOC_TYPESHIFT: u64 = 8;

/// Bit offset of the payload-size field.
pub const IOC_SIZESHIFT: u64 = 16;

/// Bit offset of the direction field.
pub const IOC_DIRSHIFT: u64 = 30;

/// Type group of every vhost request in the kernel UAPI.
pub const VHOST_VIRTIO: u64 = 0xAF;

/// Reads the 32-bit device-id; payload is one `u32`.
pub const VHOST_VDPA_GET_DEVICE_ID: u64 = (IOC_READ << IOC_DIRSHIFT) | (4u64 << IOC_SIZESHIFT)
    | (VHOST_VIRTIO << IOC_TYPESHIFT) | (0x70u64 << IOC_NRSHIFT);

/// Reads the device-status byte; payload is one `u8`.
pub const VHOST_VDPA_GET_STATUS: u64 = (IOC_READ << IOC_DIRSHIFT) | (1u64 << IOC_SIZESHIFT)
    | (VHOST_VIRTIO << IOC_TYPESHIFT) | (0x71u64 << IOC_NRSHIFT);

/// Writes the device-status byte; payload is one `u8`.
pub const VHOST_VDPA_SET_STATUS: u64 = (IOC_WRITE << IOC_DIRSHIFT) | (1u64 << IOC_SIZESHIFT)
    | (VHOST_VIRTIO << IOC_TYPESHIFT) | (0x72u64 << IOC_NRSHIFT);

/// Reads configuration space; payload is the variable-length record whose
/// fixed header is 8 bytes long.
pub const VHOST_VDPA_GET_CONFIG: u64 = (IOC_READ << IOC_DIRSHIFT) | (8u64 << IOC_SIZESHIFT)
    | (VHOST_VIRTIO << IOC_TYPESHIFT) | (0x73u64 << IOC_NRSHIFT);

/// Writes configuration space; payload as for the read direction.
pub const VHOST_VDPA_SET_CONFIG: u64 = (IOC_WRITE << IOC_DIRSHIFT) | (8u64 << IOC_SIZESHIFT)
    | (VHOST_VIRTIO << IOC_TYPESHIFT) | (0x74u64 << IOC_NRSHIFT);

/// Enables or disables one vring; payload is a vring-state pair of two `u32`s.
pub const VHOST_VDPA_SET_VRING_ENABLE: u64 = (IOC_WRITE << IOC_DIRSHIFT) | (8u64 << IOC_SIZESHIFT)
    | (VHOST_VIRTIO << IOC_TYPESHIFT) | (0x75u64 << IOC_NRSHIFT);

/// Reads the maximum vring size the device supports; payload is one `u16`.
pub const VHOST_VDPA_GET_VRING_NUM: u64 = (IOC_READ << IOC_DIRSHIFT) | (2u64 << IOC_SIZESHIFT)
    | (VHOST_VIRTIO << IOC_TYPESHIFT) | (0x76u64 << IOC_NRSHIFT);

/// Binds an eventfd to configuration-change notifications; payload is one
/// C `int` descriptor number.
pub const VHOST_VDPA_SET_CONFIG_CALL: u64 = (IOC_WRITE << IOC_DIRSHIFT) | (4u64 << IOC_SIZESHIFT)
    | (VHOST_VIRTIO << IOC_TYPESHIFT) | (0x77u64 << IOC_NRSHIFT);

/// Reads the usable IOVA interval; payload is a pair of `u64`s.
pub const VHOST_VDPA_GET_IOVA_RANGE: u64 = (IOC_READ << IOC_DIRSHIFT) | (16u64 << IOC_SIZESHIFT)
    | (VHOST_VIRTIO << IOC_TYPESHIFT) | (0x78u64 << IOC_NRSHIFT);

/// Sets the size of one vring; payload is a vring-state pair of two `u32`s.
/// Part of the shared vhost surface, issued here only after the bound check
/// against the device's reported maximum.
pub const VHOST_SET_VRING_NUM: u64 = (IOC_WRITE << IOC_DIRSHIFT) | (8u64 << IOC_SIZESHIFT)
    | (VHOST_VIRTIO << IOC_TYPESHIFT) | (0x03u64 << IOC_NRSHIFT);

/// The request codes above, evaluated to the literal words the kernel
/// compares against.
pub proof fn lemma_request_code_values()
    ensures
        VHOST_VDPA_GET_DEVICE_ID == 0x8004AF70u64,
        VHOST_VDPA_GET_STATUS == 0x8001AF71u64,
        VHOST_VDPA_SET_STATUS == 0x4001AF72u64,
        VHOST_VDPA_GET_CONFIG == 0x8008AF73u64,
        VHOST_VDPA_SET_CONFIG == 0x4008AF74u64,
        VHOST_VDPA_SET_VRING_ENABLE == 0x4008AF75u64,
        VHOST_VDPA_GET_VRING_NUM == 0x8002AF76u64,
        VHOST_VDPA_SET_CONFIG_CALL == 0x4004AF77u64,
        VHOST_VDPA_GET_IOVA_RANGE == 0x8010AF78u64,
        VHOST_SET_VRING_NUM == 0x4008AF03u64,
{
    assert((2u64 << 30u64) | (4u64 << 16u64) | (0xAFu64 << 8u64) | (0x70u64 << 0u64)
        == 0x8004AF70u64) by (bit_vector);
    assert((2u64 << 30u64) | (1u64 << 16u64) | (0xAFu64 << 8u64) | (0x71u64 << 0u64)
        == 0x8001AF71u64) by (bit_vector);
    assert((1u64 << 30u64) | (1u64 << 16u64) | (0xAFu64 << 8u64) | (0x72u64 << 0u64)
        == 0x4001AF72u64) by (bit_vector);
    assert((2u64 << 30u64) | (8u64 << 16u64) | (0xAFu64 << 8u64) | (0x73u64 << 0u64)
        == 0x8008AF73u64) by (bit_vector);
    assert((1u64 << 30u64) | (8u64 << 16u64) | (0xAFu64 << 8u64) | (0x74u64 << 0u64)
        == 0x4008AF74u64) by (bit_vector);
    assert((1u64 << 30u64) | (8u64 << 16u64) | (0xAFu64 << 8u64) | (0x75u64 << 0u64)
        == 0x4008AF75u64) by (bit_vector);
    assert((2u64 << 30u64) | (2u64 << 16u64) | (0xAFu64 << 8u64) | (0x76u64 << 0u64)
        == 0x8002AF76u64) by (bit_vector);
    assert((1u64 << 30u64) | (4u64 << 16u64) | (0xAFu64 << 8u64) | (0x77u64 << 0u64)
        == 0x4004AF77u64) by (bit_vector);
    assert((2u64 << 30u64) | (16u64 << 16u64) | (0xAFu64 << 8u64) | (0x78u64 << 0u64)
        == 0x8010AF78u64) by (bit_vector);
    assert((1u64 << 30u64) | (8u64 << 16u64) | (0xAFu64 << 8u64) | (0x03u64 << 0u64)
        == 0x4008AF03u64) by (bit_vector);
}

/// One planned kernel request: the packed request code and the payload bytes
/// the kernel reads or fills in place.
#[derive(Debug)]
pub struct IoctlRequest {
    /// Packed request code, one of the constants above.
    pub code: u64,
    /// Payload laid out exactly as the kernel structure for the code.
    pub payload: Vec<u8>,
}

/// Translates the raw return status of a kernel request: a negative status
/// is a failure carrying the OS error number, anything else hands back the
/// prepared success value unchanged.
pub fn ioctl_result<T>(ret: i32, errno: i32, value: T) -> (r: Result<T, VdpaError>)
    ensures
        ret >= 0 ==> r == Ok::<T, VdpaError>(value),
        ret < 0 ==> r == Err::<T, VdpaError>(VdpaError::IoctlError(errno)),
{
    if ret < 0 {
        Err(VdpaError::IoctlError(errno))
    } else {
        Ok(value)
    }
}

} // verus!
