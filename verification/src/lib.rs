//! Control-plane binding for kernel vhost-vdpa devices.
//!
//! A vdpa device implements the virtio ring protocol in the kernel (or in
//! hardware) while the virtual-machine monitor keeps authority over feature
//! negotiation, memory mapping and vring lifecycle.  The monitor drives the
//! device through a small set of control operations (status, device id,
//! configuration space, per-vring setup, notification wiring, IOVA range
//! discovery), each of which is one synchronous kernel request on a
//! character-device descriptor.
//!
//! This crate holds the verified part of that binding: the request codes and
//! their bit layout, the byte-exact marshalling of every request payload
//! (including the variable-length configuration record), the structural
//! validation that must pass before a vring-configuring request may be
//! issued, and the translation of kernel return codes into the typed error
//! taxonomy.  The raw `open` and `ioctl` system calls themselves are left to
//! an unverified shell that feeds their outcomes back into the decoders
//! defined here.

pub mod config;
pub mod error;
pub mod ops;
pub mod request;
pub mod vring;
