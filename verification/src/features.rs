//! Virtio feature bits, feature-word access and the TAP offload mapping.

use vstd::prelude::*;

verus! {

/// Transport feature bit: descriptor indirection.
pub const VIRTIO_F_RING_INDIRECT_DESC: u32 = 28;

/// Transport feature bit: used/avail event index.
pub const VIRTIO_F_RING_EVENT_IDX: u32 = 29;

/// Transport feature bit: virtio 1.0 compliance.
pub const VIRTIO_F_VERSION_1: u32 = 32;

/// Net feature bit: device handles packets with partial checksum.
pub const VIRTIO_NET_F_CSUM: u32 = 0;

/// Net feature bit: driver handles packets with partial checksum.
pub const VIRTIO_NET_F_GUEST_CSUM: u32 = 1;

/// Net feature bit: the device has a MAC address.
pub const VIRTIO_NET_F_MAC: u32 = 5;

/// Net feature bit: driver can receive TSOv4.
pub const VIRTIO_NET_F_GUEST_TSO4: u32 = 7;

/// Net feature bit: driver can receive TSOv6.
pub const VIRTIO_NET_F_GUEST_TSO6: u32 = 8;

/// Net feature bit: driver can receive TSO with ECN.
pub const VIRTIO_NET_F_GUEST_ECN: u32 = 9;

/// Net feature bit: driver can receive UFO.
pub const VIRTIO_NET_F_GUEST_UFO: u32 = 10;

/// Net feature bit: device can receive TSOv4.
pub const VIRTIO_NET_F_HOST_TSO4: u32 = 11;

/// Net feature bit: device can receive TSOv6.
pub const VIRTIO_NET_F_HOST_TSO6: u32 = 12;

/// Net feature bit: device can receive UFO.
pub const VIRTIO_NET_F_HOST_UFO: u32 = 14;

/// Net feature bit: the control virtqueue is available.
pub const VIRTIO_NET_F_CTRL_VQ: u32 = 17;

/// Net feature bit: control-queue RX mode support.
pub const VIRTIO_NET_F_CTRL_RX: u32 = 18;

/// Net feature bit: control-queue VLAN filtering.
pub const VIRTIO_NET_F_CTRL_VLAN: u32 = 19;

/// Net feature bit: extra RX mode control support.
pub const VIRTIO_NET_F_CTRL_RX_EXTRA: u32 = 20;

/// Net feature bit: multiqueue with automatic receive steering.
pub const VIRTIO_NET_F_MQ: u32 = 22;

/// Net feature bit: the MAC address can be set through the control queue.
pub const VIRTIO_NET_F_CTRL_MAC_ADDR: u32 = 23;

/// TAP offload flag: checksum offload.
pub const TUN_F_CSUM: u32 = 1;

/// TAP offload flag: TCPv4 segmentation offload.
pub const TUN_F_TSO4: u32 = 2;

/// TAP offload flag: TCPv6 segmentation offload.
pub const TUN_F_TSO6: u32 = 4;

/// TAP offload flag: TSO with ECN bits.
pub const TUN_F_TSO_ECN: u32 = 8;

/// TAP offload flag: UDP fragmentation offload.
pub const TUN_F_UFO: u32 = 16;

/// Whether bit `fbit` is set in a feature word.
pub open spec fn spec_has_feature(features: u64, fbit: u32) -> bool {
    features & (1u64 << fbit) != 0
}

/// Whether bit `fbit` is set in a feature word.
pub fn virtio_has_feature(features: u64, fbit: u32) -> (r: bool)
    requires
        fbit < 64,
    ensures
        r == spec_has_feature(features, fbit),
{
    features & (1u64 << fbit) != 0
}

/// The TAP offload flags that follow from a driver feature word.
pub open spec fn spec_tap_offload_flags(features: u64) -> u32 {
    let f0 = 0u32;
    let f1 = if spec_has_feature(features, VIRTIO_NET_F_GUEST_CSUM) {
        f0 | TUN_F_CSUM
    } else {
        f0
    };
    let f2 = if spec_has_feature(features, VIRTIO_NET_F_GUEST_TSO4) {
        f1 | TUN_F_TSO4
    } else {
        f1
    };
    let f3 = if spec_has_feature(features, VIRTIO_NET_F_GUEST_TSO6) {
        f2 | TUN_F_TSO6
    } else {
        f2
    };
    let f4 = if spec_has_feature(features, VIRTIO_NET_F_GUEST_ECN) {
        f3 | TUN_F_TSO_ECN
    } else {
        f3
    };
    if spec_has_feature(features, VIRTIO_NET_F_GUEST_UFO) {
        f4 | TUN_F_UFO
    } else {
        f4
    }
}

/// Maps negotiated driver features to the offload flags to program into
/// the TAP device.
pub fn get_tap_offload_flags(features: u64) -> (r: u32)
    ensures
        r == spec_tap_offload_flags(features),
{
    let mut flags: u32 = 0;
    if virtio_has_feature(features, VIRTIO_NET_F_GUEST_CSUM) {
        flags = flags | TUN_F_CSUM;
    }
    if virtio_has_feature(features, VIRTIO_NET_F_GUEST_TSO4) {
        flags = flags | TUN_F_TSO4;
    }
    if virtio_has_feature(features, VIRTIO_NET_F_GUEST_TSO6) {
        flags = flags | TUN_F_TSO6;
    }
    if virtio_has_feature(features, VIRTIO_NET_F_GUEST_ECN) {
        flags = flags | TUN_F_TSO_ECN;
    }
    if virtio_has_feature(features, VIRTIO_NET_F_GUEST_UFO) {
        flags = flags | TUN_F_UFO;
    }
    flags
}

/// One 32-bit page of a 64-bit feature word: page 0 is the low half,
/// page 1 the high half, anything else reads as zero.
pub open spec fn spec_read_u32(value: u64, page: u32) -> u32 {
    if page == 0 {
        (value & 0xffff_ffff) as u32
    } else if page == 1 {
        (value >> 32) as u32
    } else {
        0
    }
}

/// Reads one 32-bit page of a 64-bit feature word.
pub fn read_u32(value: u64, page: u32) -> (r: u32)
    ensures
        r == spec_read_u32(value, page),
{
    if page == 0 {
        proof {
            assert(value & 0xffff_ffff <= 0xffff_ffff) by (bit_vector);
        }
        (value & 0xffff_ffff) as u32
    } else if page == 1 {
        proof {
            assert(value >> 32 <= 0xffff_ffffu64) by (bit_vector);
        }
        (value >> 32) as u32
    } else {
        0
    }
}

} // verus!
