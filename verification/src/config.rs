//! The virtio-net config space and the migrated device state, with their
//! little-endian byte layouts.

use vstd::bytes::{
    lemma_auto_spec_u16_to_from_le_bytes, lemma_auto_spec_u32_to_from_le_bytes,
    lemma_auto_spec_u64_to_from_le_bytes, spec_u16_from_le_bytes, spec_u16_to_le_bytes,
    spec_u32_from_le_bytes, spec_u32_to_le_bytes, spec_u64_from_le_bytes, spec_u64_to_le_bytes,
    u16_from_le_bytes, u16_to_le_bytes, u32_from_le_bytes, u32_to_le_bytes, u64_from_le_bytes,
    u64_to_le_bytes,
};
use vstd::prelude::*;
use vstd::slice::slice_subrange;

verus! {

/// Length of a MAC address in bytes.
pub const MAC_ADDR_LEN: usize = 6;

/// Length of the virtio-net config space in bytes:
/// `mac[6] | status u16 | max_virtqueue_pairs u16 | mtu u16 | speed u32 |
/// duplex u8`, packed little-endian.
pub const CONFIG_SPACE_SIZE: usize = 17;

/// Length of the migrated device-state blob in bytes:
/// `device_features u64 | driver_features u64 | config space | broken u8`.
pub const NET_STATE_SIZE: usize = 34;

/// Configuration space of a virtio-net device.
#[derive(Copy, Clone, Debug, PartialEq, Eq)]
pub struct VirtioNetConfig {
    /// MAC address.
    pub mac: [u8; 6],
    /// Device status.
    pub status: u16,
    /// Maximum number of each of transmit and receive queues.
    pub max_virtqueue_pairs: u16,
    /// Maximum transmission unit.
    pub mtu: u16,
    /// Link speed, in units of 1Mb.
    pub speed: u32,
    /// 0x00: half duplex; 0x01: full duplex.
    pub duplex: u8,
}

/// The packed little-endian byte image of the config space.
pub open spec fn config_bytes(c: VirtioNetConfig) -> Seq<u8> {
    c.mac@ + spec_u16_to_le_bytes(c.status) + spec_u16_to_le_bytes(c.max_virtqueue_pairs)
        + spec_u16_to_le_bytes(c.mtu) + spec_u32_to_le_bytes(c.speed) + seq![c.duplex]
}

/// The config space decoded from a 17-byte image.
pub open spec fn config_of_bytes(b: Seq<u8>) -> VirtioNetConfig {
    VirtioNetConfig {
        mac: [b[0], b[1], b[2], b[3], b[4], b[5]],
        status: spec_u16_from_le_bytes(b.subrange(6, 8)),
        max_virtqueue_pairs: spec_u16_from_le_bytes(b.subrange(8, 10)),
        mtu: spec_u16_from_le_bytes(b.subrange(10, 12)),
        speed: spec_u32_from_le_bytes(b.subrange(12, 16)),
        duplex: b[16],
    }
}

impl VirtioNetConfig {
    /// Serializes the config space into its 17-byte little-endian image.
    pub fn to_bytes(&self) -> (r: Vec<u8>)
        ensures
            r@ == config_bytes(*self),
            r@.len() == CONFIG_SPACE_SIZE,
    {
        proof {
            lemma_auto_spec_u16_to_from_le_bytes();
            lemma_auto_spec_u32_to_from_le_bytes();
        }
        let mut out: Vec<u8> = Vec::new();
        let mut i: usize = 0;
        while i < MAC_ADDR_LEN
            invariant
                i <= 6,
                out@ == self.mac@.subrange(0, i as int),
            decreases 6 - i as int,
        {
            out.push(self.mac[i]);
            i += 1;
        }
        proof {
            assert(self.mac@.subrange(0, 6) =~= self.mac@);
        }
        let mut status_b = u16_to_le_bytes(self.status);
        out.append(&mut status_b);
        let mut mvp_b = u16_to_le_bytes(self.max_virtqueue_pairs);
        out.append(&mut mvp_b);
        let mut mtu_b = u16_to_le_bytes(self.mtu);
        out.append(&mut mtu_b);
        let mut speed_b = u32_to_le_bytes(self.speed);
        out.append(&mut speed_b);
        out.push(self.duplex);
        proof {
            assert(out@ =~= config_bytes(*self));
        }
        out
    }

    /// Decodes a config space from its 17-byte little-endian image.
    pub fn from_bytes(b: &[u8]) -> (r: Self)
        requires
            b@.len() == CONFIG_SPACE_SIZE,
        ensures
            r == config_of_bytes(b@),
    {
        let mac: [u8; 6] = [b[0], b[1], b[2], b[3], b[4], b[5]];
        let status = u16_from_le_bytes(slice_subrange(b, 6, 8));
        let max_virtqueue_pairs = u16_from_le_bytes(slice_subrange(b, 8, 10));
        let mtu = u16_from_le_bytes(slice_subrange(b, 10, 12));
        let speed = u32_from_le_bytes(slice_subrange(b, 12, 16));
        let duplex = b[16];
        let r = VirtioNetConfig { mac, status, max_virtqueue_pairs, mtu, speed, duplex };
        proof {
            assert(r.mac@ =~= config_of_bytes(b@).mac@);
            assert(r.mac == config_of_bytes(b@).mac);
        }
        r
    }
}

impl Default for VirtioNetConfig {
    /// An all-zero config space.
    fn default() -> (r: Self)
        ensures
            r.mac@ == Seq::<u8>::new(6, |i: int| 0u8),
            r.status == 0,
            r.max_virtqueue_pairs == 0,
            r.mtu == 0,
            r.speed == 0,
            r.duplex == 0,
    {
        let r = VirtioNetConfig {
            mac: [0, 0, 0, 0, 0, 0],
            status: 0,
            max_virtqueue_pairs: 0,
            mtu: 0,
            speed: 0,
            duplex: 0,
        };
        proof {
            assert(r.mac@ =~= Seq::<u8>::new(6, |i: int| 0u8));
        }
        r
    }
}

/// Status of a virtio-net device, as persisted for migration.
#[derive(Copy, Clone, Debug, PartialEq, Eq)]
pub struct VirtioNetState {
    /// Bit mask of features supported by the backend.
    pub device_features: u64,
    /// Bit mask of features negotiated by backend and frontend.
    pub driver_features: u64,
    /// Virtio-net config space.
    pub config_space: VirtioNetConfig,
    /// Whether the device is broken.
    pub broken: bool,
}

/// The packed little-endian byte image of the device state.
pub open spec fn state_bytes(s: VirtioNetState) -> Seq<u8> {
    spec_u64_to_le_bytes(s.device_features) + spec_u64_to_le_bytes(s.driver_features)
        + config_bytes(s.config_space) + seq![
        if s.broken {
            1u8
        } else {
            0u8
        },
    ]
}

/// The device state decoded from a 34-byte image.
pub open spec fn state_of_bytes(b: Seq<u8>) -> VirtioNetState {
    VirtioNetState {
        device_features: spec_u64_from_le_bytes(b.subrange(0, 8)),
        driver_features: spec_u64_from_le_bytes(b.subrange(8, 16)),
        config_space: config_of_bytes(b.subrange(16, 33)),
        broken: b[33] != 0,
    }
}

impl VirtioNetState {
    /// Serializes the device state into its 34-byte image.
    pub fn to_bytes(&self) -> (r: Vec<u8>)
        ensures
            r@ == state_bytes(*self),
            r@.len() == NET_STATE_SIZE,
    {
        proof {
            lemma_auto_spec_u64_to_from_le_bytes();
        }
        let mut out: Vec<u8> = Vec::new();
        let mut dev_b = u64_to_le_bytes(self.device_features);
        out.append(&mut dev_b);
        let mut drv_b = u64_to_le_bytes(self.driver_features);
        out.append(&mut drv_b);
        let mut cfg_b = self.config_space.to_bytes();
        out.append(&mut cfg_b);
        out.push(if self.broken {
            1
        } else {
            0
        });
        proof {
            assert(out@ =~= state_bytes(*self));
        }
        out
    }

    /// Decodes a device state from its 34-byte image.
    pub fn from_bytes(b: &[u8]) -> (r: Self)
        requires
            b@.len() == NET_STATE_SIZE,
        ensures
            r == state_of_bytes(b@),
    {
        let device_features = u64_from_le_bytes(slice_subrange(b, 0, 8));
        let driver_features = u64_from_le_bytes(slice_subrange(b, 8, 16));
        let config_space = VirtioNetConfig::from_bytes(slice_subrange(b, 16, 33));
        let broken = b[33] != 0;
        VirtioNetState { device_features, driver_features, config_space, broken }
    }
}

impl Default for VirtioNetState {
    /// An all-zero device state.
    fn default() -> (r: Self)
        ensures
            r.device_features == 0,
            r.driver_features == 0,
            r.config_space.mac@ == Seq::<u8>::new(6, |i: int| 0u8),
            r.config_space.status == 0,
            r.config_space.max_virtqueue_pairs == 0,
            r.config_space.mtu == 0,
            r.config_space.speed == 0,
            r.config_space.duplex == 0,
            !r.broken,
    {
        VirtioNetState {
            device_features: 0,
            driver_features: 0,
            config_space: VirtioNetConfig::default(),
            broken: false,
        }
    }
}

/// Decoding a serialized device state yields the state back: restoring a
/// snapshot into a device is the identity on the device state.
pub proof fn lemma_state_bytes_roundtrip(s: VirtioNetState)
    ensures
        state_of_bytes(state_bytes(s)) == s,
{
    lemma_auto_spec_u16_to_from_le_bytes();
    lemma_auto_spec_u32_to_from_le_bytes();
    lemma_auto_spec_u64_to_from_le_bytes();
    let b = state_bytes(s);
    assert(b.subrange(0, 8) =~= spec_u64_to_le_bytes(s.device_features));
    assert(b.subrange(8, 16) =~= spec_u64_to_le_bytes(s.driver_features));
    assert(b.subrange(16, 33) =~= config_bytes(s.config_space));
    lemma_config_bytes_roundtrip(s.config_space);
    assert(state_of_bytes(b).broken == s.broken);
}

/// Decoding a serialized config space yields the config space back.
pub proof fn lemma_config_bytes_roundtrip(c: VirtioNetConfig)
    ensures
        config_of_bytes(config_bytes(c)) == c,
{
    lemma_auto_spec_u16_to_from_le_bytes();
    lemma_auto_spec_u32_to_from_le_bytes();
    let b = config_bytes(c);
    assert(b.subrange(6, 8) =~= spec_u16_to_le_bytes(c.status));
    assert(b.subrange(8, 10) =~= spec_u16_to_le_bytes(c.max_virtqueue_pairs));
    assert(b.subrange(10, 12) =~= spec_u16_to_le_bytes(c.mtu));
    assert(b.subrange(12, 16) =~= spec_u32_to_le_bytes(c.speed));
    assert(config_of_bytes(b).mac@ =~= c.mac@);
    assert(config_of_bytes(b).mac == c.mac);
}

} // verus!
