//! The virtio-net device facade: feature negotiation, config-space access,
//! activation planning, multiqueue checking and the migration snapshot.
//!
//! Opening TAP devices, registering event notifiers and the event loops
//! themselves happen outside the library; this module makes every decision
//! on plain values (whether a TAP supports UFO, the flags read from the
//! host, the queue count) handed in by the embedding program.

use vstd::prelude::*;

verus! {

use crate::config::{
    config_bytes, state_bytes, state_of_bytes, VirtioNetConfig, VirtioNetState, CONFIG_SPACE_SIZE,
    MAC_ADDR_LEN, NET_STATE_SIZE,
};
use crate::errors::NetError;
use crate::features::{
    read_u32, spec_has_feature, spec_read_u32, virtio_has_feature, VIRTIO_F_RING_EVENT_IDX,
    VIRTIO_F_RING_INDIRECT_DESC, VIRTIO_F_VERSION_1, VIRTIO_NET_F_CSUM, VIRTIO_NET_F_CTRL_MAC_ADDR,
    VIRTIO_NET_F_CTRL_RX, VIRTIO_NET_F_CTRL_RX_EXTRA, VIRTIO_NET_F_CTRL_VLAN, VIRTIO_NET_F_CTRL_VQ,
    VIRTIO_NET_F_GUEST_CSUM, VIRTIO_NET_F_GUEST_TSO4, VIRTIO_NET_F_GUEST_TSO6,
    VIRTIO_NET_F_GUEST_UFO, VIRTIO_NET_F_HOST_TSO4, VIRTIO_NET_F_HOST_TSO6, VIRTIO_NET_F_HOST_UFO,
    VIRTIO_NET_F_MAC, VIRTIO_NET_F_MQ,
};
use crate::filter::{VIRTIO_NET_CTRL_MQ_VQ_PAIRS_MAX, VIRTIO_NET_CTRL_MQ_VQ_PAIRS_MIN};
use crate::mac_text::{count_colons, parse_mac_str, spec_parse_mac};
use crate::macpool::{
    default_mac_prefix, spec_first_free, MacPool, FIRST_DEFAULT_MAC_BYTE, MAX_MAC_ADDR_NUM,
};

/// Virtio device type of a network card.
pub const VIRTIO_TYPE_NET: u32 = 1;

/// Number of virtqueues without multiqueue: receive, transmit, control.
pub const QUEUE_NUM_NET: usize = 3;

/// Bit of the host `tun_flags` word that marks a multi-queue TAP device.
pub const IFF_MULTI_QUEUE: u16 = 0x0100;

/// The part of the network-interface configuration that the device logic
/// reads.
#[derive(Debug, Clone)]
pub struct NetConfig {
    /// Whether multiqueue was requested.
    pub mq: bool,
    /// Number of configured data queues (twice the queue pairs).
    pub queues: u16,
    /// Depth of each virtqueue.
    pub queue_size: u16,
    /// MAC address configured by the user, as text.
    pub mac: Option<String>,
}

impl Default for NetConfig {
    /// A single queue pair of depth 256, no multiqueue, no configured MAC.
    fn default() -> (r: Self)
        ensures
            !r.mq,
            r.queues == 2,
            r.queue_size == 256,
            r.mac is None,
    {
        NetConfig { mq: false, queues: 2, queue_size: 256, mac: None }
    }
}

/// The device features a virtio-net device always advertises.
pub open spec fn spec_base_features() -> u64 {
    (1u64 << VIRTIO_F_VERSION_1) | (1u64 << VIRTIO_NET_F_CSUM) | (1u64 << VIRTIO_NET_F_GUEST_CSUM)
        | (1u64 << VIRTIO_NET_F_GUEST_TSO4) | (1u64 << VIRTIO_NET_F_GUEST_TSO6) | (1u64
        << VIRTIO_NET_F_GUEST_UFO) | (1u64 << VIRTIO_NET_F_HOST_TSO4) | (1u64
        << VIRTIO_NET_F_HOST_TSO6) | (1u64 << VIRTIO_NET_F_HOST_UFO) | (1u64
        << VIRTIO_NET_F_CTRL_RX) | (1u64 << VIRTIO_NET_F_CTRL_VLAN) | (1u64
        << VIRTIO_NET_F_CTRL_RX_EXTRA) | (1u64 << VIRTIO_NET_F_CTRL_MAC_ADDR) | (1u64
        << VIRTIO_NET_F_CTRL_VQ) | (1u64 << VIRTIO_F_RING_INDIRECT_DESC) | (1u64
        << VIRTIO_F_RING_EVENT_IDX)
}

/// The all-zero MAC address.
pub open spec fn zero_mac() -> Seq<u8> {
    seq![0u8, 0u8, 0u8, 0u8, 0u8, 0u8]
}

/// The feature word after the multiqueue and UFO adjustments of `realize`.
pub open spec fn spec_pre_mac_features(cfg: NetConfig, tap_has_ufo: Option<bool>) -> u64 {
    let qp = cfg.queues / 2;
    let mq_on = cfg.mq && VIRTIO_NET_CTRL_MQ_VQ_PAIRS_MIN <= qp && qp
        <= VIRTIO_NET_CTRL_MQ_VQ_PAIRS_MAX;
    let f1 = if mq_on {
        spec_base_features() | (1u64 << VIRTIO_NET_F_MQ)
    } else {
        spec_base_features()
    };
    if tap_has_ufo == Some(false) {
        f1 & !((1u64 << VIRTIO_NET_F_GUEST_UFO) | (1u64 << VIRTIO_NET_F_HOST_UFO))
    } else {
        f1
    }
}

/// Whether config-space writes may change the MAC: only when the driver
/// negotiated neither CTRL_MAC_ADDR nor VERSION_1.
pub open spec fn spec_write_config_gate(driver_features: u64) -> bool {
    !spec_has_feature(driver_features, VIRTIO_NET_F_CTRL_MAC_ADDR) && !spec_has_feature(
        driver_features,
        VIRTIO_F_VERSION_1,
    )
}

/// The MAC bytes after writing `data` at `offset`.
pub open spec fn mac_overwrite(mac: Seq<u8>, offset: int, data: Seq<u8>) -> Seq<u8> {
    Seq::new(
        6,
        |j: int|
            if offset <= j < offset + data.len() {
                data[j - offset]
            } else {
                mac[j]
            },
    )
}

/// The driver feature word after the guest sets one 32-bit page, masked to
/// what the device advertises.
pub open spec fn spec_checked_driver_features(
    device: u64,
    driver: u64,
    page: u32,
    value: u32,
) -> u64 {
    let masked = value & spec_read_u32(device, page);
    if page == 0 {
        (driver & 0xffff_ffff_0000_0000u64) | (masked as u64)
    } else if page == 1 {
        (driver & 0x0000_0000_ffff_ffffu64) | ((masked as u64) << 32u64)
    } else {
        driver
    }
}

/// What `activate` builds: whether the last queue is the control queue,
/// and how many receive/transmit pairs there are.
#[derive(Copy, Clone, Debug, PartialEq, Eq, Structural)]
pub struct ActivatePlan {
    /// The control queue is present: CTRL_VQ negotiated and an odd queue
    /// count.
    pub has_ctrl: bool,
    /// Number of receive/transmit queue pairs.
    pub queue_pairs: usize,
}

/// Sets the MAC parsed from `mac` into the config space and returns the
/// MAC feature bit; on a malformed address the config space is untouched
/// and no feature is returned.
pub fn build_device_config_space(device_config: &mut VirtioNetConfig, mac: &str) -> (r: u64)
    requires
        count_colons(mac@) <= 5,
    ensures
        final(device_config).status == old(device_config).status,
        final(device_config).max_virtqueue_pairs == old(device_config).max_virtqueue_pairs,
        final(device_config).mtu == old(device_config).mtu,
        final(device_config).speed == old(device_config).speed,
        final(device_config).duplex == old(device_config).duplex,
        match spec_parse_mac(mac@) {
            Some(bytes) => r == 1u64 << VIRTIO_NET_F_MAC && final(device_config).mac@ == bytes,
            None => r == 0 && final(device_config).mac == old(device_config).mac,
        },
{
    match parse_mac_str(mac) {
        Some(bytes) => {
            device_config.mac = bytes;
            1u64 << VIRTIO_NET_F_MAC
        },
        None => 0,
    }
}

/// Checks the host TAP's multiqueue capability against the configured
/// queue pairs; `tun_flags` is the flag word read from the host, or
/// nothing when the host does not expose one (then anything passes).
pub fn check_mq(tun_flags: Option<u16>, queue_pairs: u16) -> (r: Result<(), NetError>)
    ensures
        match tun_flags {
            None => r == Ok::<(), NetError>(()),
            Some(flags) => {
                let is_mq = queue_pairs > 1;
                if flags & IFF_MULTI_QUEUE != 0 && !is_mq {
                    r == Err::<(), NetError>(NetError::MqTapUnwanted { queue_pairs })
                } else if flags & IFF_MULTI_QUEUE == 0 && is_mq {
                    r == Err::<(), NetError>(NetError::MqTapMissing { queue_pairs })
                } else {
                    r == Ok::<(), NetError>(())
                }
            },
        },
{
    match tun_flags {
        None => Ok(()),
        Some(flags) => {
            let is_mq = queue_pairs > 1;
            if flags & IFF_MULTI_QUEUE != 0 && !is_mq {
                Err(NetError::MqTapUnwanted { queue_pairs })
            } else if flags & IFF_MULTI_QUEUE == 0 && is_mq {
                Err(NetError::MqTapMissing { queue_pairs })
            } else {
                Ok(())
            }
        },
    }
}

/// Plans activation for a set of queues: fails on an empty set; the last
/// queue is the control queue when CTRL_VQ was negotiated and the count is
/// odd; every other queue belongs to a receive/transmit pair.
pub fn activate_plan(queue_num: usize, driver_features: u64) -> (r: Result<ActivatePlan, NetError>)
    ensures
        queue_num == 0 <==> r == Err::<ActivatePlan, NetError>(NetError::NoQueues),
        queue_num > 0 ==> r == Ok::<ActivatePlan, NetError>(
            ActivatePlan {
                has_ctrl: spec_has_feature(driver_features, VIRTIO_NET_F_CTRL_VQ) && queue_num % 2
                    == 1,
                queue_pairs: queue_num / 2,
            },
        ),
{
    if queue_num == 0 {
        return Err(NetError::NoQueues);
    }
    let has_ctrl = virtio_has_feature(driver_features, VIRTIO_NET_F_CTRL_VQ) && queue_num % 2 == 1;
    Ok(ActivatePlan { has_ctrl, queue_pairs: queue_num / 2 })
}

/// The virtio-net device.
#[derive(Debug)]
pub struct Net {
    /// Configuration of the device.
    pub net_cfg: NetConfig,
    /// Features, config space and broken flag, as persisted for
    /// migration.
    pub state: VirtioNetState,
    /// Live broken flag, synced into `state` when a snapshot is taken.
    pub broken: bool,
}

impl Default for Net {
    /// A device with the default configuration and an all-zero state.
    fn default() -> (r: Self)
        ensures
            !r.net_cfg.mq,
            r.net_cfg.queues == 2,
            r.net_cfg.queue_size == 256,
            r.net_cfg.mac is None,
            r.state.device_features == 0,
            r.state.driver_features == 0,
            r.state.config_space.mac@ == zero_mac(),
            r.state.config_space.status == 0,
            r.state.config_space.max_virtqueue_pairs == 0,
            r.state.config_space.mtu == 0,
            r.state.config_space.speed == 0,
            r.state.config_space.duplex == 0,
            !r.broken,
    {
        let r = Net {
            net_cfg: NetConfig::default(),
            state: VirtioNetState::default(),
            broken: false,
        };
        proof {
            assert(r.state.config_space.mac@ =~= zero_mac());
        }
        r
    }
}

impl Net {
    /// A device with the given configuration and an all-zero state.
    pub fn new(net_cfg: NetConfig) -> (r: Self)
        ensures
            r.net_cfg == net_cfg,
            r.state.device_features == 0,
            r.state.driver_features == 0,
            r.state.config_space.mac@ == zero_mac(),
            r.state.config_space.status == 0,
            r.state.config_space.max_virtqueue_pairs == 0,
            r.state.config_space.mtu == 0,
            r.state.config_space.speed == 0,
            r.state.config_space.duplex == 0,
            !r.broken,
    {
        let r = Net { net_cfg, state: VirtioNetState::default(), broken: false };
        proof {
            assert(r.state.config_space.mac@ =~= zero_mac());
        }
        r
    }

    /// Negotiable features and the MAC address are settled here: the
    /// device advertises its base features, multiqueue when configured
    /// with an acceptable pair count, drops UFO when the TAP lacks it
    /// (`tap_has_ufo` is the TAP's answer, or nothing without a TAP), and
    /// takes the configured MAC — or one from the default pool when the
    /// config space has none yet.
    pub fn realize(&mut self, pool: &mut MacPool, tap_has_ufo: Option<bool>) -> (r: Result<
        (),
        NetError,
    >)
        requires
            old(pool).counts@.len() == MAX_MAC_ADDR_NUM,
            forall|i: int| 0 <= i < MAX_MAC_ADDR_NUM ==> old(pool).counts@[i] < i8::MAX,
            old(self).net_cfg.mac matches Some(m) ==> count_colons(m@) <= 5,
        ensures
            final(self).net_cfg == old(self).net_cfg,
            final(self).broken == old(self).broken,
            final(self).state.driver_features == old(self).state.driver_features,
            final(self).state.config_space.status == old(self).state.config_space.status,
            final(self).state.config_space.mtu == old(self).state.config_space.mtu,
            final(self).state.config_space.speed == old(self).state.config_space.speed,
            final(self).state.config_space.duplex == old(self).state.config_space.duplex,
            final(pool).counts@.len() == MAX_MAC_ADDR_NUM,
            ({
                let qp = old(self).net_cfg.queues / 2;
                let mq_on = old(self).net_cfg.mq && VIRTIO_NET_CTRL_MQ_VQ_PAIRS_MIN <= qp && qp
                    <= VIRTIO_NET_CTRL_MQ_VQ_PAIRS_MAX;
                final(self).state.config_space.max_virtqueue_pairs == (if mq_on {
                    qp
                } else {
                    old(self).state.config_space.max_virtqueue_pairs
                })
            }),
            ({
                let f2 = spec_pre_mac_features(old(self).net_cfg, tap_has_ufo);
                match old(self).net_cfg.mac {
                    Some(m) => {
                        &&& r == Ok::<(), NetError>(())
                        &&& (match spec_parse_mac(m@) {
                            Some(bytes) => final(self).state.config_space.mac@ == bytes && final(self).state.device_features == f2 | (1u64 << VIRTIO_NET_F_MAC),
                            None => final(self).state.config_space.mac == old(self).state.config_space.mac && final(self).state.device_features == f2,
                        })
                        &&& ({
                            let fmac = final(self).state.config_space.mac@;
                            if fmac.subrange(0, 5) == default_mac_prefix() && fmac[5]
                                >= FIRST_DEFAULT_MAC_BYTE && fmac[5] < MAX_MAC_ADDR_NUM {
                                final(pool).counts@ == old(pool).counts@.update(
                                    fmac[5] as int,
                                    (old(pool).counts@[fmac[5] as int] + 1) as i8,
                                )
                            } else {
                                final(pool).counts@ == old(pool).counts@
                            }
                        })
                    },
                    None => {
                        if old(self).state.config_space.mac@ == zero_mac() {
                            match spec_first_free(old(pool).counts@, FIRST_DEFAULT_MAC_BYTE as int) {
                                Some(i) => {
                                    &&& r == Ok::<(), NetError>(())
                                    &&& final(self).state.config_space.mac@
                                        == default_mac_prefix().push(i as u8)
                                    &&& final(self).state.device_features == f2 | (1u64
                                        << VIRTIO_NET_F_MAC)
                                    &&& final(pool).counts@ == old(pool).counts@.update(i, 1i8)
                                },
                                None => {
                                    &&& r == Err::<(), NetError>(NetError::MacPoolExhausted)
                                    &&& final(self).state.config_space.mac == old(self).state.config_space.mac
                                    &&& final(self).state.device_features == f2
                                    &&& final(pool).counts@ == old(pool).counts@
                                },
                            }
                        } else {
                            &&& r == Ok::<(), NetError>(())
                            &&& final(self).state.config_space.mac == old(self).state.config_space.mac
                            &&& final(self).state.device_features == f2 | (1u64
                                << VIRTIO_NET_F_MAC)
                            &&& final(pool).counts@ == old(pool).counts@
                        }
                    },
                }
            }),
    {
        let mut features: u64 = (1u64 << VIRTIO_F_VERSION_1) | (1u64 << VIRTIO_NET_F_CSUM) | (1u64
            << VIRTIO_NET_F_GUEST_CSUM) | (1u64 << VIRTIO_NET_F_GUEST_TSO4) | (1u64
            << VIRTIO_NET_F_GUEST_TSO6) | (1u64 << VIRTIO_NET_F_GUEST_UFO) | (1u64
            << VIRTIO_NET_F_HOST_TSO4) | (1u64 << VIRTIO_NET_F_HOST_TSO6) | (1u64
            << VIRTIO_NET_F_HOST_UFO) | (1u64 << VIRTIO_NET_F_CTRL_RX) | (1u64
            << VIRTIO_NET_F_CTRL_VLAN) | (1u64 << VIRTIO_NET_F_CTRL_RX_EXTRA) | (1u64
            << VIRTIO_NET_F_CTRL_MAC_ADDR) | (1u64 << VIRTIO_NET_F_CTRL_VQ) | (1u64
            << VIRTIO_F_RING_INDIRECT_DESC) | (1u64 << VIRTIO_F_RING_EVENT_IDX);
        proof {
            assert(features == spec_base_features());
        }
        let qp = self.net_cfg.queues / 2;
        if self.net_cfg.mq && VIRTIO_NET_CTRL_MQ_VQ_PAIRS_MIN <= qp && qp
            <= VIRTIO_NET_CTRL_MQ_VQ_PAIRS_MAX {
            features = features | (1u64 << VIRTIO_NET_F_MQ);
            self.state.config_space.max_virtqueue_pairs = qp;
        }
        if let Some(has_ufo) = tap_has_ufo {
            if !has_ufo {
                features = features & !((1u64 << VIRTIO_NET_F_GUEST_UFO) | (1u64
                    << VIRTIO_NET_F_HOST_UFO));
            }
        }
        match &self.net_cfg.mac {
            Some(m) => {
                let mac_feature = build_device_config_space(&mut self.state.config_space, m.as_str());
                proof {
                    assert(forall|x: u64| #[trigger] (x | 0u64) == x) by (bit_vector);
                }
                features = features | mac_feature;
                let mac_bytes = vstd::array::array_as_slice(&self.state.config_space.mac);
                pool.mark_mac_table(mac_bytes, true);
            },
            None => {
                let m = &self.state.config_space.mac;
                let is_zero = m[0] == 0 && m[1] == 0 && m[2] == 0 && m[3] == 0 && m[4] == 0 && m[5]
                    == 0;
                proof {
                    if is_zero {
                        assert(self.state.config_space.mac@ =~= zero_mac());
                    } else {
                        if self.state.config_space.mac@ == zero_mac() {
                            assert(forall|j: int|
                                0 <= j < 6 ==> self.state.config_space.mac@[j] == zero_mac()[j]);
                        }
                    }
                }
                if is_zero {
                    match pool.get_default_mac_addr() {
                        Ok(mac) => {
                            self.state.config_space.mac = mac;
                            features = features | (1u64 << VIRTIO_NET_F_MAC);
                        },
                        Err(e) => {
                            self.state.device_features = features;
                            return Err(e);
                        },
                    }
                } else {
                    features = features | (1u64 << VIRTIO_NET_F_MAC);
                }
            },
        }
        self.state.device_features = features;
        Ok(())
    }

    /// Releases the device's hold on its default-pool MAC address.
    pub fn unrealize(&mut self, pool: &mut MacPool) -> (r: Result<(), NetError>)
        requires
            old(pool).counts@.len() == MAX_MAC_ADDR_NUM,
            forall|i: int| 0 <= i < MAX_MAC_ADDR_NUM ==> old(pool).counts@[i] > i8::MIN,
        ensures
            *final(self) == *old(self),
            r == Ok::<(), NetError>(()),
            final(pool).counts@.len() == MAX_MAC_ADDR_NUM,
            ({
                let fmac = old(self).state.config_space.mac@;
                if fmac.subrange(0, 5) == default_mac_prefix() && fmac[5] >= FIRST_DEFAULT_MAC_BYTE
                    && fmac[5] < MAX_MAC_ADDR_NUM {
                    final(pool).counts@ == old(pool).counts@.update(
                        fmac[5] as int,
                        (old(pool).counts@[fmac[5] as int] - 1) as i8,
                    )
                } else {
                    final(pool).counts@ == old(pool).counts@
                }
            }),
    {
        let mac_bytes = vstd::array::array_as_slice(&self.state.config_space.mac);
        pool.mark_mac_table(mac_bytes, false);
        Ok(())
    }

    /// The virtio device type of this device.
    pub fn device_type(&self) -> (r: u32)
        ensures
            r == VIRTIO_TYPE_NET,
    {
        VIRTIO_TYPE_NET
    }

    /// Number of virtqueues: with multiqueue one more than the configured
    /// data queues (for the control queue), else three.
    pub fn queue_num(&self) -> (r: usize)
        ensures
            r == (if self.net_cfg.mq {
                self.net_cfg.queues + 1
            } else {
                QUEUE_NUM_NET as int
            }),
    {
        if self.net_cfg.mq {
            (self.net_cfg.queues as usize) + 1
        } else {
            QUEUE_NUM_NET
        }
    }

    /// Depth of each virtqueue.
    pub fn queue_size(&self) -> (r: u16)
        ensures
            r == self.net_cfg.queue_size,
    {
        self.net_cfg.queue_size
    }

    /// One 32-bit page of the device feature word.
    pub fn get_device_features(&self, features_select: u32) -> (r: u32)
        ensures
            r == spec_read_u32(self.state.device_features, features_select),
    {
        read_u32(self.state.device_features, features_select)
    }

    /// Sets one 32-bit page of the driver feature word, masked to the
    /// features the device advertises.
    pub fn set_driver_features(&mut self, page: u32, value: u32)
        ensures
            final(self).state.driver_features == spec_checked_driver_features(
                old(self).state.device_features,
                old(self).state.driver_features,
                page,
                value,
            ),
            final(self).state.device_features == old(self).state.device_features,
            final(self).state.config_space == old(self).state.config_space,
            final(self).state.broken == old(self).state.broken,
            final(self).net_cfg == old(self).net_cfg,
            final(self).broken == old(self).broken,
    {
        let masked = value & read_u32(self.state.device_features, page);
        if page == 0 {
            self.state.driver_features = (self.state.driver_features & 0xffff_ffff_0000_0000u64) | (
            masked as u64);
        } else if page == 1 {
            self.state.driver_features = (self.state.driver_features & 0x0000_0000_ffff_ffffu64) | (
            (masked as u64) << 32u64);
        }
    }

    /// One 32-bit page of the driver feature word.
    pub fn get_driver_features(&self, features_select: u32) -> (r: u32)
        ensures
            r == spec_read_u32(self.state.driver_features, features_select),
    {
        read_u32(self.state.driver_features, features_select)
    }

    /// Reads `len` bytes of the config space at `offset`; an access past
    /// the 17-byte window fails.
    pub fn read_config(&self, offset: u64, len: usize) -> (r: Result<Vec<u8>, NetError>)
        ensures
            (offset + len <= CONFIG_SPACE_SIZE) <==> r is Ok,
            r is Ok ==> r->Ok_0@ == config_bytes(self.state.config_space).subrange(
                offset as int,
                offset as int + len as int,
            ),
            r is Err ==> r == Err::<Vec<u8>, NetError>(
                NetError::DevConfigOverflow { offset, len: CONFIG_SPACE_SIZE as u64 },
            ),
    {
        if offset > CONFIG_SPACE_SIZE as u64 || (len as u64) > CONFIG_SPACE_SIZE as u64 - offset {
            return Err(NetError::DevConfigOverflow { offset, len: CONFIG_SPACE_SIZE as u64 });
        }
        let bytes = self.state.config_space.to_bytes();
        let part = vstd::slice::slice_subrange(
            bytes.as_slice(),
            offset as usize,
            offset as usize + len,
        );
        Ok(vstd::slice::slice_to_vec(part))
    }

    /// Writes `data` into the config space at `offset`.  Only the six MAC
    /// bytes are writable, and they change only while the driver has
    /// negotiated neither CTRL_MAC_ADDR nor VERSION_1.
    pub fn write_config(&mut self, offset: u64, data: &[u8]) -> (r: Result<(), NetError>)
        ensures
            (offset + data@.len() <= MAC_ADDR_LEN) <==> r is Ok,
            r is Err ==> r == Err::<(), NetError>(
                NetError::DevConfigOverflow { offset, len: CONFIG_SPACE_SIZE as u64 },
            ) && *final(self) == *old(self),
            r is Ok ==> {
                &&& final(self).state.config_space.mac@ == (if spec_write_config_gate(
                    old(self).state.driver_features,
                ) {
                    mac_overwrite(old(self).state.config_space.mac@, offset as int, data@)
                } else {
                    old(self).state.config_space.mac@
                })
                &&& final(self).state.config_space.status == old(self).state.config_space.status
                &&& final(self).state.config_space.max_virtqueue_pairs == old(self).state.config_space.max_virtqueue_pairs
                &&& final(self).state.config_space.mtu == old(self).state.config_space.mtu
                &&& final(self).state.config_space.speed == old(self).state.config_space.speed
                &&& final(self).state.config_space.duplex == old(self).state.config_space.duplex
                &&& final(self).state.device_features == old(self).state.device_features
                &&& final(self).state.driver_features == old(self).state.driver_features
                &&& final(self).state.broken == old(self).state.broken
                &&& final(self).net_cfg == old(self).net_cfg
                &&& final(self).broken == old(self).broken
            },
    {
        let data_len = data.len();
        if offset > MAC_ADDR_LEN as u64 || (data_len as u64) > MAC_ADDR_LEN as u64 - offset {
            return Err(NetError::DevConfigOverflow { offset, len: CONFIG_SPACE_SIZE as u64 });
        }
        let gate = !virtio_has_feature(self.state.driver_features, VIRTIO_NET_F_CTRL_MAC_ADDR)
            && !virtio_has_feature(self.state.driver_features, VIRTIO_F_VERSION_1);
        if gate {
            let off = offset as usize;
            let mut j: usize = 0;
            while j < data_len
                invariant
                    off + data_len <= 6,
                    data_len == data@.len(),
                    j <= data_len,
                    self.net_cfg == old(self).net_cfg,
                    self.broken == old(self).broken,
                    self.state.device_features == old(self).state.device_features,
                    self.state.driver_features == old(self).state.driver_features,
                    self.state.broken == old(self).state.broken,
                    self.state.config_space.status == old(self).state.config_space.status,
                    self.state.config_space.max_virtqueue_pairs == old(self).state.config_space.max_virtqueue_pairs,
                    self.state.config_space.mtu == old(self).state.config_space.mtu,
                    self.state.config_space.speed == old(self).state.config_space.speed,
                    self.state.config_space.duplex == old(self).state.config_space.duplex,
                    forall|k: int|
                        0 <= k < 6 ==> self.state.config_space.mac@[k] == (if off <= k < off
                            + j {
                            data@[k - off]
                        } else {
                            old(self).state.config_space.mac@[k]
                        }),
                decreases data_len - j,
            {
                self.state.config_space.mac[off + j] = data[j];
                j += 1;
            }
            proof {
                assert(self.state.config_space.mac@ =~= mac_overwrite(
                    old(self).state.config_space.mac@,
                    offset as int,
                    data@,
                ));
            }
        }
        Ok(())
    }

    /// Takes the migration snapshot: the live broken flag is synced into
    /// the state, which is then serialized.
    pub fn get_state_vec(&mut self) -> (r: Vec<u8>)
        ensures
            final(self).state == (VirtioNetState { broken: old(self).broken, ..old(self).state }),
            final(self).net_cfg == old(self).net_cfg,
            final(self).broken == old(self).broken,
            r@ == state_bytes(final(self).state),
            r@.len() == NET_STATE_SIZE,
    {
        self.state.broken = self.broken;
        self.state.to_bytes()
    }

    /// Restores a migration snapshot; a blob of the wrong length fails.
    pub fn set_state_mut(&mut self, state: &[u8]) -> (r: Result<(), NetError>)
        ensures
            state@.len() == NET_STATE_SIZE <==> r is Ok,
            r is Ok ==> {
                &&& final(self).state == state_of_bytes(state@)
                &&& final(self).broken == state_of_bytes(state@).broken
                &&& final(self).net_cfg == old(self).net_cfg
            },
            r is Err ==> r == Err::<(), NetError>(
                NetError::InvalidStateLength { got: state@.len() as usize, expected: NET_STATE_SIZE },
            ) && *final(self) == *old(self),
    {
        if state.len() != NET_STATE_SIZE {
            return Err(
                NetError::InvalidStateLength { got: state.len(), expected: NET_STATE_SIZE },
            );
        }
        self.state = VirtioNetState::from_bytes(state);
        self.broken = self.state.broken;
        Ok(())
    }
}

/// Restoring the snapshot taken from a device state yields that state
/// back: `set_state_mut` after `get_state_vec` is the identity on the
/// device state, including the synced broken flag.
pub proof fn lemma_state_snapshot_roundtrip(s: VirtioNetState, broken: bool)
    ensures
        ({
            let synced = VirtioNetState { broken, ..s };
            &&& state_of_bytes(state_bytes(synced)) == synced
            &&& state_of_bytes(state_bytes(synced)).broken == broken
        }),
{
    let synced = VirtioNetState { broken, ..s };
    crate::config::lemma_state_bytes_roundtrip(synced);
}

/// Reading the config space just after a write returns the written data:
/// for any config space whose MAC carries the write of `data` at
/// `offset`, the config bytes at that window are exactly `data`.
pub proof fn lemma_write_then_read_config(
    c1: VirtioNetConfig,
    c2: VirtioNetConfig,
    offset: int,
    data: Seq<u8>,
)
    requires
        0 <= offset,
        offset + data.len() <= MAC_ADDR_LEN,
        c2.mac@ == mac_overwrite(c1.mac@, offset, data),
    ensures
        config_bytes(c2).subrange(offset, offset + data.len() as int) == data,
{
    assert(forall|j: int| 0 <= j < 6 ==> config_bytes(c2)[j] == c2.mac@[j]);
    assert(config_bytes(c2).subrange(offset, offset + data.len() as int) =~= data);
}

} // verus!
