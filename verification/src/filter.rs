//! RX filtering of the virtio-net device: receive modes, MAC tables, the
//! VLAN bitmap, the per-packet filter and the control-queue command
//! handlers that mutate them.
//!
//! The control-queue handlers work on the plain payload bytes of a popped
//! control chain; reading those bytes out of guest memory happens outside
//! the library.

use std::collections::HashMap;
use vstd::bytes::{spec_u16_from_le_bytes, spec_u32_from_le_bytes, u16_from_le_bytes, u32_from_le_bytes};
use vstd::prelude::*;
use vstd::slice::slice_subrange;

verus! {

broadcast use vstd::std_specs::hash::group_hash_axioms;

use crate::config::VirtioNetState;

/// Ack written back on a successfully handled control command.
pub const VIRTIO_NET_OK: u8 = 0;

/// Ack written back on a rejected control command.
pub const VIRTIO_NET_ERR: u8 = 1;

/// Combined capacity of the unicast and multicast MAC tables.
pub const CTRL_MAC_TABLE_LEN: usize = 64;

/// Smallest VLAN id outside the valid range (802.1Q has 12-bit ids).
pub const CTRL_MAX_VLAN: u16 = 4096;

/// Control class: receive-mode commands.
pub const VIRTIO_NET_CTRL_RX: u8 = 0;

/// Receive-mode command: promiscuous mode.
pub const VIRTIO_NET_CTRL_RX_PROMISC: u8 = 0;

/// Receive-mode command: accept all multicast.
pub const VIRTIO_NET_CTRL_RX_ALLMULTI: u8 = 1;

/// Receive-mode command: accept all unicast.
pub const VIRTIO_NET_CTRL_RX_ALLUNI: u8 = 2;

/// Receive-mode command: drop all multicast.
pub const VIRTIO_NET_CTRL_RX_NOMULTI: u8 = 3;

/// Receive-mode command: drop all unicast.
pub const VIRTIO_NET_CTRL_RX_NOUNI: u8 = 4;

/// Receive-mode command: drop broadcast.
pub const VIRTIO_NET_CTRL_RX_NOBCAST: u8 = 5;

/// Control class: MAC commands.
pub const VIRTIO_NET_CTRL_MAC: u8 = 1;

/// MAC command: replace both MAC tables.
pub const VIRTIO_NET_CTRL_MAC_TABLE_SET: u8 = 0;

/// MAC command: overwrite the device MAC address.
pub const VIRTIO_NET_CTRL_MAC_ADDR_SET: u8 = 1;

/// Control class: VLAN commands.
pub const VIRTIO_NET_CTRL_VLAN: u8 = 2;

/// VLAN command: allow a VLAN id.
pub const VIRTIO_NET_CTRL_VLAN_ADD: u8 = 0;

/// VLAN command: disallow a VLAN id.
pub const VIRTIO_NET_CTRL_VLAN_DEL: u8 = 1;

/// Control class: multiqueue commands.
pub const VIRTIO_NET_CTRL_MQ: u8 = 4;

/// Multiqueue command: set the number of queue pairs.
pub const VIRTIO_NET_CTRL_MQ_VQ_PAIRS_SET: u16 = 0;

/// Smallest accepted queue-pair count.
pub const VIRTIO_NET_CTRL_MQ_VQ_PAIRS_MIN: u16 = 1;

/// Largest accepted queue-pair count.
pub const VIRTIO_NET_CTRL_MQ_VQ_PAIRS_MAX: u16 = 32;

/// The receive modes used for packet filtering.
#[derive(Copy, Clone, Debug, PartialEq, Eq, Structural)]
pub struct CtrlRxMode {
    /// Deliver every incoming packet.
    pub promisc: bool,
    /// Deliver every multicast packet.
    pub all_multi: bool,
    /// Deliver every unicast packet.
    pub all_uni: bool,
    /// Drop every multicast packet.
    pub no_multi: bool,
    /// Drop every unicast packet.
    pub no_uni: bool,
    /// Drop broadcast packets.
    pub no_bcast: bool,
}

impl Default for CtrlRxMode {
    /// For compatibility with older guest drivers the device starts out
    /// promiscuous; every other mode starts off.
    fn default() -> (r: Self)
        ensures
            r == (CtrlRxMode {
                promisc: true,
                all_multi: false,
                all_uni: false,
                no_multi: false,
                no_uni: false,
                no_bcast: false,
            }),
    {
        CtrlRxMode {
            promisc: true,
            all_multi: false,
            all_uni: false,
            no_multi: false,
            no_uni: false,
            no_bcast: false,
        }
    }
}

/// One 6-byte MAC address.
#[derive(Copy, Clone, Debug)]
pub struct MacAddress {
    /// The address bytes.
    pub address: [u8; 6],
}

/// The MAC tables used for packet filtering.
#[derive(Clone, Debug)]
pub struct CtrlMacInfo {
    /// Unicast MAC table.
    pub uni_mac_table: Vec<MacAddress>,
    /// The guest sent more unicast entries than fit.
    pub uni_mac_of: bool,
    /// Multicast MAC table.
    pub multi_mac_table: Vec<MacAddress>,
    /// The guest sent more multicast entries than fit.
    pub multi_mac_of: bool,
}

/// The filter state driven by the control queue and consulted by the
/// receive path.
#[derive(Debug)]
pub struct CtrlInfo {
    /// Receive modes.
    pub rx_mode: CtrlRxMode,
    /// MAC tables.
    pub mac_info: CtrlMacInfo,
    /// Bitmaps of allowed VLAN ids, keyed by `vid / 32`.
    pub vlan_map: HashMap<u16, u32>,
}

/// The addresses held in a MAC table, as byte sequences.
pub open spec fn macs_view(t: Seq<MacAddress>) -> Seq<Seq<u8>> {
    t.map_values(|m: MacAddress| m.address@)
}

/// The tables never hold more than 64 entries combined, and a table whose
/// overflow flag is set is empty.
pub open spec fn mac_info_wf(m: CtrlMacInfo) -> bool {
    &&& m.uni_mac_table@.len() + m.multi_mac_table@.len() <= CTRL_MAC_TABLE_LEN
    &&& (m.uni_mac_of ==> m.uni_mac_table@.len() == 0)
    &&& (m.multi_mac_of ==> m.multi_mac_table@.len() == 0)
}

/// The bitmap stored for a VLAN key, zero when the key is absent.
pub open spec fn vlan_value(m: Map<u16, u32>, key: u16) -> u32 {
    if m.contains_key(key) {
        m[key]
    } else {
        0
    }
}

/// Whether a VLAN id is accepted: bit `vid mod 32` of the bitmap stored
/// under `vid / 32`.
pub open spec fn vlan_accepts(m: Map<u16, u32>, vid: u16) -> bool {
    (vlan_value(m, (vid / 32) as u16) >> ((vid % 32) as u32)) & 1 == 1
}

/// Whether `addr` is one of the addresses of a MAC table.
pub open spec fn mac_in_table(t: Seq<MacAddress>, addr: Seq<u8>) -> bool {
    exists|i: int| 0 <= i < t.len() && t[i].address@ == addr
}

/// The broadcast MAC address.
pub open spec fn bcast_mac() -> Seq<u8> {
    seq![0xffu8, 0xffu8, 0xffu8, 0xffu8, 0xffu8, 0xffu8]
}

/// Whether an Ethernet frame carries an 802.1Q tag: its Ethertype field
/// (bytes 12 and 13) holds the TPID 0x8100.
pub open spec fn frame_vlan_tagged(buf: Seq<u8>) -> bool {
    buf[12] == 0x81 && buf[13] == 0x00
}

/// The 12-bit VLAN id of a tagged frame: the low 12 bits of bytes 14 and
/// 15, big-endian.
pub open spec fn frame_vid(buf: Seq<u8>) -> u16 {
    (((buf[14] as u16) << 8) | (buf[15] as u16)) & 0x0fff
}

/// Whether the per-packet filter drops the frame in `buf` (`true` means
/// drop).  `device_mac` is the device's own MAC address.
pub open spec fn spec_filter_packets(ctrl: CtrlInfo, device_mac: Seq<u8>, buf: Seq<u8>) -> bool {
    let dst = buf.subrange(0, 6);
    if ctrl.rx_mode.promisc {
        false
    } else if frame_vlan_tagged(buf) && !vlan_accepts(ctrl.vlan_map@, frame_vid(buf)) {
        true
    } else if buf[0] & 1 == 1 {
        if dst == bcast_mac() {
            ctrl.rx_mode.no_bcast
        } else if ctrl.rx_mode.no_multi {
            true
        } else if ctrl.rx_mode.all_multi || ctrl.mac_info.multi_mac_of {
            false
        } else {
            !mac_in_table(ctrl.mac_info.multi_mac_table@, dst)
        }
    } else {
        if ctrl.rx_mode.no_uni {
            true
        } else if ctrl.rx_mode.all_uni || ctrl.mac_info.uni_mac_of || dst == device_mac {
            false
        } else {
            !mac_in_table(ctrl.mac_info.uni_mac_table@, dst)
        }
    }
}

/// The receive modes after one receive-mode command.
pub open spec fn rx_mode_after(m: CtrlRxMode, cmd: u8, on: bool) -> CtrlRxMode {
    if cmd == VIRTIO_NET_CTRL_RX_PROMISC {
        CtrlRxMode { promisc: on, ..m }
    } else if cmd == VIRTIO_NET_CTRL_RX_ALLMULTI {
        CtrlRxMode { all_multi: on, ..m }
    } else if cmd == VIRTIO_NET_CTRL_RX_ALLUNI {
        CtrlRxMode { all_uni: on, ..m }
    } else if cmd == VIRTIO_NET_CTRL_RX_NOMULTI {
        CtrlRxMode { no_multi: on, ..m }
    } else if cmd == VIRTIO_NET_CTRL_RX_NOUNI {
        CtrlRxMode { no_uni: on, ..m }
    } else if cmd == VIRTIO_NET_CTRL_RX_NOBCAST {
        CtrlRxMode { no_bcast: on, ..m }
    } else {
        m
    }
}

/// Whether a receive-mode command byte is one the device knows.
pub open spec fn rx_mode_cmd_known(cmd: u8) -> bool {
    cmd == VIRTIO_NET_CTRL_RX_PROMISC || cmd == VIRTIO_NET_CTRL_RX_ALLMULTI || cmd
        == VIRTIO_NET_CTRL_RX_ALLUNI || cmd == VIRTIO_NET_CTRL_RX_NOMULTI || cmd
        == VIRTIO_NET_CTRL_RX_NOUNI || cmd == VIRTIO_NET_CTRL_RX_NOBCAST
}

/// Result of parsing the unicast half of a TABLE_SET payload: the table,
/// its overflow flag and the cursor where the multicast half starts; or
/// nothing when the payload is malformed.
pub open spec fn spec_uni_part(p: Seq<u8>) -> Option<(Seq<Seq<u8>>, bool, int)> {
    if p.len() < 4 {
        None
    } else {
        let n = spec_u32_from_le_bytes(p.subrange(0, 4)) as int;
        if n == 0 {
            Some((Seq::empty(), false, 4))
        } else if n * 6 > p.len() - 4 {
            None
        } else if n > CTRL_MAC_TABLE_LEN {
            Some((Seq::empty(), true, 4 + 6 * n))
        } else {
            Some((Seq::new(n as nat, |i: int| p.subrange(4 + 6 * i, 10 + 6 * i)), false, 4 + 6 * n))
        }
    }
}

/// Result of parsing the multicast half of a TABLE_SET payload starting at
/// cursor `c`, with `uni_len` entries already taken by the unicast table.
pub open spec fn spec_multi_part(p: Seq<u8>, c: int, uni_len: int) -> Option<(Seq<Seq<u8>>, bool)> {
    if p.len() < c + 4 {
        None
    } else {
        let n = spec_u32_from_le_bytes(p.subrange(c, c + 4)) as int;
        if n == 0 {
            Some((Seq::empty(), false))
        } else if n * 6 > p.len() - c - 4 {
            None
        } else if n > CTRL_MAC_TABLE_LEN - uni_len {
            Some((Seq::empty(), true))
        } else {
            Some((Seq::new(n as nat, |i: int| p.subrange(c + 4 + 6 * i, c + 10 + 6 * i)), false))
        }
    }
}

/// Receive modes and ack after one receive-mode command with payload `p`.
pub open spec fn spec_rx_mode_step(m: CtrlRxMode, cmd: u8, p: Seq<u8>) -> (CtrlRxMode, u8) {
    if p.len() < 1 {
        (m, VIRTIO_NET_ERR)
    } else if p[0] != 0 && p[0] != 1 {
        (m, VIRTIO_NET_ERR)
    } else {
        (
            rx_mode_after(m, cmd, p[0] == 1),
            if rx_mode_cmd_known(cmd) {
                VIRTIO_NET_OK
            } else {
                VIRTIO_NET_ERR
            },
        )
    }
}

/// VLAN map and ack after one VLAN command with payload `p`.
pub open spec fn spec_vlan_step(m: Map<u16, u32>, cmd: u8, p: Seq<u8>) -> (Map<u16, u32>, u8) {
    if p.len() < 2 {
        (m, VIRTIO_NET_ERR)
    } else {
        let vid = spec_u16_from_le_bytes(p.subrange(0, 2));
        let key = (vid / 32) as u16;
        let bit = 1u32 << ((vid % 32) as u32);
        if vid >= CTRL_MAX_VLAN {
            (m, VIRTIO_NET_ERR)
        } else if cmd == VIRTIO_NET_CTRL_VLAN_ADD {
            (m.insert(key, vlan_value(m, key) | bit), VIRTIO_NET_OK)
        } else if cmd == VIRTIO_NET_CTRL_VLAN_DEL {
            (
                if m.contains_key(key) {
                    m.insert(key, m[key] & !bit)
                } else {
                    m
                },
                VIRTIO_NET_OK,
            )
        } else {
            (m, VIRTIO_NET_ERR)
        }
    }
}

/// MAC-table views and ack after one TABLE_SET command: on a malformed
/// payload nothing changes and the command is NAKed; otherwise both tables
/// are replaced (a half that does not fit leaves its table empty with the
/// overflow flag set) and the command is acked.
pub open spec fn spec_mac_table_step(
    uni0: Seq<Seq<u8>>,
    uni_of0: bool,
    multi0: Seq<Seq<u8>>,
    multi_of0: bool,
    p: Seq<u8>,
) -> (Seq<Seq<u8>>, bool, Seq<Seq<u8>>, bool, u8) {
    match spec_uni_part(p) {
        None => (uni0, uni_of0, multi0, multi_of0, VIRTIO_NET_ERR),
        Some((uni, uni_of, c)) => match spec_multi_part(p, c, uni.len() as int) {
            None => (uni0, uni_of0, multi0, multi_of0, VIRTIO_NET_ERR),
            Some((multi, multi_of)) => (uni, uni_of, multi, multi_of, VIRTIO_NET_OK),
        },
    }
}

/// Device MAC and ack after one ADDR_SET command with payload `p`.
pub open spec fn spec_mac_addr_step(mac0: Seq<u8>, p: Seq<u8>) -> (Seq<u8>, u8) {
    if p.len() < 6 {
        (mac0, VIRTIO_NET_ERR)
    } else {
        (p.subrange(0, 6), VIRTIO_NET_OK)
    }
}

/// Ack of one multiqueue command: only PAIRS_SET with a pair count inside
/// `[1, 32]` — or with no pair count handed over at all — is acked.
pub open spec fn spec_mq_ack(cmd: u8, mq_pairs: Option<u16>) -> u8 {
    let bad_cmd = cmd as u16 != VIRTIO_NET_CTRL_MQ_VQ_PAIRS_SET;
    let bad_pairs = match mq_pairs {
        Some(p) => p < VIRTIO_NET_CTRL_MQ_VQ_PAIRS_MIN || p > VIRTIO_NET_CTRL_MQ_VQ_PAIRS_MAX,
        None => false,
    };
    if bad_cmd || bad_pairs {
        VIRTIO_NET_ERR
    } else {
        VIRTIO_NET_OK
    }
}

impl CtrlInfo {
    /// Fresh filter state: default receive modes, empty MAC tables, empty
    /// VLAN map.
    pub fn new() -> (r: Self)
        ensures
            r.rx_mode == (CtrlRxMode {
                promisc: true,
                all_multi: false,
                all_uni: false,
                no_multi: false,
                no_uni: false,
                no_bcast: false,
            }),
            r.mac_info.uni_mac_table@.len() == 0,
            !r.mac_info.uni_mac_of,
            r.mac_info.multi_mac_table@.len() == 0,
            !r.mac_info.multi_mac_of,
            r.vlan_map@ == Map::<u16, u32>::empty(),
            mac_info_wf(r.mac_info),
    {
        CtrlInfo {
            rx_mode: CtrlRxMode::default(),
            mac_info: CtrlMacInfo {
                uni_mac_table: Vec::new(),
                uni_mac_of: false,
                multi_mac_table: Vec::new(),
                multi_mac_of: false,
            },
            vlan_map: HashMap::new(),
        }
    }

    /// Handles one receive-mode command: one payload byte, 0 for off and 1
    /// for on; anything else — and any unknown command — is NAKed.
    pub fn handle_rx_mode(&mut self, cmd: u8, payload: &[u8]) -> (r: u8)
        ensures
            final(self).mac_info == old(self).mac_info,
            final(self).vlan_map == old(self).vlan_map,
            (final(self).rx_mode, r) == spec_rx_mode_step(old(self).rx_mode, cmd, payload@),
    {
        if payload.len() < 1 {
            return VIRTIO_NET_ERR;
        }
        let status = payload[0];
        if status != 0 && status != 1 {
            return VIRTIO_NET_ERR;
        }
        let on_off = status == 1;
        let mut ack = VIRTIO_NET_OK;
        if cmd == VIRTIO_NET_CTRL_RX_PROMISC {
            self.rx_mode.promisc = on_off;
        } else if cmd == VIRTIO_NET_CTRL_RX_ALLMULTI {
            self.rx_mode.all_multi = on_off;
        } else if cmd == VIRTIO_NET_CTRL_RX_ALLUNI {
            self.rx_mode.all_uni = on_off;
        } else if cmd == VIRTIO_NET_CTRL_RX_NOMULTI {
            self.rx_mode.no_multi = on_off;
        } else if cmd == VIRTIO_NET_CTRL_RX_NOUNI {
            self.rx_mode.no_uni = on_off;
        } else if cmd == VIRTIO_NET_CTRL_RX_NOBCAST {
            self.rx_mode.no_bcast = on_off;
        } else {
            ack = VIRTIO_NET_ERR;
        }
        ack
    }

    /// Handles one VLAN command: a 16-bit little-endian VLAN id, rejected
    /// when it is 4096 or more; ADD sets and DEL clears the id's bit.
    pub fn handle_vlan_table(&mut self, cmd: u8, payload: &[u8]) -> (r: u8)
        ensures
            final(self).mac_info == old(self).mac_info,
            final(self).rx_mode == old(self).rx_mode,
            (final(self).vlan_map@, r) == spec_vlan_step(old(self).vlan_map@, cmd, payload@),
    {
        if payload.len() < 2 {
            return VIRTIO_NET_ERR;
        }
        let vid = u16_from_le_bytes(slice_subrange(payload, 0, 2));
        if vid >= CTRL_MAX_VLAN {
            return VIRTIO_NET_ERR;
        }
        proof {
            assert(vid >> 5 == vid / 32 && (vid & 0x1f) == vid % 32 && (vid & 0x1f) < 32)
                by (bit_vector);
        }
        let key = vid >> 5;
        let bit: u32 = 1u32 << ((vid & 0x1f) as u32);
        if cmd == VIRTIO_NET_CTRL_VLAN_ADD {
            let cur = match self.vlan_map.get(&key) {
                Some(v) => *v,
                None => 0,
            };
            self.vlan_map.insert(key, cur | bit);
            VIRTIO_NET_OK
        } else if cmd == VIRTIO_NET_CTRL_VLAN_DEL {
            let cur = match self.vlan_map.get(&key) {
                Some(v) => Some(*v),
                None => None,
            };
            if let Some(v) = cur {
                self.vlan_map.insert(key, v & !bit);
            }
            VIRTIO_NET_OK
        } else {
            VIRTIO_NET_ERR
        }
    }

    /// Replaces both MAC tables from a TABLE_SET payload:
    /// `u32 n_uni | n_uni * 6 bytes | u32 n_multi | n_multi * 6 bytes`,
    /// counts little-endian.  A half whose entries do not fit in the
    /// combined 64-entry budget leaves that table empty with its overflow
    /// flag set; a malformed payload changes nothing and is NAKed.
    pub fn set_mac_table(&mut self, payload: &[u8]) -> (r: u8)
        ensures
            final(self).rx_mode == old(self).rx_mode,
            final(self).vlan_map == old(self).vlan_map,
            ({
                let (uni, uni_of, multi, multi_of, ack) = spec_mac_table_step(
                    macs_view(old(self).mac_info.uni_mac_table@),
                    old(self).mac_info.uni_mac_of,
                    macs_view(old(self).mac_info.multi_mac_table@),
                    old(self).mac_info.multi_mac_of,
                    payload@,
                );
                &&& macs_view(final(self).mac_info.uni_mac_table@) == uni
                &&& final(self).mac_info.uni_mac_of == uni_of
                &&& macs_view(final(self).mac_info.multi_mac_table@) == multi
                &&& final(self).mac_info.multi_mac_of == multi_of
                &&& r == ack
            }),
            r == VIRTIO_NET_ERR ==> final(self).mac_info == old(self).mac_info,
            r == VIRTIO_NET_OK ==> mac_info_wf(final(self).mac_info),
            mac_info_wf(old(self).mac_info) ==> mac_info_wf(final(self).mac_info),
    {
        if payload.len() < 4 {
            return VIRTIO_NET_ERR;
        }
        let n_uni = u32_from_le_bytes(slice_subrange(payload, 0, 4));
        let mut uni_table: Vec<MacAddress> = Vec::new();
        let mut uni_of = false;
        let mut cursor: usize = 4;
        if n_uni == 0 {
        } else if (n_uni as u64) * 6 > (payload.len() - 4) as u64 {
            return VIRTIO_NET_ERR;
        } else if n_uni as usize > CTRL_MAC_TABLE_LEN {
            uni_of = true;
            cursor = 4 + 6 * (n_uni as usize);
        } else {
            uni_table = parse_macs(payload, 4, n_uni as usize);
            cursor = 4 + 6 * (n_uni as usize);
        }
        proof {
            let up = spec_uni_part(payload@)->Some_0;
            assert(macs_view(uni_table@) =~= up.0);
            assert(cursor as int == up.2);
        }
        if payload.len() - cursor < 4 {
            return VIRTIO_NET_ERR;
        }
        let n_multi = u32_from_le_bytes(slice_subrange(payload, cursor, cursor + 4));
        let mut multi_table: Vec<MacAddress> = Vec::new();
        let mut multi_of = false;
        if n_multi == 0 {
        } else if (n_multi as u64) * 6 > (payload.len() - cursor - 4) as u64 {
            return VIRTIO_NET_ERR;
        } else if n_multi as usize > CTRL_MAC_TABLE_LEN - uni_table.len() {
            multi_of = true;
        } else {
            multi_table = parse_macs(payload, cursor + 4, n_multi as usize);
        }
        proof {
            let mp = spec_multi_part(payload@, cursor as int, uni_table@.len() as int)->Some_0;
            assert(macs_view(multi_table@) =~= mp.0);
        }
        self.mac_info = CtrlMacInfo {
            uni_mac_table: uni_table,
            uni_mac_of: uni_of,
            multi_mac_table: multi_table,
            multi_mac_of: multi_of,
        };
        VIRTIO_NET_OK
    }

    /// Handles one MAC command: ADDR_SET overwrites the device MAC with
    /// the six payload bytes, TABLE_SET replaces the tables; anything else
    /// is NAKed.
    pub fn handle_mac(&mut self, state: &mut VirtioNetState, cmd: u8, payload: &[u8]) -> (r: u8)
        ensures
            final(self).rx_mode == old(self).rx_mode,
            final(self).vlan_map == old(self).vlan_map,
            mac_info_wf(old(self).mac_info) ==> mac_info_wf(final(self).mac_info),
            final(state).device_features == old(state).device_features,
            final(state).driver_features == old(state).driver_features,
            final(state).broken == old(state).broken,
            final(state).config_space.status == old(state).config_space.status,
            final(state).config_space.max_virtqueue_pairs == old(
                state,
            ).config_space.max_virtqueue_pairs,
            final(state).config_space.mtu == old(state).config_space.mtu,
            final(state).config_space.speed == old(state).config_space.speed,
            final(state).config_space.duplex == old(state).config_space.duplex,
            cmd == VIRTIO_NET_CTRL_MAC_ADDR_SET ==> {
                &&& final(self).mac_info == old(self).mac_info
                &&& (final(state).config_space.mac@, r) == spec_mac_addr_step(
                    old(state).config_space.mac@,
                    payload@,
                )
            },
            cmd == VIRTIO_NET_CTRL_MAC_TABLE_SET ==> {
                let (uni, uni_of, multi, multi_of, ack) = spec_mac_table_step(
                    macs_view(old(self).mac_info.uni_mac_table@),
                    old(self).mac_info.uni_mac_of,
                    macs_view(old(self).mac_info.multi_mac_table@),
                    old(self).mac_info.multi_mac_of,
                    payload@,
                );
                &&& final(state).config_space.mac == old(state).config_space.mac
                &&& macs_view(final(self).mac_info.uni_mac_table@) == uni
                &&& final(self).mac_info.uni_mac_of == uni_of
                &&& macs_view(final(self).mac_info.multi_mac_table@) == multi
                &&& final(self).mac_info.multi_mac_of == multi_of
                &&& r == ack
            },
            cmd != VIRTIO_NET_CTRL_MAC_ADDR_SET && cmd != VIRTIO_NET_CTRL_MAC_TABLE_SET ==> {
                &&& r == VIRTIO_NET_ERR
                &&& final(self).mac_info == old(self).mac_info
                &&& final(state).config_space.mac == old(state).config_space.mac
            },
    {
        if cmd == VIRTIO_NET_CTRL_MAC_ADDR_SET {
            if payload.len() < 6 {
                return VIRTIO_NET_ERR;
            }
            let mac: [u8; 6] = [
                payload[0],
                payload[1],
                payload[2],
                payload[3],
                payload[4],
                payload[5],
            ];
            proof {
                assert(mac@ =~= payload@.subrange(0, 6));
            }
            state.config_space.mac = mac;
            VIRTIO_NET_OK
        } else if cmd == VIRTIO_NET_CTRL_MAC_TABLE_SET {
            self.set_mac_table(payload)
        } else {
            VIRTIO_NET_ERR
        }
    }

    /// Classifies one inbound Ethernet frame: `true` means drop.  The
    /// frame must carry at least its 14-byte header, and 16 bytes when it
    /// is 802.1Q-tagged, so that the VLAN id can be read.
    pub fn filter_packets(&self, state: &VirtioNetState, buf: &[u8]) -> (r: bool)
        requires
            buf@.len() >= 14,
            frame_vlan_tagged(buf@) ==> buf@.len() >= 16,
        ensures
            r == spec_filter_packets(*self, state.config_space.mac@, buf@),
    {
        if self.rx_mode.promisc {
            return false;
        }
        if buf[12] == 0x81 && buf[13] == 0x00 {
            let vid: u16 = (((buf[14] as u16) << 8) | (buf[15] as u16)) & 0x0fff;
            proof {
                assert(vid >> 5 == vid / 32 && (vid & 0x1f) == vid % 32 && (vid & 0x1f) < 32)
                    by (bit_vector);
            }
            let key = vid >> 5;
            let value = match self.vlan_map.get(&key) {
                Some(v) => *v,
                None => 0,
            };
            let bit: u32 = 1u32 << ((vid & 0x1f) as u32);
            proof {
                assert(forall|v: u32, s: u32|
                    s < 32 ==> ((v & (1u32 << s) == 0) == !((v >> s) & 1 == 1))) by (bit_vector);
            }
            if value & bit == 0 {
                return true;
            }
        }
        let first: u8 = buf[0];
        proof {
            assert((first & 0x01 > 0) == (first & 1 == 1)) by (bit_vector);
        }
        if first & 0x01 > 0 {
            if is_broadcast(buf) {
                return self.rx_mode.no_bcast;
            }
            if self.rx_mode.no_multi {
                return true;
            }
            if self.rx_mode.all_multi || self.mac_info.multi_mac_of {
                return false;
            }
            !in_mac_table(&self.mac_info.multi_mac_table, buf)
        } else {
            if self.rx_mode.no_uni {
                return true;
            }
            if self.rx_mode.all_uni || self.mac_info.uni_mac_of || mac_matches(
                &state.config_space.mac,
                buf,
            ) {
                return false;
            }
            !in_mac_table(&self.mac_info.uni_mac_table, buf)
        }
    }

    /// Dispatches one control request by class: receive mode, MAC, VLAN
    /// or multiqueue; an unknown class is NAKed.  `payload` holds the
    /// bytes following the two-byte header; `mq_pairs` is the pair count
    /// read for a multiqueue command, where one was reachable.
    pub fn handle_ctrl_request(
        &mut self,
        state: &mut VirtioNetState,
        class: u8,
        cmd: u8,
        payload: &[u8],
        mq_pairs: Option<u16>,
    ) -> (r: u8)
        ensures
            mac_info_wf(old(self).mac_info) ==> mac_info_wf(final(self).mac_info),
            final(state).device_features == old(state).device_features,
            final(state).driver_features == old(state).driver_features,
            final(state).broken == old(state).broken,
            class == VIRTIO_NET_CTRL_RX ==> {
                &&& (final(self).rx_mode, r) == spec_rx_mode_step(old(self).rx_mode, cmd, payload@)
                &&& final(self).mac_info == old(self).mac_info
                &&& final(self).vlan_map == old(self).vlan_map
                &&& *final(state) == *old(state)
            },
            class == VIRTIO_NET_CTRL_MAC && cmd == VIRTIO_NET_CTRL_MAC_ADDR_SET ==> {
                &&& final(self).mac_info == old(self).mac_info
                &&& final(self).rx_mode == old(self).rx_mode
                &&& final(self).vlan_map == old(self).vlan_map
                &&& (final(state).config_space.mac@, r) == spec_mac_addr_step(
                    old(state).config_space.mac@,
                    payload@,
                )
            },
            class == VIRTIO_NET_CTRL_MAC && cmd == VIRTIO_NET_CTRL_MAC_TABLE_SET ==> {
                let (uni, uni_of, multi, multi_of, ack) = spec_mac_table_step(
                    macs_view(old(self).mac_info.uni_mac_table@),
                    old(self).mac_info.uni_mac_of,
                    macs_view(old(self).mac_info.multi_mac_table@),
                    old(self).mac_info.multi_mac_of,
                    payload@,
                );
                &&& *final(state) == *old(state)
                &&& final(self).rx_mode == old(self).rx_mode
                &&& final(self).vlan_map == old(self).vlan_map
                &&& macs_view(final(self).mac_info.uni_mac_table@) == uni
                &&& final(self).mac_info.uni_mac_of == uni_of
                &&& macs_view(final(self).mac_info.multi_mac_table@) == multi
                &&& final(self).mac_info.multi_mac_of == multi_of
                &&& r == ack
            },
            class == VIRTIO_NET_CTRL_VLAN ==> {
                &&& (final(self).vlan_map@, r) == spec_vlan_step(
                    old(self).vlan_map@,
                    cmd,
                    payload@,
                )
                &&& final(self).mac_info == old(self).mac_info
                &&& final(self).rx_mode == old(self).rx_mode
                &&& *final(state) == *old(state)
            },
            class == VIRTIO_NET_CTRL_MQ ==> {
                &&& r == spec_mq_ack(cmd, mq_pairs)
                &&& final(self).mac_info == old(self).mac_info
                &&& final(self).rx_mode == old(self).rx_mode
                &&& final(self).vlan_map == old(self).vlan_map
                &&& *final(state) == *old(state)
            },
            class != VIRTIO_NET_CTRL_RX && class != VIRTIO_NET_CTRL_MAC && class
                != VIRTIO_NET_CTRL_VLAN && class != VIRTIO_NET_CTRL_MQ ==> {
                &&& r == VIRTIO_NET_ERR
                &&& final(self).mac_info == old(self).mac_info
                &&& final(self).rx_mode == old(self).rx_mode
                &&& final(self).vlan_map == old(self).vlan_map
                &&& *final(state) == *old(state)
            },
    {
        if class == VIRTIO_NET_CTRL_RX {
            self.handle_rx_mode(cmd, payload)
        } else if class == VIRTIO_NET_CTRL_MAC {
            self.handle_mac(state, cmd, payload)
        } else if class == VIRTIO_NET_CTRL_VLAN {
            self.handle_vlan_table(cmd, payload)
        } else if class == VIRTIO_NET_CTRL_MQ {
            let mut ack = VIRTIO_NET_OK;
            if cmd as u16 != VIRTIO_NET_CTRL_MQ_VQ_PAIRS_SET {
                ack = VIRTIO_NET_ERR;
            }
            if let Some(pairs) = mq_pairs {
                if pairs < VIRTIO_NET_CTRL_MQ_VQ_PAIRS_MIN || pairs > VIRTIO_NET_CTRL_MQ_VQ_PAIRS_MAX
                {
                    ack = VIRTIO_NET_ERR;
                }
            }
            ack
        } else {
            VIRTIO_NET_ERR
        }
    }
}

/// Whether the first six bytes of `buf` equal `addr`.
fn mac_matches(addr: &[u8; 6], buf: &[u8]) -> (r: bool)
    requires
        buf@.len() >= 6,
    ensures
        r == (addr@ == buf@.subrange(0, 6)),
{
    let r = addr[0] == buf[0] && addr[1] == buf[1] && addr[2] == buf[2] && addr[3] == buf[3]
        && addr[4] == buf[4] && addr[5] == buf[5];
    proof {
        if r {
            assert(addr@ =~= buf@.subrange(0, 6));
        } else {
            if addr@ == buf@.subrange(0, 6) {
                assert(forall|i: int| 0 <= i < 6 ==> addr@[i] == buf@.subrange(0, 6)[i]);
            }
        }
    }
    r
}

/// Whether the first six bytes of `buf` are the broadcast address.
fn is_broadcast(buf: &[u8]) -> (r: bool)
    requires
        buf@.len() >= 6,
    ensures
        r == (buf@.subrange(0, 6) == bcast_mac()),
{
    let r = buf[0] == 0xff && buf[1] == 0xff && buf[2] == 0xff && buf[3] == 0xff && buf[4] == 0xff
        && buf[5] == 0xff;
    proof {
        if r {
            assert(buf@.subrange(0, 6) =~= bcast_mac());
        } else {
            if buf@.subrange(0, 6) == bcast_mac() {
                assert(forall|i: int| 0 <= i < 6 ==> buf@.subrange(0, 6)[i] == bcast_mac()[i]);
            }
        }
    }
    r
}

/// Whether the destination address opening `buf` is in the table.
fn in_mac_table(table: &Vec<MacAddress>, buf: &[u8]) -> (r: bool)
    requires
        buf@.len() >= 6,
    ensures
        r == mac_in_table(table@, buf@.subrange(0, 6)),
{
    let mut i: usize = 0;
    while i < table.len()
        invariant
            i <= table@.len(),
            buf@.len() >= 6,
            forall|j: int| 0 <= j < i ==> table@[j].address@ != buf@.subrange(0, 6),
        decreases table@.len() - i as int,
    {
        if mac_matches(&table[i].address, buf) {
            return true;
        }
        i += 1;
    }
    false
}

/// Reads `n` six-byte addresses out of `payload` starting at `base`.
fn parse_macs(payload: &[u8], base: usize, n: usize) -> (r: Vec<MacAddress>)
    requires
        base + 6 * n <= payload@.len(),
    ensures
        r@.len() == n,
        forall|i: int|
            0 <= i < n ==> r@[i].address@ == payload@.subrange(
                base + 6 * i,
                base + 6 * i + 6,
            ),
{
    let plen: usize = payload.len();
    let mut out: Vec<MacAddress> = Vec::new();
    let mut i: usize = 0;
    while i < n
        invariant
            base + 6 * n <= payload@.len(),
            payload@.len() == plen,
            i <= n,
            out@.len() == i,
            forall|j: int|
                0 <= j < i ==> out@[j].address@ == payload@.subrange(
                    base + 6 * j,
                    base + 6 * j + 6,
                ),
        decreases n - i,
    {
        let o = base + 6 * i;
        let mac = MacAddress {
            address: [
                payload[o],
                payload[o + 1],
                payload[o + 2],
                payload[o + 3],
                payload[o + 4],
                payload[o + 5],
            ],
        };
        proof {
            assert(mac.address@ =~= payload@.subrange(o as int, o as int + 6));
        }
        out.push(mac);
        i += 1;
    }
    out
}


/// Adding a VLAN id makes exactly that id accepted and removing it makes
/// exactly that id rejected: every other id keeps its acceptance.  `p`
/// is the command payload carrying `vid` little-endian.
pub proof fn lemma_vlan_set_membership(m: Map<u16, u32>, vid: u16, p: Seq<u8>, other: u16)
    requires
        vid < CTRL_MAX_VLAN,
        other < CTRL_MAX_VLAN,
        p.len() >= 2,
        spec_u16_from_le_bytes(p.subrange(0, 2)) == vid,
    ensures
        vlan_accepts(spec_vlan_step(m, VIRTIO_NET_CTRL_VLAN_ADD, p).0, vid),
        !vlan_accepts(spec_vlan_step(m, VIRTIO_NET_CTRL_VLAN_DEL, p).0, vid),
        other != vid ==> vlan_accepts(spec_vlan_step(m, VIRTIO_NET_CTRL_VLAN_ADD, p).0, other)
            == vlan_accepts(m, other),
        other != vid ==> vlan_accepts(spec_vlan_step(m, VIRTIO_NET_CTRL_VLAN_DEL, p).0, other)
            == vlan_accepts(m, other),
{
    let key = (vid / 32) as u16;
    let s = (vid % 32) as u32;
    let bit = 1u32 << s;
    let key2 = (other / 32) as u16;
    let s2 = (other % 32) as u32;
    let v = vlan_value(m, key);
    assert(s < 32 && ((v | (1u32 << s)) >> s) & 1 == 1) by (bit_vector)
        requires
            s == (vid % 32) as u32,
    ;
    assert(((v & !(1u32 << s)) >> s) & 1 == 0) by (bit_vector)
        requires
            s == (vid % 32) as u32,
    ;
    assert((0u32 >> s) & 1 == 0) by (bit_vector);
    if other != vid {
        vstd::arithmetic::div_mod::lemma_fundamental_div_mod(vid as int, 32);
        vstd::arithmetic::div_mod::lemma_fundamental_div_mod(other as int, 32);
        if key2 == key {
            assert(s2 != s);
            let v2 = vlan_value(m, key2);
            assert(s < 32 && s2 < 32 && s2 != s ==> ((v2 | (1u32 << s)) >> s2) & 1 == (v2 >> s2)
                & 1) by (bit_vector);
            assert(s < 32 && s2 < 32 && s2 != s ==> ((v2 & !(1u32 << s)) >> s2) & 1 == (v2 >> s2)
                & 1) by (bit_vector);
            assert(s2 < 32) by (bit_vector)
                requires
                    s2 == (other % 32) as u32,
            ;
            assert(s < 32) by (bit_vector)
                requires
                    s == (vid % 32) as u32,
            ;
        }
    }
}

/// While a table's overflow flag stands, its whole traffic class is
/// accepted: an overflowed unicast table accepts every unicast frame the
/// VLAN filter lets through, whatever the table holds.
pub proof fn lemma_overflow_accepts_unicast(ctrl: CtrlInfo, device_mac: Seq<u8>, buf: Seq<u8>)
    requires
        ctrl.mac_info.uni_mac_of,
        !ctrl.rx_mode.no_uni,
        buf[0] & 1 == 0,
        frame_vlan_tagged(buf) ==> vlan_accepts(ctrl.vlan_map@, frame_vid(buf)),
    ensures
        !spec_filter_packets(ctrl, device_mac, buf),
{
    let b0 = buf[0];
    assert(!(b0 & 1 == 1)) by (bit_vector)
        requires
            b0 & 1 == 0,
    ;
}

/// While a table's overflow flag stands, its whole traffic class is
/// accepted: an overflowed multicast table accepts every non-broadcast
/// multicast frame the VLAN filter lets through.
pub proof fn lemma_overflow_accepts_multicast(ctrl: CtrlInfo, device_mac: Seq<u8>, buf: Seq<u8>)
    requires
        ctrl.mac_info.multi_mac_of,
        !ctrl.rx_mode.no_multi,
        buf[0] & 1 == 1,
        buf.subrange(0, 6) != bcast_mac(),
        frame_vlan_tagged(buf) ==> vlan_accepts(ctrl.vlan_map@, frame_vid(buf)),
    ensures
        !spec_filter_packets(ctrl, device_mac, buf),
{
}


} // verus!
