//! Tests of the RX filter, the control-queue handlers and the datapath
//! decisions.

use vmm_core::config::VirtioNetState;
use vmm_core::datapath::{
    ctrl_chain_valid, ReadResult, RxEvent, RxLoop, RxStep, TxEvent, TxLoop, TxStep, WriteResult,
};
use vmm_core::filter::{
    CtrlInfo, VIRTIO_NET_CTRL_MAC, VIRTIO_NET_CTRL_MAC_ADDR_SET, VIRTIO_NET_CTRL_MAC_TABLE_SET,
    VIRTIO_NET_CTRL_MQ, VIRTIO_NET_CTRL_RX, VIRTIO_NET_CTRL_RX_ALLMULTI, VIRTIO_NET_CTRL_RX_ALLUNI,
    VIRTIO_NET_CTRL_RX_NOBCAST, VIRTIO_NET_CTRL_RX_NOMULTI, VIRTIO_NET_CTRL_RX_NOUNI,
    VIRTIO_NET_CTRL_RX_PROMISC, VIRTIO_NET_CTRL_VLAN, VIRTIO_NET_CTRL_VLAN_ADD,
    VIRTIO_NET_CTRL_VLAN_DEL, VIRTIO_NET_ERR, VIRTIO_NET_OK,
};

const DEVICE_MAC: [u8; 6] = [0x52, 0x54, 0x00, 0x12, 0x34, 0x56];

fn device_state() -> VirtioNetState {
    let mut state = VirtioNetState::default();
    state.config_space.mac = DEVICE_MAC;
    state
}

/// Filter state with promiscuous mode switched off.
fn ctrl_not_promisc() -> CtrlInfo {
    let mut ctrl = CtrlInfo::new();
    assert_eq!(
        ctrl.handle_rx_mode(VIRTIO_NET_CTRL_RX_PROMISC, &[0]),
        VIRTIO_NET_OK
    );
    ctrl
}

/// An untagged frame to `dst` (Ethertype 0x0800).
fn frame_to(dst: [u8; 6]) -> Vec<u8> {
    let mut f = Vec::new();
    f.extend_from_slice(&dst);
    f.extend_from_slice(&[0x11; 6]);
    f.extend_from_slice(&[0x08, 0x00]);
    f
}

/// An 802.1Q-tagged frame to `dst` with the given VLAN id.
fn tagged_frame_to(dst: [u8; 6], vid: u16) -> Vec<u8> {
    let mut f = Vec::new();
    f.extend_from_slice(&dst);
    f.extend_from_slice(&[0x11; 6]);
    f.extend_from_slice(&[0x81, 0x00]);
    f.extend_from_slice(&vid.to_be_bytes());
    f
}

#[test]
fn test_promiscuous_accepts_everything() {
    let ctrl = CtrlInfo::new();
    let state = device_state();
    assert!(!ctrl.filter_packets(&state, &frame_to([9; 6])));
    assert!(!ctrl.filter_packets(&state, &frame_to([0xff; 6])));
}

#[test]
fn test_rx_mode_value_two_naks() {
    let mut ctrl = CtrlInfo::new();
    assert_eq!(
        ctrl.handle_rx_mode(VIRTIO_NET_CTRL_RX_ALLUNI, &[2]),
        VIRTIO_NET_ERR
    );
    assert!(ctrl.rx_mode.promisc);
    assert!(!ctrl.rx_mode.all_uni);
}

#[test]
fn test_rx_mode_unknown_command() {
    let mut ctrl = CtrlInfo::new();
    assert_eq!(ctrl.handle_rx_mode(17, &[1]), VIRTIO_NET_ERR);
    assert_eq!(ctrl.handle_rx_mode(VIRTIO_NET_CTRL_RX_NOMULTI, &[]), VIRTIO_NET_ERR);
}

#[test]
fn test_rx_mode_bits() {
    let mut ctrl = CtrlInfo::new();
    assert_eq!(ctrl.handle_rx_mode(VIRTIO_NET_CTRL_RX_ALLMULTI, &[1]), VIRTIO_NET_OK);
    assert_eq!(ctrl.handle_rx_mode(VIRTIO_NET_CTRL_RX_NOUNI, &[1]), VIRTIO_NET_OK);
    assert!(ctrl.rx_mode.all_multi);
    assert!(ctrl.rx_mode.no_uni);
    assert_eq!(ctrl.handle_rx_mode(VIRTIO_NET_CTRL_RX_ALLMULTI, &[0]), VIRTIO_NET_OK);
    assert!(!ctrl.rx_mode.all_multi);
}

#[test]
fn test_broadcast_drop() {
    let mut ctrl = ctrl_not_promisc();
    let state = device_state();
    assert_eq!(
        ctrl.handle_rx_mode(VIRTIO_NET_CTRL_RX_NOBCAST, &[1]),
        VIRTIO_NET_OK
    );
    assert!(ctrl.filter_packets(&state, &frame_to([0xff; 6])));
    assert_eq!(
        ctrl.handle_rx_mode(VIRTIO_NET_CTRL_RX_NOBCAST, &[0]),
        VIRTIO_NET_OK
    );
    assert!(!ctrl.filter_packets(&state, &frame_to([0xff; 6])));
}

#[test]
fn test_unicast_device_mac_accepted() {
    let ctrl = ctrl_not_promisc();
    let state = device_state();
    assert!(!ctrl.filter_packets(&state, &frame_to(DEVICE_MAC)));
    // Another unicast address is not in the (empty) table: dropped.
    assert!(ctrl.filter_packets(&state, &frame_to([2, 4, 6, 8, 10, 12])));
}

#[test]
fn test_no_uni_drops_even_device_mac() {
    let mut ctrl = ctrl_not_promisc();
    let state = device_state();
    assert_eq!(ctrl.handle_rx_mode(VIRTIO_NET_CTRL_RX_NOUNI, &[1]), VIRTIO_NET_OK);
    assert!(ctrl.filter_packets(&state, &frame_to(DEVICE_MAC)));
}

#[test]
fn test_no_multi_drops_multicast() {
    let mut ctrl = ctrl_not_promisc();
    let state = device_state();
    let multi = [0x01, 0x00, 0x5e, 1, 2, 3];
    assert_eq!(ctrl.handle_rx_mode(VIRTIO_NET_CTRL_RX_NOMULTI, &[1]), VIRTIO_NET_OK);
    assert!(ctrl.filter_packets(&state, &frame_to(multi)));
    assert_eq!(ctrl.handle_rx_mode(VIRTIO_NET_CTRL_RX_NOMULTI, &[0]), VIRTIO_NET_OK);
    assert_eq!(ctrl.handle_rx_mode(VIRTIO_NET_CTRL_RX_ALLMULTI, &[1]), VIRTIO_NET_OK);
    assert!(!ctrl.filter_packets(&state, &frame_to(multi)));
}

fn table_set_payload(uni: &[[u8; 6]], multi: &[[u8; 6]]) -> Vec<u8> {
    let mut p = Vec::new();
    p.extend_from_slice(&(uni.len() as u32).to_le_bytes());
    for m in uni {
        p.extend_from_slice(m);
    }
    p.extend_from_slice(&(multi.len() as u32).to_le_bytes());
    for m in multi {
        p.extend_from_slice(m);
    }
    p
}

#[test]
fn test_mac_table_set_and_filter() {
    let mut ctrl = ctrl_not_promisc();
    let mut state = device_state();
    let uni = [[2, 2, 2, 2, 2, 2], [4, 4, 4, 4, 4, 4]];
    let multi = [[1, 3, 5, 7, 9, 11]];
    let payload = table_set_payload(&uni, &multi);
    assert_eq!(
        ctrl.handle_mac(&mut state, VIRTIO_NET_CTRL_MAC_TABLE_SET, &payload),
        VIRTIO_NET_OK
    );
    assert_eq!(ctrl.mac_info.uni_mac_table.len(), 2);
    assert_eq!(ctrl.mac_info.multi_mac_table.len(), 1);
    assert!(!ctrl.mac_info.uni_mac_of);
    assert!(!ctrl.mac_info.multi_mac_of);

    assert!(!ctrl.filter_packets(&state, &frame_to([2, 2, 2, 2, 2, 2])));
    assert!(ctrl.filter_packets(&state, &frame_to([3, 2, 2, 2, 2, 2])));
    assert!(!ctrl.filter_packets(&state, &frame_to([1, 3, 5, 7, 9, 11])));
    assert!(ctrl.filter_packets(&state, &frame_to([1, 3, 5, 7, 9, 13])));
}

#[test]
fn test_mac_table_overflow() {
    let mut ctrl = ctrl_not_promisc();
    let mut state = device_state();
    let uni: Vec<[u8; 6]> = (0..65u8).map(|i| [i, 0, 0, 0, 0, 2]).collect();
    let payload = table_set_payload(&uni, &[]);
    assert_eq!(
        ctrl.handle_mac(&mut state, VIRTIO_NET_CTRL_MAC_TABLE_SET, &payload),
        VIRTIO_NET_OK
    );
    assert!(ctrl.mac_info.uni_mac_of);
    assert_eq!(ctrl.mac_info.uni_mac_table.len(), 0);
    // All unicast is accepted while the table is overflowed.
    assert!(!ctrl.filter_packets(&state, &frame_to([2, 4, 6, 8, 10, 12])));
}

#[test]
fn test_mac_table_combined_cap() {
    let mut ctrl = ctrl_not_promisc();
    let mut state = device_state();
    // 40 unicast entries fit; 40 multicast entries exceed 64 combined.
    let uni: Vec<[u8; 6]> = (0..40u8).map(|i| [i, 0, 0, 0, 0, 2]).collect();
    let multi: Vec<[u8; 6]> = (0..40u8).map(|i| [1, i, 0, 0, 0, 3]).collect();
    let payload = table_set_payload(&uni, &multi);
    assert_eq!(
        ctrl.handle_mac(&mut state, VIRTIO_NET_CTRL_MAC_TABLE_SET, &payload),
        VIRTIO_NET_OK
    );
    assert_eq!(ctrl.mac_info.uni_mac_table.len(), 40);
    assert!(!ctrl.mac_info.uni_mac_of);
    assert_eq!(ctrl.mac_info.multi_mac_table.len(), 0);
    assert!(ctrl.mac_info.multi_mac_of);
    assert!(ctrl.mac_info.uni_mac_table.len() + ctrl.mac_info.multi_mac_table.len() <= 64);
}

#[test]
fn test_mac_table_malformed() {
    let mut ctrl = ctrl_not_promisc();
    let mut state = device_state();
    // Claims 4 entries but carries none.
    let payload = 4u32.to_le_bytes().to_vec();
    assert_eq!(
        ctrl.handle_mac(&mut state, VIRTIO_NET_CTRL_MAC_TABLE_SET, &payload),
        VIRTIO_NET_ERR
    );
    assert_eq!(ctrl.mac_info.uni_mac_table.len(), 0);
}

#[test]
fn test_mac_addr_set() {
    let mut ctrl = CtrlInfo::new();
    let mut state = device_state();
    assert_eq!(
        ctrl.handle_mac(&mut state, VIRTIO_NET_CTRL_MAC_ADDR_SET, &[9, 8, 7, 6, 5, 4]),
        VIRTIO_NET_OK
    );
    assert_eq!(state.config_space.mac, [9, 8, 7, 6, 5, 4]);
    assert_eq!(
        ctrl.handle_mac(&mut state, VIRTIO_NET_CTRL_MAC_ADDR_SET, &[1, 2]),
        VIRTIO_NET_ERR
    );
    assert_eq!(state.config_space.mac, [9, 8, 7, 6, 5, 4]);
    assert_eq!(ctrl.handle_mac(&mut state, 9, &[]), VIRTIO_NET_ERR);
}

#[test]
fn test_vlan_boundaries() {
    let mut ctrl = CtrlInfo::new();
    assert_eq!(
        ctrl.handle_vlan_table(VIRTIO_NET_CTRL_VLAN_ADD, &4096u16.to_le_bytes()),
        VIRTIO_NET_ERR
    );
    assert_eq!(
        ctrl.handle_vlan_table(VIRTIO_NET_CTRL_VLAN_ADD, &4095u16.to_le_bytes()),
        VIRTIO_NET_OK
    );
    assert_eq!(ctrl.handle_vlan_table(VIRTIO_NET_CTRL_VLAN_ADD, &[1]), VIRTIO_NET_ERR);
    assert_eq!(ctrl.handle_vlan_table(7, &100u16.to_le_bytes()), VIRTIO_NET_ERR);
}

#[test]
fn test_vlan_add_del() {
    let mut ctrl = ctrl_not_promisc();
    let state = device_state();
    assert_eq!(
        ctrl.handle_vlan_table(VIRTIO_NET_CTRL_VLAN_ADD, &100u16.to_le_bytes()),
        VIRTIO_NET_OK
    );
    assert!(!ctrl.filter_packets(&state, &tagged_frame_to(DEVICE_MAC, 100)));
    assert!(ctrl.filter_packets(&state, &tagged_frame_to(DEVICE_MAC, 101)));
    assert_eq!(
        ctrl.handle_vlan_table(VIRTIO_NET_CTRL_VLAN_DEL, &100u16.to_le_bytes()),
        VIRTIO_NET_OK
    );
    assert!(ctrl.filter_packets(&state, &tagged_frame_to(DEVICE_MAC, 100)));
}

#[test]
fn test_ctrl_request_dispatch() {
    let mut ctrl = CtrlInfo::new();
    let mut state = device_state();
    // RX class.
    assert_eq!(
        ctrl.handle_ctrl_request(&mut state, VIRTIO_NET_CTRL_RX, VIRTIO_NET_CTRL_RX_PROMISC, &[0], None),
        VIRTIO_NET_OK
    );
    assert!(!ctrl.rx_mode.promisc);
    // VLAN class.
    assert_eq!(
        ctrl.handle_ctrl_request(
            &mut state,
            VIRTIO_NET_CTRL_VLAN,
            VIRTIO_NET_CTRL_VLAN_ADD,
            &7u16.to_le_bytes(),
            None,
        ),
        VIRTIO_NET_OK
    );
    // MAC class.
    assert_eq!(
        ctrl.handle_ctrl_request(
            &mut state,
            VIRTIO_NET_CTRL_MAC,
            VIRTIO_NET_CTRL_MAC_ADDR_SET,
            &[1, 2, 3, 4, 5, 6],
            None,
        ),
        VIRTIO_NET_OK
    );
    assert_eq!(state.config_space.mac, [1, 2, 3, 4, 5, 6]);
    // Unknown class.
    assert_eq!(ctrl.handle_ctrl_request(&mut state, 9, 0, &[], None), VIRTIO_NET_ERR);
}

#[test]
fn test_ctrl_request_mq() {
    let mut ctrl = CtrlInfo::new();
    let mut state = device_state();
    let mq = VIRTIO_NET_CTRL_MQ;
    assert_eq!(ctrl.handle_ctrl_request(&mut state, mq, 0, &[], Some(1)), VIRTIO_NET_OK);
    assert_eq!(ctrl.handle_ctrl_request(&mut state, mq, 0, &[], Some(32)), VIRTIO_NET_OK);
    assert_eq!(ctrl.handle_ctrl_request(&mut state, mq, 0, &[], Some(0)), VIRTIO_NET_ERR);
    assert_eq!(ctrl.handle_ctrl_request(&mut state, mq, 0, &[], Some(33)), VIRTIO_NET_ERR);
    assert_eq!(ctrl.handle_ctrl_request(&mut state, mq, 0, &[], None), VIRTIO_NET_OK);
    assert_eq!(ctrl.handle_ctrl_request(&mut state, mq, 1, &[], Some(2)), VIRTIO_NET_ERR);
}

#[test]
fn test_ctrl_chain_valid_bounds() {
    assert!(ctrl_chain_valid(1, 2));
    assert!(!ctrl_chain_valid(0, 2));
    assert!(!ctrl_chain_valid(1, 1));
}

#[test]
fn test_rx_loop_backpressure() {
    let mut rx = RxLoop::new(4);
    let ctrl = CtrlInfo::new();
    let state = device_state();
    rx.begin();
    assert_eq!(rx.step(&ctrl, &state, &RxEvent::QueueEmpty), RxStep::QueueFullStop);
    assert!(rx.queue_full);
    // The next TAP event parks the descriptor and stops listening.
    assert!(rx.park_tap());
    assert!(!rx.is_listening);
    assert!(!rx.queue_full);
    // A receive-queue event resumes it.
    assert!(rx.resume_tap(true));
    assert!(rx.is_listening);
    assert!(!rx.resume_tap(true));
}

#[test]
fn test_rx_loop_deliver_and_filter() {
    let mut rx = RxLoop::new(2);
    let ctrl = CtrlInfo::new();
    let state = device_state();
    rx.begin();
    let mut header = vec![0u8; 12];
    header.extend_from_slice(&frame_to([9; 6]));
    // Promiscuous: the frame is delivered.
    assert_eq!(
        rx.step(&ctrl, &state, &RxEvent::Read {
            result: ReadResult::Delivered { len: 64 },
            header: header.clone(),
        }),
        RxStep::Deliver { len: 64, yield_after: false }
    );
    // Second delivered packet exhausts the budget of 2.
    assert_eq!(
        rx.step(&ctrl, &state, &RxEvent::Read {
            result: ReadResult::Delivered { len: 64 },
            header: header.clone(),
        }),
        RxStep::Deliver { len: 64, yield_after: true }
    );
    rx.begin();
    assert_eq!(
        rx.step(&ctrl, &state, &RxEvent::Read {
            result: ReadResult::WouldBlock,
            header: Vec::new(),
        }),
        RxStep::PushBackStop
    );
    assert_eq!(
        rx.step(&ctrl, &state, &RxEvent::Read { result: ReadResult::Fatal, header: Vec::new() }),
        RxStep::PushBackFatalStop
    );
    assert_eq!(rx.step(&ctrl, &state, &RxEvent::NoTap), RxStep::Stop);
    assert_eq!(rx.step(&ctrl, &state, &RxEvent::PopEmpty), RxStep::Stop);
    assert_eq!(rx.step(&ctrl, &state, &RxEvent::NoWritable), RxStep::FailNoWritable);
}

#[test]
fn test_rx_loop_filtered_frame_pushed_back() {
    let mut rx = RxLoop::new(8);
    let ctrl = ctrl_not_promisc();
    let state = device_state();
    rx.begin();
    let mut header = vec![0u8; 12];
    header.extend_from_slice(&frame_to([2, 4, 6, 8, 10, 12]));
    assert_eq!(
        rx.step(&ctrl, &state, &RxEvent::Read {
            result: ReadResult::Delivered { len: 60 },
            header,
        }),
        RxStep::Filtered
    );
    assert_eq!(rx.rx_packets, 0);
}

#[test]
fn test_tx_loop_steps() {
    let mut tx = TxLoop::new(2);
    tx.begin();
    assert_eq!(tx.step(&TxEvent::PopEmpty), TxStep::Stop);
    assert_eq!(tx.step(&TxEvent::NoReadable), TxStep::FailNoReadable);
    assert_eq!(
        tx.step(&TxEvent::Frame { have_tap: true, write: WriteResult::WouldBlock }),
        TxStep::PushBackYieldStop
    );
    assert_eq!(
        tx.step(&TxEvent::Frame { have_tap: true, write: WriteResult::Written }),
        TxStep::Deliver { yield_after: false }
    );
    // A failed write still consumes the chain; the budget of 2 is now
    // exhausted.
    assert_eq!(
        tx.step(&TxEvent::Frame { have_tap: true, write: WriteResult::Failed }),
        TxStep::Deliver { yield_after: true }
    );
    tx.begin();
    // Without a TAP the chain is consumed with length 0 as well.
    assert_eq!(
        tx.step(&TxEvent::Frame { have_tap: false, write: WriteResult::WouldBlock }),
        TxStep::Deliver { yield_after: false }
    );
}
