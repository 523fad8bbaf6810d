//! Tests of the virtio-net device facade: realize, features, config
//! space, migration snapshot and the MAC allocator.

use vmm_core::config::{VirtioNetConfig, CONFIG_SPACE_SIZE, NET_STATE_SIZE};
use vmm_core::device::{
    activate_plan, build_device_config_space, check_mq, ActivatePlan, Net, NetConfig,
};
use vmm_core::errors::NetError;
use vmm_core::features::{
    get_tap_offload_flags, VIRTIO_F_VERSION_1, VIRTIO_NET_F_GUEST_CSUM, VIRTIO_NET_F_GUEST_TSO4,
    VIRTIO_NET_F_GUEST_UFO, VIRTIO_NET_F_HOST_UFO, VIRTIO_NET_F_MAC, VIRTIO_NET_F_MQ,
};
use vmm_core::macpool::MacPool;

#[test]
fn test_net_init() {
    let mut net = Net::default();
    assert_eq!(net.state.device_features, 0);
    assert_eq!(net.state.driver_features, 0);
    assert_eq!(net.net_cfg.mac.is_none(), true);

    // test net realize method
    let mut pool = MacPool::new();
    net.realize(&mut pool, None).unwrap();
    assert_eq!(net.device_type(), 1);
    assert_eq!(net.queue_num(), 3);
    assert_eq!(net.queue_size(), 256);

    // test read_config and write_config method
    let write_data: Vec<u8> = vec![7; 4];
    let origin_data = net.read_config(0x00, 4).unwrap();

    net.write_config(0x00, &write_data).unwrap();
    let random_data = net.read_config(0x00, 4).unwrap();
    assert_eq!(random_data, write_data);

    net.write_config(0x00, &origin_data).unwrap();

    // test boundary condition of offset and data parameters
    let len = CONFIG_SPACE_SIZE as u64;

    assert_eq!(net.read_config(len + 1, 10).is_ok(), false);
    assert_eq!(net.read_config(len, 10).is_ok(), false);
    assert_eq!(net.read_config(0, 10).is_ok(), true);

    assert_eq!(net.write_config(len, &[0u8]).is_ok(), false);
    assert_eq!(net.write_config(len - 1, &[0u8]).is_ok(), false);
    let data: Vec<u8> = vec![0; CONFIG_SPACE_SIZE];
    assert_eq!(net.write_config(0, &data).is_ok(), false);
}

#[test]
fn test_read_config_boundaries() {
    let net = Net::default();
    let len = CONFIG_SPACE_SIZE as u64;
    assert!(net.read_config(len, 1).is_err());
    assert!(net.read_config(len - 1, 1).is_ok());
    assert_eq!(
        net.read_config(len, 1),
        Err(NetError::DevConfigOverflow { offset: len, len })
    );
}

#[test]
fn test_write_config_feature_gate() {
    let mut pool = MacPool::new();
    let mut net = Net::default();
    net.realize(&mut pool, None).unwrap();
    let before = net.read_config(0, 6).unwrap();
    // Negotiate VERSION_1: config-space writes to the MAC are now ignored.
    net.set_driver_features(1, 1 << (VIRTIO_F_VERSION_1 - 32));
    net.write_config(0, &[9, 9, 9, 9, 9, 9]).unwrap();
    assert_eq!(net.read_config(0, 6).unwrap(), before);
    // Drop the feature again: writes take effect.
    net.set_driver_features(1, 0);
    net.write_config(0, &[9, 9, 9, 9, 9, 9]).unwrap();
    assert_eq!(net.read_config(0, 6).unwrap(), vec![9, 9, 9, 9, 9, 9]);
}

#[test]
fn test_realize_features() {
    let mut pool = MacPool::new();
    let mut net = Net::default();
    net.realize(&mut pool, None).unwrap();
    let f = net.state.device_features;
    assert_ne!(f & (1 << VIRTIO_F_VERSION_1), 0);
    assert_ne!(f & (1 << VIRTIO_NET_F_MAC), 0);
    assert_ne!(f & (1 << VIRTIO_NET_F_GUEST_UFO), 0);
    assert_eq!(f & (1 << VIRTIO_NET_F_MQ), 0);
    // An allocated default MAC.
    assert_eq!(net.state.config_space.mac, [0x52, 0x54, 0x00, 0x12, 0x34, 0x56]);
}

#[test]
fn test_realize_without_ufo() {
    let mut pool = MacPool::new();
    let mut net = Net::default();
    net.realize(&mut pool, Some(false)).unwrap();
    let f = net.state.device_features;
    assert_eq!(f & (1 << VIRTIO_NET_F_GUEST_UFO), 0);
    assert_eq!(f & (1 << VIRTIO_NET_F_HOST_UFO), 0);
}

#[test]
fn test_realize_multiqueue() {
    let mut pool = MacPool::new();
    let mut net = Net::new(NetConfig {
        mq: true,
        queues: 8,
        queue_size: 256,
        mac: None,
    });
    net.realize(&mut pool, None).unwrap();
    assert_ne!(net.state.device_features & (1 << VIRTIO_NET_F_MQ), 0);
    assert_eq!(net.state.config_space.max_virtqueue_pairs, 4);
    assert_eq!(net.queue_num(), 9);
}

#[test]
fn test_realize_with_user_mac() {
    let mut pool = MacPool::new();
    let mut net = Net::new(NetConfig {
        mq: false,
        queues: 2,
        queue_size: 256,
        mac: Some(String::from("0a:0b:0c:0d:0e:0f")),
    });
    net.realize(&mut pool, None).unwrap();
    assert_eq!(net.state.config_space.mac, [0x0a, 0x0b, 0x0c, 0x0d, 0x0e, 0x0f]);
    assert_ne!(net.state.device_features & (1 << VIRTIO_NET_F_MAC), 0);
}

#[test]
fn test_realize_with_bad_mac_text() {
    let mut pool = MacPool::new();
    let mut net = Net::new(NetConfig {
        mq: false,
        queues: 2,
        queue_size: 256,
        mac: Some(String::from("not:a:mac")),
    });
    net.realize(&mut pool, None).unwrap();
    // The malformed address leaves the config space untouched and the MAC
    // feature unset.
    assert_eq!(net.state.config_space.mac, [0; 6]);
    assert_eq!(net.state.device_features & (1 << VIRTIO_NET_F_MAC), 0);
}

#[test]
fn test_mac_allocator() {
    let mut pool = MacPool::new();
    let mut first = Net::default();
    first.realize(&mut pool, None).unwrap();
    assert_eq!(first.state.config_space.mac, [0x52, 0x54, 0x00, 0x12, 0x34, 0x56]);

    let mut second = Net::default();
    second.realize(&mut pool, None).unwrap();
    assert_eq!(second.state.config_space.mac, [0x52, 0x54, 0x00, 0x12, 0x34, 0x57]);

    first.unrealize(&mut pool).unwrap();
    let mut third = Net::default();
    third.realize(&mut pool, None).unwrap();
    assert_eq!(third.state.config_space.mac, [0x52, 0x54, 0x00, 0x12, 0x34, 0x56]);
}

#[test]
fn test_build_device_config_space_parses() {
    let mut config = VirtioNetConfig::default();
    let f = build_device_config_space(&mut config, "52:54:00:12:34:56");
    assert_eq!(f, 1 << VIRTIO_NET_F_MAC);
    assert_eq!(config.mac, [0x52, 0x54, 0x00, 0x12, 0x34, 0x56]);
    assert_eq!(config.status, 0);
    assert_eq!(config.mtu, 0);
}

#[test]
fn test_build_device_config_space_rejects() {
    let mut config = VirtioNetConfig::default();
    config.mac = [1, 2, 3, 4, 5, 6];
    // A non-hex segment fails and changes nothing.
    assert_eq!(build_device_config_space(&mut config, "zz:54:00:12:34:56"), 0);
    assert_eq!(config.mac, [1, 2, 3, 4, 5, 6]);
    // A segment above one byte fails.
    assert_eq!(build_device_config_space(&mut config, "100:54:00:12:34:56"), 0);
    assert_eq!(config.mac, [1, 2, 3, 4, 5, 6]);
    // An empty segment fails.
    assert_eq!(build_device_config_space(&mut config, "52::00:12:34:56"), 0);
    assert_eq!(config.mac, [1, 2, 3, 4, 5, 6]);
}

#[test]
fn test_build_device_config_space_short_text() {
    let mut config = VirtioNetConfig::default();
    // Missing segments leave the trailing bytes zero, as parsing each
    // present segment succeeds.
    let f = build_device_config_space(&mut config, "1:2");
    assert_eq!(f, 1 << VIRTIO_NET_F_MAC);
    assert_eq!(config.mac, [1, 2, 0, 0, 0, 0]);
}

#[test]
fn test_state_snapshot_roundtrip() {
    let mut pool = MacPool::new();
    let mut net = Net::default();
    net.realize(&mut pool, None).unwrap();
    net.set_driver_features(0, 3);
    net.broken = true;

    let blob = net.get_state_vec();
    assert_eq!(blob.len(), NET_STATE_SIZE);

    let mut other = Net::default();
    other.set_state_mut(&blob).unwrap();
    assert_eq!(other.state.device_features, net.state.device_features);
    assert_eq!(other.state.driver_features, net.state.driver_features);
    assert_eq!(other.state.config_space.mac, net.state.config_space.mac);
    assert_eq!(other.broken, true);

    // Feeding the snapshot back into the same device changes nothing.
    let before_mac = net.state.config_space.mac;
    net.set_state_mut(&blob).unwrap();
    assert_eq!(net.state.config_space.mac, before_mac);
    assert_eq!(net.get_state_vec(), blob);
}

#[test]
fn test_state_wrong_length() {
    let mut net = Net::default();
    assert_eq!(
        net.set_state_mut(&[0u8; 10]),
        Err(NetError::InvalidStateLength { got: 10, expected: NET_STATE_SIZE })
    );
}

#[test]
fn test_set_driver_features_masks() {
    let mut pool = MacPool::new();
    let mut net = Net::default();
    net.realize(&mut pool, None).unwrap();
    // Bit 2 (net feature 2) is not advertised; bit 0 (CSUM) is.
    net.set_driver_features(0, 0b101);
    assert_eq!(net.get_driver_features(0), 0b001);
    // Page 1: VERSION_1 (bit 32) is advertised.
    net.set_driver_features(1, 0xffff_ffff);
    assert_eq!(
        net.get_driver_features(1),
        (net.state.device_features >> 32) as u32
    );
    // An out-of-range page reads as zero and writes nothing.
    assert_eq!(net.get_driver_features(2), 0);
}

#[test]
fn test_check_mq_cases() {
    assert_eq!(check_mq(None, 4), Ok(()));
    assert_eq!(check_mq(Some(0x0100), 1), Err(NetError::MqTapUnwanted { queue_pairs: 1 }));
    assert_eq!(check_mq(Some(0), 2), Err(NetError::MqTapMissing { queue_pairs: 2 }));
    assert_eq!(check_mq(Some(0x0100), 2), Ok(()));
    assert_eq!(check_mq(Some(0), 1), Ok(()));
}

#[test]
fn test_activate_plan_cases() {
    assert_eq!(activate_plan(0, 0), Err(NetError::NoQueues));
    let ctrl_vq = 1u64 << 17;
    assert_eq!(
        activate_plan(3, ctrl_vq),
        Ok(ActivatePlan { has_ctrl: true, queue_pairs: 1 })
    );
    assert_eq!(
        activate_plan(3, 0),
        Ok(ActivatePlan { has_ctrl: false, queue_pairs: 1 })
    );
    assert_eq!(
        activate_plan(4, ctrl_vq),
        Ok(ActivatePlan { has_ctrl: false, queue_pairs: 2 })
    );
}

#[test]
fn test_tap_offload_flags() {
    let features = (1u64 << VIRTIO_NET_F_GUEST_CSUM) | (1u64 << VIRTIO_NET_F_GUEST_TSO4)
        | (1u64 << VIRTIO_NET_F_GUEST_UFO);
    assert_eq!(get_tap_offload_flags(features), 1 | 2 | 16);
    assert_eq!(get_tap_offload_flags(0), 0);
}

#[test]
fn test_config_bytes_layout() {
    let config = VirtioNetConfig {
        mac: [1, 2, 3, 4, 5, 6],
        status: 0x1234,
        max_virtqueue_pairs: 4,
        mtu: 1500,
        speed: 1000,
        duplex: 1,
    };
    let bytes = config.to_bytes();
    assert_eq!(bytes.len(), CONFIG_SPACE_SIZE);
    assert_eq!(&bytes[0..6], &[1, 2, 3, 4, 5, 6]);
    assert_eq!(&bytes[6..8], &[0x34, 0x12]);
    assert_eq!(&bytes[8..10], &[4, 0]);
    assert_eq!(&bytes[10..12], &[0xdc, 0x05]);
    assert_eq!(&bytes[12..16], &[0xe8, 0x03, 0, 0]);
    assert_eq!(bytes[16], 1);
    let back = VirtioNetConfig::from_bytes(&bytes);
    assert_eq!(back, config);
}

#[test]
fn test_mac_pool_exhausted() {
    let mut pool = MacPool::new();
    // Take every counted default address.
    for last in 0x56u8..0xff {
        let mac = [0x52, 0x54, 0x00, 0x12, 0x34, last];
        pool.mark_mac_table(&mac, true);
    }
    let mut net = Net::default();
    assert_eq!(net.realize(&mut pool, None), Err(NetError::MacPoolExhausted));
    // Releasing one address makes realize succeed again.
    pool.mark_mac_table(&[0x52, 0x54, 0x00, 0x12, 0x34, 0x60], false);
    net.realize(&mut pool, None).unwrap();
    assert_eq!(net.state.config_space.mac, [0x52, 0x54, 0x00, 0x12, 0x34, 0x60]);
}
