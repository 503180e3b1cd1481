//! The CIDR engine on concrete addresses.

use aws_hcl::aws::network::cidr::{Block, CidrError, Ipv4Addr};

#[test]
fn test_cidr_block() {
    let cidr = Block::new(Ipv4Addr::from([192, 168, 1, 0]), 24).unwrap();
    assert_eq!(cidr.network_address(), Ipv4Addr::from([192, 168, 1, 0]));
}

#[test]
fn test_cidr_block_contains() {
    let cidr = Block::new(Ipv4Addr::from([192, 168, 1, 0]), 24).unwrap();
    assert!(cidr.contains(Ipv4Addr::from([192, 168, 1, 1])));
    assert!(cidr.contains(Ipv4Addr::from([192, 168, 1, 255])));
    assert!(cidr.contains(Ipv4Addr::from([192, 168, 1, 254])));
}

#[test]
fn test_cidr_block_to_string() {
    let cidr = Block::new(Ipv4Addr::from([10, 0, 0, 0]), 16).unwrap();
    assert_eq!(cidr.to_string(), "10.0.0.0/16");
}

#[test]
fn test_cidr_block_new_valid() {
    let cidr = Block::new(Ipv4Addr::new(192, 168, 0, 0), 16);
    assert!(cidr.is_ok());
}

#[test]
fn test_cidr_block_new_invalid_prefix() {
    let cidr = Block::new(Ipv4Addr::new(192, 168, 0, 0), 33);
    assert!(cidr.is_err());
}

#[test]
fn test_cidr_block_broadcast_address() {
    let cidr = Block::new(Ipv4Addr::new(192, 168, 0, 0), 24).unwrap();
    assert_eq!(cidr.broadcast_address(), Ipv4Addr::new(192, 168, 0, 255));
}

#[test]
fn test_cidr_block_network_address() {
    let cidr = Block::new(Ipv4Addr::new(192, 168, 1, 100), 24).unwrap();
    assert_eq!(cidr.network_address(), Ipv4Addr::new(192, 168, 1, 0));
}

#[test]
fn test_cidr_block_contains_network_address() {
    let cidr = Block::new(Ipv4Addr::new(10, 0, 0, 0), 8).unwrap();
    assert!(cidr.contains(Ipv4Addr::new(10, 0, 0, 0)));
}

#[test]
fn test_cidr_block_contains_broadcast_address() {
    let cidr = Block::new(Ipv4Addr::new(172, 16, 0, 0), 16).unwrap();
    assert!(cidr.contains(Ipv4Addr::new(172, 16, 255, 255)));
}

#[test]
fn test_cidr_block_does_not_contain_outside_ip() {
    let cidr = Block::new(Ipv4Addr::new(192, 168, 0, 0), 24).unwrap();
    assert!(!cidr.contains(Ipv4Addr::new(192, 168, 1, 1)));
}

#[test]
fn test_cidr_block_to_string_class_a() {
    let cidr = Block::new(Ipv4Addr::new(10, 0, 0, 0), 8).unwrap();
    assert_eq!(cidr.to_string(), "10.0.0.0/8");
}

#[test]
fn test_cidr_block_to_string_class_b() {
    let cidr = Block::new(Ipv4Addr::new(172, 16, 0, 0), 16).unwrap();
    assert_eq!(cidr.to_string(), "172.16.0.0/16");
}

#[test]
fn test_cidr_block_to_string_class_c() {
    let cidr = Block::new(Ipv4Addr::new(192, 168, 0, 0), 24).unwrap();
    assert_eq!(cidr.to_string(), "192.168.0.0/24");
}

#[test]
fn test_cidr_block_contains_edge_cases() {
    let cidr = Block::new(Ipv4Addr::new(10, 0, 0, 0), 31).unwrap();
    assert!(cidr.contains(Ipv4Addr::new(10, 0, 0, 0)));
    assert!(cidr.contains(Ipv4Addr::new(10, 0, 0, 1)));
    assert!(!cidr.contains(Ipv4Addr::new(10, 0, 0, 2)));
}

#[test]
fn test_cidr_block_new_with_host_bits_set() {
    let cidr = Block::new(Ipv4Addr::new(192, 168, 1, 100), 24).unwrap();
    assert_eq!(cidr.address(), Ipv4Addr::new(192, 168, 1, 100));
}

#[test]
fn test_cidr_block_contains_entire_range() {
    let cidr = Block::new(Ipv4Addr::new(10, 0, 0, 0), 8).unwrap();
    assert!(cidr.contains(Ipv4Addr::new(10, 0, 0, 0)));
    assert!(cidr.contains(Ipv4Addr::new(10, 128, 0, 0)));
    assert!(cidr.contains(Ipv4Addr::new(10, 255, 255, 255)));
    assert!(!cidr.contains(Ipv4Addr::new(11, 0, 0, 0)));
}

#[test]
fn test_cidr_block_smallest_prefix() {
    let cidr = Block::new(Ipv4Addr::new(0, 0, 0, 0), 0).unwrap();
    // For prefix 0, all IPs are valid
    assert_eq!(cidr.network_address(), Ipv4Addr::new(0, 0, 0, 0));
    assert_eq!(cidr.broadcast_address(), Ipv4Addr::new(255, 255, 255, 255));
    assert!(cidr.contains(Ipv4Addr::new(0, 0, 0, 0)));
    assert!(cidr.contains(Ipv4Addr::new(128, 0, 0, 0)));
    assert!(cidr.contains(Ipv4Addr::new(255, 255, 255, 255)));
}

#[test]
fn test_cidr_block_largest_prefix() {
    let cidr = Block::new(Ipv4Addr::new(192, 168, 0, 1), 32).unwrap();
    // For prefix 32, only the exact IP is valid
    assert_eq!(cidr.network_address(), Ipv4Addr::new(192, 168, 0, 1));
    assert_eq!(cidr.broadcast_address(), Ipv4Addr::new(192, 168, 0, 1));
    assert!(cidr.contains(Ipv4Addr::new(192, 168, 0, 1)));
    assert!(!cidr.contains(Ipv4Addr::new(192, 168, 0, 0)));
    assert!(!cidr.contains(Ipv4Addr::new(192, 168, 0, 2)));
}

#[test]
fn test_cidr_block_network_and_broadcast_for_various_prefixes() {
    let test_cases = vec![
        (
            Ipv4Addr::new(192, 168, 0, 0),
            16,
            Ipv4Addr::new(192, 168, 0, 0),
            Ipv4Addr::new(192, 168, 255, 255),
        ),
        (
            Ipv4Addr::new(10, 0, 0, 0),
            8,
            Ipv4Addr::new(10, 0, 0, 0),
            Ipv4Addr::new(10, 255, 255, 255),
        ),
        (
            Ipv4Addr::new(172, 16, 0, 0),
            12,
            Ipv4Addr::new(172, 16, 0, 0),
            Ipv4Addr::new(172, 31, 255, 255),
        ),
    ];

    for (addr, prefix, expected_network, expected_broadcast) in test_cases {
        let cidr = Block::new(addr, prefix).unwrap();
        assert_eq!(cidr.network_address(), expected_network);
        assert_eq!(cidr.broadcast_address(), expected_broadcast);
    }
}

#[test]
fn test_cidr_block_contains_for_various_prefixes() {
    let test_cases = vec![
        (
            Ipv4Addr::new(192, 168, 0, 0),
            16,
            Ipv4Addr::new(192, 168, 100, 100),
            true,
        ),
        (
            Ipv4Addr::new(10, 0, 0, 0),
            8,
            Ipv4Addr::new(10, 255, 255, 255),
            true,
        ),
        (
            Ipv4Addr::new(172, 16, 0, 0),
            12,
            Ipv4Addr::new(172, 31, 255, 255),
            true,
        ),
        (
            Ipv4Addr::new(192, 168, 0, 0),
            16,
            Ipv4Addr::new(192, 169, 0, 0),
            false,
        ),
    ];

    for (addr, prefix, test_ip, expected) in test_cases {
        let cidr = Block::new(addr, prefix).unwrap();
        assert_eq!(cidr.contains(test_ip), expected);
    }
}

#[test]
fn test_cidr_block_new_with_different_addresses() {
    let addresses = vec![
        Ipv4Addr::new(0, 0, 0, 0),
        Ipv4Addr::new(127, 0, 0, 1),
        Ipv4Addr::new(192, 168, 0, 1),
        Ipv4Addr::new(255, 255, 255, 255),
    ];

    for addr in addresses {
        let cidr = Block::new(addr, 24);
        assert!(cidr.is_ok());
    }
}

#[test]
fn test_cidr_block_display_trait() {
    let cidr = Block::new(Ipv4Addr::new(192, 168, 0, 0), 16).unwrap();
    assert_eq!(format!("{}", cidr.to_string()), "192.168.0.0/16");
}

#[test]
fn prefix_33_is_refused_and_32_accepted() {
    assert_eq!(Block::new(Ipv4Addr::new(192, 168, 0, 0), 33), Err(CidrError::InvalidPrefix));
    assert_eq!(Block::new(Ipv4Addr::new(192, 168, 0, 0), 255), Err(CidrError::InvalidPrefix));
    let block = Block::new(Ipv4Addr::new(192, 168, 0, 0), 32).unwrap();
    assert_eq!(block.prefix_length(), 32);
}

#[test]
fn network_and_broadcast_frame_the_address() {
    let addresses = [
        Ipv4Addr::new(0, 0, 0, 0),
        Ipv4Addr::new(10, 1, 2, 3),
        Ipv4Addr::new(172, 16, 254, 1),
        Ipv4Addr::new(255, 255, 255, 255),
    ];
    for addr in addresses {
        for prefix in 0..=32u8 {
            let block = Block::new(addr, prefix).unwrap();
            let network = block.network_address();
            let broadcast = block.broadcast_address();
            assert!(network.to_bits() <= addr.to_bits());
            assert!(addr.to_bits() <= broadcast.to_bits());
            assert!(block.contains(network));
            assert!(block.contains(broadcast));
            assert!(block.contains(addr));
        }
    }
}

#[test]
fn exact_network_and_broadcast_values() {
    let block = Block::new(Ipv4Addr::new(10, 20, 30, 40), 20).unwrap();
    assert_eq!(block.network_address(), Ipv4Addr::new(10, 20, 16, 0));
    assert_eq!(block.broadcast_address(), Ipv4Addr::new(10, 20, 31, 255));
    assert_eq!(block.network_address().to_bits(), 0x0A14_1000);
    assert_eq!(block.broadcast_address().to_bits(), 0x0A14_1FFF);
    let block = Block::new(Ipv4Addr::new(10, 20, 30, 40), 1).unwrap();
    assert_eq!(block.network_address(), Ipv4Addr::new(0, 0, 0, 0));
    assert_eq!(block.broadcast_address(), Ipv4Addr::new(127, 255, 255, 255));
    let block = Block::new(Ipv4Addr::new(200, 20, 30, 40), 31).unwrap();
    assert_eq!(block.network_address(), Ipv4Addr::new(200, 20, 30, 40));
    assert_eq!(block.broadcast_address(), Ipv4Addr::new(200, 20, 30, 41));
}

#[test]
fn prefix_zero_holds_every_address() {
    let block = Block::new(Ipv4Addr::new(77, 66, 55, 44), 0).unwrap();
    assert_eq!(block.network_address(), Ipv4Addr::new(0, 0, 0, 0));
    assert_eq!(block.broadcast_address(), Ipv4Addr::new(255, 255, 255, 255));
    assert!(block.contains(Ipv4Addr::new(0, 0, 0, 0)));
    assert!(block.contains(Ipv4Addr::new(1, 2, 3, 4)));
    assert!(block.contains(Ipv4Addr::new(255, 255, 255, 255)));
}

#[test]
fn prefix_32_holds_one_address() {
    let addr = Ipv4Addr::new(77, 66, 55, 44);
    let block = Block::new(addr, 32).unwrap();
    assert_eq!(block.network_address(), addr);
    assert_eq!(block.broadcast_address(), addr);
    assert!(block.contains(addr));
    assert!(!block.contains(Ipv4Addr::new(77, 66, 55, 43)));
    assert!(!block.contains(Ipv4Addr::new(77, 66, 55, 45)));
}

#[test]
fn notation_spells_address_and_prefix() {
    assert_eq!(Block::new(Ipv4Addr::new(10, 0, 0, 0), 16).unwrap().to_string(), "10.0.0.0/16");
    assert_eq!(Block::new(Ipv4Addr::new(0, 0, 0, 0), 0).unwrap().to_string(), "0.0.0.0/0");
    assert_eq!(
        Block::new(Ipv4Addr::new(255, 255, 255, 255), 32).unwrap().to_string(),
        "255.255.255.255/32"
    );
    assert_eq!(Block::new(Ipv4Addr::new(9, 10, 99, 100), 9).unwrap().to_string(), "9.10.99.100/9");
    assert_eq!(Block::new(Ipv4Addr::new(192, 168, 1, 100), 24).unwrap().to_string(), "192.168.1.100/24");
}

#[test]
fn notation_agrees_with_std_for_every_octet() {
    for octet in 0..=255u8 {
        let addr = Ipv4Addr::new(octet, 255 - octet, octet / 2, 7);
        let block = Block::new(addr, octet % 33).unwrap();
        let expected = format!("{}.{}.{}.{}/{}", octet, 255 - octet, octet / 2, 7, octet % 33);
        assert_eq!(block.to_string(), expected);
    }
}

#[test]
fn address_octets_and_bits() {
    let addr = Ipv4Addr::new(192, 168, 1, 100);
    assert_eq!(addr.octets(), (192, 168, 1, 100));
    assert_eq!(addr.to_bits(), 0xC0A8_0164);
    assert_eq!(Ipv4Addr::from_bits(0xC0A8_0164), addr);
    assert_eq!(Ipv4Addr::from([192, 168, 1, 100]), addr);
    assert_eq!(Ipv4Addr::new(0, 0, 0, 0).to_bits(), 0);
    assert_eq!(Ipv4Addr::new(255, 255, 255, 255).to_bits(), u32::MAX);
}

#[test]
fn getters_give_back_what_was_put_in() {
    let block = Block::new(Ipv4Addr::new(192, 168, 1, 100), 24).unwrap();
    assert_eq!(block.address(), Ipv4Addr::new(192, 168, 1, 100));
    assert_eq!(block.prefix_length(), 24);
}
