use compact_addr::{CompactAddrV6Info, SocketAddrV6};

fn v6(octets: [u8; 16], port: u16) -> SocketAddrV6 {
    SocketAddrV6 { octets, port, flowinfo: 0, scope_id: 0 }
}

const LOOPBACK: [u8; 16] = [0, 0, 0, 0, 0, 0, 0, 0, 0, 0, 0, 0, 0, 0, 0, 1];

const DOC_PREFIX: [u8; 16] = [
    0x20, 0x01, 0x0D, 0xB8, 0x85, 0xA3, 0x00, 0x00, 0x00, 0x00, 0x8A, 0x2E, 0x03, 0x70, 0x73, 0x34,
];

#[test]
fn v6_encodes_octets_then_big_endian_port() {
    let addr = v6(LOOPBACK, 80);
    assert_eq!(
        addr.to_compact_address(),
        [0, 0, 0, 0, 0, 0, 0, 0, 0, 0, 0, 0, 0, 0, 0, 1, 0x00, 0x50]
    );
}

#[test]
fn v6_decodes_octets_then_big_endian_port() {
    let addr = SocketAddrV6::from_compact_address(&[
        0, 0, 0, 0, 0, 0, 0, 0, 0, 0, 0, 0, 0, 0, 0, 1, 0x00, 0x50,
    ]);
    assert_eq!(addr.octets, LOOPBACK);
    assert_eq!(addr.port, 80);
    assert_eq!(addr.flowinfo, 0);
    assert_eq!(addr.scope_id, 0);
}

#[test]
fn v6_port_high_byte_comes_first() {
    let bytes = v6(DOC_PREFIX, 0x1234).to_compact_address();
    assert_eq!(bytes[..16], DOC_PREFIX);
    assert_eq!(bytes[16], 0x12);
    assert_eq!(bytes[17], 0x34);
    assert_eq!(v6(LOOPBACK, 1).to_compact_address()[16..], [0, 1]);
    assert_eq!(v6(LOOPBACK, 256).to_compact_address()[16..], [1, 0]);
    let mut wire = [0u8; 18];
    wire[16] = 0x12;
    wire[17] = 0x34;
    assert_eq!(SocketAddrV6::from_compact_address(&wire).port, 0x1234);
}

#[test]
fn v6_octets_keep_their_order() {
    let octets = [1, 2, 3, 4, 5, 6, 7, 8, 9, 10, 11, 12, 13, 14, 15, 16];
    let bytes = v6(octets, 0x1112).to_compact_address();
    assert_eq!(bytes, [1, 2, 3, 4, 5, 6, 7, 8, 9, 10, 11, 12, 13, 14, 15, 16, 17, 18]);
    let addr = SocketAddrV6::from_compact_address(&[
        18, 17, 16, 15, 14, 13, 12, 11, 10, 9, 8, 7, 6, 5, 4, 3, 2, 1,
    ]);
    assert_eq!(addr, v6([18, 17, 16, 15, 14, 13, 12, 11, 10, 9, 8, 7, 6, 5, 4, 3], 0x0201));
}

#[test]
fn v6_extreme_values() {
    assert_eq!(v6([0; 16], 0).to_compact_address(), [0; 18]);
    assert_eq!(v6([255; 16], 65535).to_compact_address(), [255; 18]);
    assert_eq!(SocketAddrV6::from_compact_address(&[0; 18]), v6([0; 16], 0));
    assert_eq!(SocketAddrV6::from_compact_address(&[255; 18]), v6([255; 16], 65535));
}

#[test]
fn v6_decode_undoes_encode_without_flow_and_scope() {
    let samples = [
        v6(LOOPBACK, 80),
        v6(DOC_PREFIX, 6881),
        v6([0; 16], 0),
        v6([255; 16], 65535),
        v6(DOC_PREFIX, 255),
        v6(DOC_PREFIX, 0xFF00),
    ];
    for addr in samples {
        let bytes = addr.to_compact_address();
        assert_eq!(SocketAddrV6::from_compact_address(&bytes), addr);
    }
}

#[test]
fn v6_decode_undoes_encode_for_every_port() {
    for port in 0..=u16::MAX {
        let addr = v6(DOC_PREFIX, port);
        let bytes = addr.to_compact_address();
        assert_eq!(bytes[16], (port >> 8) as u8);
        assert_eq!(bytes[17], (port & 0xFF) as u8);
        assert_eq!(SocketAddrV6::from_compact_address(&bytes), addr);
    }
}

#[test]
fn v6_flow_and_scope_are_left_out() {
    let plain = v6(DOC_PREFIX, 6881);
    let tagged = SocketAddrV6 { octets: DOC_PREFIX, port: 6881, flowinfo: 0x000F_FFFF, scope_id: 7 };
    let only_flow = SocketAddrV6 { octets: DOC_PREFIX, port: 6881, flowinfo: 1, scope_id: 0 };
    let only_scope =
        SocketAddrV6 { octets: DOC_PREFIX, port: 6881, flowinfo: 0, scope_id: u32::MAX };
    assert_eq!(tagged.to_compact_address(), plain.to_compact_address());
    assert_eq!(only_flow.to_compact_address(), plain.to_compact_address());
    assert_eq!(only_scope.to_compact_address(), plain.to_compact_address());
}

#[test]
fn v6_decoded_flow_and_scope_are_zero() {
    let tagged = SocketAddrV6 { octets: DOC_PREFIX, port: 6881, flowinfo: 0x000F_FFFF, scope_id: 7 };
    let back = SocketAddrV6::from_compact_address(&tagged.to_compact_address());
    assert_eq!(back.flowinfo, 0);
    assert_eq!(back.scope_id, 0);
    assert_eq!(back.octets, tagged.octets);
    assert_eq!(back.port, tagged.port);
    assert_ne!(back, tagged);
    assert_eq!(back, v6(DOC_PREFIX, 6881));
}

#[test]
fn v6_encode_undoes_decode() {
    let samples: [[u8; 18]; 4] = [
        [0; 18],
        [255; 18],
        [0, 0, 0, 0, 0, 0, 0, 0, 0, 0, 0, 0, 0, 0, 0, 1, 0x00, 0x50],
        [1, 2, 3, 4, 5, 6, 7, 8, 9, 10, 11, 12, 13, 14, 15, 16, 17, 18],
    ];
    for bytes in samples {
        let addr = SocketAddrV6::from_compact_address(&bytes);
        assert_eq!(addr.to_compact_address(), bytes);
    }
}

#[test]
fn v6_encode_undoes_decode_for_every_value_of_each_byte() {
    for position in 0..18 {
        for value in 0..=u8::MAX {
            let mut bytes = [0xA5; 18];
            bytes[position] = value;
            let addr = SocketAddrV6::from_compact_address(&bytes);
            assert_eq!(addr.to_compact_address(), bytes);
        }
    }
}

#[test]
fn v6_distinct_addresses_have_distinct_forms() {
    let base = v6(DOC_PREFIX, 6881);
    for position in 0..16 {
        let mut octets = DOC_PREFIX;
        octets[position] ^= 0x01;
        let other = v6(octets, 6881);
        assert_ne!(other.to_compact_address(), base.to_compact_address());
    }
    assert_ne!(v6(DOC_PREFIX, 6882).to_compact_address(), base.to_compact_address());
    assert_ne!(v6(DOC_PREFIX, 6881 + 256).to_compact_address(), base.to_compact_address());
    assert_ne!(v6(DOC_PREFIX, 0xE11A).to_compact_address(), base.to_compact_address());
}
