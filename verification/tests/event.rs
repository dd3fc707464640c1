use moondancer::event::SetupPacket;

#[test]
fn setup_packet_fields_are_little_endian() {
    let packet = SetupPacket::from([0x80, 0x06, 0x00, 0x01, 0x34, 0x12, 0x40, 0x00]);
    assert_eq!(packet.request_type, 0x80);
    assert_eq!(packet.request, 0x06);
    assert_eq!(packet.value, 0x0100);
    assert_eq!(packet.index, 0x1234);
    assert_eq!(packet.length, 0x0040);
}

#[test]
fn setup_packet_of_extreme_bytes() {
    let zero = SetupPacket::from([0; 8]);
    assert_eq!(
        zero,
        SetupPacket { request_type: 0, request: 0, value: 0, index: 0, length: 0 }
    );
    let full = SetupPacket::from([0xff; 8]);
    assert_eq!(
        full,
        SetupPacket {
            request_type: 0xff,
            request: 0xff,
            value: 0xffff,
            index: 0xffff,
            length: 0xffff,
        }
    );
    let mixed = SetupPacket::from([1, 2, 0xff, 0x00, 0x00, 0xff, 0x01, 0x80]);
    assert_eq!(mixed.value, 0x00ff);
    assert_eq!(mixed.index, 0xff00);
    assert_eq!(mixed.length, 0x8001);
}

#[test]
fn setup_packet_as_bytes_is_exact() {
    let packet = SetupPacket {
        request_type: 0x21,
        request: 0x09,
        value: 0xabcd,
        index: 0x0102,
        length: 0xfffe,
    };
    assert_eq!(
        SetupPacket::as_bytes(packet),
        [0x21, 0x09, 0xcd, 0xab, 0x02, 0x01, 0xfe, 0xff]
    );
}

#[test]
fn setup_packet_round_trips_every_word() {
    for word in 0..=u16::MAX {
        let [low, high] = word.to_le_bytes();
        let buffer = [high, low, low, high, high, low, low, low];
        let packet = SetupPacket::from(buffer);
        assert_eq!(packet.request_type, high);
        assert_eq!(packet.request, low);
        assert_eq!(packet.value, word);
        assert_eq!(packet.index, u16::from_le_bytes([high, low]));
        assert_eq!(packet.length, u16::from_le_bytes([low, low]));
        assert_eq!(SetupPacket::as_bytes(packet), buffer);
        assert_eq!(SetupPacket::from(SetupPacket::as_bytes(packet)), packet);
    }
}

#[test]
fn setup_packet_fields_reproduce_the_bytes() {
    let buffers: [[u8; 8]; 4] = [
        [0x80, 0x06, 0x00, 0x02, 0x00, 0x00, 0x09, 0x00],
        [0x00, 0x05, 0x2a, 0x00, 0x00, 0x00, 0x00, 0x00],
        [0xc0, 0xff, 0x12, 0x34, 0x56, 0x78, 0x9a, 0xbc],
        [0x12, 0x34, 0x56, 0x78, 0x9a, 0xbc, 0xde, 0xf0],
    ];
    for buffer in buffers {
        let packet = SetupPacket::from(buffer);
        let value = packet.value.to_le_bytes();
        let index = packet.index.to_le_bytes();
        let length = packet.length.to_le_bytes();
        let fields = [
            packet.request_type,
            packet.request,
            value[0],
            value[1],
            index[0],
            index[1],
            length[0],
            length[1],
        ];
        assert_eq!(fields, buffer);
    }
}
