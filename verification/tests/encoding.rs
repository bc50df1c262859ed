use beam_sys::chunk::encode_chunk;
use beam_sys::tag::Tag;

fn tags() -> Vec<(Tag, u8)> {
    vec![
        (Tag::Unsigned, 0),
        (Tag::Integer, 1),
        (Tag::Atom, 2),
        (Tag::XRegister, 3),
        (Tag::YRegister, 4),
        (Tag::Label, 5),
    ]
}

#[test]
fn tag_single_byte_layout() {
    for (tag, t) in tags() {
        for n in 0u32..16 {
            let bytes = tag.encode(n as i32);
            assert_eq!(bytes.len(), 1);
            assert_eq!(bytes[0] & 0x0f, t, "low nibble is the tag");
            assert_eq!(bytes[0] >> 4, n as u8, "high nibble is the value");
        }
    }
}

#[test]
fn tag_two_byte_layout() {
    for (tag, t) in tags() {
        for n in 16i32..2048 {
            let bytes = tag.encode(n);
            assert_eq!(bytes.len(), 2);
            let expected_first = (((n >> 3) & 0b1110_0000) | t as i32 | 0b0000_1000) as u8;
            assert_eq!(bytes[0], expected_first);
            assert_eq!(bytes[1], (n & 0xff) as u8);
        }
    }
}

#[test]
fn tag_encoding_round_trips() {
    for (tag, t) in tags() {
        for n in 0i32..2048 {
            let bytes = tag.encode(n);
            // Test-only inverse of the documented layouts.
            let (decoded_tag, decoded_value) = if bytes.len() == 1 {
                assert!(bytes[0] & 0b1000 == 0, "single byte has the flag clear");
                (bytes[0] & 0x0f, (bytes[0] >> 4) as i32)
            } else {
                assert!(bytes[0] & 0b1000 != 0, "extended form has the flag set");
                (
                    bytes[0] & 0b0000_0111,
                    ((bytes[0] as i32 & 0b1110_0000) << 3) | bytes[1] as i32,
                )
            };
            assert_eq!(decoded_tag, t);
            assert_eq!(decoded_value, n);
        }
    }
}

#[test]
fn chunk_total_length_is_header_plus_padded_payload() {
    for payload_len in 0usize..12 {
        let mut payload: Vec<u8> = (0..payload_len).map(|i| i as u8 + 1).collect();
        let framed = encode_chunk("AbCd", &mut payload);
        let padded_len = (payload_len + 3) / 4 * 4;
        assert_eq!(framed.len(), 8 + padded_len);
        assert_eq!(padded_len % 4, 0);
        assert_eq!(&framed[0..4], b"AbCd", "name field is exactly 4 bytes");
    }
}

#[test]
fn chunk_length_field_covers_padding() {
    let mut payload = vec![0xaau8; 5];
    let framed = encode_chunk("Test", &mut payload);
    // 5 payload bytes pad to 8; the length field is computed after padding.
    let len_field = u32::from_be_bytes([framed[4], framed[5], framed[6], framed[7]]);
    assert_eq!(len_field, 8);
    assert_eq!(&framed[8..13], &[0xaa, 0xaa, 0xaa, 0xaa, 0xaa]);
    assert_eq!(&framed[13..16], &[0, 0, 0], "zero padding");
    // The buffer itself was padded in place.
    assert_eq!(payload.len(), 8);
}

#[test]
fn chunk_empty_payload() {
    let mut payload: Vec<u8> = Vec::new();
    let framed = encode_chunk("StrT", &mut payload);
    assert_eq!(framed.len(), 8);
    assert_eq!(&framed[0..4], b"StrT");
    assert_eq!(&framed[4..8], &[0, 0, 0, 0]);
}
