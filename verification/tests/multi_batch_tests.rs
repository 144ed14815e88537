use tb_rs::multi_batch::{decode, encode, trailer_total_size};

#[test]
fn test_trailer_total_size() {
    // 1 batch, 128-byte elements: ceil(4 / 128) * 128 = 128
    assert_eq!(trailer_total_size(128, 1), 128);

    // 2 batches, 128-byte elements: ceil(6 / 128) * 128 = 128
    assert_eq!(trailer_total_size(128, 2), 128);

    // 1 batch, 8-byte elements: ceil(4 / 8) * 8 = 8
    assert_eq!(trailer_total_size(8, 1), 8);
}

#[test]
fn test_encode_single_account() {
    // An account is 128 bytes; one element.
    let events = [0u8; 128];
    let mut buffer = vec![0u8; 512];

    let size = encode(&mut buffer, &events, 128);

    // 128 bytes of payload plus a 128-byte trailer.
    assert_eq!(size, 256);

    // The payload is preserved.
    assert_eq!(&buffer[..128], &events);

    // The trailer holds 0xFF padding, then the element count, then the
    // batch count in the last two bytes.
    for i in 128..252 {
        assert_eq!(buffer[i], 0xFF, "padding at offset {}", i);
    }

    let element_count = u16::from_le_bytes([buffer[252], buffer[253]]);
    assert_eq!(element_count, 1);

    let batch_count = u16::from_le_bytes([buffer[254], buffer[255]]);
    assert_eq!(batch_count, 1);
}

#[test]
fn test_decode_empty_results() {
    // An empty result body for 8-byte elements:
    // padding(4) + element_count(0) + batch_count(1).
    let data = [0xFF, 0xFF, 0xFF, 0xFF, 0x00, 0x00, 0x01, 0x00];
    let payload = decode(&data, 8);
    assert!(payload.is_empty());
}

#[test]
fn test_decode_with_results() {
    // A body with one 8-byte result: payload then trailer.
    let mut data = vec![0x42u8; 8];
    data.extend_from_slice(&[0xFF, 0xFF, 0xFF, 0xFF, 0x01, 0x00, 0x01, 0x00]);
    let payload = decode(&data, 8);
    assert_eq!(payload.len(), 8);
    assert_eq!(payload, &[0x42u8; 8]);
}

#[test]
fn test_encode_decode_roundtrip() {
    let events = [0xAB; 128];
    let mut buffer = vec![0u8; 512];
    let size = encode(&mut buffer, &events, 128);
    let payload = decode(&buffer[..size as usize], 128);
    assert_eq!(payload, &events);
}

#[test]
fn test_roundtrip_all_element_sizes() {
    for &element_size in &[8u32, 16, 64, 128] {
        for &element_count in &[0usize, 1, 2, 64] {
            let payload_len = element_size as usize * element_count;
            let payload: Vec<u8> = (0..payload_len).map(|i| (i % 251) as u8).collect();
            let total = payload_len + trailer_total_size(element_size, 1) as usize;
            let mut buffer = vec![0u8; total];
            let size = encode(&mut buffer, &payload, element_size);
            assert_eq!(size as usize, total);
            let decoded = decode(&buffer[..size as usize], element_size);
            assert_eq!(decoded, payload.as_slice());
        }
    }
}

#[test]
fn test_roundtrip_largest_batch() {
    // 8189 elements of 128 bytes: the largest batch a one-mebibyte
    // message can carry.
    let payload = vec![0x5Au8; 8189 * 128];
    let total = payload.len() + 128;
    let mut buffer = vec![0u8; total];
    let size = encode(&mut buffer, &payload, 128);
    assert_eq!(size as usize, total);
    let decoded = decode(&buffer[..size as usize], 128);
    assert_eq!(decoded, payload.as_slice());
}

#[test]
fn test_trailer_size_formula() {
    // With one batch the trailer is ceil(4 / element_size) * element_size.
    for &element_size in &[1u32, 2, 3, 4, 5, 8, 16, 64, 128, 1000] {
        let expected = (4 + element_size - 1) / element_size * element_size;
        assert_eq!(trailer_total_size(element_size, 1), expected);
    }
    // A zero element size leaves the metadata unpadded.
    assert_eq!(trailer_total_size(0, 1), 4);
}

#[test]
fn test_trailer_padding_is_ff() {
    // Two 16-byte elements: trailer is 16 bytes, 12 of them padding.
    let events = [7u8; 32];
    let mut buffer = vec![0u8; 48];
    let size = encode(&mut buffer, &events, 16);
    assert_eq!(size, 48);
    for i in 32..44 {
        assert_eq!(buffer[i], 0xFF, "padding at offset {}", i);
    }
    assert_eq!(u16::from_le_bytes([buffer[44], buffer[45]]), 2);
    assert_eq!(u16::from_le_bytes([buffer[46], buffer[47]]), 1);
}

#[test]
fn test_decode_short_buffer_is_empty() {
    // The trailer for 128-byte elements is 128 bytes; a 4-byte buffer
    // advertising one batch is shorter than that, so nothing decodes.
    let data = [0x00, 0x00, 0x01, 0x00];
    assert!(decode(&data, 128).is_empty());

    // A zero batch count decodes to nothing as well.
    let zero_batches = [0xFF, 0xFF, 0x00, 0x00, 0x00, 0x00, 0x00, 0x00];
    assert!(decode(&zero_batches, 8).is_empty());

    // One lone byte cannot even hold the batch count.
    assert!(decode(&[0x01], 8).is_empty());
}
