use tb_rs::checksum::{checksum, ChecksumStream};

#[test]
fn test_checksum_empty() {
    let result = checksum(&[]);
    assert_eq!(result, 0x49F174618255402DE6E7E3C40D60CC83);
}

#[test]
fn test_checksum_stream() {
    let data = b"Hello, TigerBeetle!";
    let direct = checksum(data);

    let mut stream = ChecksumStream::new();
    stream.update(&data[..5]);
    stream.update(&data[5..]);
    let streamed = stream.finalize();

    assert_eq!(direct, streamed);
}

#[test]
fn test_checksum_uniqueness() {
    let a = checksum(b"hello");
    let b = checksum(b"Hello");
    let c = checksum(b"hello ");
    let d = checksum(b"");

    assert_ne!(a, b);
    assert_ne!(a, c);
    assert_ne!(a, d);
    assert_ne!(b, c);
    assert_ne!(b, d);
    assert_ne!(c, d);
}

#[test]
fn test_checksum_zeros() {
    let checksums: Vec<u128> = (0..32).map(|len| checksum(&vec![0u8; len])).collect();

    for (i, a) in checksums.iter().enumerate() {
        for b in &checksums[..i] {
            assert_ne!(a, b, "Checksums at different lengths should differ");
        }
    }
}

#[test]
fn test_checksum_non_trivial() {
    for len in 0..64 {
        let result = checksum(&vec![0u8; len]);
        assert_ne!(result, 0, "Checksum should not be zero for length {}", len);
        assert_ne!(
            result,
            u128::MAX,
            "Checksum should not be u128::MAX for length {}",
            len
        );
    }
}

#[test]
fn test_checksum_stream_default_is_empty() {
    let stream = ChecksumStream::default();
    assert_eq!(stream.finalize(), checksum(&[]));
}
