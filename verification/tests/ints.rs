use node_handshake::codec::ints::{
    bits_of_i32, bits_of_i64, i32_of_bits, i64_of_bits, push_be, push_le, read_be, read_le,
};
use node_handshake::codec::payload::{
    push_address, push_compact_size, read_address, read_compact_size,
};
use node_handshake::error::DecodeError;
use node_handshake::messages::NetAddress;

#[test]
fn little_endian_bytes() {
    let mut out = vec![0xaa];
    push_le(&mut out, 0x0102_0304, 4);
    assert_eq!(out, vec![0xaa, 0x04, 0x03, 0x02, 0x01]);
    push_le(&mut out, 0x0102_0304, 2);
    assert_eq!(out, vec![0xaa, 0x04, 0x03, 0x02, 0x01, 0x04, 0x03]);
    push_le(&mut out, 7, 0);
    assert_eq!(out.len(), 7);
    let mut wide = Vec::new();
    push_le(&mut wide, u64::MAX as u128 - 1, 8);
    assert_eq!(wide, (u64::MAX - 1).to_le_bytes().to_vec());
    let mut widest = Vec::new();
    push_le(&mut widest, u128::MAX - 5, 16);
    assert_eq!(widest, (u128::MAX - 5).to_le_bytes().to_vec());
}

#[test]
fn big_endian_bytes() {
    let mut out = vec![0xaa];
    push_be(&mut out, 0x0102_0304, 4);
    assert_eq!(out, vec![0xaa, 0x01, 0x02, 0x03, 0x04]);
    push_be(&mut out, 8333, 2);
    assert_eq!(&out[5..], &[0x20, 0x8d]);
    let mut widest = Vec::new();
    push_be(&mut widest, 0x2001_0db8_0000_0000_0000_0000_0000_0001, 16);
    assert_eq!(widest, 0x2001_0db8_0000_0000_0000_0000_0000_0001u128.to_be_bytes().to_vec());
}

#[test]
fn reading_numbers() {
    let bytes = [0x11, 0x22, 0x33, 0x44, 0x55, 0x66, 0x77, 0x88, 0x99];
    assert_eq!(read_le(&bytes, 0, 0), 0);
    assert_eq!(read_le(&bytes, 1, 1), 0x22);
    assert_eq!(read_le(&bytes, 1, 4), 0x5544_3322);
    assert_eq!(read_le(&bytes, 1, 8), 0x9988_7766_5544_3322);
    assert_eq!(read_be(&bytes, 1, 4), 0x2233_4455);
    assert_eq!(read_be(&bytes, 7, 2), 0x8899);
    assert_eq!(read_be(&bytes, 9, 0), 0);
    let wide: Vec<u8> = (1..=16).collect();
    assert_eq!(read_be(&wide, 0, 16), u128::from_be_bytes(wide.clone().try_into().unwrap()));
    assert_eq!(read_le(&wide, 0, 16), u128::from_le_bytes(wide.clone().try_into().unwrap()));
}

#[test]
fn twos_complement() {
    for x in [0i64, 1, -1, -2, 1_700_000_000, i64::MAX, i64::MIN, i64::MIN + 1] {
        assert_eq!(bits_of_i64(x), x as u64);
        assert_eq!(i64_of_bits(x as u64), x);
    }
    for x in [0i32, 1, -1, -2, 812_345, i32::MAX, i32::MIN, i32::MIN + 1] {
        assert_eq!(bits_of_i32(x), x as u32);
        assert_eq!(i32_of_bits(x as u32), x);
    }
}

#[test]
fn compact_sizes() {
    let cases: Vec<(u64, Vec<u8>)> = vec![
        (0, vec![0]),
        (0xfc, vec![0xfc]),
        (0xfd, vec![0xfd, 0xfd, 0x00]),
        (0xffff, vec![0xfd, 0xff, 0xff]),
        (0x1_0000, vec![0xfe, 0x00, 0x00, 0x01, 0x00]),
        (0xffff_ffff, vec![0xfe, 0xff, 0xff, 0xff, 0xff]),
        (0x1_0000_0000, vec![0xff, 0, 0, 0, 0, 1, 0, 0, 0]),
        (u64::MAX, vec![0xff; 9]),
    ];
    for (n, bytes) in cases {
        let mut out = vec![0x55];
        push_compact_size(&mut out, n);
        assert_eq!(&out[1..], &bytes[..]);
        assert_eq!(read_compact_size(&out, 1).unwrap(), (n, out.len()));
        out.push(0x77);
        assert_eq!(read_compact_size(&out, 1).unwrap(), (n, out.len() - 1));
        if bytes.len() > 1 {
            let cut = out.len() - 2;
            assert_eq!(read_compact_size(&out[..cut], 1).unwrap_err(), DecodeError::UnexpectedEof);
        }
    }
    assert_eq!(read_compact_size(&[], 0).unwrap_err(), DecodeError::UnexpectedEof);
    assert_eq!(read_compact_size(&[1, 2], 2).unwrap_err(), DecodeError::UnexpectedEof);
    let padded: Vec<Vec<u8>> = vec![
        vec![0xfd, 0xfc, 0x00],
        vec![0xfd, 0x00, 0x00],
        vec![0xfe, 0xff, 0xff, 0x00, 0x00],
        vec![0xff, 0xff, 0xff, 0xff, 0xff, 0, 0, 0, 0],
    ];
    for bytes in padded {
        assert_eq!(read_compact_size(&bytes, 0).unwrap_err(), DecodeError::NonMinimalVarInt);
    }
}

#[test]
fn addresses_in_26_bytes() {
    let address = NetAddress { services: 0x0409, address: 0xffff_c000_0280, port: 8333 };
    let mut out = vec![1, 2];
    push_address(&mut out, &address);
    let expected: Vec<u8> = vec![
        1, 2, 0x09, 0x04, 0, 0, 0, 0, 0, 0, 0, 0, 0, 0, 0, 0, 0, 0, 0, 0, 0xff, 0xff, 192, 0, 2,
        128, 0x20, 0x8d,
    ];
    assert_eq!(out, expected);
    assert_eq!(read_address(&out, 2), address);
}
