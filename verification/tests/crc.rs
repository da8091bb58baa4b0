use pricklybird::crc::CRC8_POLYNOMIAL;
use pricklybird::{calculate_crc8, CRC8_TABLE};

/// The CRC-8 of empty input is zero.
#[test]
fn lib_test_empty_input() {
    let test_data: &[u8] = &[];
    let result = calculate_crc8(test_data);
    assert_eq!(0, result, "CRC-8 of empty data should be 0.");
    assert_eq!("", pricklybird::convert_to_pricklybird(&[]));
    assert!(pricklybird::bytes_to_words(&[]).is_empty());
    assert!(pricklybird::words_to_bytes(&Vec::<&str>::new())
        .unwrap()
        .is_empty());
}

/// The CRC-8 of a single byte is the table's value for it.
#[test]
fn test_table_lookup() {
    let test_data = &[0x42u8];
    let result = calculate_crc8(test_data);
    let expected = CRC8_TABLE[test_data[0] as usize];
    assert_eq!(
        expected, result,
        "CRC-8 of single byte should match table value."
    );
}

/// Data with its CRC-8 appended has the remainder zero.
#[test]
fn test_with_appended_crc() {
    let mut test_data = b"Test data".to_vec();
    let crc_value = calculate_crc8(&test_data);
    test_data.push(crc_value);

    let result = calculate_crc8(&test_data);
    assert_eq!(
        0, result,
        "Data with appended correct CRC-8 should result in remainder 0."
    );
}

/// The check value of the CRC-8 with these parameters.
#[test]
fn check_value_of_the_digits() {
    assert_eq!(calculate_crc8(b"123456789"), 0x37);
}

fn bitwise_crc8(data: &[u8]) -> u8 {
    let mut register = 0u8;
    for &byte in data {
        register ^= byte;
        for _ in 0..8 {
            register = if register & 0x80 != 0 {
                (register << 1) ^ CRC8_POLYNOMIAL
            } else {
                register << 1
            };
        }
    }
    register
}

#[test]
fn table_holds_the_remainders_of_the_polynomial() {
    assert_eq!(CRC8_POLYNOMIAL, 0x1d);
    assert_eq!(CRC8_TABLE[0], 0x00);
    assert_eq!(CRC8_TABLE[1], 0x1d);
    assert_eq!(CRC8_TABLE[2], 0x3a);
    assert_eq!(CRC8_TABLE[0x80], 0x26);
    assert_eq!(CRC8_TABLE[0xff], 0xc4);
    for byte in 0..=255u8 {
        assert_eq!(CRC8_TABLE[byte as usize], bitwise_crc8(&[byte]));
    }
}

#[test]
fn table_driven_and_bitwise_agree() {
    let mut data = Vec::new();
    for i in 0..1000u32 {
        data.push((i.wrapping_mul(2654435761) >> 13) as u8);
        assert_eq!(calculate_crc8(&data), bitwise_crc8(&data));
    }
}

#[test]
fn known_checksums() {
    assert_eq!(calculate_crc8(&[0x42, 0x43]), 0x46);
    assert_eq!(calculate_crc8(&[0xde, 0xad, 0xbe, 0xef]), 0xea);
    assert_eq!(calculate_crc8(&[0x12, 0x34, 0x56, 0x78, 0x90]), 0xfc);
    assert_eq!(calculate_crc8(&[0xff; 5]), 0xc2);
    assert_eq!(calculate_crc8(&[0; 5]), 0);
    assert_eq!(calculate_crc8(&[0]), 0);
    assert_eq!(calculate_crc8(&[1]), 0x1d);
}

#[test]
fn data_followed_by_its_checksum_has_checksum_zero() {
    let mut data = Vec::new();
    for i in 0..=600u32 {
        let mut framed = data.clone();
        framed.push(calculate_crc8(&data));
        assert_eq!(calculate_crc8(&framed), 0);
        data.push((i * 7 + 3) as u8);
    }
}

#[test]
fn only_the_checksum_brings_the_register_to_zero() {
    let data = b"pricklybird";
    let crc = calculate_crc8(data);
    for last in 0..=255u8 {
        let mut framed = data.to_vec();
        framed.push(last);
        assert_eq!(calculate_crc8(&framed) == 0, last == crc);
    }
}
