use pricklybird::codec::read_word;
use pricklybird::text::join_with_hyphens;
use pricklybird::{
    bytes_to_words, calculate_crc8, convert_from_pricklybird, convert_to_pricklybird,
    words_to_bytes, DecodeError, Fault,
};

/// Seed of the pseudorandom test data.
const TEST_DATA_SEED: u128 = 1;
/// How many bytes of test data the conversion tests use.
const TEST_DATA_BYTES: usize = 4096;

/// Generates pseudorandom test data with the Lehmer64 generator.
fn generate_test_data(seed: u128) -> Vec<u8> {
    const MULTIPLIER: u128 = 0xDA942042E4DD58B5;
    const WARMUP_ITERATIONS: usize = 128;
    let mut state = seed;
    // Mix up the state a little to make up for a small seed.
    for _ in 0..WARMUP_ITERATIONS {
        state = state.wrapping_mul(MULTIPLIER);
    }

    let mut result = Vec::<u8>::with_capacity(TEST_DATA_BYTES);
    for _ in 0..(TEST_DATA_BYTES / 8) {
        state = state.wrapping_mul(MULTIPLIER);
        let random_val = (state >> 64) as u64;
        result.extend_from_slice(&random_val.to_le_bytes());
    }
    result
}

/// The standard vectors of the format.
#[test]
fn test_vectors() {
    let test_vectors = vec![
        (vec![0xDEu8, 0xAD, 0xBE, 0xEF], "turf-port-rust-warn-void"),
        (vec![0x42u8, 0x43], "flea-flux-full"),
        (
            vec![0x12u8, 0x34, 0x56, 0x78, 0x90],
            "blob-eggs-hair-king-meta-yell",
        ),
        (vec![0u8; 5], "acid-acid-acid-acid-acid-acid"),
        (vec![0xFFu8; 5], "zone-zone-zone-zone-zone-sand"),
    ];

    for (data, words) in test_vectors {
        // Bytes to words.
        assert_eq!(
            words,
            convert_to_pricklybird(&data),
            "Converter failed to convert {:?} test vector to pricklybird",
            data
        );

        // Words to bytes.
        assert_eq!(
            data,
            convert_from_pricklybird(words).unwrap(),
            "Converter failed to convert {} test vector to bytes",
            words
        );
    }
}

/// Conversion to words and back on pseudorandom test data.
#[test]
fn test_simple_conversion() {
    let test_data = generate_test_data(TEST_DATA_SEED);
    let coded_words = convert_to_pricklybird(&test_data);
    let decoded_data = convert_from_pricklybird(&coded_words).unwrap();
    assert_eq!(
        test_data, decoded_data,
        "Converter did not correctly endcode or decode data."
    );
}

/// Input in mixed case is decoded.
#[test]
fn test_uppercase() {
    assert_eq!(
        vec![0xDEu8, 0xAD, 0xBE, 0xEF],
        convert_from_pricklybird("TUrF-Port-RUST-warn-vOid").unwrap(),
        "Converter did not correctly decode upercase data."
    );
}

/// A replaced word is detected by the CRC-8.
#[test]
fn test_error_detection_bit_flip() {
    let mut test_data = generate_test_data(TEST_DATA_SEED);
    let coded_words = convert_to_pricklybird(&test_data);
    test_data[0] ^= 1;
    let incorrect_word = String::from_utf8(bytes_to_words(&test_data[0..1])[0].to_vec()).unwrap();
    let incorrect_coded_words = format!("{}{}", &incorrect_word[..4], &coded_words[4..]);
    assert!(
        convert_from_pricklybird(&incorrect_coded_words).is_err(),
        "Converter did not detect error in corrupted input."
    );
}

/// Two exchanged neighbours are detected by the CRC-8.
#[test]
fn test_error_detection_adjacent_swap() {
    let test_data = generate_test_data(TEST_DATA_SEED);
    let coded_words = convert_to_pricklybird(&test_data);
    let mut word_vec: Vec<&str> = coded_words.split('-').collect();
    word_vec.swap(0, 1);
    let swapped_coded_words = word_vec.join("-");
    assert!(
        matches!(
            convert_from_pricklybird(&swapped_coded_words),
            Err(DecodeError::CRCError)
        ),
        "Converter did not detect error caused by word swap."
    );
}

/// Edge cases give the right errors.
#[test]
fn test_unusual_input() {
    let edge_cases = vec![
        ("", "empty input"),
        ("orca", "input to short"),
        ("®¿", "non ASCII iput."),
        ("gäsp-risk-king-orca-husk", "non ASCII iput."),
        ("-risk-king-orca-husk", "incorrectly formated input"),
        ("gasp-rock-king-orca-husk", "incorrect word in input"),
        // No index out of bounds when the highest letters index the hash table.
        ("zzzz-king", "incorrect word in input"),
    ];
    for (edge_case_input, error_reason) in edge_cases {
        assert!(
            convert_from_pricklybird(edge_case_input).is_err(),
            "{}",
            error_reason
        );
    }
}

/// Empty input gives empty output.
#[test]
fn test_empty_input() {
    assert_eq!("", convert_to_pricklybird(&[]));
    assert!(bytes_to_words(&[]).is_empty());
    assert!(words_to_bytes(&Vec::<&str>::new()).unwrap().is_empty());
    let test_data: &[u8] = &[];
    let result = calculate_crc8(test_data);
    assert_eq!(0, result, "CRC-8 of empty data should be 0.");
}

fn general_reason(result: Result<Vec<u8>, DecodeError>) -> String {
    match result {
        Err(DecodeError::General(reason)) => reason,
        other => panic!("expected a general error, got {:?}", other),
    }
}

#[test]
fn structural_faults_name_their_reason() {
    assert_eq!(
        general_reason(convert_from_pricklybird("")),
        "Input must be at least two words long."
    );
    assert_eq!(
        general_reason(convert_from_pricklybird("orca")),
        "Input must be at least two words long."
    );
    // One word that is not ASCII is first of all one word too few.
    assert_eq!(
        general_reason(convert_from_pricklybird("®¿")),
        "Input must be at least two words long."
    );
    assert_eq!(
        general_reason(convert_from_pricklybird("gäsp-risk-king-orca-husk")),
        "Input must only contain ASCII compatible UTF-8."
    );
    assert_eq!(
        general_reason(convert_from_pricklybird("-risk-king-orca-husk")),
        "Input words must be four characters long."
    );
    assert_eq!(
        general_reason(convert_from_pricklybird("gasp-risk-king-orca-husk-")),
        "Input words must be four characters long."
    );
    assert_eq!(
        general_reason(convert_from_pricklybird("gasp--risk")),
        "Input words must be four characters long."
    );
    assert_eq!(
        general_reason(convert_from_pricklybird("gasps-risk")),
        "Input words must be four characters long."
    );
    assert_eq!(
        general_reason(convert_from_pricklybird("gasp-rock-king-orca-husk")),
        "Invalid word detected in input."
    );
    assert_eq!(
        general_reason(convert_from_pricklybird("zzzz-king")),
        "Invalid word detected in input."
    );
    assert_eq!(
        general_reason(convert_from_pricklybird("flea flux-full")),
        "Input words must be four characters long."
    );
}

#[test]
fn first_faulty_word_decides_the_reason() {
    assert_eq!(
        general_reason(convert_from_pricklybird("rock-gäsp-toolong")),
        "Invalid word detected in input."
    );
    assert_eq!(
        general_reason(convert_from_pricklybird("toolong-gäsp-rock")),
        "Input words must be four characters long."
    );
    assert_eq!(
        general_reason(convert_from_pricklybird("gäsp-toolong-rock")),
        "Input must only contain ASCII compatible UTF-8."
    );
    // A faulty word is reported even where the checksum would not fit either.
    assert_eq!(
        general_reason(convert_from_pricklybird("flea-flux-fulx")),
        "Invalid word detected in input."
    );
}

#[test]
fn words_of_the_table_with_a_wrong_checksum_give_a_checksum_error() {
    assert!(matches!(
        convert_from_pricklybird("flea-flux-void"),
        Err(DecodeError::CRCError)
    ));
    assert!(matches!(
        convert_from_pricklybird("acid-zone"),
        Err(DecodeError::CRCError)
    ));
    // The same word twice is one byte and a checksum that does not fit,
    // except for the word of zero.
    assert!(matches!(
        convert_from_pricklybird("king-king"),
        Err(DecodeError::CRCError)
    ));
    assert_eq!(convert_from_pricklybird("acid-acid").unwrap(), vec![0u8]);
}

#[test]
fn boundary_indices_of_the_hash_table_are_rejected_as_words() {
    // `?` and the delete character have all five low bits set, `@` and the
    // backquote none: these words hash to the last and the first entry.
    for input in ["?ab?-king", "\u{7f}ab\u{7f}-king", "@ab@-king", "`ab`-king", "    -king"] {
        assert_eq!(
            general_reason(convert_from_pricklybird(input)),
            "Invalid word detected in input.",
            "{:?}",
            input
        );
    }
}

#[test]
fn a_valid_text_of_five_words_decodes() {
    assert_eq!(
        convert_to_pricklybird(&convert_from_pricklybird("gasp-risk-king-orca-husk").unwrap()),
        "gasp-risk-king-orca-husk"
    );
    assert_eq!(
        convert_from_pricklybird("gasp-risk-king-orca-husk").unwrap()[2],
        0x78
    );
}

#[test]
fn round_trip_of_every_length_up_to_300() {
    let test_data = generate_test_data(7);
    for length in 1..=300 {
        let data = &test_data[..length];
        let text = convert_to_pricklybird(data);
        assert_eq!(text.len(), 5 * (length + 1) - 1);
        assert_eq!(convert_from_pricklybird(&text).unwrap(), data);
    }
}

#[test]
fn round_trip_of_every_single_byte() {
    for byte in 0..=255u8 {
        let text = convert_to_pricklybird(&[byte]);
        assert_eq!(convert_from_pricklybird(&text).unwrap(), vec![byte]);
    }
}

#[test]
fn the_empty_text_encodes_no_data_and_cannot_be_decoded() {
    assert_eq!(convert_to_pricklybird(&[]), "");
    assert!(matches!(
        convert_from_pricklybird(""),
        Err(DecodeError::General(_))
    ));
}

#[test]
fn case_of_letters_does_not_matter() {
    let data = generate_test_data(3);
    let text = convert_to_pricklybird(&data[..64]);
    let upper = text.to_ascii_uppercase();
    let mixed: String = text
        .chars()
        .enumerate()
        .map(|(i, c)| if i % 3 == 0 { c.to_ascii_uppercase() } else { c })
        .collect();
    assert_eq!(convert_from_pricklybird(&upper).unwrap(), &data[..64]);
    assert_eq!(convert_from_pricklybird(&mixed).unwrap(), &data[..64]);
    // Faults are the same in any case too.
    assert_eq!(
        general_reason(convert_from_pricklybird("GASP-ROCK-king-orca-husk")),
        "Invalid word detected in input."
    );
    assert!(matches!(
        convert_from_pricklybird("FLEA-flux-VOID"),
        Err(DecodeError::CRCError)
    ));
}

#[test]
fn every_flipped_bit_is_detected() {
    let data = generate_test_data(5)[..24].to_vec();
    for index in 0..data.len() {
        for bit in 0..8 {
            let mut changed = data.clone();
            changed[index] ^= 1 << bit;
            let honest = convert_to_pricklybird(&data);
            let mut words: Vec<String> = honest.split('-').map(String::from).collect();
            let word = String::from_utf8(bytes_to_words(&changed[index..index + 1])[0].to_vec())
                .unwrap();
            assert_ne!(words[index], word);
            words[index] = word;
            assert!(matches!(
                convert_from_pricklybird(&words.join("-")),
                Err(DecodeError::CRCError)
            ));
        }
    }
}

#[test]
fn every_changed_word_is_detected() {
    let data = [0x42u8, 0x43];
    let honest = convert_to_pricklybird(&data);
    let words: Vec<&str> = honest.split('-').collect();
    for index in 0..words.len() {
        for byte in 0..=255u8 {
            let word = String::from_utf8(bytes_to_words(&[byte])[0].to_vec()).unwrap();
            if word == words[index] {
                continue;
            }
            let mut changed: Vec<&str> = words.clone();
            changed[index] = &word;
            assert!(matches!(
                convert_from_pricklybird(&changed.join("-")),
                Err(DecodeError::CRCError)
            ));
        }
    }
}

#[test]
fn every_exchange_of_different_neighbours_is_detected() {
    let data = generate_test_data(11)[..200].to_vec();
    let honest = convert_to_pricklybird(&data);
    let words: Vec<&str> = honest.split('-').collect();
    for index in 0..words.len() - 1 {
        let mut swapped = words.clone();
        swapped.swap(index, index + 1);
        let result = convert_from_pricklybird(&swapped.join("-"));
        if words[index] == words[index + 1] {
            assert_eq!(result.unwrap(), data);
        } else {
            assert!(matches!(result, Err(DecodeError::CRCError)));
        }
    }
}

#[test]
fn exchange_of_equal_neighbours_changes_nothing() {
    let honest = convert_to_pricklybird(&[0, 0, 0, 0, 0]);
    let mut words: Vec<&str> = honest.split('-').collect();
    words.swap(2, 3);
    assert_eq!(
        convert_from_pricklybird(&words.join("-")).unwrap(),
        vec![0u8; 5]
    );
}

#[test]
fn bytes_to_words_gives_the_letters_of_each_word() {
    let data = [0x42u8, 0x43];
    let words = bytes_to_words(&data);
    assert_eq!(words, [[102, 108, 101, 97], [102, 108, 117, 120]]);
    assert_eq!(bytes_to_words(&[0, 255]), [*b"acid", *b"zone"]);
}

#[test]
fn words_to_bytes_reads_words_without_a_checksum() {
    let words = vec!["flea", "flux"];
    assert_eq!(words_to_bytes(&words).unwrap(), vec![0x42, 0x43]);
    assert_eq!(words_to_bytes(&vec!["ZONE"]).unwrap(), vec![0xff]);
    assert_eq!(
        general_reason(words_to_bytes(&vec!["flea", "fl-x"])),
        "Invalid word detected in input."
    );
    assert_eq!(
        general_reason(words_to_bytes(&vec!["flea", ""])),
        "Input words must be four characters long."
    );
    assert_eq!(
        general_reason(words_to_bytes(&vec!["fleä"])),
        "Input must only contain ASCII compatible UTF-8."
    );
    assert_eq!(
        general_reason(words_to_bytes(&vec!["flea-flux"])),
        "Input words must be four characters long."
    );
}

#[test]
fn errors_read_as_sentences() {
    let general = convert_from_pricklybird("orca").unwrap_err();
    assert_eq!(
        general.message(),
        "Unable to decode pricklybird words: Input must be at least two words long."
    );
    let checksum = convert_from_pricklybird("flea-flux-void").unwrap_err();
    assert_eq!(checksum.message(), "Invalid CRC detected.");
    assert_eq!(
        DecodeError::General(String::from("why")).message(),
        "Unable to decode pricklybird words: why"
    );
}

#[test]
fn every_fault_has_its_error() {
    let reason = |fault: Fault| match fault.into_error() {
        DecodeError::General(reason) => reason,
        DecodeError::CRCError => String::from("checksum"),
    };
    assert_eq!(reason(Fault::TooFewWords), "Input must be at least two words long.");
    assert_eq!(reason(Fault::NotAscii), "Input must only contain ASCII compatible UTF-8.");
    assert_eq!(reason(Fault::WordLength), "Input words must be four characters long.");
    assert_eq!(reason(Fault::UnknownWord), "Invalid word detected in input.");
    assert_eq!(reason(Fault::Checksum), "checksum");
    assert!(matches!(Fault::Checksum.into_error(), DecodeError::CRCError));
}

#[test]
fn single_words_are_read_in_any_case() {
    assert_eq!(read_word("flea"), Ok(0x42));
    assert_eq!(read_word("FLEA"), Ok(0x42));
    assert_eq!(read_word("fLeA"), Ok(0x42));
    assert_eq!(read_word("zone"), Ok(0xff));
    assert_eq!(read_word("acid"), Ok(0x00));
    assert_eq!(read_word(""), Err(Fault::WordLength));
    assert_eq!(read_word("fle"), Err(Fault::WordLength));
    assert_eq!(read_word("fleas"), Err(Fault::WordLength));
    assert_eq!(read_word("fleä"), Err(Fault::NotAscii));
    assert_eq!(read_word("ä"), Err(Fault::NotAscii));
    assert_eq!(read_word("flee"), Err(Fault::UnknownWord));
    assert_eq!(read_word("f_ea"), Err(Fault::UnknownWord));
    assert_eq!(read_word("FLEa"), Ok(0x42));
    // The Kelvin sign lowers to `k`, but it is not ASCII.
    assert_eq!(read_word("\u{212a}ing"), Err(Fault::NotAscii));
}

#[test]
fn words_are_joined_by_single_hyphens() {
    assert_eq!(join_with_hyphens(&vec![]), b"");
    assert_eq!(join_with_hyphens(&vec![*b"flea"]), b"flea");
    assert_eq!(
        join_with_hyphens(&vec![*b"flea", *b"flux", *b"full"]),
        b"flea-flux-full"
    );
}
