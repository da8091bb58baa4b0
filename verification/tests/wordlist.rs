use pricklybird::text::{split_at_hyphens, to_lowercase_ascii, HYPHEN};
use pricklybird::wordlist::{
    byte_to_word, word_hash, word_to_byte, BYTE_WORDLIST, HASH_TABLE,
};
use pricklybird::bytes_to_words;

#[test]
fn every_word_is_four_lowercase_letters() {
    for word in BYTE_WORDLIST.iter() {
        assert!(word.iter().all(|letter| letter.is_ascii_lowercase()));
    }
}

#[test]
fn no_two_words_share_their_outer_letters() {
    let mut seen = std::collections::HashSet::new();
    for word in BYTE_WORDLIST.iter() {
        assert!(seen.insert((word[0], word[3])));
    }
    assert_eq!(seen.len(), 256);
}

#[test]
fn words_are_in_the_order_of_the_alphabet() {
    for pair in BYTE_WORDLIST.windows(2) {
        assert!(pair[0] < pair[1]);
    }
}

#[test]
fn known_words() {
    assert_eq!(&byte_to_word(0x00), b"acid");
    assert_eq!(&byte_to_word(0x12), b"blob");
    assert_eq!(&byte_to_word(0x34), b"eggs");
    assert_eq!(&byte_to_word(0x42), b"flea");
    assert_eq!(&byte_to_word(0x43), b"flux");
    assert_eq!(&byte_to_word(0x46), b"full");
    assert_eq!(&byte_to_word(0x56), b"hair");
    assert_eq!(&byte_to_word(0x78), b"king");
    assert_eq!(&byte_to_word(0x90), b"meta");
    assert_eq!(&byte_to_word(0xad), b"port");
    assert_eq!(&byte_to_word(0xbe), b"rust");
    assert_eq!(&byte_to_word(0xc2), b"sand");
    assert_eq!(&byte_to_word(0xde), b"turf");
    assert_eq!(&byte_to_word(0xea), b"void");
    assert_eq!(&byte_to_word(0xef), b"warn");
    assert_eq!(&byte_to_word(0xfc), b"yell");
    assert_eq!(&byte_to_word(0xff), b"zone");
}

#[test]
fn hash_takes_five_bits_of_each_letter() {
    assert_eq!(word_hash(b'a', b'd'), 32 + 4);
    assert_eq!(word_hash(b'z', b'z'), 26 * 32 + 26);
    assert_eq!(word_hash(b'z', b'e'), 26 * 32 + 5);
    assert_eq!(word_hash(0, 0), 0);
    assert_eq!(word_hash(b'@', b'`'), 0);
    assert_eq!(word_hash(0xff, 0xff), 1023);
    assert_eq!(word_hash(b'?', 0x7f), 1023);
    for first in 0..=255u8 {
        for last in 0..=255u8 {
            assert!(word_hash(first, last) < HASH_TABLE.len());
        }
    }
}

#[test]
fn hash_table_leads_back_to_every_byte() {
    for byte in 0..=255u8 {
        let word = byte_to_word(byte);
        assert_eq!(HASH_TABLE[word_hash(word[0], word[3])], byte);
        assert_eq!(word_to_byte(&word), Some(byte));
    }
}

#[test]
fn strings_outside_the_table_are_no_words() {
    assert_eq!(word_to_byte(b"rock"), None);
    assert_eq!(word_to_byte(b"zzzz"), None);
    assert_eq!(word_to_byte(b"acie"), None);
    assert_eq!(word_to_byte(b"ACID"), None);
    assert_eq!(word_to_byte(b"a  d"), None);
    assert_eq!(word_to_byte(&[0, 0, 0, 0]), None);
    assert_eq!(word_to_byte(&[0xff, 0xff, 0xff, 0xff]), None);
    assert_eq!(word_to_byte(b"risk"), word_to_byte(b"risk"));
    assert!(word_to_byte(b"risk").is_some());
    // Same outer letters as a word, other inner letters: 256 * 26 * 26 tries.
    let mut found = 0;
    for word in bytes_to_words(&(0..=255u8).collect::<Vec<u8>>()) {
        for second in b'a'..=b'z' {
            for third in b'a'..=b'z' {
                if word_to_byte(&[word[0], second, third, word[3]]).is_some() {
                    found += 1;
                }
            }
        }
    }
    assert_eq!(found, 256);
}

#[test]
fn lowercase_folds_only_the_capital_letters() {
    for byte in 0..=255u8 {
        assert_eq!(to_lowercase_ascii(byte), byte.to_ascii_lowercase());
    }
    assert_eq!(to_lowercase_ascii(b'A'), b'a');
    assert_eq!(to_lowercase_ascii(b'Z'), b'z');
    assert_eq!(to_lowercase_ascii(b'@'), b'@');
    assert_eq!(to_lowercase_ascii(b'['), b'[');
}

#[test]
fn splitting_keeps_empty_words() {
    assert_eq!(HYPHEN, b'-');
    assert_eq!(split_at_hyphens(""), vec![""]);
    assert_eq!(split_at_hyphens("orca"), vec!["orca"]);
    assert_eq!(split_at_hyphens("-"), vec!["", ""]);
    assert_eq!(split_at_hyphens("--"), vec!["", "", ""]);
    assert_eq!(split_at_hyphens("a-b"), vec!["a", "b"]);
    assert_eq!(split_at_hyphens("-risk-king-"), vec!["", "risk", "king", ""]);
    assert_eq!(split_at_hyphens("gäsp-®¿-–-x"), vec!["gäsp", "®¿", "–", "x"]);
    for text in ["", "-", "a--b-", "turf-port-rust-warn-void", "é-è--ê", "\u{2d}\u{ad}-\u{2010}"] {
        assert_eq!(split_at_hyphens(text), text.split('-').collect::<Vec<&str>>());
    }
}
