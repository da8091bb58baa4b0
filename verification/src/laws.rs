//! What holds of the codec as a whole: encoding can be undone, the case of
//! letters does not matter, nothing but an encoding can be decoded, and a
//! changed word or two exchanged neighbours never pass for an encoding.
use crate::codec::{
    decode_text, decode_word, decode_words, encode_text, frame, lemma_decode_words_each,
    word_text, words_text,
};
use crate::crc::{
    crc8, lemma_crc8_detects_substitution, lemma_crc8_detects_transposition,
    lemma_crc8_fixed_point, lemma_crc8_zero_iff_framed,
};
use crate::error::{DecodeError, Fault};
use crate::text::{
    ascii_bytes, fold_byte, fold_case, is_hyphen_free, join_words, lemma_join_split,
    lemma_split_join, lemma_split_nonempty, split_words,
};
use crate::wordlist::{
    lemma_word_index, lemma_words_are_lowercase, lemma_words_distinct, word_of,
};
use vstd::prelude::*;
use vstd::utf8::*;

verus! {

/// A word of the table holds no hyphen.
pub proof fn lemma_word_text_hyphen_free(byte: u8)
    ensures
        is_hyphen_free(word_text(byte)),
{
    lemma_words_are_lowercase();
    assert forall|i: int| 0 <= i < word_text(byte).len() implies #[trigger] word_text(byte)[i]
        != '-' by {
        assert(word_of(byte)[i] >= 0x61);
    }
}

/// Different bytes have different words as text.
pub proof fn lemma_word_text_distinct(byte1: u8, byte2: u8)
    requires
        byte1 != byte2,
    ensures
        word_text(byte1) != word_text(byte2),
{
    lemma_words_are_lowercase();
    if word_text(byte1) == word_text(byte2) {
        assert forall|i: int| 0 <= i < 4 implies word_of(byte1)[i] == word_of(byte2)[i] by {
            assert(word_text(byte1)[i] == word_text(byte2)[i]);
            assert(word_of(byte1)[i] <= 0x7a && word_of(byte2)[i] <= 0x7a);
        }
        assert(word_of(byte1) =~= word_of(byte2));
        lemma_words_distinct(byte1, byte2);
    }
}

/// The word of a byte decodes to that byte.
pub proof fn lemma_decode_word_text(byte: u8)
    ensures
        decode_word(word_text(byte)) == Ok::<u8, Fault>(byte),
{
    lemma_words_are_lowercase();
    let word = word_of(byte);
    let text = word_text(byte);
    assert forall|i: int| 0 <= i < text.len() implies '\0' <= #[trigger] text[i] <= '\u{7f}' by {
        assert(word[i] <= 0x7a);
    }
    assert(is_ascii_chars(text));
    assert forall|i: int| 0 <= i < 4 implies fold_case(ascii_bytes(text))[i] == word[i] by {
        assert(0x61 <= word[i] <= 0x7a);
        assert(text[i] as u8 == word[i]);
    }
    assert(fold_case(ascii_bytes(text)) =~= word);
    lemma_word_index(byte);
}

/// The words of bytes decode to those bytes.
pub proof fn lemma_decode_words_text(bytes: Seq<u8>)
    ensures
        decode_words(words_text(bytes)) == Ok::<Seq<u8>, Fault>(bytes),
    decreases bytes.len(),
{
    if bytes.len() == 0 {
        assert(bytes =~= Seq::empty());
    } else {
        lemma_decode_words_text(bytes.drop_last());
        lemma_decode_word_text(bytes.last());
        assert(words_text(bytes).drop_last() =~= words_text(bytes.drop_last()));
        assert(bytes.drop_last().push(bytes.last()) =~= bytes);
    }
}

/// The joined words of two or more bytes decode to all but the last byte
/// if the checksum of the bytes is zero, and have a checksum fault if not.
pub proof fn lemma_decode_joined_words(bytes: Seq<u8>)
    requires
        bytes.len() >= 2,
    ensures
        decode_text(join_words(words_text(bytes))) == if crc8(bytes) != 0 {
            Err::<Seq<u8>, Fault>(Fault::Checksum)
        } else {
            Ok::<Seq<u8>, Fault>(bytes.drop_last())
        },
{
    let words = words_text(bytes);
    assert forall|i: int| 0 <= i < words.len() implies is_hyphen_free(#[trigger] words[i]) by {
        lemma_word_text_hyphen_free(bytes[i]);
    }
    lemma_split_join(words);
    lemma_decode_words_text(bytes);
}

/// Decoding undoes encoding, for all data but the empty: the empty text,
/// which encodes no data, is too short to be decoded.
pub proof fn lemma_round_trip(data: Seq<u8>)
    requires
        data.len() > 0,
    ensures
        decode_text(encode_text(data)) == Ok::<Seq<u8>, Fault>(data),
{
    lemma_crc8_fixed_point(data);
    lemma_decode_joined_words(frame(data));
    assert(frame(data).drop_last() =~= data);
}

/// An ASCII uppercase letter as its lowercase letter; any other character
/// as itself.
pub open spec fn fold_char(c: char) -> char {
    if c <= '\u{7f}' {
        fold_byte(c as u8) as char
    } else {
        c
    }
}

/// No character lies below the first.
proof fn lemma_char_lower_bound(c: char)
    ensures
        '\0' <= c,
{
}

/// Folding keeps a character inside or outside ASCII, folds an ASCII
/// character as its byte is folded, and takes nothing but the hyphen to
/// the hyphen.
pub proof fn lemma_fold_char(c: char)
    ensures
        c <= '\u{7f}' <==> fold_char(c) <= '\u{7f}',
        c <= '\u{7f}' ==> fold_char(c) as u8 == fold_byte(c as u8),
        fold_char(c) == '-' <==> c == '-',
{
    if c <= '\u{7f}' {
        let byte = c as u8;
        assert(byte as char == c);
        assert(fold_byte(byte) <= 0x7f);
        assert((fold_byte(byte) as char) as u8 == fold_byte(byte));
    }
}

/// True when the two texts differ at most in the case of ASCII letters.
pub open spec fn same_but_for_case(text1: Seq<char>, text2: Seq<char>) -> bool {
    &&& text1.len() == text2.len()
    &&& forall|i: int| 0 <= i < text1.len() ==> fold_char(#[trigger] text1[i]) == fold_char(text2[i])
}

/// Texts that differ at most in case have as many words, which differ at
/// most in case.
pub proof fn lemma_split_same_but_for_case(text1: Seq<char>, text2: Seq<char>)
    requires
        same_but_for_case(text1, text2),
    ensures
        split_words(text1).len() == split_words(text2).len(),
        forall|i: int|
            0 <= i < split_words(text1).len() ==> same_but_for_case(
                #[trigger] split_words(text1)[i],
                split_words(text2)[i],
            ),
    decreases text1.len(),
{
    if text1.len() > 0 {
        let tail1 = text1.drop_first();
        let tail2 = text2.drop_first();
        assert forall|i: int| 0 <= i < tail1.len() implies fold_char(#[trigger] tail1[i])
            == fold_char(tail2[i]) by {
            assert(fold_char(text1[i + 1]) == fold_char(text2[i + 1]));
        }
        lemma_split_same_but_for_case(tail1, tail2);
        lemma_split_nonempty(tail1);
        lemma_split_nonempty(tail2);
        assert(fold_char(text1[0]) == fold_char(text2[0]));
        lemma_fold_char(text1[0]);
        lemma_fold_char(text2[0]);
        let rest1 = split_words(tail1);
        let rest2 = split_words(tail2);
        assert(same_but_for_case(rest1[0], rest2[0]));
        if text1[0] == '-' {
            assert(text2[0] == '-');
            assert forall|i: int| 0 <= i < split_words(text1).len() implies same_but_for_case(
                #[trigger] split_words(text1)[i],
                split_words(text2)[i],
            ) by {
                if i > 0 {
                    assert(same_but_for_case(rest1[i - 1], rest2[i - 1]));
                }
            }
        } else {
            assert(text2[0] != '-');
            let word1 = seq![text1[0]] + rest1[0];
            let word2 = seq![text2[0]] + rest2[0];
            assert forall|j: int| 0 <= j < word1.len() implies fold_char(#[trigger] word1[j])
                == fold_char(word2[j]) by {
                if j > 0 {
                    assert(fold_char(rest1[0][j - 1]) == fold_char(rest2[0][j - 1]));
                }
            }
            assert forall|i: int| 0 <= i < split_words(text1).len() implies same_but_for_case(
                #[trigger] split_words(text1)[i],
                split_words(text2)[i],
            ) by {
                if i > 0 {
                    assert(same_but_for_case(rest1[i], rest2[i]));
                }
            }
        }
    }
}

/// Words that differ at most in case stand for the same byte, or have the
/// same fault.
pub proof fn lemma_decode_word_ignores_case(word1: Seq<char>, word2: Seq<char>)
    requires
        same_but_for_case(word1, word2),
    ensures
        decode_word(word1) == decode_word(word2),
{
    assert forall|i: int|
        #![trigger word1[i]]
        #![trigger word2[i]]
        0 <= i < word1.len() implies (word1[i] <= '\u{7f}' <==> word2[i] <= '\u{7f}') && (word1[i]
            <= '\u{7f}' ==> fold_byte(word1[i] as u8) == fold_byte(word2[i] as u8)) by {
        assert(fold_char(word1[i]) == fold_char(word2[i]));
        lemma_fold_char(word1[i]);
        lemma_fold_char(word2[i]);
    }
    if is_ascii_chars(word1) {
        assert forall|i: int| 0 <= i < word2.len() implies '\0' <= #[trigger] word2[i]
            <= '\u{7f}' by {
            assert('\0' <= word1[i] <= '\u{7f}');
            lemma_char_lower_bound(word2[i]);
        }
        assert(fold_case(ascii_bytes(word1)) =~= fold_case(ascii_bytes(word2)));
    } else {
        let i = choose|i: int| 0 <= i < word1.len() && !('\0' <= #[trigger] word1[i] <= '\u{7f}');
        lemma_char_lower_bound(word1[i]);
        assert(!('\0' <= word2[i] <= '\u{7f}'));
    }
}

/// Lists of words that differ at most in case stand for the same bytes, or
/// have the same fault.
pub proof fn lemma_decode_words_ignore_case(words1: Seq<Seq<char>>, words2: Seq<Seq<char>>)
    requires
        words1.len() == words2.len(),
        forall|i: int|
            0 <= i < words1.len() ==> same_but_for_case(#[trigger] words1[i], words2[i]),
    ensures
        decode_words(words1) == decode_words(words2),
    decreases words1.len(),
{
    if words1.len() > 0 {
        assert forall|i: int| 0 <= i < words1.drop_last().len() implies same_but_for_case(
            #[trigger] words1.drop_last()[i],
            words2.drop_last()[i],
        ) by {
            assert(same_but_for_case(words1[i], words2[i]));
        }
        lemma_decode_words_ignore_case(words1.drop_last(), words2.drop_last());
        assert(same_but_for_case(words1[words1.len() - 1], words2[words1.len() - 1]));
        lemma_decode_word_ignores_case(words1.last(), words2.last());
    }
}

/// Decoding does not depend on the case of the letters: texts that differ
/// at most in the case of ASCII letters decode to the same data, or have
/// the same fault.
pub proof fn lemma_decode_ignores_case(text1: Seq<char>, text2: Seq<char>)
    requires
        same_but_for_case(text1, text2),
    ensures
        decode_text(text1) == decode_text(text2),
{
    lemma_split_same_but_for_case(text1, text2);
    lemma_decode_words_ignore_case(split_words(text1), split_words(text2));
}

/// Texts put together from parts that differ at most in case differ at
/// most in case.
pub proof fn lemma_concat_same_but_for_case(
    front1: Seq<char>,
    back1: Seq<char>,
    front2: Seq<char>,
    back2: Seq<char>,
)
    requires
        same_but_for_case(front1, front2),
        same_but_for_case(back1, back2),
    ensures
        same_but_for_case(front1 + back1, front2 + back2),
{
    assert forall|i: int| 0 <= i < (front1 + back1).len() implies fold_char(
        #[trigger] (front1 + back1)[i],
    ) == fold_char((front2 + back2)[i]) by {
        if i < front1.len() {
            assert(fold_char(front1[i]) == fold_char(front2[i]));
        } else {
            assert(fold_char(back1[i - front1.len()]) == fold_char(back2[i - front1.len()]));
        }
    }
}

/// Lists of words that differ at most in case, joined, differ at most in
/// case.
pub proof fn lemma_join_same_but_for_case(words1: Seq<Seq<char>>, words2: Seq<Seq<char>>)
    requires
        words1.len() == words2.len(),
        forall|i: int|
            0 <= i < words1.len() ==> same_but_for_case(#[trigger] words1[i], words2[i]),
    ensures
        same_but_for_case(join_words(words1), join_words(words2)),
    decreases words1.len(),
{
    if words1.len() == 1 {
        assert(same_but_for_case(words1[0], words2[0]));
    } else if words1.len() > 1 {
        assert forall|i: int| 0 <= i < words1.drop_last().len() implies same_but_for_case(
            #[trigger] words1.drop_last()[i],
            words2.drop_last()[i],
        ) by {
            assert(same_but_for_case(words1[i], words2[i]));
        }
        lemma_join_same_but_for_case(words1.drop_last(), words2.drop_last());
        assert(same_but_for_case(words1[words1.len() - 1], words2[words1.len() - 1]));
        lemma_concat_same_but_for_case(
            join_words(words1.drop_last()),
            seq!['-'],
            join_words(words2.drop_last()),
            seq!['-'],
        );
        lemma_concat_same_but_for_case(
            join_words(words1.drop_last()) + seq!['-'],
            words1.last(),
            join_words(words2.drop_last()) + seq!['-'],
            words2.last(),
        );
    }
}

/// A word that stands for a byte is the word of that byte but for case.
pub proof fn lemma_decoded_word_is_word_text(word: Seq<char>, byte: u8)
    requires
        decode_word(word) == Ok::<u8, Fault>(byte),
    ensures
        same_but_for_case(word, word_text(byte)),
{
    lemma_words_are_lowercase();
    let folded = fold_case(ascii_bytes(word));
    assert(word_of(byte) == folded);
    assert forall|i: int| 0 <= i < word.len() implies fold_char(#[trigger] word[i]) == fold_char(
        word_text(byte)[i],
    ) by {
        assert('\0' <= word[i] <= '\u{7f}');
        assert(folded[i] == fold_byte(word[i] as u8));
        assert(0x61 <= word_of(byte)[i] <= 0x7a);
        lemma_fold_char(word[i]);
        lemma_fold_char(word_text(byte)[i]);
    }
}

/// Decoding accepts the encodings and nothing else: a text decodes to some
/// data exactly if the data is not empty and the text is the encoding of
/// the data but for the case of its letters.
pub proof fn lemma_decodes_exactly_the_encodings(text: Seq<char>, data: Seq<u8>)
    ensures
        decode_text(text) == Ok::<Seq<u8>, Fault>(data) <==> data.len() > 0 && same_but_for_case(
            text,
            encode_text(data),
        ),
{
    if data.len() > 0 && same_but_for_case(text, encode_text(data)) {
        lemma_round_trip(data);
        lemma_decode_ignores_case(text, encode_text(data));
    }
    if decode_text(text) == Ok::<Seq<u8>, Fault>(data) {
        let words = split_words(text);
        let framed = decode_words(words)->Ok_0;
        lemma_decode_words_each(words);
        lemma_crc8_zero_iff_framed(framed);
        assert(framed =~= frame(data));
        assert forall|i: int| 0 <= i < words.len() implies same_but_for_case(
            #[trigger] words[i],
            words_text(framed)[i],
        ) by {
            assert(decode_word(words[i]) == Ok::<u8, Fault>(framed[i]));
            lemma_decoded_word_is_word_text(words[i], framed[i]);
        }
        lemma_join_same_but_for_case(words, words_text(framed));
        lemma_join_split(text);
    }
}

/// A changed word is detected: if one word of an encoding, that of a data
/// byte or that of the checksum, is replaced by the word of another byte,
/// the text has a different word there, every word of it is still in the
/// table, and decoding finds a checksum that does not fit.
pub proof fn lemma_changed_word_detected(data: Seq<u8>, index: int, byte: u8)
    requires
        data.len() > 0,
        0 <= index <= data.len(),
        byte != frame(data)[index],
    ensures
        word_text(byte) != word_text(frame(data)[index]),
        decode_words(words_text(frame(data)).update(index, word_text(byte))) is Ok,
        decode_text(join_words(words_text(frame(data)).update(index, word_text(byte)))) == Err::<
            Seq<u8>,
            Fault,
        >(Fault::Checksum),
{
    let framed = frame(data);
    let changed = framed.update(index, byte);
    lemma_word_text_distinct(byte, framed[index]);
    assert(words_text(framed).update(index, word_text(byte)) =~= words_text(changed));
    lemma_decode_words_text(changed);
    lemma_crc8_fixed_point(data);
    lemma_crc8_detects_substitution(framed, index, byte);
    lemma_decode_joined_words(changed);
}

/// A flipped bit is detected: if one bit of one data byte is flipped and
/// the word of that byte replaced accordingly, decoding finds a checksum
/// that does not fit.
pub proof fn lemma_flipped_bit_detected(data: Seq<u8>, index: int, bit: u8)
    requires
        0 <= index < data.len(),
        bit < 8,
    ensures
        word_text(data[index] ^ (1u8 << bit)) != word_text(data[index]),
        decode_text(
            join_words(
                words_text(frame(data)).update(index, word_text(data[index] ^ (1u8 << bit))),
            ),
        ) == Err::<Seq<u8>, Fault>(Fault::Checksum),
{
    let byte = data[index];
    assert(bit < 8 ==> byte ^ (1u8 << bit) != byte) by (bit_vector);
    lemma_changed_word_detected(data, index, byte ^ (1u8 << bit));
}

/// Two exchanged neighbours are detected: if two words of an encoding that
/// stand side by side, and are not the same word, change places, decoding
/// finds a checksum that does not fit. (Exchanging two equal words changes
/// nothing.)
pub proof fn lemma_swapped_words_detected(data: Seq<u8>, index: int)
    requires
        data.len() > 0,
        0 <= index < data.len(),
        frame(data)[index] != frame(data)[index + 1],
    ensures
        decode_text(
            join_words(
                words_text(frame(data)).update(index, words_text(frame(data))[index + 1]).update(
                    index + 1,
                    words_text(frame(data))[index],
                ),
            ),
        ) == Err::<Seq<u8>, Fault>(Fault::Checksum),
{
    let framed = frame(data);
    let swapped = framed.update(index, framed[index + 1]).update(index + 1, framed[index]);
    assert(words_text(framed).update(index, words_text(framed)[index + 1]).update(
        index + 1,
        words_text(framed)[index],
    ) =~= words_text(swapped));
    lemma_crc8_fixed_point(data);
    lemma_crc8_detects_transposition(framed, index);
    lemma_decode_joined_words(swapped);
}

/// A fault in the shape of a text is never taken for a checksum that does
/// not fit: a text with fewer than two words has that fault, a text with a
/// faulty word has the fault of its first faulty word, and a single word
/// never has a checksum fault. The error that reports such a fault is a
/// general error.
pub proof fn lemma_structural_faults(text: Seq<char>)
    ensures
        split_words(text).len() < 2 ==> decode_text(text) == Err::<Seq<u8>, Fault>(
            Fault::TooFewWords,
        ),
        (exists|i: int|
            0 <= i < split_words(text).len() && #[trigger] decode_word(split_words(text)[i]) is Err)
            ==> (decode_text(text) matches Err(fault) && fault.is_structural()),
        forall|error: DecodeError, fault: Fault|
            error.reports(fault) && fault.is_structural() ==> error is General,
{
    let words = split_words(text);
    lemma_decode_words_each(words);
    lemma_decode_words_structural(words);
}

/// A fault among words is one in the shape of the text.
pub proof fn lemma_decode_words_structural(words: Seq<Seq<char>>)
    ensures
        decode_words(words) matches Err(fault) ==> fault.is_structural(),
    decreases words.len(),
{
    if words.len() > 0 {
        lemma_decode_words_structural(words.drop_last());
    }
}

} // verus!
