//! The codec: bytes to words and back, with and without the checksum.
use crate::crc::{calculate_crc8, crc8};
use crate::error::{DecodeError, Fault};
use crate::text::{
    ascii_bytes, ascii_text, ascii_to_string, fold_case, is_ascii_bytes, join_with_hyphens,
    join_words, split_at_hyphens, split_words, to_lowercase_ascii, word_views,
};
use crate::wordlist::{byte_to_word, lemma_words_are_lowercase, word_index, word_of, word_to_byte};
use vstd::prelude::*;
use vstd::string::*;
use vstd::utf8::*;

verus! {

/// The word of `byte` as text.
pub open spec fn word_text(byte: u8) -> Seq<char> {
    ascii_text(word_of(byte))
}

/// The words of the bytes, in order.
pub open spec fn words_text(bytes: Seq<u8>) -> Seq<Seq<char>> {
    Seq::new(bytes.len(), |i: int| word_text(bytes[i]))
}

/// The data followed by its checksum.
pub open spec fn frame(data: Seq<u8>) -> Seq<u8> {
    data.push(crc8(data))
}

/// The encoding of `data`: empty for no data, else the words of the data
/// and of its checksum, joined by hyphens.
pub open spec fn encode_text(data: Seq<u8>) -> Seq<char> {
    if data.len() == 0 {
        Seq::empty()
    } else {
        join_words(words_text(frame(data)))
    }
}

/// The byte that `word` stands for, whatever the case of its letters, or
/// the fault that it has.
pub open spec fn decode_word(word: Seq<char>) -> Result<u8, Fault> {
    if !is_ascii_chars(word) {
        Err(Fault::NotAscii)
    } else if word.len() != 4 {
        Err(Fault::WordLength)
    } else {
        match word_index(fold_case(ascii_bytes(word))) {
            Some(byte) => Ok(byte),
            None => Err(Fault::UnknownWord),
        }
    }
}

/// The bytes that the words stand for, or the fault of the first word that
/// has one.
pub open spec fn decode_words(words: Seq<Seq<char>>) -> Result<Seq<u8>, Fault>
    decreases words.len(),
{
    if words.len() == 0 {
        Ok(Seq::empty())
    } else {
        match decode_words(words.drop_last()) {
            Err(fault) => Err(fault),
            Ok(bytes) => match decode_word(words.last()) {
                Err(fault) => Err(fault),
                Ok(byte) => Ok(bytes.push(byte)),
            },
        }
    }
}

/// The data that `text` encodes, or the fault that it has: too few words,
/// else the fault of the first faulty word, else a checksum that does not
/// fit.
pub open spec fn decode_text(text: Seq<char>) -> Result<Seq<u8>, Fault> {
    let words = split_words(text);
    if words.len() < 2 {
        Err(Fault::TooFewWords)
    } else {
        match decode_words(words) {
            Err(fault) => Err(fault),
            Ok(framed) => if crc8(framed) != 0 {
                Err(Fault::Checksum)
            } else {
                Ok(framed.drop_last())
            },
        }
    }
}

/// True when `result` is what decoding returns for `expected`: the bytes,
/// or the error that reports the fault.
pub open spec fn decoded_as(
    result: Result<Vec<u8>, DecodeError>,
    expected: Result<Seq<u8>, Fault>,
) -> bool {
    match expected {
        Ok(bytes) => result matches Ok(decoded) && decoded@ == bytes,
        Err(fault) => result matches Err(error) && error.reports(fault),
    }
}

/// Once the words up to some point have a fault, the words as a whole have
/// that fault.
pub proof fn lemma_decode_words_fault_stays(words: Seq<Seq<char>>, count: int)
    requires
        0 <= count <= words.len(),
        decode_words(words.take(count)) is Err,
    ensures
        decode_words(words) == decode_words(words.take(count)),
    decreases words.len() - count,
{
    if count == words.len() {
        assert(words.take(count) =~= words);
    } else {
        assert(words.drop_last().take(count) =~= words.take(count));
        lemma_decode_words_fault_stays(words.drop_last(), count);
    }
}

/// The words decode to bytes exactly if each word does, and then each byte
/// is that of its word.
pub proof fn lemma_decode_words_each(words: Seq<Seq<char>>)
    ensures
        decode_words(words) is Ok <==> forall|i: int|
            0 <= i < words.len() ==> #[trigger] decode_word(words[i]) is Ok,
        decode_words(words) matches Ok(bytes) ==> bytes.len() == words.len() && forall|i: int|
            0 <= i < words.len() ==> #[trigger] decode_word(words[i]) == Ok::<u8, Fault>(bytes[i]),
    decreases words.len(),
{
    if words.len() > 0 {
        let front = words.drop_last();
        lemma_decode_words_each(front);
        assert forall|i: int| 0 <= i < front.len() implies front[i] == words[i] by {}
        if decode_words(words) is Ok {
            assert forall|i: int| 0 <= i < words.len() implies #[trigger] decode_word(
                words[i],
            ) is Ok by {
                if i < front.len() {
                    assert(front[i] == words[i]);
                }
            }
        } else if decode_words(front) is Ok {
            assert(decode_word(words[words.len() - 1]) is Err);
        } else {
            let i = choose|i: int| 0 <= i < front.len() && !(#[trigger] decode_word(front[i]) is Ok);
            assert(front[i] == words[i]);
        }
    }
}

/// Returns the word of each byte of `data`, in order.
#[must_use]
pub fn bytes_to_words(data: &[u8]) -> (words: Vec<[u8; 4]>)
    ensures
        words@.len() == data@.len(),
        forall|i: int| 0 <= i < data@.len() ==> (#[trigger] words@[i])@ == word_of(data@[i]),
{
    let mut words: Vec<[u8; 4]> = Vec::with_capacity(data.len());
    let mut index: usize = 0;
    while index < data.len()
        invariant
            index <= data@.len(),
            words@.len() == index,
            forall|i: int| 0 <= i < index ==> (#[trigger] words@[i])@ == word_of(data@[i]),
        decreases data@.len() - index,
    {
        words.push(byte_to_word(data[index]));
        index += 1;
    }
    words
}

/// Decodes one word: rejects a word that is not ASCII, folds it to
/// lowercase, rejects one that is not four characters long, and looks the
/// rest up in the word table.
pub fn read_word(word: &str) -> (result: Result<u8, Fault>)
    ensures
        result == decode_word(word@),
{
    if !word.is_ascii() {
        return Err(Fault::NotAscii);
    }
    let raw = word.as_bytes();
    proof {
        is_ascii_spec_bytes(word);
    }
    if raw.len() != 4 {
        return Err(Fault::WordLength);
    }
    let folded: [u8; 4] = [
        to_lowercase_ascii(raw[0]),
        to_lowercase_ascii(raw[1]),
        to_lowercase_ascii(raw[2]),
        to_lowercase_ascii(raw[3]),
    ];
    assert(folded@ =~= fold_case(ascii_bytes(word@)));
    match word_to_byte(&folded) {
        Some(byte) => Ok(byte),
        None => Err(Fault::UnknownWord),
    }
}

/// Returns the bytes that the words stand for.
///
/// Fails with a general error if a word holds a character outside ASCII, is
/// not four characters long or is not in the word table; the error names
/// the fault of the first such word. No words give no bytes.
pub fn words_to_bytes(words: &Vec<&str>) -> (result: Result<Vec<u8>, DecodeError>)
    ensures
        decoded_as(result, decode_words(word_views(words@))),
{
    let ghost views = word_views(words@);
    let mut bytes: Vec<u8> = Vec::with_capacity(words.len());
    let mut index: usize = 0;
    while index < words.len()
        invariant
            index <= words@.len(),
            views == word_views(words@),
            decode_words(views.take(index as int)) == Ok::<Seq<u8>, Fault>(bytes@),
        decreases words@.len() - index,
    {
        proof {
            assert(views.take(index as int + 1).drop_last() =~= views.take(index as int));
            assert(views.take(index as int + 1).last() == words@[index as int]@);
        }
        match read_word(words[index]) {
            Ok(byte) => {
                bytes.push(byte);
            },
            Err(fault) => {
                proof {
                    lemma_decode_words_fault_stays(views, index as int + 1);
                }
                return Err(fault.into_error());
            },
        }
        index += 1;
    }
    assert(views.take(index as int) =~= views);
    Ok(bytes)
}

/// Encodes `data` as words with a checksum word at the end; no data gives
/// the empty text.
#[must_use]
pub fn convert_to_pricklybird(data: &[u8]) -> (text: String)
    ensures
        text@ == encode_text(data@),
{
    if data.len() == 0 {
        return String::new();
    }
    let crc = calculate_crc8(data);
    let mut framed: Vec<u8> = Vec::new();
    framed.extend_from_slice(data);
    framed.push(crc);
    assert(framed@ =~= frame(data@));
    let words = bytes_to_words(framed.as_slice());
    let joined = join_with_hyphens(&words);
    proof {
        lemma_words_are_lowercase();
        assert(Seq::new(words@.len(), |i: int| ascii_text(words@[i]@)) =~= words_text(
            frame(data@),
        ));
        assert forall|i: int| 0 <= i < words@.len() implies is_ascii_bytes(
            #[trigger] words@[i]@,
        ) by {
            let word = words@[i]@;
            assert(word == word_of(framed@[i]));
            assert forall|j: int| 0 <= j < word.len() implies #[trigger] word[j] < 0x80 by {
                assert(word_of(framed@[i])[j] < 0x80);
            }
        }
    }
    ascii_to_string(joined)
}

/// Decodes a text of words and checks its checksum.
///
/// Fails with a general error if the text has fewer than two words or a
/// faulty word, see [`words_to_bytes`], and with a checksum error if the
/// words are in order but the last is not the checksum of the others.
pub fn convert_from_pricklybird(words: &str) -> (result: Result<Vec<u8>, DecodeError>)
    ensures
        decoded_as(result, decode_text(words@)),
{
    let word_vec = split_at_hyphens(words);
    if word_vec.len() < 2 {
        return Err(Fault::TooFewWords.into_error());
    }
    let mut data = match words_to_bytes(&word_vec) {
        Ok(data) => data,
        Err(error) => {
            return Err(error);
        },
    };
    proof {
        lemma_decode_words_each(split_words(words@));
    }
    if calculate_crc8(data.as_slice()) != 0 {
        return Err(Fault::Checksum.into_error());
    }
    data.pop();
    Ok(data)
}

} // verus!
