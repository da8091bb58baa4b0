//! Text as the codec sees it: ASCII words joined by hyphens.
//!
//! The specifications speak of `Seq<char>`, the view of `str` and `String`.
//! The executable code works on the UTF-8 bytes of a text, where a hyphen is
//! always the single byte `0x2D`.
use vstd::prelude::*;
use vstd::string::*;
use vstd::utf8::*;

verus! {

/// The byte of the ASCII hyphen that separates the words.
pub const HYPHEN: u8 = 0x2d;

/// ASCII bytes as characters.
pub open spec fn ascii_text(bytes: Seq<u8>) -> Seq<char> {
    Seq::new(bytes.len(), |i: int| bytes[i] as char)
}

/// ASCII characters as bytes.
pub open spec fn ascii_bytes(text: Seq<char>) -> Seq<u8> {
    Seq::new(text.len(), |i: int| text[i] as u8)
}

/// True when every byte is below 128.
pub open spec fn is_ascii_bytes(bytes: Seq<u8>) -> bool {
    forall|i: int| 0 <= i < bytes.len() ==> #[trigger] bytes[i] < 0x80
}

/// True when the text holds no hyphen.
pub open spec fn is_hyphen_free(text: Seq<char>) -> bool {
    forall|i: int| 0 <= i < text.len() ==> #[trigger] text[i] != '-'
}

/// An ASCII uppercase letter as its lowercase letter; any other byte as
/// itself.
pub open spec fn fold_byte(byte: u8) -> u8 {
    if 0x41 <= byte <= 0x5a {
        (byte + 0x20) as u8
    } else {
        byte
    }
}

/// Every byte of `bytes` folded to lowercase.
pub open spec fn fold_case(bytes: Seq<u8>) -> Seq<u8> {
    Seq::new(bytes.len(), |i: int| fold_byte(bytes[i]))
}

/// The words of a text: the stretches between its hyphens, in order. A text
/// with `n` hyphens has `n + 1` words, some of which may be empty; the empty
/// text has one empty word.
pub open spec fn split_words(text: Seq<char>) -> Seq<Seq<char>>
    decreases text.len(),
{
    if text.len() == 0 {
        seq![Seq::empty()]
    } else {
        let rest = split_words(text.drop_first());
        if text[0] == '-' {
            seq![Seq::empty()] + rest
        } else {
            rest.update(0, seq![text[0]] + rest[0])
        }
    }
}

/// The words joined by single hyphens; no words give the empty text.
pub open spec fn join_words(words: Seq<Seq<char>>) -> Seq<char>
    decreases words.len(),
{
    if words.len() == 0 {
        Seq::empty()
    } else if words.len() == 1 {
        words[0]
    } else {
        join_words(words.drop_last()) + seq!['-'] + words.last()
    }
}

/// A text always has at least one word.
pub proof fn lemma_split_nonempty(text: Seq<char>)
    ensures
        split_words(text).len() >= 1,
    decreases text.len(),
{
    if text.len() > 0 {
        lemma_split_nonempty(text.drop_first());
    }
}

/// A text without a hyphen is its own single word.
pub proof fn lemma_split_hyphen_free(text: Seq<char>)
    requires
        is_hyphen_free(text),
    ensures
        split_words(text) == seq![text],
    decreases text.len(),
{
    if text.len() > 0 {
        let tail = text.drop_first();
        lemma_split_hyphen_free(tail);
        assert(seq![text[0]] + tail =~= text);
        assert(seq![tail].update(0, seq![text[0]] + tail) =~= seq![text]);
    } else {
        assert(text =~= Seq::empty());
    }
}

/// The first word ends at the first hyphen, and the other words are the
/// words of what follows it.
pub proof fn lemma_split_first_word(word: Seq<char>, rest: Seq<char>)
    requires
        is_hyphen_free(word),
    ensures
        split_words(word + seq!['-'] + rest) == seq![word] + split_words(rest),
    decreases word.len(),
{
    let text = word + seq!['-'] + rest;
    if word.len() == 0 {
        assert(text.drop_first() =~= rest);
        assert(word =~= Seq::empty());
    } else {
        let tail = word.drop_first();
        lemma_split_first_word(tail, rest);
        assert(text.drop_first() =~= tail + seq!['-'] + rest);
        assert(seq![word[0]] + tail =~= word);
        assert((seq![tail] + split_words(rest)).update(0, seq![word[0]] + tail) =~= seq![word]
            + split_words(rest));
    }
}

/// A hyphen and a word without hyphens, put behind a text, add that word to
/// the text's words.
pub proof fn lemma_split_last_word(text: Seq<char>, word: Seq<char>)
    requires
        is_hyphen_free(word),
    ensures
        split_words(text + seq!['-'] + word) == split_words(text).push(word),
    decreases text.len(),
{
    let whole = text + seq!['-'] + word;
    if text.len() == 0 {
        assert(whole.drop_first() =~= word);
        lemma_split_hyphen_free(word);
        assert(seq![Seq::<char>::empty()] + seq![word] =~= seq![Seq::<char>::empty()].push(word));
    } else {
        let tail = text.drop_first();
        lemma_split_last_word(tail, word);
        lemma_split_nonempty(tail);
        assert(whole.drop_first() =~= tail + seq!['-'] + word);
        let rest = split_words(tail);
        if text[0] == '-' {
            assert(seq![Seq::<char>::empty()] + rest.push(word) =~= (seq![Seq::<char>::empty()]
                + rest).push(word));
        } else {
            assert(rest.push(word).update(0, seq![text[0]] + rest.push(word)[0]) =~= rest.update(
                0,
                seq![text[0]] + rest[0],
            ).push(word));
        }
    }
}

/// Splitting undoes joining: one or more words without hyphens, joined, are
/// the words of the joined text.
pub proof fn lemma_split_join(words: Seq<Seq<char>>)
    requires
        words.len() >= 1,
        forall|i: int| 0 <= i < words.len() ==> is_hyphen_free(#[trigger] words[i]),
    ensures
        split_words(join_words(words)) == words,
    decreases words.len(),
{
    if words.len() == 1 {
        lemma_split_hyphen_free(words[0]);
        assert(seq![words[0]] =~= words);
    } else {
        lemma_split_join(words.drop_last());
        lemma_split_last_word(join_words(words.drop_last()), words.last());
        assert(words.drop_last().push(words.last()) =~= words);
    }
}

/// No word of a text holds a hyphen.
pub proof fn lemma_split_words_hyphen_free(text: Seq<char>)
    ensures
        forall|i: int|
            0 <= i < split_words(text).len() ==> is_hyphen_free(#[trigger] split_words(text)[i]),
    decreases text.len(),
{
    if text.len() > 0 {
        let rest = split_words(text.drop_first());
        lemma_split_words_hyphen_free(text.drop_first());
        lemma_split_nonempty(text.drop_first());
        assert forall|i: int| 0 <= i < split_words(text).len() implies is_hyphen_free(
            #[trigger] split_words(text)[i],
        ) by {
            if text[0] == '-' {
                if i > 0 {
                    assert(is_hyphen_free(rest[i - 1]));
                }
            } else if i > 0 {
                assert(is_hyphen_free(rest[i]));
            } else {
                assert(is_hyphen_free(rest[0]));
                let word = seq![text[0]] + rest[0];
                assert forall|j: int| 0 <= j < word.len() implies #[trigger] word[j] != '-' by {
                    if j > 0 {
                        assert(word[j] == rest[0][j - 1]);
                    }
                }
            }
        }
    }
}

/// Joining a word with further words puts the word and a hyphen in front
/// of the further words joined.
pub proof fn lemma_join_first_word(word: Seq<char>, words: Seq<Seq<char>>)
    requires
        words.len() >= 1,
    ensures
        join_words(seq![word] + words) == word + seq!['-'] + join_words(words),
    decreases words.len(),
{
    let all = seq![word] + words;
    assert(all.last() == words.last());
    if words.len() == 1 {
        assert(all.drop_last() =~= seq![word]);
        assert(join_words(seq![word]) == word);
    } else {
        lemma_join_first_word(word, words.drop_last());
        assert(all.drop_last() =~= seq![word] + words.drop_last());
        assert(join_words(all) == join_words(all.drop_last()) + seq!['-'] + all.last());
        assert((word + seq!['-'] + join_words(words.drop_last())) + seq!['-'] + words.last() =~= word
            + seq!['-'] + (join_words(words.drop_last()) + seq!['-'] + words.last()));
    }
}

/// Joining words of which the first has grown by a character in front puts
/// that character in front of the words joined.
pub proof fn lemma_join_longer_first_word(c: char, words: Seq<Seq<char>>)
    requires
        words.len() >= 1,
    ensures
        join_words(words.update(0, seq![c] + words[0])) == seq![c] + join_words(words),
    decreases words.len(),
{
    let longer = words.update(0, seq![c] + words[0]);
    if words.len() > 1 {
        lemma_join_longer_first_word(c, words.drop_last());
        assert(longer.drop_last() =~= words.drop_last().update(0, seq![c] + words[0]));
        assert((seq![c] + join_words(words.drop_last())) + seq!['-'] + words.last() =~= seq![c] + (
        join_words(words.drop_last()) + seq!['-'] + words.last()));
    }
}

/// Joining undoes splitting: the words of a text, joined, are the text.
pub proof fn lemma_join_split(text: Seq<char>)
    ensures
        join_words(split_words(text)) == text,
    decreases text.len(),
{
    if text.len() == 0 {
        assert(text =~= Seq::empty());
    } else {
        let rest = split_words(text.drop_first());
        lemma_join_split(text.drop_first());
        lemma_split_nonempty(text.drop_first());
        if text[0] == '-' {
            lemma_join_first_word(Seq::empty(), rest);
            assert(Seq::<char>::empty() + seq!['-'] + text.drop_first() =~= text);
        } else {
            lemma_join_longer_first_word(text[0], rest);
            assert(seq![text[0]] + text.drop_first() =~= text);
        }
    }
}

/// Bytes below 128 are valid UTF-8 and decode to themselves as characters.
pub proof fn lemma_ascii_bytes_decode(bytes: Seq<u8>)
    requires
        is_ascii_bytes(bytes),
    ensures
        valid_utf8(bytes),
        decode_utf8(bytes) == ascii_text(bytes),
{
    let text = ascii_text(bytes);
    assert(is_ascii_chars(text));
    is_ascii_chars_encode_utf8(text);
    assert(encode_utf8(text) =~= bytes);
    encode_utf8_valid_utf8(text);
    encode_utf8_decode_utf8(text);
}

/// A text with a hyphen has the byte `0x2D` in its UTF-8 encoding.
pub proof fn lemma_hyphen_is_encoded(text: Seq<char>, position: int)
    requires
        0 <= position < text.len(),
        text[position] == '-',
    ensures
        exists|i: int| 0 <= i < encode_utf8(text).len() && encode_utf8(text)[i] == HYPHEN,
    decreases text.len(),
{
    let first = encode_scalar(text[0] as u32);
    let others = encode_utf8(text.drop_first());
    assert(encode_utf8(text) == first + others);
    if position == 0 {
        let single = seq![text[0]];
        assert(is_ascii_chars(single));
        is_ascii_chars_encode_utf8(single);
        assert(encode_utf8(single.drop_first()) =~= Seq::<u8>::empty());
        assert(encode_utf8(single) =~= first);
        assert(encode_utf8(text)[0] == HYPHEN);
    } else {
        lemma_hyphen_is_encoded(text.drop_first(), position - 1);
        let i = choose|i: int| 0 <= i < others.len() && others[i] == HYPHEN;
        assert(encode_utf8(text)[first.len() + i] == HYPHEN);
    }
}

/// A text whose UTF-8 encoding lacks the byte `0x2D` holds no hyphen.
pub proof fn lemma_no_hyphen_byte(text: Seq<char>)
    requires
        forall|i: int| 0 <= i < encode_utf8(text).len() ==> encode_utf8(text)[i] != HYPHEN,
    ensures
        is_hyphen_free(text),
{
    assert forall|position: int| 0 <= position < text.len() implies #[trigger] text[position]
        != '-' by {
        if text[position] == '-' {
            lemma_hyphen_is_encoded(text, position);
        }
    }
}

/// An ASCII uppercase letter as its lowercase letter; any other byte as
/// itself.
pub fn to_lowercase_ascii(byte: u8) -> (folded: u8)
    ensures
        folded == fold_byte(byte),
{
    if 0x41 <= byte && byte <= 0x5a {
        byte + 0x20
    } else {
        byte
    }
}

/// The views of the words of a list.
pub open spec fn word_views(words: Seq<&str>) -> Seq<Seq<char>> {
    Seq::new(words.len(), |i: int| words[i]@)
}

/// Splits a text at its hyphens.
pub fn split_at_hyphens<'a>(text: &'a str) -> (words: Vec<&'a str>)
    ensures
        word_views(words@) == split_words(text@),
{
    let mut words: Vec<&str> = Vec::new();
    let mut rest: &str = text;
    assert(word_views(words@) + split_words(rest@) =~= split_words(text@));
    loop
        invariant
            word_views(words@) + split_words(rest@) == split_words(text@),
        decreases rest@.len(),
    {
        let bytes = rest.as_bytes();
        let mut end: usize = 0;
        while end < bytes.len() && bytes[end] != HYPHEN
            invariant
                end <= bytes@.len(),
                forall|i: int| 0 <= i < end ==> bytes@[i] != HYPHEN,
            decreases bytes@.len() - end,
        {
            end += 1;
        }
        if end == bytes.len() {
            proof {
                lemma_no_hyphen_byte(rest@);
                lemma_split_hyphen_free(rest@);
                assert(word_views(words@.push(rest)) =~= word_views(words@) + seq![rest@]);
            }
            words.push(rest);
            return words;
        }
        proof {
            encode_utf8_valid_utf8(rest@);
            is_char_boundary_iff_not_is_continuation_byte(bytes@, end as int);
        }
        let (word, tail) = rest.split_at(end);
        proof {
            encode_utf8_valid_utf8(tail@);
            reveal_with_fuel(is_char_boundary, 2);
            reveal_with_fuel(valid_utf8, 2);
            assert(tail.spec_bytes()[0] == HYPHEN);
            assert(is_char_boundary(tail.spec_bytes(), 1));
        }
        let (hyphen, next) = tail.split_at(1);
        proof {
            encode_utf8_decode_utf8(rest@);
            encode_utf8_decode_utf8(word@);
            encode_utf8_decode_utf8(tail@);
            encode_utf8_decode_utf8(hyphen@);
            encode_utf8_decode_utf8(next@);
            decode_utf8_split(bytes@, end as int);
            decode_utf8_split(tail.spec_bytes(), 1);
            assert(rest@ == word@ + tail@);
            assert(tail@ == hyphen@ + next@);
            assert(is_ascii_bytes(hyphen.spec_bytes()));
            lemma_ascii_bytes_decode(hyphen.spec_bytes());
            assert(hyphen@ =~= seq!['-']);
            assert(rest@ =~= word@ + seq!['-'] + next@);
            lemma_no_hyphen_byte(word@);
            lemma_split_first_word(word@, next@);
            assert(word_views(words@.push(word)) =~= word_views(words@) + seq![word@]);
            assert(word_views(words@.push(word)) + split_words(next@) =~= word_views(words@) + (
            seq![word@] + split_words(next@)));
        }
        words.push(word);
        rest = next;
    }
}

/// Converts bytes that are valid UTF-8 into a `String` with
/// `String::from_utf8`. The contract claims that the characters of the
/// result are those that the bytes encode.
#[verifier::external_body]
fn string_from_utf8(bytes: Vec<u8>) -> (text: String)
    requires
        valid_utf8(bytes@),
    ensures
        text@ == decode_utf8(bytes@),
{
    String::from_utf8(bytes).unwrap()
}

/// ASCII bytes as a `String`.
pub(crate) fn ascii_to_string(bytes: Vec<u8>) -> (text: String)
    requires
        is_ascii_bytes(bytes@),
    ensures
        text@ == ascii_text(bytes@),
{
    proof {
        lemma_ascii_bytes_decode(bytes@);
    }
    string_from_utf8(bytes)
}

/// The words as ASCII text, joined by single hyphens.
pub fn join_with_hyphens(words: &Vec<[u8; 4]>) -> (text: Vec<u8>)
    ensures
        ascii_text(text@) == join_words(Seq::new(words@.len(), |i: int| ascii_text(words@[i]@))),
        (forall|i: int| 0 <= i < words@.len() ==> is_ascii_bytes(#[trigger] words@[i]@))
            ==> is_ascii_bytes(text@),
{
    let ghost views = Seq::new(words@.len(), |i: int| ascii_text(words@[i]@));
    let mut text: Vec<u8> = Vec::new();
    let mut index: usize = 0;
    while index < words.len()
        invariant
            index <= words@.len(),
            views == Seq::new(words@.len(), |i: int| ascii_text(words@[i]@)),
            ascii_text(text@) == join_words(views.take(index as int)),
            (forall|i: int| 0 <= i < words@.len() ==> is_ascii_bytes(#[trigger] words@[i]@))
                ==> is_ascii_bytes(text@),
        decreases words@.len() - index,
    {
        let ghost before = text@;
        if index > 0 {
            text.push(HYPHEN);
        }
        let word = words[index];
        text.push(word[0]);
        text.push(word[1]);
        text.push(word[2]);
        text.push(word[3]);
        proof {
            let joined = views.take(index as int + 1);
            assert(joined.drop_last() =~= views.take(index as int));
            assert(joined.last() == ascii_text(word@));
            if index > 0 {
                assert(ascii_text(text@) =~= ascii_text(before) + seq!['-'] + ascii_text(word@));
            } else {
                assert(ascii_text(before).len() == 0);
                assert(ascii_text(text@) =~= ascii_text(word@));
            }
            if forall|i: int| 0 <= i < words@.len() ==> is_ascii_bytes(#[trigger] words@[i]@) {
                assert(is_ascii_bytes(words@[index as int]@));
                assert(word@[0] < 0x80 && word@[1] < 0x80 && word@[2] < 0x80 && word@[3] < 0x80);
            }
        }
        index += 1;
    }
    assert(views.take(index as int) =~= views);
    text
}

} // verus!
