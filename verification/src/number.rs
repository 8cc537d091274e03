//! Words of a text, and the numbers that they write.
use crate::text::{self, is_white_space, text_between, to_chars, Text};
use vstd::prelude::*;

verus! {

/// How many characters of `text` come before the first white space.
pub open spec fn word_length(text: Text) -> nat
    decreases text.len(),
{
    if text.len() == 0 || text::white_space(text[0]) {
        0
    } else {
        1 + word_length(text.drop_first())
    }
}

proof fn lemma_word_length(text: Text)
    ensures
        word_length(text) <= text.len(),
        text.len() > 0 && !text::white_space(text[0]) ==> word_length(text) > 0,
    decreases text.len(),
{
    if text.len() > 0 && !text::white_space(text[0]) {
        lemma_word_length(text.drop_first());
    }
}

proof fn lemma_trim_front(text: Text)
    ensures
        text::trim_front(text).len() <= text.len(),
        text::trim_front(text).len() > 0 ==> !text::white_space(text::trim_front(text)[0]),
    decreases text.len(),
{
    if text.len() > 0 && text::white_space(text[0]) {
        lemma_trim_front(text.drop_first());
    }
}

/// The words of `text`: what stands between white space.
pub open spec fn words(text: Text) -> Seq<Text>
    decreases text.len(),
    via words_decreases
{
    let rest = text::trim_front(text);
    if rest.len() == 0 {
        Seq::empty()
    } else {
        let n = word_length(rest) as int;
        seq![rest.take(n)] + words(rest.skip(n))
    }
}

#[via_fn]
proof fn words_decreases(text: Text) {
    lemma_trim_front(text);
    lemma_word_length(text::trim_front(text));
}

/// The words of `text`.
pub fn split_words(text: &str) -> (r: Vec<String>)
    ensures
        text::texts(r@) == words(text@),
{
    let chars = to_chars(text);
    let mut found: Vec<String> = Vec::new();
    let mut from: usize = 0;
    assert(text@.skip(0) == text@);
    assert(text::texts(found@) + words(text@) == words(text@));
    loop
        invariant
            chars@ == text@,
            from <= chars@.len(),
            text::texts(found@) + words(text@.skip(from as int)) == words(text@),
        ensures
            text::texts(found@) == words(text@),
        decreases chars@.len() - from,
    {
        let ghost start = from;
        while from < chars.len() && is_white_space(chars[from])
            invariant
                chars@ == text@,
                start <= from <= chars@.len(),
                text::trim_front(text@.skip(start as int)) == text::trim_front(
                    text@.skip(from as int),
                ),
            decreases chars@.len() - from,
        {
            assert(text@.skip(from as int).drop_first() == text@.skip(from + 1));
            from = from + 1;
        }
        assert(text::trim_front(text@.skip(start as int)) == text@.skip(from as int));
        if from == chars.len() {
            assert(text::texts(found@) + Seq::<Text>::empty() == text::texts(found@));
            break;
        }
        let ghost rest = text@.skip(from as int);
        let mut to: usize = from;
        while to < chars.len() && !is_white_space(chars[to])
            invariant
                chars@ == text@,
                from <= to <= chars@.len(),
                word_length(text@.skip(from as int)) == (to - from) + word_length(
                    text@.skip(to as int),
                ),
            decreases chars@.len() - to,
        {
            assert(text@.skip(to as int).drop_first() == text@.skip(to + 1));
            to = to + 1;
        }
        let word = text_between(&chars, from, to);
        proof {
            lemma_word_length(rest);
            assert(word@ == rest.take(to - from));
            assert(rest.skip(to - from) == text@.skip(to as int));
            text::lemma_texts_push(found@, word);
            assert(text::texts(found@) + (seq![word@] + words(text@.skip(to as int)))
                == text::texts(found@).push(word@) + words(text@.skip(to as int)));
        }
        found.push(word);
        from = to;
    }
    found
}

/// Why a text writes no number.
#[derive(Clone, Copy, Debug, PartialEq, Eq, Structural)]
pub enum NumberError {
    /// It is empty.
    Empty,
    /// It holds something other than digits.
    InvalidDigit,
    /// The number is too large.
    TooLarge,
}

impl NumberError {
    /// The reason in words.
    pub open spec fn text(self) -> Text {
        match self {
            NumberError::Empty => "cannot parse integer from empty string"@,
            NumberError::InvalidDigit => "invalid digit found in string"@,
            NumberError::TooLarge => "number too large to fit in target type"@,
        }
    }

    /// The reason in words.
    pub fn message(self) -> (r: String)
        ensures
            r@ == self.text(),
    {
        match self {
            NumberError::Empty => "cannot parse integer from empty string".to_owned(),
            NumberError::InvalidDigit => "invalid digit found in string".to_owned(),
            NumberError::TooLarge => "number too large to fit in target type".to_owned(),
        }
    }
}

/// A decimal digit.
pub open spec fn is_digit(c: char) -> bool {
    '0' as u32 <= c as u32 <= '9' as u32
}

/// The number that `digits` write, or what the first character that spoils it is.
pub open spec fn digits_value(digits: Text) -> Result<nat, NumberError>
    decreases digits.len(),
{
    if digits.len() == 0 {
        Ok(0)
    } else {
        match digits_value(digits.drop_last()) {
            Err(error) => Err(error),
            Ok(value) => {
                let c = digits.last();
                let more = value * 10 + (c as u32 - '0' as u32);
                if !is_digit(c) {
                    Err(NumberError::InvalidDigit)
                } else if more > u64::MAX {
                    Err(NumberError::TooLarge)
                } else {
                    Ok(more as nat)
                }
            },
        }
    }
}

/// The number that `text` writes: digits, with a plus sign before them or not.
pub open spec fn number_value(text: Text) -> Result<nat, NumberError> {
    if text.len() == 0 {
        Err(NumberError::Empty)
    } else if text[0] == '+' {
        if text.len() == 1 {
            Err(NumberError::InvalidDigit)
        } else {
            digits_value(text.drop_first())
        }
    } else {
        digits_value(text)
    }
}

proof fn lemma_spoiled(digits: Text, n: int)
    requires
        0 <= n <= digits.len(),
        digits_value(digits.take(n)) is Err,
    ensures
        digits_value(digits) == digits_value(digits.take(n)),
    decreases digits.len(),
{
    if n == digits.len() {
        assert(digits.take(n) == digits);
    } else {
        assert(digits.drop_last().take(n) == digits.take(n));
        lemma_spoiled(digits.drop_last(), n);
    }
}

fn code_of(c: char) -> (r: u32)
    ensures
        r == c as u32,
{
    c as u32
}

/// The number that `text` writes.
pub fn parse_number(text: &str) -> (r: Result<u64, NumberError>)
    ensures
        match number_value(text@) {
            Ok(value) => r is Ok && r->Ok_0 == value,
            Err(error) => r == Err::<u64, NumberError>(error),
        },
{
    let chars = to_chars(text);
    if chars.len() == 0 {
        return Err(NumberError::Empty);
    }
    let mut from: usize = 0;
    if chars[0] == '+' {
        if chars.len() == 1 {
            return Err(NumberError::InvalidDigit);
        }
        from = 1;
    }
    let ghost digits = text@.skip(from as int);
    assert(text@.skip(0) == text@);
    assert(number_value(text@) == digits_value(digits));
    let mut value: u64 = 0;
    let mut i: usize = from;
    assert(digits.take(0) == Seq::<char>::empty());
    while i < chars.len()
        invariant
            chars@ == text@,
            from <= i <= chars@.len(),
            digits == text@.skip(from as int),
            number_value(text@) == digits_value(digits),
            digits_value(digits.take(i - from)) == Ok::<nat, NumberError>(value as nat),
        decreases chars@.len() - i,
    {
        let code: u32 = code_of(chars[i]);
        proof {
            let part = digits.take(i - from + 1);
            assert(part.drop_last() == digits.take(i - from));
            assert(part.last() == chars@[i as int]);
            if digits_value(part) is Err {
                lemma_spoiled(digits, i - from + 1);
            }
        }
        if code < 48 || code > 57 {
            return Err(NumberError::InvalidDigit);
        }
        let more: u128 = value as u128 * 10 + (code - 48) as u128;
        if more > 0xffff_ffff_ffff_ffff {
            return Err(NumberError::TooLarge);
        }
        value = more as u64;
        i = i + 1;
    }
    assert(digits.take(digits.len() as int) == digits);
    Ok(value)
}

/// A number that was written in decimal is read back as it was.
pub proof fn law_decimal_is_read_back(n: nat)
    requires
        n <= u64::MAX,
    ensures
        number_value(text::decimal_text(n)) == Ok::<nat, NumberError>(n),
{
    text::law_decimal_is_digits(n);
    lemma_digits_are_read_back(n);
}

proof fn lemma_digits_are_read_back(n: nat)
    requires
        n <= u64::MAX,
    ensures
        digits_value(text::decimal_text(n)) == Ok::<nat, NumberError>(n),
    decreases n,
{
    if n >= 10 {
        lemma_digits_are_read_back(n / 10);
        assert(text::decimal_text(n).drop_last() =~= text::decimal_text(n / 10));
    } else {
        assert(text::decimal_text(n).drop_last() =~= Seq::<char>::empty());
        assert(digits_value(Seq::<char>::empty()) == Ok::<nat, NumberError>(0));
    }
}

/// The first word of a text ends at the first white space, and the others follow.
pub proof fn law_first_word(word: Text, rest: Text)
    requires
        word.len() > 0,
        forall|i: int| 0 <= i < word.len() ==> !text::white_space(#[trigger] word[i]),
    ensures
        words(word + seq![' '] + rest) == seq![word] + words(rest),
{
    let whole = word + seq![' '] + rest;
    assert(whole[0] == word[0]);
    lemma_length_of_word(word, rest);
    assert(whole.take(word.len() as int) =~= word);
    assert(whole.skip(word.len() as int) =~= seq![' '] + rest);
    assert((seq![' '] + rest).drop_first() =~= rest);
    assert(text::trim_front(seq![' '] + rest) == text::trim_front(rest));
    assert(words(seq![' '] + rest) == words(rest));
}

proof fn lemma_length_of_word(word: Text, rest: Text)
    requires
        forall|i: int| 0 <= i < word.len() ==> !text::white_space(#[trigger] word[i]),
    ensures
        word_length(word + seq![' '] + rest) == word.len(),
    decreases word.len(),
{
    let whole = word + seq![' '] + rest;
    if word.len() > 0 {
        assert(whole[0] == word[0]);
        assert(whole.drop_first() =~= word.drop_first() + seq![' '] + rest);
        assert forall|i: int| 0 <= i < word.drop_first().len() implies !text::white_space(
            #[trigger] word.drop_first()[i],
        ) by {
            assert(!text::white_space(word[i + 1]));
        }
        lemma_length_of_word(word.drop_first(), rest);
    }
}

/// A text that is read as a number is made of digits, with a plus sign before them or not, and is
/// worth that number; and any such text is read, unless the number is too large.
pub proof fn law_only_digits_are_numbers(digits: Text)
    ensures
        digits_value(digits) is Ok ==> digits_value(digits)->Ok_0 == text::worth(digits),
        digits_value(digits) is Ok ==> forall|i: int|
            0 <= i < digits.len() ==> '0' as u32 <= (#[trigger] digits[i]) as u32 <= '9' as u32,
        number_value(Seq::empty()) is Err,
        digits.len() > 0 ==> number_value(seq!['+'] + digits) == digits_value(digits),
        digits.len() > 0 && digits[0] != '+' ==> number_value(digits) == digits_value(digits),
    decreases digits.len(),
{
    assert((seq!['+'] + digits).drop_first() =~= digits);
    if digits.len() > 0 {
        law_only_digits_are_numbers(digits.drop_last());
        if digits_value(digits) is Ok {
            assert forall|i: int| 0 <= i < digits.len() implies '0' as u32 <= (
            #[trigger] digits[i]) as u32 <= '9' as u32 by {
                if i < digits.len() - 1 {
                    assert(digits.drop_last()[i] == digits[i]);
                }
            }
        }
    }
}

} // verus!
