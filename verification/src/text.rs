//! Text: white space, trimming, splitting, padding and decimal numbers.
use vstd::prelude::*;

verus! {

/// A text as the sequence of its characters.
pub type Text = Seq<char>;

/// `String::push`: appends one character at the end.
pub assume_specification[ String::push ](string: &mut String, ch: char)
    ensures
        final(string)@ == old(string)@.push(ch),
;

/// The characters with the Unicode `White_Space` property.
pub open spec fn white_space(c: char) -> bool {
    let n = c as u32;
    ||| 0x9 <= n <= 0xd
    ||| n == 0x20
    ||| n == 0x85
    ||| n == 0xa0
    ||| n == 0x1680
    ||| 0x2000 <= n <= 0x200a
    ||| n == 0x2028
    ||| n == 0x2029
    ||| n == 0x202f
    ||| n == 0x205f
    ||| n == 0x3000
}

/// Whether `c` is white space.
pub fn is_white_space(c: char) -> (r: bool)
    ensures
        r == white_space(c),
{
    let n: u32 = c as u32;
    (0x9 <= n && n <= 0xd) || n == 0x20 || n == 0x85 || n == 0xa0 || n == 0x1680 || (0x2000 <= n
        && n <= 0x200a) || n == 0x2028 || n == 0x2029 || n == 0x202f || n == 0x205f || n == 0x3000
}

/// The characters of `text`, in order.
pub fn to_chars(text: &str) -> (r: Vec<char>)
    ensures
        r@ == text@,
{
    let mut chars: Vec<char> = Vec::new();
    for c in it: text.chars()
        invariant
            it.seq() == text@,
            chars@ == text@.take(it.index() as int),
    {
        chars.push(c);
    }
    assert(text@.take(text@.len() as int) == text@);
    chars
}

/// The text made of the characters `chars[from..to]`.
pub fn text_between(chars: &Vec<char>, from: usize, to: usize) -> (r: String)
    requires
        from <= to <= chars@.len(),
    ensures
        r@ == chars@.subrange(from as int, to as int),
{
    let mut text = String::new();
    let mut i: usize = from;
    while i < to
        invariant
            from <= i <= to <= chars@.len(),
            text@ == chars@.subrange(from as int, i as int),
        decreases to - i,
    {
        text.push(chars[i]);
        i = i + 1;
    }
    text
}

/// A text that holds nothing but white space; the empty text is one.
pub open spec fn blank(text: Text) -> bool {
    forall|i: int| 0 <= i < text.len() ==> white_space(#[trigger] text[i])
}

/// Whether `text` is blank, that is whether trimming leaves nothing of it.
pub fn is_blank(text: &str) -> (r: bool)
    ensures
        r == blank(text@),
{
    let chars = to_chars(text);
    let mut i: usize = 0;
    while i < chars.len()
        invariant
            chars@ == text@,
            i <= chars@.len(),
            forall|j: int| 0 <= j < i ==> white_space(#[trigger] text@[j]),
        decreases chars@.len() - i,
    {
        if !is_white_space(chars[i]) {
            return false;
        }
        i = i + 1;
    }
    true
}

/// Whether `text` holds the character `c`.
pub fn contains_char(text: &str, c: char) -> (r: bool)
    ensures
        r == text@.contains(c),
{
    let chars = to_chars(text);
    let mut i: usize = 0;
    while i < chars.len()
        invariant
            chars@ == text@,
            i <= chars@.len(),
            forall|j: int| 0 <= j < i ==> text@[j] != c,
        decreases chars@.len() - i,
    {
        if chars[i] == c {
            assert(text@[i as int] == c);
            return true;
        }
        i = i + 1;
    }
    false
}

/// Whether two texts are equal.
pub fn same_text(a: &str, b: &str) -> (r: bool)
    ensures
        r == (a@ == b@),
{
    let left = to_chars(a);
    let right = to_chars(b);
    if left.len() != right.len() {
        return false;
    }
    let mut i: usize = 0;
    while i < left.len()
        invariant
            left@ == a@,
            right@ == b@,
            left@.len() == right@.len(),
            i <= left@.len(),
            forall|j: int| 0 <= j < i ==> a@[j] == b@[j],
        decreases left@.len() - i,
    {
        if left[i] != right[i] {
            assert(a@[i as int] != b@[i as int]);
            return false;
        }
        i = i + 1;
    }
    assert(a@ =~= b@);
    true
}

/// `text` without its leading white space.
pub open spec fn trim_front(text: Text) -> Text
    decreases text.len(),
{
    if text.len() > 0 && white_space(text[0]) {
        trim_front(text.drop_first())
    } else {
        text
    }
}

/// `text` without its trailing white space.
pub open spec fn trim_back(text: Text) -> Text
    decreases text.len(),
{
    if text.len() > 0 && white_space(text.last()) {
        trim_back(text.drop_last())
    } else {
        text
    }
}

/// `text` without the white space around it.
pub open spec fn trimmed(text: Text) -> Text {
    trim_back(trim_front(text))
}

/// `text` without the white space around it.
pub fn trim(text: &str) -> (r: String)
    ensures
        r@ == trimmed(text@),
{
    let chars = to_chars(text);
    let mut from: usize = 0;
    assert(text@.subrange(0, text@.len() as int) == text@);
    while from < chars.len() && is_white_space(chars[from])
        invariant
            chars@ == text@,
            from <= chars@.len(),
            trim_front(text@) == trim_front(text@.subrange(from as int, text@.len() as int)),
        decreases chars@.len() - from,
    {
        assert(text@.subrange(from as int, text@.len() as int).drop_first() == text@.subrange(
            from + 1,
            text@.len() as int,
        ));
        from = from + 1;
    }
    let ghost front = text@.subrange(from as int, text@.len() as int);
    assert(trim_front(text@) == front);
    let mut to: usize = chars.len();
    while from < to && is_white_space(chars[to - 1])
        invariant
            chars@ == text@,
            from <= to <= chars@.len(),
            trim_back(front) == trim_back(text@.subrange(from as int, to as int)),
        decreases to - from,
    {
        assert(text@.subrange(from as int, to as int).drop_last() == text@.subrange(
            from as int,
            to - 1,
        ));
        to = to - 1;
    }
    text_between(&chars, from, to)
}

/// Where `c` first stands in `text`: the length of `text` where it does not occur.
pub open spec fn position(text: Text, c: char) -> nat
    decreases text.len(),
{
    if text.len() == 0 {
        0
    } else if text[0] == c {
        0
    } else {
        1 + position(text.drop_first(), c)
    }
}

/// `position` is within the text, finds `c` there and skips no earlier occurrence.
pub proof fn lemma_position(text: Text, c: char)
    ensures
        position(text, c) <= text.len(),
        position(text, c) < text.len() ==> text[position(text, c) as int] == c,
        forall|i: int| 0 <= i < position(text, c) ==> text[i] != c,
    decreases text.len(),
{
    if text.len() > 0 && text[0] != c {
        let rest = text.drop_first();
        lemma_position(rest, c);
        assert forall|i: int| 0 <= i < position(text, c) implies text[i] != c by {
            if i > 0 {
                assert(rest[i - 1] == text[i]);
            }
        }
    }
}

/// Where `c` first stands in `chars[from..]`, as an index into `chars`.
pub fn find_char(chars: &Vec<char>, from: usize, c: char) -> (r: usize)
    requires
        from <= chars@.len(),
    ensures
        r == from + position(chars@.subrange(from as int, chars@.len() as int), c),
        from <= r <= chars@.len(),
{
    let mut i: usize = from;
    let ghost all = chars@.subrange(from as int, chars@.len() as int);
    while i < chars.len() && chars[i] != c
        invariant
            from <= i <= chars@.len(),
            from + position(all, c) == i + position(
                chars@.subrange(i as int, chars@.len() as int),
                c,
            ),
        decreases chars@.len() - i,
    {
        assert(chars@.subrange(i as int, chars@.len() as int).drop_first() == chars@.subrange(
            i + 1,
            chars@.len() as int,
        ));
        i = i + 1;
    }
    i
}

/// One line without its ending: `\r` right before `\n` belongs to the ending.
pub open spec fn without_carriage_return(line: Text) -> Text {
    if line.len() > 0 && line.last() == '\r' {
        line.drop_last()
    } else {
        line
    }
}

/// The lines of a text. Lines end in `\n` or `\r\n`; the ending of the last one is optional.
pub open spec fn text_lines(text: Text) -> Seq<Text>
    decreases text.len(),
    via text_lines_decreases
{
    if text.len() == 0 {
        Seq::empty()
    } else {
        let n = position(text, '\n') as int;
        if n < text.len() {
            seq![without_carriage_return(text.take(n))] + text_lines(text.skip(n + 1))
        } else {
            seq![text]
        }
    }
}

#[via_fn]
proof fn text_lines_decreases(text: Text) {
    lemma_position(text, '\n');
}

/// The texts that a vector of strings holds.
pub open spec fn texts(strings: Seq<String>) -> Seq<Text> {
    strings.map_values(|s: String| s@)
}

/// A string that is pushed adds its text.
pub proof fn lemma_texts_push(strings: Seq<String>, last: String)
    ensures
        texts(strings.push(last)) == texts(strings).push(last@),
{
    assert(texts(strings.push(last)) =~= texts(strings).push(last@));
}

/// The lines of `text`.
pub fn lines(text: &str) -> (r: Vec<String>)
    ensures
        texts(r@) == text_lines(text@),
{
    let chars = to_chars(text);
    let mut found: Vec<String> = Vec::new();
    let mut from: usize = 0;
    assert(text@.subrange(0, text@.len() as int) == text@);
    while from < chars.len()
        invariant
            chars@ == text@,
            from <= chars@.len(),
            text_lines(text@) == texts(found@) + text_lines(
                text@.subrange(from as int, text@.len() as int),
            ),
        decreases chars@.len() - from,
    {
        let ghost rest = text@.subrange(from as int, text@.len() as int);
        let ghost before = texts(found@);
        proof {
            lemma_position(rest, '\n');
        }
        let end = find_char(&chars, from, '\n');
        if end < chars.len() {
            let mut to: usize = end;
            if from < to && chars[to - 1] == '\r' {
                to = to - 1;
            }
            let line = text_between(&chars, from, to);
            proof {
                let n = position(rest, '\n') as int;
                assert(rest.take(n) == text@.subrange(from as int, end as int));
                assert(line@ == without_carriage_return(rest.take(n)));
                assert(rest.skip(n + 1) == text@.subrange(end + 1, text@.len() as int));
            }
            found.push(line);
            from = end + 1;
            assert(texts(found@) == before.push(line@));
            assert(before + (seq![line@] + text_lines(
                text@.subrange(from as int, text@.len() as int),
            )) == before.push(line@) + text_lines(
                text@.subrange(from as int, text@.len() as int),
            ));
        } else {
            let line = text_between(&chars, from, end);
            assert(line@ == rest);
            found.push(line);
            from = end;
            assert(texts(found@) == before.push(line@));
            assert(text_lines(text@.subrange(from as int, text@.len() as int))
                == Seq::<Text>::empty());
            assert(before + seq![rest] == before.push(line@) + Seq::<Text>::empty());
        }
    }
    assert(text_lines(text@.subrange(from as int, text@.len() as int)) == Seq::<Text>::empty());
    assert(texts(found@) + Seq::<Text>::empty() == texts(found@));
    found
}

/// The decimal digit for `n`.
pub open spec fn digit(n: nat) -> char {
    (('0' as u32) + n) as char
}

/// `n` in decimal, without leading zeros.
pub open spec fn decimal_text(n: nat) -> Text
    decreases n,
{
    if n < 10 {
        seq![digit(n)]
    } else {
        decimal_text(n / 10).push(digit(n % 10))
    }
}

/// The decimal digit for `n`.
fn digit_char(n: u8) -> (r: char)
    requires
        n < 10,
    ensures
        r == digit(n as nat),
{
    match n {
        0 => '0',
        1 => '1',
        2 => '2',
        3 => '3',
        4 => '4',
        5 => '5',
        6 => '6',
        7 => '7',
        8 => '8',
        _ => '9',
    }
}

/// `n` in decimal.
pub fn decimal(n: u64) -> (r: String)
    ensures
        r@ == decimal_text(n as nat),
    decreases n,
{
    let mut text = if n < 10 {
        String::new()
    } else {
        decimal(n / 10)
    };
    text.push(digit_char((n % 10) as u8));
    text
}

/// `text` followed by the spaces that fill it up to `width` characters.
pub open spec fn padded(text: Text, width: nat) -> Text {
    if text.len() < width {
        text + Seq::new((width - text.len()) as nat, |i: int| ' ')
    } else {
        text
    }
}

/// `text`, left aligned in a column of `width` characters.
pub fn pad(text: &str, width: usize) -> (r: String)
    ensures
        r@ == padded(text@, width as nat),
{
    let mut filled = text.to_owned();
    let mut count: usize = to_chars(text).len();
    while count < width
        invariant
            filled@.len() == count,
            count <= width || count == text@.len(),
            count >= text@.len(),
            filled@ == padded(text@, count as nat),
        decreases width - count,
    {
        filled.push(' ');
        count = count + 1;
        assert(filled@ == padded(text@, count as nat));
    }
    filled
}

/// The texts `parts`, with `separator` between each and the next.
pub open spec fn separated(parts: Seq<Text>, separator: Text) -> Text
    decreases parts.len(),
{
    if parts.len() == 0 {
        Seq::empty()
    } else if parts.len() == 1 {
        parts[0]
    } else {
        separated(parts.drop_last(), separator) + separator + parts.last()
    }
}

/// The texts `parts`, with `separator` between each and the next.
pub fn join_texts(parts: &Vec<String>, separator: &str) -> (r: String)
    ensures
        r@ == separated(texts(parts@), separator@),
{
    let mut whole = String::new();
    let mut i: usize = 0;
    let ghost all = texts(parts@);
    while i < parts.len()
        invariant
            i <= parts@.len(),
            all == texts(parts@),
            whole@ == separated(all.take(i as int), separator@),
        decreases parts@.len() - i,
    {
        if i > 0 {
            whole.append(separator);
        }
        whole.append(parts[i].as_str());
        i = i + 1;
        assert(all.take(i as int).drop_last() == all.take(i - 1));
        assert(all.take(i as int).last() == parts@[i - 1]@);
        assert(i == 1 ==> whole@ == parts@[0]@);
    }
    assert(all.take(all.len() as int) == all);
    whole
}

/// A copy of `strings`.
pub fn copy_texts(strings: &Vec<String>) -> (r: Vec<String>)
    ensures
        texts(r@) == texts(strings@),
{
    let mut copy: Vec<String> = Vec::new();
    let mut i: usize = 0;
    while i < strings.len()
        invariant
            i <= strings@.len(),
            texts(copy@) == texts(strings@).take(i as int),
        decreases strings@.len() - i,
    {
        proof {
            lemma_texts_push(copy@, strings@[i as int]);
            assert(texts(strings@).take(i + 1) == texts(strings@).take(i as int).push(
                strings@[i as int]@,
            ));
        }
        copy.push(strings[i].clone());
        i = i + 1;
    }
    assert(texts(strings@).take(strings@.len() as int) == texts(strings@));
    copy
}

/// Whether `strings` hold the text `wanted`.
pub fn contains_text(strings: &Vec<String>, wanted: &str) -> (r: bool)
    ensures
        r == texts(strings@).contains(wanted@),
{
    let mut i: usize = 0;
    while i < strings.len()
        invariant
            i <= strings@.len(),
            forall|j: int| 0 <= j < i ==> texts(strings@)[j] != wanted@,
        decreases strings@.len() - i,
    {
        if same_text(strings[i].as_str(), wanted) {
            assert(texts(strings@)[i as int] == wanted@);
            return true;
        }
        i = i + 1;
    }
    false
}

/// An integer in decimal, with a minus sign before it where it is negative.
pub open spec fn integer_text(n: int) -> Text {
    if n < 0 {
        "-"@ + decimal_text((-n) as nat)
    } else {
        decimal_text(n as nat)
    }
}

/// `n` in decimal, with a minus sign before it where it is negative.
pub fn integer(n: i64) -> (r: String)
    ensures
        r@ == integer_text(n as int),
{
    if n < 0 {
        let size: i128 = -(n as i128);
        "-".to_owned().concat(decimal(size as u64).as_str())
    } else {
        decimal(n as u64)
    }
}

/// The text of an optional borrowed string.
pub open spec fn str_option(text: Option<&str>) -> Option<Text> {
    match text {
        None => None,
        Some(t) => Some(t@),
    }
}

/// The text of an optional string.
pub open spec fn text_option(text: Option<String>) -> Option<Text> {
    match text {
        None => None,
        Some(t) => Some(t@),
    }
}

/// What a text of decimal digits is worth.
pub open spec fn worth(digits: Text) -> nat
    decreases digits.len(),
{
    if digits.len() == 0 {
        0
    } else {
        worth(digits.drop_last()) * 10 + (digits.last() as u32 - '0' as u32) as nat
    }
}

/// A number in decimal is made of digits alone, with no zero before it unless it is zero, and is
/// worth the number.
pub proof fn law_decimal_is_digits(n: nat)
    ensures
        decimal_text(n).len() > 0,
        forall|i: int|
            0 <= i < decimal_text(n).len() ==> '0' as u32 <= (#[trigger] decimal_text(n)[i]) as u32
                <= '9' as u32 && !white_space(decimal_text(n)[i]),
        decimal_text(n)[0] == '0' ==> n == 0,
        worth(decimal_text(n)) == n,
    decreases n,
{
    if n >= 10 {
        law_decimal_is_digits(n / 10);
        let front = decimal_text(n / 10);
        assert(decimal_text(n).drop_last() =~= front);
        assert(decimal_text(n)[0] == front[0]);
        assert forall|i: int| 0 <= i < decimal_text(n).len() implies '0' as u32 <= (
        #[trigger] decimal_text(n)[i]) as u32 <= '9' as u32 && !white_space(decimal_text(n)[i]) by {
            if i < front.len() {
                assert(decimal_text(n)[i] == front[i]);
            }
        }
    } else {
        assert(decimal_text(n).drop_last() =~= Seq::<char>::empty());
        assert(worth(Seq::<char>::empty()) == 0);
    }
}

/// Of the characters up to the end of ASCII, white space are the tab, the characters that end a line
/// or a page, and the space.
pub proof fn law_plain_white_space(c: char)
    requires
        (c as u32) < 0x80,
    ensures
        white_space(c) <==> c == ' ' || c == '\t' || c == '\n' || c == '\r' || c as u32 == 0xb || c
            as u32 == 0xc,
{
}

proof fn lemma_trim_front_of(space: Text, text: Text)
    requires
        blank(space),
        text.len() > 0 ==> !white_space(text[0]),
    ensures
        trim_front(space + text) == text,
    decreases space.len(),
{
    if space.len() == 0 {
        assert(space + text =~= text);
    } else {
        assert(white_space(space[0]));
        assert((space + text).drop_first() =~= space.drop_first() + text);
        assert(blank(space.drop_first())) by {
            assert forall|i: int| 0 <= i < space.drop_first().len() implies white_space(
                #[trigger] space.drop_first()[i],
            ) by {
                assert(white_space(space[i + 1]));
            }
        }
        lemma_trim_front_of(space.drop_first(), text);
    }
}

proof fn lemma_trim_back_of(text: Text, space: Text)
    requires
        blank(space),
        text.len() > 0 ==> !white_space(text.last()),
    ensures
        trim_back(text + space) == text,
    decreases space.len(),
{
    if space.len() == 0 {
        assert(text + space =~= text);
    } else {
        assert(white_space(space[space.len() - 1]));
        assert((text + space).drop_last() =~= text + space.drop_last());
        assert(blank(space.drop_last())) by {
            assert forall|i: int| 0 <= i < space.drop_last().len() implies white_space(
                #[trigger] space.drop_last()[i],
            ) by {
                assert(white_space(space[i]));
            }
        }
        lemma_trim_back_of(text, space.drop_last());
    }
}

/// A text that neither begins nor ends in white space.
pub open spec fn tight(text: Text) -> bool {
    text.len() > 0 ==> !white_space(text[0]) && !white_space(text.last())
}

/// Trimming takes away the white space around a text and nothing else.
pub proof fn law_trimmed_is_what_stands_inside(before: Text, text: Text, after: Text)
    requires
        blank(before),
        blank(after),
        tight(text),
    ensures
        trimmed(before + text + after) == text,
{
    if text.len() == 0 {
        let all = before + after;
        assert(before + text + after =~= all);
        assert(all + Seq::<char>::empty() =~= all);
        assert(blank(all)) by {
            assert forall|i: int| 0 <= i < all.len() implies white_space(#[trigger] all[i]) by {
                if i < before.len() {
                    assert(white_space(before[i]));
                } else {
                    assert(white_space(after[i - before.len()]));
                }
            }
        }
        lemma_trim_front_of(all, Seq::empty());
        lemma_trim_back_of(Seq::empty(), Seq::empty());
        assert(Seq::<char>::empty() + Seq::<char>::empty() =~= Seq::<char>::empty());
        assert(text =~= Seq::<char>::empty());
    } else {
        assert(before + text + after =~= before + (text + after));
        lemma_trim_front_of(before, text + after);
        lemma_trim_back_of(text, after);
    }
}

/// A text is filled up with spaces behind it, to the width of the column and no further; a longer
/// text stays as it is.
pub proof fn law_padded_fills_the_column(text: Text, width: nat)
    ensures
        padded(text, width).len() == if text.len() < width {
            width
        } else {
            text.len()
        },
        padded(text, width).take(text.len() as int) == text,
        forall|i: int| text.len() <= i < padded(text, width).len() ==> padded(text, width)[i] == ' ',
{
    assert(padded(text, width).take(text.len() as int) =~= text);
}

/// Texts stand one after the other, with the separator between each two.
pub proof fn law_separated_adds_a_part(parts: Seq<Text>, separator: Text, part: Text)
    ensures
        separated(Seq::<Text>::empty(), separator) == Seq::<char>::empty(),
        separated(seq![part], separator) == part,
        parts.len() > 0 ==> separated(parts.push(part), separator) == separated(parts, separator)
            + separator + part,
{
    assert(parts.push(part).drop_last() =~= parts);
}

/// A character stands first behind what does not hold it; where there is none, behind everything.
pub proof fn law_first_place(line: Text, c: char, rest: Text)
    requires
        !line.contains(c),
    ensures
        position(line + seq![c] + rest, c) == line.len(),
        position(line, c) == line.len(),
{
    let text = line + seq![c] + rest;
    lemma_position(text, c);
    lemma_position(line, c);
    let n = position(text, c) as int;
    if n < line.len() {
        assert(text[n] == line[n]);
        assert(line.contains(line[n]));
    }
    if n > line.len() {
        assert(text[line.len() as int] == c);
    }
    if position(line, c) < line.len() {
        assert(line.contains(line[position(line, c) as int]));
    }
}

/// A text is cut into its lines: each ends in a line feed, or in a carriage return and a line feed,
/// neither of which belongs to it; the last one may end without.
pub proof fn law_lines_are_cut_at_their_ends(line: Text, rest: Text)
    requires
        !line.contains('\n'),
    ensures
        line.len() == 0 || line.last() != '\r' ==> text_lines(line + seq!['\n'] + rest) == seq![line]
            + text_lines(rest),
        text_lines(line + seq!['\r'] + seq!['\n'] + rest) == seq![line] + text_lines(rest),
        line.len() > 0 ==> text_lines(line) == seq![line],
        text_lines(Seq::empty()).len() == 0,
{
    let plain = line + seq!['\n'] + rest;
    law_first_place(line, '\n', rest);
    assert(plain.take(line.len() as int) =~= line);
    assert(plain.skip(line.len() as int + 1) =~= rest);
    let longer = line + seq!['\r'];
    assert(!longer.contains('\n')) by {
        if longer.contains('\n') {
            let i = longer.index_of('\n');
            if i < line.len() {
                assert(line.contains(line[i]));
            }
        }
    }
    let ended = longer + seq!['\n'] + rest;
    law_first_place(longer, '\n', rest);
    assert(ended.take(longer.len() as int) =~= longer);
    assert(ended.skip(longer.len() as int + 1) =~= rest);
    assert(longer.drop_last() =~= line);
}

} // verus!
