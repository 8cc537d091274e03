//! Writing values into files of other formats.
use crate::text::{to_chars, Text};
use vstd::prelude::*;

verus! {

/// `value` with each character replaced by what `piece` gives for it.
pub open spec fn escaped(value: Text, piece: spec_fn(char) -> Text) -> Text
    decreases value.len(),
{
    if value.len() == 0 {
        Seq::empty()
    } else {
        escaped(value.drop_last(), piece) + piece(value.last())
    }
}

/// What stands for a character between quotes in a systemd unit. The percent sign would start a
/// specifier there.
pub open spec fn systemd_piece(c: char) -> Text {
    if c == '\\' {
        seq!['\\', '\\']
    } else if c == '"' {
        seq!['\\', '"']
    } else if c == '%' {
        seq!['%', '%']
    } else {
        seq![c]
    }
}

/// `value` between quotes in a systemd unit.
pub open spec fn systemd_quoted(value: Text) -> Text {
    seq!['"'] + escaped(value, |c: char| systemd_piece(c)) + seq!['"']
}

/// What stands for a character in the text of an XML element.
pub open spec fn xml_piece(c: char) -> Text {
    if c == '&' {
        "&amp;"@
    } else if c == '<' {
        "&lt;"@
    } else if c == '>' {
        "&gt;"@
    } else if c == '"' {
        "&quot;"@
    } else if c == '\'' {
        "&apos;"@
    } else {
        seq![c]
    }
}

/// `value` in the text of an XML element.
pub open spec fn xml_escaped(value: Text) -> Text {
    escaped(value, |c: char| xml_piece(c))
}

proof fn lemma_one_more(value: Text, i: int, piece: spec_fn(char) -> Text)
    requires
        0 <= i < value.len(),
    ensures
        escaped(value.take(i + 1), piece) == escaped(value.take(i), piece) + piece(value[i]),
{
    assert(value.take(i + 1).drop_last() == value.take(i));
}

/// `value` between quotes in a systemd unit.
pub fn systemd_quote(value: &str) -> (r: String)
    ensures
        r@ == systemd_quoted(value@),
{
    let chars = to_chars(value);
    let ghost piece = |c: char| systemd_piece(c);
    let mut text = String::new();
    text.push('"');
    let mut i: usize = 0;
    assert(text@ =~= seq!['"'] + escaped(value@.take(0), piece));
    while i < chars.len()
        invariant
            chars@ == value@,
            i <= chars@.len(),
            piece == (|c: char| systemd_piece(c)),
            text@ == seq!['"'] + escaped(value@.take(i as int), piece),
        decreases chars@.len() - i,
    {
        let c = chars[i];
        let ghost before = text@;
        proof {
            lemma_one_more(value@, i as int, piece);
        }
        if c == '\\' {
            text.push('\\');
            text.push('\\');
        } else if c == '"' {
            text.push('\\');
            text.push('"');
        } else if c == '%' {
            text.push('%');
            text.push('%');
        } else {
            text.push(c);
        }
        assert(text@ =~= before + systemd_piece(c));
        i = i + 1;
        assert(text@ =~= seq!['"'] + escaped(value@.take(i as int), piece));
    }
    assert(value@.take(value@.len() as int) == value@);
    text.push('"');
    assert(text@ =~= systemd_quoted(value@));
    text
}

/// `value` in the text of an XML element.
pub fn xml_escape(value: &str) -> (r: String)
    ensures
        r@ == xml_escaped(value@),
{
    let chars = to_chars(value);
    let ghost piece = |c: char| xml_piece(c);
    let mut text = String::new();
    let mut i: usize = 0;
    assert(text@ =~= escaped(value@.take(0), piece));
    while i < chars.len()
        invariant
            chars@ == value@,
            i <= chars@.len(),
            piece == (|c: char| xml_piece(c)),
            text@ == escaped(value@.take(i as int), piece),
        decreases chars@.len() - i,
    {
        let c = chars[i];
        let ghost before = text@;
        proof {
            lemma_one_more(value@, i as int, piece);
        }
        if c == '&' {
            text.append("&amp;");
        } else if c == '<' {
            text.append("&lt;");
        } else if c == '>' {
            text.append("&gt;");
        } else if c == '"' {
            text.append("&quot;");
        } else if c == '\'' {
            text.append("&apos;");
        } else {
            text.push(c);
        }
        assert(text@ =~= before + xml_piece(c));
        i = i + 1;
    }
    assert(value@.take(value@.len() as int) == value@);
    text
}

/// What systemd reads between quotes, up to the quote that ends it.
pub open spec fn systemd_read(text: Text) -> Option<Text>
    decreases text.len(),
{
    if text.len() == 0 {
        None
    } else if text[0] == '"' {
        Some(Seq::empty())
    } else if text[0] == '\\' || text[0] == '%' {
        if text.len() < 2 {
            None
        } else {
            match systemd_read(text.skip(2)) {
                None => None,
                Some(rest) => Some(seq![text[1]] + rest),
            }
        }
    } else {
        match systemd_read(text.drop_first()) {
            None => None,
            Some(rest) => Some(seq![text[0]] + rest),
        }
    }
}

/// Whatever the value, systemd reads back exactly it between the quotes: nothing in it ends the
/// quotes early or is taken for a specifier.
pub proof fn law_systemd_reads_the_value(value: Text)
    ensures
        systemd_quoted(value)[0] == '"',
        systemd_read(systemd_quoted(value).drop_first()) == Some(value),
{
    let piece = |c: char| systemd_piece(c);
    lemma_systemd_read(value, seq!['"']);
    assert(systemd_quoted(value).drop_first() =~= escaped(value, piece) + seq!['"']);
    assert(systemd_read(seq!['"']) == Some(Seq::<char>::empty()));
    assert(value + Seq::<char>::empty() =~= value);
}

proof fn lemma_systemd_read(value: Text, rest: Text)
    requires
        systemd_read(rest) is Some,
    ensures
        systemd_read(escaped(value, |c: char| systemd_piece(c)) + rest) == Some(
            value + systemd_read(rest)->0,
        ),
    decreases value.len(),
{
    let piece = |c: char| systemd_piece(c);
    if value.len() == 0 {
        assert(escaped(value, piece) + rest =~= rest);
        assert(value + systemd_read(rest)->0 =~= systemd_read(rest)->0);
    } else {
        let front = value.drop_last();
        let c = value.last();
        let more = systemd_piece(c) + rest;
        assert(systemd_read(more) == Some(seq![c] + systemd_read(rest)->0)) by {
            if systemd_piece(c).len() == 2 {
                assert(more.skip(2) =~= rest);
            } else {
                assert(more.drop_first() =~= rest);
            }
        }
        lemma_systemd_read(front, more);
        assert(escaped(value, piece) + rest =~= escaped(front, piece) + more);
        assert(value + systemd_read(rest)->0 =~= front + (seq![c] + systemd_read(rest)->0));
    }
}

/// `text` begins with `word`.
pub open spec fn begins(text: Text, word: Text) -> bool {
    text.len() >= word.len() && text.take(word.len() as int) == word
}

/// The character that an XML parser reads at the start of `text`, and how many characters it takes
/// up.
pub open spec fn xml_first(text: Text) -> Option<(char, int)> {
    if text.len() == 0 || text[0] == '<' || text[0] == '>' {
        None
    } else if text[0] != '&' {
        Some((text[0], 1))
    } else if begins(text, "&amp;"@) {
        Some(('&', 5))
    } else if begins(text, "&lt;"@) {
        Some(('<', 4))
    } else if begins(text, "&gt;"@) {
        Some(('>', 4))
    } else if begins(text, "&quot;"@) {
        Some(('"', 6))
    } else if begins(text, "&apos;"@) {
        Some(('\'', 6))
    } else {
        None
    }
}

/// What an XML parser reads in the text of an element.
pub open spec fn xml_read(text: Text) -> Option<Text>
    decreases text.len(),
    via xml_read_decreases
{
    if text.len() == 0 {
        Some(Seq::empty())
    } else {
        match xml_first(text) {
            None => None,
            Some((c, n)) => match xml_read(text.skip(n)) {
                None => None,
                Some(rest) => Some(seq![c] + rest),
            },
        }
    }
}

#[via_fn]
proof fn xml_read_decreases(text: Text) {
    reveal_strlit("&amp;");
    reveal_strlit("&lt;");
    reveal_strlit("&gt;");
    reveal_strlit("&quot;");
    reveal_strlit("&apos;");
}

/// Whatever the value, an XML parser reads back exactly it from the text of the element: nothing in
/// it ends the element or starts another.
pub proof fn law_xml_reads_the_value(value: Text)
    ensures
        xml_read(xml_escaped(value)) == Some(value),
{
    lemma_xml_read(value, Seq::empty());
    assert(xml_escaped(value) + Seq::<char>::empty() =~= xml_escaped(value));
    assert(value + Seq::<char>::empty() =~= value);
}

proof fn lemma_xml_piece(c: char, rest: Text)
    ensures
        xml_first(xml_piece(c) + rest) == Some((c, xml_piece(c).len() as int)),
        xml_piece(c).len() > 0,
{
    reveal_strlit("&amp;");
    reveal_strlit("&lt;");
    reveal_strlit("&gt;");
    reveal_strlit("&quot;");
    reveal_strlit("&apos;");
    let text = xml_piece(c) + rest;
    let n = xml_piece(c).len() as int;
    assert(text.take(n) =~= xml_piece(c));
    assert(begins(text, "&amp;"@) ==> text.take(5)[1] == 'a' && text.take(5)[2] == 'm');
    assert(begins(text, "&lt;"@) ==> text.take(4)[1] == 'l');
    assert(begins(text, "&gt;"@) ==> text.take(4)[1] == 'g');
    assert(begins(text, "&quot;"@) ==> text.take(6)[1] == 'q');
    if n > 1 {
        assert(text[1] == xml_piece(c)[1]);
        assert(text[2] == xml_piece(c)[2]);
    }
}

proof fn lemma_xml_read(value: Text, rest: Text)
    requires
        xml_read(rest) is Some,
    ensures
        xml_read(xml_escaped(value) + rest) == Some(value + xml_read(rest)->0),
    decreases value.len(),
{
    let piece = |c: char| xml_piece(c);
    if value.len() == 0 {
        assert(escaped(value, piece) + rest =~= rest);
        assert(value + xml_read(rest)->0 =~= xml_read(rest)->0);
    } else {
        let front = value.drop_last();
        let c = value.last();
        let more = xml_piece(c) + rest;
        lemma_xml_piece(c, rest);
        assert(more.skip(xml_piece(c).len() as int) =~= rest);
        assert(xml_read(more) == Some(seq![c] + xml_read(rest)->0));
        lemma_xml_read(front, more);
        assert(escaped(value, piece) + rest =~= escaped(front, piece) + more);
        assert(value + xml_read(rest)->0 =~= front + (seq![c] + xml_read(rest)->0));
    }
}

/// A quoted value has line breaks only where the value has them.
pub proof fn law_quoting_adds_no_line_break(value: Text, c: char)
    requires
        c == '\n' || c == '\r',
        !value.contains(c),
    ensures
        !systemd_quoted(value).contains(c),
    decreases value.len(),
{
    let piece = |c: char| systemd_piece(c);
    if value.len() > 0 {
        let front = value.drop_last();
        assert(!front.contains(c)) by {
            if front.contains(c) {
                let i = front.index_of(c);
                assert(value[i] == c);
            }
        }
        law_quoting_adds_no_line_break(front, c);
        assert(value[value.len() - 1] != c) by {
            if value[value.len() - 1] == c {
                assert(value.contains(c));
            }
        }
        let text = systemd_quoted(value);
        let earlier = systemd_quoted(front);
        if text.contains(c) {
            let i = text.index_of(c);
            if i < earlier.len() - 1 {
                assert(earlier[i] == text[i]);
                assert(earlier.contains(c));
            } else if i < text.len() - 1 {
                assert(text[i] == systemd_piece(value.last())[i - (earlier.len() - 1)]);
            }
        }
    } else {
        assert(systemd_quoted(value) =~= seq!['"', '"']);
    }
}

} // verus!
