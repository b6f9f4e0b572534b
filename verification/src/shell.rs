//! Quoting a value for a POSIX shell, and what such a shell reads in a line.
use crate::text::chars_of;
use vstd::prelude::*;
use vstd::string::*;

verus! {

/// What stands for one character between single quotes. A single quote cannot
/// stand there: it closes the quotes, comes itself in double quotes, and opens
/// them again.
pub open spec fn escaped_char(c: char) -> Seq<char> {
    if c == '\'' {
        seq!['\'', '"', '\'', '"', '\'']
    } else {
        seq![c]
    }
}

/// The escaped characters of a value, one after the other.
pub open spec fn escaped(value: Seq<char>) -> Seq<char>
    decreases value.len(),
{
    if value.len() == 0 {
        Seq::empty()
    } else {
        escaped(value.drop_last()) + escaped_char(value.last())
    }
}

/// The value as one quoted word.
pub open spec fn quoted(value: Seq<char>) -> Seq<char> {
    seq!['\''] + escaped(value) + seq!['\'']
}

/// How a shell is reading at some point of a line.
pub enum Reading {
    /// Outside quotes.
    Bare,
    /// Between single quotes, where every character stands for itself.
    Single,
    /// Between double quotes, where all but a few characters stand for themselves.
    Double,
}

/// What a shell has made of the beginning of a line.
#[verifier::ext_equal]
pub struct Line {
    /// The words that are complete.
    pub words: Seq<Seq<char>>,
    /// The word that has begun, if one has.
    pub word: Option<Seq<char>>,
    pub at: Reading,
}

impl Line {
    /// What the word that has begun holds so far.
    pub open spec fn begun(self) -> Seq<char> {
        match self.word {
            Some(text) => text,
            None => Seq::empty(),
        }
    }

    /// One character more in the word.
    pub open spec fn with(self, c: char) -> Line {
        Line { word: Some(self.begun().push(c)), ..self }
    }

    /// In the word, and reading in another way from here on.
    pub open spec fn turned(self, at: Reading) -> Line {
        Line { word: Some(self.begun()), at, ..self }
    }

    /// All the words, with the one that has begun.
    pub open spec fn all(self) -> Seq<Seq<char>> {
        match self.word {
            Some(text) => self.words.push(text),
            None => self.words,
        }
    }
}

/// Whether a character stands for itself outside quotes: letters, digits and
/// the hyphen do.
pub open spec fn plain(c: char) -> bool {
    'a' <= c <= 'z' || 'A' <= c <= 'Z' || '0' <= c <= '9' || c == '-'
}

/// One more character of a line, as a POSIX shell reads it. Outside quotes a
/// space ends a word. `None` where the character would be anything but a
/// space, a quote or itself.
pub open spec fn line_next(line: Line, c: char) -> Option<Line> {
    match line.at {
        Reading::Bare => if c == '\'' {
            Some(line.turned(Reading::Single))
        } else if c == '"' {
            Some(line.turned(Reading::Double))
        } else if c == ' ' {
            Some(Line { words: line.all(), word: None, ..line })
        } else if plain(c) {
            Some(line.with(c))
        } else {
            None
        },
        Reading::Single => if c == '\'' {
            Some(line.turned(Reading::Bare))
        } else {
            Some(line.with(c))
        },
        Reading::Double => if c == '"' {
            Some(line.turned(Reading::Bare))
        } else if c == '$' || c == '`' || c == '\\' {
            None
        } else {
            Some(line.with(c))
        },
    }
}

/// What a shell makes of a text that follows on the beginning of a line.
pub open spec fn line_read(start: Line, text: Seq<char>) -> Option<Line>
    decreases text.len(),
{
    if text.len() == 0 {
        Some(start)
    } else {
        match line_read(start, text.drop_last()) {
            None => None,
            Some(line) => line_next(line, text.last()),
        }
    }
}

/// A line of which nothing is read.
pub open spec fn fresh() -> Line {
    Line { words: Seq::empty(), word: None, at: Reading::Bare }
}

/// The words that a POSIX shell reads in a line. `None` where a character is
/// anything but part of a word, a quote or a space, or a quote stays open.
pub open spec fn shell_words(text: Seq<char>) -> Option<Seq<Seq<char>>> {
    match line_read(fresh(), text) {
        Some(line) => if line.at is Bare {
            Some(line.all())
        } else {
            None
        },
        None => None,
    }
}

/// Quotes a value, so that a shell takes it as one word that is the value.
pub fn shell_quote(value: &str) -> (word: String)
    ensures
        word@ == quoted(value@),
{
    let chars = chars_of(value);
    if chars.len() == 0 {
        let word = "''".to_owned();
        proof {
            reveal_strlit("''");
            assert(word@ =~= quoted(value@));
        }
        return word;
    }
    let mut word = String::new();
    word.push('\'');
    let mut i: usize = 0;
    assert(chars@.take(0) == Seq::<char>::empty());
    assert(word@ =~= seq!['\''] + escaped(chars@.take(0)));
    while i < chars.len()
        invariant
            i <= chars@.len(),
            word@ == seq!['\''] + escaped(chars@.take(i as int)),
        decreases chars@.len() - i,
    {
        let ghost before = word@;
        let c = chars[i];
        if c == '\'' {
            word.append("'\"'\"'");
            proof {
                reveal_strlit("'\"'\"'");
                assert("'\"'\"'"@ =~= escaped_char(c));
            }
        } else {
            word.push(c);
        }
        assert(chars@.take(i + 1).drop_last() == chars@.take(i as int));
        assert(word@ =~= before + escaped_char(c));
        assert(word@ =~= seq!['\''] + escaped(chars@.take(i + 1)));
        i = i + 1;
    }
    assert(chars@.take(chars@.len() as int) == chars@);
    word.push('\'');
    assert(word@ =~= quoted(value@));
    word
}

/// One character more.
proof fn lemma_read_one_more(start: Line, text: Seq<char>, c: char)
    ensures
        line_read(start, text.push(c)) == match line_read(start, text) {
            None => None,
            Some(line) => line_next(line, c),
        },
{
    assert(text.push(c).drop_last() =~= text);
}

/// A text is read as its first part and then its second.
pub proof fn lemma_read_adds_up(start: Line, a: Seq<char>, b: Seq<char>)
    ensures
        line_read(start, a + b) == match line_read(start, a) {
            None => None,
            Some(line) => line_read(line, b),
        },
    decreases b.len(),
{
    if b.len() == 0 {
        assert(a + b =~= a);
    } else {
        lemma_read_adds_up(start, a, b.drop_last());
        assert((a + b).drop_last() =~= a + b.drop_last());
    }
}

/// A word of plain characters, with the space after it, is read as that word.
pub proof fn lemma_read_plain_word(start: Line, word: Seq<char>)
    requires
        start.at is Bare,
        start.word is None,
        word.len() > 0,
        forall|i: int| 0 <= i < word.len() ==> plain(#[trigger] word[i]),
    ensures
        line_read(start, word + seq![' ']) == Some(
            Line { words: start.words.push(word), ..start },
        ),
{
    lemma_read_plain(start, word);
    lemma_read_one_more(start, word, ' ');
    assert(word + seq![' '] =~= word.push(' '));
}

proof fn lemma_read_plain(start: Line, word: Seq<char>)
    requires
        start.at is Bare,
        start.word is None,
        forall|i: int| 0 <= i < word.len() ==> plain(#[trigger] word[i]),
    ensures
        line_read(start, word) == Some(
            if word.len() == 0 {
                start
            } else {
                Line { word: Some(word), ..start }
            },
        ),
    decreases word.len(),
{
    if word.len() > 0 {
        let front = word.drop_last();
        assert forall|i: int| 0 <= i < front.len() implies plain(#[trigger] front[i]) by {
            assert(front[i] == word[i]);
        }
        lemma_read_plain(start, front);
        assert(plain(word[word.len() - 1]));
        assert(front.push(word.last()) =~= word);
        if front.len() == 0 {
            assert(front =~= Seq::<char>::empty());
        }
    }
}

/// A shell that has read the opening quote and part of the escaped value is
/// between single quotes and has read that part of the value.
proof fn lemma_read_escaped(start: Line, value: Seq<char>)
    requires
        start.at is Bare,
    ensures
        line_read(start, seq!['\''] + escaped(value)) == Some(
            Line { word: Some(start.begun() + value), at: Reading::Single, ..start },
        ),
    decreases value.len(),
{
    if value.len() == 0 {
        lemma_read_one_more(start, Seq::empty(), '\'');
        assert(seq!['\''] + escaped(value) =~= Seq::empty().push('\''));
        assert(start.begun() + value =~= start.begun());
    } else {
        let front = value.drop_last();
        let c = value.last();
        let open = seq!['\''] + escaped(front);
        lemma_read_escaped(start, front);
        assert((start.begun() + front).push(c) =~= start.begun() + value);
        if c == '\'' {
            let closed = open.push('\'');
            let opened = closed.push('"');
            let inside = opened.push('\'');
            let closed_again = inside.push('"');
            lemma_read_one_more(start, open, '\'');
            lemma_read_one_more(start, closed, '"');
            lemma_read_one_more(start, opened, '\'');
            lemma_read_one_more(start, inside, '"');
            lemma_read_one_more(start, closed_again, '\'');
            assert(seq!['\''] + escaped(value) =~= closed_again.push('\''));
        } else {
            lemma_read_one_more(start, open, c);
            assert(seq!['\''] + escaped(value) =~= open.push(c));
        }
    }
}

/// Outside quotes, a quoted value is read as the value and nothing else.
pub proof fn lemma_read_quoted(start: Line, value: Seq<char>)
    requires
        start.at is Bare,
    ensures
        line_read(start, quoted(value)) == Some(
            Line { word: Some(start.begun() + value), ..start },
        ),
{
    lemma_read_escaped(start, value);
    lemma_read_one_more(start, seq!['\''] + escaped(value), '\'');
    assert(quoted(value) =~= (seq!['\''] + escaped(value)).push('\''));
}

/// A shell reads a quoted value as one word, which is the value: no character
/// of the value can act as anything but itself.
pub proof fn law_quoted_value_reads_back(value: Seq<char>)
    ensures
        shell_words(quoted(value)) == Some(seq![value]),
{
    lemma_read_quoted(fresh(), value);
    assert(fresh().begun() + value =~= value);
    assert(fresh().words.push(value) =~= seq![value]);
}

/// Different values are quoted differently.
pub proof fn law_quoting_is_injective(a: Seq<char>, b: Seq<char>)
    requires
        quoted(a) == quoted(b),
    ensures
        a == b,
{
    law_quoted_value_reads_back(a);
    law_quoted_value_reads_back(b);
    assert(seq![a][0] == seq![b][0]);
}

proof fn lemma_escaped_adds_up(a: Seq<char>, b: Seq<char>)
    ensures
        escaped(a + b) == escaped(a) + escaped(b),
    decreases b.len(),
{
    if b.len() == 0 {
        assert(a + b =~= a);
    } else {
        lemma_escaped_adds_up(a, b.drop_last());
        assert((a + b).drop_last() =~= a + b.drop_last());
        assert(escaped(a + b) =~= escaped(a) + escaped(b));
    }
}

/// A value without a single quote is quoted by putting it between two.
pub proof fn law_plain_value_is_put_in_quotes(value: Seq<char>)
    requires
        !value.contains('\''),
    ensures
        quoted(value) == seq!['\''] + value + seq!['\''],
    decreases value.len(),
{
    if value.len() > 0 {
        let front = value.drop_last();
        assert forall|i: int| 0 <= i < front.len() implies front[i] != '\'' by {
            assert(front[i] == value[i]);
            assert(value.contains(value[i]));
        }
        law_plain_value_is_put_in_quotes(front);
        assert(quoted(front).subrange(1, quoted(front).len() - 1) =~= escaped(front));
        assert((seq!['\''] + front + seq!['\'']).subrange(1, front.len() as int + 1) =~= front);
        assert(value.contains(value.last()));
        assert(escaped(value) =~= value);
    }
}

/// A value is quoted in two parts around a single quote in it, and the single
/// quote between them in double quotes.
pub proof fn law_single_quote_is_put_in_double_quotes(before: Seq<char>, after: Seq<char>)
    ensures
        quoted(before + seq!['\''] + after) == quoted(before) + seq!['"', '\'', '"'] + quoted(after),
{
    lemma_escaped_adds_up(before + seq!['\''], after);
    lemma_escaped_adds_up(before, seq!['\'']);
    assert(seq!['\''].drop_last() =~= Seq::<char>::empty());
    assert(escaped(Seq::<char>::empty()) == Seq::<char>::empty());
    assert(escaped(seq!['\'']) =~= seq!['\'', '"', '\'', '"', '\'']);
    assert(quoted(before + seq!['\''] + after) =~= quoted(before) + seq!['"', '\'', '"'] + quoted(
        after,
    ));
}

} // verus!
