//! Telling the delimiter of a delimited text from its first line.

use vstd::prelude::*;
use vstd::string::*;

verus! {

/// The characters that may separate the fields of a line, in the order in
/// which they are tried.
#[derive(Debug, Clone, Copy, PartialEq, Eq, Structural)]
pub enum Delimiter {
    Colon,
    Comma,
    Semicolon,
    Tab,
    VerticalBar,
}

/// How often `c` occurs in `text`.
pub open spec fn occurrences(text: Seq<char>, c: char) -> nat
    decreases text.len(),
{
    if text.len() == 0 {
        0
    } else {
        occurrences(text.drop_last(), c) + if text.last() == c {
            1nat
        } else {
            0nat
        }
    }
}

/// No character occurs more often than the text is long.
pub proof fn lemma_occurrences_bounded(text: Seq<char>, c: char)
    ensures
        occurrences(text, c) <= text.len(),
    decreases text.len(),
{
    if text.len() > 0 {
        lemma_occurrences_bounded(text.drop_last(), c);
    }
}

impl Delimiter {
    /// The character of the delimiter.
    pub open spec fn char_of(self) -> char {
        match self {
            Delimiter::Colon => ':',
            Delimiter::Comma => ',',
            Delimiter::Semicolon => ';',
            Delimiter::Tab => '\t',
            Delimiter::VerticalBar => '|',
        }
    }

    /// The byte of the delimiter.
    pub open spec fn byte_of(self) -> u8 {
        match self {
            Delimiter::Colon => 58,
            Delimiter::Comma => 44,
            Delimiter::Semicolon => 59,
            Delimiter::Tab => 9,
            Delimiter::VerticalBar => 124,
        }
    }

    /// How often the delimiter occurs in `line`.
    pub open spec fn count_in(self, line: Seq<char>) -> nat {
        occurrences(line, self.char_of())
    }

    /// Whether the delimiter comes before `other` in the order of trial.
    pub open spec fn before(self, other: Delimiter) -> bool {
        self.rank() < other.rank()
    }

    /// The place of the delimiter in the order of trial.
    pub open spec fn rank(self) -> nat {
        match self {
            Delimiter::Colon => 0,
            Delimiter::Comma => 1,
            Delimiter::Semicolon => 2,
            Delimiter::Tab => 3,
            Delimiter::VerticalBar => 4,
        }
    }

    /// Whether the delimiter is the one that `line` is taken to use: none
    /// occurs more often, and none that is tried before it occurs as often.
    pub open spec fn wins_in(self, line: Seq<char>) -> bool {
        forall|other: Delimiter|
            {
                &&& #[trigger] other.count_in(line) <= self.count_in(line)
                &&& other.before(self) ==> other.count_in(line) < self.count_in(line)
            }
    }

    /// The character of the delimiter.
    pub fn as_char(&self) -> (c: char)
        ensures
            c == self.char_of(),
    {
        match self {
            Delimiter::Colon => ':',
            Delimiter::Comma => ',',
            Delimiter::Semicolon => ';',
            Delimiter::Tab => '\t',
            Delimiter::VerticalBar => '|',
        }
    }

    /// The byte of the delimiter, which is the code of its character.
    pub fn as_byte(&self) -> (b: u8)
        ensures
            b == self.byte_of(),
            b == self.char_of() as u8,
    {
        match self {
            Delimiter::Colon => 58,
            Delimiter::Comma => 44,
            Delimiter::Semicolon => 59,
            Delimiter::Tab => 9,
            Delimiter::VerticalBar => 124,
        }
    }

    /// The delimiter that occurs most often in `first_line`; among several
    /// that occur equally often, the one that is tried first.
    pub fn most_frequent(first_line: &str) -> (delimiter: Delimiter)
        ensures
            delimiter.wins_in(first_line@),
    {
        let n = first_line.unicode_len();
        let mut colons: usize = 0;
        let mut commas: usize = 0;
        let mut semicolons: usize = 0;
        let mut tabs: usize = 0;
        let mut bars: usize = 0;
        for c in iter: first_line.chars()
            invariant
                n == first_line@.len(),
                iter.seq() == first_line@,
                colons == occurrences(first_line@.take(iter.index()), ':'),
                commas == occurrences(first_line@.take(iter.index()), ','),
                semicolons == occurrences(first_line@.take(iter.index()), ';'),
                tabs == occurrences(first_line@.take(iter.index()), '\t'),
                bars == occurrences(first_line@.take(iter.index()), '|'),
        {
            proof {
                let next = first_line@.take(iter.index() + 1);
                assert(next.drop_last() =~= first_line@.take(iter.index()));
                assert(next.last() == c);
                lemma_occurrences_bounded(next, ':');
                lemma_occurrences_bounded(next, ',');
                lemma_occurrences_bounded(next, ';');
                lemma_occurrences_bounded(next, '\t');
                lemma_occurrences_bounded(next, '|');
            }
            if c == ':' {
                colons += 1;
            }
            if c == ',' {
                commas += 1;
            }
            if c == ';' {
                semicolons += 1;
            }
            if c == '\t' {
                tabs += 1;
            }
            if c == '|' {
                bars += 1;
            }
        }
        assert(first_line@.take(first_line@.len() as int) =~= first_line@);
        let mut best = Delimiter::Colon;
        let mut best_count = colons;
        if commas > best_count {
            best = Delimiter::Comma;
            best_count = commas;
        }
        if semicolons > best_count {
            best = Delimiter::Semicolon;
            best_count = semicolons;
        }
        if tabs > best_count {
            best = Delimiter::Tab;
            best_count = tabs;
        }
        if bars > best_count {
            best = Delimiter::VerticalBar;
            best_count = bars;
        }
        assert forall|other: Delimiter|
            {
                &&& #[trigger] other.count_in(first_line@) <= best.count_in(first_line@)
                &&& other.before(best) ==> other.count_in(first_line@) < best.count_in(
                    first_line@,
                )
            } by {
            match other {
                Delimiter::Colon => {},
                Delimiter::Comma => {},
                Delimiter::Semicolon => {},
                Delimiter::Tab => {},
                Delimiter::VerticalBar => {},
            }
        }
        best
    }
}

/// The byte that separates the fields of a delimited text whose first line
/// is `first_line`: the byte of the delimiter that occurs most often in the
/// line, and of several that occur equally often the one tried first (colon,
/// comma, semicolon, tab, vertical bar).
pub fn determine_delimiter(first_line: &str) -> (byte: u8)
    ensures
        exists|delimiter: Delimiter|
            #[trigger] delimiter.wins_in(first_line@) && byte == delimiter.byte_of(),
{
    Delimiter::most_frequent(first_line).as_byte()
}

/// Only one delimiter wins in a line.
pub proof fn lemma_winner_is_unique(a: Delimiter, b: Delimiter, line: Seq<char>)
    requires
        a.wins_in(line),
        b.wins_in(line),
    ensures
        a == b,
{
    assert(b.count_in(line) <= a.count_in(line));
    assert(a.count_in(line) <= b.count_in(line));
    if a != b {
        if a.before(b) {
            assert(a.count_in(line) < b.count_in(line));
        } else {
            assert(b.before(a));
            assert(b.count_in(line) < a.count_in(line));
        }
    }
}

} // verus!
