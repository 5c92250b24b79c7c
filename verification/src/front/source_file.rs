//! Source text as a sequence of characters, each with the place it came from.
use vstd::prelude::*;
use vstd::string::*;

verus! {

/// The character that ends every source text.
pub const NUL: char = '\u{0}';

/// A place in a source text: the text's name, and line and column counted from 1.
#[derive(Debug, PartialEq)]
pub struct Location {
    pub source_file: String,
    pub line: usize,
    pub col: usize,
}

impl Location {
    pub fn new(source_file: String, line: usize, col: usize) -> (loc: Self)
        ensures
            loc.source_file == source_file,
            loc.line == line,
            loc.col == col,
    {
        Location { source_file, line, col }
    }
}

impl Clone for Location {
    fn clone(&self) -> (loc: Self)
        ensures
            loc == *self,
    {
        Location { source_file: self.source_file.clone(), line: self.line, col: self.col }
    }
}

impl Default for Location {
    fn default() -> (loc: Self)
        ensures
            loc.source_file@ == Seq::<char>::empty(),
            loc.line == 0,
            loc.col == 0,
    {
        Location { source_file: String::new(), line: 0, col: 0 }
    }
}

/// One character of a source text and where it stands.
#[derive(Debug)]
pub struct Char {
    pub c: char,
    pub loc: Location,
}

impl Char {
    pub fn new(c: char, loc: Location) -> (ch: Self)
        ensures
            ch.c == c,
            ch.loc == loc,
    {
        Char { c, loc }
    }
}

/// The line, counted from 1, of the character at index `i` of `text`.
pub open spec fn line_at(text: Seq<char>, i: int) -> int
    decreases i,
{
    if i <= 0 {
        1
    } else if text[i - 1] == '\n' {
        line_at(text, i - 1) + 1
    } else {
        line_at(text, i - 1)
    }
}

/// The column, counted from 1, of the character at index `i` of `text`.
pub open spec fn col_at(text: Seq<char>, i: int) -> int
    decreases i,
{
    if i <= 0 {
        1
    } else if text[i - 1] == '\n' {
        1
    } else {
        col_at(text, i - 1) + 1
    }
}

/// Lines and columns never run ahead of the index.
pub proof fn lemma_position_bounds(text: Seq<char>, i: int)
    requires
        0 <= i,
    ensures
        1 <= line_at(text, i) <= i + 1,
        1 <= col_at(text, i) <= i + 1,
    decreases i,
{
    if i > 0 {
        lemma_position_bounds(text, i - 1);
    }
}

/// Whether `chars` is the text `contents` followed by the end marker, each
/// character at its line and column in a text named `name`.
pub open spec fn is_source_of(chars: Seq<Char>, name: Seq<char>, contents: Seq<char>) -> bool {
    &&& chars.len() == contents.len() + 1
    &&& chars[contents.len() as int].c == NUL
    &&& forall|i: int| 0 <= i < contents.len() ==> (#[trigger] chars[i]).c == contents[i]
    &&& forall|i: int|
        0 <= i < chars.len() ==> {
            &&& (#[trigger] chars[i]).loc.source_file@ == name
            &&& chars[i].loc.line == line_at(contents, i)
            &&& chars[i].loc.col == col_at(contents, i)
        }
}

/// A source text, ready for scanning.
#[derive(Debug)]
pub struct SourceFile {
    pub chars: Vec<Char>,
}

impl SourceFile {
    /// Lays out the text `contents`, read from the file `source_file_path`,
    /// as located characters, and appends the end marker.
    pub fn new(source_file_path: &str, contents: &str) -> (file: Self)
        requires
            contents@.len() < usize::MAX,
        ensures
            is_source_of(file.chars@, source_file_path@, contents@),
    {
        let mut chars: Vec<Char> = Vec::new();
        let mut line: usize = 1;
        let mut col: usize = 1;
        for c in it: contents.chars()
            invariant
                it.seq() == contents@,
                contents@.len() < usize::MAX,
                chars@.len() == it.index(),
                line == line_at(contents@, it.index() as int),
                col == col_at(contents@, it.index() as int),
                forall|i: int| 0 <= i < chars@.len() ==> (#[trigger] chars@[i]).c == contents@[i],
                forall|i: int|
                    0 <= i < chars@.len() ==> {
                        &&& (#[trigger] chars@[i]).loc.source_file@ == source_file_path@
                        &&& chars@[i].loc.line == line_at(contents@, i)
                        &&& chars@[i].loc.col == col_at(contents@, i)
                    },
        {
            proof {
                lemma_position_bounds(contents@, it.index() as int);
                lemma_position_bounds(contents@, it.index() as int + 1);
            }
            chars.push(Char::new(c, Location::new(String::from_str(source_file_path), line, col)));
            if c == '\n' {
                line = line + 1;
                col = 1;
            } else {
                col = col + 1;
            }
        }
        chars.push(Char::new(NUL, Location::new(String::from_str(source_file_path), line, col)));
        SourceFile { chars }
    }
}

} // verus!
