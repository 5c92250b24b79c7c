//! The scanner: from located characters to tokens.
use crate::error::{ExprError, ExprErrorKind};
use crate::front::source_file::{Char, Location, NUL};
use crate::front::token::{keyword_or, Token, TokenKind};
use crate::text::{char_is_ascii_digit, is_ascii_digit};
use vstd::prelude::*;
use vstd::string::*;

verus! {

/// Taken on trust of `String::push` in std: the string is afterwards what it
/// was before with the character `ch` behind it.
pub assume_specification[ String::push ](s: &mut String, ch: char)
    ensures
        final(s)@ == old(s)@.push(ch),
;

/// The characters with the Unicode property White_Space.
pub open spec fn is_whitespace(c: char) -> bool {
    ||| '\u{9}' <= c <= '\u{d}'
    ||| c == ' '
    ||| c == '\u{85}'
    ||| c == '\u{a0}'
    ||| c == '\u{1680}'
    ||| '\u{2000}' <= c <= '\u{200a}'
    ||| c == '\u{2028}'
    ||| c == '\u{2029}'
    ||| c == '\u{202f}'
    ||| c == '\u{205f}'
    ||| c == '\u{3000}'
}

pub open spec fn is_ascii_alphabetic(c: char) -> bool {
    'a' <= c <= 'z' || 'A' <= c <= 'Z'
}

pub fn char_is_whitespace(c: char) -> (b: bool)
    ensures
        b == is_whitespace(c),
{
    ('\u{9}' <= c && c <= '\u{d}') || c == ' ' || c == '\u{85}' || c == '\u{a0}' || c
        == '\u{1680}' || ('\u{2000}' <= c && c <= '\u{200a}') || c == '\u{2028}' || c
        == '\u{2029}' || c == '\u{202f}' || c == '\u{205f}' || c == '\u{3000}'
}

pub fn char_is_ascii_alphabetic(c: char) -> (b: bool)
    ensures
        b == is_ascii_alphabetic(c),
{
    ('a' <= c && c <= 'z') || ('A' <= c && c <= 'Z')
}

/// Why scanning stopped short.
pub enum ScanFault {
    /// A character was needed after the last one.
    RanOut,
    /// No token begins with the character.
    Unrecognized,
}

impl ScanFault {
    pub open spec fn message(self) -> Seq<char> {
        match self {
            ScanFault::RanOut => "ran out of characters"@,
            ScanFault::Unrecognized => "unrecognized character"@,
        }
    }

    /// Whether `err` is the error that reports this fault.
    pub open spec fn reported_by(self, err: ExprError) -> bool {
        &&& err.kind == ExprErrorKind::ScannerError
        &&& err.message@ == self.message()
        &&& err.loc is None
    }

    fn to_error(&self) -> (err: ExprError)
        ensures
            self.reported_by(err),
    {
        match self {
            ScanFault::RanOut => ExprError::new(
                ExprErrorKind::ScannerError,
                String::from_str("ran out of characters"),
            ),
            ScanFault::Unrecognized => ExprError::new(
                ExprErrorKind::ScannerError,
                String::from_str("unrecognized character"),
            ),
        }
    }
}

/// Where a line comment that is being skipped from `i` on ends: at the end
/// marker, or behind the line feed. `None` where the characters run out first.
pub open spec fn comment_end(chars: Seq<Char>, i: int) -> Option<int>
    decreases chars.len() - i,
{
    if i < 0 || i >= chars.len() {
        None
    } else if chars[i].c == NUL {
        Some(i)
    } else if chars[i].c == '\n' {
        Some(i + 1)
    } else {
        comment_end(chars, i + 1)
    }
}

/// Whether a line comment begins at `i`.
pub open spec fn comment_starts(chars: Seq<Char>, i: int) -> bool {
    0 <= i && i + 1 < chars.len() && chars[i].c == '/' && chars[i + 1].c == '/'
}

/// The index of the first character from `i` on that is neither white space
/// nor part of a line comment. `None` where the characters run out first.
/// (A comment always ends behind where it begins, see
/// `lemma_comment_end_bounds`: the test of that only bounds the recursion.)
pub open spec fn skip_trivia(chars: Seq<Char>, i: int) -> Option<int>
    decreases chars.len() - i,
{
    if i < 0 || i >= chars.len() {
        None
    } else if is_whitespace(chars[i].c) {
        skip_trivia(chars, i + 1)
    } else if comment_starts(chars, i) {
        match comment_end(chars, i + 2) {
            Some(j) => if i < j <= chars.len() {
                skip_trivia(chars, j)
            } else {
                None
            },
            None => None,
        }
    } else {
        Some(i)
    }
}

/// The index behind the run of letters (or, with `digits`, of digits) that
/// begins at `i`. `None` where the run reaches the last character.
pub open spec fn run_end(chars: Seq<Char>, i: int, digits: bool) -> Option<int>
    decreases chars.len() - i,
{
    if i < 0 || i >= chars.len() {
        None
    } else if (if digits {
        is_ascii_digit(chars[i].c)
    } else {
        is_ascii_alphabetic(chars[i].c)
    }) {
        run_end(chars, i + 1, digits)
    } else {
        Some(i)
    }
}

/// The token that begins with `first` and is one character longer when `next`
/// follows it: its kind with and without `next`.
pub open spec fn two_char_rule(first: char) -> Option<(char, TokenKind, TokenKind)> {
    if first == '+' {
        Some(('=', TokenKind::PlusAssign, TokenKind::Plus))
    } else if first == '-' {
        Some(('=', TokenKind::MinusAssign, TokenKind::Minus))
    } else if first == '*' {
        Some(('=', TokenKind::StarAssign, TokenKind::Star))
    } else if first == '/' {
        Some(('=', TokenKind::SlashAssign, TokenKind::Slash))
    } else if first == '%' {
        Some(('=', TokenKind::ModAssign, TokenKind::Mod))
    } else if first == '=' {
        Some(('=', TokenKind::Equal, TokenKind::Assign))
    } else if first == '!' {
        Some(('=', TokenKind::NotEqual, TokenKind::LogicalNot))
    } else if first == '^' {
        Some(('=', TokenKind::BitwiseXorAssign, TokenKind::BitwiseXor))
    } else {
        None
    }
}

/// The kinds of the tokens that begin with `first` where a second `first`
/// makes the logical operator of it: the logical operator, the bitwise
/// operator with `=`, the bitwise operator.
pub open spec fn doubling_rule(first: char) -> Option<(TokenKind, TokenKind, TokenKind)> {
    if first == '&' {
        Some((TokenKind::LogicalAnd, TokenKind::BitwiseAndAssign, TokenKind::BitwiseAnd))
    } else if first == '|' {
        Some((TokenKind::LogicalOr, TokenKind::BitwiseOrAssign, TokenKind::BitwiseOr))
    } else {
        None
    }
}

/// The kinds of the tokens that begin with the angle bracket `first`: the
/// shift with `=`, the shift, the comparison with `=`, the comparison.
pub open spec fn angle_rule(first: char) -> Option<(TokenKind, TokenKind, TokenKind, TokenKind)> {
    if first == '<' {
        Some(
            (
                TokenKind::LeftShiftAssign,
                TokenKind::LeftShift,
                TokenKind::LessThanOrEqual,
                TokenKind::LessThan,
            ),
        )
    } else if first == '>' {
        Some(
            (
                TokenKind::RightShiftAssign,
                TokenKind::RightShift,
                TokenKind::GreaterThanOrEqual,
                TokenKind::GreaterThan,
            ),
        )
    } else {
        None
    }
}

/// The token that begins at `i`: its kind as scanned and the index behind it.
///
/// A token that may go on needs a character behind it to decide, and is the
/// longest that the characters make. The end marker is the token `Eof` of no
/// length.
pub open spec fn token_at(chars: Seq<Char>, i: int) -> Result<(TokenKind, int), ScanFault> {
    if i < 0 || i >= chars.len() {
        Err(ScanFault::RanOut)
    } else {
        let c = chars[i].c;
        if c == '(' {
            Ok((TokenKind::LeftParen, i + 1))
        } else if c == ')' {
            Ok((TokenKind::RightParen, i + 1))
        } else if c == '~' {
            Ok((TokenKind::BitwiseNot, i + 1))
        } else if c == NUL {
            Ok((TokenKind::Eof, i))
        } else if two_char_rule(c) is Some {
            let (next, long, short) = two_char_rule(c)->0;
            if i + 1 >= chars.len() {
                Err(ScanFault::RanOut)
            } else if chars[i + 1].c == next {
                Ok((long, i + 2))
            } else {
                Ok((short, i + 1))
            }
        } else if doubling_rule(c) is Some {
            let (logical, assign, bitwise) = doubling_rule(c)->0;
            if i + 1 >= chars.len() {
                Err(ScanFault::RanOut)
            } else if chars[i + 1].c == c {
                Ok((logical, i + 2))
            } else if chars[i + 1].c == '=' {
                Ok((assign, i + 2))
            } else {
                Ok((bitwise, i + 1))
            }
        } else if angle_rule(c) is Some {
            let (shift_assign, shift, or_equal, plain) = angle_rule(c)->0;
            if i + 1 >= chars.len() {
                Err(ScanFault::RanOut)
            } else if chars[i + 1].c == c {
                if i + 2 >= chars.len() {
                    Err(ScanFault::RanOut)
                } else if chars[i + 2].c == '=' {
                    Ok((shift_assign, i + 3))
                } else {
                    Ok((shift, i + 2))
                }
            } else if chars[i + 1].c == '=' {
                Ok((or_equal, i + 2))
            } else {
                Ok((plain, i + 1))
            }
        } else if is_ascii_alphabetic(c) {
            match run_end(chars, i, false) {
                Some(j) => Ok((TokenKind::Identifier, j)),
                None => Err(ScanFault::RanOut),
            }
        } else if is_ascii_digit(c) {
            match run_end(chars, i, true) {
                Some(j) => Ok((TokenKind::Integer, j)),
                None => Err(ScanFault::RanOut),
            }
        } else {
            Err(ScanFault::Unrecognized)
        }
    }
}

/// The characters from index `i` up to `j`, as text.
pub open spec fn spelling(chars: Seq<Char>, i: int, j: int) -> Seq<char> {
    Seq::new((j - i) as nat, |k: int| chars[i + k].c)
}

/// What a token is: its kind, its text and the place of its first character.
pub struct Lexeme {
    pub kind: TokenKind,
    pub spelling: Seq<char>,
    pub loc: Location,
}

impl View for Token {
    type V = Lexeme;

    open spec fn view(&self) -> Lexeme {
        Lexeme { kind: self.kind, spelling: self.spelling@, loc: self.loc }
    }
}

/// The tokens of a sequence, each as what it is.
pub open spec fn lexemes(tokens: Seq<Token>) -> Seq<Lexeme> {
    Seq::new(tokens.len(), |k: int| tokens[k]@)
}

/// The outcome of a scan: the tokens found, why it stopped if it did not
/// reach the end marker, and the index it stopped at: that of the end marker,
/// or the one it set out from for the token that it could not read.
pub struct Scan {
    pub lexemes: Seq<Lexeme>,
    pub fault: Option<ScanFault>,
    pub end: int,
}

/// The token behind the white space and comments that begin at `i`, and the
/// index behind that token.
pub open spec fn lexeme_at(chars: Seq<Char>, i: int) -> Result<(Lexeme, int), ScanFault> {
    match skip_trivia(chars, i) {
        None => Err(ScanFault::RanOut),
        Some(j) => match token_at(chars, j) {
            Err(f) => Err(f),
            Ok((kind, end)) => Ok(
                (
                    Lexeme {
                        kind: keyword_or(spelling(chars, j, end), kind),
                        spelling: spelling(chars, j, end),
                        loc: chars[j].loc,
                    },
                    end,
                ),
            ),
        },
    }
}

/// The tokens from index `i` on, up to and with the first `Eof`. (Every
/// other token ends behind where it begins, see `lemma_lexeme_advances`: the
/// test of that only bounds the recursion.)
pub open spec fn scan_from(chars: Seq<Char>, i: int) -> Scan
    decreases chars.len() - i,
{
    match lexeme_at(chars, i) {
        Err(f) => Scan { lexemes: Seq::empty(), fault: Some(f), end: i },
        Ok((lexeme, end)) => if lexeme.kind == TokenKind::Eof || !(i < end <= chars.len()) {
            Scan { lexemes: seq![lexeme], fault: None, end }
        } else {
            let rest = scan_from(chars, end);
            Scan { lexemes: seq![lexeme] + rest.lexemes, ..rest }
        },
    }
}


/// A line comment ends behind where it was entered, and within the characters.
pub proof fn lemma_comment_end_bounds(chars: Seq<Char>, i: int)
    ensures
        comment_end(chars, i) matches Some(j) ==> i <= j <= chars.len(),
    decreases chars.len() - i,
{
    if 0 <= i < chars.len() && chars[i].c != NUL && chars[i].c != '\n' {
        lemma_comment_end_bounds(chars, i + 1);
    }
}

/// Skipping stops at a character that begins no white space and no comment.
pub proof fn lemma_skip_trivia_stops(chars: Seq<Char>, i: int)
    ensures
        skip_trivia(chars, i) matches Some(j) ==> {
            &&& i <= j < chars.len()
            &&& !is_whitespace(chars[j].c)
            &&& !comment_starts(chars, j)
        },
    decreases chars.len() - i,
{
    if 0 <= i < chars.len() {
        if is_whitespace(chars[i].c) {
            lemma_skip_trivia_stops(chars, i + 1);
        } else if comment_starts(chars, i) {
            lemma_comment_end_bounds(chars, i + 2);
            match comment_end(chars, i + 2) {
                Some(j) => {
                    lemma_skip_trivia_stops(chars, j);
                },
                None => {},
            }
        }
    }
}

/// A run ends behind its first character when that character belongs to it,
/// and within the characters.
pub proof fn lemma_run_end_bounds(chars: Seq<Char>, i: int, digits: bool)
    ensures
        run_end(chars, i, digits) matches Some(j) ==> {
            &&& i <= j < chars.len()
            &&& (0 <= i && (if digits {
                is_ascii_digit(chars[i].c)
            } else {
                is_ascii_alphabetic(chars[i].c)
            }) ==> i < j)
        },
    decreases chars.len() - i,
{
    if 0 <= i < chars.len() {
        lemma_run_end_bounds(chars, i + 1, digits);
    }
}

/// Every token but `Eof` takes at least one character, and none reaches
/// beyond the characters.
pub proof fn lemma_token_advances(chars: Seq<Char>, i: int)
    ensures
        token_at(chars, i) matches Ok((kind, end)) ==> {
            &&& 0 <= i <= end <= chars.len()
            &&& i < chars.len()
            &&& (kind != TokenKind::Eof ==> i < end)
        },
{
    lemma_run_end_bounds(chars, i, false);
    lemma_run_end_bounds(chars, i, true);
}

/// Every token but `Eof` ends behind where the scan for it began, and none
/// reaches beyond the characters.
pub proof fn lemma_lexeme_advances(chars: Seq<Char>, i: int)
    ensures
        lexeme_at(chars, i) matches Ok((lexeme, end)) ==> {
            &&& i <= end <= chars.len()
            &&& (lexeme.kind != TokenKind::Eof ==> i < end)
        },
{
    lemma_skip_trivia_stops(chars, i);
    match skip_trivia(chars, i) {
        Some(stop) => {
            lemma_token_advances(chars, stop);
            match token_at(chars, stop) {
                Ok((kind, end)) => {
                    if kind == TokenKind::Eof {
                        reveal_strlit("print");
                        reveal_strlit("true");
                        reveal_strlit("false");
                        assert(spelling(chars, stop, end).len() == 0);
                    }
                },
                Err(_) => {},
            }
        },
        None => {},
    }
}

/// The scanner's state: the characters, the tokens found so far, the index of
/// the next character, and the text and place of the token being read.
pub struct Scanner {
    pub chars: Vec<Char>,
    pub tokens: Vec<Token>,
    pub curr_idx: usize,
    pub curr_buf: String,
    pub curr_loc: Location,
}

impl Scanner {
    pub fn new(chars: Vec<Char>) -> (scanner: Self)
        ensures
            scanner.chars == chars,
            scanner.tokens@.len() == 0,
            scanner.curr_idx == 0,
            scanner.curr_buf@.len() == 0,
            scanner.curr_loc.source_file@.len() == 0,
            scanner.curr_loc.line == 0,
            scanner.curr_loc.col == 0,
    {
        Scanner {
            chars,
            tokens: Vec::new(),
            curr_idx: 0,
            curr_buf: String::new(),
            curr_loc: Location::default(),
        }
    }

    fn check_character_stream(&self) -> (res: Result<(), ExprError>)
        ensures
            res is Ok <==> self.curr_idx < self.chars.len(),
            res matches Err(e) ==> ScanFault::RanOut.reported_by(e),
    {
        if self.curr_idx >= self.chars.len() {
            Err(ScanFault::RanOut.to_error())
        } else {
            Ok(())
        }
    }

    fn curr_char(&self) -> (res: Result<&Char, ExprError>)
        ensures
            res is Ok <==> self.curr_idx < self.chars.len(),
            res matches Ok(ch) ==> *ch == self.chars@[self.curr_idx as int],
            res matches Err(e) ==> ScanFault::RanOut.reported_by(e),
    {
        match self.check_character_stream() {
            Ok(()) => Ok(&self.chars[self.curr_idx]),
            Err(e) => Err(e),
        }
    }

    fn peek_char(&self, offset: usize) -> (res: Option<&Char>)
        ensures
            res is Some <==> self.curr_idx + offset < self.chars.len(),
            res matches Some(ch) ==> *ch == self.chars@[self.curr_idx + offset],
    {
        if self.curr_idx >= self.chars.len() || offset >= self.chars.len() - self.curr_idx {
            None
        } else {
            Some(&self.chars[self.curr_idx + offset])
        }
    }

    fn skip_it(&mut self)
        requires
            old(self).curr_idx < old(self).chars.len(),
        ensures
            *final(self) == (Scanner { curr_idx: (old(self).curr_idx + 1) as usize, ..*old(self) }),
    {
        self.curr_idx += 1;
    }

    fn eat_it(&mut self) -> (res: Result<(), ExprError>)
        ensures
            res is Ok <==> old(self).curr_idx < old(self).chars.len(),
            res is Ok ==> {
                &&& final(self).curr_idx == old(self).curr_idx + 1
                &&& final(self).curr_buf@ == old(self).curr_buf@.push(
                    old(self).chars@[old(self).curr_idx as int].c,
                )
            },
            res is Err ==> *final(self) == *old(self),
            res matches Err(e) ==> ScanFault::RanOut.reported_by(e),
            final(self).chars == old(self).chars,
            final(self).tokens == old(self).tokens,
            final(self).curr_loc == old(self).curr_loc,
    {
        let c = match self.curr_char() {
            Ok(ch) => ch.c,
            Err(e) => {
                return Err(e);
            },
        };
        self.curr_buf.push(c);
        self.curr_idx += 1;
        Ok(())
    }

    /// Eats the current character if it is `c`, and says whether it was.
    fn eat_if(&mut self, c: char) -> (res: Result<bool, ExprError>)
        ensures
            res is Ok <==> old(self).curr_idx < old(self).chars.len(),
            res matches Ok(found) ==> {
                &&& found == (old(self).chars@[old(self).curr_idx as int].c == c)
                &&& found ==> final(self).curr_idx == old(self).curr_idx + 1
                    && final(self).curr_buf@ == old(self).curr_buf@.push(c)
                &&& !found ==> *final(self) == *old(self)
            },
            res is Err ==> *final(self) == *old(self),
            res matches Err(e) ==> ScanFault::RanOut.reported_by(e),
            final(self).chars == old(self).chars,
            final(self).tokens == old(self).tokens,
            final(self).curr_loc == old(self).curr_loc,
    {
        let found = match self.curr_char() {
            Ok(ch) => ch.c == c,
            Err(e) => {
                return Err(e);
            },
        };
        if found {
            self.curr_buf.push(c);
            self.curr_idx += 1;
        }
        Ok(found)
    }

    /// Skips the white space, or the one line comment, that begins at the
    /// current character.
    fn skip_whitespace(&mut self) -> (res: Result<(), ExprError>)
        ensures
            final(self).chars == old(self).chars,
            final(self).tokens == old(self).tokens,
            res is Ok ==> {
                &&& skip_trivia(final(self).chars@, final(self).curr_idx as int) == skip_trivia(
                    old(self).chars@,
                    old(self).curr_idx as int,
                )
                &&& old(self).curr_idx <= final(self).curr_idx <= old(self).chars.len()
                &&& (is_whitespace(old(self).chars@[old(self).curr_idx as int].c) || comment_starts(
                    old(self).chars@,
                    old(self).curr_idx as int,
                ) ==> old(self).curr_idx < final(self).curr_idx)
            },
            res matches Err(e) ==> {
                &&& skip_trivia(old(self).chars@, old(self).curr_idx as int) is None
                &&& ScanFault::RanOut.reported_by(e)
            },
    {
        let ghost start = self.curr_idx as int;
        let c = self.curr_char()?.c;
        let comment = c == '/' && match self.peek_char(1) {
            Some(ch) => ch.c == '/',
            None => false,
        };
        if char_is_whitespace(c) {
            loop
                invariant
                    self.chars == old(self).chars,
                    self.tokens == old(self).tokens,
                    start == old(self).curr_idx,
                    start <= self.curr_idx <= self.chars.len(),
                    start < self.chars.len(),
                    is_whitespace(self.chars@[start].c),
                    skip_trivia(self.chars@, self.curr_idx as int) == skip_trivia(
                        self.chars@,
                        start,
                    ),
                ensures
                    start < self.curr_idx,
                decreases self.chars.len() - self.curr_idx,
            {
                if !char_is_whitespace(self.curr_char()?.c) {
                    break ;
                }
                self.skip_it();
            }
        } else if comment {
            self.skip_it();
            self.skip_it();
            loop
                invariant_except_break
                    comment_end(self.chars@, self.curr_idx as int) == comment_end(
                        self.chars@,
                        start + 2,
                    ),
                invariant
                    self.chars == old(self).chars,
                    self.tokens == old(self).tokens,
                    start == old(self).curr_idx,
                    start + 2 <= self.curr_idx <= self.chars.len(),
                    comment_starts(self.chars@, start),
                    !is_whitespace(self.chars@[start].c),
                ensures
                    comment_end(self.chars@, start + 2) == Some(self.curr_idx as int),
                decreases self.chars.len() - self.curr_idx,
            {
                let c = self.curr_char()?.c;
                if c == NUL {
                    break ;
                }
                if c == '\n' {
                    self.skip_it();
                    break ;
                }
                self.skip_it();
            }
        }
        Ok(())
    }

    /// Reads the token that begins at the current character into the buffer.
    fn scan_token(&mut self) -> (res: Result<TokenKind, ExprError>)
        ensures
            final(self).chars == old(self).chars,
            final(self).tokens == old(self).tokens,
            match token_at(old(self).chars@, old(self).curr_idx as int) {
                Ok((kind, end)) => {
                    &&& res == Ok::<TokenKind, ExprError>(kind)
                    &&& final(self).curr_idx == end
                    &&& final(self).curr_buf@ == old(self).curr_buf@ + spelling(
                        old(self).chars@,
                        old(self).curr_idx as int,
                        end,
                    )
                    &&& final(self).curr_loc == old(self).chars@[old(self).curr_idx as int].loc
                },
                Err(f) => res matches Err(e) && f.reported_by(e),
            },
    {
        let ghost start = self.curr_idx as int;
        let ghost chars = self.chars@;
        let first = self.curr_char()?;
        let c = first.c;
        self.curr_loc = first.loc.clone();
        let kind = if c == '(' {
            self.eat_it()?;
            TokenKind::LeftParen
        } else if c == ')' {
            self.eat_it()?;
            TokenKind::RightParen
        } else if c == '~' {
            self.eat_it()?;
            TokenKind::BitwiseNot
        } else if c == NUL {
            TokenKind::Eof
        } else if let Some((next, long, short)) = Self::two_char_kinds(c) {
            self.eat_it()?;
            if self.eat_if(next)? {
                long
            } else {
                short
            }
        } else if let Some((logical, assign, bitwise)) = Self::doubling_kinds(c) {
            self.eat_it()?;
            if self.eat_if(c)? {
                logical
            } else if self.eat_if('=')? {
                assign
            } else {
                bitwise
            }
        } else if let Some((shift_assign, shift, or_equal, plain)) = Self::angle_kinds(c) {
            self.eat_it()?;
            if self.eat_if(c)? {
                if self.eat_if('=')? {
                    shift_assign
                } else {
                    shift
                }
            } else if self.eat_if('=')? {
                or_equal
            } else {
                plain
            }
        } else if char_is_ascii_alphabetic(c) {
            self.eat_run(false)?;
            TokenKind::Identifier
        } else if char_is_ascii_digit(c) {
            self.eat_run(true)?;
            TokenKind::Integer
        } else {
            return Err(ScanFault::Unrecognized.to_error());
        };
        proof {
            lemma_token_advances(chars, start);
            assert(self.curr_buf@ =~= old(self).curr_buf@ + spelling(
                chars,
                start,
                self.curr_idx as int,
            ));
        }
        Ok(kind)
    }

    /// Eats the run of letters (or, with `digits`, of digits) that begins at
    /// the current character.
    fn eat_run(&mut self, digits: bool) -> (res: Result<(), ExprError>)
        ensures
            final(self).chars == old(self).chars,
            final(self).tokens == old(self).tokens,
            final(self).curr_loc == old(self).curr_loc,
            match run_end(old(self).chars@, old(self).curr_idx as int, digits) {
                Some(end) => {
                    &&& res is Ok
                    &&& final(self).curr_idx == end
                    &&& final(self).curr_buf@ == old(self).curr_buf@ + spelling(
                        old(self).chars@,
                        old(self).curr_idx as int,
                        end,
                    )
                },
                None => res matches Err(e) && ScanFault::RanOut.reported_by(e),
            },
    {
        let ghost start = self.curr_idx as int;
        loop
            invariant
                self.chars == old(self).chars,
                self.tokens == old(self).tokens,
                self.curr_loc == old(self).curr_loc,
                start == old(self).curr_idx,
                start <= self.curr_idx <= self.chars.len() || start == self.curr_idx,
                run_end(self.chars@, self.curr_idx as int, digits) == run_end(
                    self.chars@,
                    start,
                    digits,
                ),
                self.curr_buf@ == old(self).curr_buf@ + spelling(
                    self.chars@,
                    start,
                    self.curr_idx as int,
                ),
            ensures
                run_end(self.chars@, start, digits) == Some(self.curr_idx as int),
            decreases self.chars.len() - self.curr_idx,
        {
            let c = self.curr_char()?.c;
            let in_run = if digits {
                char_is_ascii_digit(c)
            } else {
                char_is_ascii_alphabetic(c)
            };
            if !in_run {
                break ;
            }
            self.eat_it()?;
            assert(self.curr_buf@ =~= old(self).curr_buf@ + spelling(
                self.chars@,
                start,
                self.curr_idx as int,
            ));
        }
        Ok(())
    }

    fn two_char_kinds(first: char) -> (rule: Option<(char, TokenKind, TokenKind)>)
        ensures
            rule == two_char_rule(first),
    {
        if first == '+' {
            Some(('=', TokenKind::PlusAssign, TokenKind::Plus))
        } else if first == '-' {
            Some(('=', TokenKind::MinusAssign, TokenKind::Minus))
        } else if first == '*' {
            Some(('=', TokenKind::StarAssign, TokenKind::Star))
        } else if first == '/' {
            Some(('=', TokenKind::SlashAssign, TokenKind::Slash))
        } else if first == '%' {
            Some(('=', TokenKind::ModAssign, TokenKind::Mod))
        } else if first == '=' {
            Some(('=', TokenKind::Equal, TokenKind::Assign))
        } else if first == '!' {
            Some(('=', TokenKind::NotEqual, TokenKind::LogicalNot))
        } else if first == '^' {
            Some(('=', TokenKind::BitwiseXorAssign, TokenKind::BitwiseXor))
        } else {
            None
        }
    }

    fn doubling_kinds(first: char) -> (rule: Option<(TokenKind, TokenKind, TokenKind)>)
        ensures
            rule == doubling_rule(first),
    {
        if first == '&' {
            Some((TokenKind::LogicalAnd, TokenKind::BitwiseAndAssign, TokenKind::BitwiseAnd))
        } else if first == '|' {
            Some((TokenKind::LogicalOr, TokenKind::BitwiseOrAssign, TokenKind::BitwiseOr))
        } else {
            None
        }
    }

    fn angle_kinds(first: char) -> (rule: Option<(TokenKind, TokenKind, TokenKind, TokenKind)>)
        ensures
            rule == angle_rule(first),
    {
        if first == '<' {
            Some(
                (
                    TokenKind::LeftShiftAssign,
                    TokenKind::LeftShift,
                    TokenKind::LessThanOrEqual,
                    TokenKind::LessThan,
                ),
            )
        } else if first == '>' {
            Some(
                (
                    TokenKind::RightShiftAssign,
                    TokenKind::RightShift,
                    TokenKind::GreaterThanOrEqual,
                    TokenKind::GreaterThan,
                ),
            )
        } else {
            None
        }
    }

    /// Skips white space and comments and reads the token behind them.
    fn scan(&mut self) -> (res: Result<Token, ExprError>)
        ensures
            final(self).chars == old(self).chars,
            final(self).tokens == old(self).tokens,
            match lexeme_at(old(self).chars@, old(self).curr_idx as int) {
                Ok((lexeme, end)) => {
                    &&& res matches Ok(token)
                    &&& token@ == lexeme
                    &&& final(self).curr_idx == end
                    &&& final(self).curr_buf@ == lexeme.spelling
                    &&& final(self).curr_loc == lexeme.loc
                },
                Err(f) => res matches Err(e) && f.reported_by(e),
            },
    {
        let ghost start = self.curr_idx as int;
        loop
            invariant
                self.chars == old(self).chars,
                self.tokens == old(self).tokens,
                start == old(self).curr_idx,
                start <= self.curr_idx,
                skip_trivia(self.chars@, self.curr_idx as int) == skip_trivia(self.chars@, start),
            ensures
                skip_trivia(self.chars@, start) == Some(self.curr_idx as int),
            decreases self.chars.len() - self.curr_idx,
        {
            let c = self.curr_char()?.c;
            let comment = c == '/' && match self.peek_char(1) {
                Some(ch) => ch.c == '/',
                None => false,
            };
            if !(char_is_whitespace(c) || comment) {
                break ;
            }
            self.skip_whitespace()?;
        }
        self.curr_buf = String::new();
        let kind = self.scan_token()?;
        let token = Token::new(kind, self.curr_buf.clone(), self.curr_loc.clone());
        proof {
            assert(token.spelling@ =~= spelling(
                self.chars@,
                skip_trivia(self.chars@, start)->0,
                self.curr_idx as int,
            ));
        }
        Ok(token)
    }

    /// Scans from the current character up to and with the end marker, and
    /// adds the tokens to `tokens`. The scanner is left at the end marker,
    /// with the text and the place of the `Eof` token.
    pub fn scan_all(&mut self) -> (res: Result<(), ExprError>)
        ensures
            final(self).chars == old(self).chars,
            ({
                let run = scan_from(old(self).chars@, old(self).curr_idx as int);
                &&& lexemes(final(self).tokens@) == lexemes(old(self).tokens@) + run.lexemes
                &&& match res {
                    Ok(()) => {
                        &&& run.fault is None
                        &&& final(self).curr_idx == run.end
                        &&& final(self).curr_buf@ == run.lexemes.last().spelling
                        &&& final(self).curr_loc == run.lexemes.last().loc
                    },
                    Err(e) => run.fault matches Some(f) && f.reported_by(e),
                }
            }),
    {
        let ghost run = scan_from(self.chars@, self.curr_idx as int);
        let ghost mut added: Seq<Lexeme> = Seq::empty();
        assert(lexemes(self.tokens@) + added =~= lexemes(self.tokens@));
        assert(added + run.lexemes =~= run.lexemes);
        loop
            invariant_except_break
                run.lexemes == added + scan_from(self.chars@, self.curr_idx as int).lexemes,
                scan_from(self.chars@, self.curr_idx as int).fault == run.fault,
                scan_from(self.chars@, self.curr_idx as int).end == run.end,
            invariant
                self.chars == old(self).chars,
                run == scan_from(old(self).chars@, old(self).curr_idx as int),
                lexemes(self.tokens@) == lexemes(old(self).tokens@) + added,
            ensures
                run.lexemes == added,
                added.len() > 0,
                run.fault is None,
                self.curr_idx == run.end,
                self.curr_buf@ == added.last().spelling,
                self.curr_loc == added.last().loc,
            decreases self.chars.len() - self.curr_idx,
        {
            let ghost before = self.curr_idx as int;
            let ghost found = lexemes(self.tokens@);
            let token = match self.scan() {
                Ok(token) => token,
                Err(e) => {
                    assert(added + Seq::<Lexeme>::empty() =~= added);
                    return Err(e);
                },
            };
            let is_eof = token.kind == TokenKind::Eof;
            self.tokens.push(token);
            proof {
                lemma_lexeme_advances(self.chars@, before);
                let rest = scan_from(self.chars@, self.curr_idx as int);
                assert(lexemes(self.tokens@) =~= found + seq![token@]);
                assert(lexemes(old(self).tokens@) + (added + seq![token@]) =~= (lexemes(
                    old(self).tokens@,
                ) + added) + seq![token@]);
                if !is_eof {
                    assert(added + (seq![token@] + rest.lexemes) =~= (added + seq![token@])
                        + rest.lexemes);
                }
                added = added + seq![token@];
            }
            if is_eof {
                break ;
            }
        }
        Ok(())
    }
}

} // verus!
