use vstd::prelude::*;
use vstd::string::*;

use crate::tokens::{Position, Token, TokenKind, TokenView, token_view};

verus! {

/// Whether a character is white space, as Unicode defines it.
pub uninterp spec fn is_space(c: char) -> bool;

/// Whether a character is alphabetic, as Unicode defines it.
pub uninterp spec fn is_letter(c: char) -> bool;

/// Whether a character is numeric, as Unicode defines it.
pub uninterp spec fn is_digit(c: char) -> bool;

/// Relies on `char::is_whitespace`, which tells Unicode white space.
#[verifier::external_body]
fn whitespace(c: char) -> (r: bool)
    ensures
        r == is_space(c),
{
    c.is_whitespace()
}

/// Relies on `char::is_alphabetic`, which tells Unicode letters.
#[verifier::external_body]
fn alphabetic(c: char) -> (r: bool)
    ensures
        r == is_letter(c),
{
    c.is_alphabetic()
}

/// Relies on `char::is_numeric`, which tells Unicode numerals.
#[verifier::external_body]
fn numeric(c: char) -> (r: bool)
    ensures
        r == is_digit(c),
{
    c.is_numeric()
}

/// Relies on `char::is_alphanumeric`, documented as
/// `is_alphabetic() || is_numeric()`.
#[verifier::external_body]
fn alphanumeric(c: char) -> (r: bool)
    ensures
        r == (is_letter(c) || is_digit(c)),
{
    c.is_alphanumeric()
}

/// Column and row of the character at index `i`: both start at 1, a newline
/// moves to the first column of the next row, any other character one column
/// to the right.
pub open spec fn pos_at(s: Seq<char>, i: int) -> (nat, nat)
    decreases i,
{
    if i <= 0 {
        (1, 1)
    } else {
        let p = pos_at(s, i - 1);
        if s[i - 1] == '\n' {
            (1, p.1 + 1)
        } else {
            (p.0 + 1, p.1)
        }
    }
}

/// The end of the run of letters and digits that starts at `k`.
pub open spec fn run_end(s: Seq<char>, k: int) -> int
    decreases s.len() - k,
{
    if 0 <= k < s.len() && (is_letter(s[k]) || is_digit(s[k])) {
        run_end(s, k + 1)
    } else {
        k
    }
}

/// The index of the first double quote at or after `k`, or the end of the text.
pub open spec fn quote_end(s: Seq<char>, k: int) -> int
    decreases s.len() - k,
{
    if 0 <= k < s.len() && s[k] != '"' {
        quote_end(s, k + 1)
    } else {
        k
    }
}

/// Whether the characters at `i` and `i + 1` are `a` and `b`.
pub open spec fn pair_at(s: Seq<char>, i: int, a: char, b: char) -> bool {
    0 <= i && i + 1 < s.len() && s[i] == a && s[i + 1] == b
}

/// The class of a word: keywords, type names and boolean literals are
/// reserved, every other word is an identifier.
pub open spec fn word_kind(w: Seq<char>) -> TokenKind {
    if w == "if"@ || w == "else"@ || w == "while"@ || w == "break"@ || w == "continue"@ {
        TokenKind::Keyword
    } else if w == "in"@ {
        TokenKind::In
    } else if w == "as"@ {
        TokenKind::As
    } else if w == "num"@ || w == "str"@ || w == "bool"@ {
        TokenKind::Type
    } else if w == "true"@ || w == "false"@ {
        TokenKind::Boolean
    } else {
        TokenKind::Identifier
    }
}

/// The token of a class that carries no text, at index `i`.
pub open spec fn mark(s: Seq<char>, i: int, kind: TokenKind) -> TokenView {
    token_view(kind, pos_at(s, i).0, pos_at(s, i).1, Seq::empty())
}

/// A symbol of one character, or of two where the second is `second`.
pub open spec fn one_or_two(
    s: Seq<char>,
    i: int,
    second: char,
    one: TokenKind,
    two: TokenKind,
) -> (TokenView, int) {
    if i + 1 < s.len() && s[i + 1] == second {
        (mark(s, i, two), i + 2)
    } else {
        (mark(s, i, one), i + 1)
    }
}

/// The token that an operator or punctuation character at `i` starts.
pub open spec fn symbol(s: Seq<char>, i: int) -> (TokenView, int) {
    let c = s[i];
    if c == '(' {
        (mark(s, i, TokenKind::LeftParenthesis), i + 1)
    } else if c == ')' {
        (mark(s, i, TokenKind::RightParenthesis), i + 1)
    } else if c == '{' {
        (mark(s, i, TokenKind::LeftBrace), i + 1)
    } else if c == '}' {
        (mark(s, i, TokenKind::RightBrace), i + 1)
    } else if c == '[' {
        (mark(s, i, TokenKind::LeftBracket), i + 1)
    } else if c == ']' {
        (mark(s, i, TokenKind::RightBracket), i + 1)
    } else if c == ',' {
        (mark(s, i, TokenKind::Comma), i + 1)
    } else if c == '?' {
        (mark(s, i, TokenKind::QuestionMark), i + 1)
    } else if c == '$' {
        (mark(s, i, TokenKind::DollarSign), i + 1)
    } else if c == '#' {
        (mark(s, i, TokenKind::Hash), i + 1)
    } else if c == ':' {
        (mark(s, i, TokenKind::Colon), i + 1)
    } else if c == '.' {
        (mark(s, i, TokenKind::Dot), i + 1)
    } else if c == '@' {
        (mark(s, i, TokenKind::At), i + 1)
    } else if c == '^' {
        one_or_two(s, i, '=', TokenKind::Caret, TokenKind::CaretEqual)
    } else if c == '%' {
        one_or_two(s, i, '=', TokenKind::Percent, TokenKind::PercentEqual)
    } else if c == '+' {
        one_or_two(s, i, '=', TokenKind::Plus, TokenKind::PlusEqual)
    } else if c == '-' {
        one_or_two(s, i, '=', TokenKind::Minus, TokenKind::MinusEqual)
    } else if c == '*' {
        one_or_two(s, i, '=', TokenKind::Asterisk, TokenKind::AsteriskEqual)
    } else if c == '/' {
        one_or_two(s, i, '=', TokenKind::Slash, TokenKind::SlashEqual)
    } else if c == '=' {
        one_or_two(s, i, '=', TokenKind::Equal, TokenKind::Equals)
    } else if c == '!' {
        one_or_two(s, i, '=', TokenKind::ExplinationMark, TokenKind::NotEqual)
    } else if c == '>' {
        one_or_two(s, i, '=', TokenKind::GreaterThan, TokenKind::GreaterThanOrEqual)
    } else if c == '<' {
        one_or_two(s, i, '=', TokenKind::LessThan, TokenKind::LessThanOrEqual)
    } else if c == '&' {
        one_or_two(s, i, '&', TokenKind::Ampersand, TokenKind::And)
    } else if c == '|' && i + 1 < s.len() && s[i + 1] == '|' {
        (mark(s, i, TokenKind::Or), i + 2)
    } else {
        (token_view(TokenKind::Unknown, pos_at(s, i).0, pos_at(s, i).1, seq![c]), i + 1)
    }
}

/// The next token of the text from index `i` on, and the index after it.
/// White space and comments before it are skipped; at the end of the text
/// the token is `Eof`, and it stays `Eof` from there on.
pub closed spec fn scan(s: Seq<char>, i: int) -> (TokenView, int)
    decreases s.len() - i, 0int,
{
    if i < 0 || i >= s.len() {
        (mark(s, i, TokenKind::Eof), i)
    } else if pair_at(s, i, '/', '/') {
        scan_line_comment(s, i + 2)
    } else if pair_at(s, i, '/', '*') {
        scan_block_comment(s, i + 2)
    } else if is_space(s[i]) {
        scan(s, i + 1)
    } else if is_letter(s[i]) {
        let e = run_end(s, i);
        let w = s.subrange(i, e);
        (token_view(word_kind(w), pos_at(s, i).0, pos_at(s, i).1, w), e)
    } else if s[i] == '"' {
        let e = quote_end(s, i + 1);
        let w = s.subrange(i + 1, e);
        if e < s.len() {
            (token_view(TokenKind::String, pos_at(s, i).0, pos_at(s, i).1, w), e + 1)
        } else {
            (token_view(TokenKind::Unknown, pos_at(s, e).0, pos_at(s, e).1, w), e)
        }
    } else if is_digit(s[i]) {
        let e = run_end(s, i);
        (token_view(TokenKind::Number, pos_at(s, i).0, pos_at(s, i).1, s.subrange(i, e)), e)
    } else {
        symbol(s, i)
    }
}

/// `scan` inside a line comment: the comment ends before the next newline.
pub open spec fn scan_line_comment(s: Seq<char>, i: int) -> (TokenView, int)
    decreases s.len() - i, 1int,
{
    if 0 <= i < s.len() && s[i] != '\n' {
        scan_line_comment(s, i + 1)
    } else {
        scan(s, i)
    }
}

/// `scan` inside a block comment: the comment ends after the next `*/`, or
/// at the end of the text.
pub open spec fn scan_block_comment(s: Seq<char>, i: int) -> (TokenView, int)
    decreases s.len() - i, 1int,
{
    if 0 <= i < s.len() && !pair_at(s, i, '*', '/') {
        scan_block_comment(s, i + 1)
    } else if 0 <= i < s.len() {
        scan(s, i + 2)
    } else {
        scan(s, i)
    }
}

/// Whether the text from index `i` on holds only white space and comments.
pub open spec fn blank(s: Seq<char>, i: int) -> bool
    decreases s.len() - i, 0int,
{
    if i < 0 || i >= s.len() {
        true
    } else if pair_at(s, i, '/', '/') {
        blank_line_comment(s, i + 2)
    } else if pair_at(s, i, '/', '*') {
        blank_block_comment(s, i + 2)
    } else if is_space(s[i]) {
        blank(s, i + 1)
    } else {
        false
    }
}

/// `blank` inside a line comment.
pub open spec fn blank_line_comment(s: Seq<char>, i: int) -> bool
    decreases s.len() - i, 1int,
{
    if 0 <= i < s.len() && s[i] != '\n' {
        blank_line_comment(s, i + 1)
    } else {
        blank(s, i)
    }
}

/// `blank` inside a block comment.
pub open spec fn blank_block_comment(s: Seq<char>, i: int) -> bool
    decreases s.len() - i, 1int,
{
    if 0 <= i < s.len() && !pair_at(s, i, '*', '/') {
        blank_block_comment(s, i + 1)
    } else if 0 <= i < s.len() {
        blank(s, i + 2)
    } else {
        true
    }
}

/// Column and row never exceed one more than the number of characters read.
pub proof fn lemma_pos_bound(s: Seq<char>, i: int)
    requires
        0 <= i,
    ensures
        pos_at(s, i).0 <= i + 1,
        pos_at(s, i).1 <= i + 1,
        pos_at(s, i).0 >= 1,
        pos_at(s, i).1 >= 1,
    decreases i,
{
    if i > 0 {
        lemma_pos_bound(s, i - 1);
    }
}

/// A token other than `Eof` takes at least one character, and `scan` never
/// moves backwards nor past the end of the text.
pub proof fn lemma_scan_advances(s: Seq<char>, i: int)
    requires
        0 <= i <= s.len(),
    ensures
        i <= scan(s, i).1 <= s.len(),
        scan(s, i).0.kind != TokenKind::Eof ==> scan(s, i).1 > i,
        scan(s, i).0.kind == TokenKind::Eof ==> scan(s, i).1 == s.len(),
    decreases s.len() - i, 0int,
{
    if i < s.len() {
        if pair_at(s, i, '/', '/') {
            lemma_line_comment_advances(s, i + 2);
        } else if pair_at(s, i, '/', '*') {
            lemma_block_comment_advances(s, i + 2);
        } else if is_space(s[i]) {
            lemma_scan_advances(s, i + 1);
        } else if is_letter(s[i]) {
            lemma_run_end(s, i);
        } else if s[i] == '"' {
            lemma_quote_end(s, i + 1);
        } else if is_digit(s[i]) {
            lemma_run_end(s, i);
        }
    }
}

proof fn lemma_line_comment_advances(s: Seq<char>, i: int)
    requires
        0 <= i <= s.len(),
    ensures
        i <= scan_line_comment(s, i).1 <= s.len(),
        scan_line_comment(s, i).0.kind == TokenKind::Eof ==> scan_line_comment(s, i).1 == s.len(),
    decreases s.len() - i, 1int,
{
    if 0 <= i < s.len() && s[i] != '\n' {
        lemma_line_comment_advances(s, i + 1);
    } else {
        lemma_scan_advances(s, i);
    }
}

proof fn lemma_block_comment_advances(s: Seq<char>, i: int)
    requires
        0 <= i <= s.len(),
    ensures
        i <= scan_block_comment(s, i).1 <= s.len(),
        scan_block_comment(s, i).0.kind == TokenKind::Eof ==> scan_block_comment(s, i).1
            == s.len(),
    decreases s.len() - i, 1int,
{
    if 0 <= i < s.len() && !pair_at(s, i, '*', '/') {
        lemma_block_comment_advances(s, i + 1);
    } else if 0 <= i < s.len() {
        lemma_scan_advances(s, i + 2);
    } else {
        lemma_scan_advances(s, i);
    }
}

proof fn lemma_run_end(s: Seq<char>, k: int)
    requires
        0 <= k <= s.len(),
    ensures
        k <= run_end(s, k) <= s.len(),
        k < s.len() && (is_letter(s[k]) || is_digit(s[k])) ==> run_end(s, k) > k,
    decreases s.len() - k,
{
    if 0 <= k < s.len() && (is_letter(s[k]) || is_digit(s[k])) {
        lemma_run_end(s, k + 1);
    }
}

proof fn lemma_quote_end(s: Seq<char>, k: int)
    requires
        0 <= k <= s.len(),
    ensures
        k <= quote_end(s, k) <= s.len(),
        quote_end(s, k) < s.len() ==> s[quote_end(s, k)] == '"',
    decreases s.len() - k,
{
    if 0 <= k < s.len() && s[k] != '"' {
        lemma_quote_end(s, k + 1);
    }
}

/// Text made of white space and comments alone holds no token.
pub proof fn lemma_blank_scans_to_end(s: Seq<char>, i: int)
    requires
        0 <= i,
        blank(s, i),
    ensures
        scan(s, i).0.kind == TokenKind::Eof,
    decreases s.len() - i, 0int,
{
    if i < s.len() {
        if pair_at(s, i, '/', '/') {
            lemma_blank_line_comment(s, i + 2);
        } else if pair_at(s, i, '/', '*') {
            lemma_blank_block_comment(s, i + 2);
        } else {
            lemma_blank_scans_to_end(s, i + 1);
        }
    }
}

proof fn lemma_blank_line_comment(s: Seq<char>, i: int)
    requires
        0 <= i,
        blank_line_comment(s, i),
    ensures
        scan_line_comment(s, i).0.kind == TokenKind::Eof,
    decreases s.len() - i, 1int,
{
    if 0 <= i < s.len() && s[i] != '\n' {
        lemma_blank_line_comment(s, i + 1);
    } else {
        lemma_blank_scans_to_end(s, i);
    }
}

proof fn lemma_blank_block_comment(s: Seq<char>, i: int)
    requires
        0 <= i,
        blank_block_comment(s, i),
    ensures
        scan_block_comment(s, i).0.kind == TokenKind::Eof,
    decreases s.len() - i, 1int,
{
    if 0 <= i < s.len() && !pair_at(s, i, '*', '/') {
        lemma_blank_block_comment(s, i + 1);
    } else if 0 <= i < s.len() {
        lemma_blank_scans_to_end(s, i + 2);
    } else {
        lemma_blank_scans_to_end(s, i);
    }
}

/// Turns source text into tokens, one at a time.
///
/// The cursor is an index into the characters of the text together with the
/// position of that character; `peek` works on a copy of it.
#[derive(Debug, Clone)]
pub struct Lexer<'a> {
    source: &'a str,
    chars: Vec<char>,
    index: usize,
    position: Position,
}

impl<'a> Lexer<'a> {
    /// The characters of the source text.
    pub closed spec fn text(&self) -> Seq<char> {
        self.chars@
    }

    /// The index of the first character not yet read.
    pub closed spec fn cursor(&self) -> int {
        self.index as int
    }

    /// The cursor lies within the text and the position belongs to it.
    pub closed spec fn wf(&self) -> bool {
        &&& self.chars@ == self.source@
        &&& self.chars.len() < usize::MAX
        &&& self.index <= self.chars.len()
        &&& (self.position.col as nat, self.position.row as nat) == pos_at(self.chars@, self.index as int)
    }

    /// A well-formed lexer's cursor lies within its text, whose length fits
    /// in a `usize` with room to spare.
    pub proof fn lemma_wf(&self)
        requires
            self.wf(),
        ensures
            0 <= self.cursor() <= self.text().len(),
            self.text().len() < usize::MAX,
    {
    }

    spec fn at(&self, i: usize, p: Position) -> bool {
        &&& i <= self.chars.len()
        &&& (p.col as nat, p.row as nat) == pos_at(self.chars@, i as int)
    }

    /// Creates a new Lexer instance from the given source code.
    pub fn new(source: &'a str) -> (r: Self)
        requires
            source@.len() < usize::MAX,
        ensures
            r.wf(),
            r.text() == source@,
            r.cursor() == 0,
    {
        let mut chars: Vec<char> = Vec::new();
        for c in it: source.chars()
            invariant
                chars@ == it.seq().subrange(0, it.index() as int),
        {
            chars.push(c);
        }
        assert(chars@ == source@);
        Lexer { source, chars, index: 0, position: Position { col: 1, row: 1 } }
    }

    /// The position after the character at `i`, which stands at `p`.
    fn next_char(&self, i: usize, p: Position) -> (q: Position)
        requires
            self.wf(),
            i < self.chars.len(),
            self.at(i, p),
        ensures
            self.at((i + 1) as usize, q),
    {
        proof {
            lemma_pos_bound(self.chars@, i as int);
        }
        if self.chars[i] == '\n' {
            Position { col: 1, row: p.row + 1 }
        } else {
            Position { col: p.col + 1, row: p.row }
        }
    }

    /// Peeks at the next token without consuming it.
    pub fn peek(&self) -> (r: Token)
        requires
            self.wf(),
        ensures
            r@ == scan(self.text(), self.cursor()).0,
    {
        self.lex_at(self.index, self.position).0
    }

    /// Lexes and returns the next token from the source code.
    pub fn lex(&mut self) -> (r: Token)
        requires
            old(self).wf(),
        ensures
            final(self).wf(),
            final(self).text() == old(self).text(),
            (r@, final(self).cursor()) == scan(old(self).text(), old(self).cursor()),
    {
        let (token, index, position) = self.lex_at(self.index, self.position);
        self.index = index;
        self.position = position;
        token
    }

    /// The token that starts at or after `start` (at `p`), the index after it
    /// and that index's position.
    fn lex_at(&self, start: usize, p: Position) -> (r: (Token, usize, Position))
        requires
            self.wf(),
            self.at(start, p),
        ensures
            (r.0@, r.1 as int) == scan(self.chars@, start as int),
            self.at(r.1, r.2),
    {
        let n = self.chars.len();
        let mut i = start;
        let mut q = p;
        loop
            invariant
                self.wf(),
                n == self.chars.len(),
                self.at(i, q),
                scan(self.chars@, i as int) == scan(self.chars@, start as int),
            decreases n - i,
        {
            if i >= n {
                return (Token::new(TokenKind::Eof, q, String::new()), i, q);
            }
            let c = self.chars[i];
            if c == '/' && i + 1 < n && self.chars[i + 1] == '/' {
                let (j, qj) = self.consume_comment(i, q);
                i = j;
                q = qj;
            } else if c == '/' && i + 1 < n && self.chars[i + 1] == '*' {
                let (j, qj) = self.consume_multiline_comment(i, q);
                i = j;
                q = qj;
            } else if whitespace(c) {
                let (j, qj) = self.consume_whitespace(i, q);
                i = j;
                q = qj;
            } else if alphabetic(c) {
                return self.collect_id(i, q);
            } else if c == '"' {
                return self.collect_string(i, q);
            } else if numeric(c) {
                return self.collect_number(i, q);
            } else {
                return self.symbol(i, q);
            }
        }
    }

    /// Skips the run of white space that starts at `i`.
    fn consume_whitespace(&self, i: usize, p: Position) -> (r: (usize, Position))
        requires
            !pair_at(self.chars@, i as int, '/', '/'),
            !pair_at(self.chars@, i as int, '/', '*'),
            self.wf(),
            self.at(i, p),
            i < self.chars.len(),
            is_space(self.chars@[i as int]),
        ensures
            self.at(r.0, r.1),
            r.0 > i,
            scan(self.chars@, r.0 as int) == scan(self.chars@, i as int),
    {
        let n = self.chars.len();
        let mut q = self.next_char(i, p);
        let mut j = i + 1;
        // A slash never counts as white space here: it may open a comment.
        while j < n && self.chars[j] != '/' && whitespace(self.chars[j])
            invariant
                self.wf(),
                n == self.chars.len(),
                self.at(j, q),
                i < j,
                scan(self.chars@, j as int) == scan(self.chars@, i as int),
            decreases n - j,
        {
            q = self.next_char(j, q);
            j = j + 1;
        }
        (j, q)
    }

    /// Skips a line comment that starts at `i`, up to the next newline.
    fn consume_comment(&self, i: usize, p: Position) -> (r: (usize, Position))
        requires
            self.wf(),
            self.at(i, p),
            pair_at(self.chars@, i as int, '/', '/'),
        ensures
            self.at(r.0, r.1),
            r.0 > i,
            scan(self.chars@, r.0 as int) == scan(self.chars@, i as int),
    {
        let n = self.chars.len();
        let mut q = self.next_char(i, p);
        q = self.next_char(i + 1, q);
        let mut j = i + 2;
        while j < n && self.chars[j] != '\n'
            invariant
                self.wf(),
                n == self.chars.len(),
                self.at(j, q),
                i + 2 <= j,
                scan_line_comment(self.chars@, j as int) == scan(self.chars@, i as int),
            decreases n - j,
        {
            q = self.next_char(j, q);
            j = j + 1;
        }
        (j, q)
    }

    /// Skips a block comment that starts at `i`, up to the next `*/` or the
    /// end of the text.
    fn consume_multiline_comment(&self, i: usize, p: Position) -> (r: (usize, Position))
        requires
            self.wf(),
            self.at(i, p),
            pair_at(self.chars@, i as int, '/', '*'),
        ensures
            self.at(r.0, r.1),
            r.0 > i,
            scan(self.chars@, r.0 as int) == scan(self.chars@, i as int),
    {
        let n = self.chars.len();
        let mut q = self.next_char(i, p);
        q = self.next_char(i + 1, q);
        let mut j = i + 2;
        while j < n && !(self.chars[j] == '*' && j + 1 < n && self.chars[j + 1] == '/')
            invariant
                self.wf(),
                n == self.chars.len(),
                self.at(j, q),
                i + 2 <= j,
                scan_block_comment(self.chars@, j as int) == scan(self.chars@, i as int),
            decreases n - j,
        {
            q = self.next_char(j, q);
            j = j + 1;
        }
        if j < n {
            q = self.next_char(j, q);
            q = self.next_char(j + 1, q);
            j = j + 2;
        }
        (j, q)
    }

    /// Collects the run of letters and digits that starts at `i`.
    fn collect(&self, i: usize, p: Position) -> (r: (usize, Position))
        requires
            self.wf(),
            self.at(i, p),
        ensures
            self.at(r.0, r.1),
            r.0 as int == run_end(self.chars@, i as int),
    {
        let n = self.chars.len();
        let mut j = i;
        let mut q = p;
        while j < n && alphanumeric(self.chars[j])
            invariant
                self.wf(),
                n == self.chars.len(),
                self.at(j, q),
                run_end(self.chars@, j as int) == run_end(self.chars@, i as int),
            decreases n - j,
        {
            q = self.next_char(j, q);
            j = j + 1;
        }
        (j, q)
    }

    /// The characters from `a` up to `b` as a string.
    fn slice(&self, a: usize, b: usize) -> (r: String)
        requires
            self.wf(),
            a <= b <= self.chars.len(),
        ensures
            r@ == self.chars@.subrange(a as int, b as int),
    {
        self.source.substring_char(a, b).to_owned()
    }

    /// Collects characters to form an identifier or a keyword.
    fn collect_id(&self, i: usize, p: Position) -> (r: (Token, usize, Position))
        requires
            !pair_at(self.chars@, i as int, '/', '/'),
            !pair_at(self.chars@, i as int, '/', '*'),
            self.wf(),
            self.at(i, p),
            i < self.chars.len(),
            !is_space(self.chars@[i as int]),
            is_letter(self.chars@[i as int]),
        ensures
            (r.0@, r.1 as int) == scan(self.chars@, i as int),
            self.at(r.1, r.2),
    {
        let (j, q) = self.collect(i, p);
        proof {
            lemma_run_end(self.chars@, i as int);
        }
        let word = self.slice(i, j);
        let kind = keyword_kind(&word);
        (Token::new(kind, p, word), j, q)
    }

    /// Collects characters to form a numeric literal.
    fn collect_number(&self, i: usize, p: Position) -> (r: (Token, usize, Position))
        requires
            !pair_at(self.chars@, i as int, '/', '/'),
            !pair_at(self.chars@, i as int, '/', '*'),
            self.wf(),
            self.at(i, p),
            i < self.chars.len(),
            !is_space(self.chars@[i as int]),
            !is_letter(self.chars@[i as int]),
            self.chars@[i as int] != '"',
            is_digit(self.chars@[i as int]),
        ensures
            (r.0@, r.1 as int) == scan(self.chars@, i as int),
            self.at(r.1, r.2),
    {
        let (j, q) = self.collect(i, p);
        proof {
            lemma_run_end(self.chars@, i as int);
        }
        let text = self.slice(i, j);
        (Token::new(TokenKind::Number, p, text), j, q)
    }

    /// Collects characters to form a string literal; without a closing
    /// quote the token is `Unknown`.
    fn collect_string(&self, i: usize, p: Position) -> (r: (Token, usize, Position))
        requires
            !pair_at(self.chars@, i as int, '/', '/'),
            !pair_at(self.chars@, i as int, '/', '*'),
            self.wf(),
            self.at(i, p),
            i < self.chars.len(),
            !is_space(self.chars@[i as int]),
            !is_letter(self.chars@[i as int]),
            self.chars@[i as int] == '"',
        ensures
            (r.0@, r.1 as int) == scan(self.chars@, i as int),
            self.at(r.1, r.2),
    {
        let n = self.chars.len();
        let mut q = self.next_char(i, p);
        let mut j = i + 1;
        while j < n && self.chars[j] != '"'
            invariant
                self.wf(),
                n == self.chars.len(),
                self.at(j, q),
                i + 1 <= j <= n,
                quote_end(self.chars@, j as int) == quote_end(self.chars@, i + 1),
            decreases n - j,
        {
            q = self.next_char(j, q);
            j = j + 1;
        }
        let text = self.slice(i + 1, j);
        if j < n {
            let q2 = self.next_char(j, q);
            (Token::new(TokenKind::String, p, text), j + 1, q2)
        } else {
            (Token::new(TokenKind::Unknown, q, text), j, q)
        }
    }

    /// The operator or punctuation token at `i`.
    fn symbol(&self, i: usize, p: Position) -> (r: (Token, usize, Position))
        requires
            self.wf(),
            self.at(i, p),
            i < self.chars.len(),
        ensures
            (r.0@, r.1 as int) == symbol(self.chars@, i as int),
            self.at(r.1, r.2),
    {
        let n = self.chars.len();
        let c = self.chars[i];
        let q = self.next_char(i, p);
        let second: char = if i + 1 < n {
            self.chars[i + 1]
        } else {
            '\0'
        };
        let (kind, two) = if c == '(' {
            (TokenKind::LeftParenthesis, false)
        } else if c == ')' {
            (TokenKind::RightParenthesis, false)
        } else if c == '{' {
            (TokenKind::LeftBrace, false)
        } else if c == '}' {
            (TokenKind::RightBrace, false)
        } else if c == '[' {
            (TokenKind::LeftBracket, false)
        } else if c == ']' {
            (TokenKind::RightBracket, false)
        } else if c == ',' {
            (TokenKind::Comma, false)
        } else if c == '?' {
            (TokenKind::QuestionMark, false)
        } else if c == '$' {
            (TokenKind::DollarSign, false)
        } else if c == '#' {
            (TokenKind::Hash, false)
        } else if c == ':' {
            (TokenKind::Colon, false)
        } else if c == '.' {
            (TokenKind::Dot, false)
        } else if c == '@' {
            (TokenKind::At, false)
        } else if c == '^' {
            if i + 1 < n && second == '=' {
                (TokenKind::CaretEqual, true)
            } else {
                (TokenKind::Caret, false)
            }
        } else if c == '%' {
            if i + 1 < n && second == '=' {
                (TokenKind::PercentEqual, true)
            } else {
                (TokenKind::Percent, false)
            }
        } else if c == '+' {
            if i + 1 < n && second == '=' {
                (TokenKind::PlusEqual, true)
            } else {
                (TokenKind::Plus, false)
            }
        } else if c == '-' {
            if i + 1 < n && second == '=' {
                (TokenKind::MinusEqual, true)
            } else {
                (TokenKind::Minus, false)
            }
        } else if c == '*' {
            if i + 1 < n && second == '=' {
                (TokenKind::AsteriskEqual, true)
            } else {
                (TokenKind::Asterisk, false)
            }
        } else if c == '/' {
            if i + 1 < n && second == '=' {
                (TokenKind::SlashEqual, true)
            } else {
                (TokenKind::Slash, false)
            }
        } else if c == '=' {
            if i + 1 < n && second == '=' {
                (TokenKind::Equals, true)
            } else {
                (TokenKind::Equal, false)
            }
        } else if c == '!' {
            if i + 1 < n && second == '=' {
                (TokenKind::NotEqual, true)
            } else {
                (TokenKind::ExplinationMark, false)
            }
        } else if c == '>' {
            if i + 1 < n && second == '=' {
                (TokenKind::GreaterThanOrEqual, true)
            } else {
                (TokenKind::GreaterThan, false)
            }
        } else if c == '<' {
            if i + 1 < n && second == '=' {
                (TokenKind::LessThanOrEqual, true)
            } else {
                (TokenKind::LessThan, false)
            }
        } else if c == '&' {
            if i + 1 < n && second == '&' {
                (TokenKind::And, true)
            } else {
                (TokenKind::Ampersand, false)
            }
        } else if c == '|' && i + 1 < n && second == '|' {
            (TokenKind::Or, true)
        } else {
            (TokenKind::Unknown, false)
        };
        if two {
            let q2 = self.next_char(i + 1, q);
            (Token::new(kind, p, String::new()), i + 2, q2)
        } else if kind == TokenKind::Unknown {
            let text = self.slice(i, i + 1);
            proof {
                assert(text@ =~= seq![c]);
            }
            (Token::new(TokenKind::Unknown, p, text), i + 1, q)
        } else {
            (Token::new(kind, p, String::new()), i + 1, q)
        }
    }
}

/// The class of a word, looked up in the table of reserved words.
fn keyword_kind(word: &String) -> (r: TokenKind)
    ensures
        r == word_kind(word@),
{
    proof {
        reveal_strlit("if");
        reveal_strlit("else");
        reveal_strlit("while");
        reveal_strlit("break");
        reveal_strlit("continue");
        reveal_strlit("in");
        reveal_strlit("as");
        reveal_strlit("num");
        reveal_strlit("str");
        reveal_strlit("bool");
        reveal_strlit("true");
        reveal_strlit("false");
    }
    let w = word.clone();
    if w == String::from_str("if") || w == String::from_str("else") || w == String::from_str(
        "while",
    ) || w == String::from_str("break") || w == String::from_str("continue") {
        TokenKind::Keyword
    } else if w == String::from_str("in") {
        TokenKind::In
    } else if w == String::from_str("as") {
        TokenKind::As
    } else if w == String::from_str("num") || w == String::from_str("str") || w
        == String::from_str("bool") {
        TokenKind::Type
    } else if w == String::from_str("true") || w == String::from_str("false") {
        TokenKind::Boolean
    } else {
        TokenKind::Identifier
    }
}

} // verus!
