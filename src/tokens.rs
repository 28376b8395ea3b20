use vstd::prelude::*;
use vstd::string::*;

verus! {

/// Column and row of a character in the source text, both counted from 1.
#[derive(Debug, Clone, Copy, PartialEq, Eq, Structural)]
pub struct Position {
    pub col: usize,
    pub row: usize,
}

/// The class of a token, without its position or text.
#[derive(Debug, Clone, Copy, PartialEq, Eq, Structural)]
pub enum TokenKind {
    LeftParenthesis,
    RightParenthesis,
    LeftBrace,
    RightBrace,
    LeftBracket,
    RightBracket,
    Plus,
    PlusEqual,
    Minus,
    MinusEqual,
    Asterisk,
    AsteriskEqual,
    Slash,
    SlashEqual,
    Equal,
    Equals,
    NotEqual,
    GreaterThan,
    GreaterThanOrEqual,
    LessThan,
    LessThanOrEqual,
    Ampersand,
    And,
    Or,
    DollarSign,
    Hash,
    ExplinationMark,
    QuestionMark,
    Colon,
    Dot,
    Comma,
    At,
    Percent,
    PercentEqual,
    Caret,
    CaretEqual,
    In,
    As,
    Identifier,
    Type,
    Keyword,
    String,
    Boolean,
    Number,
    Unknown,
    Eof,
}

/// A lexical token: its class, the position of its first character and, for
/// the classes that carry one, its text.
#[derive(Debug, Clone, PartialEq, Eq)]
pub enum Token {
    LeftParenthesis(Position),
    RightParenthesis(Position),
    LeftBrace(Position),
    RightBrace(Position),
    LeftBracket(Position),
    RightBracket(Position),
    Plus(Position),
    PlusEqual(Position),
    Minus(Position),
    MinusEqual(Position),
    Asterisk(Position),
    AsteriskEqual(Position),
    Slash(Position),
    SlashEqual(Position),
    Equal(Position),
    Equals(Position),
    NotEqual(Position),
    GreaterThan(Position),
    GreaterThanOrEqual(Position),
    LessThan(Position),
    LessThanOrEqual(Position),
    Ampersand(Position),
    And(Position),
    Or(Position),
    DollarSign(Position),
    Hash(Position),
    ExplinationMark(Position),
    QuestionMark(Position),
    Colon(Position),
    Dot(Position),
    Comma(Position),
    At(Position),
    Percent(Position),
    PercentEqual(Position),
    Caret(Position),
    CaretEqual(Position),
    In(Position),
    As(Position),
    Identifier(Position, String),
    Type(Position, String),
    Keyword(Position, String),
    String(Position, String),
    Boolean(Position, String),
    Number(Position, String),
    Unknown(Position, String),
    Eof(Position),
}

/// What a token is, as plain values: the text is empty for the classes that
/// carry none.
pub struct TokenView {
    pub kind: TokenKind,
    pub col: nat,
    pub row: nat,
    pub text: Seq<char>,
}

/// Whether tokens of this class carry a text.
pub open spec fn has_text(kind: TokenKind) -> bool {
    match kind {
        TokenKind::Identifier => true,
        TokenKind::Type => true,
        TokenKind::Keyword => true,
        TokenKind::String => true,
        TokenKind::Boolean => true,
        TokenKind::Number => true,
        TokenKind::Unknown => true,
        _ => false,
    }
}

/// The token view of a class at a position with a text.
pub open spec fn token_view(kind: TokenKind, col: nat, row: nat, text: Seq<char>) -> TokenView {
    TokenView { kind, col, row, text: if has_text(kind) { text } else { Seq::empty() } }
}

/// How a token is written out: the symbol of an operator or a punctuation
/// mark, the class and the text of the others.
pub closed spec fn display(t: TokenView) -> Seq<char> {
    match t.kind {
        TokenKind::LeftParenthesis => "("@,
        TokenKind::RightParenthesis => ")"@,
        TokenKind::LeftBrace => "{"@,
        TokenKind::RightBrace => "}"@,
        TokenKind::LeftBracket => "["@,
        TokenKind::RightBracket => "]"@,
        TokenKind::Plus => "+"@,
        TokenKind::PlusEqual => "+="@,
        TokenKind::Minus => "-"@,
        TokenKind::MinusEqual => "-="@,
        TokenKind::Asterisk => "*"@,
        TokenKind::AsteriskEqual => "*="@,
        TokenKind::Slash => "/"@,
        TokenKind::SlashEqual => "/="@,
        TokenKind::Equal => "="@,
        TokenKind::Equals => "=="@,
        TokenKind::NotEqual => "!="@,
        TokenKind::GreaterThan => ">"@,
        TokenKind::GreaterThanOrEqual => ">="@,
        TokenKind::LessThan => "<"@,
        TokenKind::LessThanOrEqual => "<="@,
        TokenKind::Ampersand => "&"@,
        TokenKind::And => "and"@,
        TokenKind::Or => "or"@,
        TokenKind::DollarSign => "$"@,
        TokenKind::Hash => "#"@,
        TokenKind::ExplinationMark => "!"@,
        TokenKind::QuestionMark => "?"@,
        TokenKind::Colon => ":"@,
        TokenKind::Dot => "."@,
        TokenKind::Comma => "Comma"@,
        TokenKind::At => "@"@,
        TokenKind::Percent => "%"@,
        TokenKind::PercentEqual => "%="@,
        TokenKind::Caret => "^"@,
        TokenKind::CaretEqual => "^="@,
        TokenKind::In => "in"@,
        TokenKind::As => "as"@,
        TokenKind::Eof => "EOF"@,
        TokenKind::Identifier => "Identifier("@ + t.text + ")"@,
        TokenKind::Type => "Type("@ + t.text + ")"@,
        TokenKind::Keyword => "Keyword("@ + t.text + ")"@,
        TokenKind::String => "String(\""@ + t.text + "\")"@,
        TokenKind::Boolean => "Boolean("@ + t.text + ")"@,
        TokenKind::Number => "Number("@ + t.text + ")"@,
        TokenKind::Unknown => "Unknown("@ + t.text + ")"@,
    }
}

impl Token {
    pub closed spec fn view(&self) -> TokenView {
        match self {
            Token::LeftParenthesis(p) => token_view(TokenKind::LeftParenthesis, p.col as nat, p.row as nat, Seq::empty()),
            Token::RightParenthesis(p) => token_view(TokenKind::RightParenthesis, p.col as nat, p.row as nat, Seq::empty()),
            Token::LeftBrace(p) => token_view(TokenKind::LeftBrace, p.col as nat, p.row as nat, Seq::empty()),
            Token::RightBrace(p) => token_view(TokenKind::RightBrace, p.col as nat, p.row as nat, Seq::empty()),
            Token::LeftBracket(p) => token_view(TokenKind::LeftBracket, p.col as nat, p.row as nat, Seq::empty()),
            Token::RightBracket(p) => token_view(TokenKind::RightBracket, p.col as nat, p.row as nat, Seq::empty()),
            Token::Plus(p) => token_view(TokenKind::Plus, p.col as nat, p.row as nat, Seq::empty()),
            Token::PlusEqual(p) => token_view(TokenKind::PlusEqual, p.col as nat, p.row as nat, Seq::empty()),
            Token::Minus(p) => token_view(TokenKind::Minus, p.col as nat, p.row as nat, Seq::empty()),
            Token::MinusEqual(p) => token_view(TokenKind::MinusEqual, p.col as nat, p.row as nat, Seq::empty()),
            Token::Asterisk(p) => token_view(TokenKind::Asterisk, p.col as nat, p.row as nat, Seq::empty()),
            Token::AsteriskEqual(p) => token_view(TokenKind::AsteriskEqual, p.col as nat, p.row as nat, Seq::empty()),
            Token::Slash(p) => token_view(TokenKind::Slash, p.col as nat, p.row as nat, Seq::empty()),
            Token::SlashEqual(p) => token_view(TokenKind::SlashEqual, p.col as nat, p.row as nat, Seq::empty()),
            Token::Equal(p) => token_view(TokenKind::Equal, p.col as nat, p.row as nat, Seq::empty()),
            Token::Equals(p) => token_view(TokenKind::Equals, p.col as nat, p.row as nat, Seq::empty()),
            Token::NotEqual(p) => token_view(TokenKind::NotEqual, p.col as nat, p.row as nat, Seq::empty()),
            Token::GreaterThan(p) => token_view(TokenKind::GreaterThan, p.col as nat, p.row as nat, Seq::empty()),
            Token::GreaterThanOrEqual(p) => token_view(TokenKind::GreaterThanOrEqual, p.col as nat, p.row as nat, Seq::empty()),
            Token::LessThan(p) => token_view(TokenKind::LessThan, p.col as nat, p.row as nat, Seq::empty()),
            Token::LessThanOrEqual(p) => token_view(TokenKind::LessThanOrEqual, p.col as nat, p.row as nat, Seq::empty()),
            Token::Ampersand(p) => token_view(TokenKind::Ampersand, p.col as nat, p.row as nat, Seq::empty()),
            Token::And(p) => token_view(TokenKind::And, p.col as nat, p.row as nat, Seq::empty()),
            Token::Or(p) => token_view(TokenKind::Or, p.col as nat, p.row as nat, Seq::empty()),
            Token::DollarSign(p) => token_view(TokenKind::DollarSign, p.col as nat, p.row as nat, Seq::empty()),
            Token::Hash(p) => token_view(TokenKind::Hash, p.col as nat, p.row as nat, Seq::empty()),
            Token::ExplinationMark(p) => token_view(TokenKind::ExplinationMark, p.col as nat, p.row as nat, Seq::empty()),
            Token::QuestionMark(p) => token_view(TokenKind::QuestionMark, p.col as nat, p.row as nat, Seq::empty()),
            Token::Colon(p) => token_view(TokenKind::Colon, p.col as nat, p.row as nat, Seq::empty()),
            Token::Dot(p) => token_view(TokenKind::Dot, p.col as nat, p.row as nat, Seq::empty()),
            Token::Comma(p) => token_view(TokenKind::Comma, p.col as nat, p.row as nat, Seq::empty()),
            Token::At(p) => token_view(TokenKind::At, p.col as nat, p.row as nat, Seq::empty()),
            Token::Percent(p) => token_view(TokenKind::Percent, p.col as nat, p.row as nat, Seq::empty()),
            Token::PercentEqual(p) => token_view(TokenKind::PercentEqual, p.col as nat, p.row as nat, Seq::empty()),
            Token::Caret(p) => token_view(TokenKind::Caret, p.col as nat, p.row as nat, Seq::empty()),
            Token::CaretEqual(p) => token_view(TokenKind::CaretEqual, p.col as nat, p.row as nat, Seq::empty()),
            Token::In(p) => token_view(TokenKind::In, p.col as nat, p.row as nat, Seq::empty()),
            Token::As(p) => token_view(TokenKind::As, p.col as nat, p.row as nat, Seq::empty()),
            Token::Eof(p) => token_view(TokenKind::Eof, p.col as nat, p.row as nat, Seq::empty()),
            Token::Identifier(p, s) => token_view(TokenKind::Identifier, p.col as nat, p.row as nat, s@),
            Token::Type(p, s) => token_view(TokenKind::Type, p.col as nat, p.row as nat, s@),
            Token::Keyword(p, s) => token_view(TokenKind::Keyword, p.col as nat, p.row as nat, s@),
            Token::String(p, s) => token_view(TokenKind::String, p.col as nat, p.row as nat, s@),
            Token::Boolean(p, s) => token_view(TokenKind::Boolean, p.col as nat, p.row as nat, s@),
            Token::Number(p, s) => token_view(TokenKind::Number, p.col as nat, p.row as nat, s@),
            Token::Unknown(p, s) => token_view(TokenKind::Unknown, p.col as nat, p.row as nat, s@),
        }
    }

    /// Builds the token of a class at a position; the text is kept only by
    /// the classes that carry one.
    pub fn new(kind: TokenKind, position: Position, text: String) -> (r: Token)
        ensures
            r@ == token_view(kind, position.col as nat, position.row as nat, text@),
    {
        match kind {
            TokenKind::LeftParenthesis => Token::LeftParenthesis(position),
            TokenKind::RightParenthesis => Token::RightParenthesis(position),
            TokenKind::LeftBrace => Token::LeftBrace(position),
            TokenKind::RightBrace => Token::RightBrace(position),
            TokenKind::LeftBracket => Token::LeftBracket(position),
            TokenKind::RightBracket => Token::RightBracket(position),
            TokenKind::Plus => Token::Plus(position),
            TokenKind::PlusEqual => Token::PlusEqual(position),
            TokenKind::Minus => Token::Minus(position),
            TokenKind::MinusEqual => Token::MinusEqual(position),
            TokenKind::Asterisk => Token::Asterisk(position),
            TokenKind::AsteriskEqual => Token::AsteriskEqual(position),
            TokenKind::Slash => Token::Slash(position),
            TokenKind::SlashEqual => Token::SlashEqual(position),
            TokenKind::Equal => Token::Equal(position),
            TokenKind::Equals => Token::Equals(position),
            TokenKind::NotEqual => Token::NotEqual(position),
            TokenKind::GreaterThan => Token::GreaterThan(position),
            TokenKind::GreaterThanOrEqual => Token::GreaterThanOrEqual(position),
            TokenKind::LessThan => Token::LessThan(position),
            TokenKind::LessThanOrEqual => Token::LessThanOrEqual(position),
            TokenKind::Ampersand => Token::Ampersand(position),
            TokenKind::And => Token::And(position),
            TokenKind::Or => Token::Or(position),
            TokenKind::DollarSign => Token::DollarSign(position),
            TokenKind::Hash => Token::Hash(position),
            TokenKind::ExplinationMark => Token::ExplinationMark(position),
            TokenKind::QuestionMark => Token::QuestionMark(position),
            TokenKind::Colon => Token::Colon(position),
            TokenKind::Dot => Token::Dot(position),
            TokenKind::Comma => Token::Comma(position),
            TokenKind::At => Token::At(position),
            TokenKind::Percent => Token::Percent(position),
            TokenKind::PercentEqual => Token::PercentEqual(position),
            TokenKind::Caret => Token::Caret(position),
            TokenKind::CaretEqual => Token::CaretEqual(position),
            TokenKind::In => Token::In(position),
            TokenKind::As => Token::As(position),
            TokenKind::Eof => Token::Eof(position),
            TokenKind::Identifier => Token::Identifier(position, text),
            TokenKind::Type => Token::Type(position, text),
            TokenKind::Keyword => Token::Keyword(position, text),
            TokenKind::String => Token::String(position, text),
            TokenKind::Boolean => Token::Boolean(position, text),
            TokenKind::Number => Token::Number(position, text),
            TokenKind::Unknown => Token::Unknown(position, text),
        }
    }

    /// The class of the token.
    pub fn kind(&self) -> (r: TokenKind)
        ensures
            r == self@.kind,
    {
        match self {
            Token::LeftParenthesis(_) => TokenKind::LeftParenthesis,
            Token::RightParenthesis(_) => TokenKind::RightParenthesis,
            Token::LeftBrace(_) => TokenKind::LeftBrace,
            Token::RightBrace(_) => TokenKind::RightBrace,
            Token::LeftBracket(_) => TokenKind::LeftBracket,
            Token::RightBracket(_) => TokenKind::RightBracket,
            Token::Plus(_) => TokenKind::Plus,
            Token::PlusEqual(_) => TokenKind::PlusEqual,
            Token::Minus(_) => TokenKind::Minus,
            Token::MinusEqual(_) => TokenKind::MinusEqual,
            Token::Asterisk(_) => TokenKind::Asterisk,
            Token::AsteriskEqual(_) => TokenKind::AsteriskEqual,
            Token::Slash(_) => TokenKind::Slash,
            Token::SlashEqual(_) => TokenKind::SlashEqual,
            Token::Equal(_) => TokenKind::Equal,
            Token::Equals(_) => TokenKind::Equals,
            Token::NotEqual(_) => TokenKind::NotEqual,
            Token::GreaterThan(_) => TokenKind::GreaterThan,
            Token::GreaterThanOrEqual(_) => TokenKind::GreaterThanOrEqual,
            Token::LessThan(_) => TokenKind::LessThan,
            Token::LessThanOrEqual(_) => TokenKind::LessThanOrEqual,
            Token::Ampersand(_) => TokenKind::Ampersand,
            Token::And(_) => TokenKind::And,
            Token::Or(_) => TokenKind::Or,
            Token::DollarSign(_) => TokenKind::DollarSign,
            Token::Hash(_) => TokenKind::Hash,
            Token::ExplinationMark(_) => TokenKind::ExplinationMark,
            Token::QuestionMark(_) => TokenKind::QuestionMark,
            Token::Colon(_) => TokenKind::Colon,
            Token::Dot(_) => TokenKind::Dot,
            Token::Comma(_) => TokenKind::Comma,
            Token::At(_) => TokenKind::At,
            Token::Percent(_) => TokenKind::Percent,
            Token::PercentEqual(_) => TokenKind::PercentEqual,
            Token::Caret(_) => TokenKind::Caret,
            Token::CaretEqual(_) => TokenKind::CaretEqual,
            Token::In(_) => TokenKind::In,
            Token::As(_) => TokenKind::As,
            Token::Eof(_) => TokenKind::Eof,
            Token::Identifier(_, _) => TokenKind::Identifier,
            Token::Type(_, _) => TokenKind::Type,
            Token::Keyword(_, _) => TokenKind::Keyword,
            Token::String(_, _) => TokenKind::String,
            Token::Boolean(_, _) => TokenKind::Boolean,
            Token::Number(_, _) => TokenKind::Number,
            Token::Unknown(_, _) => TokenKind::Unknown,
        }
    }

    /// The position of the token's first character.
    pub fn position(&self) -> (r: Position)
        ensures
            r.col as nat == self@.col,
            r.row as nat == self@.row,
    {
        match self {
            Token::LeftParenthesis(p) => *p,
            Token::RightParenthesis(p) => *p,
            Token::LeftBrace(p) => *p,
            Token::RightBrace(p) => *p,
            Token::LeftBracket(p) => *p,
            Token::RightBracket(p) => *p,
            Token::Plus(p) => *p,
            Token::PlusEqual(p) => *p,
            Token::Minus(p) => *p,
            Token::MinusEqual(p) => *p,
            Token::Asterisk(p) => *p,
            Token::AsteriskEqual(p) => *p,
            Token::Slash(p) => *p,
            Token::SlashEqual(p) => *p,
            Token::Equal(p) => *p,
            Token::Equals(p) => *p,
            Token::NotEqual(p) => *p,
            Token::GreaterThan(p) => *p,
            Token::GreaterThanOrEqual(p) => *p,
            Token::LessThan(p) => *p,
            Token::LessThanOrEqual(p) => *p,
            Token::Ampersand(p) => *p,
            Token::And(p) => *p,
            Token::Or(p) => *p,
            Token::DollarSign(p) => *p,
            Token::Hash(p) => *p,
            Token::ExplinationMark(p) => *p,
            Token::QuestionMark(p) => *p,
            Token::Colon(p) => *p,
            Token::Dot(p) => *p,
            Token::Comma(p) => *p,
            Token::At(p) => *p,
            Token::Percent(p) => *p,
            Token::PercentEqual(p) => *p,
            Token::Caret(p) => *p,
            Token::CaretEqual(p) => *p,
            Token::In(p) => *p,
            Token::As(p) => *p,
            Token::Eof(p) => *p,
            Token::Identifier(p, _) => *p,
            Token::Type(p, _) => *p,
            Token::Keyword(p, _) => *p,
            Token::String(p, _) => *p,
            Token::Boolean(p, _) => *p,
            Token::Number(p, _) => *p,
            Token::Unknown(p, _) => *p,
        }
    }

    /// The text of the token; empty for the classes that carry none.
    pub fn text(&self) -> (r: String)
        ensures
            r@ == self@.text,
    {
        match self {
            Token::LeftParenthesis(_) => String::new(),
            Token::RightParenthesis(_) => String::new(),
            Token::LeftBrace(_) => String::new(),
            Token::RightBrace(_) => String::new(),
            Token::LeftBracket(_) => String::new(),
            Token::RightBracket(_) => String::new(),
            Token::Plus(_) => String::new(),
            Token::PlusEqual(_) => String::new(),
            Token::Minus(_) => String::new(),
            Token::MinusEqual(_) => String::new(),
            Token::Asterisk(_) => String::new(),
            Token::AsteriskEqual(_) => String::new(),
            Token::Slash(_) => String::new(),
            Token::SlashEqual(_) => String::new(),
            Token::Equal(_) => String::new(),
            Token::Equals(_) => String::new(),
            Token::NotEqual(_) => String::new(),
            Token::GreaterThan(_) => String::new(),
            Token::GreaterThanOrEqual(_) => String::new(),
            Token::LessThan(_) => String::new(),
            Token::LessThanOrEqual(_) => String::new(),
            Token::Ampersand(_) => String::new(),
            Token::And(_) => String::new(),
            Token::Or(_) => String::new(),
            Token::DollarSign(_) => String::new(),
            Token::Hash(_) => String::new(),
            Token::ExplinationMark(_) => String::new(),
            Token::QuestionMark(_) => String::new(),
            Token::Colon(_) => String::new(),
            Token::Dot(_) => String::new(),
            Token::Comma(_) => String::new(),
            Token::At(_) => String::new(),
            Token::Percent(_) => String::new(),
            Token::PercentEqual(_) => String::new(),
            Token::Caret(_) => String::new(),
            Token::CaretEqual(_) => String::new(),
            Token::In(_) => String::new(),
            Token::As(_) => String::new(),
            Token::Eof(_) => String::new(),
            Token::Identifier(_, s) => s.clone(),
            Token::Type(_, s) => s.clone(),
            Token::Keyword(_, s) => s.clone(),
            Token::String(_, s) => s.clone(),
            Token::Boolean(_, s) => s.clone(),
            Token::Number(_, s) => s.clone(),
            Token::Unknown(_, s) => s.clone(),
        }
    }

    /// How the token is written out.
    pub fn to_string(&self) -> (r: String)
        ensures
            r@ == display(self@),
    {
        proof {
            reveal_strlit("(");
            reveal_strlit(")");
            reveal_strlit("{");
            reveal_strlit("}");
            reveal_strlit("[");
            reveal_strlit("]");
            reveal_strlit("+");
            reveal_strlit("+=");
            reveal_strlit("-");
            reveal_strlit("-=");
            reveal_strlit("*");
            reveal_strlit("*=");
            reveal_strlit("/");
            reveal_strlit("/=");
            reveal_strlit("=");
            reveal_strlit("==");
            reveal_strlit("!=");
            reveal_strlit(">");
            reveal_strlit(">=");
            reveal_strlit("<");
            reveal_strlit("<=");
            reveal_strlit("&");
            reveal_strlit("and");
            reveal_strlit("or");
            reveal_strlit("$");
            reveal_strlit("#");
            reveal_strlit("!");
            reveal_strlit("?");
            reveal_strlit(":");
            reveal_strlit(".");
            reveal_strlit("Comma");
            reveal_strlit("@");
            reveal_strlit("%");
            reveal_strlit("%=");
            reveal_strlit("^");
            reveal_strlit("^=");
            reveal_strlit("in");
            reveal_strlit("as");
            reveal_strlit("EOF");
            reveal_strlit("Identifier(");
            reveal_strlit(")");
            reveal_strlit("Type(");
            reveal_strlit(")");
            reveal_strlit("Keyword(");
            reveal_strlit(")");
            reveal_strlit("String(\"");
            reveal_strlit("\")");
            reveal_strlit("Boolean(");
            reveal_strlit(")");
            reveal_strlit("Number(");
            reveal_strlit(")");
            reveal_strlit("Unknown(");
            reveal_strlit(")");
        }
        match self {
            Token::LeftParenthesis(_) => String::from_str("("),
            Token::RightParenthesis(_) => String::from_str(")"),
            Token::LeftBrace(_) => String::from_str("{"),
            Token::RightBrace(_) => String::from_str("}"),
            Token::LeftBracket(_) => String::from_str("["),
            Token::RightBracket(_) => String::from_str("]"),
            Token::Plus(_) => String::from_str("+"),
            Token::PlusEqual(_) => String::from_str("+="),
            Token::Minus(_) => String::from_str("-"),
            Token::MinusEqual(_) => String::from_str("-="),
            Token::Asterisk(_) => String::from_str("*"),
            Token::AsteriskEqual(_) => String::from_str("*="),
            Token::Slash(_) => String::from_str("/"),
            Token::SlashEqual(_) => String::from_str("/="),
            Token::Equal(_) => String::from_str("="),
            Token::Equals(_) => String::from_str("=="),
            Token::NotEqual(_) => String::from_str("!="),
            Token::GreaterThan(_) => String::from_str(">"),
            Token::GreaterThanOrEqual(_) => String::from_str(">="),
            Token::LessThan(_) => String::from_str("<"),
            Token::LessThanOrEqual(_) => String::from_str("<="),
            Token::Ampersand(_) => String::from_str("&"),
            Token::And(_) => String::from_str("and"),
            Token::Or(_) => String::from_str("or"),
            Token::DollarSign(_) => String::from_str("$"),
            Token::Hash(_) => String::from_str("#"),
            Token::ExplinationMark(_) => String::from_str("!"),
            Token::QuestionMark(_) => String::from_str("?"),
            Token::Colon(_) => String::from_str(":"),
            Token::Dot(_) => String::from_str("."),
            Token::Comma(_) => String::from_str("Comma"),
            Token::At(_) => String::from_str("@"),
            Token::Percent(_) => String::from_str("%"),
            Token::PercentEqual(_) => String::from_str("%="),
            Token::Caret(_) => String::from_str("^"),
            Token::CaretEqual(_) => String::from_str("^="),
            Token::In(_) => String::from_str("in"),
            Token::As(_) => String::from_str("as"),
            Token::Eof(_) => String::from_str("EOF"),
            Token::Identifier(_, s) => String::from_str("Identifier(").concat(s.as_str()).concat(")"),
            Token::Type(_, s) => String::from_str("Type(").concat(s.as_str()).concat(")"),
            Token::Keyword(_, s) => String::from_str("Keyword(").concat(s.as_str()).concat(")"),
            Token::String(_, s) => String::from_str("String(\"").concat(s.as_str()).concat("\")"),
            Token::Boolean(_, s) => String::from_str("Boolean(").concat(s.as_str()).concat(")"),
            Token::Number(_, s) => String::from_str("Number(").concat(s.as_str()).concat(")"),
            Token::Unknown(_, s) => String::from_str("Unknown(").concat(s.as_str()).concat(")"),
        }
    }
}

} // verus!
