use hydrogen::lexer::Lexer;
use hydrogen::tokens::{Position, Token};

#[test]
fn test_lexer() {
    let program = r#"
            hi() {
                print()
            }

            main() {
                hello(): num {
                    var1 = 1234
                    var2 = 1234
                }

                hello()

                var1: num = 1234
                var2 = var1 + 1234

                var3: num = lambda() {
                    var: str = "Hello, World!"
                }

                var4: bool = true
            }
        "#;

    let mut lexer = Lexer::new(program);
    let mut tokens = Vec::new();

    loop {
        let token = lexer.lex();
        if let Token::Eof(_) = token {
            break;
        }
        tokens.push(token);
    }
}

fn all_tokens(text: &str) -> Vec<Token> {
    let mut lexer = Lexer::new(text);
    let mut tokens = Vec::new();
    loop {
        let token = lexer.lex();
        if let Token::Eof(_) = token {
            break;
        }
        tokens.push(token);
    }
    tokens
}

fn at(col: usize, row: usize) -> Position {
    Position { col, row }
}

#[test]
fn positions_count_columns_and_rows() {
    let tokens = all_tokens("a\n bc");
    assert_eq!(
        tokens,
        vec![Token::Identifier(at(1, 1), "a".to_string()), Token::Identifier(at(2, 2), "bc".to_string())]
    );
}

#[test]
fn reserved_words_are_classified() {
    let tokens = all_tokens("if else while break continue in as num str bool true false other");
    assert_eq!(tokens[0], Token::Keyword(at(1, 1), "if".to_string()));
    assert_eq!(tokens[1], Token::Keyword(at(4, 1), "else".to_string()));
    assert_eq!(tokens[2], Token::Keyword(at(9, 1), "while".to_string()));
    assert_eq!(tokens[3], Token::Keyword(at(15, 1), "break".to_string()));
    assert_eq!(tokens[4], Token::Keyword(at(21, 1), "continue".to_string()));
    assert_eq!(tokens[5], Token::In(at(30, 1)));
    assert_eq!(tokens[6], Token::As(at(33, 1)));
    assert_eq!(tokens[7], Token::Type(at(36, 1), "num".to_string()));
    assert_eq!(tokens[8], Token::Type(at(40, 1), "str".to_string()));
    assert_eq!(tokens[9], Token::Type(at(44, 1), "bool".to_string()));
    assert_eq!(tokens[10], Token::Boolean(at(49, 1), "true".to_string()));
    assert_eq!(tokens[11], Token::Boolean(at(54, 1), "false".to_string()));
    assert_eq!(tokens[12], Token::Identifier(at(60, 1), "other".to_string()));
}

#[test]
fn operators_take_one_character_of_lookahead() {
    let tokens = all_tokens("+ += - -= * *= / /= % %= ^ ^= = == ! != > >= < <= & && ||");
    let expected = vec![
        Token::Plus(at(1, 1)),
        Token::PlusEqual(at(3, 1)),
        Token::Minus(at(6, 1)),
        Token::MinusEqual(at(8, 1)),
        Token::Asterisk(at(11, 1)),
        Token::AsteriskEqual(at(13, 1)),
        Token::Slash(at(16, 1)),
        Token::SlashEqual(at(18, 1)),
        Token::Percent(at(21, 1)),
        Token::PercentEqual(at(23, 1)),
        Token::Caret(at(26, 1)),
        Token::CaretEqual(at(28, 1)),
        Token::Equal(at(31, 1)),
        Token::Equals(at(33, 1)),
        Token::ExplinationMark(at(36, 1)),
        Token::NotEqual(at(38, 1)),
        Token::GreaterThan(at(41, 1)),
        Token::GreaterThanOrEqual(at(43, 1)),
        Token::LessThan(at(46, 1)),
        Token::LessThanOrEqual(at(48, 1)),
        Token::Ampersand(at(51, 1)),
        Token::And(at(53, 1)),
        Token::Or(at(56, 1)),
    ];
    assert_eq!(tokens, expected);
}

#[test]
fn punctuation_is_single_characters() {
    let tokens = all_tokens("(){}[],?$#:.@");
    let expected = vec![
        Token::LeftParenthesis(at(1, 1)),
        Token::RightParenthesis(at(2, 1)),
        Token::LeftBrace(at(3, 1)),
        Token::RightBrace(at(4, 1)),
        Token::LeftBracket(at(5, 1)),
        Token::RightBracket(at(6, 1)),
        Token::Comma(at(7, 1)),
        Token::QuestionMark(at(8, 1)),
        Token::DollarSign(at(9, 1)),
        Token::Hash(at(10, 1)),
        Token::Colon(at(11, 1)),
        Token::Dot(at(12, 1)),
        Token::At(at(13, 1)),
    ];
    assert_eq!(tokens, expected);
}

#[test]
fn lone_bar_and_strange_characters_are_unknown() {
    assert_eq!(all_tokens("|"), vec![Token::Unknown(at(1, 1), "|".to_string())]);
    assert_eq!(all_tokens("| ~"), vec![
        Token::Unknown(at(1, 1), "|".to_string()),
        Token::Unknown(at(3, 1), "~".to_string()),
    ]);
}

#[test]
fn unterminated_string_lexes_to_unknown() {
    assert_eq!(all_tokens("\"abc"), vec![Token::Unknown(at(5, 1), "abc".to_string())]);
}

#[test]
fn strings_keep_their_inner_text() {
    assert_eq!(
        all_tokens("x = \"a b\""),
        vec![
            Token::Identifier(at(1, 1), "x".to_string()),
            Token::Equal(at(3, 1)),
            Token::String(at(5, 1), "a b".to_string()),
        ]
    );
}

#[test]
fn numbers_munch_letters_and_digits() {
    assert_eq!(all_tokens("12abc 3"), vec![
        Token::Number(at(1, 1), "12abc".to_string()),
        Token::Number(at(7, 1), "3".to_string()),
    ]);
}

#[test]
fn unicode_letters_digits_and_spaces() {
    assert_eq!(all_tokens("\u{e9}t\u{e9}\t\u{661}\u{662}\u{a0}x"), vec![
        Token::Identifier(at(1, 1), "\u{e9}t\u{e9}".to_string()),
        Token::Number(at(5, 1), "\u{661}\u{662}".to_string()),
        Token::Identifier(at(8, 1), "x".to_string()),
    ]);
}

#[test]
fn comments_are_skipped() {
    assert_eq!(all_tokens("a // note\n/* b\n c */ d /* open"), vec![
        Token::Identifier(at(1, 1), "a".to_string()),
        Token::Identifier(at(7, 3), "d".to_string()),
    ]);
}

#[test]
fn peek_does_not_advance_and_eof_repeats() {
    let mut lexer = Lexer::new("x ");
    assert_eq!(lexer.peek(), Token::Identifier(at(1, 1), "x".to_string()));
    assert_eq!(lexer.peek(), Token::Identifier(at(1, 1), "x".to_string()));
    assert_eq!(lexer.lex(), Token::Identifier(at(1, 1), "x".to_string()));
    assert_eq!(lexer.lex(), Token::Eof(at(3, 1)));
    assert_eq!(lexer.peek(), Token::Eof(at(3, 1)));
    assert_eq!(lexer.lex(), Token::Eof(at(3, 1)));
}

#[test]
fn tokens_write_out_as_symbols_or_classes() {
    assert_eq!(Token::PlusEqual(at(1, 1)).to_string(), "+=");
    assert_eq!(Token::LeftBrace(at(1, 1)).to_string(), "{");
    assert_eq!(Token::And(at(1, 1)).to_string(), "and");
    assert_eq!(Token::Identifier(at(1, 1), "x".to_string()).to_string(), "Identifier(x)");
    assert_eq!(Token::String(at(1, 1), "a".to_string()).to_string(), "String(\"a\")");
    assert_eq!(Token::Eof(at(1, 1)).to_string(), "EOF");
}
