use hydrogen::ast::{ASTError, ASTNode};
use hydrogen::parser::Parser;
use hydrogen::tokens::{Position, Token};

#[test]
fn parser_test_parser() {
    let program = r#"
            hi() {
                print()
            }

            main() {
                hello(): num {
                    var1 = 1234
                    var2 = 1234
                }

                hello()

                var1: num = 1234
                var2 = var1 + 1234

                var3: num = lambda() {
                    var: str = "Hello, World!"
                }

                var4: bool = true
            }
        "#;

    let mut parser = Parser::new(program);
    let result = parser.parse();

    assert!(result.is_ok());
}

fn parse(text: &str) -> Result<Vec<Box<ASTNode>>, Vec<Box<ASTError>>> {
    Parser::new(text).parse()
}

fn node(n: ASTNode) -> Box<ASTNode> {
    Box::new(n)
}

fn id(name: &str) -> Box<ASTNode> {
    node(ASTNode::Identifier(name.to_string()))
}

fn op(text: &str) -> Box<ASTNode> {
    node(ASTNode::Operator(text.to_string()))
}

fn number(text: &str) -> Box<ASTNode> {
    node(ASTNode::NumberLiteral(text.to_string()))
}

fn at(col: usize, row: usize) -> Position {
    Position { col, row }
}

fn has_sentinel(n: &ASTNode) -> bool {
    match n {
        ASTNode::ParenDelimiter | ASTNode::BraceDelimiter | ASTNode::BracketDelimiter | ASTNode::Separator => true,
        ASTNode::Type(Some(a)) | ASTNode::Return(Some(a)) => has_sentinel(a),
        ASTNode::UnaryExpression(a, b)
        | ASTNode::VariableDeclaration(a, b)
        | ASTNode::FunctionCall(a, b)
        | ASTNode::While(a, b) => has_sentinel(a) || has_sentinel(b),
        ASTNode::BinaryExpression(a, b, c) | ASTNode::VariableDefinition(a, b, c) | ASTNode::If(a, b, c) => {
            has_sentinel(a) || has_sentinel(b) || has_sentinel(c)
        }
        ASTNode::FunctionDefinition(a, b, c, d) => {
            has_sentinel(a) || has_sentinel(b) || has_sentinel(c) || has_sentinel(d)
        }
        ASTNode::Parameters(v) | ASTNode::Arguments(v) | ASTNode::Block(v) | ASTNode::Array(v) => {
            v.iter().any(|n| has_sentinel(n))
        }
        _ => false,
    }
}

#[test]
fn blank_text_parses_to_nothing() {
    assert_eq!(parse(""), Ok(vec![]));
    assert_eq!(parse("  \n\t "), Ok(vec![]));
    assert_eq!(parse("// only a note\n  /* and\n a block */ "), Ok(vec![]));
    assert_eq!(parse("/* never closed"), Ok(vec![]));
}

#[test]
fn single_literals_keep_their_class() {
    assert_eq!(parse("\"abc\""), Ok(vec![node(ASTNode::StringLiteral("abc".to_string()))]));
    assert_eq!(parse("42"), Ok(vec![number("42")]));
    assert_eq!(parse("true"), Ok(vec![node(ASTNode::BooleanLiteral(true))]));
    assert_eq!(parse("false"), Ok(vec![node(ASTNode::BooleanLiteral(false))]));
}

#[test]
fn two_parsers_agree() {
    let text = "f(a, b): num { x += 1 } y = [1, 2] if a { b } oops ) ~";
    assert_eq!(parse(text), parse(text));
    let text = "main() { hello() }";
    assert_eq!(parse(text), parse(text));
}

#[test]
fn unterminated_string_is_one_unknown_token() {
    let expected = vec![Box::new(ASTError::UnknownToken(Token::Unknown(at(5, 1), "abc".to_string())))];
    assert_eq!(parse("\"abc"), Err(expected));
    let expected = vec![Box::new(ASTError::UnknownToken(Token::Unknown(at(11, 1), "abc x = 1".to_string())))];
    assert_eq!(parse("\"abc x = 1"), Err(expected));
}

#[test]
fn call_and_definition_are_told_apart() {
    assert_eq!(
        parse("foo()"),
        Ok(vec![node(ASTNode::FunctionCall(id("foo"), node(ASTNode::Arguments(vec![]))))])
    );
    assert_eq!(
        parse("foo() { }"),
        Ok(vec![node(ASTNode::FunctionDefinition(
            id("foo"),
            node(ASTNode::Parameters(vec![])),
            node(ASTNode::Return(None)),
            node(ASTNode::Block(vec![])),
        ))])
    );
    assert_eq!(
        parse("foo(a, b): num { }"),
        Ok(vec![node(ASTNode::FunctionDefinition(
            id("foo"),
            node(ASTNode::Parameters(vec![id("a"), id("b")])),
            node(ASTNode::Return(Some(node(ASTNode::NumberType)))),
            node(ASTNode::Block(vec![])),
        ))])
    );
}

#[test]
fn variable_forms() {
    assert_eq!(
        parse("x: num = 1"),
        Ok(vec![node(ASTNode::VariableDefinition(
            id("x"),
            node(ASTNode::Type(Some(node(ASTNode::NumberType)))),
            number("1"),
        ))])
    );
    assert_eq!(parse("x: num"), Ok(vec![node(ASTNode::VariableDeclaration(id("x"), node(ASTNode::NumberType)))]));
    assert_eq!(
        parse("x = 1"),
        Ok(vec![node(ASTNode::VariableDefinition(id("x"), node(ASTNode::Type(None)), number("1")))])
    );
    assert_eq!(
        parse("x += 2"),
        Ok(vec![node(ASTNode::VariableDefinition(
            id("x"),
            node(ASTNode::Type(None)),
            node(ASTNode::BinaryExpression(id("x"), op("+"), number("2"))),
        ))])
    );
    assert_eq!(
        parse("x ^= 2"),
        Ok(vec![node(ASTNode::VariableDefinition(
            id("x"),
            node(ASTNode::Type(None)),
            node(ASTNode::BinaryExpression(id("x"), op("^"), number("2"))),
        ))])
    );
}

#[test]
fn if_else_and_while() {
    assert_eq!(
        parse("if x { y } else { z }"),
        Ok(vec![node(ASTNode::If(
            id("x"),
            node(ASTNode::Block(vec![id("y")])),
            node(ASTNode::Block(vec![id("z")])),
        ))])
    );
    assert_eq!(
        parse("if x { y }"),
        Ok(vec![node(ASTNode::If(id("x"), node(ASTNode::Block(vec![id("y")])), node(ASTNode::Block(vec![]))))])
    );
    assert_eq!(
        parse("if a { } else if b { c }"),
        Ok(vec![node(ASTNode::If(
            id("a"),
            node(ASTNode::Block(vec![])),
            node(ASTNode::If(id("b"), node(ASTNode::Block(vec![id("c")])), node(ASTNode::Block(vec![])))),
        ))])
    );
    assert_eq!(
        parse("while x < 3 { x += 1 }"),
        Ok(vec![node(ASTNode::While(
            node(ASTNode::BinaryExpression(id("x"), op("<"), number("3"))),
            node(ASTNode::Block(vec![node(ASTNode::VariableDefinition(
                id("x"),
                node(ASTNode::Type(None)),
                node(ASTNode::BinaryExpression(id("x"), op("+"), number("1"))),
            ))])),
        ))])
    );
}

#[test]
fn multiplication_binds_tighter_than_addition() {
    assert_eq!(
        parse("y = a + b * c - d"),
        Ok(vec![node(ASTNode::VariableDefinition(
            id("y"),
            node(ASTNode::Type(None)),
            node(ASTNode::BinaryExpression(
                node(ASTNode::BinaryExpression(id("a"), op("+"), node(ASTNode::BinaryExpression(id("b"), op("*"), id("c"))))),
                op("-"),
                id("d"),
            )),
        ))])
    );
    assert_eq!(
        parse("y = !a * -b"),
        Ok(vec![node(ASTNode::VariableDefinition(
            id("y"),
            node(ASTNode::Type(None)),
            node(ASTNode::BinaryExpression(
                node(ASTNode::UnaryExpression(op("!"), id("a"))),
                op("*"),
                node(ASTNode::UnaryExpression(op("-"), id("b"))),
            )),
        ))])
    );
    assert_eq!(parse("- 5"), Ok(vec![node(ASTNode::UnaryExpression(op("-"), number("5")))]));
}

#[test]
fn arrays_collect_their_elements() {
    assert_eq!(parse("[1, 2, x]"), Ok(vec![node(ASTNode::Array(vec![number("1"), number("2"), id("x")]))]));
}

#[test]
fn no_sentinel_leaks() {
    let texts = ["foo(-)", "x = )", "(]", "{ , }", ")", "[1, }", "f(a, ) { , }", "if x { ) }", "-,"];
    for text in texts.iter() {
        if let Ok(nodes) = parse(text) {
            for n in nodes.iter() {
                assert!(!has_sentinel(n), "{}", text);
            }
        }
    }
    assert_eq!(parse("f(a,)"), Ok(vec![node(ASTNode::FunctionCall(id("f"), node(ASTNode::Arguments(vec![id("a")]))))]));
    assert_eq!(parse(")"), Err(vec![Box::new(ASTError::UnexpectedToken(Token::RightParenthesis(at(1, 1))))]));
}

#[test]
fn malformed_parameters_are_batched() {
    let result = parse("foo(x:, y:) { }");
    let expected = vec![Box::new(ASTError::Errors(vec![
        Box::new(ASTError::UnexpectedToken(Token::Comma(at(7, 1)))),
        Box::new(ASTError::UnexpectedToken(Token::RightParenthesis(at(11, 1)))),
    ]))];
    assert_eq!(result, Err(expected));
}

#[test]
fn each_error_kind_has_its_input() {
    assert_eq!(parse("~"), Err(vec![Box::new(ASTError::UnknownToken(Token::Unknown(at(1, 1), "~".to_string())))]));
    assert_eq!(parse("#"), Err(vec![Box::new(ASTError::UnexpectedToken(Token::Hash(at(1, 1))))]));
    assert_eq!(parse("x ="), Err(vec![Box::new(ASTError::EarlyEOF(Token::Eof(at(4, 1))))]));
    assert_eq!(
        parse("{ x"),
        Err(vec![Box::new(ASTError::Errors(vec![Box::new(ASTError::EarlyEOF(Token::Eof(at(4, 1))))]))])
    );
}

#[test]
fn later_statements_are_still_tried() {
    let result = parse("# x = 1 $");
    assert_eq!(
        result,
        Err(vec![
            Box::new(ASTError::UnexpectedToken(Token::Hash(at(1, 1)))),
            Box::new(ASTError::UnexpectedToken(Token::DollarSign(at(9, 1)))),
        ])
    );
}

#[test]
fn nodes_write_out_as_source_like_text() {
    let nodes = parse("x = a + 1 foo(a, b): num { y: str } f(1) z: bool").unwrap();
    let texts: Vec<String> = nodes.iter().map(|n| n.to_string()).collect();
    assert_eq!(
        texts,
        vec![
            "x: none = (a + 1)".to_string(),
            "foo((a, b)): num {\ny: str\n}".to_string(),
            "f((1))".to_string(),
            "z: bool".to_string(),
        ]
    );
    assert_eq!(node(ASTNode::Block(vec![])).to_string(), "{\n\n}");
    assert_eq!(node(ASTNode::StringLiteral("hi".to_string())).to_string(), "\"hi\"");
    assert_eq!(node(ASTNode::UnaryExpression(op("-"), number("2"))).to_string(), "(- 2)");
    assert_eq!(
        node(ASTNode::If(id("c"), node(ASTNode::Block(vec![id("t")])), node(ASTNode::Block(vec![])))).to_string(),
        "if c {\nt\n} else {\n\n}"
    );
}
