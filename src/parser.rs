use vstd::prelude::*;
use vstd::string::*;

use crate::ast::{
    ASTError, ASTNode, Error, Errors, Fault, Node, Nodes, Syntax, all_clean, clean, errors_view,
    is_sentinel, lemma_errors_view, lemma_group_views, nodes_view,
};
use crate::lexer::{Lexer, blank, lemma_blank_scans_to_end, lemma_scan_advances, scan};
use crate::tokens::{Token, TokenKind, TokenView, display};

verus! {

/// The token at index `i`.
pub open spec fn tok(s: Seq<char>, i: int) -> TokenView {
    scan(s, i).0
}

/// The index after the token at `i`.
pub open spec fn after(s: Seq<char>, i: int) -> int {
    scan(s, i).1
}

/// Whether `i` and `j` are indices of the text with `i < j`.
pub open spec fn moved(s: Seq<char>, i: int, j: int) -> bool {
    0 <= i < j <= s.len()
}

/// Whether `i` and `j` are indices of the text with `i <= j`.
pub open spec fn within(s: Seq<char>, i: int, j: int) -> bool {
    0 <= i <= j <= s.len()
}

/// Whether nothing but the end of the text is left at `i`.
pub open spec fn at_end(s: Seq<char>, i: int) -> bool {
    tok(s, i).kind == TokenKind::Eof || !moved(s, i, after(s, i))
}

/// Operators that start a unary expression at the head of a statement.
pub open spec fn statement_prefix(k: TokenKind) -> bool {
    k == TokenKind::Asterisk || k == TokenKind::Slash || k == TokenKind::Plus || k
        == TokenKind::Minus
}

/// Operators that start a unary expression inside an expression.
pub open spec fn factor_prefix(k: TokenKind) -> bool {
    k == TokenKind::ExplinationMark || k == TokenKind::Plus || k == TokenKind::Minus
}

/// Binary operators of the tighter level: multiplication and its kin.
pub open spec fn multiplicative(k: TokenKind) -> bool {
    k == TokenKind::Asterisk || k == TokenKind::Slash || k == TokenKind::Percent || k
        == TokenKind::Caret
}

/// Binary operators of the looser level: addition, comparison, logic.
pub open spec fn additive(k: TokenKind) -> bool {
    k == TokenKind::Plus || k == TokenKind::Minus || k == TokenKind::Equals || k
        == TokenKind::NotEqual || k == TokenKind::GreaterThan || k == TokenKind::GreaterThanOrEqual
        || k == TokenKind::LessThan || k == TokenKind::LessThanOrEqual || k == TokenKind::And || k
        == TokenKind::Or || k == TokenKind::At || k == TokenKind::In || k == TokenKind::As
}

/// Assignment operators, plain or compound.
pub open spec fn assigns(k: TokenKind) -> bool {
    k == TokenKind::Equal || k == TokenKind::PlusEqual || k == TokenKind::MinusEqual || k
        == TokenKind::AsteriskEqual || k == TokenKind::SlashEqual || k == TokenKind::PercentEqual
        || k == TokenKind::CaretEqual
}

/// The tokens whose node is a sentinel.
pub open spec fn closing(k: TokenKind) -> bool {
    k == TokenKind::RightParenthesis || k == TokenKind::RightBrace || k == TokenKind::RightBracket
        || k == TokenKind::Comma
}

/// The binary operator that a compound assignment applies.
pub open spec fn compound_operator(k: TokenKind) -> Seq<char> {
    if k == TokenKind::PlusEqual {
        "+"@
    } else if k == TokenKind::MinusEqual {
        "-"@
    } else if k == TokenKind::AsteriskEqual {
        "*"@
    } else if k == TokenKind::SlashEqual {
        "/"@
    } else if k == TokenKind::PercentEqual {
        "%"@
    } else {
        "^"@
    }
}

/// An operator node for the text of a token.
pub open spec fn operator(t: TokenView) -> Box<Syntax> {
    Box::new(Syntax::Operator(display(t)))
}

/// An identifier node.
pub open spec fn name(id: Seq<char>) -> Box<Syntax> {
    Box::new(Syntax::Identifier(id))
}

/// The node that starts at `i`, and the index after it. Closing tokens and
/// commas give sentinels.
pub open spec fn node_at(s: Seq<char>, i: int) -> (Result<Syntax, Fault>, int)
    decreases s.len() - i, 4int,
{
    let t = tok(s, i);
    let j = after(s, i);
    if t.kind == TokenKind::LeftParenthesis {
        set_at(s, i)
    } else if t.kind == TokenKind::LeftBrace {
        scope_at(s, i)
    } else if t.kind == TokenKind::LeftBracket {
        array_at(s, i)
    } else if at_end(s, i) {
        (Err(Fault::EarlyEOF(t)), j)
    } else if t.kind == TokenKind::RightParenthesis {
        (Ok(Syntax::ParenDelimiter), j)
    } else if t.kind == TokenKind::RightBrace {
        (Ok(Syntax::BraceDelimiter), j)
    } else if t.kind == TokenKind::RightBracket {
        (Ok(Syntax::BracketDelimiter), j)
    } else if t.kind == TokenKind::Comma {
        (Ok(Syntax::Separator), j)
    } else if t.kind == TokenKind::String {
        (Ok(Syntax::StringLiteral(t.text)), j)
    } else if t.kind == TokenKind::Number {
        (Ok(Syntax::NumberLiteral(t.text)), j)
    } else if t.kind == TokenKind::Boolean {
        (Ok(Syntax::BooleanLiteral(t.text == "true"@)), j)
    } else if t.kind == TokenKind::Type {
        if t.text == "num"@ {
            (Ok(Syntax::NumberType), j)
        } else if t.text == "str"@ {
            (Ok(Syntax::StringType), j)
        } else if t.text == "bool"@ {
            (Ok(Syntax::BooleanType), j)
        } else {
            (Err(Fault::UnknownToken(t)), j)
        }
    } else if statement_prefix(t.kind) {
        match expression_at(s, j) {
            (Ok(e), k) => (Ok(Syntax::UnaryExpression(operator(t), Box::new(e))), k),
            (Err(f), k) => (Err(f), k),
        }
    } else if t.kind == TokenKind::Identifier {
        let u = tok(s, j);
        if u.kind == TokenKind::LeftParenthesis {
            function_at(s, j, t.text)
        } else if u.kind == TokenKind::Colon || assigns(u.kind) {
            variable_at(s, j, t.text)
        } else {
            (Ok(Syntax::Identifier(t.text)), j)
        }
    } else if t.kind == TokenKind::Keyword {
        if t.text == "if"@ {
            if_at(s, j)
        } else if t.text == "while"@ {
            while_at(s, j)
        } else {
            (Err(Fault::UnexpectedToken(t)), j)
        }
    } else if t.kind == TokenKind::Unknown {
        (Err(Fault::UnknownToken(t)), j)
    } else {
        (Err(Fault::UnexpectedToken(t)), j)
    }
}

/// The nodes of a group whose opening token came before `i`, up to the
/// closing token `close`: commas are skipped, the errors of the members are
/// collected and the members that failed are left out. Returns the members,
/// the errors and the index after the closing token.
pub open spec fn group_at(
    s: Seq<char>,
    i: int,
    close: TokenKind,
    items: Seq<Syntax>,
    faults: Seq<Fault>,
) -> (Seq<Syntax>, Seq<Fault>, int)
    decreases s.len() - i, 11int,
{
    let t = tok(s, i);
    let j = after(s, i);
    if at_end(s, i) {
        (items, faults.push(Fault::EarlyEOF(t)), j)
    } else if t.kind == close {
        (items, faults, j)
    } else {
        let (r, k) = node_at(s, i);
        if !moved(s, i, k) {
            (items, faults, k)
        } else {
            match r {
                Ok(n) => if n is Separator {
                    group_at(s, k, close, items, faults)
                } else if is_sentinel(n) {
                    group_at(s, k, close, items, faults.push(Fault::UnexpectedToken(t)))
                } else {
                    group_at(s, k, close, items.push(n), faults)
                },
                Err(f) => group_at(s, k, close, items, faults.push(f)),
            }
        }
    }
}

/// A parenthesised group at `i`: its members are parameters where `{` or
/// `:` follows the closing parenthesis, arguments otherwise.
pub open spec fn set_at(s: Seq<char>, i: int) -> (Result<Syntax, Fault>, int)
    decreases s.len() - i, 2int,
{
    let j = after(s, i);
    if !moved(s, i, j) {
        (Err(Fault::EarlyEOF(tok(s, i))), j)
    } else {
        let (items, faults, k) = group_at(s, j, TokenKind::RightParenthesis, seq![], seq![]);
        if faults.len() > 0 {
            (Err(Fault::Errors(faults)), k)
        } else if tok(s, k).kind == TokenKind::LeftBrace || tok(s, k).kind == TokenKind::Colon {
            (Ok(Syntax::Parameters(items)), k)
        } else {
            (Ok(Syntax::Arguments(items)), k)
        }
    }
}

/// A block at `i`, which must open with `{`.
pub open spec fn scope_at(s: Seq<char>, i: int) -> (Result<Syntax, Fault>, int)
    decreases s.len() - i, 2int,
{
    let t = tok(s, i);
    let j = after(s, i);
    if at_end(s, i) {
        (Err(Fault::EarlyEOF(t)), j)
    } else if t.kind != TokenKind::LeftBrace {
        (Err(Fault::UnexpectedToken(t)), j)
    } else {
        let (items, faults, k) = group_at(s, j, TokenKind::RightBrace, seq![], seq![]);
        if faults.len() > 0 {
            (Err(Fault::Errors(faults)), k)
        } else {
            (Ok(Syntax::Block(items)), k)
        }
    }
}

/// An array at `i`, which opens with `[`.
pub open spec fn array_at(s: Seq<char>, i: int) -> (Result<Syntax, Fault>, int)
    decreases s.len() - i, 2int,
{
    let j = after(s, i);
    if !moved(s, i, j) {
        (Err(Fault::EarlyEOF(tok(s, i))), j)
    } else {
        let (items, faults, k) = group_at(s, j, TokenKind::RightBracket, seq![], seq![]);
        if faults.len() > 0 {
            (Err(Fault::Errors(faults)), k)
        } else {
            (Ok(Syntax::Array(items)), k)
        }
    }
}

/// An operand at `i`: a node that is no sentinel. At the end of the text or
/// at a closing token it fails without reading the token.
pub open spec fn operand_at(s: Seq<char>, i: int) -> (Result<Syntax, Fault>, int)
    decreases s.len() - i, 5int,
{
    let t = tok(s, i);
    if at_end(s, i) {
        (Err(Fault::EarlyEOF(t)), i)
    } else if closing(t.kind) {
        (Err(Fault::UnexpectedToken(t)), i)
    } else {
        node_at(s, i)
    }
}

/// A factor at `i`: operands under any number of prefix operators.
pub open spec fn factor_at(s: Seq<char>, i: int) -> (Result<Syntax, Fault>, int)
    decreases s.len() - i, 6int,
{
    let t = tok(s, i);
    let j = after(s, i);
    if factor_prefix(t.kind) && moved(s, i, j) {
        match factor_at(s, j) {
            (Ok(e), k) => (Ok(Syntax::UnaryExpression(operator(t), Box::new(e))), k),
            (Err(f), k) => (Err(f), k),
        }
    } else {
        operand_at(s, i)
    }
}

/// The rest of a term at `i` whose left operand so far is `left`: operators
/// of the tighter level fold to the left.
pub open spec fn term_rest(s: Seq<char>, i: int, left: Syntax) -> (Result<Syntax, Fault>, int)
    decreases s.len() - i, 7int,
{
    let t = tok(s, i);
    let j = after(s, i);
    if multiplicative(t.kind) && moved(s, i, j) {
        match factor_at(s, j) {
            (Ok(r), k) => if within(s, j, k) {
                term_rest(s, k, Syntax::BinaryExpression(Box::new(left), operator(t), Box::new(r)))
            } else {
                (Ok(left), k)
            },
            (Err(f), k) => (Err(f), k),
        }
    } else {
        (Ok(left), i)
    }
}

/// A term at `i`.
pub open spec fn term_at(s: Seq<char>, i: int) -> (Result<Syntax, Fault>, int)
    decreases s.len() - i, 8int,
{
    match factor_at(s, i) {
        (Ok(l), k) => if within(s, i, k) {
            term_rest(s, k, l)
        } else {
            (Ok(l), k)
        },
        (Err(f), k) => (Err(f), k),
    }
}

/// The rest of an expression at `i` whose left operand so far is `left`:
/// operators of the looser level fold to the left.
pub open spec fn expression_rest(s: Seq<char>, i: int, left: Syntax) -> (
    Result<Syntax, Fault>,
    int,
)
    decreases s.len() - i, 9int,
{
    let t = tok(s, i);
    let j = after(s, i);
    if additive(t.kind) && moved(s, i, j) {
        match term_at(s, j) {
            (Ok(r), k) => if within(s, j, k) {
                expression_rest(
                    s,
                    k,
                    Syntax::BinaryExpression(Box::new(left), operator(t), Box::new(r)),
                )
            } else {
                (Ok(left), k)
            },
            (Err(f), k) => (Err(f), k),
        }
    } else {
        (Ok(left), i)
    }
}

/// An expression at `i`.
pub open spec fn expression_at(s: Seq<char>, i: int) -> (Result<Syntax, Fault>, int)
    decreases s.len() - i, 10int,
{
    match term_at(s, i) {
        (Ok(l), k) => if within(s, i, k) {
            expression_rest(s, k, l)
        } else {
            (Ok(l), k)
        },
        (Err(f), k) => (Err(f), k),
    }
}

/// A declaration or an assignment of the variable `id`, whose operator
/// (`:`, `=` or a compound assignment) is at `i`.
pub open spec fn variable_at(s: Seq<char>, i: int, id: Seq<char>) -> (Result<Syntax, Fault>, int)
    decreases s.len() - i, 1int,
{
    let t = tok(s, i);
    let j = after(s, i);
    if at_end(s, i) {
        (Err(Fault::EarlyEOF(t)), j)
    } else if t.kind == TokenKind::Colon {
        match operand_at(s, j) {
            (Ok(ty), k) => if within(s, j, k) && tok(s, k).kind == TokenKind::Equal && moved(
                s,
                k,
                after(s, k),
            ) {
                match expression_at(s, after(s, k)) {
                    (Ok(e), m) => (
                        Ok(
                            Syntax::VariableDefinition(
                                name(id),
                                Box::new(Syntax::Type(Some(Box::new(ty)))),
                                Box::new(e),
                            ),
                        ),
                        m,
                    ),
                    (Err(f), m) => (Err(f), m),
                }
            } else {
                (Ok(Syntax::VariableDeclaration(name(id), Box::new(ty))), k)
            },
            (Err(f), k) => (Err(f), k),
        }
    } else if t.kind == TokenKind::Equal {
        match expression_at(s, j) {
            (Ok(e), k) => (
                Ok(Syntax::VariableDefinition(name(id), Box::new(Syntax::Type(None)), Box::new(e))),
                k,
            ),
            (Err(f), k) => (Err(f), k),
        }
    } else if assigns(t.kind) {
        match expression_at(s, j) {
            (Ok(e), k) => (
                Ok(
                    Syntax::VariableDefinition(
                        name(id),
                        Box::new(Syntax::Type(None)),
                        Box::new(
                            Syntax::BinaryExpression(
                                name(id),
                                Box::new(Syntax::Operator(compound_operator(t.kind))),
                                Box::new(e),
                            ),
                        ),
                    ),
                ),
                k,
            ),
            (Err(f), k) => (Err(f), k),
        }
    } else {
        (Err(Fault::UnexpectedToken(t)), j)
    }
}

/// The return type after the `:` at `i`.
pub open spec fn return_at(s: Seq<char>, i: int) -> (Result<Syntax, Fault>, int)
    decreases s.len() - i, 1int,
{
    let j = after(s, i);
    if at_end(s, i) {
        (Err(Fault::EarlyEOF(tok(s, i))), j)
    } else {
        operand_at(s, j)
    }
}

/// A call of `id`, or a definition of it where a block or a return type
/// follows its parenthesised group, which is at `i`.
pub open spec fn function_at(s: Seq<char>, i: int, id: Seq<char>) -> (Result<Syntax, Fault>, int)
    decreases s.len() - i, 3int,
{
    match set_at(s, i) {
        (Ok(p), k) => {
            let u = tok(s, k);
            if !within(s, i, k) {
                (Ok(Syntax::FunctionCall(name(id), Box::new(p))), k)
            } else if u.kind == TokenKind::LeftBrace {
                match scope_at(s, k) {
                    (Ok(b), m) => (
                        Ok(
                            Syntax::FunctionDefinition(
                                name(id),
                                Box::new(p),
                                Box::new(Syntax::Return(None)),
                                Box::new(b),
                            ),
                        ),
                        m,
                    ),
                    (Err(f), m) => (Err(f), m),
                }
            } else if u.kind == TokenKind::Colon {
                match return_at(s, k) {
                    (Ok(r), m) => if within(s, i, m) {
                        match scope_at(s, m) {
                            (Ok(b), n) => (
                                Ok(
                                    Syntax::FunctionDefinition(
                                        name(id),
                                        Box::new(p),
                                        Box::new(Syntax::Return(Some(Box::new(r)))),
                                        Box::new(b),
                                    ),
                                ),
                                n,
                            ),
                            (Err(f), n) => (Err(f), n),
                        }
                    } else {
                        (Err(Fault::EarlyEOF(u)), m)
                    },
                    (Err(f), m) => (Err(f), m),
                }
            } else {
                (Ok(Syntax::FunctionCall(name(id), Box::new(p))), k)
            }
        },
        (Err(f), k) => (Err(f), k),
    }
}

/// The else branch after the block of an `if`, at `i`: an empty block where
/// no `else` follows.
pub open spec fn else_at(s: Seq<char>, i: int) -> (Result<Syntax, Fault>, int)
    decreases s.len() - i, 3int,
{
    let u = tok(s, i);
    let n = after(s, i);
    if u.kind == TokenKind::Keyword && u.text == "else"@ && moved(s, i, n) {
        let v = tok(s, n);
        if v.kind == TokenKind::Keyword && v.text == "if"@ {
            node_at(s, n)
        } else {
            scope_at(s, n)
        }
    } else {
        (Ok(Syntax::Block(seq![])), i)
    }
}

/// The rest of an `if` statement, whose keyword came before `i`.
pub open spec fn if_at(s: Seq<char>, i: int) -> (Result<Syntax, Fault>, int)
    decreases s.len() - i, 12int,
{
    match expression_at(s, i) {
        (Ok(c), k) => if within(s, i, k) {
            match scope_at(s, k) {
                (Ok(b), m) => if within(s, i, m) {
                    match else_at(s, m) {
                        (Ok(e), q) => (
                            Ok(Syntax::If(Box::new(c), Box::new(b), Box::new(e))),
                            q,
                        ),
                        (Err(f), q) => (Err(f), q),
                    }
                } else {
                    (Err(Fault::EarlyEOF(tok(s, m))), m)
                },
                (Err(f), m) => (Err(f), m),
            }
        } else {
            (Err(Fault::EarlyEOF(tok(s, k))), k)
        },
        (Err(f), k) => (Err(f), k),
    }
}

/// The rest of a `while` statement, whose keyword came before `i`.
pub open spec fn while_at(s: Seq<char>, i: int) -> (Result<Syntax, Fault>, int)
    decreases s.len() - i, 12int,
{
    match expression_at(s, i) {
        (Ok(c), k) => if within(s, i, k) {
            match scope_at(s, k) {
                (Ok(b), m) => (Ok(Syntax::While(Box::new(c), Box::new(b))), m),
                (Err(f), m) => (Err(f), m),
            }
        } else {
            (Err(Fault::EarlyEOF(tok(s, k))), k)
        },
        (Err(f), k) => (Err(f), k),
    }
}

/// The statements from `i` to the end of the text, after `nodes` and
/// `faults` so far: a fault in one statement does not stop the next ones,
/// and the result is the nodes only where no statement failed.
pub open spec fn program_at(
    s: Seq<char>,
    i: int,
    nodes: Seq<Syntax>,
    faults: Seq<Fault>,
) -> Result<Seq<Syntax>, Seq<Fault>>
    decreases s.len() - i, 20int,
{
    let t = tok(s, i);
    let j = after(s, i);
    if at_end(s, i) {
        if faults.len() == 0 {
            Ok(nodes)
        } else {
            Err(faults)
        }
    } else if t.kind == TokenKind::Unknown {
        program_at(s, j, nodes, faults.push(Fault::UnknownToken(t)))
    } else {
        let (r, k) = node_at(s, i);
        if !moved(s, i, k) {
            program_at(s, s.len() as int, nodes, faults)
        } else {
            match r {
                Ok(n) => if is_sentinel(n) {
                    program_at(s, k, nodes, faults.push(Fault::UnexpectedToken(t)))
                } else {
                    program_at(s, k, nodes.push(n), faults)
                },
                Err(f) => program_at(s, k, nodes, faults.push(f)),
            }
        }
    }
}

/// The result of parsing a whole text.
pub open spec fn parse_text(s: Seq<char>) -> Result<Seq<Syntax>, Seq<Fault>> {
    program_at(s, 0, seq![], seq![])
}

/// The node of a literal token.
pub open spec fn literal_node(t: TokenView) -> Syntax {
    if t.kind == TokenKind::String {
        Syntax::StringLiteral(t.text)
    } else if t.kind == TokenKind::Number {
        Syntax::NumberLiteral(t.text)
    } else {
        Syntax::BooleanLiteral(t.text == "true"@)
    }
}

/// Text made of white space and comments alone parses to an empty program.
pub proof fn lemma_blank_program(s: Seq<char>)
    requires
        blank(s, 0),
    ensures
        parse_text(s) == Ok::<Seq<Syntax>, Seq<Fault>>(seq![]),
{
    lemma_blank_scans_to_end(s, 0);
}

/// A text that holds a single string, number or boolean literal parses to
/// one node, a literal of the token's class holding its text.
pub proof fn lemma_single_literal(s: Seq<char>)
    requires
        tok(s, 0).kind == TokenKind::String || tok(s, 0).kind == TokenKind::Number || tok(
            s,
            0,
        ).kind == TokenKind::Boolean,
        at_end(s, after(s, 0)),
    ensures
        parse_text(s) == Ok::<Seq<Syntax>, Seq<Fault>>(seq![literal_node(tok(s, 0))]),
{
    reveal_with_fuel(program_at, 2);
    lemma_scan_advances(s, 0);
    let k = after(s, 0);
    assert(node_at(s, 0) == (Ok::<Syntax, Fault>(literal_node(tok(s, 0))), k));
    assert(seq![].push(literal_node(tok(s, 0))) =~= seq![literal_node(tok(s, 0))]);
}

/// Parsing depends on the text alone: two parses of equal texts, each by a
/// fresh parser, give equal results.
pub proof fn lemma_parse_deterministic(a: Seq<char>, b: Seq<char>)
    requires
        a == b,
    ensures
        parse_text(a) == parse_text(b),
{
}

/// The view of the result of a production.
pub open spec fn result_view(r: Result<Node, Error>) -> Result<Syntax, Fault> {
    match r {
        Ok(n) => Ok(n@),
        Err(e) => Err(e@),
    }
}

/// The view of the result of a whole parse.
pub open spec fn tree_view(r: Result<Nodes, Errors>) -> Result<Seq<Syntax>, Seq<Fault>> {
    match r {
        Ok(v) => Ok(nodes_view(v@)),
        Err(e) => Err(errors_view(e@)),
    }
}

/// Whether a result is a failure or a tree without sentinels.
pub open spec fn clean_result(r: Result<Syntax, Fault>) -> bool {
    match r {
        Ok(n) => clean(n),
        Err(_) => true,
    }
}

/// The binary operator that a compound assignment applies, as a string.
fn compound_operator_text(k: TokenKind) -> (r: String)
    ensures
        r@ == compound_operator(k),
{
    proof {
        reveal_strlit("+");
        reveal_strlit("-");
        reveal_strlit("*");
        reveal_strlit("/");
        reveal_strlit("%");
        reveal_strlit("^");
    }
    if k == TokenKind::PlusEqual {
        String::from_str("+")
    } else if k == TokenKind::MinusEqual {
        String::from_str("-")
    } else if k == TokenKind::AsteriskEqual {
        String::from_str("*")
    } else if k == TokenKind::SlashEqual {
        String::from_str("/")
    } else if k == TokenKind::PercentEqual {
        String::from_str("%")
    } else {
        String::from_str("^")
    }
}

/// Whether a string holds exactly the characters of a literal.
fn is_word(text: &String, word: &str) -> (r: bool)
    ensures
        r == (text@ == word@),
{
    *text == String::from_str(word)
}

fn is_closing(k: TokenKind) -> (r: bool)
    ensures
        r == closing(k),
{
    k == TokenKind::RightParenthesis || k == TokenKind::RightBrace || k == TokenKind::RightBracket
        || k == TokenKind::Comma
}

fn is_assignment(k: TokenKind) -> (r: bool)
    ensures
        r == assigns(k),
{
    k == TokenKind::Equal || k == TokenKind::PlusEqual || k == TokenKind::MinusEqual || k
        == TokenKind::AsteriskEqual || k == TokenKind::SlashEqual || k == TokenKind::PercentEqual
        || k == TokenKind::CaretEqual
}

/// Builds syntax trees from source text by recursive descent, reading one
/// token ahead.
#[derive(Debug, Clone)]
pub struct Parser<'a> {
    lexer: Lexer<'a>,
}

impl<'a> Parser<'a> {
    /// The source text.
    pub closed spec fn text(&self) -> Seq<char> {
        self.lexer.text()
    }

    /// The index of the first character not yet read.
    pub closed spec fn cursor(&self) -> int {
        self.lexer.cursor()
    }

    /// The parser's lexer is well formed.
    pub closed spec fn wf(&self) -> bool {
        self.lexer.wf()
    }

    /// Whether `self` reads the same text as `before`, at or after its cursor.
    pub open spec fn follows(&self, before: &Self) -> bool {
        &&& self.wf()
        &&& self.text() == before.text()
        &&& before.cursor() <= self.cursor() <= self.text().len()
    }

    proof fn lemma_cursor(&self)
        requires
            self.wf(),
        ensures
            0 <= self.cursor() <= self.text().len(),
            self.text().len() < usize::MAX,
    {
        self.lexer.lemma_wf();
    }

    /// Creates a new Parser instance with the given program source code.
    pub fn new(program: &'a str) -> (r: Self)
        requires
            program@.len() < usize::MAX,
        ensures
            r.wf(),
            r.text() == program@,
            r.cursor() == 0,
    {
        Parser { lexer: Lexer::new(program) }
    }

    /// Advances the lexer and returns the next token.
    fn next(&mut self) -> (r: Token)
        requires
            old(self).wf(),
        ensures
            final(self).follows(old(self)),
            r@ == tok(old(self).text(), old(self).cursor()),
            final(self).cursor() == after(old(self).text(), old(self).cursor()),
            r@.kind != TokenKind::Eof ==> final(self).cursor() > old(self).cursor(),
            at_end(old(self).text(), old(self).cursor()) <==> r@.kind == TokenKind::Eof,
    {
        proof {
            self.lemma_cursor();
            lemma_scan_advances(self.text(), self.cursor());
        }
        self.lexer.lex()
    }

    /// Peeks at the next token without advancing the lexer.
    fn peek(&self) -> (r: Token)
        requires
            self.wf(),
        ensures
            r@ == tok(self.text(), self.cursor()),
            at_end(self.text(), self.cursor()) <==> r@.kind == TokenKind::Eof,
    {
        proof {
            self.lemma_cursor();
            lemma_scan_advances(self.text(), self.cursor());
        }
        self.lexer.peek()
    }

    /// Parses the rest of the program: every statement is attempted, and the
    /// errors of all of them are returned where any failed.
    #[verifier::rlimit(20)]
    pub fn parse(&mut self) -> (r: Result<Nodes, Errors>)
        requires
            old(self).wf(),
        ensures
            final(self).follows(old(self)),
            tree_view(r) == program_at(old(self).text(), old(self).cursor(), seq![], seq![]),
            r is Ok ==> all_clean(nodes_view(r->Ok_0@)),
            r is Err ==> r->Err_0.len() > 0,
    {
        let ghost s = self.text();
        let ghost i0 = self.cursor();
        let mut program: Nodes = Vec::new();
        let mut errors: Errors = Vec::new();
        proof {
            self.lemma_cursor();
            assert(nodes_view(program@) =~= seq![]);
            assert(errors_view(errors@) =~= seq![]);
        }
        loop
            invariant
                self.wf(),
                self.text() == s,
                s == old(self).text(),
                i0 == old(self).cursor(),
                i0 <= self.cursor() <= s.len(),
                program_at(s, self.cursor(), nodes_view(program@), errors_view(errors@))
                    == program_at(s, i0, seq![], seq![]),
                all_clean(nodes_view(program@)),
            decreases s.len() - self.cursor(),
        {
            let ghost before = nodes_view(program@);
            let ghost faults = errors_view(errors@);
            let token = self.peek();
            let kind = token.kind();
            if kind == TokenKind::Eof {
                if errors.len() == 0 {
                    return Ok(program);
                } else {
                    return Err(errors);
                }
            } else if kind == TokenKind::Unknown {
                let token = self.next();
                errors.push(Box::new(ASTError::UnknownToken(token)));
                proof {
                    assert(errors_view(errors@) =~= faults.push(Fault::UnknownToken(token@)));
                }
            } else {
                let r = self.parse_node();
                match r {
                    Ok(node) => {
                        if node.is_sentinel() {
                            errors.push(Box::new(ASTError::UnexpectedToken(token)));
                            proof {
                                assert(errors_view(errors@) =~= faults.push(
                                    Fault::UnexpectedToken(token@),
                                ));
                            }
                        } else {
                            let ghost n = node@;
                            program.push(node);
                            proof {
                                assert(nodes_view(program@) =~= before.push(n));
                            }
                        }
                    },
                    Err(error) => {
                        let ghost f = error@;
                        errors.push(error);
                        proof {
                            assert(errors_view(errors@) =~= faults.push(f));
                        }
                    },
                }
            }
        }
    }

    /// Parses one node: a statement, an operand or, at a closing token or a
    /// comma, a sentinel.
    #[verifier::rlimit(20)]
    fn parse_node(&mut self) -> (r: Result<Node, Error>)
        requires
            old(self).wf(),
        ensures
            final(self).follows(old(self)),
            (result_view(r), final(self).cursor()) == node_at(old(self).text(), old(self).cursor()),
            !at_end(old(self).text(), old(self).cursor()) ==> final(self).cursor() > old(
                self,
            ).cursor(),
            r is Ok && !closing(tok(old(self).text(), old(self).cursor()).kind) ==> clean(
                r->Ok_0@,
            ),
            r is Ok && !clean(r->Ok_0@) ==> is_sentinel(r->Ok_0@),
        decreases old(self).text().len() - old(self).cursor(), 4int,
    {
        proof {
            reveal_with_fuel(ASTNode::view, 3);
            reveal_with_fuel(clean, 3);
            self.lemma_cursor();
        }
        let peeked = self.peek();
        let kind = peeked.kind();
        if kind == TokenKind::LeftParenthesis {
            return self.parse_set();
        } else if kind == TokenKind::LeftBrace {
            return self.parse_scope();
        } else if kind == TokenKind::LeftBracket {
            return self.parse_array();
        }
        let token = self.next();
        if kind == TokenKind::Eof {
            Err(Box::new(ASTError::EarlyEOF(token)))
        } else if kind == TokenKind::RightParenthesis {
            Ok(Box::new(ASTNode::ParenDelimiter))
        } else if kind == TokenKind::RightBrace {
            Ok(Box::new(ASTNode::BraceDelimiter))
        } else if kind == TokenKind::RightBracket {
            Ok(Box::new(ASTNode::BracketDelimiter))
        } else if kind == TokenKind::Comma {
            Ok(Box::new(ASTNode::Separator))
        } else if kind == TokenKind::String {
            Ok(Box::new(ASTNode::StringLiteral(token.text())))
        } else if kind == TokenKind::Number {
            Ok(Box::new(ASTNode::NumberLiteral(token.text())))
        } else if kind == TokenKind::Boolean {
            proof {
                reveal_strlit("true");
            }
            Ok(Box::new(ASTNode::BooleanLiteral(is_word(&token.text(), "true"))))
        } else if kind == TokenKind::Type {
            proof {
                reveal_strlit("num");
                reveal_strlit("str");
                reveal_strlit("bool");
            }
            let text = token.text();
            if is_word(&text, "num") {
                Ok(Box::new(ASTNode::NumberType))
            } else if is_word(&text, "str") {
                Ok(Box::new(ASTNode::StringType))
            } else if is_word(&text, "bool") {
                Ok(Box::new(ASTNode::BooleanType))
            } else {
                Err(Box::new(ASTError::UnknownToken(token)))
            }
        } else if kind == TokenKind::Asterisk || kind == TokenKind::Slash || kind
            == TokenKind::Plus || kind == TokenKind::Minus {
            let op = token.to_string();
            match self.parse_expression() {
                Ok(expression) => Ok(
                    Box::new(
                        ASTNode::UnaryExpression(Box::new(ASTNode::Operator(op)), expression),
                    ),
                ),
                Err(error) => Err(error),
            }
        } else if kind == TokenKind::Identifier {
            let id = token.text();
            let following = self.peek().kind();
            if following == TokenKind::LeftParenthesis {
                self.parse_function(id)
            } else if following == TokenKind::Colon || is_assignment(following) {
                self.parse_variable(id)
            } else {
                Ok(Box::new(ASTNode::Identifier(id)))
            }
        } else if kind == TokenKind::Keyword {
            proof {
                reveal_strlit("if");
                reveal_strlit("while");
            }
            let word = token.text();
            if is_word(&word, "if") {
                self.parse_if()
            } else if is_word(&word, "while") {
                self.parse_while()
            } else {
                Err(Box::new(ASTError::UnexpectedToken(token)))
            }
        } else if kind == TokenKind::Unknown {
            Err(Box::new(ASTError::UnknownToken(token)))
        } else {
            Err(Box::new(ASTError::UnexpectedToken(token)))
        }
    }

    /// Parses the members of a group whose opening token was read, up to and
    /// including the closing token `close`.
    fn collect_group(&mut self, close: TokenKind) -> (r: (Nodes, Errors))
        requires
            old(self).wf(),
        ensures
            final(self).follows(old(self)),
            (nodes_view(r.0@), errors_view(r.1@), final(self).cursor()) == group_at(
                old(self).text(),
                old(self).cursor(),
                close,
                seq![],
                seq![],
            ),
            all_clean(nodes_view(r.0@)),
        decreases old(self).text().len() - old(self).cursor(), 11int,
    {
        proof {
            self.lemma_cursor();
        }
        let ghost s = self.text();
        let ghost i0 = self.cursor();
        let mut items: Nodes = Vec::new();
        let mut errors: Errors = Vec::new();
        proof {
            assert(nodes_view(items@) =~= seq![]);
            assert(errors_view(errors@) =~= seq![]);
        }
        loop
            invariant
                self.wf(),
                self.text() == s,
                s == old(self).text(),
                i0 == old(self).cursor(),
                i0 <= self.cursor() <= s.len(),
                group_at(s, self.cursor(), close, nodes_view(items@), errors_view(errors@))
                    == group_at(s, i0, close, seq![], seq![]),
                all_clean(nodes_view(items@)),
            decreases s.len() - self.cursor(),
        {
            let ghost before = nodes_view(items@);
            let ghost faults = errors_view(errors@);
            let token = self.peek();
            let kind = token.kind();
            if kind == TokenKind::Eof {
                let token = self.next();
                errors.push(Box::new(ASTError::EarlyEOF(token)));
                proof {
                    assert(errors_view(errors@) =~= faults.push(Fault::EarlyEOF(token@)));
                }
                return (items, errors);
            } else if kind == close {
                self.next();
                return (items, errors);
            }
            match self.parse_node() {
                Ok(node) => {
                    if node.is_separator() {
                        // A comma only separates members.
                    } else if node.is_sentinel() {
                        errors.push(Box::new(ASTError::UnexpectedToken(token)));
                        proof {
                            assert(errors_view(errors@) =~= faults.push(
                                Fault::UnexpectedToken(token@),
                            ));
                        }
                    } else {
                        let ghost n = node@;
                        items.push(node);
                        proof {
                            assert(nodes_view(items@) =~= before.push(n));
                        }
                    }
                },
                Err(error) => {
                    let ghost f = error@;
                    errors.push(error);
                    proof {
                        assert(errors_view(errors@) =~= faults.push(f));
                    }
                },
            }
        }
    }

    /// Parses a parenthesised group: parameters where `{` or `:` follows it,
    /// arguments otherwise.
    fn parse_set(&mut self) -> (r: Result<Node, Error>)
        requires
            old(self).wf(),
            tok(old(self).text(), old(self).cursor()).kind == TokenKind::LeftParenthesis,
        ensures
            final(self).follows(old(self)),
            (result_view(r), final(self).cursor()) == set_at(old(self).text(), old(self).cursor()),
            final(self).cursor() > old(self).cursor(),
            clean_result(result_view(r)),
        decreases old(self).text().len() - old(self).cursor(), 2int,
    {
        proof {
            self.lemma_cursor();
        }
        self.next();
        let (items, errors) = self.collect_group(TokenKind::RightParenthesis);
        proof {
            lemma_group_views(items);
            lemma_errors_view(errors);
        }
        if errors.len() > 0 {
            Err(Box::new(ASTError::Errors(errors)))
        } else {
            let following = self.peek().kind();
            if following == TokenKind::LeftBrace || following == TokenKind::Colon {
                Ok(Box::new(ASTNode::Parameters(items)))
            } else {
                Ok(Box::new(ASTNode::Arguments(items)))
            }
        }
    }

    /// Parses a block, which must open with `{`.
    fn parse_scope(&mut self) -> (r: Result<Node, Error>)
        requires
            old(self).wf(),
        ensures
            final(self).follows(old(self)),
            (result_view(r), final(self).cursor()) == scope_at(old(self).text(), old(self).cursor()),
            !at_end(old(self).text(), old(self).cursor()) ==> final(self).cursor() > old(
                self,
            ).cursor(),
            clean_result(result_view(r)),
        decreases old(self).text().len() - old(self).cursor(), 2int,
    {
        proof {
            self.lemma_cursor();
        }
        let token = self.next();
        let kind = token.kind();
        if kind == TokenKind::Eof {
            return Err(Box::new(ASTError::EarlyEOF(token)));
        } else if kind != TokenKind::LeftBrace {
            return Err(Box::new(ASTError::UnexpectedToken(token)));
        }
        let (statements, errors) = self.collect_group(TokenKind::RightBrace);
        proof {
            lemma_group_views(statements);
            lemma_errors_view(errors);
        }
        if errors.len() > 0 {
            Err(Box::new(ASTError::Errors(errors)))
        } else {
            Ok(Box::new(ASTNode::Block(statements)))
        }
    }

    /// Parses an array, which opens with `[`.
    fn parse_array(&mut self) -> (r: Result<Node, Error>)
        requires
            old(self).wf(),
            tok(old(self).text(), old(self).cursor()).kind == TokenKind::LeftBracket,
        ensures
            final(self).follows(old(self)),
            (result_view(r), final(self).cursor()) == array_at(old(self).text(), old(self).cursor()),
            final(self).cursor() > old(self).cursor(),
            clean_result(result_view(r)),
        decreases old(self).text().len() - old(self).cursor(), 2int,
    {
        proof {
            self.lemma_cursor();
        }
        self.next();
        let (elements, errors) = self.collect_group(TokenKind::RightBracket);
        proof {
            lemma_group_views(elements);
            lemma_errors_view(errors);
        }
        if errors.len() > 0 {
            Err(Box::new(ASTError::Errors(errors)))
        } else {
            Ok(Box::new(ASTNode::Array(elements)))
        }
    }

    /// Parses an operand: a node that is no sentinel. At the end of the text
    /// or at a closing token it fails and leaves the token unread.
    fn parse_operand(&mut self) -> (r: Result<Node, Error>)
        requires
            old(self).wf(),
        ensures
            final(self).follows(old(self)),
            (result_view(r), final(self).cursor()) == operand_at(
                old(self).text(),
                old(self).cursor(),
            ),
            r is Ok ==> final(self).cursor() > old(self).cursor(),
            clean_result(result_view(r)),
        decreases old(self).text().len() - old(self).cursor(), 5int,
    {
        proof {
            self.lemma_cursor();
        }
        let token = self.peek();
        let kind = token.kind();
        if kind == TokenKind::Eof {
            Err(Box::new(ASTError::EarlyEOF(token)))
        } else if is_closing(kind) {
            Err(Box::new(ASTError::UnexpectedToken(token)))
        } else {
            self.parse_node()
        }
    }

    /// Parses a type annotation.
    fn parse_type(&mut self) -> (r: Result<Node, Error>)
        requires
            old(self).wf(),
        ensures
            final(self).follows(old(self)),
            (result_view(r), final(self).cursor()) == operand_at(
                old(self).text(),
                old(self).cursor(),
            ),
            r is Ok ==> final(self).cursor() > old(self).cursor(),
            clean_result(result_view(r)),
        decreases old(self).text().len() - old(self).cursor(), 6int,
    {
        proof {
            self.lemma_cursor();
        }
        self.parse_operand()
    }

    /// Reads a prefix operator of a factor, if one comes next.
    fn match_unary_operator(&mut self) -> (r: Option<String>)
        requires
            old(self).wf(),
        ensures
            final(self).follows(old(self)),
            factor_prefix(tok(old(self).text(), old(self).cursor()).kind) ==> r is Some && r->Some_0@ == display(tok(old(self).text(), old(self).cursor()))
                && final(self).cursor() == after(old(self).text(), old(self).cursor())
                && moved(old(self).text(), old(self).cursor(), final(self).cursor()),
            !factor_prefix(tok(old(self).text(), old(self).cursor()).kind) ==> r is None
                && final(self).cursor() == old(self).cursor(),
    {
        proof {
            self.lemma_cursor();
        }
        let kind = self.peek().kind();
        if kind == TokenKind::ExplinationMark || kind == TokenKind::Plus || kind
            == TokenKind::Minus {
            Some(self.next().to_string())
        } else {
            None
        }
    }

    /// Parses a factor: an operand under any number of prefix operators.
    fn parse_factor(&mut self) -> (r: Result<Node, Error>)
        requires
            old(self).wf(),
        ensures
            final(self).follows(old(self)),
            (result_view(r), final(self).cursor()) == factor_at(old(self).text(), old(self).cursor()),
            r is Ok ==> final(self).cursor() > old(self).cursor(),
            clean_result(result_view(r)),
        decreases old(self).text().len() - old(self).cursor(), 6int,
    {
        proof {
            reveal_with_fuel(ASTNode::view, 3);
            reveal_with_fuel(clean, 3);
            self.lemma_cursor();
        }
        match self.match_unary_operator() {
            Some(op) => match self.parse_factor() {
                Ok(expression) => Ok(
                    Box::new(
                        ASTNode::UnaryExpression(Box::new(ASTNode::Operator(op)), expression),
                    ),
                ),
                Err(error) => Err(error),
            },
            None => self.parse_operand(),
        }
    }
    /// Reads a binary operator of the tighter level, if one comes next.
    fn match_multiplicative_operator(&mut self) -> (r: Option<String>)
        requires
            old(self).wf(),
        ensures
            final(self).follows(old(self)),
            multiplicative(tok(old(self).text(), old(self).cursor()).kind) ==> r is Some && r->Some_0@ == display(tok(old(self).text(), old(self).cursor()))
                && final(self).cursor() == after(old(self).text(), old(self).cursor())
                && moved(old(self).text(), old(self).cursor(), final(self).cursor()),
            !multiplicative(tok(old(self).text(), old(self).cursor()).kind) ==> r is None
                && final(self).cursor() == old(self).cursor(),
    {
        proof {
            self.lemma_cursor();
        }
        let kind = self.peek().kind();
        if kind == TokenKind::Asterisk || kind == TokenKind::Slash || kind == TokenKind::Percent
            || kind == TokenKind::Caret {
            Some(self.next().to_string())
        } else {
            None
        }
    }

    /// Reads a binary operator of the looser level, if one comes next.
    fn match_binary_operator(&mut self) -> (r: Option<String>)
        requires
            old(self).wf(),
        ensures
            final(self).follows(old(self)),
            additive(tok(old(self).text(), old(self).cursor()).kind) ==> r is Some
                && r->Some_0@ == display(tok(old(self).text(), old(self).cursor()))
                && final(self).cursor() == after(old(self).text(), old(self).cursor())
                && moved(old(self).text(), old(self).cursor(), final(self).cursor()),
            !additive(tok(old(self).text(), old(self).cursor()).kind) ==> r is None
                && final(self).cursor() == old(self).cursor(),
    {
        proof {
            self.lemma_cursor();
        }
        let kind = self.peek().kind();
        if kind == TokenKind::Plus || kind == TokenKind::Minus || kind == TokenKind::Equals || kind
            == TokenKind::NotEqual || kind == TokenKind::GreaterThan || kind
            == TokenKind::GreaterThanOrEqual || kind == TokenKind::LessThan || kind
            == TokenKind::LessThanOrEqual || kind == TokenKind::And || kind == TokenKind::Or || kind
            == TokenKind::At || kind == TokenKind::In || kind == TokenKind::As {
            Some(self.next().to_string())
        } else {
            None
        }
    }

    /// Parses a term: factors joined by operators of the tighter level,
    /// folded to the left.
    fn parse_term(&mut self) -> (r: Result<Node, Error>)
        requires
            old(self).wf(),
        ensures
            final(self).follows(old(self)),
            (result_view(r), final(self).cursor()) == term_at(old(self).text(), old(self).cursor()),
            r is Ok ==> final(self).cursor() > old(self).cursor(),
            clean_result(result_view(r)),
        decreases old(self).text().len() - old(self).cursor(), 8int,
    {
        proof {
            reveal_with_fuel(ASTNode::view, 3);
            reveal_with_fuel(clean, 3);
            self.lemma_cursor();
        }
        let ghost s = self.text();
        let ghost i0 = self.cursor();
        let mut left = match self.parse_factor() {
            Ok(node) => node,
            Err(error) => return Err(error),
        };
        loop
            invariant
                self.wf(),
                self.text() == s,
                s == old(self).text(),
                i0 == old(self).cursor(),
                i0 < self.cursor() <= s.len(),
                term_rest(s, self.cursor(), left@) == term_at(s, i0),
                clean(left@),
            decreases s.len() - self.cursor(),
        {
            proof {
                reveal_with_fuel(ASTNode::view, 3);
                reveal_with_fuel(clean, 3);
            }
            match self.match_multiplicative_operator() {
                Some(op) => match self.parse_factor() {
                    Ok(right) => {
                        left = Box::new(
                            ASTNode::BinaryExpression(left, Box::new(ASTNode::Operator(op)), right),
                        );
                    },
                    Err(error) => return Err(error),
                },
                None => return Ok(left),
            }
        }
    }

    /// Parses an expression: terms joined by operators of the looser level,
    /// folded to the left.
    fn parse_expression(&mut self) -> (r: Result<Node, Error>)
        requires
            old(self).wf(),
        ensures
            final(self).follows(old(self)),
            (result_view(r), final(self).cursor()) == expression_at(
                old(self).text(),
                old(self).cursor(),
            ),
            r is Ok ==> final(self).cursor() > old(self).cursor(),
            clean_result(result_view(r)),
        decreases old(self).text().len() - old(self).cursor(), 10int,
    {
        proof {
            reveal_with_fuel(ASTNode::view, 3);
            reveal_with_fuel(clean, 3);
            self.lemma_cursor();
        }
        let ghost s = self.text();
        let ghost i0 = self.cursor();
        let mut left = match self.parse_term() {
            Ok(node) => node,
            Err(error) => return Err(error),
        };
        loop
            invariant
                self.wf(),
                self.text() == s,
                s == old(self).text(),
                i0 == old(self).cursor(),
                i0 < self.cursor() <= s.len(),
                expression_rest(s, self.cursor(), left@) == expression_at(s, i0),
                clean(left@),
            decreases s.len() - self.cursor(),
        {
            proof {
                reveal_with_fuel(ASTNode::view, 3);
                reveal_with_fuel(clean, 3);
            }
            match self.match_binary_operator() {
                Some(op) => match self.parse_term() {
                    Ok(right) => {
                        left = Box::new(
                            ASTNode::BinaryExpression(left, Box::new(ASTNode::Operator(op)), right),
                        );
                    },
                    Err(error) => return Err(error),
                },
                None => return Ok(left),
            }
        }
    }

    /// Parses what follows the name `id` of a variable: a type annotation,
    /// with or without an initializer, or an assignment.
    #[verifier::rlimit(20)]
    fn parse_variable(&mut self, id: String) -> (r: Result<Node, Error>)
        requires
            old(self).wf(),
        ensures
            final(self).follows(old(self)),
            (result_view(r), final(self).cursor()) == variable_at(
                old(self).text(),
                old(self).cursor(),
                id@,
            ),
            clean_result(result_view(r)),
        decreases old(self).text().len() - old(self).cursor(), 1int,
    {
        proof {
            reveal_with_fuel(ASTNode::view, 3);
            reveal_with_fuel(clean, 3);
            self.lemma_cursor();
        }
        let token = self.next();
        let kind = token.kind();
        if kind == TokenKind::Eof {
            Err(Box::new(ASTError::EarlyEOF(token)))
        } else if kind == TokenKind::Colon {
            let t = match self.parse_type() {
                Ok(t) => t,
                Err(error) => return Err(error),
            };
            if self.peek().kind() == TokenKind::Equal {
                self.next();
                match self.parse_expression() {
                    Ok(expression) => Ok(
                        Box::new(
                            ASTNode::VariableDefinition(
                                Box::new(ASTNode::Identifier(id)),
                                Box::new(ASTNode::Type(Some(t))),
                                expression,
                            ),
                        ),
                    ),
                    Err(error) => Err(error),
                }
            } else {
                Ok(Box::new(ASTNode::VariableDeclaration(Box::new(ASTNode::Identifier(id)), t)))
            }
        } else if kind == TokenKind::Equal {
            match self.parse_expression() {
                Ok(expression) => Ok(
                    Box::new(
                        ASTNode::VariableDefinition(
                            Box::new(ASTNode::Identifier(id)),
                            Box::new(ASTNode::Type(None)),
                            expression,
                        ),
                    ),
                ),
                Err(error) => Err(error),
            }
        } else if is_assignment(kind) {
            match self.parse_expression() {
                Ok(expression) => {
                    let target = id.clone();
                    Ok(
                        Box::new(
                            ASTNode::VariableDefinition(
                                Box::new(ASTNode::Identifier(id)),
                                Box::new(ASTNode::Type(None)),
                                Box::new(
                                    ASTNode::BinaryExpression(
                                        Box::new(ASTNode::Identifier(target)),
                                        Box::new(ASTNode::Operator(compound_operator_text(kind))),
                                        expression,
                                    ),
                                ),
                            ),
                        ),
                    )
                },
                Err(error) => Err(error),
            }
        } else {
            Err(Box::new(ASTError::UnexpectedToken(token)))
        }
    }

    /// Parses the return type after a `:`.
    fn parse_return(&mut self) -> (r: Result<Node, Error>)
        requires
            old(self).wf(),
        ensures
            final(self).follows(old(self)),
            (result_view(r), final(self).cursor()) == return_at(
                old(self).text(),
                old(self).cursor(),
            ),
            clean_result(result_view(r)),
        decreases old(self).text().len() - old(self).cursor(), 1int,
    {
        proof {
            self.lemma_cursor();
        }
        let token = self.next();
        if token.kind() == TokenKind::Eof {
            Err(Box::new(ASTError::EarlyEOF(token)))
        } else {
            self.parse_type()
        }
    }

    /// Parses a call of `id`, or its definition where a block or a return
    /// type follows the parenthesised group.
    #[verifier::rlimit(20)]
    fn parse_function(&mut self, id: String) -> (r: Result<Node, Error>)
        requires
            old(self).wf(),
            tok(old(self).text(), old(self).cursor()).kind == TokenKind::LeftParenthesis,
        ensures
            final(self).follows(old(self)),
            (result_view(r), final(self).cursor()) == function_at(
                old(self).text(),
                old(self).cursor(),
                id@,
            ),
            clean_result(result_view(r)),
        decreases old(self).text().len() - old(self).cursor(), 3int,
    {
        proof {
            reveal_with_fuel(ASTNode::view, 3);
            reveal_with_fuel(clean, 3);
            self.lemma_cursor();
        }
        let parameters = match self.parse_set() {
            Ok(p) => p,
            Err(error) => return Err(error),
        };
        let following = self.peek().kind();
        if following == TokenKind::LeftBrace {
            match self.parse_scope() {
                Ok(body) => Ok(
                    Box::new(
                        ASTNode::FunctionDefinition(
                            Box::new(ASTNode::Identifier(id)),
                            parameters,
                            Box::new(ASTNode::Return(None)),
                            body,
                        ),
                    ),
                ),
                Err(error) => Err(error),
            }
        } else if following == TokenKind::Colon {
            let ret = match self.parse_return() {
                Ok(ret) => ret,
                Err(error) => return Err(error),
            };
            match self.parse_scope() {
                Ok(body) => Ok(
                    Box::new(
                        ASTNode::FunctionDefinition(
                            Box::new(ASTNode::Identifier(id)),
                            parameters,
                            Box::new(ASTNode::Return(Some(ret))),
                            body,
                        ),
                    ),
                ),
                Err(error) => Err(error),
            }
        } else {
            Ok(Box::new(ASTNode::FunctionCall(Box::new(ASTNode::Identifier(id)), parameters)))
        }
    }

    /// Parses the optional else branch of an `if`.
    fn parse_else(&mut self) -> (r: Result<Node, Error>)
        requires
            old(self).wf(),
        ensures
            final(self).follows(old(self)),
            (result_view(r), final(self).cursor()) == else_at(old(self).text(), old(self).cursor()),
            clean_result(result_view(r)),
        decreases old(self).text().len() - old(self).cursor(), 3int,
    {
        proof {
            self.lemma_cursor();
        }
        proof {
            reveal_strlit("else");
            reveal_strlit("if");
            self.lemma_cursor();
        }
        let token = self.peek();
        if token.kind() == TokenKind::Keyword && is_word(&token.text(), "else") {
            self.next();
            let following = self.peek();
            if following.kind() == TokenKind::Keyword && is_word(&following.text(), "if") {
                self.parse_node()
            } else {
                self.parse_scope()
            }
        } else {
            let empty: Nodes = Vec::new();
            proof {
                lemma_group_views(empty);
                assert(nodes_view(empty@) =~= seq![]);
            }
            Ok(Box::new(ASTNode::Block(empty)))
        }
    }

    /// Parses the rest of an `if` statement: condition, block and else branch.
    fn parse_if(&mut self) -> (r: Result<Node, Error>)
        requires
            old(self).wf(),
        ensures
            final(self).follows(old(self)),
            (result_view(r), final(self).cursor()) == if_at(old(self).text(), old(self).cursor()),
            clean_result(result_view(r)),
        decreases old(self).text().len() - old(self).cursor(), 12int,
    {
        proof {
            self.lemma_cursor();
        }
        let condition = match self.parse_expression() {
            Ok(c) => c,
            Err(error) => return Err(error),
        };
        let body = match self.parse_scope() {
            Ok(b) => b,
            Err(error) => return Err(error),
        };
        match self.parse_else() {
            Ok(otherwise) => Ok(Box::new(ASTNode::If(condition, body, otherwise))),
            Err(error) => Err(error),
        }
    }

    /// Parses the rest of a `while` statement: condition and block.
    fn parse_while(&mut self) -> (r: Result<Node, Error>)
        requires
            old(self).wf(),
        ensures
            final(self).follows(old(self)),
            (result_view(r), final(self).cursor()) == while_at(old(self).text(), old(self).cursor()),
            clean_result(result_view(r)),
        decreases old(self).text().len() - old(self).cursor(), 12int,
    {
        proof {
            self.lemma_cursor();
        }
        let condition = match self.parse_expression() {
            Ok(c) => c,
            Err(error) => return Err(error),
        };
        match self.parse_scope() {
            Ok(body) => Ok(Box::new(ASTNode::While(condition, body))),
            Err(error) => Err(error),
        }
    }
}

} // verus!
