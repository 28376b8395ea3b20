use vstd::prelude::*;
use vstd::string::*;

use crate::tokens::{Token, TokenView};

verus! {

/// Alias for a boxed node.
pub type Node = Box<ASTNode>;

/// Vector of nodes.
pub type Nodes = Vec<Node>;

/// A parsed program: its top-level nodes.
pub type Tree = Nodes;

/// Alias for a boxed error.
pub type Error = Box<ASTError>;

/// Vector of errors.
pub type Errors = Vec<Error>;

/// A node of the syntax tree; each node owns its children.
#[derive(Debug, PartialEq, Eq)]
pub enum ASTNode {
    StringType,
    StringLiteral(String),
    BooleanType,
    BooleanLiteral(bool),
    NumberType,
    NumberLiteral(String),
    Identifier(String),
    Operator(String),
    /// The annotation slot of a declaration: `None` where no type was written.
    Type(Option<Node>),
    /// Unary expression: (operator, operand)
    UnaryExpression(Node, Node),
    /// Binary expression: (left, operator, right)
    BinaryExpression(Node, Node, Node),
    /// Variable declaration without initializer: (identifier, type)
    VariableDeclaration(Node, Node),
    /// Variable definition: (identifier, type, expression)
    VariableDefinition(Node, Node, Node),
    /// Function definition: (identifier, parameters, return, body)
    FunctionDefinition(Node, Node, Node, Node),
    Parameters(Nodes),
    Arguments(Nodes),
    /// Function call: (identifier, arguments)
    FunctionCall(Node, Node),
    /// Return type of a function: `None` where none was written.
    Return(Option<Node>),
    Block(Nodes),
    Array(Nodes),
    /// (condition, then branch, else branch); the else branch is an empty
    /// block where none was written.
    If(Node, Node, Node),
    /// (condition, body)
    While(Node, Node),
    /// Signals to a group that a `)` was read; never part of a result.
    ParenDelimiter,
    /// Signals to a group that a `}` was read; never part of a result.
    BraceDelimiter,
    /// Signals to a group that a `]` was read; never part of a result.
    BracketDelimiter,
    /// Signals to a group that a `,` was read; never part of a result.
    Separator,
}

/// A syntax error, with the token at which it was found.
#[derive(Debug, PartialEq, Eq)]
pub enum ASTError {
    UnknownToken(Token),
    UnexpectedToken(Token),
    EarlyEOF(Token),
    /// The errors collected inside one group (parameters, block or array).
    Errors(Errors),
}

/// A node as a plain value, with texts as sequences of characters.
pub enum Syntax {
    StringType,
    StringLiteral(Seq<char>),
    BooleanType,
    BooleanLiteral(bool),
    NumberType,
    NumberLiteral(Seq<char>),
    Identifier(Seq<char>),
    Operator(Seq<char>),
    Type(Option<Box<Syntax>>),
    UnaryExpression(Box<Syntax>, Box<Syntax>),
    BinaryExpression(Box<Syntax>, Box<Syntax>, Box<Syntax>),
    VariableDeclaration(Box<Syntax>, Box<Syntax>),
    VariableDefinition(Box<Syntax>, Box<Syntax>, Box<Syntax>),
    FunctionDefinition(Box<Syntax>, Box<Syntax>, Box<Syntax>, Box<Syntax>),
    Parameters(Seq<Syntax>),
    Arguments(Seq<Syntax>),
    FunctionCall(Box<Syntax>, Box<Syntax>),
    Return(Option<Box<Syntax>>),
    Block(Seq<Syntax>),
    Array(Seq<Syntax>),
    If(Box<Syntax>, Box<Syntax>, Box<Syntax>),
    While(Box<Syntax>, Box<Syntax>),
    ParenDelimiter,
    BraceDelimiter,
    BracketDelimiter,
    Separator,
}

/// An error as a plain value.
pub enum Fault {
    UnknownToken(TokenView),
    UnexpectedToken(TokenView),
    EarlyEOF(TokenView),
    Errors(Seq<Fault>),
}

impl ASTNode {
    pub open spec fn view(&self) -> Syntax
        decreases self,
    {
        match self {
            ASTNode::StringType => Syntax::StringType,
            ASTNode::StringLiteral(s) => Syntax::StringLiteral(s@),
            ASTNode::BooleanType => Syntax::BooleanType,
            ASTNode::BooleanLiteral(b) => Syntax::BooleanLiteral(*b),
            ASTNode::NumberType => Syntax::NumberType,
            ASTNode::NumberLiteral(s) => Syntax::NumberLiteral(s@),
            ASTNode::Identifier(s) => Syntax::Identifier(s@),
            ASTNode::Operator(s) => Syntax::Operator(s@),
            ASTNode::Type(t) => match t {
                Some(n) => Syntax::Type(Some(Box::new(n.view()))),
                None => Syntax::Type(None),
            },
            ASTNode::UnaryExpression(a, b) => Syntax::UnaryExpression(
                Box::new(a.view()),
                Box::new(b.view()),
            ),
            ASTNode::BinaryExpression(a, b, c) => Syntax::BinaryExpression(
                Box::new(a.view()),
                Box::new(b.view()),
                Box::new(c.view()),
            ),
            ASTNode::VariableDeclaration(a, b) => Syntax::VariableDeclaration(
                Box::new(a.view()),
                Box::new(b.view()),
            ),
            ASTNode::VariableDefinition(a, b, c) => Syntax::VariableDefinition(
                Box::new(a.view()),
                Box::new(b.view()),
                Box::new(c.view()),
            ),
            ASTNode::FunctionDefinition(a, b, c, d) => Syntax::FunctionDefinition(
                Box::new(a.view()),
                Box::new(b.view()),
                Box::new(c.view()),
                Box::new(d.view()),
            ),
            ASTNode::Parameters(v) => Syntax::Parameters(
                Seq::new(v.len() as nat, |i: int| if 0 <= i < v.len() { v[i].view() } else { Syntax::Separator }),
            ),
            ASTNode::Arguments(v) => Syntax::Arguments(
                Seq::new(v.len() as nat, |i: int| if 0 <= i < v.len() { v[i].view() } else { Syntax::Separator }),
            ),
            ASTNode::FunctionCall(a, b) => Syntax::FunctionCall(
                Box::new(a.view()),
                Box::new(b.view()),
            ),
            ASTNode::Return(t) => match t {
                Some(n) => Syntax::Return(Some(Box::new(n.view()))),
                None => Syntax::Return(None),
            },
            ASTNode::Block(v) => Syntax::Block(
                Seq::new(v.len() as nat, |i: int| if 0 <= i < v.len() { v[i].view() } else { Syntax::Separator }),
            ),
            ASTNode::Array(v) => Syntax::Array(
                Seq::new(v.len() as nat, |i: int| if 0 <= i < v.len() { v[i].view() } else { Syntax::Separator }),
            ),
            ASTNode::If(a, b, c) => Syntax::If(
                Box::new(a.view()),
                Box::new(b.view()),
                Box::new(c.view()),
            ),
            ASTNode::While(a, b) => Syntax::While(Box::new(a.view()), Box::new(b.view())),
            ASTNode::ParenDelimiter => Syntax::ParenDelimiter,
            ASTNode::BraceDelimiter => Syntax::BraceDelimiter,
            ASTNode::BracketDelimiter => Syntax::BracketDelimiter,
            ASTNode::Separator => Syntax::Separator,
        }
    }
}

impl ASTError {
    pub open spec fn view(&self) -> Fault
        decreases self,
    {
        match self {
            ASTError::UnknownToken(t) => Fault::UnknownToken(t@),
            ASTError::UnexpectedToken(t) => Fault::UnexpectedToken(t@),
            ASTError::EarlyEOF(t) => Fault::EarlyEOF(t@),
            ASTError::Errors(v) => Fault::Errors(
                Seq::new(v.len() as nat, |i: int| if 0 <= i < v.len() { v[i].view() } else { Fault::Errors(Seq::empty()) }),
            ),
        }
    }
}

impl ASTNode {
    /// Whether the node is one of the signals that a group uses to stop.
    pub fn is_sentinel(&self) -> (r: bool)
        ensures
            r == is_sentinel(self@),
    {
        match self {
            ASTNode::ParenDelimiter => true,
            ASTNode::BraceDelimiter => true,
            ASTNode::BracketDelimiter => true,
            ASTNode::Separator => true,
            _ => false,
        }
    }

    /// Whether the node is the signal of a comma.
    pub fn is_separator(&self) -> (r: bool)
        ensures
            r == (self@ is Separator),
    {
        match self {
            ASTNode::Separator => true,
            _ => false,
        }
    }
}

/// The views of a vector of nodes.
pub open spec fn nodes_view(v: Seq<Node>) -> Seq<Syntax> {
    Seq::new(v.len(), |i: int| v[i]@)
}

/// The views of a vector of errors.
pub open spec fn errors_view(v: Seq<Error>) -> Seq<Fault> {
    Seq::new(v.len(), |i: int| v[i]@)
}

/// Whether a node is one of the signals that a group uses to stop.
pub open spec fn is_sentinel(n: Syntax) -> bool {
    n is ParenDelimiter || n is BraceDelimiter || n is BracketDelimiter || n is Separator
}

/// Whether no node of a tree, at any depth, is a sentinel.
pub open spec fn clean(n: Syntax) -> bool
    decreases n,
{
    match n {
        Syntax::Type(Some(a)) => clean(*a),
        Syntax::Return(Some(a)) => clean(*a),
        Syntax::UnaryExpression(a, b) => clean(*a) && clean(*b),
        Syntax::VariableDeclaration(a, b) => clean(*a) && clean(*b),
        Syntax::FunctionCall(a, b) => clean(*a) && clean(*b),
        Syntax::While(a, b) => clean(*a) && clean(*b),
        Syntax::BinaryExpression(a, b, c) => clean(*a) && clean(*b) && clean(*c),
        Syntax::VariableDefinition(a, b, c) => clean(*a) && clean(*b) && clean(*c),
        Syntax::If(a, b, c) => clean(*a) && clean(*b) && clean(*c),
        Syntax::FunctionDefinition(a, b, c, d) => clean(*a) && clean(*b) && clean(*c) && clean(*d),
        Syntax::Parameters(v) => forall|i: int| 0 <= i < v.len() ==> clean(#[trigger] v[i]),
        Syntax::Arguments(v) => forall|i: int| 0 <= i < v.len() ==> clean(#[trigger] v[i]),
        Syntax::Block(v) => forall|i: int| 0 <= i < v.len() ==> clean(#[trigger] v[i]),
        Syntax::Array(v) => forall|i: int| 0 <= i < v.len() ==> clean(#[trigger] v[i]),
        _ => !is_sentinel(n),
    }
}

/// Whether every tree of a sequence is clean.
pub open spec fn all_clean(v: Seq<Syntax>) -> bool {
    forall|i: int| 0 <= i < v.len() ==> clean(#[trigger] v[i])
}

/// How a node is written out: literals as in source, expressions in
/// parentheses, groups with their separators.
pub open spec fn render(n: Syntax) -> Seq<char>
    decreases n, 1int,
{
    match n {
        Syntax::StringType => "str"@,
        Syntax::BooleanType => "bool"@,
        Syntax::NumberType => "num"@,
        Syntax::StringLiteral(v) => "\""@ + v + "\""@,
        Syntax::BooleanLiteral(b) => if b {
            "true"@
        } else {
            "false"@
        },
        Syntax::NumberLiteral(v) => v,
        Syntax::Identifier(v) => v,
        Syntax::Operator(v) => v,
        Syntax::Type(t) => match t {
            Some(a) => render(*a),
            None => "none"@,
        },
        Syntax::Return(t) => match t {
            Some(a) => render(*a),
            None => "none"@,
        },
        Syntax::UnaryExpression(a, b) => "("@ + render(*a) + " "@ + render(*b) + ")"@,
        Syntax::BinaryExpression(a, b, c) => "("@ + render(*a) + " "@ + render(*b) + " "@ + render(
            *c,
        ) + ")"@,
        Syntax::VariableDeclaration(a, b) => render(*a) + ": "@ + render(*b),
        Syntax::VariableDefinition(a, b, c) => render(*a) + ": "@ + render(*b) + " = "@ + render(*c),
        Syntax::FunctionDefinition(a, b, c, d) => render(*a) + "("@ + render(*b) + "): "@ + render(
            *c,
        ) + " "@ + render(*d),
        Syntax::Parameters(v) => "("@ + render_join(v, ", "@) + ")"@,
        Syntax::Arguments(v) => "("@ + render_join(v, ", "@) + ")"@,
        Syntax::FunctionCall(a, b) => render(*a) + "("@ + render(*b) + ")"@,
        Syntax::Block(v) => "{\n"@ + render_join(v, "\n"@) + "\n}"@,
        Syntax::Array(v) => "["@ + render_join(v, ", "@) + "]"@,
        Syntax::If(a, b, c) => "if "@ + render(*a) + " "@ + render(*b) + " else "@ + render(*c),
        Syntax::While(a, b) => "while "@ + render(*a) + " "@ + render(*b),
        Syntax::ParenDelimiter => ")"@,
        Syntax::BraceDelimiter => "}"@,
        Syntax::BracketDelimiter => "]"@,
        Syntax::Separator => ","@,
    }
}

/// The nodes of a sequence written out with `sep` between each two.
pub open spec fn render_join(v: Seq<Syntax>, sep: Seq<char>) -> Seq<char>
    decreases v, 0int,
{
    if v.len() == 0 {
        Seq::empty()
    } else if v.len() == 1 {
        render(v[0])
    } else {
        render_join(v.subrange(0, v.len() - 1), sep) + sep + render(v[v.len() - 1])
    }
}

impl ASTNode {
    /// Writes the node out as `render` describes.
    pub fn to_string(&self) -> (r: String)
        ensures
            r@ == render(self@),
        decreases self,
    {
        proof {
            reveal_strlit("str");
            reveal_strlit("bool");
            reveal_strlit("num");
            reveal_strlit("\"");
            reveal_strlit("true");
            reveal_strlit("false");
            reveal_strlit("none");
            reveal_strlit("(");
            reveal_strlit(")");
            reveal_strlit(" ");
            reveal_strlit(": ");
            reveal_strlit(" = ");
            reveal_strlit("): ");
            reveal_strlit(", ");
            reveal_strlit("{\n");
            reveal_strlit("\n");
            reveal_strlit("\n}");
            reveal_strlit("[");
            reveal_strlit("]");
            reveal_strlit("if ");
            reveal_strlit(" else ");
            reveal_strlit("while ");
            reveal_strlit("}");
            reveal_strlit(",");
        }
        match self {
            ASTNode::StringType => String::from_str("str"),
            ASTNode::BooleanType => String::from_str("bool"),
            ASTNode::NumberType => String::from_str("num"),
            ASTNode::StringLiteral(v) => String::from_str("\"").concat(v.as_str()).concat("\""),
            ASTNode::BooleanLiteral(b) => if *b {
                String::from_str("true")
            } else {
                String::from_str("false")
            },
            ASTNode::NumberLiteral(v) => v.clone(),
            ASTNode::Identifier(v) => v.clone(),
            ASTNode::Operator(v) => v.clone(),
            ASTNode::Type(t) => match t {
                Some(a) => a.to_string(),
                None => String::from_str("none"),
            },
            ASTNode::Return(t) => match t {
                Some(a) => a.to_string(),
                None => String::from_str("none"),
            },
            ASTNode::UnaryExpression(a, b) => String::from_str("(").concat(a.to_string().as_str()).concat(
                " ",
            ).concat(b.to_string().as_str()).concat(")"),
            ASTNode::BinaryExpression(a, b, c) => String::from_str("(").concat(
                a.to_string().as_str(),
            ).concat(" ").concat(b.to_string().as_str()).concat(" ").concat(
                c.to_string().as_str(),
            ).concat(")"),
            ASTNode::VariableDeclaration(a, b) => a.to_string().concat(": ").concat(
                b.to_string().as_str(),
            ),
            ASTNode::VariableDefinition(a, b, c) => a.to_string().concat(": ").concat(
                b.to_string().as_str(),
            ).concat(" = ").concat(c.to_string().as_str()),
            ASTNode::FunctionDefinition(a, b, c, d) => a.to_string().concat("(").concat(
                b.to_string().as_str(),
            ).concat("): ").concat(c.to_string().as_str()).concat(" ").concat(
                d.to_string().as_str(),
            ),
            ASTNode::Parameters(v) => {
                proof {
                    lemma_group_views(*v);
                }
                String::from_str("(").concat(
                Self::join(v, ", ").as_str(),
            ).concat(")")
            },
            ASTNode::Arguments(v) => {
                proof {
                    lemma_group_views(*v);
                }
                String::from_str("(").concat(Self::join(v, ", ").as_str()).concat(")")
            },
            ASTNode::FunctionCall(a, b) => a.to_string().concat("(").concat(
                b.to_string().as_str(),
            ).concat(")"),
            ASTNode::Block(v) => {
                proof {
                    lemma_group_views(*v);
                }
                String::from_str("{\n").concat(Self::join(v, "\n").as_str()).concat("\n}")
            },
            ASTNode::Array(v) => {
                proof {
                    lemma_group_views(*v);
                }
                String::from_str("[").concat(Self::join(v, ", ").as_str()).concat("]")
            },
            ASTNode::If(a, b, c) => String::from_str("if ").concat(a.to_string().as_str()).concat(
                " ",
            ).concat(b.to_string().as_str()).concat(" else ").concat(c.to_string().as_str()),
            ASTNode::While(a, b) => String::from_str("while ").concat(a.to_string().as_str()).concat(
                " ",
            ).concat(b.to_string().as_str()),
            ASTNode::ParenDelimiter => String::from_str(")"),
            ASTNode::BraceDelimiter => String::from_str("}"),
            ASTNode::BracketDelimiter => String::from_str("]"),
            ASTNode::Separator => String::from_str(","),
        }
    }

    /// The nodes of `v` written out with `sep` between each two.
    fn join(v: &Nodes, sep: &str) -> (r: String)
        ensures
            r@ == render_join(nodes_view(v@), sep@),
        decreases v, 0int,
    {
        let mut r = String::new();
        let mut i: usize = 0;
        while i < v.len()
            invariant
                i <= v.len(),
                r@ == render_join(nodes_view(v@).subrange(0, i as int), sep@),
            decreases v.len() - i,
        {
            let item = v[i].to_string();
            if i > 0 {
                r = r.concat(sep);
            }
            r = r.concat(item.as_str());
            proof {
                let w = nodes_view(v@);
                assert(w.subrange(0, i + 1).subrange(0, i as int) =~= w.subrange(0, i as int));
            }
            i = i + 1;
        }
        proof {
            assert(nodes_view(v@).subrange(0, v.len() as int) =~= nodes_view(v@));
        }
        r
    }
}

/// The view of a group node is the group of its children's views.
pub proof fn lemma_group_views(v: Nodes)
    ensures
        ASTNode::Parameters(v)@ == Syntax::Parameters(nodes_view(v@)),
        ASTNode::Arguments(v)@ == Syntax::Arguments(nodes_view(v@)),
        ASTNode::Block(v)@ == Syntax::Block(nodes_view(v@)),
        ASTNode::Array(v)@ == Syntax::Array(nodes_view(v@)),
{
    assert(ASTNode::Parameters(v)@->Parameters_0 =~= nodes_view(v@));
    assert(ASTNode::Arguments(v)@->Arguments_0 =~= nodes_view(v@));
    assert(ASTNode::Block(v)@->Block_0 =~= nodes_view(v@));
    assert(ASTNode::Array(v)@->Array_0 =~= nodes_view(v@));
}

/// The view of an aggregate error is the sequence of its errors' views.
pub proof fn lemma_errors_view(v: Errors)
    ensures
        ASTError::Errors(v)@ == Fault::Errors(errors_view(v@)),
{
    assert(ASTError::Errors(v)@->Errors_0 =~= errors_view(v@));
}

} // verus!
