use hydrogen::ast::{ASTError, ASTNode};
use hydrogen::cell::Cell;
use hydrogen::evaluator::Evaluator;
use hydrogen::linebuffer::LineBuffer;
use hydrogen::mode::{Action, CursorMode, Key};
use hydrogen::tokens::{Position, Token};

#[test]
fn cursor_modes_by_name() {
    assert_eq!(CursorMode::new("normal".to_string()), CursorMode::Normal);
    assert_eq!(CursorMode::new("vi".to_string()), CursorMode::Vi);
    assert_eq!(CursorMode::new("emacs".to_string()), CursorMode::Emacs);
    assert_eq!(CursorMode::new("nano".to_string()), CursorMode::Normal);
    assert_eq!(CursorMode::new(String::new()), CursorMode::Normal);
}

#[test]
fn cells_and_line_buffers() {
    let cell = Cell::new(3, 7);
    assert_eq!((cell.col, cell.row), (3, 7));
    let cell = Cell::default();
    assert_eq!((cell.col, cell.row), (1, 1));
    let line = LineBuffer::new();
    assert_eq!(line.buffer, "");
    assert_eq!((line.caret.col, line.caret.row), (1, 1));
}

#[test]
fn evaluator_parses_whole_programs() {
    let mut evaluator = Evaluator::new("x = 1\ny: str");
    assert_eq!(
        evaluator.eval(),
        Ok(vec![
            Box::new(ASTNode::VariableDefinition(
                Box::new(ASTNode::Identifier("x".to_string())),
                Box::new(ASTNode::Type(None)),
                Box::new(ASTNode::NumberLiteral("1".to_string())),
            )),
            Box::new(ASTNode::VariableDeclaration(
                Box::new(ASTNode::Identifier("y".to_string())),
                Box::new(ASTNode::StringType),
            )),
        ])
    );
    let mut evaluator = Evaluator::new("x = ~");
    assert_eq!(
        evaluator.eval(),
        Err(vec![
            Box::new(ASTError::UnknownToken(Token::Unknown(Position { col: 5, row: 1 }, "~".to_string()))),
        ])
    );
}

#[test]
fn prompt_keys_by_mode() {
    let normal = CursorMode::Normal;
    let vi = CursorMode::Vi;
    assert_eq!(normal.respond(Key::Char { c: 'd', control: true }), Action::Quit);
    assert_eq!(vi.respond(Key::Char { c: 'd', control: true }), Action::Quit);
    assert_eq!(normal.respond(Key::Char { c: 'd', control: false }), Action::Insert('d'));
    assert_eq!(normal.respond(Key::Char { c: 'x', control: true }), Action::Insert('x'));
    assert_eq!(normal.respond(Key::Enter), Action::Submit);
    assert_eq!(vi.respond(Key::Enter), Action::Ignore);
    assert_eq!(CursorMode::Emacs.respond(Key::Enter), Action::Ignore);
    assert_eq!(normal.respond(Key::Other), Action::Ignore);
}
