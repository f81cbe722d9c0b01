use tempo::ast::{parse_assignment, parse_expression, parse_identifier, parse_number, parse_program};
use tempo::error::CompileError;
use tempo::parse_tree::{NodeKind, ParseNode, Span};

fn node(kind: NodeKind, text: &str, children: Vec<ParseNode>) -> ParseNode {
    ParseNode { kind, text: text.to_string(), span: Span { start: 0, end: 0 }, children }
}

fn expr(child: ParseNode) -> ParseNode {
    node(NodeKind::Expression, "", vec![child])
}

fn ident(name: &str) -> ParseNode {
    node(NodeKind::Identifier, name, vec![])
}

fn number(text: &str) -> ParseNode {
    node(NodeKind::Number, text, vec![])
}

#[test]
fn identifier_is_built_from_its_node() {
    let id = parse_identifier(&ident("x")).unwrap();
    assert_eq!(id.name, "x");
}

#[test]
fn identifier_rejects_other_kinds() {
    let r = parse_identifier(&number("5"));
    assert!(matches!(
        r,
        Err(CompileError::ExpectedKind { expected: NodeKind::Identifier, found: NodeKind::Number, .. })
    ));
}

#[test]
fn number_reads_decimal_text() {
    assert_eq!(parse_number(&number("42")).unwrap().value, 42);
    assert_eq!(parse_number(&number("-7")).unwrap().value, -7);
    assert_eq!(parse_number(&number("0")).unwrap().value, 0);
}

#[test]
fn number_reads_the_64_bit_extremes() {
    assert_eq!(parse_number(&number("9223372036854775807")).unwrap().value, i64::MAX);
    assert_eq!(parse_number(&number("-9223372036854775808")).unwrap().value, i64::MIN);
}

#[test]
fn number_rejects_overflow() {
    let r = parse_number(&number("9223372036854775808"));
    assert!(matches!(r, Err(CompileError::InvalidNumber { .. })));
    let r = parse_number(&number("-9223372036854775809"));
    assert!(matches!(r, Err(CompileError::InvalidNumber { .. })));
}

#[test]
fn number_rejects_non_digit_text() {
    assert!(matches!(parse_number(&number("12a")), Err(CompileError::InvalidNumber { .. })));
    assert!(matches!(parse_number(&number("")), Err(CompileError::InvalidNumber { .. })));
    assert!(matches!(parse_number(&number("-")), Err(CompileError::InvalidNumber { .. })));
}

#[test]
fn empty_expression_node_is_an_error() {
    let r = parse_expression(&node(NodeKind::Expression, "", vec![]));
    assert!(matches!(r, Err(CompileError::EmptyExpression)));
}

#[test]
fn expression_rejects_an_impossible_child() {
    let r = parse_expression(&node(NodeKind::Expression, "", vec![node(NodeKind::Program, "", vec![])]));
    assert!(matches!(r, Err(CompileError::UnexpectedExpressionChild { found: NodeKind::Program, .. })));
}

#[test]
fn function_call_keeps_argument_order() {
    let call = node(
        NodeKind::FunctionCall,
        "add(1, 2)",
        vec![
            ident("add"),
            node(NodeKind::FunctionArguments, "", vec![expr(number("1")), expr(number("2"))]),
        ],
    );
    let built = parse_expression(&expr(call)).unwrap();
    match built {
        tempo::ast::Expression::FunctionCall(c) => {
            assert_eq!(c.function_name.name, "add");
            assert_eq!(c.arguments.len(), 2);
            match (&c.arguments[0], &c.arguments[1]) {
                (tempo::ast::Expression::Number(a), tempo::ast::Expression::Number(b)) => {
                    assert_eq!(a.value, 1);
                    assert_eq!(b.value, 2);
                }
                _ => panic!("arguments lost their shape"),
            }
        }
        _ => panic!("call lost its shape"),
    }
}

#[test]
fn function_call_needs_an_arguments_container() {
    let call = node(NodeKind::FunctionCall, "f", vec![ident("f")]);
    let r = parse_expression(&expr(call));
    assert!(matches!(
        r,
        Err(CompileError::MissingChild { expected: NodeKind::FunctionArguments })
    ));
}

#[test]
fn function_definition_with_and_without_parameters() {
    let with = node(
        NodeKind::FunctionDefinition,
        "(x) -> 5",
        vec![node(NodeKind::IdentList, "x", vec![ident("x")]), expr(number("5"))],
    );
    match parse_expression(&expr(with)).unwrap() {
        tempo::ast::Expression::FunctionDefinition(f) => {
            assert_eq!(f.parameters.len(), 1);
            assert_eq!(f.parameters[0].name, "x");
        }
        _ => panic!("definition lost its shape"),
    }
    let without = node(NodeKind::FunctionDefinition, "-> 5", vec![expr(number("5"))]);
    match parse_expression(&expr(without)).unwrap() {
        tempo::ast::Expression::FunctionDefinition(f) => assert_eq!(f.parameters.len(), 0),
        _ => panic!("definition lost its shape"),
    }
}

#[test]
fn function_definition_needs_a_body() {
    let r = parse_expression(&expr(node(NodeKind::FunctionDefinition, "->", vec![])));
    assert!(matches!(r, Err(CompileError::MissingChild { expected: NodeKind::Expression })));
}

fn assignment(name: &str, value: ParseNode) -> ParseNode {
    node(NodeKind::Assignment, "", vec![ident(name), value])
}

#[test]
fn block_consumes_assignments_then_one_expression() {
    let block = node(
        NodeKind::Block,
        "{ a = 1 2 }",
        vec![assignment("a", expr(number("1"))), expr(number("2"))],
    );
    match parse_expression(&expr(block)).unwrap() {
        tempo::ast::Expression::Block(b) => {
            assert_eq!(b.assignments.len(), 1);
            match *b.expression {
                tempo::ast::Expression::Number(ref n) => assert_eq!(n.value, 2),
                _ => panic!("trailing expression lost"),
            }
        }
        _ => panic!("block lost its shape"),
    }
}

#[test]
fn block_rejects_nodes_after_its_expression() {
    let block = node(NodeKind::Block, "", vec![expr(number("1")), expr(number("2"))]);
    let r = parse_expression(&expr(block));
    assert!(matches!(r, Err(CompileError::ExtraBlockNodes)));
}

#[test]
fn block_needs_a_trailing_expression() {
    let block = node(NodeKind::Block, "", vec![assignment("a", expr(number("1")))]);
    let r = parse_expression(&expr(block));
    assert!(matches!(r, Err(CompileError::MissingChild { expected: NodeKind::Expression })));
}

#[test]
fn assignment_is_identifier_then_expression() {
    let a = parse_assignment(&assignment("x", expr(number("3")))).unwrap();
    assert_eq!(a.identifier.name, "x");
    match *a.expression {
        tempo::ast::Expression::Number(ref n) => assert_eq!(n.value, 3),
        _ => panic!("assignment expression lost"),
    }
}

#[test]
fn program_collects_assignments_and_passes_end_of_input() {
    let nodes = vec![
        assignment("a", expr(number("1"))),
        assignment("b", expr(number("2"))),
        node(NodeKind::EndOfInput, "", vec![]),
    ];
    let p = parse_program(&nodes).unwrap();
    assert_eq!(p.assignments.len(), 2);
    assert_eq!(p.assignments[0].identifier.name, "a");
    assert_eq!(p.assignments[1].identifier.name, "b");
}

#[test]
fn program_rejects_an_impossible_top_level_node() {
    let nodes = vec![number("5")];
    let r = parse_program(&nodes);
    assert!(matches!(r, Err(CompileError::UnexpectedProgramNode { found: NodeKind::Number, .. })));
}

#[test]
fn error_messages_name_the_kinds() {
    let e = parse_identifier(&number("5")).unwrap_err();
    assert_eq!(e.message(), "expected identifier, got number for \"5\"");
    let e = parse_number(&number("99999999999999999999")).unwrap_err();
    assert_eq!(e.message(), "failed to parse number \"99999999999999999999\"");
}
