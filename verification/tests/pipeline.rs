use object::{Object, ObjectSymbol};
use tempo::ast::{
    Assignment, Expression, FunctionCall, FunctionDefinition, Identifier, Number, Program,
};
use tempo::compile::compile_program_to_object_bytes;
use tempo::error::CompileError;
use tempo::lower::{Builtin, IrFunction, IrInst, lower_entry};
use tempo::parse_tree::Span;
use tempo::resolve::resolve_entry;

fn sp() -> Span {
    Span { start: 0, end: 0 }
}

fn ident(name: &str) -> Identifier {
    Identifier { name: name.to_string(), span: sp() }
}

fn num(value: i64) -> Expression {
    Expression::Number(Number { value, span: sp() })
}

fn var(name: &str) -> Expression {
    Expression::Identifier(ident(name))
}

fn call(name: &str, args: Vec<Expression>) -> Expression {
    Expression::FunctionCall(FunctionCall { function_name: ident(name), arguments: args, span: sp() })
}

fn fndef(params: Vec<&str>, body: Expression) -> Expression {
    Expression::FunctionDefinition(FunctionDefinition {
        parameters: params.into_iter().map(ident).collect(),
        body: Box::new(body),
        span: sp(),
    })
}

fn binding(name: &str, value: Expression) -> Assignment {
    Assignment { identifier: ident(name), expression: Box::new(value), span: sp() }
}

fn program(assignments: Vec<Assignment>) -> Program {
    Program { assignments, span: sp() }
}

fn main_program(body: Expression) -> Program {
    program(vec![binding("main", fndef(vec!["x"], body))])
}

/// Reference interpretation of a finished IR function on one input.
fn eval_ir(ir: &IrFunction, x: i64) -> i64 {
    let mut vals = vec![x];
    for inst in &ir.insts {
        match inst {
            IrInst::Const { value } => vals.push(*value),
            IrInst::Call { callee: Builtin::Add, args } => {
                let a = vals[args[0]];
                let b = vals[args[1]];
                vals.push(a.wrapping_add(b));
            }
        }
    }
    vals[ir.ret]
}

fn lower_main(body: Expression) -> Result<IrFunction, CompileError> {
    let p = main_program(body);
    let (param, body) = resolve_entry(&p)?;
    lower_entry(param, body)
}

#[test]
fn missing_entry_fails_and_yields_no_bytes() {
    let p = program(vec![binding("other", num(5))]);
    let r = compile_program_to_object_bytes(&p);
    assert!(matches!(r, Err(CompileError::MissingEntry)));
}

#[test]
fn missing_entry_message() {
    let p = program(vec![]);
    let e = compile_program_to_object_bytes(&p).unwrap_err();
    assert_eq!(e.message(), "no main function assignment found in the program");
}

#[test]
fn entry_that_is_not_a_function_fails() {
    let p = program(vec![binding("main", num(5))]);
    let r = compile_program_to_object_bytes(&p);
    assert!(matches!(r, Err(CompileError::EntryNotFunction { .. })));
}

#[test]
fn entry_parameter_count_must_be_one() {
    let zero = program(vec![binding("main", fndef(vec![], num(1)))]);
    assert!(matches!(
        compile_program_to_object_bytes(&zero),
        Err(CompileError::WrongParameterCount { count: 0, .. })
    ));
    let two = program(vec![binding("main", fndef(vec!["x", "y"], num(1)))]);
    assert!(matches!(
        compile_program_to_object_bytes(&two),
        Err(CompileError::WrongParameterCount { count: 2, .. })
    ));
    let one = program(vec![binding("main", fndef(vec!["x"], num(1)))]);
    assert!(compile_program_to_object_bytes(&one).is_ok());
}

#[test]
fn first_main_binding_wins() {
    let p = program(vec![
        binding("other", num(1)),
        binding("main", fndef(vec!["x"], num(7))),
        binding("main", num(9)),
    ]);
    let (param, _body) = resolve_entry(&p).unwrap();
    assert_eq!(param.name, "x");
}

#[test]
fn add_arity_must_be_two() {
    let one = lower_main(call("add", vec![num(1)]));
    assert!(matches!(
        one,
        Err(CompileError::WrongArgumentCount { required: 2, given: 1, .. })
    ));
    let three = lower_main(call("add", vec![num(1), num(2), num(3)]));
    assert!(matches!(
        three,
        Err(CompileError::WrongArgumentCount { required: 2, given: 3, .. })
    ));
}

#[test]
fn add_call_lowers_left_to_right() {
    let ir = lower_main(call("add", vec![num(2), num(3)])).unwrap();
    assert_eq!(ir.insts.len(), 3);
    assert!(matches!(ir.insts[0], IrInst::Const { value: 2 }));
    assert!(matches!(ir.insts[1], IrInst::Const { value: 3 }));
    match &ir.insts[2] {
        IrInst::Call { callee: Builtin::Add, args } => assert_eq!(args, &vec![1, 2]),
        _ => panic!("no call instruction emitted"),
    }
    assert_eq!(ir.ret, 3);
}

#[test]
fn parameter_reference_lowers_to_the_block_parameter() {
    let ir = lower_main(var("x")).unwrap();
    assert_eq!(ir.insts.len(), 0);
    assert_eq!(ir.ret, 0);
}

#[test]
fn unsupported_callee_is_rejected() {
    let r = lower_main(call("mul", vec![num(1), num(2)]));
    match r {
        Err(CompileError::UnsupportedCallee { name, .. }) => assert_eq!(name, "mul"),
        _ => panic!("a callee the table does not know was accepted"),
    }
}

#[test]
fn undefined_identifier_is_rejected() {
    let r = lower_main(var("y"));
    match r {
        Err(CompileError::UndefinedIdentifier { name, .. }) => assert_eq!(name, "y"),
        _ => panic!("an undefined identifier was accepted"),
    }
}

fn block(assignments: Vec<Assignment>, tail: Expression) -> Expression {
    Expression::Block(tempo::ast::BlockExpr {
        assignments,
        expression: Box::new(tail),
        span: sp(),
    })
}

#[test]
fn block_with_bindings_is_not_yet_supported() {
    let r = lower_main(block(vec![binding("a", num(1))], var("x")));
    assert!(matches!(r, Err(CompileError::BlockBindings { .. })));
}

#[test]
fn empty_block_lowers_like_its_trailing_expression() {
    let with_block = lower_main(block(vec![], call("add", vec![var("x"), num(1)]))).unwrap();
    let without = lower_main(call("add", vec![var("x"), num(1)])).unwrap();
    assert_eq!(with_block.ret, without.ret);
    assert_eq!(with_block.insts.len(), without.insts.len());
    for (a, b) in with_block.insts.iter().zip(without.insts.iter()) {
        match (a, b) {
            (IrInst::Const { value: va }, IrInst::Const { value: vb }) => assert_eq!(va, vb),
            (IrInst::Call { args: aa, .. }, IrInst::Call { args: ab, .. }) => assert_eq!(aa, ab),
            _ => panic!("the two lowerings differ in shape"),
        }
    }
}

#[test]
fn nested_function_definition_is_rejected() {
    let r = lower_main(fndef(vec!["y"], num(1)));
    assert!(matches!(r, Err(CompileError::NestedFunction { .. })));
}

#[test]
fn compiling_twice_yields_identical_bytes() {
    let make = || main_program(call("add", vec![var("x"), num(1)]));
    let first = compile_program_to_object_bytes(&make()).unwrap();
    let second = compile_program_to_object_bytes(&make()).unwrap();
    assert_eq!(first, second);
}

#[test]
fn supported_program_compiles_to_an_object_with_one_export() {
    let p = main_program(call("add", vec![var("x"), num(1)]));
    let bytes = compile_program_to_object_bytes(&p).unwrap();
    assert!(!bytes.is_empty());
    let file = object::File::parse(&*bytes).unwrap();
    let exported: Vec<String> = file
        .symbols()
        .filter(|s| s.is_global() && !s.is_undefined())
        .map(|s| s.name().unwrap().to_string())
        .collect();
    assert_eq!(exported, vec!["tempo_entry".to_string()]);
    let imported: Vec<String> = file
        .symbols()
        .filter(|s| s.is_global() && s.is_undefined())
        .map(|s| s.name().unwrap().to_string())
        .collect();
    assert!(imported.contains(&"add".to_string()));
}

#[test]
fn literal_body_compiles_to_an_object() {
    let p = main_program(num(41));
    let bytes = compile_program_to_object_bytes(&p).unwrap();
    assert!(!bytes.is_empty());
}

#[test]
fn entry_maps_41_to_42_for_the_increment_program() {
    let ir = lower_main(call("add", vec![var("x"), num(1)])).unwrap();
    assert_eq!(eval_ir(&ir, 41), 42);
}

#[test]
fn add_tree_evaluates_in_argument_order() {
    let ir = lower_main(call(
        "add",
        vec![call("add", vec![var("x"), num(10)]), num(100)],
    ))
    .unwrap();
    assert_eq!(eval_ir(&ir, 1), 111);
    assert_eq!(eval_ir(&ir, -110), 0);
}

#[test]
fn decimal_reader_handles_signs_and_limits() {
    assert_eq!(tempo::numeral::parse_decimal_i64("42"), Some(42));
    assert_eq!(tempo::numeral::parse_decimal_i64("+42"), Some(42));
    assert_eq!(tempo::numeral::parse_decimal_i64("-42"), Some(-42));
    assert_eq!(tempo::numeral::parse_decimal_i64(""), None);
    assert_eq!(tempo::numeral::parse_decimal_i64("4 2"), None);
    assert_eq!(tempo::numeral::parse_decimal_i64("18446744073709551616"), None);
}
