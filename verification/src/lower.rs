use vstd::prelude::*;
use vstd::pervasive::arbitrary;
use crate::ast::{ExprModel, Expression, Identifier};
use crate::error::{CompileError, ErrModel};

verus! {

// ---------------------------------------------------------------------------
// The builtin dispatch table.
//
// A fixed registry of compiler-known callees, each with its arity; lowering
// consults it for every function-call expression. New builtins are admitted
// by adding a variant and its table rows, with no structural change.
// ---------------------------------------------------------------------------

/// A compiler-known callee with a fixed name, arity and signature.
#[derive(Debug, Clone, Copy, PartialEq, Eq, Structural)]
pub enum Builtin {
    /// Two-argument 64-bit integer addition, named "add".
    Add,
}

pub open spec fn builtin_of(name: Seq<char>) -> Option<Builtin> {
    if name == "add"@ {
        Some(Builtin::Add)
    } else {
        None
    }
}

pub open spec fn builtin_arity(b: Builtin) -> nat {
    match b {
        Builtin::Add => 2,
    }
}

pub open spec fn builtin_name_model(b: Builtin) -> Seq<char> {
    match b {
        Builtin::Add => "add"@,
    }
}

/// Looks a callee name up in the dispatch table.
pub fn lookup_builtin(name: &Identifier) -> (r: Option<Builtin>)
    ensures
        r == builtin_of(name.name@),
{
    if name.is_named("add") {
        Some(Builtin::Add)
    } else {
        None
    }
}

/// The name under which a builtin is declared for the linker.
pub fn builtin_name(b: Builtin) -> (r: &'static str)
    ensures
        r@ == builtin_name_model(b),
{
    match b {
        Builtin::Add => "add",
    }
}

/// How many arguments a builtin requires.
pub fn builtin_arity_of(b: Builtin) -> (r: usize)
    ensures
        r as nat == builtin_arity(b),
{
    match b {
        Builtin::Add => 2,
    }
}

// ---------------------------------------------------------------------------
// The intermediate representation.
//
// One function body: a single sealed block whose instructions stand in
// sequence and wire their operands by value handle. Handle 0 is the
// function's one parameter; the instruction at index j defines handle j + 1.
// ---------------------------------------------------------------------------

/// One IR instruction of the single entry block.
#[derive(Debug)]
pub enum IrInst {
    /// Loads a 64-bit integer constant.
    Const { value: i64 },
    /// Calls a builtin over already-computed value handles, in argument
    /// order.
    Call { callee: Builtin, args: Vec<usize> },
}

/// A finished IR function: the instruction sequence of its one block, and
/// the value handle returned at the end.
#[derive(Debug)]
pub struct IrFunction {
    pub insts: Vec<IrInst>,
    pub ret: usize,
}

/// Mathematical model of an instruction.
pub enum InstModel {
    Const { value: i64 },
    Call { callee: Builtin, args: Seq<int> },
}

/// Mathematical model of a finished IR function.
pub struct IrModel {
    pub insts: Seq<InstModel>,
    pub ret: int,
}

pub open spec fn handles_model(s: Seq<usize>) -> Seq<int> {
    Seq::new(s.len(), |i: int| if 0 <= i < s.len() { s[i] as int } else { arbitrary() })
}

impl IrInst {
    pub open spec fn model(self) -> InstModel {
        match self {
            IrInst::Const { value } => InstModel::Const { value },
            IrInst::Call { callee, args } => InstModel::Call {
                callee,
                args: handles_model(args@),
            },
        }
    }
}

pub open spec fn insts_models(s: Seq<IrInst>) -> Seq<InstModel> {
    Seq::new(s.len(), |i: int| if 0 <= i < s.len() { s[i].model() } else { arbitrary() })
}

impl IrFunction {
    pub open spec fn model(self) -> IrModel {
        IrModel { insts: insts_models(self.insts@), ret: self.ret as int }
    }
}

/// Well-formedness of one instruction at its index: a call's operands refer
/// only to handles already defined there, and match the callee's arity.
pub open spec fn inst_wf(inst: InstModel, idx: int) -> bool {
    match inst {
        InstModel::Const { value } => true,
        InstModel::Call { callee, args } => args.len() == builtin_arity(callee) && forall|k: int|
            0 <= k < args.len() ==> 0 <= #[trigger] args[k] <= idx,
    }
}

/// Well-formedness of a finished IR function: every operand is defined
/// before use, and the returned handle is defined.
pub open spec fn ir_wf(ir: IrModel) -> bool {
    &&& 0 <= ir.ret <= ir.insts.len()
    &&& forall|j: int| 0 <= j < ir.insts.len() ==> inst_wf(#[trigger] ir.insts[j], j)
}

// ---------------------------------------------------------------------------
// What lowering means.
//
// lower_expr(e, param, n) lowers one expression under the one-entry
// environment that binds the parameter name to handle 0, assuming n
// instructions already stand in the block. It yields the instructions to
// append and the handle of the expression's value.
// ---------------------------------------------------------------------------

pub open spec fn lower_expr(e: ExprModel, param: Seq<char>, n: nat) -> Result<
    (Seq<InstModel>, int),
    ErrModel,
>
    decreases e,
{
    match e {
        ExprModel::Num { value, span } => Ok((seq![InstModel::Const { value }], n as int + 1)),
        ExprModel::Ident { id } => if id.name == param {
            Ok((Seq::empty(), 0))
        } else {
            Err(ErrModel::UndefinedIdentifier { name: id.name, span: id.span })
        },
        ExprModel::Call { callee, args, span } => match builtin_of(callee.name) {
            None => Err(ErrModel::UnsupportedCallee { name: callee.name, span }),
            Some(b) => if args.len() != builtin_arity(b) {
                Err(
                    ErrModel::WrongArgumentCount {
                        required: builtin_arity(b),
                        given: args.len(),
                        span,
                    },
                )
            } else {
                match lower_args(args, param, n) {
                    Err(e) => Err(e),
                    Ok(r) => Ok(
                        (
                            r.0.push(InstModel::Call { callee: b, args: r.1 }),
                            n as int + r.0.len() + 1,
                        ),
                    ),
                }
            },
        },
        ExprModel::FnDef { params, body, span } => Err(ErrModel::NestedFunction { span }),
        ExprModel::Block { bindings, tail, span } => if bindings.len() > 0 {
            Err(ErrModel::BlockBindings { span })
        } else {
            lower_expr(*tail, param, n)
        },
    }
}

/// Argument expressions lowered strictly left to right, threading the
/// instruction count; yields all appended instructions and the handles of
/// the arguments' values, in argument order.
pub open spec fn lower_args(args: Seq<ExprModel>, param: Seq<char>, n: nat) -> Result<
    (Seq<InstModel>, Seq<int>),
    ErrModel,
>
    decreases args,
{
    if args.len() == 0 {
        Ok((Seq::empty(), Seq::empty()))
    } else {
        match lower_expr(args[0], param, n) {
            Err(e) => Err(e),
            Ok(first) => match lower_args(args.drop_first(), param, (n + first.0.len()) as nat) {
                Err(e) => Err(e),
                Ok(rest) => Ok((first.0 + rest.0, seq![first.1] + rest.1)),
            },
        }
    }
}

/// What lowering a resolved entry function means: its body lowered into an
/// empty block, returning the body's value.
pub open spec fn lower_entry_model(param: Seq<char>, body: ExprModel) -> Result<
    IrModel,
    ErrModel,
> {
    match lower_expr(body, param, 0) {
        Err(e) => Err(e),
        Ok(r) => Ok(IrModel { insts: r.0, ret: r.1 }),
    }
}

// ---------------------------------------------------------------------------
// Lowering appends only well-formed instructions: every operand a call uses
// is defined before the call, and the yielded handle is defined.
// ---------------------------------------------------------------------------

pub proof fn lemma_lower_expr_wf(e: ExprModel, param: Seq<char>, n: nat)
    requires
        lower_expr(e, param, n) is Ok,
    ensures
        0 <= lower_expr(e, param, n)->Ok_0.1 <= n + lower_expr(e, param, n)->Ok_0.0.len(),
        forall|j: int|
            0 <= j < lower_expr(e, param, n)->Ok_0.0.len() ==> inst_wf(
                #[trigger] lower_expr(e, param, n)->Ok_0.0[j],
                n + j,
            ),
    decreases e,
{
    match e {
        ExprModel::Num { value, span } => {},
        ExprModel::Ident { id } => {},
        ExprModel::Call { callee, args, span } => {
            let b = builtin_of(callee.name)->0;
            lemma_lower_args_wf(args, param, n);
            let r = lower_args(args, param, n)->Ok_0;
            let out = lower_expr(e, param, n)->Ok_0.0;
            assert(out == r.0.push(InstModel::Call { callee: b, args: r.1 }));
            assert forall|j: int| 0 <= j < out.len() implies inst_wf(#[trigger] out[j], n + j) by {
                if j < r.0.len() {
                    assert(out[j] == r.0[j]);
                } else {
                    assert(out[j] == InstModel::Call { callee: b, args: r.1 });
                    assert(r.1.len() == args.len());
                }
            }
        },
        ExprModel::FnDef { params, body, span } => {},
        ExprModel::Block { bindings, tail, span } => {
            lemma_lower_expr_wf(*tail, param, n);
        },
    }
}

pub proof fn lemma_lower_args_wf(args: Seq<ExprModel>, param: Seq<char>, n: nat)
    requires
        lower_args(args, param, n) is Ok,
    ensures
        lower_args(args, param, n)->Ok_0.1.len() == args.len(),
        forall|k: int|
            0 <= k < args.len() ==> 0 <= #[trigger] lower_args(args, param, n)->Ok_0.1[k] <= n
                + lower_args(args, param, n)->Ok_0.0.len(),
        forall|j: int|
            0 <= j < lower_args(args, param, n)->Ok_0.0.len() ==> inst_wf(
                #[trigger] lower_args(args, param, n)->Ok_0.0[j],
                n + j,
            ),
    decreases args,
{
    if args.len() == 0 {
    } else {
        let first = lower_expr(args[0], param, n)->Ok_0;
        let m = (n + first.0.len()) as nat;
        lemma_lower_expr_wf(args[0], param, n);
        lemma_lower_args_wf(args.drop_first(), param, m);
        let rest = lower_args(args.drop_first(), param, m)->Ok_0;
        let out = lower_args(args, param, n)->Ok_0;
        assert(out.0 == first.0 + rest.0);
        assert(out.1 == seq![first.1] + rest.1);
        assert(rest.1.len() == args.drop_first().len());
        assert forall|k: int| 0 <= k < args.len() implies 0 <= #[trigger] out.1[k] <= n
            + out.0.len() by {
            if k == 0 {
                assert(out.1[0] == first.1);
            } else {
                assert(out.1[k] == rest.1[k - 1]);
            }
        }
        assert forall|j: int| 0 <= j < out.0.len() implies inst_wf(#[trigger] out.0[j], n + j) by {
            if j < first.0.len() {
                assert(out.0[j] == first.0[j]);
            } else {
                assert(out.0[j] == rest.0[j - first.0.len()]);
            }
        }
    }
}

/// A lowered entry function is well formed.
pub proof fn lemma_lower_entry_wf(param: Seq<char>, body: ExprModel)
    requires
        lower_entry_model(param, body) is Ok,
    ensures
        ir_wf(lower_entry_model(param, body)->Ok_0),
{
    lemma_lower_expr_wf(body, param, 0);
}

// ---------------------------------------------------------------------------
// The lowering driver itself.
// ---------------------------------------------------------------------------

/// Lowers one expression of the entry body, appending its instructions to
/// the block under construction and yielding the handle of its value.
#[verifier::loop_isolation(false)]
pub fn lower_expression(expr: &Expression, param: &Identifier, insts: &mut Vec<IrInst>) -> (r:
    Result<usize, CompileError>)
    ensures
        match lower_expr(expr.model(), param.model().name, old(insts)@.len() as nat) {
            Ok(m) => r matches Ok(v) && final(insts)@.len() == old(insts)@.len() + m.0.len()
                && insts_models(final(insts)@) == insts_models(old(insts)@) + m.0 && v as int
                == m.1,
            Err(e) => r matches Err(err) && err.model() == e,
        },
    decreases expr,
{
    let ghost n0: nat = old(insts)@.len() as nat;
    let ghost base: Seq<InstModel> = insts_models(old(insts)@);
    let ghost pname: Seq<char> = param.model().name;
    match expr {
        Expression::Number(num) => {
            insts.push(IrInst::Const { value: num.value });
            proof {
                assert(insts_models(insts@) =~= base + seq![InstModel::Const { value: num.value }]);
            }
            Ok(insts.len())
        },
        Expression::Identifier(id) => {
            if id.is_named(param.name.as_str()) {
                proof {
                    assert(base + Seq::<InstModel>::empty() =~= base);
                }
                Ok(0)
            } else {
                Err(CompileError::UndefinedIdentifier { name: id.name.clone(), span: id.span })
            }
        },
        Expression::FunctionCall(c) => {
            let b = match lookup_builtin(&c.function_name) {
                Some(b) => b,
                None => {
                    return Err(
                        CompileError::UnsupportedCallee {
                            name: c.function_name.name.clone(),
                            span: c.span,
                        },
                    );
                },
            };
            let arity = builtin_arity_of(b);
            if c.arguments.len() != arity {
                proof {
                    assert(expr.model() == c.model());
                    assert(c.model() matches ExprModel::Call { .. });
                    assert(crate::ast::exprs_models(c.arguments@).len() == c.arguments@.len());
                    assert(lower_expr(expr.model(), pname, n0) == Err::<
                        (Seq<InstModel>, int),
                        ErrModel,
                    >(
                        ErrModel::WrongArgumentCount {
                            required: builtin_arity(b),
                            given: c.arguments@.len() as nat,
                            span: c.span,
                        },
                    ));
                }
                return Err(
                    CompileError::WrongArgumentCount {
                        required: arity,
                        given: c.arguments.len(),
                        span: c.span,
                    },
                );
            }
            let ghost argsm: Seq<ExprModel> = crate::ast::exprs_models(c.arguments@);
            let n_args = c.arguments.len();
            let mut handles: Vec<usize> = Vec::new();
            let mut i: usize = 0;
            proof {
                assert(argsm.skip(0) =~= argsm);
                assert(insts_models(insts@).take(n0 as int) =~= base);
                assert(insts_models(insts@).skip(n0 as int) =~= Seq::<InstModel>::empty());
                assert(handles_model(handles@) =~= Seq::<int>::empty());
                match lower_args(argsm, pname, n0) {
                    Ok(whole) => {
                        assert(Seq::<InstModel>::empty() + whole.0 =~= whole.0);
                        assert(Seq::<int>::empty() + whole.1 =~= whole.1);
                    },
                    Err(e) => {},
                }
            }
            while i < n_args
                invariant
                    i <= n_args,
                    n_args == c.arguments@.len(),
                    handles@.len() == i,
                    n0 <= insts@.len(),
                    insts_models(insts@).take(n0 as int) == base,
                    match lower_args(argsm.skip(i as int), pname, insts@.len() as nat) {
                        Ok(rest) => lower_args(argsm, pname, n0) == Ok::<_, ErrModel>(
                            (
                                insts_models(insts@).skip(n0 as int) + rest.0,
                                handles_model(handles@) + rest.1,
                            ),
                        ),
                        Err(e) => lower_args(argsm, pname, n0) == Err::<
                            (Seq<InstModel>, Seq<int>),
                            ErrModel,
                        >(e),
                    },
                decreases n_args - i,
            {
                proof {
                    assert(argsm[i as int] == c.arguments@[i as int].model());
                    assert(argsm.skip(i as int)[0] == argsm[i as int]);
                    assert(argsm.skip(i as int).drop_first() =~= argsm.skip(i as int + 1));
                    assert(decreases_to!(*expr => *c));
                    assert(decreases_to!(*c => c.arguments));
                    assert(decreases_to!(c.arguments => c.arguments@));
                    assert(decreases_to!(c.arguments@ => c.arguments@[i as int]));
                }
                let ghost before: Seq<InstModel> = insts_models(insts@);
                let ghost emitted_before: Seq<InstModel> = before.skip(n0 as int);
                let h = match lower_expression(&c.arguments[i], param, insts) {
                    Ok(h) => h,
                    Err(e) => {
                        return Err(e);
                    },
                };
                proof {
                    match lower_expr(argsm[i as int], pname, before.len() as nat) {
                        Ok(first) => {
                            assert(insts_models(insts@) == before + first.0);
                            assert(insts_models(insts@).take(n0 as int) =~= base);
                            assert(insts_models(insts@).skip(n0 as int) =~= emitted_before
                                + first.0);
                            assert(handles_model(handles@.push(h)) =~= handles_model(handles@)
                                + seq![h as int]);
                            match lower_args(argsm.skip(i as int + 1), pname, insts@.len() as nat) {
                                Ok(rest) => {
                                    assert((emitted_before + first.0) + rest.0 =~= emitted_before
                                        + (first.0 + rest.0));
                                    assert((handles_model(handles@) + seq![h as int]) + rest.1
                                        =~= handles_model(handles@) + (seq![h as int] + rest.1));
                                },
                                Err(e) => {},
                            }
                        },
                        Err(e) => {
                            assert(false);
                        },
                    }
                }
                handles.push(h);
                i = i + 1;
            }
            proof {
                assert(argsm.skip(n_args as int) =~= Seq::<ExprModel>::empty());
                assert(insts_models(insts@).skip(n0 as int) + Seq::<InstModel>::empty()
                    =~= insts_models(insts@).skip(n0 as int));
                assert(handles_model(handles@) + Seq::<int>::empty() =~= handles_model(handles@));
            }
            let ghost emitted: Seq<InstModel> = insts_models(insts@).skip(n0 as int);
            let inst = IrInst::Call { callee: b, args: handles };
            proof {
                assert(inst.model() == InstModel::Call {
                    callee: b,
                    args: handles_model(handles@),
                });
            }
            insts.push(inst);
            proof {
                assert(insts_models(insts@) =~= (base + emitted).push(inst.model()));
                assert((base + emitted).push(inst.model()) =~= base + emitted.push(inst.model()));
            }
            Ok(insts.len())
        },
        Expression::FunctionDefinition(f) => {
            Err(CompileError::NestedFunction { span: f.span })
        },
        Expression::Block(blk) => {
            if blk.assignments.len() > 0 {
                proof {
                    assert(expr.model() == blk.model());
                    assert(crate::ast::assigns_models(blk.assignments@).len()
                        == blk.assignments@.len());
                    assert(lower_expr(expr.model(), pname, n0) == Err::<
                        (Seq<InstModel>, int),
                        ErrModel,
                    >(ErrModel::BlockBindings { span: blk.span }));
                }
                return Err(CompileError::BlockBindings { span: blk.span });
            }
            proof {
                assert(decreases_to!(*expr => *blk));
                assert(decreases_to!(*blk => blk.expression));
            }
            lower_expression(&blk.expression, param, insts)
        },
    }
}

/// Lowers the resolved entry function: a fresh single-block body whose one
/// parameter is bound to the entry parameter's name, the body expression
/// lowered into it, and its value returned.
pub fn lower_entry(param: &Identifier, body: &Expression) -> (r: Result<IrFunction, CompileError>)
    ensures
        match lower_entry_model(param.model().name, body.model()) {
            Ok(m) => r matches Ok(ir) && ir.model() == m && ir_wf(ir.model()),
            Err(e) => r matches Err(err) && err.model() == e,
        },
{
    let mut insts: Vec<IrInst> = Vec::new();
    proof {
        assert(insts_models(insts@) =~= Seq::<InstModel>::empty());
    }
    match lower_expression(body, param, &mut insts) {
        Ok(v) => {
            proof {
                match lower_expr(body.model(), param.model().name, 0) {
                    Ok(m) => {
                        assert(Seq::<InstModel>::empty() + m.0 =~= m.0);
                        lemma_lower_entry_wf(param.model().name, body.model());
                    },
                    Err(e) => {
                        assert(false);
                    },
                }
            }
            Ok(IrFunction { insts, ret: v })
        },
        Err(e) => Err(e),
    }
}

} // verus!
