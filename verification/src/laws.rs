use vstd::prelude::*;
use crate::ast::{AssignModel, ExprModel, IdentModel, ProgramModel};
use crate::error::ErrModel;
use crate::lower::{Builtin, InstModel, builtin_of, lower_args, lower_expr};
use crate::parse_tree::Span;
use crate::compile::frontend_model;
use crate::resolve::{find_entry, resolve_entry_model};

verus! {

// ---------------------------------------------------------------------------
// Laws of the pipeline, stated and proved over the models that the
// functions' own contracts speak of.
// ---------------------------------------------------------------------------

/// The fragment of entry bodies that the current lowering always accepts: a
/// literal, a reference to the entry parameter, or an "add" call tree over
/// such bodies.
pub open spec fn supported_body(e: ExprModel, param: Seq<char>) -> bool
    decreases e,
{
    match e {
        ExprModel::Num { value, span } => true,
        ExprModel::Ident { id } => id.name == param,
        ExprModel::Call { callee, args, span } => callee.name == "add"@ && args.len() == 2
            && supported_body(args[0], param) && supported_body(args[1], param),
        ExprModel::FnDef { params, body, span } => false,
        ExprModel::Block { bindings, tail, span } => false,
    }
}

proof fn lemma_supported_lowering(e: ExprModel, param: Seq<char>, n: nat)
    requires
        supported_body(e, param),
    ensures
        lower_expr(e, param, n) is Ok,
    decreases e,
{
    match e {
        ExprModel::Call { callee, args, span } => {
            reveal_with_fuel(lower_args, 3);
            lemma_supported_lowering(args[0], param, n);
            let first = lower_expr(args[0], param, n)->Ok_0;
            let m = (n + first.0.len()) as nat;
            assert(args.drop_first()[0] == args[1]);
            lemma_supported_lowering(args[1], param, m);
            let second = lower_expr(args[1], param, m)->Ok_0;
            assert(args.drop_first().drop_first() =~= Seq::<ExprModel>::empty());
            assert(lower_args(args.drop_first(), param, m) is Ok);
            assert(lower_args(args, param, n) is Ok);
        },
        _ => {},
    }
}

/// Every program that binds "main" to a one-parameter function whose body
/// is a literal, a reference to that parameter, or an "add" call tree over
/// such bodies, passes the whole front end: resolution and lowering
/// succeed, so only the backend's serialization stands between it and an
/// object buffer (which, when the backend succeeds, is never empty).
pub proof fn lemma_supported_program_compiles(p: ProgramModel)
    requires
        resolve_entry_model(p) is Ok,
        supported_body(
            resolve_entry_model(p)->Ok_0.body,
            resolve_entry_model(p)->Ok_0.param,
        ),
    ensures
        frontend_model(p) is Ok,
{
    let en = resolve_entry_model(p)->Ok_0;
    lemma_supported_lowering(en.body, en.param, 0);
}

/// A program with no "main" binding fails with the missing-entry error, so
/// no object bytes are ever produced for it.
pub proof fn lemma_missing_entry(p: ProgramModel)
    requires
        find_entry(p.assignments) is None,
    ensures
        frontend_model(p) == Err::<crate::lower::IrModel, ErrModel>(ErrModel::MissingEntry),
{
}

/// A program whose "main" binding is not a function definition fails with
/// the not-a-function error.
pub proof fn lemma_entry_not_function(p: ProgramModel, a: AssignModel)
    requires
        find_entry(p.assignments) == Some(a),
        !(*a.value matches ExprModel::FnDef { .. }),
    ensures
        frontend_model(p) == Err::<crate::lower::IrModel, ErrModel>(
            ErrModel::EntryNotFunction { span: a.span },
        ),
{
}

/// An entry function with any parameter count other than one fails with
/// the parameter-count error, stating the count found; with exactly one,
/// resolution succeeds and yields that parameter and the body.
pub proof fn lemma_entry_parameter_count(
    p: ProgramModel,
    a: AssignModel,
    params: Seq<IdentModel>,
    body: ExprModel,
    span: Span,
)
    requires
        find_entry(p.assignments) == Some(a),
        *a.value == (ExprModel::FnDef { params, body: Box::new(body), span }),
    ensures
        params.len() != 1 ==> resolve_entry_model(p) == Err::<crate::resolve::EntryModel, ErrModel>(
            ErrModel::WrongParameterCount { count: params.len(), span },
        ),
        params.len() == 1 ==> resolve_entry_model(p) == Ok::<crate::resolve::EntryModel, ErrModel>(
            crate::resolve::EntryModel { param: params[0].name, body },
        ),
{
}

/// Calling "add" with any argument count other than two fails with the
/// arity error; with exactly two, and both arguments lowered, the call
/// lowers to the first argument's instructions, then the second's, then
/// one call instruction over their two value handles, in that order.
pub proof fn lemma_add_call_lowering(
    callee: IdentModel,
    args: Seq<ExprModel>,
    span: Span,
    param: Seq<char>,
    n: nat,
)
    requires
        callee.name == "add"@,
    ensures
        args.len() != 2 ==> lower_expr(ExprModel::Call { callee, args, span }, param, n)
            == Err::<(Seq<InstModel>, int), ErrModel>(
            ErrModel::WrongArgumentCount { required: 2, given: args.len(), span },
        ),
        args.len() == 2 && lower_expr(ExprModel::Call { callee, args, span }, param, n) is Ok
            ==> {
            let first = lower_expr(args[0], param, n)->Ok_0;
            let second = lower_expr(args[1], param, (n + first.0.len()) as nat)->Ok_0;
            lower_expr(ExprModel::Call { callee, args, span }, param, n)->Ok_0.0 == first.0
                + second.0 + seq![
                InstModel::Call { callee: Builtin::Add, args: seq![first.1, second.1] },
            ]
        },
{
    if args.len() == 2 && lower_expr(ExprModel::Call { callee, args, span }, param, n) is Ok {
        reveal_with_fuel(lower_args, 3);
        let first = lower_expr(args[0], param, n)->Ok_0;
        let m = (n + first.0.len()) as nat;
        assert(args.drop_first()[0] == args[1]);
        let second = lower_expr(args[1], param, m)->Ok_0;
        assert(args.drop_first().drop_first() =~= Seq::<ExprModel>::empty());
        let whole = lower_args(args, param, n)->Ok_0;
        assert(whole.0 == first.0 + (second.0 + Seq::<InstModel>::empty()));
        assert(whole.1 == seq![first.1] + (seq![second.1] + Seq::<int>::empty()));
        assert(whole.0 =~= first.0 + second.0);
        assert(whole.1 =~= seq![first.1, second.1]);
        assert(whole.0.push(InstModel::Call { callee: Builtin::Add, args: whole.1 })
            =~= first.0 + second.0 + seq![
            InstModel::Call { callee: Builtin::Add, args: seq![first.1, second.1] },
        ]);
    }
}

/// Calling any name the builtin dispatch table does not know fails with
/// the unsupported-callee error; the table knows only "add".
pub proof fn lemma_unsupported_callee(
    callee: IdentModel,
    args: Seq<ExprModel>,
    span: Span,
    param: Seq<char>,
    n: nat,
)
    requires
        callee.name != "add"@,
    ensures
        builtin_of(callee.name) is None,
        lower_expr(ExprModel::Call { callee, args, span }, param, n) == Err::<
            (Seq<InstModel>, int),
            ErrModel,
        >(ErrModel::UnsupportedCallee { name: callee.name, span }),
{
}

/// Referencing an identifier other than the entry parameter fails with the
/// undefined-identifier error, naming the identifier and its span; the
/// parameter itself lowers to handle 0 with no instruction.
pub proof fn lemma_identifier_lowering(id: IdentModel, param: Seq<char>, n: nat)
    ensures
        id.name != param ==> lower_expr(ExprModel::Ident { id }, param, n) == Err::<
            (Seq<InstModel>, int),
            ErrModel,
        >(ErrModel::UndefinedIdentifier { name: id.name, span: id.span }),
        id.name == param ==> lower_expr(ExprModel::Ident { id }, param, n) == Ok::<
            (Seq<InstModel>, int),
            ErrModel,
        >((Seq::empty(), 0)),
{
}

/// A block with one or more local bindings fails with the
/// not-yet-supported error; a block with none lowers identically to its
/// trailing expression alone.
pub proof fn lemma_block_lowering(
    bindings: Seq<AssignModel>,
    tail: ExprModel,
    span: Span,
    param: Seq<char>,
    n: nat,
)
    ensures
        bindings.len() > 0 ==> lower_expr(
            ExprModel::Block { bindings, tail: Box::new(tail), span },
            param,
            n,
        ) == Err::<(Seq<InstModel>, int), ErrModel>(ErrModel::BlockBindings { span }),
        bindings.len() == 0 ==> lower_expr(
            ExprModel::Block { bindings, tail: Box::new(tail), span },
            param,
            n,
        ) == lower_expr(tail, param, n),
{
}

/// The front end is a function of the program alone: two runs over equal
/// programs resolve and lower identically. Byte-for-byte determinism of
/// the serialized object is the backend's own property.
pub proof fn lemma_frontend_deterministic(p1: ProgramModel, p2: ProgramModel)
    requires
        p1 == p2,
    ensures
        frontend_model(p1) == frontend_model(p2),
{
}

} // verus!
