use vstd::prelude::*;
use crate::ast::ExprModel;
use crate::lower::{
    InstModel, IrModel, lower_args, lower_entry_model, lower_expr, lemma_lower_args_wf,
    lemma_lower_expr_wf,
};

verus! {

// ---------------------------------------------------------------------------
// Reference semantics.
//
// The expression language computes over 64-bit two's-complement integers;
// its one builtin, "add", is wrapping addition. The same semantics is given
// to the IR, and lowering is proved to preserve it: what the entry body
// means is what the lowered instruction sequence computes.
// ---------------------------------------------------------------------------

pub open spec fn wrap_add(a: i64, b: i64) -> i64 {
    if a + b > i64::MAX {
        (a + b - 0x1_0000_0000_0000_0000) as i64
    } else if a + b < i64::MIN {
        (a + b + 0x1_0000_0000_0000_0000) as i64
    } else {
        (a + b) as i64
    }
}

/// What an entry body means on one input: the value bound to the entry
/// parameter is the input, literals mean themselves, and "add" over two
/// meaningful operands means their wrapping sum. Everything else means
/// nothing (and never lowers either).
pub open spec fn eval_expr(e: ExprModel, param: Seq<char>, x: i64) -> Option<i64>
    decreases e,
{
    match e {
        ExprModel::Num { value, span } => Some(value),
        ExprModel::Ident { id } => if id.name == param {
            Some(x)
        } else {
            None
        },
        ExprModel::Call { callee, args, span } => if callee.name == "add"@ && args.len() == 2 {
            match (eval_expr(args[0], param, x), eval_expr(args[1], param, x)) {
                (Some(a), Some(b)) => Some(wrap_add(a, b)),
                _ => None,
            }
        } else {
            None
        },
        ExprModel::FnDef { params, body, span } => None,
        ExprModel::Block { bindings, tail, span } => if bindings.len() == 0 {
            eval_expr(*tail, param, x)
        } else {
            None
        },
    }
}

/// The value of every handle after running an instruction sequence on one
/// input: handle 0 is the input, and the instruction at index j defines
/// handle j + 1.
pub open spec fn eval_insts(insts: Seq<InstModel>, x: i64) -> Seq<i64>
    decreases insts.len(),
{
    if insts.len() == 0 {
        seq![x]
    } else {
        let prev = eval_insts(insts.drop_last(), x);
        let v = match insts.last() {
            InstModel::Const { value } => value,
            InstModel::Call { callee, args } => if args.len() == 2 && 0 <= args[0] < prev.len()
                && 0 <= args[1] < prev.len() {
                wrap_add(prev[args[0]], prev[args[1]])
            } else {
                0
            },
        };
        prev.push(v)
    }
}

/// What a finished IR function computes on one input.
pub open spec fn eval_ir_model(ir: IrModel, x: i64) -> i64 {
    eval_insts(ir.insts, x)[ir.ret]
}

proof fn lemma_eval_len(insts: Seq<InstModel>, x: i64)
    ensures
        eval_insts(insts, x).len() == insts.len() + 1,
    decreases insts.len(),
{
    if insts.len() > 0 {
        lemma_eval_len(insts.drop_last(), x);
    }
}

proof fn lemma_eval_first(insts: Seq<InstModel>, x: i64)
    ensures
        eval_insts(insts, x).len() == insts.len() + 1,
        eval_insts(insts, x)[0] == x,
    decreases insts.len(),
{
    if insts.len() > 0 {
        lemma_eval_first(insts.drop_last(), x);
    }
}

/// Appending instructions never changes the values of handles already
/// defined.
proof fn lemma_eval_stable(a: Seq<InstModel>, b: Seq<InstModel>, x: i64)
    ensures
        eval_insts(a + b, x).len() == a.len() + b.len() + 1,
        forall|i: int|
            0 <= i <= a.len() ==> eval_insts(a + b, x)[i] == eval_insts(a, x)[i],
    decreases b.len(),
{
    lemma_eval_len(a, x);
    lemma_eval_len(a + b, x);
    if b.len() == 0 {
        assert(a + b =~= a);
    } else {
        assert((a + b).drop_last() =~= a + b.drop_last());
        lemma_eval_stable(a, b.drop_last(), x);
        lemma_eval_len(a + b.drop_last(), x);
    }
}

proof fn lemma_expr_eval(e: ExprModel, param: Seq<char>, x: i64, prefix: Seq<InstModel>)
    requires
        lower_expr(e, param, prefix.len() as nat) is Ok,
        eval_expr(e, param, x) is Some,
    ensures
        ({
            let r = lower_expr(e, param, prefix.len() as nat)->Ok_0;
            let vals = eval_insts(prefix + r.0, x);
            0 <= r.1 < vals.len() && vals[r.1] == eval_expr(e, param, x)->0
        }),
    decreases e,
{
    let n = prefix.len() as nat;
    let r = lower_expr(e, param, n)->Ok_0;
    lemma_lower_expr_wf(e, param, n);
    match e {
        ExprModel::Num { value, span } => {
            assert((prefix + r.0).drop_last() =~= prefix);
            assert((prefix + r.0).last() == InstModel::Const { value });
            lemma_eval_len(prefix, x);
        },
        ExprModel::Ident { id } => {
            assert(prefix + r.0 =~= prefix);
            lemma_eval_first(prefix, x);
        },
        ExprModel::Call { callee, args, span } => {
            let ar = lower_args(args, param, n)->Ok_0;
            let e0 = eval_expr(args[0], param, x);
            let e1 = eval_expr(args[1], param, x);
            assert(e0 is Some && e1 is Some);
            assert forall|k: int| 0 <= k < args.len() implies eval_expr(
                #[trigger] args[k],
                param,
                x,
            ) is Some by {
                if k == 0 {
                } else {
                    assert(k == 1);
                }
            }
            lemma_args_eval(args, param, x, prefix);
            lemma_lower_args_wf(args, param, n);
            let prev = eval_insts(prefix + ar.0, x);
            lemma_eval_len(prefix + ar.0, x);
            assert((prefix + r.0).drop_last() =~= prefix + ar.0);
            assert((prefix + r.0).last() == InstModel::Call { callee: crate::lower::Builtin::Add, args: ar.1 });
            assert(prev[ar.1[0]] == e0->0);
            assert(prev[ar.1[1]] == e1->0);
            assert(eval_insts(prefix + r.0, x) == prev.push(wrap_add(e0->0, e1->0)));
            lemma_eval_len(prefix + r.0, x);
        },
        ExprModel::FnDef { params, body, span } => {},
        ExprModel::Block { bindings, tail, span } => {
            lemma_expr_eval(*tail, param, x, prefix);
        },
    }
}

proof fn lemma_args_eval(args: Seq<ExprModel>, param: Seq<char>, x: i64, prefix: Seq<InstModel>)
    requires
        lower_args(args, param, prefix.len() as nat) is Ok,
        forall|k: int| 0 <= k < args.len() ==> eval_expr(#[trigger] args[k], param, x) is Some,
    ensures
        ({
            let r = lower_args(args, param, prefix.len() as nat)->Ok_0;
            let vals = eval_insts(prefix + r.0, x);
            r.1.len() == args.len() && forall|k: int|
                0 <= k < args.len() ==> 0 <= #[trigger] r.1[k] < vals.len() && vals[r.1[k]]
                    == eval_expr(args[k], param, x)->0
        }),
    decreases args,
{
    let n = prefix.len() as nat;
    let r = lower_args(args, param, n)->Ok_0;
    if args.len() == 0 {
        assert(prefix + r.0 =~= prefix);
        lemma_eval_len(prefix, x);
    } else {
        let first = lower_expr(args[0], param, n)->Ok_0;
        let m = (n + first.0.len()) as nat;
        lemma_expr_eval(args[0], param, x, prefix);
        lemma_lower_expr_wf(args[0], param, n);
        assert(forall|k: int|
            0 <= k < args.drop_first().len() ==> eval_expr(
                #[trigger] args.drop_first()[k],
                param,
                x,
            ) is Some);
        assert((prefix + first.0).len() == m);
        lemma_args_eval(args.drop_first(), param, x, prefix + first.0);
        lemma_lower_args_wf(args.drop_first(), param, m);
        let rest = lower_args(args.drop_first(), param, m)->Ok_0;
        assert(r.0 == first.0 + rest.0);
        assert(r.1 == seq![first.1] + rest.1);
        assert(prefix + r.0 =~= (prefix + first.0) + rest.0);
        let vals = eval_insts(prefix + r.0, x);
        lemma_eval_stable(prefix + first.0, rest.0, x);
        lemma_eval_len(prefix + first.0, x);
        assert(vals[first.1] == eval_insts(prefix + first.0, x)[first.1]);
        assert forall|k: int| 0 <= k < args.len() implies 0 <= #[trigger] r.1[k] < vals.len()
            && vals[r.1[k]] == eval_expr(args[k], param, x)->0 by {
            if k == 0 {
                assert(r.1[0] == first.1);
            } else {
                assert(r.1[k] == rest.1[k - 1]);
                assert(args.drop_first()[k - 1] == args[k]);
            }
        }
    }
}

/// Lowering preserves meaning: whenever the entry body both lowers and has
/// a value on an input, running the lowered IR function on that input
/// computes exactly that value. In particular, the body add(x, 1) maps 41
/// to 42.
pub proof fn lemma_lowering_preserves_eval(param: Seq<char>, body: ExprModel, x: i64)
    requires
        lower_entry_model(param, body) is Ok,
        eval_expr(body, param, x) is Some,
    ensures
        eval_ir_model(lower_entry_model(param, body)->Ok_0, x) == eval_expr(body, param, x)->0,
{
    let r = lower_expr(body, param, 0)->Ok_0;
    lemma_expr_eval(body, param, x, Seq::empty());
    assert(Seq::<InstModel>::empty() + r.0 =~= r.0);
}

/// Every body in the supported fragment (a literal, the parameter, or an
/// "add" call tree over such bodies) has a value on every input.
pub proof fn lemma_supported_body_evaluates(e: ExprModel, param: Seq<char>, x: i64)
    requires
        crate::laws::supported_body(e, param),
    ensures
        eval_expr(e, param, x) is Some,
    decreases e,
{
    match e {
        ExprModel::Call { callee, args, span } => {
            lemma_supported_body_evaluates(args[0], param, x);
            lemma_supported_body_evaluates(args[1], param, x);
        },
        _ => {},
    }
}

} // verus!
