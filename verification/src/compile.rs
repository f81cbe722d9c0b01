use vstd::prelude::*;
use cranelift::codegen::ir::Value;
use crate::ast::{Program, ProgramModel};
use crate::backend::{
    FuncBuild, declare_builtin_import, declare_entry_export, define_entry, emit_call, emit_const,
    emit_return, finish_object, import_func_ref, new_entry_func, new_host_module,
};
use crate::error::{CompileError, ErrModel};
use crate::lower::{
    IrFunction, IrInst, IrModel, builtin_name, inst_wf, ir_wf, lower_entry, lower_entry_model,
};
use crate::resolve::{resolve_entry, resolve_entry_model};

verus! {

/// What the pipeline from a built program to a finished IR function
/// decides: entry resolution, then lowering. Everything after that is the
/// backend's serialization.
pub open spec fn frontend_model(p: ProgramModel) -> Result<IrModel, ErrModel> {
    match resolve_entry_model(p) {
        Err(e) => Err(e),
        Ok(en) => lower_entry_model(en.param, en.body),
    }
}

/// Serializes a well-formed IR function through the code-generation
/// backend: one exported entry symbol over the fixed signature, one
/// imported symbol per builtin call, the instructions in sequence, and the
/// return last. Whatever the backend reports comes back as a backend
/// error; on success the object buffer is never empty.
#[verifier::loop_isolation(false)]
pub fn emit_object(ir: &IrFunction) -> (r: Result<Vec<u8>, CompileError>)
    requires
        ir_wf(ir.model()),
    ensures
        r matches Ok(bytes) ==> bytes@.len() > 0,
        r matches Err(e) ==> e.model() matches ErrModel::Backend { .. },
{
    let mut module = match new_host_module() {
        Ok(m) => m,
        Err(message) => return Err(CompileError::Backend { message }),
    };
    let (mut fb, param) = new_entry_func();
    let mut vals: Vec<Value> = Vec::new();
    vals.push(param);
    let n = ir.insts.len();
    let mut j: usize = 0;
    while j < n
        invariant
            j <= n,
            vals@.len() == j + 1,
        decreases n - j,
    {
        proof {
            assert(ir.model().insts[j as int] == ir.insts@[j as int].model());
            assert(inst_wf(ir.model().insts[j as int], j as int));
        }
        match &ir.insts[j] {
            IrInst::Const { value } => {
                let v = emit_const(&mut fb, *value);
                vals.push(v);
            },
            IrInst::Call { callee, args } => {
                let id = match declare_builtin_import(&mut module, builtin_name(*callee)) {
                    Ok(id) => id,
                    Err(message) => return Err(CompileError::Backend { message }),
                };
                let fref = import_func_ref(&mut module, id, &mut fb);
                let m = args.len();
                let mut argvals: Vec<Value> = Vec::new();
                let mut k: usize = 0;
                while k < m
                    invariant
                        k <= m,
                        argvals@.len() == k,
                        vals@.len() == j + 1,
                    decreases m - k,
                {
                    proof {
                        assert(crate::lower::handles_model(args@)[k as int] == args@[k as int]
                            as int);
                    }
                    let idx = args[k];
                    let v = vals[idx];
                    argvals.push(v);
                    k = k + 1;
                }
                let v = emit_call(&mut fb, fref, &argvals);
                vals.push(v);
            },
        }
        j = j + 1;
    }
    proof {
        assert(ir.model().ret <= ir.model().insts.len());
    }
    let rv = vals[ir.ret];
    emit_return(&mut fb, rv);
    let entry_id = match declare_entry_export(&mut module, "tempo_entry") {
        Ok(id) => id,
        Err(message) => return Err(CompileError::Backend { message }),
    };
    if let Err(message) = define_entry(&mut module, entry_id, fb) {
        return Err(CompileError::Backend { message });
    }
    match finish_object(module) {
        Ok(bytes) => Ok(bytes),
        Err(message) => Err(CompileError::Backend { message }),
    }
}

/// Compiles a built program to relocatable object bytes: resolves the
/// entry binding, lowers its body to IR, and hands the finished IR to the
/// backend for serialization. Any failure aborts the run with its error;
/// no partial output is ever produced.
pub fn compile_program_to_object_bytes(program: &Program) -> (r: Result<Vec<u8>, CompileError>)
    ensures
        match frontend_model(program.model()) {
            Err(e) => r matches Err(err) && err.model() == e,
            Ok(ir) => (r matches Ok(bytes) ==> bytes@.len() > 0) && (r matches Err(err)
                ==> err.model() matches ErrModel::Backend { .. }),
        },
{
    let (param, body) = match resolve_entry(program) {
        Ok(pr) => pr,
        Err(e) => return Err(e),
    };
    let ir = match lower_entry(param, body) {
        Ok(ir) => ir,
        Err(e) => return Err(e),
    };
    emit_object(&ir)
}

} // verus!
