use vstd::prelude::*;

use cranelift::codegen::Context;
use cranelift::codegen::cursor::{Cursor, FuncCursor};
use cranelift::codegen::ir::{
    AbiParam, FuncRef, Function, InstBuilder, Signature, UserFuncName, Value, types,
};
use cranelift::codegen::isa::CallConv;
use cranelift::codegen::settings::{self, Configurable};
use cranelift_module::{FuncId, Linkage, Module};
use cranelift_object::{ObjectBuilder, ObjectModule};

verus! {

// ---------------------------------------------------------------------------
// The boundary to the code-generation backend.
//
// Register allocation, instruction selection and object-container formatting
// belong to cranelift; the library hands it one finished single-block
// function through the narrow, trusted interface below. Each value of these
// backend types is opaque here: the library only carries the handles around.
// ---------------------------------------------------------------------------

#[verifier::external_type_specification]
#[verifier::external_body]
pub struct ExValue(cranelift::codegen::ir::Value);

#[verifier::external_type_specification]
#[verifier::external_body]
pub struct ExBlock(cranelift::codegen::ir::Block);

#[verifier::external_type_specification]
#[verifier::external_body]
pub struct ExFuncRef(cranelift::codegen::ir::FuncRef);

#[verifier::external_type_specification]
#[verifier::external_body]
pub struct ExFuncId(cranelift_module::FuncId);

#[verifier::external_type_specification]
#[verifier::external_body]
pub struct ExFunction(cranelift::codegen::ir::Function);

#[verifier::external_type_specification]
#[verifier::external_body]
pub struct ExObjectModule(cranelift_object::ObjectModule);

/// The entry function under construction: its cranelift function body and
/// its single, already-sealed block.
pub struct FuncBuild {
    pub func: Function,
    pub block: cranelift::codegen::ir::Block,
}

/// Relies on cranelift_native::builder, cranelift's settings, and
/// cranelift_object's ObjectBuilder / ObjectModule: instantiates a
/// code-generation module bound to the host target with
/// position-independent code enabled.
#[verifier::external_body]
pub(crate) fn new_host_module() -> (r: Result<ObjectModule, String>) {
    let mut fb = settings::builder();
    fb.set("is_pic", "true").map_err(|e| e.to_string())?;
    let isa = cranelift_native::builder().map_err(|e| e.to_string())?.finish(
        settings::Flags::new(fb),
    ).map_err(|e| e.to_string())?;
    let ob = ObjectBuilder::new(isa, "tempo_module", cranelift_module::default_libcall_names())
        .map_err(|e| e.to_string())?;
    Ok(ObjectModule::new(ob))
}

/// Relies on cranelift's Function::with_name_signature and
/// DataFlowGraph::make_block / append_block_param: a fresh function taking
/// one 64-bit integer and returning one 64-bit integer under the SystemV
/// calling convention, with its single block and that block's one parameter
/// value.
#[verifier::external_body]
pub(crate) fn new_entry_func() -> (r: (FuncBuild, Value)) {
    let mut sig = Signature::new(CallConv::SystemV);
    sig.params.push(AbiParam::new(types::I64));
    sig.returns.push(AbiParam::new(types::I64));
    let mut func = Function::with_name_signature(UserFuncName::default(), sig);
    let block = func.dfg.make_block();
    func.layout.append_block(block);
    let param = func.dfg.append_block_param(block, types::I64);
    (FuncBuild { func, block }, param)
}

/// Relies on cranelift's InstBuilder::iconst, inserted at the bottom of the
/// block: appends a 64-bit constant load and returns its value handle.
#[verifier::external_body]
pub(crate) fn emit_const(fb: &mut FuncBuild, value: i64) -> (r: Value) {
    let mut cur = FuncCursor::new(&mut fb.func).at_bottom(fb.block);
    cur.ins().iconst(types::I64, value)
}

/// Relies on cranelift_module's Module::declare_function with import
/// linkage: declares the named builtin, a function of two 64-bit integers
/// to one, for an external linker to resolve.
#[verifier::external_body]
pub(crate) fn declare_builtin_import(module: &mut ObjectModule, name: &str) -> (r: Result<
    FuncId,
    String,
>) {
    let mut sig = Signature::new(CallConv::SystemV);
    sig.params.push(AbiParam::new(types::I64));
    sig.params.push(AbiParam::new(types::I64));
    sig.returns.push(AbiParam::new(types::I64));
    module.declare_function(name, Linkage::Import, &sig).map_err(|e| e.to_string())
}

/// Relies on cranelift_module's Module::declare_func_in_func: makes a
/// declared function referable from the function under construction.
#[verifier::external_body]
pub(crate) fn import_func_ref(module: &mut ObjectModule, id: FuncId, fb: &mut FuncBuild) -> (r:
    FuncRef) {
    module.declare_func_in_func(id, &mut fb.func)
}

/// Relies on cranelift's InstBuilder::call, inserted at the bottom of the
/// block: appends a call over the given argument value handles, in order,
/// and returns the handle of its single result.
#[verifier::external_body]
pub(crate) fn emit_call(fb: &mut FuncBuild, callee: FuncRef, args: &Vec<Value>) -> (r: Value) {
    let mut cur = FuncCursor::new(&mut fb.func).at_bottom(fb.block);
    let inst = cur.ins().call(callee, args.as_slice());
    cur.func.dfg.first_result(inst)
}

/// Relies on cranelift's InstBuilder::return_, inserted at the bottom of
/// the block: appends the return instruction carrying the given value.
#[verifier::external_body]
pub(crate) fn emit_return(fb: &mut FuncBuild, value: Value) {
    let mut cur = FuncCursor::new(&mut fb.func).at_bottom(fb.block);
    cur.ins().return_(&[value]);
}

/// Relies on cranelift_module's Module::declare_function with export
/// linkage: declares the program's entry symbol, a function of one 64-bit
/// integer to one.
#[verifier::external_body]
pub(crate) fn declare_entry_export(module: &mut ObjectModule, name: &str) -> (r: Result<
    FuncId,
    String,
>) {
    let mut sig = Signature::new(CallConv::SystemV);
    sig.params.push(AbiParam::new(types::I64));
    sig.returns.push(AbiParam::new(types::I64));
    module.declare_function(name, Linkage::Export, &sig).map_err(|e| e.to_string())
}

/// Relies on cranelift_module's Module::define_function via
/// Context::for_function: hands the finished function body to the backend
/// to compile under the declared entry symbol.
#[verifier::external_body]
pub(crate) fn define_entry(module: &mut ObjectModule, id: FuncId, fb: FuncBuild) -> (r: Result<
    (),
    String,
>) {
    let mut ctx = Context::for_function(fb.func);
    module.define_function(id, &mut ctx).map_err(|e| e.to_string())
}

/// Relies on cranelift_object's ObjectModule::finish and
/// ObjectProduct::emit, which writes the object through the object crate:
/// serializes the module to relocatable object bytes. A successful write
/// always begins with the object file header, so the buffer is never empty.
#[verifier::external_body]
pub(crate) fn finish_object(module: ObjectModule) -> (r: Result<Vec<u8>, String>)
    ensures
        r matches Ok(bytes) ==> bytes@.len() > 0,
{
    module.finish().emit().map_err(|e| e.to_string())
}

} // verus!
