use vstd::prelude::*;
use crate::ast::{AssignModel, ExprModel, Expression, Identifier, Program, ProgramModel};
use crate::error::{CompileError, ErrModel};

verus! {

/// The reserved name of the program's entry binding.
pub open spec fn entry_name() -> Seq<char> {
    "main"@
}

/// The first top-level assignment bound to the entry name, if any.
pub open spec fn find_entry(assigns: Seq<AssignModel>) -> Option<AssignModel>
    decreases assigns.len(),
{
    if assigns.len() == 0 {
        None
    } else if assigns[0].name.name == entry_name() {
        Some(assigns[0])
    } else {
        find_entry(assigns.drop_first())
    }
}

/// What entry resolution yields: the name of the entry function's one
/// parameter, and its body expression.
pub struct EntryModel {
    pub param: Seq<char>,
    pub body: ExprModel,
}

/// What resolving a program's entry means: the first top-level binding named
/// "main" must exist, must bind a function definition, and that function
/// must declare exactly one parameter.
pub open spec fn resolve_entry_model(p: ProgramModel) -> Result<EntryModel, ErrModel> {
    match find_entry(p.assignments) {
        None => Err(ErrModel::MissingEntry),
        Some(a) => match *a.value {
            ExprModel::FnDef { params, body, span } => if params.len() == 1 {
                Ok(EntryModel { param: params[0].name, body: *body })
            } else {
                Err(ErrModel::WrongParameterCount { count: params.len(), span })
            },
            _ => Err(ErrModel::EntryNotFunction { span: a.span }),
        },
    }
}

/// Scans the program's top-level assignments for the entry binding and
/// validates its shape, yielding the parameter and body for lowering.
#[verifier::loop_isolation(false)]
pub fn resolve_entry<'a>(program: &'a Program) -> (r: Result<
    (&'a Identifier, &'a Expression),
    CompileError,
>)
    ensures
        match resolve_entry_model(program.model()) {
            Ok(m) => r matches Ok(pr) && pr.0.model().name == m.param && pr.1.model() == m.body,
            Err(e) => r matches Err(err) && err.model() == e,
        },
{
    let ghost all: Seq<AssignModel> = program.model().assignments;
    let n = program.assignments.len();
    let mut i: usize = 0;
    proof {
        assert(all.skip(0) =~= all);
    }
    while i < n
        invariant
            i <= n,
            find_entry(all) == find_entry(all.skip(i as int)),
        decreases n - i,
    {
        proof {
            assert(all[i as int] == program.assignments@[i as int].model());
            assert(all.skip(i as int)[0] == all[i as int]);
            assert(all.skip(i as int).drop_first() =~= all.skip(i as int + 1));
        }
        let a = &program.assignments[i];
        if a.identifier.is_named("main") {
            proof {
                assert("main"@ == entry_name());
                assert(find_entry(all) == Some(a.model()));
            }
            match &*a.expression {
                Expression::FunctionDefinition(f) => {
                    if f.parameters.len() == 1 {
                        return Ok((&f.parameters[0], &*f.body));
                    } else {
                        return Err(
                            CompileError::WrongParameterCount {
                                count: f.parameters.len(),
                                span: f.span,
                            },
                        );
                    }
                },
                _ => {
                    return Err(CompileError::EntryNotFunction { span: a.span });
                },
            }
        }
        i = i + 1;
    }
    proof {
        assert(all.skip(n as int) =~= Seq::<AssignModel>::empty());
    }
    Err(CompileError::MissingEntry)
}

} // verus!
