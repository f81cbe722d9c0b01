use vstd::prelude::*;
use vstd::string::StringExecFns;
use crate::parse_tree::{NodeKind, Span};

verus! {

/// Every way a compilation run can fail after parsing: structural faults in
/// the parse tree, entry-resolution faults, lowering faults, and failures
/// reported by the external code-generation backend. Every error is terminal
/// for the run; no partial output is ever produced.
#[derive(Debug)]
pub enum CompileError {
    /// A parse-tree node had the wrong kind tag.
    ExpectedKind { expected: NodeKind, found: NodeKind, text: String },
    /// A required child node was absent.
    MissingChild { expected: NodeKind },
    /// An expression wrapper node had no child at all.
    EmptyExpression,
    /// An expression wrapper node held a child of an impossible kind.
    UnexpectedExpressionChild { found: NodeKind, text: String },
    /// A block node carried nodes after its trailing expression.
    ExtraBlockNodes,
    /// A node of an impossible kind stood at program top level.
    UnexpectedProgramNode { found: NodeKind, text: String },
    /// A number node's text was not a decimal 64-bit signed integer.
    InvalidNumber { text: String },
    /// No top-level binding is named "main".
    MissingEntry,
    /// The "main" binding's expression is not a function definition.
    EntryNotFunction { span: Span },
    /// The entry function does not declare exactly one parameter.
    WrongParameterCount { count: usize, span: Span },
    /// An identifier was referenced that is not the entry parameter.
    UndefinedIdentifier { name: String, span: Span },
    /// A call named a callee that the builtin dispatch table does not know.
    UnsupportedCallee { name: String, span: Span },
    /// A call handed a builtin the wrong number of arguments.
    WrongArgumentCount { required: usize, given: usize, span: Span },
    /// A function definition stood nested inside the entry body.
    NestedFunction { span: Span },
    /// A block with local bindings stood inside the entry body.
    BlockBindings { span: Span },
    /// The external code-generation backend reported a failure.
    Backend { message: String },
}

/// Mathematical model of a `CompileError`: the same variants over `Seq`.
pub enum ErrModel {
    ExpectedKind { expected: NodeKind, found: NodeKind, text: Seq<char> },
    MissingChild { expected: NodeKind },
    EmptyExpression,
    UnexpectedExpressionChild { found: NodeKind, text: Seq<char> },
    ExtraBlockNodes,
    UnexpectedProgramNode { found: NodeKind, text: Seq<char> },
    InvalidNumber { text: Seq<char> },
    MissingEntry,
    EntryNotFunction { span: Span },
    WrongParameterCount { count: nat, span: Span },
    UndefinedIdentifier { name: Seq<char>, span: Span },
    UnsupportedCallee { name: Seq<char>, span: Span },
    WrongArgumentCount { required: nat, given: nat, span: Span },
    NestedFunction { span: Span },
    BlockBindings { span: Span },
    Backend { message: Seq<char> },
}

impl CompileError {
    pub open spec fn model(self) -> ErrModel {
        match self {
            CompileError::ExpectedKind { expected, found, text } => ErrModel::ExpectedKind {
                expected,
                found,
                text: text@,
            },
            CompileError::MissingChild { expected } => ErrModel::MissingChild { expected },
            CompileError::EmptyExpression => ErrModel::EmptyExpression,
            CompileError::UnexpectedExpressionChild { found, text } => ErrModel::UnexpectedExpressionChild {
                found,
                text: text@,
            },
            CompileError::ExtraBlockNodes => ErrModel::ExtraBlockNodes,
            CompileError::UnexpectedProgramNode { found, text } => ErrModel::UnexpectedProgramNode {
                found,
                text: text@,
            },
            CompileError::InvalidNumber { text } => ErrModel::InvalidNumber { text: text@ },
            CompileError::MissingEntry => ErrModel::MissingEntry,
            CompileError::EntryNotFunction { span } => ErrModel::EntryNotFunction { span },
            CompileError::WrongParameterCount { count, span } => ErrModel::WrongParameterCount {
                count: count as nat,
                span,
            },
            CompileError::UndefinedIdentifier { name, span } => ErrModel::UndefinedIdentifier {
                name: name@,
                span,
            },
            CompileError::UnsupportedCallee { name, span } => ErrModel::UnsupportedCallee {
                name: name@,
                span,
            },
            CompileError::WrongArgumentCount { required, given, span } => ErrModel::WrongArgumentCount {
                required: required as nat,
                given: given as nat,
                span,
            },
            CompileError::NestedFunction { span } => ErrModel::NestedFunction { span },
            CompileError::BlockBindings { span } => ErrModel::BlockBindings { span },
            CompileError::Backend { message } => ErrModel::Backend { message: message@ },
        }
    }
}

/// Display name of a parse-tree node kind, for diagnostics.
pub open spec fn kind_name_model(k: NodeKind) -> Seq<char> {
    match k {
        NodeKind::Program => "program"@,
        NodeKind::Assignment => "assignment"@,
        NodeKind::Identifier => "identifier"@,
        NodeKind::Number => "number"@,
        NodeKind::FunctionCall => "function_call"@,
        NodeKind::FunctionArguments => "function_arguments"@,
        NodeKind::FunctionDefinition => "function_definition"@,
        NodeKind::IdentList => "ident_list"@,
        NodeKind::Block => "block"@,
        NodeKind::Expression => "expression"@,
        NodeKind::EndOfInput => "end_of_input"@,
    }
}

pub fn kind_name(k: NodeKind) -> (r: &'static str)
    ensures
        r@ == kind_name_model(k),
{
    match k {
        NodeKind::Program => "program",
        NodeKind::Assignment => "assignment",
        NodeKind::Identifier => "identifier",
        NodeKind::Number => "number",
        NodeKind::FunctionCall => "function_call",
        NodeKind::FunctionArguments => "function_arguments",
        NodeKind::FunctionDefinition => "function_definition",
        NodeKind::IdentList => "ident_list",
        NodeKind::Block => "block",
        NodeKind::Expression => "expression",
        NodeKind::EndOfInput => "end_of_input",
    }
}

/// The diagnostic text that each error carries to the boundary.
pub open spec fn err_message(e: ErrModel) -> Seq<char> {
    match e {
        ErrModel::ExpectedKind { expected, found, text } => "expected "@ + kind_name_model(
            expected,
        ) + ", got "@ + kind_name_model(found) + " for \""@ + text + "\""@,
        ErrModel::MissingChild { expected } => "expected "@ + kind_name_model(expected)
            + " but found nothing"@,
        ErrModel::EmptyExpression => "expression node was unexpectedly empty"@,
        ErrModel::UnexpectedExpressionChild { found, text } => "unexpected "@ + kind_name_model(
            found,
        ) + " inside expression for \""@ + text + "\""@,
        ErrModel::ExtraBlockNodes => "block: unexpected extra nodes after expression"@,
        ErrModel::UnexpectedProgramNode { found, text } => "unexpected "@ + kind_name_model(found)
            + " inside program for \""@ + text + "\""@,
        ErrModel::InvalidNumber { text } => "failed to parse number \""@ + text + "\""@,
        ErrModel::MissingEntry => "no main function assignment found in the program"@,
        ErrModel::EntryNotFunction { span } => "main assignment is not a function definition"@,
        ErrModel::WrongParameterCount { count, span } => "main function must have exactly one parameter"@,
        ErrModel::UndefinedIdentifier { name, span } => "undefined identifier '"@ + name
            + "' used as value"@,
        ErrModel::UnsupportedCallee { name, span } => "unsupported function call to '"@ + name
            + "'"@,
        ErrModel::WrongArgumentCount { required, given, span } => "wrong number of arguments in call to builtin function"@,
        ErrModel::NestedFunction { span } => "nested function definitions are not supported for compilation"@,
        ErrModel::BlockBindings { span } => "assignments within blocks are not yet supported for compilation"@,
        ErrModel::Backend { message } => "backend error: "@ + message,
    }
}

impl CompileError {
    /// The diagnostic text of this error, for the boundary to report.
    pub fn message(&self) -> (r: String)
        ensures
            r@ == err_message(self.model()),
    {
        match self {
            CompileError::ExpectedKind { expected, found, text } => {
                let mut m = String::new();
                m.append("expected ");
                m.append(kind_name(*expected));
                m.append(", got ");
                m.append(kind_name(*found));
                m.append(" for \"");
                m.append(text.as_str());
                m.append("\"");
                proof {
                    assert(m@ =~= err_message(self.model()));
                }
                m
            },
            CompileError::MissingChild { expected } => {
                let mut m = String::new();
                m.append("expected ");
                m.append(kind_name(*expected));
                m.append(" but found nothing");
                proof {
                    assert(m@ =~= err_message(self.model()));
                }
                m
            },
            CompileError::EmptyExpression => {
                let m = "expression node was unexpectedly empty".to_owned();
                m
            },
            CompileError::UnexpectedExpressionChild { found, text } => {
                let mut m = String::new();
                m.append("unexpected ");
                m.append(kind_name(*found));
                m.append(" inside expression for \"");
                m.append(text.as_str());
                m.append("\"");
                proof {
                    assert(m@ =~= err_message(self.model()));
                }
                m
            },
            CompileError::ExtraBlockNodes => {
                "block: unexpected extra nodes after expression".to_owned()
            },
            CompileError::UnexpectedProgramNode { found, text } => {
                let mut m = String::new();
                m.append("unexpected ");
                m.append(kind_name(*found));
                m.append(" inside program for \"");
                m.append(text.as_str());
                m.append("\"");
                proof {
                    assert(m@ =~= err_message(self.model()));
                }
                m
            },
            CompileError::InvalidNumber { text } => {
                let mut m = String::new();
                m.append("failed to parse number \"");
                m.append(text.as_str());
                m.append("\"");
                proof {
                    assert(m@ =~= err_message(self.model()));
                }
                m
            },
            CompileError::MissingEntry => {
                "no main function assignment found in the program".to_owned()
            },
            CompileError::EntryNotFunction { span } => {
                "main assignment is not a function definition".to_owned()
            },
            CompileError::WrongParameterCount { count, span } => {
                "main function must have exactly one parameter".to_owned()
            },
            CompileError::UndefinedIdentifier { name, span } => {
                let mut m = String::new();
                m.append("undefined identifier '");
                m.append(name.as_str());
                m.append("' used as value");
                proof {
                    assert(m@ =~= err_message(self.model()));
                }
                m
            },
            CompileError::UnsupportedCallee { name, span } => {
                let mut m = String::new();
                m.append("unsupported function call to '");
                m.append(name.as_str());
                m.append("'");
                proof {
                    assert(m@ =~= err_message(self.model()));
                }
                m
            },
            CompileError::WrongArgumentCount { required, given, span } => {
                "wrong number of arguments in call to builtin function".to_owned()
            },
            CompileError::NestedFunction { span } => {
                "nested function definitions are not supported for compilation".to_owned()
            },
            CompileError::BlockBindings { span } => {
                "assignments within blocks are not yet supported for compilation".to_owned()
            },
            CompileError::Backend { message } => {
                let mut m = String::new();
                m.append("backend error: ");
                m.append(message.as_str());
                proof {
                    assert(m@ =~= err_message(self.model()));
                }
                m
            },
        }
    }
}

} // verus!
