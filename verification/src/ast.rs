use vstd::prelude::*;
use vstd::pervasive::arbitrary;
use crate::error::{CompileError, ErrModel};
use crate::numeral::{decimal_i64, parse_decimal_i64};
use crate::parse_tree::{NodeKind, NodeModel, ParseNode, Span};

verus! {

broadcast use crate::parse_tree::lemma_parse_node_model;

// ---------------------------------------------------------------------------
// The typed abstract syntax tree.
//
// A Program owns every nested node, is built once from the parse tree, and is
// only read afterwards. Expression is a closed variant set: the language's
// expression forms are fixed by design.
// ---------------------------------------------------------------------------

#[derive(Debug)]
pub struct Identifier {
    pub name: String,
    pub span: Span,
}

#[derive(Debug)]
pub struct Number {
    pub value: i64,
    pub span: Span,
}

#[derive(Debug)]
pub enum Expression {
    Number(Number),
    Identifier(Identifier),
    FunctionCall(FunctionCall),
    FunctionDefinition(FunctionDefinition),
    Block(BlockExpr),
}

#[derive(Debug)]
pub struct FunctionCall {
    pub function_name: Identifier,
    pub arguments: Vec<Expression>,
    pub span: Span,
}

#[derive(Debug)]
pub struct FunctionDefinition {
    pub parameters: Vec<Identifier>,
    pub body: Box<Expression>,
    pub span: Span,
}

#[derive(Debug)]
pub struct BlockExpr {
    pub assignments: Vec<Assignment>,
    pub expression: Box<Expression>,
    pub span: Span,
}

#[derive(Debug)]
pub struct Assignment {
    pub identifier: Identifier,
    pub expression: Box<Expression>,
    pub span: Span,
}

#[derive(Debug)]
pub struct Program {
    pub assignments: Vec<Assignment>,
    pub span: Span,
}

/// Any node of the abstract syntax tree.
#[derive(Debug)]
pub enum AstNode {
    Program(Program),
    Assignment(Assignment),
    Expression(Expression),
    Identifier(Identifier),
    Number(Number),
    FunctionCall(FunctionCall),
    FunctionDefinition(FunctionDefinition),
    Block(BlockExpr),
}

// ---------------------------------------------------------------------------
// Mathematical models of the tree: the same shape over Seq.
// ---------------------------------------------------------------------------

pub struct IdentModel {
    pub name: Seq<char>,
    pub span: Span,
}

pub enum ExprModel {
    Num { value: i64, span: Span },
    Ident { id: IdentModel },
    Call { callee: IdentModel, args: Seq<ExprModel>, span: Span },
    FnDef { params: Seq<IdentModel>, body: Box<ExprModel>, span: Span },
    Block { bindings: Seq<AssignModel>, tail: Box<ExprModel>, span: Span },
}

pub struct AssignModel {
    pub name: IdentModel,
    pub value: Box<ExprModel>,
    pub span: Span,
}

pub struct ProgramModel {
    pub assignments: Seq<AssignModel>,
    pub span: Span,
}

impl Identifier {
    pub open spec fn model(self) -> IdentModel {
        IdentModel { name: self.name@, span: self.span }
    }

    /// Whether this identifier spells the given name.
    pub fn is_named(&self, name: &str) -> (r: bool)
        ensures
            r == (self.name@ == name@),
    {
        self.name == name.to_owned()
    }
}

pub open spec fn idents_models(s: Seq<Identifier>) -> Seq<IdentModel>
    decreases s,
{
    Seq::new(s.len(), |i: int| if 0 <= i < s.len() { s[i].model() } else { arbitrary() })
}

pub open spec fn exprs_models(s: Seq<Expression>) -> Seq<ExprModel>
    decreases s,
{
    Seq::new(
        s.len(),
        |i: int|
            if 0 <= i < s.len() {
                s[i].model()
            } else {
                arbitrary()
            },
    )
}

pub open spec fn assigns_models(s: Seq<Assignment>) -> Seq<AssignModel>
    decreases s,
{
    Seq::new(
        s.len(),
        |i: int|
            if 0 <= i < s.len() {
                s[i].model()
            } else {
                arbitrary()
            },
    )
}

impl Expression {
    pub open spec fn model(self) -> ExprModel
        decreases self,
    {
        match self {
            Expression::Number(n) => ExprModel::Num { value: n.value, span: n.span },
            Expression::Identifier(id) => ExprModel::Ident { id: id.model() },
            Expression::FunctionCall(c) => c.model(),
            Expression::FunctionDefinition(f) => f.model(),
            Expression::Block(b) => b.model(),
        }
    }
}

impl FunctionCall {
    pub open spec fn model(self) -> ExprModel
        decreases self,
    {
        ExprModel::Call {
            callee: self.function_name.model(),
            args: exprs_models(self.arguments@),
            span: self.span,
        }
    }
}

impl FunctionDefinition {
    pub open spec fn model(self) -> ExprModel
        decreases self,
    {
        ExprModel::FnDef {
            params: idents_models(self.parameters@),
            body: Box::new((*self.body).model()),
            span: self.span,
        }
    }
}

impl BlockExpr {
    pub open spec fn model(self) -> ExprModel
        decreases self,
    {
        ExprModel::Block {
            bindings: assigns_models(self.assignments@),
            tail: Box::new((*self.expression).model()),
            span: self.span,
        }
    }
}

impl Assignment {
    pub open spec fn model(self) -> AssignModel
        decreases self,
    {
        AssignModel {
            name: self.identifier.model(),
            value: Box::new((*self.expression).model()),
            span: self.span,
        }
    }
}

impl Program {
    pub open spec fn model(self) -> ProgramModel {
        ProgramModel { assignments: assigns_models(self.assignments@), span: self.span }
    }
}

pub open spec fn nodes_models(s: Seq<ParseNode>) -> Seq<NodeModel> {
    Seq::new(
        s.len(),
        |i: int|
            if 0 <= i < s.len() {
                s[i].model()
            } else {
                arbitrary()
            },
    )
}

// ---------------------------------------------------------------------------
// What building the tree from a parse tree means.
//
// Each function validates the node's kind tag before destructuring it, and
// the first structural mismatch aborts the whole build.
// ---------------------------------------------------------------------------

pub open spec fn build_identifier(n: NodeModel) -> Result<IdentModel, ErrModel> {
    if n.kind == NodeKind::Identifier {
        Ok(IdentModel { name: n.text, span: n.span })
    } else {
        Err(ErrModel::ExpectedKind { expected: NodeKind::Identifier, found: n.kind, text: n.text })
    }
}

pub open spec fn build_number(n: NodeModel) -> Result<(i64, Span), ErrModel> {
    if n.kind != NodeKind::Number {
        Err(ErrModel::ExpectedKind { expected: NodeKind::Number, found: n.kind, text: n.text })
    } else {
        match decimal_i64(n.text) {
            Some(v) => Ok((v, n.span)),
            None => Err(ErrModel::InvalidNumber { text: n.text }),
        }
    }
}

/// Identifiers of a parameter list, built left to right; the first faulty
/// child aborts the list.
pub open spec fn build_ident_list(cs: Seq<NodeModel>) -> Result<Seq<IdentModel>, ErrModel>
    decreases cs.len(),
{
    if cs.len() == 0 {
        Ok(Seq::empty())
    } else {
        match build_identifier(cs[0]) {
            Err(e) => Err(e),
            Ok(x) => match build_ident_list(cs.drop_first()) {
                Err(e) => Err(e),
                Ok(rest) => Ok(seq![x] + rest),
            },
        }
    }
}

pub open spec fn build_expression(n: NodeModel) -> Result<ExprModel, ErrModel>
    decreases n, 1int,
{
    if n.kind != NodeKind::Expression {
        Err(ErrModel::ExpectedKind { expected: NodeKind::Expression, found: n.kind, text: n.text })
    } else if n.children.len() == 0 {
        Err(ErrModel::EmptyExpression)
    } else {
        let c = n.children[0];
        match c.kind {
            NodeKind::Number => match build_number(c) {
                Err(e) => Err(e),
                Ok((v, sp)) => Ok(ExprModel::Num { value: v, span: sp }),
            },
            NodeKind::Identifier => match build_identifier(c) {
                Err(e) => Err(e),
                Ok(id) => Ok(ExprModel::Ident { id }),
            },
            NodeKind::FunctionCall => build_function_call(c),
            NodeKind::FunctionDefinition => build_function_definition(c),
            NodeKind::Block => build_block(c),
            _ => Err(ErrModel::UnexpectedExpressionChild { found: c.kind, text: c.text }),
        }
    }
}

/// Argument expressions of a call, built left to right; the first faulty
/// child aborts the list.
pub open spec fn build_expr_list(cs: Seq<NodeModel>) -> Result<Seq<ExprModel>, ErrModel>
    decreases cs, 2int,
{
    if cs.len() == 0 {
        Ok(Seq::empty())
    } else {
        match build_expression(cs[0]) {
            Err(e) => Err(e),
            Ok(x) => match build_expr_list(cs.drop_first()) {
                Err(e) => Err(e),
                Ok(rest) => Ok(seq![x] + rest),
            },
        }
    }
}

pub open spec fn build_function_call(n: NodeModel) -> Result<ExprModel, ErrModel>
    decreases n, 0int,
{
    if n.kind != NodeKind::FunctionCall {
        Err(
            ErrModel::ExpectedKind {
                expected: NodeKind::FunctionCall,
                found: n.kind,
                text: n.text,
            },
        )
    } else if n.children.len() < 1 {
        Err(ErrModel::MissingChild { expected: NodeKind::Identifier })
    } else {
        match build_identifier(n.children[0]) {
            Err(e) => Err(e),
            Ok(callee) => {
                if n.children.len() < 2 {
                    Err(ErrModel::MissingChild { expected: NodeKind::FunctionArguments })
                } else if n.children[1].kind != NodeKind::FunctionArguments {
                    Err(
                        ErrModel::ExpectedKind {
                            expected: NodeKind::FunctionArguments,
                            found: n.children[1].kind,
                            text: n.children[1].text,
                        },
                    )
                } else {
                    match build_expr_list(n.children[1].children) {
                        Err(e) => Err(e),
                        Ok(args) => Ok(ExprModel::Call { callee, args, span: n.span }),
                    }
                }
            },
        }
    }
}

pub open spec fn build_function_definition(n: NodeModel) -> Result<ExprModel, ErrModel>
    decreases n, 0int,
{
    if n.kind != NodeKind::FunctionDefinition {
        Err(
            ErrModel::ExpectedKind {
                expected: NodeKind::FunctionDefinition,
                found: n.kind,
                text: n.text,
            },
        )
    } else {
        let has_params = n.children.len() > 0 && n.children[0].kind == NodeKind::IdentList;
        let params = if has_params {
            build_ident_list(n.children[0].children)
        } else {
            Ok(Seq::empty())
        };
        match params {
            Err(e) => Err(e),
            Ok(ps) => {
                let body_at = if has_params {
                    1int
                } else {
                    0int
                };
                if body_at >= n.children.len() {
                    Err(ErrModel::MissingChild { expected: NodeKind::Expression })
                } else {
                    match build_expression(n.children[body_at]) {
                        Err(e) => Err(e),
                        Ok(b) => Ok(
                            ExprModel::FnDef { params: ps, body: Box::new(b), span: n.span },
                        ),
                    }
                }
            },
        }
    }
}

/// Children of a block, consumed in order: leading assignments while they
/// match, then exactly one trailing expression, with any further node a
/// fault.
pub open spec fn build_block_items(cs: Seq<NodeModel>) -> Result<
    (Seq<AssignModel>, ExprModel),
    ErrModel,
>
    decreases cs, 2int,
{
    if cs.len() == 0 {
        Err(ErrModel::MissingChild { expected: NodeKind::Expression })
    } else if cs[0].kind == NodeKind::Assignment {
        match build_assignment(cs[0]) {
            Err(e) => Err(e),
            Ok(a) => match build_block_items(cs.drop_first()) {
                Err(e) => Err(e),
                Ok(r) => Ok((seq![a] + r.0, r.1)),
            },
        }
    } else {
        match build_expression(cs[0]) {
            Err(e) => Err(e),
            Ok(tail) => {
                if cs.len() > 1 {
                    Err(ErrModel::ExtraBlockNodes)
                } else {
                    Ok((Seq::empty(), tail))
                }
            },
        }
    }
}

pub open spec fn build_block(n: NodeModel) -> Result<ExprModel, ErrModel>
    decreases n, 0int,
{
    if n.kind != NodeKind::Block {
        Err(ErrModel::ExpectedKind { expected: NodeKind::Block, found: n.kind, text: n.text })
    } else {
        match build_block_items(n.children) {
            Err(e) => Err(e),
            Ok(r) => Ok(ExprModel::Block { bindings: r.0, tail: Box::new(r.1), span: n.span }),
        }
    }
}

pub open spec fn build_assignment(n: NodeModel) -> Result<AssignModel, ErrModel>
    decreases n, 0int,
{
    if n.kind != NodeKind::Assignment {
        Err(ErrModel::ExpectedKind { expected: NodeKind::Assignment, found: n.kind, text: n.text })
    } else if n.children.len() < 1 {
        Err(ErrModel::MissingChild { expected: NodeKind::Identifier })
    } else {
        match build_identifier(n.children[0]) {
            Err(e) => Err(e),
            Ok(name) => {
                if n.children.len() < 2 {
                    Err(ErrModel::MissingChild { expected: NodeKind::Expression })
                } else {
                    match build_expression(n.children[1]) {
                        Err(e) => Err(e),
                        Ok(value) => Ok(
                            AssignModel { name, value: Box::new(value), span: n.span },
                        ),
                    }
                }
            },
        }
    }
}

/// Top level: a sequence of assignments, with end-of-input markers passed
/// over, and any other kind a fault.
pub open spec fn build_assignments(ns: Seq<NodeModel>) -> Result<Seq<AssignModel>, ErrModel>
    decreases ns.len(),
{
    if ns.len() == 0 {
        Ok(Seq::empty())
    } else if ns[0].kind == NodeKind::Assignment {
        match build_assignment(ns[0]) {
            Err(e) => Err(e),
            Ok(x) => match build_assignments(ns.drop_first()) {
                Err(e) => Err(e),
                Ok(rest) => Ok(seq![x] + rest),
            },
        }
    } else if ns[0].kind == NodeKind::EndOfInput {
        build_assignments(ns.drop_first())
    } else {
        Err(ErrModel::UnexpectedProgramNode { found: ns[0].kind, text: ns[0].text })
    }
}

pub open spec fn build_program(ns: Seq<NodeModel>) -> Result<ProgramModel, ErrModel> {
    match build_assignments(ns) {
        Err(e) => Err(e),
        Ok(assignments) => Ok(ProgramModel { assignments, span: Span { start: 0, end: 0 } }),
    }
}

// ---------------------------------------------------------------------------
// The builder itself.
// ---------------------------------------------------------------------------

/// Builds an Identifier from an identifier-tagged node.
pub fn parse_identifier(node: &ParseNode) -> (r: Result<Identifier, CompileError>)
    ensures
        match build_identifier(node.model()) {
            Ok(m) => r matches Ok(id) && id.model() == m,
            Err(e) => r matches Err(err) && err.model() == e,
        },
{
    if node.kind == NodeKind::Identifier {
        Ok(Identifier { name: node.text.clone(), span: node.span })
    } else {
        Err(
            CompileError::ExpectedKind {
                expected: NodeKind::Identifier,
                found: node.kind,
                text: node.text.clone(),
            },
        )
    }
}

/// Builds a Number from a number-tagged node, reading its text as a decimal
/// 64-bit signed integer.
pub fn parse_number(node: &ParseNode) -> (r: Result<Number, CompileError>)
    ensures
        match build_number(node.model()) {
            Ok(m) => r matches Ok(num) && (num.value, num.span) == m,
            Err(e) => r matches Err(err) && err.model() == e,
        },
{
    if node.kind != NodeKind::Number {
        return Err(
            CompileError::ExpectedKind {
                expected: NodeKind::Number,
                found: node.kind,
                text: node.text.clone(),
            },
        );
    }
    match parse_decimal_i64(node.text.as_str()) {
        Some(v) => Ok(Number { value: v, span: node.span }),
        None => Err(CompileError::InvalidNumber { text: node.text.clone() }),
    }
}

/// Builds an Expression from an expression wrapper node, which holds exactly
/// one child of a specific expression kind.
pub fn parse_expression(node: &ParseNode) -> (r: Result<Expression, CompileError>)
    ensures
        match build_expression(node.model()) {
            Ok(m) => r matches Ok(e) && e.model() == m,
            Err(e) => r matches Err(err) && err.model() == e,
        },
    decreases node, 1int,
{
    if node.kind != NodeKind::Expression {
        return Err(
            CompileError::ExpectedKind {
                expected: NodeKind::Expression,
                found: node.kind,
                text: node.text.clone(),
            },
        );
    }
    if node.children.len() == 0 {
        return Err(CompileError::EmptyExpression);
    }
    let child = &node.children[0];
    proof {
        assert(node.model().children[0] == node.children@[0].model());
        assert(decreases_to!(*node => node.children));
        assert(decreases_to!(node.children => node.children@));
        assert(decreases_to!(node.children@ => node.children@[0]));
    }
    match child.kind {
        NodeKind::Number => match parse_number(child) {
            Ok(num) => Ok(Expression::Number(num)),
            Err(e) => Err(e),
        },
        NodeKind::Identifier => match parse_identifier(child) {
            Ok(id) => Ok(Expression::Identifier(id)),
            Err(e) => Err(e),
        },
        NodeKind::FunctionCall => match parse_function_call(child) {
            Ok(c) => Ok(Expression::FunctionCall(c)),
            Err(e) => Err(e),
        },
        NodeKind::FunctionDefinition => match parse_function_definition(child) {
            Ok(f) => Ok(Expression::FunctionDefinition(f)),
            Err(e) => Err(e),
        },
        NodeKind::Block => match parse_block(child) {
            Ok(b) => Ok(Expression::Block(b)),
            Err(e) => Err(e),
        },
        _ => Err(
            CompileError::UnexpectedExpressionChild {
                found: child.kind,
                text: child.text.clone(),
            },
        ),
    }
}

/// Builds a FunctionCall from a call node: a callee identifier, then an
/// arguments container whose children are the argument expressions, in
/// order.
#[verifier::loop_isolation(false)]
pub fn parse_function_call(node: &ParseNode) -> (r: Result<FunctionCall, CompileError>)
    ensures
        match build_function_call(node.model()) {
            Ok(m) => r matches Ok(c) && c.model() == m,
            Err(e) => r matches Err(err) && err.model() == e,
        },
    decreases node, 0int,
{
    if node.kind != NodeKind::FunctionCall {
        return Err(
            CompileError::ExpectedKind {
                expected: NodeKind::FunctionCall,
                found: node.kind,
                text: node.text.clone(),
            },
        );
    }
    if node.children.len() < 1 {
        return Err(CompileError::MissingChild { expected: NodeKind::Identifier });
    }
    proof {
        assert(node.model().children[0] == node.children@[0].model());
    }
    let function_name = match parse_identifier(&node.children[0]) {
        Ok(id) => id,
        Err(e) => return Err(e),
    };
    if node.children.len() < 2 {
        return Err(CompileError::MissingChild { expected: NodeKind::FunctionArguments });
    }
    let args_node = &node.children[1];
    proof {
        assert(node.model().children[1] == node.children@[1].model());
    }
    if args_node.kind != NodeKind::FunctionArguments {
        return Err(
            CompileError::ExpectedKind {
                expected: NodeKind::FunctionArguments,
                found: args_node.kind,
                text: args_node.text.clone(),
            },
        );
    }
    let ghost cs: Seq<NodeModel> = node.children@[1].model().children;
    let n_args = args_node.children.len();
    let mut arguments: Vec<Expression> = Vec::new();
    let mut i: usize = 0;
    proof {
        assert(cs.skip(0) =~= cs);
        assert(exprs_models(arguments@) =~= Seq::<ExprModel>::empty());
        match build_expr_list(cs) {
            Ok(rest) => {
                assert(exprs_models(arguments@) + rest =~= rest);
            },
            Err(e) => {},
        }
    }
    while i < n_args
        invariant
            i <= n_args,
            n_args == args_node.children@.len(),
            *args_node == node.children@[1],
            1 < node.children@.len(),
            cs == node.children@[1].model().children,
            arguments@.len() == i,
            build_expr_list(cs) == match build_expr_list(cs.skip(i as int)) {
                Ok(rest) => Ok::<_, ErrModel>(exprs_models(arguments@) + rest),
                Err(e) => Err(e),
            },
        decreases n_args - i,
    {
        proof {
            assert(cs[i as int] == args_node.children@[i as int].model());
            assert(cs.skip(i as int)[0] == cs[i as int]);
            assert(decreases_to!(*node => node.children));
            assert(decreases_to!(node.children => node.children@));
            assert(decreases_to!(node.children@ => node.children@[1]));
            assert(decreases_to!(node.children@[1] => node.children@[1].children));
            assert(decreases_to!(node.children@[1].children => node.children@[1].children@));
            assert(decreases_to!(
                node.children@[1].children@ => node.children@[1].children@[i as int]));
        }
        let child = &args_node.children[i];
        match parse_expression(child) {
            Ok(x) => {
                proof {
                    assert(cs.skip(i as int).drop_first() =~= cs.skip(i as int + 1));
                    assert(exprs_models(arguments@.push(x)) =~= exprs_models(arguments@).push(
                        x.model(),
                    ));
                    match build_expr_list(cs.skip(i as int + 1)) {
                        Ok(rest) => {
                            assert(exprs_models(arguments@) + (seq![x.model()] + rest)
                                =~= exprs_models(arguments@).push(x.model()) + rest);
                        },
                        Err(e) => {},
                    }
                }
                arguments.push(x);
            },
            Err(e) => {
                return Err(e);
            },
        }
        i = i + 1;
    }
    proof {
        assert(cs.skip(n_args as int) =~= Seq::<NodeModel>::empty());
        assert(exprs_models(arguments@) + Seq::<ExprModel>::empty() =~= exprs_models(arguments@));
    }
    Ok(FunctionCall { function_name, arguments, span: node.span })
}

/// Builds a FunctionDefinition from a definition node: an optional leading
/// parameter-list node, then exactly one body expression.
#[verifier::loop_isolation(false)]
pub fn parse_function_definition(node: &ParseNode) -> (r: Result<
    FunctionDefinition,
    CompileError,
>)
    ensures
        match build_function_definition(node.model()) {
            Ok(m) => r matches Ok(f) && f.model() == m,
            Err(e) => r matches Err(err) && err.model() == e,
        },
    decreases node, 0int,
{
    if node.kind != NodeKind::FunctionDefinition {
        return Err(
            CompileError::ExpectedKind {
                expected: NodeKind::FunctionDefinition,
                found: node.kind,
                text: node.text.clone(),
            },
        );
    }
    let has_params = node.children.len() > 0 && node.children[0].kind == NodeKind::IdentList;
    let mut parameters: Vec<Identifier> = Vec::new();
    if has_params {
        proof {
            assert(node.model().children[0] == node.children@[0].model());
        }
        let list_node = &node.children[0];
        let ghost ds: Seq<NodeModel> = node.children@[0].model().children;
        let n_params = list_node.children.len();
        let mut i: usize = 0;
        proof {
            assert(ds.skip(0) =~= ds);
            assert(idents_models(parameters@) =~= Seq::<IdentModel>::empty());
            match build_ident_list(ds) {
                Ok(rest) => {
                    assert(idents_models(parameters@) + rest =~= rest);
                },
                Err(e) => {},
            }
        }
        while i < n_params
            invariant
                i <= n_params,
                n_params == list_node.children@.len(),
                *list_node == node.children@[0],
                0 < node.children@.len(),
                ds == node.children@[0].model().children,
                parameters@.len() == i,
                build_ident_list(ds) == match build_ident_list(ds.skip(i as int)) {
                    Ok(rest) => Ok::<_, ErrModel>(idents_models(parameters@) + rest),
                    Err(e) => Err(e),
                },
            decreases n_params - i,
        {
            proof {
                assert(ds[i as int] == list_node.children@[i as int].model());
                assert(ds.skip(i as int)[0] == ds[i as int]);
            }
            match parse_identifier(&list_node.children[i]) {
                Ok(id) => {
                    proof {
                        assert(ds.skip(i as int).drop_first() =~= ds.skip(i as int + 1));
                        assert(idents_models(parameters@.push(id)) =~= idents_models(
                            parameters@,
                        ).push(id.model()));
                        match build_ident_list(ds.skip(i as int + 1)) {
                            Ok(rest) => {
                                assert(idents_models(parameters@) + (seq![id.model()] + rest)
                                    =~= idents_models(parameters@).push(id.model()) + rest);
                            },
                            Err(e) => {},
                        }
                    }
                    parameters.push(id);
                },
                Err(e) => {
                    return Err(e);
                },
            }
            i = i + 1;
        }
        proof {
            assert(ds.skip(n_params as int) =~= Seq::<NodeModel>::empty());
            assert(idents_models(parameters@) + Seq::<IdentModel>::empty() =~= idents_models(
                parameters@,
            ));
        }
    }
    let body_at: usize = if has_params {
        1
    } else {
        0
    };
    if body_at >= node.children.len() {
        return Err(CompileError::MissingChild { expected: NodeKind::Expression });
    }
    proof {
        assert(node.model().children[body_at as int] == node.children@[body_at as int].model());
        assert(decreases_to!(*node => node.children));
        assert(decreases_to!(node.children => node.children@));
        assert(decreases_to!(node.children@ => node.children@[body_at as int]));
        assert(idents_models(Seq::<Identifier>::empty()) =~= Seq::<IdentModel>::empty());
    }
    let body = match parse_expression(&node.children[body_at]) {
        Ok(b) => b,
        Err(e) => return Err(e),
    };
    Ok(FunctionDefinition { parameters, body: Box::new(body), span: node.span })
}

/// Builds a Block from a block node: leading assignments while they match,
/// then exactly one trailing expression; anything further is a fault.
#[verifier::loop_isolation(false)]
pub fn parse_block(node: &ParseNode) -> (r: Result<BlockExpr, CompileError>)
    ensures
        match build_block(node.model()) {
            Ok(m) => r matches Ok(b) && b.model() == m,
            Err(e) => r matches Err(err) && err.model() == e,
        },
    decreases node, 0int,
{
    if node.kind != NodeKind::Block {
        return Err(
            CompileError::ExpectedKind {
                expected: NodeKind::Block,
                found: node.kind,
                text: node.text.clone(),
            },
        );
    }
    let ghost cs: Seq<NodeModel> = node.model().children;
    let n = node.children.len();
    let mut assignments: Vec<Assignment> = Vec::new();
    let mut i: usize = 0;
    proof {
        assert(cs.skip(0) =~= cs);
        assert(assigns_models(assignments@) =~= Seq::<AssignModel>::empty());
        match build_block_items(cs) {
            Ok(r) => {
                assert(assigns_models(assignments@) + r.0 =~= r.0);
            },
            Err(e) => {},
        }
    }
    while i < n && node.children[i].kind == NodeKind::Assignment
        invariant
            i <= n,
            n == node.children@.len(),
            cs == node.model().children,
            assignments@.len() == i,
            build_block_items(cs) == match build_block_items(cs.skip(i as int)) {
                Ok(r) => Ok::<_, ErrModel>((assigns_models(assignments@) + r.0, r.1)),
                Err(e) => Err(e),
            },
        decreases n - i,
    {
        proof {
            assert(cs[i as int] == node.children@[i as int].model());
            assert(cs.skip(i as int)[0] == cs[i as int]);
            assert(decreases_to!(*node => node.children));
            assert(decreases_to!(node.children => node.children@));
            assert(decreases_to!(node.children@ => node.children@[i as int]));
        }
        match parse_assignment(&node.children[i]) {
            Ok(a) => {
                proof {
                    assert(cs.skip(i as int).drop_first() =~= cs.skip(i as int + 1));
                    assert(assigns_models(assignments@.push(a)) =~= assigns_models(
                        assignments@,
                    ).push(a.model()));
                    match build_block_items(cs.skip(i as int + 1)) {
                        Ok(r) => {
                            assert(assigns_models(assignments@) + (seq![a.model()] + r.0)
                                =~= assigns_models(assignments@).push(a.model()) + r.0);
                        },
                        Err(e) => {},
                    }
                }
                assignments.push(a);
            },
            Err(e) => {
                return Err(e);
            },
        }
        i = i + 1;
    }
    if i >= n {
        proof {
            assert(cs.skip(i as int) =~= Seq::<NodeModel>::empty());
        }
        return Err(CompileError::MissingChild { expected: NodeKind::Expression });
    }
    proof {
        assert(cs[i as int] == node.children@[i as int].model());
        assert(cs.skip(i as int)[0] == cs[i as int]);
        assert(decreases_to!(*node => node.children));
        assert(decreases_to!(node.children => node.children@));
        assert(decreases_to!(node.children@ => node.children@[i as int]));
    }
    let expression = match parse_expression(&node.children[i]) {
        Ok(e) => e,
        Err(e) => return Err(e),
    };
    if i + 1 < n {
        proof {
            assert(cs.skip(i as int).len() > 1);
        }
        return Err(CompileError::ExtraBlockNodes);
    }
    proof {
        assert(cs.skip(i as int).len() == 1);
        assert(assigns_models(assignments@) + Seq::<AssignModel>::empty() =~= assigns_models(
            assignments@,
        ));
    }
    Ok(BlockExpr { assignments, expression: Box::new(expression), span: node.span })
}

/// Builds an Assignment from an assignment node: an identifier child, then
/// an expression child, in that order.
pub fn parse_assignment(node: &ParseNode) -> (r: Result<Assignment, CompileError>)
    ensures
        match build_assignment(node.model()) {
            Ok(m) => r matches Ok(a) && a.model() == m,
            Err(e) => r matches Err(err) && err.model() == e,
        },
    decreases node, 0int,
{
    if node.kind != NodeKind::Assignment {
        return Err(
            CompileError::ExpectedKind {
                expected: NodeKind::Assignment,
                found: node.kind,
                text: node.text.clone(),
            },
        );
    }
    if node.children.len() < 1 {
        return Err(CompileError::MissingChild { expected: NodeKind::Identifier });
    }
    proof {
        assert(node.model().children[0] == node.children@[0].model());
    }
    let identifier = match parse_identifier(&node.children[0]) {
        Ok(id) => id,
        Err(e) => return Err(e),
    };
    if node.children.len() < 2 {
        return Err(CompileError::MissingChild { expected: NodeKind::Expression });
    }
    proof {
        assert(node.model().children[1] == node.children@[1].model());
        assert(decreases_to!(*node => node.children));
        assert(decreases_to!(node.children => node.children@));
        assert(decreases_to!(node.children@ => node.children@[1]));
    }
    let expression = match parse_expression(&node.children[1]) {
        Ok(e) => e,
        Err(e) => return Err(e),
    };
    Ok(Assignment { identifier, expression: Box::new(expression), span: node.span })
}

/// Builds a Program from the top-level node sequence: assignments in order,
/// with end-of-input markers passed over, and anything else a fault.
#[verifier::loop_isolation(false)]
pub fn parse_program(nodes: &Vec<ParseNode>) -> (r: Result<Program, CompileError>)
    ensures
        match build_program(nodes_models(nodes@)) {
            Ok(m) => r matches Ok(p) && p.model() == m,
            Err(e) => r matches Err(err) && err.model() == e,
        },
{
    let ghost ns: Seq<NodeModel> = nodes_models(nodes@);
    let n = nodes.len();
    let mut assignments: Vec<Assignment> = Vec::new();
    let mut i: usize = 0;
    proof {
        assert(ns.skip(0) =~= ns);
        assert(assigns_models(assignments@) =~= Seq::<AssignModel>::empty());
        match build_assignments(ns) {
            Ok(rest) => {
                assert(assigns_models(assignments@) + rest =~= rest);
            },
            Err(e) => {},
        }
    }
    while i < n
        invariant
            i <= n,
            n == nodes@.len(),
            ns == nodes_models(nodes@),
            build_assignments(ns) == match build_assignments(ns.skip(i as int)) {
                Ok(rest) => Ok::<_, ErrModel>(assigns_models(assignments@) + rest),
                Err(e) => Err(e),
            },
        decreases n - i,
    {
        proof {
            assert(ns[i as int] == nodes@[i as int].model());
            assert(ns.skip(i as int)[0] == ns[i as int]);
            assert(ns.skip(i as int).drop_first() =~= ns.skip(i as int + 1));
        }
        let node = &nodes[i];
        if node.kind == NodeKind::Assignment {
            match parse_assignment(node) {
                Ok(a) => {
                    proof {
                        assert(assigns_models(assignments@.push(a)) =~= assigns_models(
                            assignments@,
                        ).push(a.model()));
                        match build_assignments(ns.skip(i as int + 1)) {
                            Ok(rest) => {
                                assert(assigns_models(assignments@) + (seq![a.model()] + rest)
                                    =~= assigns_models(assignments@).push(a.model()) + rest);
                            },
                            Err(e) => {},
                        }
                    }
                    assignments.push(a);
                },
                Err(e) => {
                    return Err(e);
                },
            }
        } else if node.kind == NodeKind::EndOfInput {
        } else {
            return Err(
                CompileError::UnexpectedProgramNode { found: node.kind, text: node.text.clone() },
            );
        }
        i = i + 1;
    }
    proof {
        assert(ns.skip(n as int) =~= Seq::<NodeModel>::empty());
        assert(assigns_models(assignments@) + Seq::<AssignModel>::empty() =~= assigns_models(
            assignments@,
        ));
    }
    Ok(Program { assignments, span: Span { start: 0, end: 0 } })
}

} // verus!
