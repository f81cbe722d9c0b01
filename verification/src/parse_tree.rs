use vstd::prelude::*;

verus! {

/// Byte range of one construct inside the source buffer of a compilation
/// run. Spans exist for diagnostics only; they index into the buffer rather
/// than copy from it.
#[derive(Debug, Clone, Copy, PartialEq, Eq, Structural)]
pub struct Span {
    pub start: usize,
    pub end: usize,
}

/// Kind tag of one node of the external parser's tagged parse tree.
///
/// The grammar-driven parser runs outside the library; what the library
/// consumes is a tree of plain nodes, each carrying one of these tags, the
/// matched source text, the byte span it covers, and its child nodes.
#[derive(Debug, Clone, Copy, PartialEq, Eq, Structural)]
pub enum NodeKind {
    Program,
    Assignment,
    Identifier,
    Number,
    FunctionCall,
    FunctionArguments,
    FunctionDefinition,
    IdentList,
    Block,
    Expression,
    EndOfInput,
}

/// One node of the tagged parse tree handed in by the external parser.
#[derive(Debug)]
pub struct ParseNode {
    pub kind: NodeKind,
    pub text: String,
    pub span: Span,
    pub children: Vec<ParseNode>,
}

/// Mathematical model of a parse-tree node: the same shape over `Seq`.
pub struct NodeModel {
    pub kind: NodeKind,
    pub text: Seq<char>,
    pub span: Span,
    pub children: Seq<NodeModel>,
}

impl ParseNode {
    pub open spec fn model(self) -> NodeModel
        decreases self,
    {
        NodeModel {
            kind: self.kind,
            text: self.text@,
            span: self.span,
            children: Seq::new(
                self.children@.len(),
                |i: int|
                    if 0 <= i < self.children@.len() {
                        self.children@[i].model()
                    } else {
                        NodeModel {
                            kind: NodeKind::EndOfInput,
                            text: Seq::empty(),
                            span: Span { start: 0, end: 0 },
                            children: Seq::empty(),
                        }
                    },
            ),
        }
    }
}

/// A node's model reads off the node field by field.
pub broadcast proof fn lemma_parse_node_model(n: ParseNode)
    ensures
        (#[trigger] n.model()).kind == n.kind,
        n.model().text == n.text@,
        n.model().span == n.span,
        n.model().children.len() == n.children@.len(),
        forall|i: int|
            0 <= i < n.children@.len() ==> n.model().children[i] == n.children@[i].model(),
{
}

} // verus!
