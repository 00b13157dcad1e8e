//! The syntax tree.

use vstd::prelude::*;

verus! {

/// Operators with one operand.
#[derive(Clone, Copy, PartialEq, Eq, Structural, Debug)]
pub enum UnaryOp {
    Pos,
    Neg,
    Abs,
    Floor,
    Ceil,
    Round,
    Degree,
    Sqrt,
    Cbrt,
    Fort,
    Fact,
    Not,
}

/// Operators with two operands.
#[derive(Clone, Copy, PartialEq, Eq, Structural, Debug)]
pub enum BinaryOp {
    Add,
    Sub,
    Mul,
    Div,
    Rem,
    Pow,
    EqEq,
    Neq,
    Lt,
    Lte,
    Gt,
    Gte,
    And,
    Or,
}

/// A node of the syntax tree.
///
/// `Float` is a real literal as it was written; `Real` is a real constant
/// given by its IEEE 754 bit pattern, which no source text gives rise to.
#[derive(Debug, PartialEq)]
pub enum Node {
    Int(i32),
    Float(String),
    Real(u64),
    Identifier(String),
    Assignment(String, Box<Node>),
    Unary(UnaryOp, Box<Node>),
    Binary(Box<Node>, BinaryOp, Box<Node>),
    If(Box<Node>, Box<Node>, Option<Box<Node>>),
    While(Box<Node>, Box<Node>),
    FnDef(String, Vec<String>, Box<Node>),
    Call(String, Vec<Node>),
    Statements(Vec<Node>),
    Eof,
}

/// The mathematical content of a [`Node`].
pub enum SpecNode {
    Int(i32),
    Float(Seq<char>),
    Real(u64),
    Identifier(Seq<char>),
    Assignment(Seq<char>, Box<SpecNode>),
    Unary(UnaryOp, Box<SpecNode>),
    Binary(Box<SpecNode>, BinaryOp, Box<SpecNode>),
    If(Box<SpecNode>, Box<SpecNode>, Option<Box<SpecNode>>),
    While(Box<SpecNode>, Box<SpecNode>),
    FnDef(Seq<char>, Seq<Seq<char>>, Box<SpecNode>),
    Call(Seq<char>, Seq<SpecNode>),
    Statements(Seq<SpecNode>),
    Eof,
}

/// The views of a list of names.
pub open spec fn names_view(names: Seq<String>) -> Seq<Seq<char>> {
    Seq::new(names.len(), |i: int| names[i]@)
}

/// The mathematical content of a node.
pub open spec fn node_view(node: Node) -> SpecNode
    decreases node,
{
    match node {
        Node::Int(n) => SpecNode::Int(n),
        Node::Float(text) => SpecNode::Float(text@),
        Node::Real(bits) => SpecNode::Real(bits),
        Node::Identifier(name) => SpecNode::Identifier(name@),
        Node::Assignment(name, value) => SpecNode::Assignment(name@, Box::new(node_view(*value))),
        Node::Unary(op, operand) => SpecNode::Unary(op, Box::new(node_view(*operand))),
        Node::Binary(left, op, right) => SpecNode::Binary(
            Box::new(node_view(*left)),
            op,
            Box::new(node_view(*right)),
        ),
        Node::If(cond, then, otherwise) => SpecNode::If(
            Box::new(node_view(*cond)),
            Box::new(node_view(*then)),
            match otherwise {
                Some(node) => Some(Box::new(node_view(*node))),
                None => None,
            },
        ),
        Node::While(cond, body) => SpecNode::While(
            Box::new(node_view(*cond)),
            Box::new(node_view(*body)),
        ),
        Node::FnDef(name, params, body) => SpecNode::FnDef(
            name@,
            names_view(params@),
            Box::new(node_view(*body)),
        ),
        Node::Call(name, args) => SpecNode::Call(
            name@,
            Seq::new(
                args@.len(),
                |i: int|
                    if 0 <= i < args@.len() {
                        node_view(args@[i])
                    } else {
                        arbitrary()
                    },
            ),
        ),
        Node::Statements(nodes) => SpecNode::Statements(
            Seq::new(
                nodes@.len(),
                |i: int|
                    if 0 <= i < nodes@.len() {
                        node_view(nodes@[i])
                    } else {
                        arbitrary()
                    },
            ),
        ),
        Node::Eof => SpecNode::Eof,
    }
}

impl View for Node {
    type V = SpecNode;

    open spec fn view(&self) -> SpecNode {
        node_view(*self)
    }
}

/// The views of a list of nodes.
pub open spec fn nodes_view(nodes: Seq<Node>) -> Seq<SpecNode> {
    Seq::new(nodes.len(), |i: int| nodes[i]@)
}

/// The arguments of a call are viewed node by node.
pub proof fn lemma_call_view(name: String, args: Vec<Node>)
    ensures
        Node::Call(name, args)@ == SpecNode::Call(name@, nodes_view(args@)),
{
    assert(Node::Call(name, args)@->Call_1 =~= nodes_view(args@));
}

/// The statements of a block are viewed node by node.
pub proof fn lemma_statements_view(nodes: Vec<Node>)
    ensures
        Node::Statements(nodes)@ == SpecNode::Statements(nodes_view(nodes@)),
{
    assert(Node::Statements(nodes)@->Statements_0 =~= nodes_view(nodes@));
}

/// A copy of a list of names.
pub fn clone_names(names: &Vec<String>) -> (r: Vec<String>)
    ensures
        names_view(r@) == names_view(names@),
{
    let mut out: Vec<String> = Vec::new();
    let mut i: usize = 0;
    while i < names.len()
        invariant
            i <= names.len(),
            out@.len() == i,
            forall|k: int| 0 <= k < i ==> out@[k]@ == names@[k]@,
        decreases names.len() - i,
    {
        out.push(names[i].clone());
        i += 1;
    }
    assert(names_view(out@) =~= names_view(names@));
    out
}

/// A copy of a list of nodes.
pub fn clone_nodes(nodes: &Vec<Node>) -> (r: Vec<Node>)
    ensures
        nodes_view(r@) == nodes_view(nodes@),
    decreases nodes,
{
    let mut out: Vec<Node> = Vec::new();
    let mut i: usize = 0;
    while i < nodes.len()
        invariant
            i <= nodes.len(),
            out@.len() == i,
            forall|k: int| 0 <= k < i ==> out@[k]@ == nodes@[k]@,
        decreases nodes.len() - i,
    {
        proof {
            vstd::std_specs::vec::axiom_vec_index_decreases(*nodes, i as int);
        }
        out.push(nodes[i].clone());
        i += 1;
    }
    assert(nodes_view(out@) =~= nodes_view(nodes@));
    out
}

impl Clone for Node {
    fn clone(&self) -> (r: Self)
        ensures
            r@ == self@,
        decreases self,
    {
        match self {
            Node::Int(n) => Node::Int(*n),
            Node::Float(text) => Node::Float(text.clone()),
            Node::Real(bits) => Node::Real(*bits),
            Node::Identifier(name) => Node::Identifier(name.clone()),
            Node::Assignment(name, value) => Node::Assignment(
                name.clone(),
                Box::new((&**value).clone()),
            ),
            Node::Unary(op, operand) => Node::Unary(*op, Box::new((&**operand).clone())),
            Node::Binary(left, op, right) => Node::Binary(
                Box::new((&**left).clone()),
                *op,
                Box::new((&**right).clone()),
            ),
            Node::If(cond, then, otherwise) => Node::If(
                Box::new((&**cond).clone()),
                Box::new((&**then).clone()),
                match otherwise {
                    Some(node) => Some(Box::new((&**node).clone())),
                    None => None,
                },
            ),
            Node::While(cond, body) => Node::While(
                Box::new((&**cond).clone()),
                Box::new((&**body).clone()),
            ),
            Node::FnDef(name, params, body) => Node::FnDef(
                name.clone(),
                clone_names(params),
                Box::new((&**body).clone()),
            ),
            Node::Call(name, args) => {
                let name2 = name.clone();
                let args2 = clone_nodes(args);
                proof {
                    lemma_call_view(*name, *args);
                    lemma_call_view(name2, args2);
                }
                Node::Call(name2, args2)
            },
            Node::Statements(nodes) => {
                let nodes2 = clone_nodes(nodes);
                proof {
                    lemma_statements_view(*nodes);
                    lemma_statements_view(nodes2);
                }
                Node::Statements(nodes2)
            },
            Node::Eof => Node::Eof,
        }
    }
}

} // verus!
