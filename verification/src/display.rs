//! The text that is shown for a syntax tree.

use crate::node::{
    lemma_call_view, lemma_statements_view, names_view, nodes_view, BinaryOp, Node, SpecNode,
    UnaryOp,
};
use crate::text::{decimal_text, digits_of, extend_str, from_chars, push_decimal, push_natural};
use vstd::prelude::*;

verus! {

/// The text of an operator with two operands.
pub open spec fn operator_text(op: BinaryOp) -> Seq<char> {
    match op {
        BinaryOp::Add => seq!['+'],
        BinaryOp::Sub => seq!['-'],
        BinaryOp::Mul => seq!['*'],
        BinaryOp::Div => seq!['/'],
        BinaryOp::Rem => seq!['%'],
        BinaryOp::Pow => seq!['^'],
        BinaryOp::EqEq => seq!['=', '='],
        BinaryOp::Neq => seq!['!', '='],
        BinaryOp::Lt => seq!['<'],
        BinaryOp::Lte => seq!['<', '='],
        BinaryOp::Gt => seq!['>'],
        BinaryOp::Gte => seq!['>', '='],
        BinaryOp::And => seq!['a', 'n', 'd'],
        BinaryOp::Or => seq!['o', 'r'],
    }
}

/// What stands before the operand of an operator with one operand.
pub open spec fn prefix_text(op: UnaryOp) -> Seq<char> {
    match op {
        UnaryOp::Pos => seq!['(', '+'],
        UnaryOp::Neg => seq!['(', '-'],
        UnaryOp::Abs => seq!['|'],
        UnaryOp::Floor => seq!['⌊'],
        UnaryOp::Ceil => seq!['⌈'],
        UnaryOp::Round => seq!['⌊'],
        UnaryOp::Degree => seq!['('],
        UnaryOp::Fact => seq!['('],
        UnaryOp::Sqrt => seq!['(', '√'],
        UnaryOp::Cbrt => seq!['(', '∛'],
        UnaryOp::Fort => seq!['(', '∜'],
        UnaryOp::Not => seq!['(', 'n', 'o', 't', ' '],
    }
}

/// What stands after the operand of an operator with one operand.
pub open spec fn suffix_text(op: UnaryOp) -> Seq<char> {
    match op {
        UnaryOp::Abs => seq!['|'],
        UnaryOp::Floor => seq!['⌋'],
        UnaryOp::Ceil => seq!['⌉'],
        UnaryOp::Round => seq!['⌉'],
        UnaryOp::Degree => seq!['°', ')'],
        UnaryOp::Fact => seq!['!', ')'],
        _ => seq![')'],
    }
}

/// The texts of `names`, with `, ` between neighbours.
pub open spec fn names_text(names: Seq<Seq<char>>) -> Seq<char>
    decreases names.len(),
{
    if names.len() == 0 {
        seq![]
    } else if names.len() == 1 {
        names[0]
    } else {
        names_text(names.drop_last()) + seq![',', ' '] + names.last()
    }
}

/// The text that is shown for a node.  Every operation is in brackets, so
/// that the text shows how the source was read.  A real constant is shown
/// as `#` and the decimal number of its bit pattern.
pub open spec fn node_text(node: SpecNode) -> Seq<char>
    decreases node,
{
    match node {
        SpecNode::Int(n) => decimal_text(n as int),
        SpecNode::Float(text) => text,
        SpecNode::Real(bits) => seq!['#'] + digits_of(bits as nat),
        SpecNode::Identifier(name) => name,
        SpecNode::Assignment(name, value) => seq!['('] + name + seq![' ', '=', ' '] + node_text(
            *value,
        ) + seq![')'],
        SpecNode::Unary(op, operand) => prefix_text(op) + node_text(*operand) + suffix_text(op),
        SpecNode::Binary(left, op, right) => seq!['('] + node_text(*left) + seq![' ']
            + operator_text(op) + seq![' '] + node_text(*right) + seq![')'],
        SpecNode::If(cond, then, otherwise) => seq!['i', 'f', ' '] + node_text(*cond) + seq![
            ' ',
            't',
            'h',
            'e',
            'n',
            ' ',
        ] + node_text(*then) + match otherwise {
            Some(node) => seq![' ', 'e', 'l', 's', 'e', ' '] + node_text(*node),
            None => seq![],
        },
        SpecNode::While(cond, body) => seq!['w', 'h', 'i', 'l', 'e', ' '] + node_text(*cond)
            + seq![' ', 'd', 'o', ' '] + node_text(*body),
        SpecNode::FnDef(name, params, body) => seq!['f', 'n', ' '] + name + seq!['(']
            + names_text(params) + seq![')', ' ', '{', '\n', ' ', ' '] + node_text(*body) + seq![
            '\n',
            '}',
        ],
        SpecNode::Call(name, args) => name + seq!['('] + nodes_text(args, seq![',', ' '])
            + seq![')'],
        SpecNode::Statements(nodes) => seq!['{', '\n', ' ', ' '] + nodes_text(
            nodes,
            seq!['\n', ' ', ' '],
        ) + seq!['\n', '}'],
        SpecNode::Eof => seq!['<', 'e', 'o', 'f', '>'],
    }
}

/// The texts of `nodes`, with `between` between neighbours.
pub open spec fn nodes_text(nodes: Seq<SpecNode>, between: Seq<char>) -> Seq<char>
    decreases nodes,
{
    if nodes.len() == 0 {
        seq![]
    } else if nodes.len() == 1 {
        node_text(nodes[0])
    } else {
        nodes_text(nodes.drop_last(), between) + between + node_text(nodes.last())
    }
}

impl BinaryOp {
    /// The text of the operator.
    pub fn text(&self) -> (r: &'static str)
        ensures
            r@ == operator_text(*self),
    {
        let r = match self {
            BinaryOp::Add => "+",
            BinaryOp::Sub => "-",
            BinaryOp::Mul => "*",
            BinaryOp::Div => "/",
            BinaryOp::Rem => "%",
            BinaryOp::Pow => "^",
            BinaryOp::EqEq => "==",
            BinaryOp::Neq => "!=",
            BinaryOp::Lt => "<",
            BinaryOp::Lte => "<=",
            BinaryOp::Gt => ">",
            BinaryOp::Gte => ">=",
            BinaryOp::And => "and",
            BinaryOp::Or => "or",
        };
        proof {
            reveal_strlit("+");
            reveal_strlit("-");
            reveal_strlit("*");
            reveal_strlit("/");
            reveal_strlit("%");
            reveal_strlit("^");
            reveal_strlit("==");
            reveal_strlit("!=");
            reveal_strlit("<");
            reveal_strlit("<=");
            reveal_strlit(">");
            reveal_strlit(">=");
            reveal_strlit("and");
            reveal_strlit("or");
            assert(r@ =~= operator_text(*self));
        }
        r
    }

    /// The text of the operator.
    pub fn to_string(&self) -> (r: String)
        ensures
            r@ == operator_text(*self),
    {
        String::from_str(self.text())
    }
}

fn push_prefix(op: UnaryOp, out: &mut Vec<char>)
    ensures
        final(out)@ == old(out)@ + prefix_text(op),
{
    let text = match op {
        UnaryOp::Pos => "(+",
        UnaryOp::Neg => "(-",
        UnaryOp::Abs => "|",
        UnaryOp::Floor => "⌊",
        UnaryOp::Ceil => "⌈",
        UnaryOp::Round => "⌊",
        UnaryOp::Degree => "(",
        UnaryOp::Fact => "(",
        UnaryOp::Sqrt => "(√",
        UnaryOp::Cbrt => "(∛",
        UnaryOp::Fort => "(∜",
        UnaryOp::Not => "(not ",
    };
    proof {
        reveal_strlit("(+");
        reveal_strlit("(-");
        reveal_strlit("|");
        reveal_strlit("⌊");
        reveal_strlit("⌈");
        reveal_strlit("(");
        reveal_strlit("(√");
        reveal_strlit("(∛");
        reveal_strlit("(∜");
        reveal_strlit("(not ");
        assert(text@ =~= prefix_text(op));
    }
    extend_str(out, text);
}

fn push_suffix(op: UnaryOp, out: &mut Vec<char>)
    ensures
        final(out)@ == old(out)@ + suffix_text(op),
{
    let text = match op {
        UnaryOp::Abs => "|",
        UnaryOp::Floor => "⌋",
        UnaryOp::Ceil => "⌉",
        UnaryOp::Round => "⌉",
        UnaryOp::Degree => "°)",
        UnaryOp::Fact => "!)",
        _ => ")",
    };
    proof {
        reveal_strlit("|");
        reveal_strlit("⌋");
        reveal_strlit("⌉");
        reveal_strlit("°)");
        reveal_strlit("!)");
        reveal_strlit(")");
        assert(text@ =~= suffix_text(op));
    }
    extend_str(out, text);
}

fn push_names(names: &Vec<String>, out: &mut Vec<char>)
    ensures
        final(out)@ == old(out)@ + names_text(names_view(names@)),
{
    let ghost base = out@;
    let ghost views = names_view(names@);
    let mut i: usize = 0;
    while i < names.len()
        invariant
            i <= names.len(),
            views == names_view(names@),
            out@ == base + names_text(views.take(i as int)),
        decreases names.len() - i,
    {
        proof {
            assert(views.take(i as int + 1).drop_last() =~= views.take(i as int));
        }
        if i > 0 {
            out.push(',');
            out.push(' ');
        }
        extend_str(out, names[i].as_str());
        i += 1;
        assert(out@ =~= base + names_text(views.take(i as int)));
    }
    assert(views.take(i as int) =~= views);
}

/// Appends the texts of `nodes` to `out`, with `between` between neighbours.
fn push_nodes(nodes: &Vec<Node>, between: &str, out: &mut Vec<char>)
    ensures
        final(out)@ == old(out)@ + nodes_text(nodes_view(nodes@), between@),
    decreases nodes, 2int,
{
    let ghost base = out@;
    let ghost views = nodes_view(nodes@);
    let mut i: usize = 0;
    while i < nodes.len()
        invariant
            i <= nodes.len(),
            views == nodes_view(nodes@),
            out@ == base + nodes_text(views.take(i as int), between@),
        decreases nodes.len() - i,
    {
        proof {
            vstd::std_specs::vec::axiom_vec_index_decreases(*nodes, i as int);
            assert(views.take(i as int + 1).drop_last() =~= views.take(i as int));
        }
        if i > 0 {
            extend_str(out, between);
        }
        nodes[i].push_text(out);
        i += 1;
        assert(out@ =~= base + nodes_text(views.take(i as int), between@));
    }
    assert(views.take(i as int) =~= views);
}

impl Node {
    fn push_assignment(&self, out: &mut Vec<char>)
        requires
            self is Assignment,
        ensures
            final(out)@ == old(out)@ + node_text(self@),
        decreases self, 0int,
    {
        if let Node::Assignment(name, value) = self {
            out.push('(');
            extend_str(out, name.as_str());
            out.push(' ');
            out.push('=');
            out.push(' ');
            value.push_text(out);
            out.push(')');
            assert(out@ =~= old(out)@ + node_text(self@));
        }
    }

    fn push_unary(&self, out: &mut Vec<char>)
        requires
            self is Unary,
        ensures
            final(out)@ == old(out)@ + node_text(self@),
        decreases self, 0int,
    {
        if let Node::Unary(op, operand) = self {
            push_prefix(*op, out);
            operand.push_text(out);
            push_suffix(*op, out);
            assert(out@ =~= old(out)@ + node_text(self@));
        }
    }

    fn push_binary(&self, out: &mut Vec<char>)
        requires
            self is Binary,
        ensures
            final(out)@ == old(out)@ + node_text(self@),
        decreases self, 0int,
    {
        if let Node::Binary(left, op, right) = self {
            out.push('(');
            left.push_text(out);
            out.push(' ');
            extend_str(out, op.text());
            out.push(' ');
            right.push_text(out);
            out.push(')');
            assert(out@ =~= old(out)@ + node_text(self@));
        }
    }

    fn push_conditional(&self, out: &mut Vec<char>)
        requires
            self is If,
        ensures
            final(out)@ == old(out)@ + node_text(self@),
        decreases self, 0int,
    {
        if let Node::If(cond, then, otherwise) = self {
            proof {
                reveal_strlit("if ");
                reveal_strlit(" then ");
                reveal_strlit(" else ");
                assert("if "@ =~= seq!['i', 'f', ' ']);
                assert(" then "@ =~= seq![' ', 't', 'h', 'e', 'n', ' ']);
                assert(" else "@ =~= seq![' ', 'e', 'l', 's', 'e', ' ']);
            }
            extend_str(out, "if ");
            cond.push_text(out);
            extend_str(out, " then ");
            then.push_text(out);
            match otherwise {
                Some(node) => {
                    extend_str(out, " else ");
                    node.push_text(out);
                    assert(out@ =~= old(out)@ + node_text(self@));
                },
                None => {
                    assert(out@ =~= old(out)@ + node_text(self@));
                },
            }
        }
    }

    fn push_loop(&self, out: &mut Vec<char>)
        requires
            self is While,
        ensures
            final(out)@ == old(out)@ + node_text(self@),
        decreases self, 0int,
    {
        if let Node::While(cond, body) = self {
            proof {
                reveal_strlit("while ");
                reveal_strlit(" do ");
                assert("while "@ =~= seq!['w', 'h', 'i', 'l', 'e', ' ']);
                assert(" do "@ =~= seq![' ', 'd', 'o', ' ']);
            }
            extend_str(out, "while ");
            cond.push_text(out);
            extend_str(out, " do ");
            body.push_text(out);
            assert(out@ =~= old(out)@ + node_text(self@));
        }
    }

    fn push_definition(&self, out: &mut Vec<char>)
        requires
            self is FnDef,
        ensures
            final(out)@ == old(out)@ + node_text(self@),
        decreases self, 0int,
    {
        if let Node::FnDef(name, params, body) = self {
            proof {
                reveal_strlit("fn ");
                reveal_strlit(") {\n  ");
                reveal_strlit("\n}");
                assert("fn "@ =~= seq!['f', 'n', ' ']);
                assert(") {\n  "@ =~= seq![')', ' ', '{', '\n', ' ', ' ']);
                assert("\n}"@ =~= seq!['\n', '}']);
            }
            extend_str(out, "fn ");
            extend_str(out, name.as_str());
            out.push('(');
            push_names(params, out);
            extend_str(out, ") {\n  ");
            body.push_text(out);
            extend_str(out, "\n}");
            assert(out@ =~= old(out)@ + node_text(self@));
        }
    }

    fn push_call(&self, out: &mut Vec<char>)
        requires
            self is Call,
        ensures
            final(out)@ == old(out)@ + node_text(self@),
        decreases self, 0int,
    {
        if let Node::Call(name, args) = self {
            proof {
                lemma_call_view(*name, *args);
                reveal_strlit(", ");
                assert(", "@ =~= seq![',', ' ']);
            }
            extend_str(out, name.as_str());
            out.push('(');
            push_nodes(args, ", ", out);
            out.push(')');
            assert(out@ =~= old(out)@ + node_text(self@));
        }
    }

    fn push_statements(&self, out: &mut Vec<char>)
        requires
            self is Statements,
        ensures
            final(out)@ == old(out)@ + node_text(self@),
        decreases self, 0int,
    {
        if let Node::Statements(nodes) = self {
            proof {
                lemma_statements_view(*nodes);
                reveal_strlit("{\n  ");
                reveal_strlit("\n  ");
                reveal_strlit("\n}");
                assert("{\n  "@ =~= seq!['{', '\n', ' ', ' ']);
                assert("\n  "@ =~= seq!['\n', ' ', ' ']);
                assert("\n}"@ =~= seq!['\n', '}']);
            }
            extend_str(out, "{\n  ");
            push_nodes(nodes, "\n  ", out);
            extend_str(out, "\n}");
            assert(out@ =~= old(out)@ + node_text(self@));
        }
    }

    /// Appends the text of this node to `out`.
    fn push_text(&self, out: &mut Vec<char>)
        ensures
            final(out)@ == old(out)@ + node_text(self@),
        decreases self, 1int,
    {
        match self {
            Node::Int(n) => push_decimal(out, *n),
            Node::Float(text) => extend_str(out, text.as_str()),
            Node::Real(bits) => {
                out.push('#');
                push_natural(out, *bits);
                assert(out@ =~= old(out)@ + node_text(self@));
            },
            Node::Identifier(name) => extend_str(out, name.as_str()),
            Node::Assignment(_, _) => self.push_assignment(out),
            Node::Unary(_, _) => self.push_unary(out),
            Node::Binary(_, _, _) => self.push_binary(out),
            Node::If(_, _, _) => self.push_conditional(out),
            Node::While(_, _) => self.push_loop(out),
            Node::FnDef(_, _, _) => self.push_definition(out),
            Node::Call(_, _) => self.push_call(out),
            Node::Statements(_) => self.push_statements(out),
            Node::Eof => {
                proof {
                    reveal_strlit("<eof>");
                    assert("<eof>"@ =~= seq!['<', 'e', 'o', 'f', '>']);
                }
                extend_str(out, "<eof>");
            },
        }
    }

    /// The text that is shown for this node: see [`node_text`].
    pub fn to_string(&self) -> (r: String)
        ensures
            r@ == node_text(self@),
    {
        let mut out: Vec<char> = Vec::new();
        self.push_text(&mut out);
        from_chars(&out)
    }
}

} // verus!
