//! The evaluator: one transition of the state at a time.
//!
//! [`step`] says what one transition is; [`Interpreter::step`] makes it.
//! A function call is evaluated in a scope of its own that holds the
//! built-in table and the arguments, and nothing of the caller.

use crate::builtins::{base, base_scope};
use crate::machine::{
    Control, Frame, Interpreter, Machine, Request, SpecControl, SpecFrame, SpecRequest,
};
use crate::node::{
    lemma_call_view, lemma_statements_view, names_view, BinaryOp, Node, SpecNode, UnaryOp,
};
use crate::numeric::{
    apply_binary, apply_unary, arity, arity_of, binary, call_native, native, unary, Native,
    Outcome, Scalar,
};
use crate::scope::Scope;
use crate::value::{
    failure_error, rewrite, rewritten, scalar_of, scalar_value, value_truthy, values_view,
    EvalError, SpecEvalError, SpecValue, Value,
};
use vstd::prelude::*;

verus! {

/// The state after an operation with outcome `o`: its value is handed on,
/// or the host is asked, or the evaluation fails.  For the factorial of a
/// real, the host is asked for the integer, and its factorial is left to do.
pub open spec fn settle(m: Machine, o: Outcome) -> Machine {
    match o {
        Outcome::Value(s) => m.returning(scalar_value(s)),
        Outcome::Real(r) => m.asking(SpecRequest::Real(r)),
        Outcome::Complex(re, im) => m.asking(SpecRequest::Complex(re, im)),
        Outcome::Truncated(r) => m.asking(SpecRequest::Truncated(r)),
        Outcome::Factorial(r) => m.pushing(SpecFrame::Unary(UnaryOp::Fact)).asking(
            SpecRequest::Truncated(r),
        ),
        Outcome::Test(t) => m.asking(SpecRequest::Test(t)),
        Outcome::Failed(f) => m.failing(failure_error(f)),
    }
}

/// The state after an operator is applied to one value.  A function is its
/// own positive and is true; no other operator takes one.
pub open spec fn unary_step(m: Machine, op: UnaryOp, v: SpecValue) -> Machine {
    match scalar_of(v) {
        Some(s) => settle(m, unary(op, s)),
        None => match op {
            UnaryOp::Pos => m.returning(v),
            UnaryOp::Not => m.returning(SpecValue::Bool(false)),
            _ => m.failing(SpecEvalError::WrongOperandKind),
        },
    }
}

/// The state after an operator is applied to two values.  A function and a
/// constant are rewritten to a function; a function equals nothing, and is
/// true.
pub open spec fn binary_step(m: Machine, op: BinaryOp, l: SpecValue, r: SpecValue) -> Machine {
    match rewritten(op, l, r) {
        Some(f) => m.returning(f),
        None => match (scalar_of(l), scalar_of(r)) {
            (Some(a), Some(b)) => settle(m, binary(op, a, b)),
            _ => match op {
                BinaryOp::EqEq => m.returning(SpecValue::Bool(false)),
                BinaryOp::Neq => m.returning(SpecValue::Bool(true)),
                BinaryOp::And => m.returning(SpecValue::Bool(value_truthy(l) && value_truthy(r))),
                BinaryOp::Or => m.returning(SpecValue::Bool(value_truthy(l) || value_truthy(r))),
                _ => m.failing(SpecEvalError::WrongOperandKind),
            },
        },
    }
}

/// `scope` with the first `n` parameters bound to the first `n` values.
pub open spec fn bound(
    scope: Map<Seq<char>, SpecValue>,
    params: Seq<Seq<char>>,
    values: Seq<SpecValue>,
    n: nat,
) -> Map<Seq<char>, SpecValue>
    decreases n,
{
    if n == 0 {
        scope
    } else {
        bound(scope, params, values, (n - 1) as nat).insert(params[n - 1], values[n - 1])
    }
}

/// The scope of a call: the built-in table, and the parameters bound to the
/// arguments in order, as far as both go.
pub open spec fn call_scope(params: Seq<Seq<char>>, values: Seq<SpecValue>) -> Map<
    Seq<char>,
    SpecValue,
> {
    bound(
        base_scope(),
        params,
        values,
        if params.len() <= values.len() {
            params.len()
        } else {
            values.len()
        },
    )
}

/// The scalars that values are, if all of them are scalars.
pub open spec fn scalars_of(values: Seq<SpecValue>) -> Option<Seq<Scalar>> {
    if forall|i: int| 0 <= i < values.len() ==> scalar_of(#[trigger] values[i]) is Some {
        Some(Seq::new(values.len(), |i: int| scalar_of(values[i])->0))
    } else {
        None
    }
}

/// The state after a native function is called.
pub open spec fn native_step(m: Machine, f: Native, values: Seq<SpecValue>) -> Machine {
    if values.len() != arity(f) {
        m.failing(SpecEvalError::WrongArity)
    } else if f == Native::Print {
        m.asking(SpecRequest::Print(values[0]))
    } else {
        match scalars_of(values) {
            Some(scalars) => settle(m, native(f, scalars)),
            None => m.failing(SpecEvalError::WrongOperandKind),
        }
    }
}

/// The state after what `name` is bound to is called with `values`.
pub open spec fn invoke(m: Machine, name: Seq<char>, values: Seq<SpecValue>) -> Machine {
    if !m.scope().contains_key(name) {
        m.failing(SpecEvalError::UndefinedName(name))
    } else {
        match m.scope()[name] {
            SpecValue::Function(_, params, body) => m.pushing(SpecFrame::Leave).entering(
                call_scope(params, values),
            ).evaluating(body),
            SpecValue::NativeFunction(f) => native_step(m, f, values),
            _ => m.failing(SpecEvalError::NotAFunction(name)),
        }
    }
}

/// The state after the evaluation of `node` has begun.
pub open spec fn begin(m: Machine, node: SpecNode) -> Machine {
    match node {
        SpecNode::Int(n) => m.returning(SpecValue::Int(n)),
        SpecNode::Float(text) => m.asking(SpecRequest::Literal(text)),
        SpecNode::Real(bits) => m.returning(SpecValue::Float(bits)),
        SpecNode::Identifier(name) => if m.scope().contains_key(name) {
            m.returning(m.scope()[name])
        } else {
            m.failing(SpecEvalError::UndefinedName(name))
        },
        SpecNode::Assignment(name, value) => m.pushing(SpecFrame::Assign(name)).evaluating(*value),
        SpecNode::Unary(op, operand) => m.pushing(SpecFrame::Unary(op)).evaluating(*operand),
        SpecNode::Binary(left, op, right) => m.pushing(SpecFrame::Left(op, *right)).evaluating(
            *left,
        ),
        SpecNode::If(cond, then, otherwise) => m.pushing(
            SpecFrame::Branch(
                *then,
                match otherwise {
                    Some(node) => Some(*node),
                    None => None,
                },
            ),
        ).evaluating(*cond),
        SpecNode::While(cond, body) => m.pushing(
            SpecFrame::Test(*cond, *body, SpecValue::Int(0)),
        ).evaluating(*cond),
        SpecNode::FnDef(name, params, body) => m.binding(
            name,
            SpecValue::Function(name, params, *body),
        ).returning(SpecValue::Int(0)),
        SpecNode::Call(name, args) => if args.len() == 0 {
            invoke(m, name, Seq::empty())
        } else {
            m.pushing(SpecFrame::Args(name, args, Seq::empty())).evaluating(args[0])
        },
        SpecNode::Statements(nodes) => if nodes.len() == 0 {
            m.returning(SpecValue::Int(0))
        } else {
            m.pushing(SpecFrame::Block(nodes, 0)).evaluating(nodes[0])
        },
        SpecNode::Eof => m.returning(SpecValue::Int(0)),
    }
}

/// The state after the value `v` has been handed to `frame`, which was
/// taken off the stack of `m`.
pub open spec fn resume(m: Machine, frame: SpecFrame, v: SpecValue) -> Machine {
    match frame {
        SpecFrame::Assign(name) => m.binding(name, v).returning(v),
        SpecFrame::Unary(op) => unary_step(m, op, v),
        SpecFrame::Left(op, right) => m.pushing(SpecFrame::Right(op, v)).evaluating(right),
        SpecFrame::Right(op, left) => binary_step(m, op, left, v),
        SpecFrame::Branch(then, otherwise) => if value_truthy(v) {
            m.evaluating(then)
        } else {
            match otherwise {
                Some(node) => m.evaluating(node),
                None => m.returning(SpecValue::Int(0)),
            }
        },
        SpecFrame::Test(cond, body, last) => if value_truthy(v) {
            m.pushing(SpecFrame::Body(cond, body)).evaluating(body)
        } else {
            m.returning(last)
        },
        SpecFrame::Body(cond, body) => m.pushing(SpecFrame::Test(cond, body, v)).evaluating(cond),
        SpecFrame::Args(name, args, values) => if values.len() + 1 < args.len() {
            m.pushing(SpecFrame::Args(name, args, values.push(v))).evaluating(
                args[values.len() as int + 1],
            )
        } else {
            invoke(m, name, values.push(v))
        },
        SpecFrame::Block(nodes, index) => if 0 <= index + 1 < nodes.len() {
            m.pushing(SpecFrame::Block(nodes, index + 1)).evaluating(nodes[index + 1])
        } else {
            m.returning(v)
        },
        SpecFrame::Leave => m.leaving().returning(v),
    }
}

/// The state with nothing being done: what the transitions start from.
pub open spec fn idle(m: Machine) -> Machine {
    m.with_control(SpecControl::Done(SpecValue::Int(0)))
}

/// One transition.  A node is begun; a value is handed to the last frame,
/// or ends the evaluation where no frame is left.  A state that asks the host, or
/// has ended, stays as it is.
pub open spec fn step(m: Machine) -> Machine {
    match m.control {
        SpecControl::Eval(node) => begin(idle(m), node),
        SpecControl::Return(v) => if m.stack.len() == 0 {
            m.with_control(SpecControl::Done(v))
        } else {
            resume(idle(m).popping(), m.stack.last(), v)
        },
        _ => m,
    }
}

/// Whether a transition changes the state: a node or a value is at hand.
pub open spec fn active(m: Machine) -> bool {
    m.control is Eval || m.control is Return
}

/// The state after at most `n` transitions, fewer where the evaluation asks the host or ends.
pub open spec fn iterate(m: Machine, n: nat) -> Machine
    decreases n,
{
    if n == 0 || !active(m) {
        m
    } else {
        iterate(step(m), (n - 1) as nat)
    }
}

impl Interpreter {
    fn fail(&mut self, e: EvalError)
        ensures
            final(self)@ == old(self)@.failing(e@),
    {
        self.set_control(Control::Failed(e));
    }

    fn give(&mut self, v: Value)
        ensures
            final(self)@ == old(self)@.returning(v@),
    {
        self.set_control(Control::Return(v));
    }

    fn ask(&mut self, r: Request)
        ensures
            final(self)@ == old(self)@.asking(r@),
    {
        self.set_control(Control::Ask(r));
    }

    fn eval(&mut self, node: Node)
        ensures
            final(self)@ == old(self)@.evaluating(node@),
    {
        self.set_control(Control::Eval(node));
    }

    fn settle(&mut self, o: Outcome)
        ensures
            final(self)@ == settle(old(self)@, o),
    {
        match o {
            Outcome::Value(s) => self.give(Value::from_scalar(s)),
            Outcome::Real(r) => self.ask(Request::Real(r)),
            Outcome::Complex(re, im) => self.ask(Request::Complex(re, im)),
            Outcome::Truncated(r) => self.ask(Request::Truncated(r)),
            Outcome::Factorial(r) => {
                self.push(Frame::Unary(UnaryOp::Fact));
                self.ask(Request::Truncated(r));
            },
            Outcome::Test(t) => self.ask(Request::Test(t)),
            Outcome::Failed(f) => self.fail(EvalError::from_failure(f)),
        }
    }

    fn unary_step(&mut self, op: UnaryOp, v: Value)
        ensures
            final(self)@ == unary_step(old(self)@, op, v@),
    {
        match v.scalar() {
            Some(s) => self.settle(apply_unary(op, s)),
            None => match op {
                UnaryOp::Pos => self.give(v),
                UnaryOp::Not => self.give(Value::Bool(false)),
                _ => self.fail(EvalError::WrongOperandKind),
            },
        }
    }

    fn binary_step(&mut self, op: BinaryOp, l: Value, r: Value)
        ensures
            final(self)@ == binary_step(old(self)@, op, l@, r@),
    {
        match rewrite(op, l, r) {
            Ok(f) => self.give(f),
            Err((l, r)) => match (l.scalar(), r.scalar()) {
                (Some(a), Some(b)) => self.settle(apply_binary(op, a, b)),
                _ => match op {
                    BinaryOp::EqEq => self.give(Value::Bool(false)),
                    BinaryOp::Neq => self.give(Value::Bool(true)),
                    BinaryOp::And => self.give(Value::Bool(l.truthy() && r.truthy())),
                    BinaryOp::Or => self.give(Value::Bool(l.truthy() || r.truthy())),
                    _ => self.fail(EvalError::WrongOperandKind),
                },
            },
        }
    }

    fn native_step(&mut self, f: Native, values: Vec<Value>)
        ensures
            final(self)@ == native_step(old(self)@, f, values_view(values@)),
    {
        if values.len() != arity_of(f) {
            self.fail(EvalError::WrongArity);
            return;
        }
        if f == Native::Print {
            self.ask(Request::Print(values[0].clone()));
            return;
        }
        let mut scalars: Vec<Scalar> = Vec::new();
        let mut i: usize = 0;
        while i < values.len()
            invariant
                i <= values.len(),
                scalars@.len() == i,
                self@ == old(self)@,
                values.len() == arity(f),
                f != Native::Print,
                forall|k: int|
                    0 <= k < i ==> scalar_of(#[trigger] values_view(values@)[k]) == Some(
                        scalars@[k],
                    ),
            decreases values.len() - i,
        {
            match values[i].scalar() {
                Some(s) => scalars.push(s),
                None => {
                    assert(scalar_of(values_view(values@)[i as int]) is None);
                    self.fail(EvalError::WrongOperandKind);
                    return;
                },
            }
            i += 1;
        }
        assert(scalars@ =~= scalars_of(values_view(values@))->0);
        self.settle(call_native(f, &scalars));
    }

    fn call_scope(params: &Vec<String>, values: &Vec<Value>) -> (scope: Scope)
        ensures
            scope@ == call_scope(names_view(params@), values_view(values@)),
    {
        let mut scope = base();
        let n = if params.len() <= values.len() {
            params.len()
        } else {
            values.len()
        };
        let mut i: usize = 0;
        while i < n
            invariant
                i <= n,
                n <= params.len(),
                n <= values.len(),
                scope@ == bound(
                    base_scope(),
                    names_view(params@),
                    values_view(values@),
                    i as nat,
                ),
            decreases n - i,
        {
            scope.set(params[i].clone(), values[i].clone());
            i += 1;
        }
        scope
    }

    fn invoke(&mut self, name: String, values: Vec<Value>)
        requires
            old(self)@.wf(),
        ensures
            final(self)@ == invoke(old(self)@, name@, values_view(values@)),
    {
        match self.lookup(name.as_str()) {
            None => self.fail(EvalError::UndefinedName(name)),
            Some(Value::Function(_, params, body)) => {
                let scope = Interpreter::call_scope(&params, &values);
                self.push(Frame::Leave);
                self.enter(scope);
                self.eval(*body);
            },
            Some(Value::NativeFunction(f)) => self.native_step(f, values),
            Some(_) => self.fail(EvalError::NotAFunction(name)),
        }
    }

    fn begin(&mut self, node: Node)
        requires
            old(self)@.wf(),
        ensures
            final(self)@ == begin(old(self)@, node@),
    {
        match node {
            Node::Int(n) => self.give(Value::Int(n)),
            Node::Float(text) => self.ask(Request::Literal(text)),
            Node::Real(bits) => self.give(Value::Float(bits)),
            Node::Identifier(name) => match self.lookup(name.as_str()) {
                Some(v) => self.give(v),
                None => self.fail(EvalError::UndefinedName(name)),
            },
            Node::Assignment(name, value) => {
                self.push(Frame::Assign(name));
                self.eval(*value);
            },
            Node::Unary(op, operand) => {
                self.push(Frame::Unary(op));
                self.eval(*operand);
            },
            Node::Binary(left, op, right) => {
                self.push(Frame::Left(op, *right));
                self.eval(*left);
            },
            Node::If(cond, then, otherwise) => {
                let otherwise = match otherwise {
                    Some(node) => Some(*node),
                    None => None,
                };
                self.push(Frame::Branch(*then, otherwise));
                self.eval(*cond);
            },
            Node::While(cond, body) => {
                let first = (&*cond).clone();
                self.push(Frame::Test(*cond, *body, Value::Int(0)));
                self.eval(first);
            },
            Node::FnDef(name, params, body) => {
                let key = name.clone();
                self.bind(key, Value::Function(name, params, body));
                self.give(Value::Int(0));
            },
            Node::Call(name, args) => {
                proof {
                    lemma_call_view(name, args);
                }
                if args.len() == 0 {
                    let values: Vec<Value> = Vec::new();
                    assert(values_view(values@) =~= Seq::empty());
                    self.invoke(name, values);
                } else {
                    let first = args[0].clone();
                    let values: Vec<Value> = Vec::new();
                    assert(values_view(values@) =~= Seq::empty());
                    self.push(Frame::Args(name, args, values));
                    self.eval(first);
                }
            },
            Node::Statements(nodes) => {
                proof {
                    lemma_statements_view(nodes);
                }
                if nodes.len() == 0 {
                    self.give(Value::Int(0));
                } else {
                    let first = nodes[0].clone();
                    self.push(Frame::Block(nodes, 0));
                    self.eval(first);
                }
            },
            Node::Eof => self.give(Value::Int(0)),
        }
    }

    fn resume(&mut self, frame: Frame, v: Value)
        requires
            old(self)@.wf(),
        ensures
            final(self)@ == resume(old(self)@, frame@, v@),
    {
        match frame {
            Frame::Assign(name) => {
                self.bind(name, v.clone());
                self.give(v);
            },
            Frame::Unary(op) => self.unary_step(op, v),
            Frame::Left(op, right) => {
                self.push(Frame::Right(op, v));
                self.eval(right);
            },
            Frame::Right(op, left) => self.binary_step(op, left, v),
            Frame::Branch(then, otherwise) => {
                if v.truthy() {
                    self.eval(then);
                } else {
                    match otherwise {
                        Some(node) => self.eval(node),
                        None => self.give(Value::Int(0)),
                    }
                }
            },
            Frame::Test(cond, body, last) => {
                if v.truthy() {
                    let next = body.clone();
                    self.push(Frame::Body(cond, body));
                    self.eval(next);
                } else {
                    self.give(last);
                }
            },
            Frame::Body(cond, body) => {
                let next = cond.clone();
                self.push(Frame::Test(cond, body, v));
                self.eval(next);
            },
            Frame::Args(name, args, values) => {
                let mut values = values;
                let ghost before = values_view(values@);
                values.push(v);
                assert(values_view(values@) =~= before.push(v@));
                if values.len() < args.len() {
                    let next = args[values.len()].clone();
                    self.push(Frame::Args(name, args, values));
                    self.eval(next);
                } else {
                    self.invoke(name, values);
                }
            },
            Frame::Block(nodes, index) => {
                if index < nodes.len() && index + 1 < nodes.len() {
                    let next = nodes[index + 1].clone();
                    self.push(Frame::Block(nodes, index + 1));
                    self.eval(next);
                } else {
                    self.give(v);
                }
            },
            Frame::Leave => {
                self.leave();
                self.give(v);
            },
        }
    }

    /// Makes one transition: see [`step`].
    pub fn step(&mut self)
        requires
            old(self)@.wf(),
        ensures
            final(self)@ == step(old(self)@),
            final(self)@.wf(),
    {
        proof {
            lemma_step_wf(self@);
        }
        match self.take_control() {
            Control::Eval(node) => self.begin(node),
            Control::Return(v) => match self.pop() {
                Some(frame) => self.resume(frame, v),
                None => self.set_control(Control::Done(v)),
            },
            other => self.set_control(other),
        }
    }

    /// Makes transitions until the evaluation asks the host or ends, but at
    /// most `budget` of them.
    pub fn run(&mut self, budget: usize)
        requires
            old(self)@.wf(),
        ensures
            final(self)@ == iterate(old(self)@, budget as nat),
            final(self)@.wf(),
    {
        let mut left = budget;
        while left > 0 && self.is_active()
            invariant
                self@.wf(),
                iterate(self@, left as nat) == iterate(old(self)@, budget as nat),
            decreases left,
        {
            self.step();
            left -= 1;
        }
    }

    /// Whether a transition changes the state.
    pub fn is_active(&self) -> (b: bool)
        ensures
            b == active(self@),
    {
        match self.control() {
            Control::Eval(_) => true,
            Control::Return(_) => true,
            _ => false,
        }
    }
}

/// No capture: the scope of a call binds only the names of the built-in
/// table and the parameters of the function, whatever the caller's scope holds.
pub proof fn lemma_call_scope_names(
    params: Seq<Seq<char>>,
    values: Seq<SpecValue>,
    name: Seq<char>,
)
    requires
        call_scope(params, values).contains_key(name),
    ensures
        base_scope().contains_key(name) || params.contains(name),
{
    let n = if params.len() <= values.len() {
        params.len()
    } else {
        values.len()
    };
    lemma_bound_names(base_scope(), params, values, n, name);
}

/// Binding parameters adds no names but those of the parameters.
pub proof fn lemma_bound_names(
    scope: Map<Seq<char>, SpecValue>,
    params: Seq<Seq<char>>,
    values: Seq<SpecValue>,
    n: nat,
    name: Seq<char>,
)
    requires
        n <= params.len(),
        bound(scope, params, values, n).contains_key(name),
    ensures
        scope.contains_key(name) || params.contains(name),
    decreases n,
{
    if n > 0 {
        if name == params[n - 1] {
            assert(params.contains(name));
        } else {
            lemma_bound_names(scope, params, values, (n - 1) as nat, name);
        }
    }
}

/// A call is evaluated in the scope of the call, on top of the caller's
/// scopes, which it leaves as they are.
pub proof fn lemma_call_enters_fresh_scope(m: Machine, name: Seq<char>, values: Seq<SpecValue>)
    requires
        m.wf(),
        m.scope().contains_key(name),
        m.scope()[name] is Function,
    ensures
        invoke(m, name, values).scope() == call_scope(m.scope()[name]->Function_1, values),
        invoke(m, name, values).scopes.drop_last() == m.scopes,
        invoke(m, name, values).stack.last() == SpecFrame::Leave,
{
    assert(invoke(m, name, values).scopes.drop_last() =~= m.scopes);
}

/// Running on in a second budget is running once with both budgets.
pub proof fn lemma_iterate_adds(m: Machine, a: nat, b: nat)
    ensures
        iterate(iterate(m, a), b) == iterate(m, a + b),
    decreases a,
{
    if !active(m) {
        assert(iterate(m, a) == m);
        assert(iterate(m, b) == m);
        assert(iterate(m, a + b) == m);
    } else if a > 0 {
        lemma_iterate_adds(step(m), (a - 1) as nat, b);
    }
}

/// A state that asks the host or has ended stays as it is.
pub proof fn lemma_inactive_stays(m: Machine, n: nat)
    requires
        !active(m),
    ensures
        step(m) == m,
        iterate(m, n) == m,
{
}

/// A transition keeps a current scope.
pub proof fn lemma_step_wf(m: Machine)
    requires
        m.wf(),
    ensures
        step(m).wf(),
{
}

} // verus!
