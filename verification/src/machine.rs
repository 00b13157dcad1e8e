//! The state of the evaluator: a stack of scopes, a stack of what is left to
//! do, and what is being done.
//!
//! The evaluator computes no real arithmetic.  Where an evaluation needs it,
//! the state holds a [`Request`], and the evaluation goes on when the host
//! has answered it.

use crate::node::{nodes_view, Node, SpecNode, UnaryOp, BinaryOp};
use crate::numeric::{Real, Test};
use crate::scope::Scope;
use crate::value::{values_view, EvalError, SpecEvalError, SpecValue, Value};
use vstd::prelude::*;

verus! {

/// What the host is asked to compute.  It answers with a value.
#[derive(Debug, PartialEq)]
pub enum Request {
    /// The real that the formula denotes, as a `Float`.
    Real(Real),
    /// The complex number with these parts, as a `Complex`.
    Complex(Real, Real),
    /// The formula's real rounded toward zero, as an `Int`.
    Truncated(Real),
    /// The truth value of the condition, as a `Bool`.
    Test(Test),
    /// The real that a literal denotes, as a `Float`.
    Literal(String),
    /// The value is to be written to the output; the answer is the integer 0.
    Print(Value),
}

/// The mathematical content of a [`Request`].
pub enum SpecRequest {
    Real(Real),
    Complex(Real, Real),
    Truncated(Real),
    Test(Test),
    Literal(Seq<char>),
    Print(SpecValue),
}

impl View for Request {
    type V = SpecRequest;

    open spec fn view(&self) -> SpecRequest {
        match self {
            Request::Real(r) => SpecRequest::Real(*r),
            Request::Complex(re, im) => SpecRequest::Complex(*re, *im),
            Request::Truncated(r) => SpecRequest::Truncated(*r),
            Request::Test(t) => SpecRequest::Test(*t),
            Request::Literal(text) => SpecRequest::Literal(text@),
            Request::Print(v) => SpecRequest::Print(v@),
        }
    }
}

/// What is left to do with the value of the expression that is being evaluated.
#[derive(Debug, PartialEq)]
pub enum Frame {
    /// Bind the name to the value.
    Assign(String),
    /// Apply the operator to the value.
    Unary(UnaryOp),
    /// The value is the left operand: evaluate the right one.
    Left(BinaryOp, Node),
    /// The value is the right operand: apply the operator to the left one and it.
    Right(BinaryOp, Value),
    /// The value is the condition of a conditional with these branches.
    Branch(Node, Option<Node>),
    /// The value is the condition of a loop with this condition and this
    /// body, whose last iteration gave the value kept here.
    Test(Node, Node, Value),
    /// The value is that of the body of a loop with this condition and this body.
    Body(Node, Node),
    /// The value is the next argument of a call of this name with these
    /// argument expressions, after these argument values.
    Args(String, Vec<Node>, Vec<Value>),
    /// The value is that of the statement at this index of a block.
    Block(Vec<Node>, usize),
    /// The value is the result of a call: leave the scope of the call.
    Leave,
}

/// The mathematical content of a [`Frame`].
pub enum SpecFrame {
    Assign(Seq<char>),
    Unary(UnaryOp),
    Left(BinaryOp, SpecNode),
    Right(BinaryOp, SpecValue),
    Branch(SpecNode, Option<SpecNode>),
    Test(SpecNode, SpecNode, SpecValue),
    Body(SpecNode, SpecNode),
    Args(Seq<char>, Seq<SpecNode>, Seq<SpecValue>),
    Block(Seq<SpecNode>, int),
    Leave,
}

impl View for Frame {
    type V = SpecFrame;

    open spec fn view(&self) -> SpecFrame {
        match self {
            Frame::Assign(name) => SpecFrame::Assign(name@),
            Frame::Unary(op) => SpecFrame::Unary(*op),
            Frame::Left(op, right) => SpecFrame::Left(*op, right@),
            Frame::Right(op, left) => SpecFrame::Right(*op, left@),
            Frame::Branch(then, otherwise) => SpecFrame::Branch(
                then@,
                match otherwise {
                    Some(node) => Some(node@),
                    None => None,
                },
            ),
            Frame::Test(cond, body, last) => SpecFrame::Test(cond@, body@, last@),
            Frame::Body(cond, body) => SpecFrame::Body(cond@, body@),
            Frame::Args(name, args, values) => SpecFrame::Args(
                name@,
                nodes_view(args@),
                values_view(values@),
            ),
            Frame::Block(nodes, index) => SpecFrame::Block(nodes_view(nodes@), *index as int),
            Frame::Leave => SpecFrame::Leave,
        }
    }
}

/// What is being done.
#[derive(Debug, PartialEq)]
pub enum Control {
    /// The node is to be evaluated.
    Eval(Node),
    /// The value is to be handed to what is left to do.
    Return(Value),
    /// The host is asked; the evaluation goes on with its answer.
    Ask(Request),
    /// The evaluation has ended with this value.
    Done(Value),
    /// The evaluation has ended with this error.
    Failed(EvalError),
}

/// The mathematical content of a [`Control`].
pub enum SpecControl {
    Eval(SpecNode),
    Return(SpecValue),
    Ask(SpecRequest),
    Done(SpecValue),
    Failed(SpecEvalError),
}

impl View for Control {
    type V = SpecControl;

    open spec fn view(&self) -> SpecControl {
        match self {
            Control::Eval(node) => SpecControl::Eval(node@),
            Control::Return(v) => SpecControl::Return(v@),
            Control::Ask(r) => SpecControl::Ask(r@),
            Control::Done(v) => SpecControl::Done(v@),
            Control::Failed(e) => SpecControl::Failed(e@),
        }
    }
}

/// The mathematical content of an [`Interpreter`].  The last scope is the
/// current one; the last frame is the next to get a value.
pub struct Machine {
    pub scopes: Seq<Map<Seq<char>, SpecValue>>,
    pub stack: Seq<SpecFrame>,
    pub control: SpecControl,
}

impl Machine {
    /// There is a current scope.
    pub open spec fn wf(self) -> bool {
        self.scopes.len() >= 1
    }

    /// The current scope.
    pub open spec fn scope(self) -> Map<Seq<char>, SpecValue> {
        self.scopes.last()
    }

    /// The same state with another control.
    pub open spec fn with_control(self, control: SpecControl) -> Machine {
        Machine { control, ..self }
    }

    /// The state in which `node` is evaluated next.
    pub open spec fn evaluating(self, node: SpecNode) -> Machine {
        self.with_control(SpecControl::Eval(node))
    }

    /// The state in which `v` is handed on next.
    pub open spec fn returning(self, v: SpecValue) -> Machine {
        self.with_control(SpecControl::Return(v))
    }

    /// The state in which the host is asked.
    pub open spec fn asking(self, r: SpecRequest) -> Machine {
        self.with_control(SpecControl::Ask(r))
    }

    /// The state in which the evaluation has failed.
    pub open spec fn failing(self, e: SpecEvalError) -> Machine {
        self.with_control(SpecControl::Failed(e))
    }

    /// The same state with one more frame.
    pub open spec fn pushing(self, frame: SpecFrame) -> Machine {
        Machine { stack: self.stack.push(frame), ..self }
    }

    /// The same state without its last frame.
    pub open spec fn popping(self) -> Machine {
        Machine { stack: self.stack.drop_last(), ..self }
    }

    /// The same state with `name` bound to `v` in the current scope.
    pub open spec fn binding(self, name: Seq<char>, v: SpecValue) -> Machine {
        Machine {
            scopes: self.scopes.update(self.scopes.len() - 1, self.scope().insert(name, v)),
            ..self
        }
    }

    /// The same state with `scope` in place of the current scope.
    pub open spec fn rescoped(self, scope: Map<Seq<char>, SpecValue>) -> Machine {
        Machine { scopes: self.scopes.update(self.scopes.len() - 1, scope), ..self }
    }

    /// The same state with `scope` as the current scope, on top of the others.
    pub open spec fn entering(self, scope: Map<Seq<char>, SpecValue>) -> Machine {
        Machine { scopes: self.scopes.push(scope), ..self }
    }

    /// The same state without its current scope; the first scope stays.
    pub open spec fn leaving(self) -> Machine {
        if self.scopes.len() > 1 {
            Machine { scopes: self.scopes.drop_last(), ..self }
        } else {
            self
        }
    }

    /// The state in which `node` is evaluated in the first scope, nothing else being left to do.
    pub open spec fn loading(self, node: SpecNode) -> Machine {
        Machine {
            scopes: self.scopes.take(1),
            stack: Seq::empty(),
            control: SpecControl::Eval(node),
        }
    }
}

/// The views of a list of scopes.
pub open spec fn scopes_view(scopes: Seq<Scope>) -> Seq<Map<Seq<char>, SpecValue>> {
    Seq::new(scopes.len(), |i: int| scopes[i]@)
}

/// The views of a list of frames.
pub open spec fn frames_view(frames: Seq<Frame>) -> Seq<SpecFrame> {
    Seq::new(frames.len(), |i: int| frames[i]@)
}

/// The evaluator.
pub struct Interpreter {
    scopes: Vec<Scope>,
    stack: Vec<Frame>,
    control: Control,
}

impl View for Interpreter {
    type V = Machine;

    closed spec fn view(&self) -> Machine {
        Machine {
            scopes: scopes_view(self.scopes@),
            stack: frames_view(self.stack@),
            control: self.control@,
        }
    }
}

impl Interpreter {
    /// An evaluator with `scope` as its only scope, and nothing to do.
    pub fn with_scope(scope: Scope) -> (interpreter: Interpreter)
        ensures
            interpreter@ == (Machine {
                scopes: seq![scope@],
                stack: Seq::empty(),
                control: SpecControl::Done(SpecValue::Int(0)),
            }),
    {
        let mut scopes: Vec<Scope> = Vec::new();
        scopes.push(scope);
        let interpreter = Interpreter {
            scopes,
            stack: Vec::new(),
            control: Control::Done(Value::Int(0)),
        };
        assert(interpreter@.scopes =~= seq![scope@]);
        assert(interpreter@.stack =~= Seq::empty());
        interpreter
    }

    /// What is being done.
    pub fn control(&self) -> (c: &Control)
        ensures
            c@ == self@.control,
    {
        &self.control
    }

    /// The current scope.
    pub fn scope(&self) -> (s: &Scope)
        requires
            self@.wf(),
        ensures
            s@ == self@.scope(),
    {
        &self.scopes[self.scopes.len() - 1]
    }

    /// Takes what is being done out of the state; a `Done` stands in for it.
    pub(crate) fn take_control(&mut self) -> (c: Control)
        ensures
            c@ == old(self)@.control,
            final(self)@ == old(self)@.with_control(SpecControl::Done(SpecValue::Int(0))),
    {
        let mut control = Control::Done(Value::Int(0));
        std::mem::swap(&mut self.control, &mut control);
        control
    }

    /// Sets what is being done.
    pub(crate) fn set_control(&mut self, control: Control)
        ensures
            final(self)@ == old(self)@.with_control(control@),
    {
        self.control = control;
    }

    /// Adds a frame.
    pub(crate) fn push(&mut self, frame: Frame)
        ensures
            final(self)@ == old(self)@.pushing(frame@),
    {
        self.stack.push(frame);
        assert(self@.stack =~= old(self)@.stack.push(frame@));
    }

    /// Takes the last frame off, if there is one.
    pub(crate) fn pop(&mut self) -> (r: Option<Frame>)
        ensures
            match r {
                Some(frame) => old(self)@.stack.len() > 0 && frame@ == old(self)@.stack.last()
                    && final(self)@ == old(self)@.popping(),
                None => old(self)@.stack.len() == 0 && final(self)@ == old(self)@,
            },
    {
        let r = self.stack.pop();
        assert(r is Some ==> self@.stack =~= old(self)@.stack.drop_last());
        r
    }

    /// The value that `name` is bound to in the current scope, if it is bound.
    pub(crate) fn lookup(&self, name: &str) -> (r: Option<Value>)
        requires
            self@.wf(),
        ensures
            match r {
                Some(v) => self@.scope().contains_key(name@) && v@ == self@.scope()[name@],
                None => !self@.scope().contains_key(name@),
            },
    {
        self.scopes[self.scopes.len() - 1].get(name)
    }

    /// Binds `name` to `value` in the current scope.
    pub(crate) fn bind(&mut self, name: String, value: Value)
        requires
            old(self)@.wf(),
        ensures
            final(self)@ == old(self)@.binding(name@, value@),
    {
        let last = self.scopes.len() - 1;
        let mut scope = Scope::new();
        std::mem::swap(&mut self.scopes[last], &mut scope);
        scope.set(name, value);
        std::mem::swap(&mut self.scopes[last], &mut scope);
        assert(self@.scopes =~= old(self)@.binding(name@, value@).scopes);
    }

    /// Exchanges the current scope and `scope`.
    pub(crate) fn swap_scope(&mut self, scope: &mut Scope)
        requires
            old(self)@.wf(),
        ensures
            final(self)@ == old(self)@.rescoped(old(scope)@),
            final(scope)@ == old(self)@.scope(),
    {
        let last = self.scopes.len() - 1;
        std::mem::swap(&mut self.scopes[last], scope);
        assert(self@.scopes =~= old(self)@.rescoped(old(scope)@).scopes);
    }

    /// Makes `scope` the current scope, on top of the others.
    pub(crate) fn enter(&mut self, scope: Scope)
        ensures
            final(self)@ == old(self)@.entering(scope@),
    {
        self.scopes.push(scope);
        assert(self@.scopes =~= old(self)@.scopes.push(scope@));
    }

    /// Drops the current scope; the first scope stays.
    pub(crate) fn leave(&mut self)
        ensures
            final(self)@ == old(self)@.leaving(),
    {
        if self.scopes.len() > 1 {
            self.scopes.pop();
            assert(self@.scopes =~= old(self)@.scopes.drop_last());
        }
    }

    /// Binds `name` to `value` in the current scope.
    pub fn add_var(&mut self, name: &str, value: Value)
        requires
            old(self)@.wf(),
        ensures
            final(self)@ == old(self)@.binding(name@, value@),
    {
        self.bind(String::from_str(name), value);
    }

    /// Gives up what was being done and sets out to evaluate `ast` in the first scope.
    pub fn load(&mut self, ast: Node)
        requires
            old(self)@.wf(),
        ensures
            final(self)@ == old(self)@.loading(ast@),
    {
        self.scopes.truncate(1);
        self.stack.clear();
        self.control = Control::Eval(ast);
        assert(self@.scopes =~= old(self)@.scopes.take(1));
        assert(self@.stack =~= Seq::empty());
    }

    /// Hands the host's answer to a request to the evaluation.  Where
    /// nothing was asked, nothing changes.
    pub fn answer(&mut self, value: Value)
        ensures
            final(self)@ == (match old(self)@.control {
                SpecControl::Ask(_) => old(self)@.returning(value@),
                _ => old(self)@,
            }),
    {
        if let Control::Ask(_) = &self.control {
            self.control = Control::Return(value);
        }
    }
}

} // verus!
