//! The data model: types, operations, expression trees and type errors.
use vstd::prelude::*;

verus! {

/// A binary operation whose signature is looked up in an operation table.
#[derive(Debug, Clone, Copy, PartialEq, Eq, Hash, Structural)]
pub enum Operation {
    Add,
    Sub,
    Less,
}

/// The symbol an operation is written with.
pub open spec fn op_symbol(op: Operation) -> char {
    match op {
        Operation::Add => '+',
        Operation::Sub => '-',
        Operation::Less => '<',
    }
}

impl Operation {
    /// The operation's symbol, as a one-character string.
    pub fn symbol(&self) -> (r: &'static str)
        ensures
            r@ == seq![op_symbol(*self)],
    {
        proof {
            reveal_strlit("+");
            reveal_strlit("-");
            reveal_strlit("<");
        }
        match self {
            Operation::Add => "+",
            Operation::Sub => "-",
            Operation::Less => "<",
        }
    }
}

/// A type of the language. Function types nest to any depth.
#[derive(Debug)]
pub enum Type {
    Number,
    String,
    Bool,
    Function(FunType),
}

/// The type of a one-argument function.
#[derive(Debug)]
pub struct FunType {
    pub input: Box<Type>,
    pub output: Box<Type>,
}

/// A deep copy of a type.
pub fn copy_type(t: &Type) -> (r: Type)
    ensures
        r == *t,
    decreases t,
{
    match t {
        Type::Number => Type::Number,
        Type::String => Type::String,
        Type::Bool => Type::Bool,
        Type::Function(f) => Type::Function(
            FunType { input: Box::new(copy_type(&f.input)), output: Box::new(copy_type(&f.output)) },
        ),
    }
}

/// Structural equality of two types.
pub fn same_type(a: &Type, b: &Type) -> (r: bool)
    ensures
        r == (*a == *b),
    decreases a,
{
    match (a, b) {
        (Type::Number, Type::Number) => true,
        (Type::String, Type::String) => true,
        (Type::Bool, Type::Bool) => true,
        (Type::Function(f), Type::Function(g)) => {
            same_type(&f.input, &g.input) && same_type(&f.output, &g.output)
        },
        _ => false,
    }
}

impl Clone for Type {
    fn clone(&self) -> (r: Self)
        ensures
            r == *self,
    {
        copy_type(self)
    }
}

impl Clone for FunType {
    fn clone(&self) -> (r: Self)
        ensures
            r == *self,
    {
        FunType { input: Box::new(copy_type(&self.input)), output: Box::new(copy_type(&self.output)) }
    }
}

impl PartialEq for Type {
    fn eq(&self, o: &Type) -> (r: bool) {
        same_type(self, o)
    }
}

impl vstd::std_specs::cmp::PartialEqSpecImpl for Type {
    open spec fn obeys_eq_spec() -> bool {
        true
    }

    open spec fn eq_spec(&self, o: &Type) -> bool {
        *self == *o
    }
}

impl PartialEq for FunType {
    fn eq(&self, o: &FunType) -> (r: bool) {
        same_type(&self.input, &o.input) && same_type(&self.output, &o.output)
    }
}

impl vstd::std_specs::cmp::PartialEqSpecImpl for FunType {
    open spec fn obeys_eq_spec() -> bool {
        true
    }

    open spec fn eq_spec(&self, o: &FunType) -> bool {
        *self == *o
    }
}

/// An expression tree. Trees are immutable once built; a clone is an
/// independent tree.
pub enum Expr {
    /// A number literal, held as the bit pattern of its IEEE-754 double
    /// (what `f64::to_bits` gives). Its value never affects its type.
    Number(u64),
    String(String),
    Bool(bool),
    Variable(char),
    Binary(BinExp),
    Conditional(IfExp),
    Function(FunExp),
    Call(CallExp),
}

/// `left operator right`.
pub struct BinExp {
    pub left: Box<Expr>,
    pub operator: Operation,
    pub right: Box<Expr>,
}

/// `if condition then then_branch else else_branch`.
pub struct IfExp {
    pub condition: Box<Expr>,
    pub then_branch: Box<Expr>,
    pub else_branch: Box<Expr>,
}

/// `fn(argument: arg_type) => body`; the argument must be a variable.
pub struct FunExp {
    pub argument: Box<Expr>,
    pub arg_type: Type,
    pub body: Box<Expr>,
}

/// `caller(callee)`: the caller is the function, the callee its argument.
pub struct CallExp {
    pub caller: Box<Expr>,
    pub callee: Box<Expr>,
}

impl BinExp {
    pub fn new(left: Expr, operator: Operation, right: Expr) -> (r: BinExp)
        ensures
            *r.left == left,
            r.operator == operator,
            *r.right == right,
    {
        BinExp { left: Box::new(left), operator, right: Box::new(right) }
    }
}

impl IfExp {
    pub fn new(condition: Expr, then_branch: Expr, else_branch: Expr) -> (r: IfExp)
        ensures
            *r.condition == condition,
            *r.then_branch == then_branch,
            *r.else_branch == else_branch,
    {
        IfExp {
            condition: Box::new(condition),
            then_branch: Box::new(then_branch),
            else_branch: Box::new(else_branch),
        }
    }
}

impl FunExp {
    pub fn new(argument: Expr, arg_type: Type, body: Expr) -> (r: FunExp)
        ensures
            *r.argument == argument,
            r.arg_type == arg_type,
            *r.body == body,
    {
        FunExp { argument: Box::new(argument), arg_type, body: Box::new(body) }
    }
}

impl CallExp {
    pub fn new(caller: Expr, callee: Expr) -> (r: CallExp)
        ensures
            *r.caller == caller,
            *r.callee == callee,
    {
        CallExp { caller: Box::new(caller), callee: Box::new(callee) }
    }
}

/// A deep copy of an expression tree.
pub fn copy_expr(e: &Expr) -> (r: Expr)
    ensures
        r == *e,
    decreases e,
{
    match e {
        Expr::Number(v) => Expr::Number(*v),
        Expr::String(s) => Expr::String(s.clone()),
        Expr::Bool(b) => Expr::Bool(*b),
        Expr::Variable(x) => Expr::Variable(*x),
        Expr::Binary(b) => Expr::Binary(
            BinExp {
                left: Box::new(copy_expr(&b.left)),
                operator: b.operator,
                right: Box::new(copy_expr(&b.right)),
            },
        ),
        Expr::Conditional(c) => Expr::Conditional(
            IfExp {
                condition: Box::new(copy_expr(&c.condition)),
                then_branch: Box::new(copy_expr(&c.then_branch)),
                else_branch: Box::new(copy_expr(&c.else_branch)),
            },
        ),
        Expr::Function(f) => Expr::Function(
            FunExp {
                argument: Box::new(copy_expr(&f.argument)),
                arg_type: copy_type(&f.arg_type),
                body: Box::new(copy_expr(&f.body)),
            },
        ),
        Expr::Call(c) => Expr::Call(
            CallExp { caller: Box::new(copy_expr(&c.caller)), callee: Box::new(copy_expr(&c.callee)) },
        ),
    }
}

impl Clone for Expr {
    fn clone(&self) -> (r: Self)
        ensures
            r == *self,
    {
        copy_expr(self)
    }
}

impl Clone for BinExp {
    fn clone(&self) -> (r: Self)
        ensures
            r == *self,
    {
        BinExp { left: Box::new(copy_expr(&self.left)), operator: self.operator, right: Box::new(copy_expr(&self.right)) }
    }
}

impl Clone for IfExp {
    fn clone(&self) -> (r: Self)
        ensures
            r == *self,
    {
        IfExp {
            condition: Box::new(copy_expr(&self.condition)),
            then_branch: Box::new(copy_expr(&self.then_branch)),
            else_branch: Box::new(copy_expr(&self.else_branch)),
        }
    }
}

impl Clone for FunExp {
    fn clone(&self) -> (r: Self)
        ensures
            r == *self,
    {
        FunExp {
            argument: Box::new(copy_expr(&self.argument)),
            arg_type: copy_type(&self.arg_type),
            body: Box::new(copy_expr(&self.body)),
        }
    }
}

impl Clone for CallExp {
    fn clone(&self) -> (r: Self)
        ensures
            r == *self,
    {
        CallExp { caller: Box::new(copy_expr(&self.caller)), callee: Box::new(copy_expr(&self.callee)) }
    }
}

/// Why an expression is ill-typed.
#[derive(Debug, PartialEq)]
pub enum TypeError {
    /// A variable with no binding in the context.
    UnboundVariable(char),
    /// An operation with no signature in the table.
    UnknownOperation(Operation),
    /// Operand types differ from the signature: the operation, the expected
    /// left and right types, then the actual left and right types.
    OperandTypeMismatch(Operation, Type, Type, Type, Type),
    /// A condition whose type is not `Bool`, with that type.
    NonBooleanCondition(Type),
    /// Branches of different types: the then type, then the else type.
    BranchTypeMismatch(Type, Type),
    /// A function whose parameter is not a variable.
    InvalidParameter,
    /// A call of a value whose type is not a function type, with that type.
    NotCallable(Type),
    /// An argument of the wrong type: the expected type, then the actual one.
    ArgumentTypeMismatch(Type, Type),
}

} // verus!
