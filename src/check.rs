//! The type checker: a post-order walk that types every child before
//! applying its parent's rule, and stops at the first error.
use vstd::prelude::*;
use crate::env::{Context, OpTable, Signature};
use crate::types::{BinExp, CallExp, Expr, FunExp, FunType, IfExp, Operation, Type, TypeError, copy_type, same_type};

verus! {

/// The type of `e` under the variable bindings `ctx` and the operation
/// signatures `ops`, or the first error met in post-order.
pub open spec fn typing(e: Expr, ctx: Map<char, Type>, ops: Map<Operation, Signature>) -> Result<Type, TypeError>
    decreases e,
{
    match e {
        Expr::Number(_) => Ok(Type::Number),
        Expr::String(_) => Ok(Type::String),
        Expr::Bool(_) => Ok(Type::Bool),
        Expr::Variable(x) => {
            if ctx.contains_key(x) {
                Ok(ctx[x])
            } else {
                Err(TypeError::UnboundVariable(x))
            }
        },
        Expr::Binary(b) => match typing(*b.left, ctx, ops) {
            Err(err) => Err(err),
            Ok(l) => match typing(*b.right, ctx, ops) {
                Err(err) => Err(err),
                Ok(r) => {
                    if !ops.contains_key(b.operator) {
                        Err(TypeError::UnknownOperation(b.operator))
                    } else {
                        let sig = ops[b.operator];
                        if l == sig.0 && r == sig.1 {
                            Ok(sig.2)
                        } else {
                            Err(TypeError::OperandTypeMismatch(b.operator, sig.0, sig.1, l, r))
                        }
                    }
                },
            },
        },
        Expr::Conditional(c) => match typing(*c.condition, ctx, ops) {
            Err(err) => Err(err),
            Ok(ct) => match typing(*c.then_branch, ctx, ops) {
                Err(err) => Err(err),
                Ok(tt) => match typing(*c.else_branch, ctx, ops) {
                    Err(err) => Err(err),
                    Ok(et) => {
                        if ct != Type::Bool {
                            Err(TypeError::NonBooleanCondition(ct))
                        } else if tt != et {
                            Err(TypeError::BranchTypeMismatch(tt, et))
                        } else {
                            Ok(tt)
                        }
                    },
                },
            },
        },
        Expr::Function(f) => match *f.argument {
            Expr::Variable(x) => match typing(*f.body, ctx.insert(x, f.arg_type), ops) {
                Err(err) => Err(err),
                Ok(bt) => Ok(Type::Function(FunType { input: Box::new(f.arg_type), output: Box::new(bt) })),
            },
            _ => Err(TypeError::InvalidParameter),
        },
        Expr::Call(c) => match typing(*c.caller, ctx, ops) {
            Err(err) => Err(err),
            Ok(ft) => match typing(*c.callee, ctx, ops) {
                Err(err) => Err(err),
                Ok(at) => match ft {
                    Type::Function(sig) => {
                        if *sig.input == at {
                            Ok(*sig.output)
                        } else {
                            Err(TypeError::ArgumentTypeMismatch(*sig.input, at))
                        }
                    },
                    _ => Err(TypeError::NotCallable(ft)),
                },
            },
        },
    }
}

/// Type-checks `expr` under `context` and `op_type`. A function's parameter
/// is bound only while its body is checked: the context comes back as it was.
pub fn type_check(expr: &Expr, context: &mut Context, op_type: &OpTable) -> (r: Result<Type, TypeError>)
    ensures
        r == typing(*expr, old(context)@, op_type@),
        final(context).entries() == old(context).entries(),
        final(context)@ == old(context)@,
    decreases expr, 1nat,
{
    match expr {
        Expr::Number(_) => Ok(Type::Number),
        Expr::String(_) => Ok(Type::String),
        Expr::Bool(_) => Ok(Type::Bool),
        Expr::Variable(x) => match context.get(*x) {
            Some(t) => Ok(copy_type(t)),
            None => Err(TypeError::UnboundVariable(*x)),
        },
        Expr::Binary(b) => check_binary(b, context, op_type),
        Expr::Conditional(c) => check_conditional(c, context, op_type),
        Expr::Function(f) => check_function(f, context, op_type),
        Expr::Call(c) => check_call(c, context, op_type),
    }
}

fn check_binary(b: &BinExp, context: &mut Context, op_type: &OpTable) -> (r: Result<Type, TypeError>)
    ensures
        r == typing(Expr::Binary(*b), old(context)@, op_type@),
        final(context).entries() == old(context).entries(),
    decreases Expr::Binary(*b), 0nat,
{
    let l = match type_check(&b.left, context, op_type) {
        Ok(t) => t,
        Err(err) => return Err(err),
    };
    let r = match type_check(&b.right, context, op_type) {
        Ok(t) => t,
        Err(err) => return Err(err),
    };
    match op_type.get(b.operator) {
        None => Err(TypeError::UnknownOperation(b.operator)),
        Some(sig) => {
            if same_type(&l, &sig.0) && same_type(&r, &sig.1) {
                Ok(copy_type(&sig.2))
            } else {
                Err(TypeError::OperandTypeMismatch(b.operator, copy_type(&sig.0), copy_type(&sig.1), l, r))
            }
        },
    }
}

fn check_conditional(c: &IfExp, context: &mut Context, op_type: &OpTable) -> (r: Result<Type, TypeError>)
    ensures
        r == typing(Expr::Conditional(*c), old(context)@, op_type@),
        final(context).entries() == old(context).entries(),
    decreases Expr::Conditional(*c), 0nat,
{
    let ct = match type_check(&c.condition, context, op_type) {
        Ok(t) => t,
        Err(err) => return Err(err),
    };
    let tt = match type_check(&c.then_branch, context, op_type) {
        Ok(t) => t,
        Err(err) => return Err(err),
    };
    let et = match type_check(&c.else_branch, context, op_type) {
        Ok(t) => t,
        Err(err) => return Err(err),
    };
    if !same_type(&ct, &Type::Bool) {
        Err(TypeError::NonBooleanCondition(ct))
    } else if !same_type(&tt, &et) {
        Err(TypeError::BranchTypeMismatch(tt, et))
    } else {
        Ok(tt)
    }
}

fn check_function(f: &FunExp, context: &mut Context, op_type: &OpTable) -> (r: Result<Type, TypeError>)
    ensures
        r == typing(Expr::Function(*f), old(context)@, op_type@),
        final(context).entries() == old(context).entries(),
    decreases Expr::Function(*f), 0nat,
{
    let x = match &*f.argument {
        Expr::Variable(x) => *x,
        _ => return Err(TypeError::InvalidParameter),
    };
    context.insert(x, copy_type(&f.arg_type));
    let body = type_check(&f.body, context, op_type);
    context.remove_newest();
    match body {
        Ok(bt) => Ok(Type::Function(FunType { input: Box::new(copy_type(&f.arg_type)), output: Box::new(bt) })),
        Err(err) => Err(err),
    }
}

fn check_call(c: &CallExp, context: &mut Context, op_type: &OpTable) -> (r: Result<Type, TypeError>)
    ensures
        r == typing(Expr::Call(*c), old(context)@, op_type@),
        final(context).entries() == old(context).entries(),
    decreases Expr::Call(*c), 0nat,
{
    let ft = match type_check(&c.caller, context, op_type) {
        Ok(t) => t,
        Err(err) => return Err(err),
    };
    let at = match type_check(&c.callee, context, op_type) {
        Ok(t) => t,
        Err(err) => return Err(err),
    };
    match ft {
        Type::Function(sig) => {
            if same_type(&sig.input, &at) {
                Ok(*sig.output)
            } else {
                Err(TypeError::ArgumentTypeMismatch(*sig.input, at))
            }
        },
        _ => Err(TypeError::NotCallable(ft)),
    }
}

} // verus!
