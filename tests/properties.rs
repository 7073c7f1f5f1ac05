use typecheck::env::{Context, OpTable};
use typecheck::type_check;
use typecheck::types::{BinExp, CallExp, Expr, FunExp, FunType, IfExp, Operation, Type, TypeError};

fn num(v: f64) -> Expr {
    Expr::Number(v.to_bits())
}

fn fun(input: Type, output: Type) -> Type {
    Type::Function(FunType { input: Box::new(input), output: Box::new(output) })
}

fn add_table() -> OpTable {
    let mut ops = OpTable::new();
    ops.insert(Operation::Add, (Type::Number, Type::Number, Type::Number));
    ops
}

fn bool_to_bool() -> Expr {
    Expr::Function(FunExp::new(Expr::Variable('y'), Type::Bool, Expr::Bool(false)))
}

#[test]
fn literals_have_their_tagged_type() {
    let mut ctx = Context::new();
    ctx.insert('x', Type::Number);
    let ops = add_table();
    assert_eq!(type_check(&num(1.0), &mut ctx, &ops), Ok(Type::Number));
    assert_eq!(type_check(&Expr::String("x".to_string()), &mut ctx, &ops), Ok(Type::String));
    assert_eq!(type_check(&Expr::Bool(false), &mut ctx, &ops), Ok(Type::Bool));
    assert_eq!(ctx.get('x'), Some(&Type::Number));
    assert_eq!(ctx.get('y'), None);
}

#[test]
fn variable_lookup_and_unbound() {
    let mut ctx = Context::new();
    ctx.insert('x', Type::Number);
    let ops = OpTable::new();
    assert_eq!(type_check(&Expr::Variable('x'), &mut ctx, &ops), Ok(Type::Number));
    let mut empty = Context::new();
    assert_eq!(type_check(&Expr::Variable('w'), &mut empty, &ops), Err(TypeError::UnboundVariable('w')));
}

#[test]
fn binary_ok_and_operand_mismatch() {
    let mut ctx = Context::new();
    let ops = add_table();
    let good = Expr::Binary(BinExp::new(num(1.0), Operation::Add, num(2.0)));
    assert_eq!(type_check(&good, &mut ctx, &ops), Ok(Type::Number));
    let bad = Expr::Binary(BinExp::new(num(1.0), Operation::Add, Expr::Bool(true)));
    assert_eq!(
        type_check(&bad, &mut ctx, &ops),
        Err(TypeError::OperandTypeMismatch(Operation::Add, Type::Number, Type::Number, Type::Number, Type::Bool))
    );
}

#[test]
fn binary_unknown_operation() {
    let mut ctx = Context::new();
    let ops = add_table();
    let e = Expr::Binary(BinExp::new(num(1.0), Operation::Sub, num(2.0)));
    assert_eq!(type_check(&e, &mut ctx, &ops), Err(TypeError::UnknownOperation(Operation::Sub)));
}

#[test]
fn binary_operand_error_comes_first() {
    let mut ctx = Context::new();
    let ops = OpTable::new();
    let e = Expr::Binary(BinExp::new(Expr::Variable('a'), Operation::Sub, Expr::Variable('b')));
    assert_eq!(type_check(&e, &mut ctx, &ops), Err(TypeError::UnboundVariable('a')));
}

#[test]
fn conditional_cases() {
    let mut ctx = Context::new();
    let ops = OpTable::new();
    let ok = Expr::Conditional(IfExp::new(Expr::Bool(false), num(1.0), num(2.0)));
    assert_eq!(type_check(&ok, &mut ctx, &ops), Ok(Type::Number));
    let branches = Expr::Conditional(IfExp::new(Expr::Bool(false), num(1.0), Expr::Bool(true)));
    assert_eq!(type_check(&branches, &mut ctx, &ops), Err(TypeError::BranchTypeMismatch(Type::Number, Type::Bool)));
    let cond = Expr::Conditional(IfExp::new(num(1.0), num(1.0), num(2.0)));
    assert_eq!(type_check(&cond, &mut ctx, &ops), Err(TypeError::NonBooleanCondition(Type::Number)));
}

#[test]
fn condition_error_propagates_unchanged() {
    let mut ctx = Context::new();
    let ops = OpTable::new();
    let e = Expr::Conditional(IfExp::new(Expr::Variable('q'), num(1.0), num(2.0)));
    assert_eq!(type_check(&e, &mut ctx, &ops), Err(TypeError::UnboundVariable('q')));
}

#[test]
fn function_type_and_no_leaked_binding() {
    let mut ctx = Context::new();
    let ops = OpTable::new();
    assert_eq!(type_check(&bool_to_bool(), &mut ctx, &ops), Ok(fun(Type::Bool, Type::Bool)));
    assert_eq!(ctx.get('y'), None);
    assert_eq!(type_check(&Expr::Variable('y'), &mut ctx, &ops), Err(TypeError::UnboundVariable('y')));
}

#[test]
fn parameter_visible_in_body_only() {
    let mut ctx = Context::new();
    ctx.insert('p', Type::String);
    let ops = OpTable::new();
    let f = Expr::Function(FunExp::new(Expr::Variable('p'), Type::Number, Expr::Variable('p')));
    assert_eq!(type_check(&f, &mut ctx, &ops), Ok(fun(Type::Number, Type::Number)));
    assert_eq!(type_check(&Expr::Variable('p'), &mut ctx, &ops), Ok(Type::String));
}

#[test]
fn invalid_parameter() {
    let mut ctx = Context::new();
    let ops = OpTable::new();
    let f = Expr::Function(FunExp::new(num(1.0), Type::Number, num(2.0)));
    assert_eq!(type_check(&f, &mut ctx, &ops), Err(TypeError::InvalidParameter));
}

#[test]
fn call_cases() {
    let mut ctx = Context::new();
    ctx.insert('y', Type::Bool);
    let ops = OpTable::new();
    let ok = Expr::Call(CallExp::new(bool_to_bool(), Expr::Variable('y')));
    assert_eq!(type_check(&ok, &mut ctx, &ops), Ok(Type::Bool));
    let wrong_arg = Expr::Call(CallExp::new(bool_to_bool(), num(1.0)));
    assert_eq!(type_check(&wrong_arg, &mut ctx, &ops), Err(TypeError::ArgumentTypeMismatch(Type::Bool, Type::Number)));
    let not_fn = Expr::Call(CallExp::new(num(1.0), Expr::Variable('y')));
    assert_eq!(type_check(&not_fn, &mut ctx, &ops), Err(TypeError::NotCallable(Type::Number)));
}

#[test]
fn nested_calls_compose() {
    let mut ctx = Context::new();
    let ops = OpTable::new();
    let f = Expr::Function(FunExp::new(Expr::Variable('x'), Type::Number, num(5.0)));
    let inner = Expr::Call(CallExp::new(f.clone(), num(5.0)));
    let outer = Expr::Call(CallExp::new(f, inner));
    assert_eq!(type_check(&outer, &mut ctx, &ops), Ok(Type::Number));
}

#[test]
fn repeated_checks_agree() {
    let mut ctx = Context::new();
    ctx.insert('y', Type::Bool);
    let ops = add_table();
    let e = Expr::Conditional(IfExp::new(
        Expr::Call(CallExp::new(bool_to_bool(), Expr::Variable('y'))),
        Expr::Binary(BinExp::new(num(1.0), Operation::Add, num(2.0))),
        num(3.0),
    ));
    let first = type_check(&e, &mut ctx, &ops);
    let mut fresh = ctx.copy();
    let second = type_check(&e.clone(), &mut fresh, &ops);
    let third = type_check(&e, &mut ctx, &ops);
    assert_eq!(first, Ok(Type::Number));
    assert_eq!(first, second);
    assert_eq!(first, third);
}

#[test]
fn last_signature_wins() {
    let mut ctx = Context::new();
    let mut ops = OpTable::new();
    ops.insert(Operation::Less, (Type::Number, Type::Number, Type::Number));
    ops.insert(Operation::Less, (Type::Number, Type::Number, Type::Bool));
    assert_eq!(ops.get(Operation::Less), Some(&(Type::Number, Type::Number, Type::Bool)));
    let e = Expr::Binary(BinExp::new(num(1.0), Operation::Less, num(2.0)));
    assert_eq!(type_check(&e, &mut ctx, &ops), Ok(Type::Bool));
}

#[test]
fn function_types_nest() {
    let mut ctx = Context::new();
    let ops = OpTable::new();
    let curried = Expr::Function(FunExp::new(
        Expr::Variable('a'),
        Type::Number,
        Expr::Function(FunExp::new(Expr::Variable('b'), Type::Bool, Expr::Variable('a'))),
    ));
    assert_eq!(
        type_check(&curried, &mut ctx, &ops),
        Ok(fun(Type::Number, fun(Type::Bool, Type::Number)))
    );
    assert_ne!(fun(Type::Number, Type::Bool), fun(Type::Bool, Type::Number));
}

#[test]
fn newest_binding_shadows() {
    let mut ctx = Context::new();
    ctx.insert('v', Type::Number);
    ctx.insert('v', Type::String);
    assert_eq!(ctx.get('v'), Some(&Type::String));
    ctx.remove_newest();
    assert_eq!(ctx.get('v'), Some(&Type::Number));
}

#[test]
fn operation_symbols() {
    assert_eq!(Operation::Add.symbol(), "+");
    assert_eq!(Operation::Sub.symbol(), "-");
    assert_eq!(Operation::Less.symbol(), "<");
}
