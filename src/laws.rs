//! Properties of the checker that hold of every input.
use vstd::prelude::*;
use crate::check::typing;
use crate::env::{Context, OpTable, Signature};
use crate::types::{Expr, Operation, Type, TypeError};

verus! {

/// A literal always has the type its tag names, whatever the context and the
/// operation table.
pub proof fn lemma_literal_types(e: Expr, ctx: Map<char, Type>, ops: Map<Operation, Signature>)
    ensures
        e is Number ==> typing(e, ctx, ops) == Ok::<Type, TypeError>(Type::Number),
        e is String ==> typing(e, ctx, ops) == Ok::<Type, TypeError>(Type::String),
        e is Bool ==> typing(e, ctx, ops) == Ok::<Type, TypeError>(Type::Bool),
{
}

/// Checking is repeatable: two contexts with the same bindings (a context and
/// a fresh copy of it, or a context before and after a check) give the same
/// result for the same tree and table.
pub proof fn lemma_check_repeatable(e: Expr, first: Context, second: Context, ops: OpTable)
    requires
        first@ == second@,
    ensures
        typing(e, first@, ops@) == typing(e, second@, ops@),
{
}

/// The table keeps one signature per operation: after two signatures are
/// stored for `op`, the checker behaves as if only the second had been.
pub proof fn lemma_last_signature_wins(
    e: Expr,
    ctx: Map<char, Type>,
    ops: Map<Operation, Signature>,
    op: Operation,
    first: Signature,
    second: Signature,
)
    ensures
        typing(e, ctx, ops.insert(op, first).insert(op, second)) == typing(e, ctx, ops.insert(op, second)),
{
    assert(ops.insert(op, first).insert(op, second) =~= ops.insert(op, second));
}

/// Storing a second signature for an operation replaces the first: only the
/// second remains in the table.
pub proof fn lemma_table_keeps_last(
    start: OpTable,
    middle: OpTable,
    end: OpTable,
    op: Operation,
    first: Signature,
    second: Signature,
)
    requires
        middle@ == start@.insert(op, first),
        end@ == middle@.insert(op, second),
    ensures
        end@ == start@.insert(op, second),
        end@[op] == second,
{
    assert(end@ =~= start@.insert(op, second));
}

} // verus!
