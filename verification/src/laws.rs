//! General properties of constraint generation, stated over the semantics
//! in [`crate::semantics`] and proved once and for all.  Each law holds for
//! every environment, witness mapping and program fragment its parameters
//! range over; the executable resolvers inherit them through their
//! contracts, which tie them exactly to the same semantics.

use crate::ast::BooleanExpressionV;
use crate::ast::ExpressionV;
use crate::ast::FieldExpressionV;
use crate::ast::FieldRangeOrExpressionV;
use crate::ast::StatementV;
use crate::ast::StructFieldV;
use crate::ast::StructMemberV;
use crate::ast::StructV;
use crate::errors::CircuitError;
use crate::semantics::env_lookup;
use crate::semantics::eval_access_u;
use crate::semantics::eval_bool;
use crate::semantics::eval_expr;
use crate::semantics::eval_field;
use crate::semantics::eval_index;
use crate::semantics::eval_members;
use crate::semantics::eval_stmt;
use crate::semantics::get_bool;
use crate::semantics::get_u32;
use crate::sink::GateBool;
use crate::sink::GateUint;
use crate::sink::gb_const;
use crate::sink::gu_const;
use crate::values::ValueV;
use crate::values::WitnessValue;
use vstd::prelude::*;

verus! {

/// For every boolean literal `b`, resolving `Value(b)` yields a constant
/// gate whose observed value equals `b`, at the cost of one gate.
pub proof fn law_bool_literal(
    env: Seq<(Seq<char>, ValueV)>,
    w: Seq<(Seq<char>, WitnessValue)>,
    b: bool,
)
    ensures
        eval_bool(env, w, BooleanExpressionV::Value(b)) == (
            Result::<ValueV, CircuitError>::Ok(ValueV::Boolean(gb_const(b))),
            1nat,
        ),
        gb_const(b).value == b,
        gb_const(b).constant,
{
}

/// For every integer `n` representable in the fixed width, resolving
/// `Number(n)` yields a constant gate whose observed value equals `n`.
pub proof fn law_number_literal(
    env: Seq<(Seq<char>, ValueV)>,
    w: Seq<(Seq<char>, WitnessValue)>,
    n: u32,
)
    ensures
        eval_field(env, w, FieldExpressionV::Number(n)) == (
            Result::<ValueV, CircuitError>::Ok(ValueV::FieldElement(gu_const(n))),
            1nat,
        ),
        gu_const(n).value == n,
        gu_const(n).constant,
{
}

/// Binding a name via `Definition` and then resolving a `Variable`
/// expression with that name returns a value equal to what was bound,
/// without allocating any further gate (idempotent re-read).
pub proof fn law_bind_then_read(
    env: Seq<(Seq<char>, ValueV)>,
    w: Seq<(Seq<char>, WitnessValue)>,
    name: Seq<char>,
    e: ExpressionV,
)
    requires
        eval_expr(env, w, e).0 is Ok,
    ensures
        ({
            let (r, n) = eval_expr(env, w, e);
            let (sr, _) = eval_stmt(env, w, StatementV::Definition(name, e));
            &&& sr == Result::<Seq<(Seq<char>, ValueV)>, CircuitError>::Ok(
                env.push((name, r->Ok_0)),
            )
            &&& eval_expr(env.push((name, r->Ok_0)), w, ExpressionV::Variable(name)) == (
                Result::<ValueV, CircuitError>::Ok(r->Ok_0),
                0nat,
            )
        }),
{
    let (r, _) = eval_expr(env, w, e);
    let env2 = env.push((name, r->Ok_0));
    assert(env2.last() == (name, r->Ok_0));
    assert(env_lookup(env2, name) == Option::Some(r->Ok_0));
}

/// `BoolEq(l, r)`: when both operands resolve to gates with equal witness
/// values, generation succeeds and returns the constant `true`; when the
/// values differ, it fails with `GateAllocationFailure`.  The enforcement
/// gate itself is allocated in both cases.
pub proof fn law_bool_eq(
    env: Seq<(Seq<char>, ValueV)>,
    w: Seq<(Seq<char>, WitnessValue)>,
    l: BooleanExpressionV,
    r: BooleanExpressionV,
    gl: GateBool,
    gr: GateBool,
)
    requires
        get_bool(env, w, l).0 == Result::<GateBool, CircuitError>::Ok(gl),
        get_bool(env, w, r).0 == Result::<GateBool, CircuitError>::Ok(gr),
    ensures
        ({
            let nl = get_bool(env, w, l).1;
            let nr = get_bool(env, w, r).1;
            eval_bool(env, w, BooleanExpressionV::BoolEq(Box::new(l), Box::new(r))) == (
                if gl.value == gr.value {
                    Result::<ValueV, CircuitError>::Ok(ValueV::Boolean(gb_const(true)))
                } else {
                    Result::<ValueV, CircuitError>::Err(CircuitError::GateAllocationFailure)
                },
                (nl + nr + 1) as nat,
            )
        }),
{
}

/// `FieldEq(l, r)`: the integer analogue of [`law_bool_eq`].
pub proof fn law_field_eq(
    env: Seq<(Seq<char>, ValueV)>,
    w: Seq<(Seq<char>, WitnessValue)>,
    l: FieldExpressionV,
    r: FieldExpressionV,
    gl: GateUint,
    gr: GateUint,
)
    requires
        get_u32(env, w, l).0 == Result::<GateUint, CircuitError>::Ok(gl),
        get_u32(env, w, r).0 == Result::<GateUint, CircuitError>::Ok(gr),
    ensures
        ({
            let nl = get_u32(env, w, l).1;
            let nr = get_u32(env, w, r).1;
            eval_bool(env, w, BooleanExpressionV::FieldEq(Box::new(l), Box::new(r))) == (
                if gl.value == gr.value {
                    Result::<ValueV, CircuitError>::Ok(ValueV::Boolean(gb_const(true)))
                } else {
                    Result::<ValueV, CircuitError>::Err(CircuitError::GateAllocationFailure)
                },
                (nl + nr + 1) as nat,
            )
        }),
{
}

/// Array slicing is a monoid-like decomposition: for an array of length
/// `N` and any cut point `0 <= k <= N`, slicing `(0, k)` and `(k, N)` with
/// literal bounds both succeed, and concatenating the two slices yields a
/// value sequence identical to the whole array.
pub proof fn law_slice_decomposition(
    env: Seq<(Seq<char>, ValueV)>,
    w: Seq<(Seq<char>, WitnessValue)>,
    arr: Seq<GateUint>,
    k: u32,
    n: u32,
)
    requires
        arr.len() == n,
        k <= n,
    ensures
        ({
            let low = eval_access_u(
                env,
                w,
                arr,
                FieldRangeOrExpressionV::Range(
                    Option::Some(FieldExpressionV::Number(0)),
                    Option::Some(FieldExpressionV::Number(k)),
                ),
            );
            let high = eval_access_u(
                env,
                w,
                arr,
                FieldRangeOrExpressionV::Range(
                    Option::Some(FieldExpressionV::Number(k)),
                    Option::Some(FieldExpressionV::Number(n)),
                ),
            );
            &&& low.0 == Result::<ValueV, CircuitError>::Ok(
                ValueV::FieldElementArray(arr.subrange(0, k as int)),
            )
            &&& high.0 == Result::<ValueV, CircuitError>::Ok(
                ValueV::FieldElementArray(arr.subrange(k as int, n as int)),
            )
            &&& arr.subrange(0, k as int) + arr.subrange(k as int, n as int) == arr
        }),
{
    assert(eval_index(env, w, FieldExpressionV::Number(0)).0 == Result::<u32,
        CircuitError,
    >::Ok(0u32));
    assert(eval_index(env, w, FieldExpressionV::Number(k)).0 == Result::<u32, CircuitError>::Ok(k));
    assert(eval_index(env, w, FieldExpressionV::Number(n)).0 == Result::<u32, CircuitError>::Ok(n));
    assert(arr.subrange(0, k as int) + arr.subrange(k as int, n as int) =~= arr);
}

/// Out-of-range single-index access always fails with `IndexOutOfRange`
/// and never silently clamps: an index expression resolving to `i` reads
/// element `i` exactly when `i` is within bounds, and fails otherwise.
pub proof fn law_index_bounds(
    env: Seq<(Seq<char>, ValueV)>,
    w: Seq<(Seq<char>, WitnessValue)>,
    arr: Seq<GateUint>,
    ie: FieldExpressionV,
    i: u32,
)
    requires
        eval_index(env, w, ie).0 == Result::<u32, CircuitError>::Ok(i),
    ensures
        i < arr.len() ==> eval_access_u(
            env,
            w,
            arr,
            FieldRangeOrExpressionV::FieldExpression(ie),
        ).0 == Result::<ValueV, CircuitError>::Ok(ValueV::FieldElement(arr[i as int])),
        i >= arr.len() ==> eval_access_u(
            env,
            w,
            arr,
            FieldRangeOrExpressionV::FieldExpression(ie),
        ).0 == Result::<ValueV, CircuitError>::Err(CircuitError::IndexOutOfRange),
{
}

/// `IfElse(cond, then, else)`: when the condition resolves to `true`, the
/// result and the gates allocated beyond the condition's are exactly those
/// of resolving `then` alone — the untaken branch contributes no gates —
/// and symmetrically when it resolves to `false`.
pub proof fn law_if_else(
    env: Seq<(Seq<char>, ValueV)>,
    w: Seq<(Seq<char>, WitnessValue)>,
    c: BooleanExpressionV,
    t: BooleanExpressionV,
    f: BooleanExpressionV,
    gc: GateBool,
)
    requires
        get_bool(env, w, c).0 == Result::<GateBool, CircuitError>::Ok(gc),
    ensures
        ({
            let nc = get_bool(env, w, c).1;
            let taken = if gc.value {
                eval_bool(env, w, t)
            } else {
                eval_bool(env, w, f)
            };
            eval_bool(env, w, BooleanExpressionV::IfElse(Box::new(c), Box::new(t), Box::new(f)))
                == (taken.0, (nc + taken.1) as nat)
        }),
{
}

/// The integer counterpart of [`law_if_else`].
pub proof fn law_if_else_field(
    env: Seq<(Seq<char>, ValueV)>,
    w: Seq<(Seq<char>, WitnessValue)>,
    c: BooleanExpressionV,
    t: FieldExpressionV,
    f: FieldExpressionV,
    gc: GateBool,
)
    requires
        get_bool(env, w, c).0 == Result::<GateBool, CircuitError>::Ok(gc),
    ensures
        ({
            let nc = get_bool(env, w, c).1;
            let taken = if gc.value {
                eval_field(env, w, t)
            } else {
                eval_field(env, w, f)
            };
            eval_field(env, w, FieldExpressionV::IfElse(Box::new(c), Box::new(t), Box::new(f)))
                == (taken.0, (nc + taken.1) as nat)
        }),
{
}

/// Struct construction with a field-name mismatch at some position fails
/// with `FieldMismatch`, provided the members before that position match
/// and resolve; with matching names throughout, the instance returned by
/// the resolver stores the member list unchanged (that part is stated by
/// `eval_expr` itself, whose `Struct` case returns
/// `StructExpression(name, members)`).
pub proof fn law_field_mismatch(
    env: Seq<(Seq<char>, ValueV)>,
    w: Seq<(Seq<char>, WitnessValue)>,
    fields: Seq<StructFieldV>,
    members: Seq<StructMemberV>,
    j: int,
)
    requires
        0 <= j < fields.len(),
        j < members.len(),
        forall|i: int|
            0 <= i < j ==> #[trigger] fields[i].name == members[i].name && eval_expr(
                env,
                w,
                members[i].expression,
            ).0 is Ok,
        fields[j].name != members[j].name,
    ensures
        eval_members(env, w, fields, members).0 == Result::<(), CircuitError>::Err(
            CircuitError::FieldMismatch,
        ),
    decreases j,
{
    if j == 0 {
    } else {
        assert(fields[0].name == members[0].name);
        assert(eval_expr(env, w, members[0].expression).0 is Ok);
        assert forall|i: int| 0 <= i < j - 1 implies #[trigger] fields.drop_first()[i].name
            == members.drop_first()[i].name && eval_expr(
            env,
            w,
            members.drop_first()[i].expression,
        ).0 is Ok by {
            assert(fields.drop_first()[i] == fields[i + 1]);
            assert(members.drop_first()[i] == members[i + 1]);
        }
        assert(fields.drop_first()[j - 1].name != members.drop_first()[j - 1].name);
        law_field_mismatch(env, w, fields.drop_first(), members.drop_first(), j - 1);
    }
}

/// Struct construction with matching field names and resolving members
/// succeeds and returns a `StructExpression` holding the struct's name and
/// the original member list, observably identical to the input.
pub proof fn law_struct_instance(
    env: Seq<(Seq<char>, ValueV)>,
    w: Seq<(Seq<char>, WitnessValue)>,
    name: Seq<char>,
    sd: StructV,
    members: Seq<StructMemberV>,
)
    requires
        env_lookup(env, name) == Option::Some(ValueV::StructDefinition(sd)),
        eval_members(env, w, sd.fields, members).0 is Ok,
    ensures
        eval_expr(env, w, ExpressionV::Struct(name, members)).0 == Result::<ValueV,
            CircuitError,
        >::Ok(ValueV::StructExpression(name, members)),
{
}

} // verus!
