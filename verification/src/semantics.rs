//! The mathematical semantics of constraint generation: for every
//! expression, statement and program, what value (or fatal error) resolving
//! it yields and how many gates the sink allocates along the way.
//!
//! Every executable resolver in [`crate::constraints`] is proved to agree
//! with these functions.  Results are pairs `(outcome, gates)`: the outcome
//! of the resolution and the exact number of gates allocated before it was
//! reached (gates already allocated are never retracted on failure).

use crate::ast::BooleanExpressionV;
use crate::ast::BooleanSpreadOrExpressionV;
use crate::ast::ExpressionV;
use crate::ast::FieldExpressionV;
use crate::ast::FieldRangeOrExpressionV;
use crate::ast::FieldSpreadOrExpressionV;
use crate::ast::ProgramV;
use crate::ast::StatementV;
use crate::ast::StructFieldV;
use crate::ast::StructMemberV;
use crate::ast::StructV;
use crate::errors::CircuitError;
use crate::sink::GateBool;
use crate::sink::GateUint;
use crate::sink::gb_and;
use crate::sink::gb_const;
use crate::sink::gb_input;
use crate::sink::gb_not;
use crate::sink::gb_or;
use crate::sink::gu_add;
use crate::sink::gu_const;
use crate::sink::gu_div;
use crate::sink::gu_input;
use crate::sink::gu_mul;
use crate::sink::gu_pow;
use crate::sink::gu_sub;
use crate::values::ValueV;
use crate::values::WitnessValue;
use crate::values::wit_lookup;
use vstd::prelude::*;

verus! {

/// Looks a name up among the environment's bindings, latest binding first.
pub open spec fn env_lookup(env: Seq<(Seq<char>, ValueV)>, name: Seq<char>) -> Option<ValueV>
    decreases env.len(),
{
    if env.len() == 0 {
        Option::None
    } else if env.last().0 == name {
        Option::Some(env.last().1)
    } else {
        env_lookup(env.drop_last(), name)
    }
}

/// Resolving a boolean variable: a bound `Boolean` is returned unchanged
/// (sharing, no new gate); a name bound to another variant is a type
/// mismatch; an unbound name draws a boolean from the witness provider and
/// allocates one fresh input gate, and fails with `MissingWitness` when the
/// provider has no boolean for it.
pub open spec fn eval_bool_var(
    env: Seq<(Seq<char>, ValueV)>,
    w: Seq<(Seq<char>, WitnessValue)>,
    name: Seq<char>,
) -> (Result<GateBool, CircuitError>, nat) {
    match env_lookup(env, name) {
        Option::Some(v) => match v {
            ValueV::Boolean(g) => (Result::Ok(g), 0),
            _ => (Result::Err(CircuitError::TypeMismatch), 0),
        },
        Option::None => match wit_lookup(w, name) {
            Option::Some(WitnessValue::Boolean(b)) => (Result::Ok(gb_input(b)), 1),
            _ => (Result::Err(CircuitError::MissingWitness), 0),
        },
    }
}

/// Resolving an integer variable, analogous to [`eval_bool_var`].
pub open spec fn eval_u32_var(
    env: Seq<(Seq<char>, ValueV)>,
    w: Seq<(Seq<char>, WitnessValue)>,
    name: Seq<char>,
) -> (Result<GateUint, CircuitError>, nat) {
    match env_lookup(env, name) {
        Option::Some(v) => match v {
            ValueV::FieldElement(g) => (Result::Ok(g), 0),
            _ => (Result::Err(CircuitError::TypeMismatch), 0),
        },
        Option::None => match wit_lookup(w, name) {
            Option::Some(WitnessValue::FieldElement(n)) => (Result::Ok(gu_input(n)), 1),
            _ => (Result::Err(CircuitError::MissingWitness), 0),
        },
    }
}

/// Resolving a boolean expression down to a single gate-backed boolean;
/// an expression that resolves to an array is a type mismatch.
pub open spec fn get_bool(
    env: Seq<(Seq<char>, ValueV)>,
    w: Seq<(Seq<char>, WitnessValue)>,
    e: BooleanExpressionV,
) -> (Result<GateBool, CircuitError>, nat)
    decreases e, 1int,
{
    match eval_bool(env, w, e) {
        (Result::Ok(v), n) => match v {
            ValueV::Boolean(g) => (Result::Ok(g), n),
            _ => (Result::Err(CircuitError::TypeMismatch), n),
        },
        (Result::Err(c), n) => (Result::Err(c), n),
    }
}

/// Resolving an integer expression down to a single gate-backed integer.
pub open spec fn get_u32(
    env: Seq<(Seq<char>, ValueV)>,
    w: Seq<(Seq<char>, WitnessValue)>,
    e: FieldExpressionV,
) -> (Result<GateUint, CircuitError>, nat)
    decreases e, 1int,
{
    match eval_field(env, w, e) {
        (Result::Ok(v), n) => match v {
            ValueV::FieldElement(g) => (Result::Ok(g), n),
            _ => (Result::Err(CircuitError::TypeMismatch), n),
        },
        (Result::Err(c), n) => (Result::Err(c), n),
    }
}

/// Resolving a boolean-typed expression.  Both operands of a binary form
/// are fully resolved (left first) before a gate is allocated; an
/// equality enforcement returns the constant `true` or fails the pass; an
/// `IfElse` resolves its condition to a concrete boolean and then resolves
/// only the selected branch, so the untaken branch contributes no gates.
pub open spec fn eval_bool(
    env: Seq<(Seq<char>, ValueV)>,
    w: Seq<(Seq<char>, WitnessValue)>,
    e: BooleanExpressionV,
) -> (Result<ValueV, CircuitError>, nat)
    decreases e, 0int,
{
    match e {
        BooleanExpressionV::Variable(name) => match eval_bool_var(env, w, name) {
            (Result::Ok(g), n) => (Result::Ok(ValueV::Boolean(g)), n),
            (Result::Err(c), n) => (Result::Err(c), n),
        },
        BooleanExpressionV::Value(b) => (Result::Ok(ValueV::Boolean(gb_const(b))), 1),
        BooleanExpressionV::Not(a) => match get_bool(env, w, *a) {
            (Result::Ok(g), n) => (Result::Ok(ValueV::Boolean(gb_not(g))), n + 1),
            (Result::Err(c), n) => (Result::Err(c), n),
        },
        BooleanExpressionV::Or(a, b) => match get_bool(env, w, *a) {
            (Result::Ok(ga), na) => match get_bool(env, w, *b) {
                (Result::Ok(gb), nb) => (Result::Ok(ValueV::Boolean(gb_or(ga, gb))), na + nb + 1),
                (Result::Err(c), nb) => (Result::Err(c), na + nb),
            },
            (Result::Err(c), na) => (Result::Err(c), na),
        },
        BooleanExpressionV::And(a, b) => match get_bool(env, w, *a) {
            (Result::Ok(ga), na) => match get_bool(env, w, *b) {
                (Result::Ok(gb), nb) => (Result::Ok(ValueV::Boolean(gb_and(ga, gb))), na + nb + 1),
                (Result::Err(c), nb) => (Result::Err(c), na + nb),
            },
            (Result::Err(c), na) => (Result::Err(c), na),
        },
        BooleanExpressionV::BoolEq(a, b) => match get_bool(env, w, *a) {
            (Result::Ok(ga), na) => match get_bool(env, w, *b) {
                (Result::Ok(gb), nb) => if ga.value == gb.value {
                    (Result::Ok(ValueV::Boolean(gb_const(true))), na + nb + 1)
                } else {
                    (Result::Err(CircuitError::GateAllocationFailure), na + nb + 1)
                },
                (Result::Err(c), nb) => (Result::Err(c), na + nb),
            },
            (Result::Err(c), na) => (Result::Err(c), na),
        },
        BooleanExpressionV::FieldEq(a, b) => match get_u32(env, w, *a) {
            (Result::Ok(ga), na) => match get_u32(env, w, *b) {
                (Result::Ok(gb), nb) => if ga.value == gb.value {
                    (Result::Ok(ValueV::Boolean(gb_const(true))), na + nb + 1)
                } else {
                    (Result::Err(CircuitError::GateAllocationFailure), na + nb + 1)
                },
                (Result::Err(c), nb) => (Result::Err(c), na + nb),
            },
            (Result::Err(c), na) => (Result::Err(c), na),
        },
        BooleanExpressionV::IfElse(c, t, f) => match get_bool(env, w, *c) {
            (Result::Ok(gc), nc) => if gc.value {
                match eval_bool(env, w, *t) {
                    (res, nt) => (res, nc + nt),
                }
            } else {
                match eval_bool(env, w, *f) {
                    (res, nf) => (res, nc + nf),
                }
            },
            (Result::Err(c0), nc) => (Result::Err(c0), nc),
        },
        BooleanExpressionV::Array(elems) => match eval_bool_elems(env, w, elems) {
            (Result::Ok(gs), n) => (Result::Ok(ValueV::BooleanArray(gs)), n),
            (Result::Err(c), n) => (Result::Err(c), n),
        },
    }
}

/// Resolving the elements of a boolean array literal, in order.  A spread
/// marker is unsupported; an element that does not resolve to a single
/// boolean is a type mismatch.
pub open spec fn eval_bool_elems(
    env: Seq<(Seq<char>, ValueV)>,
    w: Seq<(Seq<char>, WitnessValue)>,
    elems: Seq<BooleanSpreadOrExpressionV>,
) -> (Result<Seq<GateBool>, CircuitError>, nat)
    decreases elems, 0int,
{
    if elems.len() == 0 {
        (Result::Ok(Seq::empty()), 0)
    } else {
        match elems[0] {
            BooleanSpreadOrExpressionV::Spread(_) => (Result::Err(CircuitError::Unsupported), 0),
            BooleanSpreadOrExpressionV::BooleanExpression(e) => match eval_bool(env, w, e) {
                (Result::Ok(v), n) => match v {
                    ValueV::Boolean(g) => match eval_bool_elems(env, w, elems.drop_first()) {
                        (Result::Ok(gs), m) => (
                            Result::Ok(Seq::empty().push(g) + gs),
                            n + m,
                        ),
                        (Result::Err(c), m) => (Result::Err(c), n + m),
                    },
                    _ => (Result::Err(CircuitError::TypeMismatch), n),
                },
                (Result::Err(c), n) => (Result::Err(c), n),
            },
        }
    }
}

/// Resolving an integer-typed expression.  Addition, subtraction and
/// multiplication wrap modulo `2^32`; division by zero is a fatal
/// allocation failure; exponentiation is repeated wrapping multiplication;
/// `IfElse` behaves as in [`eval_bool`].
pub open spec fn eval_field(
    env: Seq<(Seq<char>, ValueV)>,
    w: Seq<(Seq<char>, WitnessValue)>,
    e: FieldExpressionV,
) -> (Result<ValueV, CircuitError>, nat)
    decreases e, 0int,
{
    match e {
        FieldExpressionV::Variable(name) => match eval_u32_var(env, w, name) {
            (Result::Ok(g), n) => (Result::Ok(ValueV::FieldElement(g)), n),
            (Result::Err(c), n) => (Result::Err(c), n),
        },
        FieldExpressionV::Number(v) => (Result::Ok(ValueV::FieldElement(gu_const(v))), 1),
        FieldExpressionV::Add(a, b) => match get_u32(env, w, *a) {
            (Result::Ok(ga), na) => match get_u32(env, w, *b) {
                (Result::Ok(gb), nb) => (
                    Result::Ok(ValueV::FieldElement(gu_add(ga, gb))),
                    na + nb + 1,
                ),
                (Result::Err(c), nb) => (Result::Err(c), na + nb),
            },
            (Result::Err(c), na) => (Result::Err(c), na),
        },
        FieldExpressionV::Sub(a, b) => match get_u32(env, w, *a) {
            (Result::Ok(ga), na) => match get_u32(env, w, *b) {
                (Result::Ok(gb), nb) => (
                    Result::Ok(ValueV::FieldElement(gu_sub(ga, gb))),
                    na + nb + 1,
                ),
                (Result::Err(c), nb) => (Result::Err(c), na + nb),
            },
            (Result::Err(c), na) => (Result::Err(c), na),
        },
        FieldExpressionV::Mul(a, b) => match get_u32(env, w, *a) {
            (Result::Ok(ga), na) => match get_u32(env, w, *b) {
                (Result::Ok(gb), nb) => (
                    Result::Ok(ValueV::FieldElement(gu_mul(ga, gb))),
                    na + nb + 1,
                ),
                (Result::Err(c), nb) => (Result::Err(c), na + nb),
            },
            (Result::Err(c), na) => (Result::Err(c), na),
        },
        FieldExpressionV::Div(a, b) => match get_u32(env, w, *a) {
            (Result::Ok(ga), na) => match get_u32(env, w, *b) {
                (Result::Ok(gb), nb) => if gb.value != 0 {
                    (Result::Ok(ValueV::FieldElement(gu_div(ga, gb))), na + nb + 1)
                } else {
                    (Result::Err(CircuitError::GateAllocationFailure), na + nb + 1)
                },
                (Result::Err(c), nb) => (Result::Err(c), na + nb),
            },
            (Result::Err(c), na) => (Result::Err(c), na),
        },
        FieldExpressionV::Pow(a, b) => match get_u32(env, w, *a) {
            (Result::Ok(ga), na) => match get_u32(env, w, *b) {
                (Result::Ok(gb), nb) => (
                    Result::Ok(ValueV::FieldElement(gu_pow(ga, gb))),
                    na + nb + 1,
                ),
                (Result::Err(c), nb) => (Result::Err(c), na + nb),
            },
            (Result::Err(c), na) => (Result::Err(c), na),
        },
        FieldExpressionV::IfElse(c, t, f) => match get_bool(env, w, *c) {
            (Result::Ok(gc), nc) => if gc.value {
                match eval_field(env, w, *t) {
                    (res, nt) => (res, nc + nt),
                }
            } else {
                match eval_field(env, w, *f) {
                    (res, nf) => (res, nc + nf),
                }
            },
            (Result::Err(c0), nc) => (Result::Err(c0), nc),
        },
        FieldExpressionV::Array(elems) => match eval_field_elems(env, w, elems) {
            (Result::Ok(gs), n) => (Result::Ok(ValueV::FieldElementArray(gs)), n),
            (Result::Err(c), n) => (Result::Err(c), n),
        },
    }
}

/// Resolving the elements of an integer array literal, in order.
pub open spec fn eval_field_elems(
    env: Seq<(Seq<char>, ValueV)>,
    w: Seq<(Seq<char>, WitnessValue)>,
    elems: Seq<FieldSpreadOrExpressionV>,
) -> (Result<Seq<GateUint>, CircuitError>, nat)
    decreases elems, 0int,
{
    if elems.len() == 0 {
        (Result::Ok(Seq::empty()), 0)
    } else {
        match elems[0] {
            FieldSpreadOrExpressionV::Spread(_) => (Result::Err(CircuitError::Unsupported), 0),
            FieldSpreadOrExpressionV::FieldExpression(e) => match eval_field(env, w, e) {
                (Result::Ok(v), n) => match v {
                    ValueV::FieldElement(g) => match eval_field_elems(env, w, elems.drop_first()) {
                        (Result::Ok(gs), m) => (
                            Result::Ok(Seq::empty().push(g) + gs),
                            n + m,
                        ),
                        (Result::Err(c), m) => (Result::Err(c), n + m),
                    },
                    _ => (Result::Err(CircuitError::TypeMismatch), n),
                },
                (Result::Err(c), n) => (Result::Err(c), n),
            },
        }
    }
}

/// Resolving an index expression to a concrete number.
pub open spec fn eval_index(
    env: Seq<(Seq<char>, ValueV)>,
    w: Seq<(Seq<char>, WitnessValue)>,
    e: FieldExpressionV,
) -> (Result<u32, CircuitError>, nat)
    decreases e, 2int,
{
    match get_u32(env, w, e) {
        (Result::Ok(g), n) => (Result::Ok(g.value), n),
        (Result::Err(c), n) => (Result::Err(c), n),
    }
}

/// Checking a struct literal's members against the declared fields:
/// positional pairing, exact field-name match, and every initializer
/// expression resolved for its allocation side effects.
pub open spec fn eval_members(
    env: Seq<(Seq<char>, ValueV)>,
    w: Seq<(Seq<char>, WitnessValue)>,
    fields: Seq<StructFieldV>,
    members: Seq<StructMemberV>,
) -> (Result<(), CircuitError>, nat)
    decreases members, 0int,
{
    if fields.len() == 0 || members.len() == 0 {
        (Result::Ok(()), 0)
    } else if fields[0].name != members[0].name {
        (Result::Err(CircuitError::FieldMismatch), 0)
    } else {
        match eval_expr(env, w, members[0].expression) {
            (Result::Ok(_), n) => match eval_members(
                env,
                w,
                fields.drop_first(),
                members.drop_first(),
            ) {
                (res, m) => (res, n + m),
            },
            (Result::Err(c), n) => (Result::Err(c), n),
        }
    }
}

/// Resolving a single-index or range access into an already-resolved
/// integer array.  Indices resolve to concrete numbers; an index or range
/// outside the array's bounds is fatal, never clamped.
pub open spec fn eval_access_u(
    env: Seq<(Seq<char>, ValueV)>,
    w: Seq<(Seq<char>, WitnessValue)>,
    arr: Seq<GateUint>,
    index: FieldRangeOrExpressionV,
) -> (Result<ValueV, CircuitError>, nat)
    decreases index, 0int,
{
    match index {
        FieldRangeOrExpressionV::FieldExpression(ie) => match eval_index(env, w, ie) {
            (Result::Ok(i), n) => if i < arr.len() {
                (Result::Ok(ValueV::FieldElement(arr[i as int])), n)
            } else {
                (Result::Err(CircuitError::IndexOutOfRange), n)
            },
            (Result::Err(c), n) => (Result::Err(c), n),
        },
        FieldRangeOrExpressionV::Range(from, to) => match (match from {
            Option::Some(fe) => eval_index(env, w, fe),
            Option::None => (Result::Ok(0u32), 0),
        }) {
            (Result::Ok(f), nf) => match (match to {
                Option::Some(te) => match eval_index(env, w, te) {
                    (Result::Ok(t), nt) => (Result::Ok(t as int), nt),
                    (Result::Err(c), nt) => (Result::Err(c), nt),
                },
                Option::None => (Result::Ok(arr.len() as int), 0),
            }) {
                (Result::Ok(t), nt) => if f <= t && t <= arr.len() {
                    (
                        Result::Ok(ValueV::FieldElementArray(arr.subrange(f as int, t))),
                        nf + nt,
                    )
                } else {
                    (Result::Err(CircuitError::IndexOutOfRange), nf + nt)
                },
                (Result::Err(c), nt) => (Result::Err(c), nf + nt),
            },
            (Result::Err(c), nf) => (Result::Err(c), nf),
        },
    }
}

/// Resolving an access into an already-resolved boolean array, analogous
/// to [`eval_access_u`].
pub open spec fn eval_access_b(
    env: Seq<(Seq<char>, ValueV)>,
    w: Seq<(Seq<char>, WitnessValue)>,
    arr: Seq<GateBool>,
    index: FieldRangeOrExpressionV,
) -> (Result<ValueV, CircuitError>, nat)
    decreases index, 0int,
{
    match index {
        FieldRangeOrExpressionV::FieldExpression(ie) => match eval_index(env, w, ie) {
            (Result::Ok(i), n) => if i < arr.len() {
                (Result::Ok(ValueV::Boolean(arr[i as int])), n)
            } else {
                (Result::Err(CircuitError::IndexOutOfRange), n)
            },
            (Result::Err(c), n) => (Result::Err(c), n),
        },
        FieldRangeOrExpressionV::Range(from, to) => match (match from {
            Option::Some(fe) => eval_index(env, w, fe),
            Option::None => (Result::Ok(0u32), 0),
        }) {
            (Result::Ok(f), nf) => match (match to {
                Option::Some(te) => match eval_index(env, w, te) {
                    (Result::Ok(t), nt) => (Result::Ok(t as int), nt),
                    (Result::Err(c), nt) => (Result::Err(c), nt),
                },
                Option::None => (Result::Ok(arr.len() as int), 0),
            }) {
                (Result::Ok(t), nt) => if f <= t && t <= arr.len() {
                    (Result::Ok(ValueV::BooleanArray(arr.subrange(f as int, t))), nf + nt)
                } else {
                    (Result::Err(CircuitError::IndexOutOfRange), nf + nt)
                },
                (Result::Err(c), nt) => (Result::Err(c), nf + nt),
            },
            (Result::Err(c), nf) => (Result::Err(c), nf),
        },
    }
}

/// Resolving a general expression.  A bound variable returns its value
/// unchanged whatever its variant; an unbound one draws a value of either
/// kind from the witness provider.  Struct construction requires the name
/// to be bound to a struct definition (`UndefinedName` when unbound,
/// `TypeMismatch` when bound to anything else), checks members
/// positionally, and stores the original unevaluated member list.
pub open spec fn eval_expr(
    env: Seq<(Seq<char>, ValueV)>,
    w: Seq<(Seq<char>, WitnessValue)>,
    e: ExpressionV,
) -> (Result<ValueV, CircuitError>, nat)
    decreases e, 3int,
{
    match e {
        ExpressionV::Boolean(be) => eval_bool(env, w, be),
        ExpressionV::FieldElement(fe) => eval_field(env, w, fe),
        ExpressionV::Variable(name) => match env_lookup(env, name) {
            Option::Some(v) => (Result::Ok(v), 0),
            Option::None => match wit_lookup(w, name) {
                Option::Some(WitnessValue::Boolean(b)) => (
                    Result::Ok(ValueV::Boolean(gb_input(b))),
                    1,
                ),
                Option::Some(WitnessValue::FieldElement(n)) => (
                    Result::Ok(ValueV::FieldElement(gu_input(n))),
                    1,
                ),
                Option::None => (Result::Err(CircuitError::MissingWitness), 0),
            },
        },
        ExpressionV::Struct(name, members) => match env_lookup(env, name) {
            Option::Some(v) => match v {
                ValueV::StructDefinition(sd) => match eval_members(env, w, sd.fields, members) {
                    (Result::Ok(_), n) => (Result::Ok(ValueV::StructExpression(name, members)), n),
                    (Result::Err(c), n) => (Result::Err(c), n),
                },
                _ => (Result::Err(CircuitError::TypeMismatch), 0),
            },
            Option::None => (Result::Err(CircuitError::UndefinedName), 0),
        },
        ExpressionV::ArrayAccess(a, index) => match eval_expr(env, w, *a) {
            (Result::Ok(v), na) => match v {
                ValueV::FieldElementArray(arr) => match eval_access_u(env, w, arr, index) {
                    (res, ni) => (res, na + ni),
                },
                ValueV::BooleanArray(arr) => match eval_access_b(env, w, arr, index) {
                    (res, ni) => (res, na + ni),
                },
                _ => (Result::Err(CircuitError::TypeMismatch), na),
            },
            (Result::Err(c), na) => (Result::Err(c), na),
        },
    }
}

/// Resolving each returned expression in order, for its side effects only.
/// A returned variable must already be bound; struct-valued returns and
/// array accesses in return position are unsupported.
pub open spec fn eval_returns(
    env: Seq<(Seq<char>, ValueV)>,
    w: Seq<(Seq<char>, WitnessValue)>,
    es: Seq<ExpressionV>,
) -> (Result<(), CircuitError>, nat)
    decreases es,
{
    if es.len() == 0 {
        (Result::Ok(()), 0)
    } else {
        match (match es[0] {
            ExpressionV::Boolean(be) => eval_bool(env, w, be),
            ExpressionV::FieldElement(fe) => eval_field(env, w, fe),
            ExpressionV::Variable(name) => match env_lookup(env, name) {
                Option::Some(v) => (Result::Ok(v), 0),
                Option::None => (Result::Err(CircuitError::UndefinedName), 0),
            },
            _ => (Result::Err(CircuitError::Unsupported), 0),
        }) {
            (Result::Ok(_), n) => match eval_returns(env, w, es.drop_first()) {
                (res, m) => (res, n + m),
            },
            (Result::Err(c), n) => (Result::Err(c), n),
        }
    }
}

/// Executing one statement: a `Definition` binds the resolved value
/// (overwriting any prior binding), a `Return` resolves its expressions
/// for their side effects and leaves the environment unchanged.
pub open spec fn eval_stmt(
    env: Seq<(Seq<char>, ValueV)>,
    w: Seq<(Seq<char>, WitnessValue)>,
    s: StatementV,
) -> (Result<Seq<(Seq<char>, ValueV)>, CircuitError>, nat) {
    match s {
        StatementV::Definition(name, e) => match eval_expr(env, w, e) {
            (Result::Ok(v), n) => (Result::Ok(env.push((name, v))), n),
            (Result::Err(c), n) => (Result::Err(c), n),
        },
        StatementV::Return(es) => match eval_returns(env, w, es) {
            (Result::Ok(_), n) => (Result::Ok(env), n),
            (Result::Err(c), n) => (Result::Err(c), n),
        },
    }
}

/// Executing a statement sequence in source order, threading the
/// environment; the first fatal condition aborts the pass.
pub open spec fn eval_stmts(
    env: Seq<(Seq<char>, ValueV)>,
    w: Seq<(Seq<char>, WitnessValue)>,
    ss: Seq<StatementV>,
) -> (Result<Seq<(Seq<char>, ValueV)>, CircuitError>, nat)
    decreases ss,
{
    if ss.len() == 0 {
        (Result::Ok(env), 0)
    } else {
        match eval_stmt(env, w, ss[0]) {
            (Result::Ok(env2), n) => match eval_stmts(env2, w, ss.drop_first()) {
                (res, m) => (res, n + m),
            },
            (Result::Err(c), n) => (Result::Err(c), n),
        }
    }
}

/// Seeding the environment with every struct declaration, in order; on a
/// name collision the last declaration wins.
pub open spec fn seed_structs(
    env: Seq<(Seq<char>, ValueV)>,
    structs: Seq<(Seq<char>, StructV)>,
) -> Seq<(Seq<char>, ValueV)>
    decreases structs,
{
    if structs.len() == 0 {
        env
    } else {
        seed_structs(
            env.push((structs[0].0, ValueV::StructDefinition(structs[0].1))),
            structs.drop_first(),
        )
    }
}

/// Seeding the environment with every function declaration, in order.
pub open spec fn seed_functions(
    env: Seq<(Seq<char>, ValueV)>,
    functions: Seq<(Seq<char>, crate::ast::FunctionV)>,
) -> Seq<(Seq<char>, ValueV)>
    decreases functions,
{
    if functions.len() == 0 {
        env
    } else {
        seed_functions(
            env.push((functions[0].0, ValueV::Function(functions[0].1))),
            functions.drop_first(),
        )
    }
}

/// The whole pass: a fresh environment is seeded with every struct and
/// function declaration, then the statement driver folds over the
/// top-level statements.  The result is the final environment (or the
/// fatal condition) and the total number of gates allocated.
pub open spec fn eval_program(p: ProgramV, w: Seq<(Seq<char>, WitnessValue)>) -> (Result<
    Seq<(Seq<char>, ValueV)>,
    CircuitError,
>, nat) {
    eval_stmts(seed_functions(seed_structs(Seq::empty(), p.structs), p.functions), w, p.statements)
}

} // verus!
