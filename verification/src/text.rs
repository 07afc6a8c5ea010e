//! Deterministic textual rendering of expressions and resolved values:
//! array values render as a bracketed, comma-separated sequence of their
//! elements' own representations, and struct instances as
//! `StructName { field: value, ... }` in declaration order.  Diagnostic
//! output relies on this textual form being deterministic.

use crate::ast::BooleanExpression;
use crate::ast::BooleanExpressionV;
use crate::ast::BooleanSpreadOrExpression;
use crate::ast::BooleanSpreadOrExpressionV;
use crate::ast::Expression;
use crate::ast::ExpressionV;
use crate::ast::FieldExpression;
use crate::ast::FieldExpressionV;
use crate::ast::FieldRangeOrExpression;
use crate::ast::FieldRangeOrExpressionV;
use crate::ast::FieldSpreadOrExpression;
use crate::ast::FieldSpreadOrExpressionV;
use crate::ast::StructMember;
use crate::ast::StructMemberV;
use crate::ast::bool_elems_view;
use crate::ast::bool_expr_view;
use crate::ast::expr_view;
use crate::ast::field_elems_view;
use crate::ast::field_expr_view;
use crate::ast::lemma_bool_elems_view_index;
use crate::ast::lemma_field_elems_view_index;
use crate::ast::lemma_members_view_index;
use crate::ast::members_view;
use crate::ast::range_or_expr_view;
use crate::errors::CircuitError;
use crate::render::bool_rep;
use crate::render::bool_string;
use crate::render::dec_rep;
use crate::render::u32_string;
use crate::sink::GateBool;
use crate::sink::GateUint;
use crate::values::ResolvedValue;
use crate::values::ValueV;
use vstd::prelude::*;
use vstd::string::StringExecFns;

verus! {

broadcast use vstd::std_specs::vec::group_vec_axioms;

/// Rendering of a boolean expression.
pub open spec fn bool_expr_rep(e: BooleanExpressionV) -> Seq<char>
    decreases e, 0int,
{
    match e {
        BooleanExpressionV::Variable(n) => n,
        BooleanExpressionV::Value(b) => bool_rep(b),
        BooleanExpressionV::Not(a) => seq!['!'] + bool_expr_rep(*a),
        BooleanExpressionV::Or(a, b) => bool_expr_rep(*a) + seq![' ', '|', '|', ' ']
            + bool_expr_rep(*b),
        BooleanExpressionV::And(a, b) => bool_expr_rep(*a) + seq![' ', '&', '&', ' ']
            + bool_expr_rep(*b),
        BooleanExpressionV::BoolEq(a, b) => bool_expr_rep(*a) + seq![' ', '=', '=', ' ']
            + bool_expr_rep(*b),
        BooleanExpressionV::FieldEq(a, b) => field_expr_rep(*a) + seq![' ', '=', '=', ' ']
            + field_expr_rep(*b),
        BooleanExpressionV::IfElse(c, t, f) => bool_expr_rep(*c) + seq![' ', '?', ' ']
            + bool_expr_rep(*t) + seq![' ', ':', ' '] + bool_expr_rep(*f),
        BooleanExpressionV::Array(elems) => seq!['['] + bool_elems_rep(elems) + seq![']'],
    }
}

/// Rendering of one element of a boolean array literal.
pub open spec fn bool_elem_rep(e: BooleanSpreadOrExpressionV) -> Seq<char>
    decreases e, 1int,
{
    match e {
        BooleanSpreadOrExpressionV::Spread(n) => seq!['.', '.', '.'] + n,
        BooleanSpreadOrExpressionV::BooleanExpression(inner) => bool_expr_rep(inner),
    }
}

/// Comma-separated rendering of boolean array elements.
pub open spec fn bool_elems_rep(s: Seq<BooleanSpreadOrExpressionV>) -> Seq<char>
    decreases s, 2int,
{
    if s.len() == 0 {
        Seq::empty()
    } else if s.len() == 1 {
        bool_elem_rep(s[0])
    } else {
        bool_elem_rep(s[0]) + seq![',', ' '] + bool_elems_rep(s.drop_first())
    }
}

/// Rendering of an integer expression.
pub open spec fn field_expr_rep(e: FieldExpressionV) -> Seq<char>
    decreases e, 0int,
{
    match e {
        FieldExpressionV::Variable(n) => n,
        FieldExpressionV::Number(v) => dec_rep(v as nat),
        FieldExpressionV::Add(a, b) => field_expr_rep(*a) + seq![' ', '+', ' ']
            + field_expr_rep(*b),
        FieldExpressionV::Sub(a, b) => field_expr_rep(*a) + seq![' ', '-', ' ']
            + field_expr_rep(*b),
        FieldExpressionV::Mul(a, b) => field_expr_rep(*a) + seq![' ', '*', ' ']
            + field_expr_rep(*b),
        FieldExpressionV::Div(a, b) => field_expr_rep(*a) + seq![' ', '/', ' ']
            + field_expr_rep(*b),
        FieldExpressionV::Pow(a, b) => field_expr_rep(*a) + seq![' ', '*', '*', ' ']
            + field_expr_rep(*b),
        FieldExpressionV::IfElse(c, t, f) => bool_expr_rep(*c) + seq![' ', '?', ' ']
            + field_expr_rep(*t) + seq![' ', ':', ' '] + field_expr_rep(*f),
        FieldExpressionV::Array(elems) => seq!['['] + field_elems_rep(elems) + seq![']'],
    }
}

/// Rendering of one element of an integer array literal.
pub open spec fn field_elem_rep(e: FieldSpreadOrExpressionV) -> Seq<char>
    decreases e, 1int,
{
    match e {
        FieldSpreadOrExpressionV::Spread(n) => seq!['.', '.', '.'] + n,
        FieldSpreadOrExpressionV::FieldExpression(inner) => field_expr_rep(inner),
    }
}

/// Comma-separated rendering of integer array elements.
pub open spec fn field_elems_rep(s: Seq<FieldSpreadOrExpressionV>) -> Seq<char>
    decreases s, 2int,
{
    if s.len() == 0 {
        Seq::empty()
    } else if s.len() == 1 {
        field_elem_rep(s[0])
    } else {
        field_elem_rep(s[0]) + seq![',', ' '] + field_elems_rep(s.drop_first())
    }
}

/// Rendering of an array-access index specifier.
pub open spec fn range_rep(r: FieldRangeOrExpressionV) -> Seq<char>
    decreases r, 1int,
{
    match r {
        FieldRangeOrExpressionV::FieldExpression(e) => field_expr_rep(e),
        FieldRangeOrExpressionV::Range(from, to) => (match from {
            Option::Some(e) => field_expr_rep(e),
            Option::None => Seq::empty(),
        }) + seq!['.', '.'] + (match to {
            Option::Some(e) => field_expr_rep(e),
            Option::None => Seq::empty(),
        }),
    }
}

/// Rendering of a general expression.
pub open spec fn expr_rep(e: ExpressionV) -> Seq<char>
    decreases e, 3int,
{
    match e {
        ExpressionV::Boolean(b) => bool_expr_rep(b),
        ExpressionV::FieldElement(f) => field_expr_rep(f),
        ExpressionV::Variable(n) => n,
        ExpressionV::Struct(name, members) => name + seq![' ', '{', ' '] + members_rep(members)
            + seq![' ', '}'],
        ExpressionV::ArrayAccess(a, idx) => expr_rep(*a) + seq!['['] + range_rep(idx) + seq![']'],
    }
}

/// Comma-separated rendering of `field: value` struct members, in
/// declaration order.
pub open spec fn members_rep(s: Seq<StructMemberV>) -> Seq<char>
    decreases s, 4int,
{
    if s.len() == 0 {
        Seq::empty()
    } else if s.len() == 1 {
        s[0].name + seq![':', ' '] + expr_rep(s[0].expression)
    } else {
        s[0].name + seq![':', ' '] + expr_rep(s[0].expression) + seq![',', ' '] + members_rep(
            s.drop_first(),
        )
    }
}

/// Comma-separated rendering of a gate-backed boolean array's values.
pub open spec fn bool_gates_rep(s: Seq<GateBool>) -> Seq<char>
    decreases s,
{
    if s.len() == 0 {
        Seq::empty()
    } else if s.len() == 1 {
        bool_rep(s[0].value)
    } else {
        bool_rep(s[0].value) + seq![',', ' '] + bool_gates_rep(s.drop_first())
    }
}

/// Comma-separated rendering of a gate-backed integer array's values.
pub open spec fn uint_gates_rep(s: Seq<GateUint>) -> Seq<char>
    decreases s,
{
    if s.len() == 0 {
        Seq::empty()
    } else if s.len() == 1 {
        dec_rep(s[0].value as nat)
    } else {
        dec_rep(s[0].value as nat) + seq![',', ' '] + uint_gates_rep(s.drop_first())
    }
}

/// Whether a value has a textual rendering: struct definitions and
/// function declarations have none.
pub open spec fn value_renderable(v: ValueV) -> bool {
    match v {
        ValueV::StructDefinition(_) => false,
        ValueV::Function(_) => false,
        _ => true,
    }
}

/// The rendering of a renderable value.
pub open spec fn value_rep(v: ValueV) -> Seq<char> {
    match v {
        ValueV::Boolean(g) => bool_rep(g.value),
        ValueV::BooleanArray(s) => seq!['['] + bool_gates_rep(s) + seq![']'],
        ValueV::FieldElement(g) => dec_rep(g.value as nat),
        ValueV::FieldElementArray(s) => seq!['['] + uint_gates_rep(s) + seq![']'],
        ValueV::StructExpression(name, members) => name + seq![' ', '{', ' '] + members_rep(
            members,
        ) + seq![' ', '}'],
        _ => Seq::empty(),
    }
}

/// Renders a boolean expression.
pub fn render_bool_expression(e: &BooleanExpression) -> (r: String)
    ensures
        r@ == bool_expr_rep(bool_expr_view(*e)),
    decreases *e, 0int,
{
    match e {
        BooleanExpression::Variable(v) => v.0.clone(),
        BooleanExpression::Value(b) => bool_string(*b),
        BooleanExpression::Not(a) => {
            proof {
                reveal_strlit("!");
                assert("!"@ =~= seq!['!']);
            }
            let mut s = "!".to_owned();
            let ra = render_bool_expression(a);
            s.append(ra.as_str());
            s
        },
        BooleanExpression::Or(a, b) => {
            proof {
                reveal_strlit(" || ");
                assert(" || "@ =~= seq![' ', '|', '|', ' ']);
            }
            let mut s = render_bool_expression(a);
            s.append(" || ");
            let rb = render_bool_expression(b);
            s.append(rb.as_str());
            s
        },
        BooleanExpression::And(a, b) => {
            proof {
                reveal_strlit(" && ");
                assert(" && "@ =~= seq![' ', '&', '&', ' ']);
            }
            let mut s = render_bool_expression(a);
            s.append(" && ");
            let rb = render_bool_expression(b);
            s.append(rb.as_str());
            s
        },
        BooleanExpression::BoolEq(a, b) => {
            proof {
                reveal_strlit(" == ");
                assert(" == "@ =~= seq![' ', '=', '=', ' ']);
            }
            let mut s = render_bool_expression(a);
            s.append(" == ");
            let rb = render_bool_expression(b);
            s.append(rb.as_str());
            s
        },
        BooleanExpression::FieldEq(a, b) => {
            proof {
                reveal_strlit(" == ");
                assert(" == "@ =~= seq![' ', '=', '=', ' ']);
            }
            let mut s = render_field_expression(a);
            s.append(" == ");
            let rb = render_field_expression(b);
            s.append(rb.as_str());
            s
        },
        BooleanExpression::IfElse(c, t, f) => {
            proof {
                reveal_strlit(" ? ");
                reveal_strlit(" : ");
                assert(" ? "@ =~= seq![' ', '?', ' ']);
                assert(" : "@ =~= seq![' ', ':', ' ']);
            }
            let mut s = render_bool_expression(c);
            s.append(" ? ");
            let rt = render_bool_expression(t);
            s.append(rt.as_str());
            s.append(" : ");
            let rf = render_bool_expression(f);
            s.append(rf.as_str());
            s
        },
        BooleanExpression::Array(elems) => {
            proof {
                reveal_strlit("[");
                reveal_strlit("]");
                assert("["@ =~= seq!['[']);
                assert("]"@ =~= seq![']']);
                assert(bool_elems_view(elems@).skip(0) =~= bool_elems_view(elems@));
            }
            let mut s = "[".to_owned();
            let inner = render_bool_elements(elems, 0);
            s.append(inner.as_str());
            s.append("]");
            s
        },
    }
}

/// Renders the boolean array elements from `start` on, comma-separated.
fn render_bool_elements(elems: &Vec<BooleanSpreadOrExpression>, start: usize) -> (r: String)
    requires
        start <= elems@.len(),
    ensures
        r@ == bool_elems_rep(bool_elems_view(elems@).skip(start as int)),
    decreases *elems, elems@.len() - start,
{
    proof {
        lemma_bool_elems_view_index(elems@);
    }
    let ghost whole = bool_elems_view(elems@);
    if start == elems.len() {
        proof {
            assert(whole.skip(start as int) =~= Seq::<BooleanSpreadOrExpressionV>::empty());
        }
        String::new()
    } else {
        proof {
            assert(whole.skip(start as int)[0] == whole[start as int]);
            assert(whole.skip(start as int).drop_first() =~= whole.skip(start as int + 1));
        }
        let e0 = &elems[start];
        let mut s = match e0 {
            BooleanSpreadOrExpression::Spread(v) => {
                proof {
                    reveal_strlit("...");
                    assert("..."@ =~= seq!['.', '.', '.']);
                }
                let mut p = "...".to_owned();
                p.append(v.0.as_str());
                p
            },
            BooleanSpreadOrExpression::BooleanExpression(inner) => render_bool_expression(inner),
        };
        proof {
            assert(s@ == bool_elem_rep(crate::ast::bool_elem_view(elems@[start as int])));
            assert(s@ == bool_elem_rep(whole[start as int]));
        }
        if start + 1 == elems.len() {
            s
        } else {
            proof {
                reveal_strlit(", ");
                assert(", "@ =~= seq![',', ' ']);
            }
            s.append(", ");
            let rest = render_bool_elements(elems, start + 1);
            s.append(rest.as_str());
            s
        }
    }
}

/// Renders an integer expression.
pub fn render_field_expression(e: &FieldExpression) -> (r: String)
    ensures
        r@ == field_expr_rep(field_expr_view(*e)),
    decreases *e, 0int,
{
    match e {
        FieldExpression::Variable(v) => v.0.clone(),
        FieldExpression::Number(n) => u32_string(*n),
        FieldExpression::Add(a, b) => {
            proof {
                reveal_strlit(" + ");
                assert(" + "@ =~= seq![' ', '+', ' ']);
            }
            let mut s = render_field_expression(a);
            s.append(" + ");
            let rb = render_field_expression(b);
            s.append(rb.as_str());
            s
        },
        FieldExpression::Sub(a, b) => {
            proof {
                reveal_strlit(" - ");
                assert(" - "@ =~= seq![' ', '-', ' ']);
            }
            let mut s = render_field_expression(a);
            s.append(" - ");
            let rb = render_field_expression(b);
            s.append(rb.as_str());
            s
        },
        FieldExpression::Mul(a, b) => {
            proof {
                reveal_strlit(" * ");
                assert(" * "@ =~= seq![' ', '*', ' ']);
            }
            let mut s = render_field_expression(a);
            s.append(" * ");
            let rb = render_field_expression(b);
            s.append(rb.as_str());
            s
        },
        FieldExpression::Div(a, b) => {
            proof {
                reveal_strlit(" / ");
                assert(" / "@ =~= seq![' ', '/', ' ']);
            }
            let mut s = render_field_expression(a);
            s.append(" / ");
            let rb = render_field_expression(b);
            s.append(rb.as_str());
            s
        },
        FieldExpression::Pow(a, b) => {
            proof {
                reveal_strlit(" ** ");
                assert(" ** "@ =~= seq![' ', '*', '*', ' ']);
            }
            let mut s = render_field_expression(a);
            s.append(" ** ");
            let rb = render_field_expression(b);
            s.append(rb.as_str());
            s
        },
        FieldExpression::IfElse(c, t, f) => {
            proof {
                reveal_strlit(" ? ");
                reveal_strlit(" : ");
                assert(" ? "@ =~= seq![' ', '?', ' ']);
                assert(" : "@ =~= seq![' ', ':', ' ']);
            }
            let mut s = render_bool_expression(c);
            s.append(" ? ");
            let rt = render_field_expression(t);
            s.append(rt.as_str());
            s.append(" : ");
            let rf = render_field_expression(f);
            s.append(rf.as_str());
            s
        },
        FieldExpression::Array(elems) => {
            proof {
                reveal_strlit("[");
                reveal_strlit("]");
                assert("["@ =~= seq!['[']);
                assert("]"@ =~= seq![']']);
                assert(field_elems_view(elems@).skip(0) =~= field_elems_view(elems@));
            }
            let mut s = "[".to_owned();
            let inner = render_field_elements(elems, 0);
            s.append(inner.as_str());
            s.append("]");
            s
        },
    }
}

/// Renders the integer array elements from `start` on, comma-separated.
fn render_field_elements(elems: &Vec<FieldSpreadOrExpression>, start: usize) -> (r: String)
    requires
        start <= elems@.len(),
    ensures
        r@ == field_elems_rep(field_elems_view(elems@).skip(start as int)),
    decreases *elems, elems@.len() - start,
{
    proof {
        lemma_field_elems_view_index(elems@);
    }
    let ghost whole = field_elems_view(elems@);
    if start == elems.len() {
        proof {
            assert(whole.skip(start as int) =~= Seq::<FieldSpreadOrExpressionV>::empty());
        }
        String::new()
    } else {
        proof {
            assert(whole.skip(start as int)[0] == whole[start as int]);
            assert(whole.skip(start as int).drop_first() =~= whole.skip(start as int + 1));
        }
        let e0 = &elems[start];
        let mut s = match e0 {
            FieldSpreadOrExpression::Spread(v) => {
                proof {
                    reveal_strlit("...");
                    assert("..."@ =~= seq!['.', '.', '.']);
                }
                let mut p = "...".to_owned();
                p.append(v.0.as_str());
                p
            },
            FieldSpreadOrExpression::FieldExpression(inner) => render_field_expression(inner),
        };
        proof {
            assert(s@ == field_elem_rep(crate::ast::field_elem_view(elems@[start as int])));
            assert(s@ == field_elem_rep(whole[start as int]));
        }
        if start + 1 == elems.len() {
            s
        } else {
            proof {
                reveal_strlit(", ");
                assert(", "@ =~= seq![',', ' ']);
            }
            s.append(", ");
            let rest = render_field_elements(elems, start + 1);
            s.append(rest.as_str());
            s
        }
    }
}

/// Renders an array-access index specifier.
pub fn render_range(r: &FieldRangeOrExpression) -> (out: String)
    ensures
        out@ == range_rep(range_or_expr_view(*r)),
    decreases *r, 1int,
{
    match r {
        FieldRangeOrExpression::FieldExpression(e) => render_field_expression(e),
        FieldRangeOrExpression::Range(from, to) => {
            proof {
                reveal_strlit("..");
                assert(".."@ =~= seq!['.', '.']);
            }
            let mut s = match from {
                Some(e) => render_field_expression(e),
                None => String::new(),
            };
            s.append("..");
            match to {
                Some(e) => {
                    let rt = render_field_expression(e);
                    s.append(rt.as_str());
                },
                None => {},
            }
            s
        },
    }
}

/// Renders a general expression.
pub fn render_expression(e: &Expression) -> (r: String)
    ensures
        r@ == expr_rep(expr_view(*e)),
    decreases *e, 3int,
{
    match e {
        Expression::Boolean(b) => render_bool_expression(b),
        Expression::FieldElement(f) => render_field_expression(f),
        Expression::Variable(v) => v.0.clone(),
        Expression::Struct(name, members) => {
            proof {
                reveal_strlit(" { ");
                reveal_strlit(" }");
                assert(" { "@ =~= seq![' ', '{', ' ']);
                assert(" }"@ =~= seq![' ', '}']);
                assert(members_view(members@).skip(0) =~= members_view(members@));
            }
            let mut s = name.0.clone();
            s.append(" { ");
            let inner = render_members(members, 0);
            s.append(inner.as_str());
            s.append(" }");
            s
        },
        Expression::ArrayAccess(a, idx) => {
            proof {
                reveal_strlit("[");
                reveal_strlit("]");
                assert("["@ =~= seq!['[']);
                assert("]"@ =~= seq![']']);
            }
            let mut s = render_expression(a);
            s.append("[");
            let ri = render_range(idx);
            s.append(ri.as_str());
            s.append("]");
            s
        },
    }
}

/// Renders the struct members from `start` on as `field: value`,
/// comma-separated, in declaration order.
fn render_members(members: &Vec<StructMember>, start: usize) -> (r: String)
    requires
        start <= members@.len(),
    ensures
        r@ == members_rep(members_view(members@).skip(start as int)),
    decreases *members, members@.len() - start,
{
    proof {
        lemma_members_view_index(members@);
    }
    let ghost whole = members_view(members@);
    if start == members.len() {
        proof {
            assert(whole.skip(start as int) =~= Seq::<StructMemberV>::empty());
        }
        String::new()
    } else {
        proof {
            assert(whole.skip(start as int)[0] == whole[start as int]);
            assert(whole.skip(start as int).drop_first() =~= whole.skip(start as int + 1));
            reveal_strlit(": ");
            assert(": "@ =~= seq![':', ' ']);
        }
        let member = &members[start];
        let mut s = member.variable.0.clone();
        s.append(": ");
        let re = render_expression(&member.expression);
        s.append(re.as_str());
        if start + 1 == members.len() {
            s
        } else {
            proof {
                reveal_strlit(", ");
                assert(", "@ =~= seq![',', ' ']);
            }
            s.append(", ");
            let rest = render_members(members, start + 1);
            s.append(rest.as_str());
            s
        }
    }
}

/// Renders the boolean gate values from `start` on, comma-separated.
fn render_bool_gates(arr: &Vec<GateBool>, start: usize) -> (r: String)
    requires
        start <= arr@.len(),
    ensures
        r@ == bool_gates_rep(arr@.skip(start as int)),
    decreases arr@.len() - start,
{
    if start == arr.len() {
        proof {
            assert(arr@.skip(start as int) =~= Seq::<GateBool>::empty());
        }
        String::new()
    } else {
        proof {
            assert(arr@.skip(start as int)[0] == arr@[start as int]);
            assert(arr@.skip(start as int).drop_first() =~= arr@.skip(start as int + 1));
        }
        let mut s = bool_string(arr[start].value);
        if start + 1 == arr.len() {
            s
        } else {
            proof {
                reveal_strlit(", ");
                assert(", "@ =~= seq![',', ' ']);
            }
            s.append(", ");
            let rest = render_bool_gates(arr, start + 1);
            s.append(rest.as_str());
            s
        }
    }
}

/// Renders the integer gate values from `start` on, comma-separated.
fn render_uint_gates(arr: &Vec<GateUint>, start: usize) -> (r: String)
    requires
        start <= arr@.len(),
    ensures
        r@ == uint_gates_rep(arr@.skip(start as int)),
    decreases arr@.len() - start,
{
    if start == arr.len() {
        proof {
            assert(arr@.skip(start as int) =~= Seq::<GateUint>::empty());
        }
        String::new()
    } else {
        proof {
            assert(arr@.skip(start as int)[0] == arr@[start as int]);
            assert(arr@.skip(start as int).drop_first() =~= arr@.skip(start as int + 1));
        }
        let mut s = u32_string(arr[start].value);
        if start + 1 == arr.len() {
            s
        } else {
            proof {
                reveal_strlit(", ");
                assert(", "@ =~= seq![',', ' ']);
            }
            s.append(", ");
            let rest = render_uint_gates(arr, start + 1);
            s.append(rest.as_str());
            s
        }
    }
}

impl ResolvedValue {
    /// Renders the value's deterministic textual form; struct definitions
    /// and function declarations have none, which is unsupported.
    pub fn render(&self) -> (r: Result<String, CircuitError>)
        ensures
            match r {
                Result::Ok(s) => value_renderable(self.deep_view()) && s@ == value_rep(
                    self.deep_view(),
                ),
                Result::Err(c) => !value_renderable(self.deep_view()) && c
                    == CircuitError::Unsupported,
            },
    {
        match self {
            ResolvedValue::Boolean(g) => Ok(bool_string(g.value)),
            ResolvedValue::BooleanArray(arr) => {
                proof {
                    reveal_strlit("[");
                    reveal_strlit("]");
                    assert("["@ =~= seq!['[']);
                    assert("]"@ =~= seq![']']);
                    assert(arr@.skip(0) =~= arr@);
                }
                let mut s = "[".to_owned();
                let inner = render_bool_gates(arr, 0);
                s.append(inner.as_str());
                s.append("]");
                Ok(s)
            },
            ResolvedValue::FieldElement(g) => Ok(u32_string(g.value)),
            ResolvedValue::FieldElementArray(arr) => {
                proof {
                    reveal_strlit("[");
                    reveal_strlit("]");
                    assert("["@ =~= seq!['[']);
                    assert("]"@ =~= seq![']']);
                    assert(arr@.skip(0) =~= arr@);
                }
                let mut s = "[".to_owned();
                let inner = render_uint_gates(arr, 0);
                s.append(inner.as_str());
                s.append("]");
                Ok(s)
            },
            ResolvedValue::StructExpression(name, members) => {
                proof {
                    reveal_strlit(" { ");
                    reveal_strlit(" }");
                    assert(" { "@ =~= seq![' ', '{', ' ']);
                    assert(" }"@ =~= seq![' ', '}']);
                    assert(members_view(members@).skip(0) =~= members_view(members@));
                }
                let mut s = name.0.clone();
                s.append(" { ");
                let inner = render_members(members, 0);
                s.append(inner.as_str());
                s.append(" }");
                Ok(s)
            },
            ResolvedValue::StructDefinition(_) => Err(CircuitError::Unsupported),
            ResolvedValue::Function(_) => Err(CircuitError::Unsupported),
        }
    }
}

} // verus!
