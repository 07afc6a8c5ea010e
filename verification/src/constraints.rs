//! The executable constraint generators: interpreter-style resolvers that
//! walk the program tree, drive gate allocation in the sink, and maintain the
//! binding environment.  Every function here is proved to agree exactly
//! with the semantics in [`crate::semantics`], both in the value or error
//! it produces and in the number of gates it allocates.

use crate::ast::BooleanExpression;
use crate::ast::BooleanSpreadOrExpression;
use crate::ast::Expression;
use crate::ast::FieldExpression;
use crate::ast::FieldRangeOrExpression;
use crate::ast::FieldSpreadOrExpression;
use crate::ast::Program;
use crate::ast::Statement;
use crate::ast::StructField;
use crate::ast::StructMember;
use crate::ast::Variable;
use crate::ast::bool_elems_view;
use crate::ast::bool_expr_view;
use crate::ast::expr_view;
use crate::ast::field_elems_view;
use crate::ast::field_expr_view;
use crate::ast::lemma_bool_elems_view_index;
use crate::ast::lemma_exprs_view_index;
use crate::ast::lemma_field_elems_view_index;
use crate::ast::lemma_functions_view_index;
use crate::ast::lemma_members_view_index;
use crate::ast::lemma_stmts_view_index;
use crate::ast::lemma_struct_fields_view_index;
use crate::ast::lemma_structs_view_index;
use crate::ast::members_view;
use crate::ast::program_view;
use crate::ast::stmt_view;
use crate::ast::stmts_view;
use crate::ast::struct_fields_view;
use crate::ast::struct_view;
use crate::ast::structs_view;
use crate::ast::function_view;
use crate::ast::functions_view;
use crate::ast::exprs_view;
use crate::ast::range_or_expr_view;
use crate::errors::CircuitError;
use crate::semantics::env_lookup;
use crate::semantics::eval_access_b;
use crate::semantics::eval_access_u;
use crate::semantics::eval_bool;
use crate::semantics::eval_bool_elems;
use crate::semantics::eval_bool_var;
use crate::semantics::eval_expr;
use crate::semantics::eval_field;
use crate::semantics::eval_field_elems;
use crate::semantics::eval_index;
use crate::semantics::eval_members;
use crate::semantics::eval_program;
use crate::semantics::eval_returns;
use crate::semantics::eval_stmt;
use crate::semantics::eval_stmts;
use crate::semantics::eval_u32_var;
use crate::semantics::get_bool;
use crate::semantics::get_u32;
use crate::semantics::seed_functions;
use crate::semantics::seed_structs;
use crate::sink::GateBool;
use crate::sink::GateUint;
use crate::sink::Sink;
use crate::values::ResolvedValue;
use crate::values::ValueV;
use crate::values::Witness;
use crate::values::WitnessValue;
use vstd::prelude::*;

verus! {

broadcast use vstd::std_specs::vec::group_vec_axioms;

/// The state of one constraint-generation pass: the binding environment,
/// exclusively owned by the pass.  Bindings are kept in order; the latest
/// binding for a name shadows the earlier ones, which gives `Definition`
/// its insert-or-overwrite semantics.
#[derive(Debug)]
pub struct ResolvedProgram {
    pub resolved_variables: Vec<(Variable, ResolvedValue)>,
}

impl ResolvedProgram {
    /// Mirror of the binding environment.
    pub open spec fn env_view(self) -> Seq<(Seq<char>, ValueV)> {
        self.resolved_variables.deep_view()
    }

    /// A fresh pass with an empty environment.
    pub fn new() -> (p: ResolvedProgram)
        ensures
            p.env_view() == Seq::<(Seq<char>, ValueV)>::empty(),
    {
        let p = ResolvedProgram { resolved_variables: Vec::new() };
        proof {
            assert(p.env_view() =~= Seq::<(Seq<char>, ValueV)>::empty());
        }
        p
    }

    /// Binds `variable` to `value`, shadowing any earlier binding.
    pub fn insert(&mut self, variable: Variable, value: ResolvedValue)
        ensures
            final(self).env_view() == old(self).env_view().push(
                (variable.0@, value.deep_view()),
            ),
    {
        let ghost before = self.env_view();
        let ghost entry = (variable.0@, value.deep_view());
        self.resolved_variables.push((variable, value));
        proof {
            assert(self.env_view() =~= before.push(entry));
        }
    }

    /// Looks a name up in the environment.  Lookup failure is not itself an
    /// error: callers decide whether an unresolved name is fatal or triggers
    /// external-input acquisition.
    pub fn lookup(&self, name: &String) -> (r: Option<&ResolvedValue>)
        ensures
            match r {
                Option::Some(v) => env_lookup(self.env_view(), name@) == Option::Some(
                    v.deep_view(),
                ),
                Option::None => env_lookup(self.env_view(), name@) == Option::None::<ValueV>,
            },
    {
        proof {
            assert(self.env_view().take(self.resolved_variables@.len() as int)
                =~= self.env_view());
        }
        let mut idx: usize = self.resolved_variables.len();
        while idx > 0
            invariant
                idx <= self.resolved_variables@.len(),
                env_lookup(self.env_view(), name@) == env_lookup(
                    self.env_view().take(idx as int),
                    name@,
                ),
            decreases idx,
        {
            idx = idx - 1;
            let ghost pre = self.env_view().take(idx + 1);
            proof {
                assert(pre.drop_last() =~= self.env_view().take(idx as int));
                assert(pre.last() == (
                    self.resolved_variables@[idx as int].0.0@,
                    self.resolved_variables@[idx as int].1.deep_view(),
                ));
            }
            let entry = &self.resolved_variables[idx];
            if entry.0.0 == *name {
                return Some(&entry.1);
            }
        }
        proof {
            assert(self.env_view().take(0) =~= Seq::<(Seq<char>, ValueV)>::empty());
        }
        None
    }

    /// Resolves a boolean variable: a bound boolean is shared unchanged; an
    /// unbound name draws its value from the witness provider and allocates
    /// a fresh input gate.
    pub fn bool_from_variable(
        &self,
        cs: &mut Sink,
        witness: &Witness,
        variable: &Variable,
    ) -> (r: Result<GateBool, CircuitError>)
        ensures
            ({
                let (sr, n) = eval_bool_var(
                    self.env_view(),
                    witness.entries.deep_view(),
                    variable.0@,
                );
                &&& final(cs).gates@.len() == old(cs).gates@.len() + n
                &&& r == sr
            }),
    {
        match self.lookup(&variable.0) {
            Some(v) => match v {
                ResolvedValue::Boolean(g) => Ok(*g),
                _ => Err(CircuitError::TypeMismatch),
            },
            None => match witness.find(&variable.0) {
                Some(WitnessValue::Boolean(b)) => Ok(cs.input_bool(variable.0.as_str(), b)),
                _ => Err(CircuitError::MissingWitness),
            },
        }
    }

    /// Resolves an integer variable, analogous to
    /// [`ResolvedProgram::bool_from_variable`].
    pub fn u32_from_variable(
        &self,
        cs: &mut Sink,
        witness: &Witness,
        variable: &Variable,
    ) -> (r: Result<GateUint, CircuitError>)
        ensures
            ({
                let (sr, n) = eval_u32_var(
                    self.env_view(),
                    witness.entries.deep_view(),
                    variable.0@,
                );
                &&& final(cs).gates@.len() == old(cs).gates@.len() + n
                &&& r == sr
            }),
    {
        match self.lookup(&variable.0) {
            Some(v) => match v {
                ResolvedValue::FieldElement(g) => Ok(*g),
                _ => Err(CircuitError::TypeMismatch),
            },
            None => match witness.find(&variable.0) {
                Some(WitnessValue::FieldElement(n)) => Ok(cs.input_u32(variable.0.as_str(), n)),
                _ => Err(CircuitError::MissingWitness),
            },
        }
    }

    /// Resolves a boolean expression down to a single gate-backed boolean.
    pub fn get_bool_value(
        &self,
        cs: &mut Sink,
        witness: &Witness,
        expression: &BooleanExpression,
    ) -> (r: Result<GateBool, CircuitError>)
        ensures
            ({
                let (sr, n) = get_bool(
                    self.env_view(),
                    witness.entries.deep_view(),
                    bool_expr_view(*expression),
                );
                &&& final(cs).gates@.len() == old(cs).gates@.len() + n
                &&& r == sr
            }),
        decreases *expression, 1int,
    {
        match self.enforce_boolean_expression(cs, witness, expression) {
            Ok(v) => match v {
                ResolvedValue::Boolean(g) => Ok(g),
                _ => Err(CircuitError::TypeMismatch),
            },
            Err(c) => Err(c),
        }
    }

    /// Resolves an integer expression down to a single gate-backed integer.
    pub fn get_u32_value(
        &self,
        cs: &mut Sink,
        witness: &Witness,
        expression: &FieldExpression,
    ) -> (r: Result<GateUint, CircuitError>)
        ensures
            ({
                let (sr, n) = get_u32(
                    self.env_view(),
                    witness.entries.deep_view(),
                    field_expr_view(*expression),
                );
                &&& final(cs).gates@.len() == old(cs).gates@.len() + n
                &&& r == sr
            }),
        decreases *expression, 1int,
    {
        match self.enforce_field_expression(cs, witness, expression) {
            Ok(v) => match v {
                ResolvedValue::FieldElement(g) => Ok(g),
                _ => Err(CircuitError::TypeMismatch),
            },
            Err(c) => Err(c),
        }
    }

    /// Resolves a boolean-typed expression into a resolved value,
    /// allocating the gates its evaluation requires.
    #[verifier::rlimit(100)]
    pub fn enforce_boolean_expression(
        &self,
        cs: &mut Sink,
        witness: &Witness,
        expression: &BooleanExpression,
    ) -> (r: Result<ResolvedValue, CircuitError>)
        ensures
            ({
                let (sr, n) = eval_bool(
                    self.env_view(),
                    witness.entries.deep_view(),
                    bool_expr_view(*expression),
                );
                &&& final(cs).gates@.len() == old(cs).gates@.len() + n
                &&& (match (r, sr) {
                    (Result::Ok(v), Result::Ok(sv)) => v.deep_view() == sv,
                    (Result::Err(c), Result::Err(sc)) => c == sc,
                    _ => false,
                })
            }),
        decreases *expression, 0int,
    {
        match expression {
            BooleanExpression::Variable(v) => match self.bool_from_variable(cs, witness, v) {
                Ok(g) => Ok(ResolvedValue::Boolean(g)),
                Err(c) => Err(c),
            },
            BooleanExpression::Value(b) => Ok(ResolvedValue::Boolean(cs.constant_bool(*b))),
            BooleanExpression::Not(a) => match self.get_bool_value(cs, witness, a) {
                Ok(g) => Ok(ResolvedValue::Boolean(cs.not_gate(&g))),
                Err(c) => Err(c),
            },
            BooleanExpression::Or(a, b) => {
                let ga = match self.get_bool_value(cs, witness, a) {
                    Ok(g) => g,
                    Err(c) => {
                        return Err(c);
                    },
                };
                let gb = match self.get_bool_value(cs, witness, b) {
                    Ok(g) => g,
                    Err(c) => {
                        return Err(c);
                    },
                };
                Ok(ResolvedValue::Boolean(cs.or_gate(&ga, &gb)))
            },
            BooleanExpression::And(a, b) => {
                let ga = match self.get_bool_value(cs, witness, a) {
                    Ok(g) => g,
                    Err(c) => {
                        return Err(c);
                    },
                };
                let gb = match self.get_bool_value(cs, witness, b) {
                    Ok(g) => g,
                    Err(c) => {
                        return Err(c);
                    },
                };
                Ok(ResolvedValue::Boolean(cs.and_gate(&ga, &gb)))
            },
            BooleanExpression::BoolEq(a, b) => {
                let ga = match self.get_bool_value(cs, witness, a) {
                    Ok(g) => g,
                    Err(c) => {
                        return Err(c);
                    },
                };
                let gb = match self.get_bool_value(cs, witness, b) {
                    Ok(g) => g,
                    Err(c) => {
                        return Err(c);
                    },
                };
                match cs.enforce_bool_eq(&ga, &gb) {
                    Ok(g) => Ok(ResolvedValue::Boolean(g)),
                    Err(c) => Err(c),
                }
            },
            BooleanExpression::FieldEq(a, b) => {
                let ga = match self.get_u32_value(cs, witness, a) {
                    Ok(g) => g,
                    Err(c) => {
                        return Err(c);
                    },
                };
                let gb = match self.get_u32_value(cs, witness, b) {
                    Ok(g) => g,
                    Err(c) => {
                        return Err(c);
                    },
                };
                match cs.enforce_field_eq(&ga, &gb) {
                    Ok(g) => Ok(ResolvedValue::Boolean(g)),
                    Err(c) => Err(c),
                }
            },
            BooleanExpression::IfElse(c, t, f) => {
                let gc = match self.get_bool_value(cs, witness, c) {
                    Ok(g) => g,
                    Err(c0) => {
                        return Err(c0);
                    },
                };
                if gc.value {
                    self.enforce_boolean_expression(cs, witness, t)
                } else {
                    self.enforce_boolean_expression(cs, witness, f)
                }
            },
            BooleanExpression::Array(elems) => {
                match self.enforce_bool_elems(cs, witness, elems, 0) {
                    Ok(gs) => {
                        proof {
                            assert(bool_elems_view(elems@).skip(0) =~= bool_elems_view(elems@));
                        }
                        Ok(ResolvedValue::BooleanArray(gs))
                    },
                    Err(c) => {
                        proof {
                            assert(bool_elems_view(elems@).skip(0) =~= bool_elems_view(elems@));
                        }
                        Err(c)
                    },
                }
            },
        }
    }

    /// Resolves the elements of a boolean array literal from `start` on,
    /// in order.
    fn enforce_bool_elems(
        &self,
        cs: &mut Sink,
        witness: &Witness,
        elems: &Vec<BooleanSpreadOrExpression>,
        start: usize,
    ) -> (r: Result<Vec<GateBool>, CircuitError>)
        requires
            start <= elems@.len(),
        ensures
            ({
                let (sr, n) = eval_bool_elems(
                    self.env_view(),
                    witness.entries.deep_view(),
                    bool_elems_view(elems@).skip(start as int),
                );
                &&& final(cs).gates@.len() == old(cs).gates@.len() + n
                &&& (match (r, sr) {
                    (Result::Ok(v), Result::Ok(sv)) => v@ == sv,
                    (Result::Err(c), Result::Err(sc)) => c == sc,
                    _ => false,
                })
            }),
        decreases *elems, elems@.len() - start,
    {
        proof {
            lemma_bool_elems_view_index(elems@);
        }
        let ghost whole = bool_elems_view(elems@);
        if start == elems.len() {
            proof {
                assert(whole.skip(start as int) =~= Seq::<
                    crate::ast::BooleanSpreadOrExpressionV,
                >::empty());
            }
            Ok(Vec::new())
        } else {
            proof {
                assert(whole.skip(start as int)[0] == whole[start as int]);
            }
            match &elems[start] {
                BooleanSpreadOrExpression::Spread(_) => Err(CircuitError::Unsupported),
                BooleanSpreadOrExpression::BooleanExpression(e) => {
                    match self.enforce_boolean_expression(cs, witness, e) {
                        Ok(v) => match v {
                            ResolvedValue::Boolean(g) => {
                                proof {
                                    assert(whole.skip(start as int).drop_first() =~= whole.skip(
                                        start as int + 1,
                                    ));
                                }
                                match self.enforce_bool_elems(cs, witness, elems, start + 1) {
                                    Ok(mut gs) => {
                                        gs.insert(0, g);
                                        proof {
                                            assert(gs@ =~= Seq::empty().push(g) + gs@.drop_first());
                                        }
                                        Ok(gs)
                                    },
                                    Err(c) => Err(c),
                                }
                            },
                            _ => Err(CircuitError::TypeMismatch),
                        },
                        Err(c) => Err(c),
                    }
                },
            }
        }
    }

    /// Resolves an integer-typed expression into a resolved value.
    #[verifier::rlimit(100)]
    pub fn enforce_field_expression(
        &self,
        cs: &mut Sink,
        witness: &Witness,
        expression: &FieldExpression,
    ) -> (r: Result<ResolvedValue, CircuitError>)
        ensures
            ({
                let (sr, n) = eval_field(
                    self.env_view(),
                    witness.entries.deep_view(),
                    field_expr_view(*expression),
                );
                &&& final(cs).gates@.len() == old(cs).gates@.len() + n
                &&& (match (r, sr) {
                    (Result::Ok(v), Result::Ok(sv)) => v.deep_view() == sv,
                    (Result::Err(c), Result::Err(sc)) => c == sc,
                    _ => false,
                })
            }),
        decreases *expression, 0int,
    {
        match expression {
            FieldExpression::Variable(v) => match self.u32_from_variable(cs, witness, v) {
                Ok(g) => Ok(ResolvedValue::FieldElement(g)),
                Err(c) => Err(c),
            },
            FieldExpression::Number(n) => Ok(ResolvedValue::FieldElement(cs.constant_u32(*n))),
            FieldExpression::Add(a, b) => {
                let ga = match self.get_u32_value(cs, witness, a) {
                    Ok(g) => g,
                    Err(c) => {
                        return Err(c);
                    },
                };
                let gb = match self.get_u32_value(cs, witness, b) {
                    Ok(g) => g,
                    Err(c) => {
                        return Err(c);
                    },
                };
                Ok(ResolvedValue::FieldElement(cs.add_gate(&ga, &gb)))
            },
            FieldExpression::Sub(a, b) => {
                let ga = match self.get_u32_value(cs, witness, a) {
                    Ok(g) => g,
                    Err(c) => {
                        return Err(c);
                    },
                };
                let gb = match self.get_u32_value(cs, witness, b) {
                    Ok(g) => g,
                    Err(c) => {
                        return Err(c);
                    },
                };
                Ok(ResolvedValue::FieldElement(cs.sub_gate(&ga, &gb)))
            },
            FieldExpression::Mul(a, b) => {
                let ga = match self.get_u32_value(cs, witness, a) {
                    Ok(g) => g,
                    Err(c) => {
                        return Err(c);
                    },
                };
                let gb = match self.get_u32_value(cs, witness, b) {
                    Ok(g) => g,
                    Err(c) => {
                        return Err(c);
                    },
                };
                Ok(ResolvedValue::FieldElement(cs.mul_gate(&ga, &gb)))
            },
            FieldExpression::Div(a, b) => {
                let ga = match self.get_u32_value(cs, witness, a) {
                    Ok(g) => g,
                    Err(c) => {
                        return Err(c);
                    },
                };
                let gb = match self.get_u32_value(cs, witness, b) {
                    Ok(g) => g,
                    Err(c) => {
                        return Err(c);
                    },
                };
                match cs.div_gate(&ga, &gb) {
                    Ok(g) => Ok(ResolvedValue::FieldElement(g)),
                    Err(c) => Err(c),
                }
            },
            FieldExpression::Pow(a, b) => {
                let ga = match self.get_u32_value(cs, witness, a) {
                    Ok(g) => g,
                    Err(c) => {
                        return Err(c);
                    },
                };
                let gb = match self.get_u32_value(cs, witness, b) {
                    Ok(g) => g,
                    Err(c) => {
                        return Err(c);
                    },
                };
                Ok(ResolvedValue::FieldElement(cs.pow_gate(&ga, &gb)))
            },
            FieldExpression::IfElse(c, t, f) => {
                let gc = match self.get_bool_value(cs, witness, c) {
                    Ok(g) => g,
                    Err(c0) => {
                        return Err(c0);
                    },
                };
                if gc.value {
                    self.enforce_field_expression(cs, witness, t)
                } else {
                    self.enforce_field_expression(cs, witness, f)
                }
            },
            FieldExpression::Array(elems) => {
                match self.enforce_field_elems(cs, witness, elems, 0) {
                    Ok(gs) => {
                        proof {
                            assert(field_elems_view(elems@).skip(0) =~= field_elems_view(elems@));
                        }
                        Ok(ResolvedValue::FieldElementArray(gs))
                    },
                    Err(c) => {
                        proof {
                            assert(field_elems_view(elems@).skip(0) =~= field_elems_view(elems@));
                        }
                        Err(c)
                    },
                }
            },
        }
    }

    /// Resolves the elements of an integer array literal from `start` on.
    fn enforce_field_elems(
        &self,
        cs: &mut Sink,
        witness: &Witness,
        elems: &Vec<FieldSpreadOrExpression>,
        start: usize,
    ) -> (r: Result<Vec<GateUint>, CircuitError>)
        requires
            start <= elems@.len(),
        ensures
            ({
                let (sr, n) = eval_field_elems(
                    self.env_view(),
                    witness.entries.deep_view(),
                    field_elems_view(elems@).skip(start as int),
                );
                &&& final(cs).gates@.len() == old(cs).gates@.len() + n
                &&& (match (r, sr) {
                    (Result::Ok(v), Result::Ok(sv)) => v@ == sv,
                    (Result::Err(c), Result::Err(sc)) => c == sc,
                    _ => false,
                })
            }),
        decreases *elems, elems@.len() - start,
    {
        proof {
            lemma_field_elems_view_index(elems@);
        }
        let ghost whole = field_elems_view(elems@);
        if start == elems.len() {
            proof {
                assert(whole.skip(start as int) =~= Seq::<
                    crate::ast::FieldSpreadOrExpressionV,
                >::empty());
            }
            Ok(Vec::new())
        } else {
            proof {
                assert(whole.skip(start as int)[0] == whole[start as int]);
            }
            match &elems[start] {
                FieldSpreadOrExpression::Spread(_) => Err(CircuitError::Unsupported),
                FieldSpreadOrExpression::FieldExpression(e) => {
                    match self.enforce_field_expression(cs, witness, e) {
                        Ok(v) => match v {
                            ResolvedValue::FieldElement(g) => {
                                proof {
                                    assert(whole.skip(start as int).drop_first() =~= whole.skip(
                                        start as int + 1,
                                    ));
                                }
                                match self.enforce_field_elems(cs, witness, elems, start + 1) {
                                    Ok(mut gs) => {
                                        gs.insert(0, g);
                                        proof {
                                            assert(gs@ =~= Seq::empty().push(g) + gs@.drop_first());
                                        }
                                        Ok(gs)
                                    },
                                    Err(c) => Err(c),
                                }
                            },
                            _ => Err(CircuitError::TypeMismatch),
                        },
                        Err(c) => Err(c),
                    }
                },
            }
        }
    }

    /// Resolves an index expression to a concrete number.
    pub fn enforce_index(&self, cs: &mut Sink, witness: &Witness, index: &FieldExpression) -> (r:
        Result<u32, CircuitError>)
        ensures
            ({
                let (sr, n) = eval_index(
                    self.env_view(),
                    witness.entries.deep_view(),
                    field_expr_view(*index),
                );
                &&& final(cs).gates@.len() == old(cs).gates@.len() + n
                &&& r == sr
            }),
        decreases *index, 2int,
    {
        match self.get_u32_value(cs, witness, index) {
            Ok(g) => Ok(g.value),
            Err(c) => Err(c),
        }
    }

    /// Checks a struct literal's members against the declared fields,
    /// positionally, resolving every member initializer for its allocation
    /// side effects.
    fn enforce_members(
        &self,
        cs: &mut Sink,
        witness: &Witness,
        fields: &Vec<StructField>,
        members: &Vec<StructMember>,
        start: usize,
    ) -> (r: Result<(), CircuitError>)
        requires
            start <= fields@.len(),
            start <= members@.len(),
        ensures
            ({
                let (sr, n) = eval_members(
                    self.env_view(),
                    witness.entries.deep_view(),
                    struct_fields_view(fields@).skip(start as int),
                    members_view(members@).skip(start as int),
                );
                &&& final(cs).gates@.len() == old(cs).gates@.len() + n
                &&& r == sr
            }),
        decreases *members, members@.len() - start,
    {
        proof {
            lemma_struct_fields_view_index(fields@);
            lemma_members_view_index(members@);
        }
        let ghost fviews = struct_fields_view(fields@);
        let ghost mviews = members_view(members@);
        if start == fields.len() || start == members.len() {
            proof {
                assert(fviews.skip(start as int).len() == 0 || mviews.skip(start as int).len()
                    == 0);
            }
            Ok(())
        } else {
            let field = &fields[start];
            let member = &members[start];
            proof {
                assert(fviews.skip(start as int)[0] == fviews[start as int]);
                assert(mviews.skip(start as int)[0] == mviews[start as int]);
            }
            if field.variable.0 == member.variable.0 {
                match self.enforce_expression(cs, witness, &member.expression) {
                    Ok(_) => {
                        proof {
                            assert(fviews.skip(start as int).drop_first() =~= fviews.skip(
                                start as int + 1,
                            ));
                            assert(mviews.skip(start as int).drop_first() =~= mviews.skip(
                                start as int + 1,
                            ));
                        }
                        self.enforce_members(cs, witness, fields, members, start + 1)
                    },
                    Err(c) => Err(c),
                }
            } else {
                Err(CircuitError::FieldMismatch)
            }
        }
    }

    /// Resolves a struct-construction expression: the struct name must
    /// already be bound to a struct definition; the declared fields are
    /// paired with the supplied members positionally; the returned instance
    /// stores the original unevaluated member list.
    pub fn enforce_struct_expression(
        &self,
        cs: &mut Sink,
        witness: &Witness,
        variable: &Variable,
        members: &Vec<StructMember>,
    ) -> (r: Result<ResolvedValue, CircuitError>)
        ensures
            ({
                let (sr, n) = eval_expr(
                    self.env_view(),
                    witness.entries.deep_view(),
                    crate::ast::ExpressionV::Struct(variable.0@, members_view(members@)),
                );
                &&& final(cs).gates@.len() == old(cs).gates@.len() + n
                &&& (match (r, sr) {
                    (Result::Ok(v), Result::Ok(sv)) => v.deep_view() == sv,
                    (Result::Err(c), Result::Err(sc)) => c == sc,
                    _ => false,
                })
            }),
        decreases *members, members@.len() + 1,
    {
        match self.lookup(&variable.0) {
            Some(rv) => match rv {
                ResolvedValue::StructDefinition(struct_definition) => {
                    let flen = struct_definition.fields.len();
                    let mlen = members.len();
                    let bound = if flen < mlen {
                        flen
                    } else {
                        mlen
                    };
                    proof {
                        assert(struct_fields_view(struct_definition.fields@).skip(0)
                            =~= struct_fields_view(struct_definition.fields@));
                        assert(members_view(members@).skip(0) =~= members_view(members@));
                        lemma_struct_fields_view_index(struct_definition.fields@);
                        lemma_members_view_index(members@);
                    }
                    match self.enforce_members(cs, witness, &struct_definition.fields, members, 0) {
                        Ok(_) => {
                            let mut out: Vec<StructMember> = Vec::new();
                            let mut idx: usize = 0;
                            while idx < members.len()
                                invariant
                                    idx <= members.len(),
                                    out@.len() == idx,
                                    forall|i: int|
                                        0 <= i < idx ==> #[trigger] out@[i].deep_view()
                                            == members@[i].deep_view(),
                                decreases members.len() - idx,
                            {
                                out.push(members[idx].clone());
                                idx = idx + 1;
                            }
                            proof {
                                lemma_members_view_index(out@);
                                assert forall|i: int| 0 <= i < out@.len() implies members_view(
                                    out@,
                                )[i] == members_view(members@)[i] by {
                                    assert(out@[i].deep_view() == members@[i].deep_view());
                                }
                                assert(members_view(out@) =~= members_view(members@));
                            }
                            Ok(ResolvedValue::StructExpression(variable.clone(), out))
                        },
                        Err(c) => Err(c),
                    }
                },
                _ => Err(CircuitError::TypeMismatch),
            },
            None => Err(CircuitError::UndefinedName),
        }
    }

    /// Resolves a single-index or range access into an already-resolved
    /// array value.  Indices resolve to concrete numbers at generation
    /// time; out-of-range accesses are fatal, never clamped.
    pub fn enforce_array_access_expression(
        &self,
        cs: &mut Sink,
        witness: &Witness,
        array: ResolvedValue,
        index: &FieldRangeOrExpression,
    ) -> (r: Result<ResolvedValue, CircuitError>)
        ensures
            ({
                let (sr, n) = (match array.deep_view() {
                    ValueV::FieldElementArray(arr) => eval_access_u(
                        self.env_view(),
                        witness.entries.deep_view(),
                        arr,
                        range_or_expr_view(*index),
                    ),
                    ValueV::BooleanArray(arr) => eval_access_b(
                        self.env_view(),
                        witness.entries.deep_view(),
                        arr,
                        range_or_expr_view(*index),
                    ),
                    _ => (
                        Result::<ValueV, CircuitError>::Err(CircuitError::TypeMismatch),
                        0nat,
                    ),
                });
                &&& final(cs).gates@.len() == old(cs).gates@.len() + n
                &&& (match (r, sr) {
                    (Result::Ok(v), Result::Ok(sv)) => v.deep_view() == sv,
                    (Result::Err(c), Result::Err(sc)) => c == sc,
                    _ => false,
                })
            }),
        decreases *index, 0int,
    {
        match array {
            ResolvedValue::FieldElementArray(field_array) => match index {
                FieldRangeOrExpression::Range(from, to) => {
                    let from_resolved: u32 = match from {
                        Some(from_index) => match self.enforce_index(cs, witness, from_index) {
                            Ok(i) => i,
                            Err(c) => {
                                return Err(c);
                            },
                        },
                        None => 0,
                    };
                    let to_resolved: usize = match to {
                        Some(to_index) => match self.enforce_index(cs, witness, to_index) {
                            Ok(i) => i as usize,
                            Err(c) => {
                                return Err(c);
                            },
                        },
                        None => field_array.len(),
                    };
                    if from_resolved as usize <= to_resolved && to_resolved <= field_array.len() {
                        let mut out: Vec<GateUint> = Vec::new();
                        let mut idx: usize = from_resolved as usize;
                        while idx < to_resolved
                            invariant
                                from_resolved as usize <= idx <= to_resolved,
                                to_resolved <= field_array@.len(),
                                out@ =~= field_array@.subrange(from_resolved as int, idx as int),
                            decreases to_resolved - idx,
                        {
                            out.push(field_array[idx]);
                            idx = idx + 1;
                        }
                        Ok(ResolvedValue::FieldElementArray(out))
                    } else {
                        Err(CircuitError::IndexOutOfRange)
                    }
                },
                FieldRangeOrExpression::FieldExpression(index_expr) => {
                    match self.enforce_index(cs, witness, index_expr) {
                        Ok(i) => if (i as usize) < field_array.len() {
                            Ok(ResolvedValue::FieldElement(field_array[i as usize]))
                        } else {
                            Err(CircuitError::IndexOutOfRange)
                        },
                        Err(c) => Err(c),
                    }
                },
            },
            ResolvedValue::BooleanArray(bool_array) => match index {
                FieldRangeOrExpression::Range(from, to) => {
                    let from_resolved: u32 = match from {
                        Some(from_index) => match self.enforce_index(cs, witness, from_index) {
                            Ok(i) => i,
                            Err(c) => {
                                return Err(c);
                            },
                        },
                        None => 0,
                    };
                    let to_resolved: usize = match to {
                        Some(to_index) => match self.enforce_index(cs, witness, to_index) {
                            Ok(i) => i as usize,
                            Err(c) => {
                                return Err(c);
                            },
                        },
                        None => bool_array.len(),
                    };
                    if from_resolved as usize <= to_resolved && to_resolved <= bool_array.len() {
                        let mut out: Vec<GateBool> = Vec::new();
                        let mut idx: usize = from_resolved as usize;
                        while idx < to_resolved
                            invariant
                                from_resolved as usize <= idx <= to_resolved,
                                to_resolved <= bool_array@.len(),
                                out@ =~= bool_array@.subrange(from_resolved as int, idx as int),
                            decreases to_resolved - idx,
                        {
                            out.push(bool_array[idx]);
                            idx = idx + 1;
                        }
                        Ok(ResolvedValue::BooleanArray(out))
                    } else {
                        Err(CircuitError::IndexOutOfRange)
                    }
                },
                FieldRangeOrExpression::FieldExpression(index_expr) => {
                    match self.enforce_index(cs, witness, index_expr) {
                        Ok(i) => if (i as usize) < bool_array.len() {
                            Ok(ResolvedValue::Boolean(bool_array[i as usize]))
                        } else {
                            Err(CircuitError::IndexOutOfRange)
                        },
                        Err(c) => Err(c),
                    }
                },
            },
            _ => Err(CircuitError::TypeMismatch),
        }
    }

    /// Resolves a general expression by dispatching on its static shape.
    pub fn enforce_expression(
        &self,
        cs: &mut Sink,
        witness: &Witness,
        expression: &Expression,
    ) -> (r: Result<ResolvedValue, CircuitError>)
        ensures
            ({
                let (sr, n) = eval_expr(
                    self.env_view(),
                    witness.entries.deep_view(),
                    expr_view(*expression),
                );
                &&& final(cs).gates@.len() == old(cs).gates@.len() + n
                &&& (match (r, sr) {
                    (Result::Ok(v), Result::Ok(sv)) => v.deep_view() == sv,
                    (Result::Err(c), Result::Err(sc)) => c == sc,
                    _ => false,
                })
            }),
        decreases *expression, 3int,
    {
        match expression {
            Expression::Boolean(b) => self.enforce_boolean_expression(cs, witness, b),
            Expression::FieldElement(f) => self.enforce_field_expression(cs, witness, f),
            Expression::Variable(unresolved) => match self.lookup(&unresolved.0) {
                Some(v) => Ok(v.clone()),
                None => match witness.find(&unresolved.0) {
                    Some(WitnessValue::Boolean(b)) => Ok(
                        ResolvedValue::Boolean(cs.input_bool(unresolved.0.as_str(), b)),
                    ),
                    Some(WitnessValue::FieldElement(n)) => Ok(
                        ResolvedValue::FieldElement(cs.input_u32(unresolved.0.as_str(), n)),
                    ),
                    None => Err(CircuitError::MissingWitness),
                },
            },
            Expression::Struct(struct_name, members) => self.enforce_struct_expression(
                cs,
                witness,
                struct_name,
                members,
            ),
            Expression::ArrayAccess(array, index) => {
                match self.enforce_expression(cs, witness, array) {
                    Ok(resolved) => match resolved {
                        ResolvedValue::FieldElementArray(arr) => self
                            .enforce_array_access_expression(
                            cs,
                            witness,
                            ResolvedValue::FieldElementArray(arr),
                            index,
                        ),
                        ResolvedValue::BooleanArray(arr) => self.enforce_array_access_expression(
                            cs,
                            witness,
                            ResolvedValue::BooleanArray(arr),
                            index,
                        ),
                        _ => Err(CircuitError::TypeMismatch),
                    },
                    Err(c) => Err(c),
                }
            },
        }
    }

    /// Resolves each returned expression from `start` on, for its side
    /// effects only.
    fn enforce_returns(
        &self,
        cs: &mut Sink,
        witness: &Witness,
        expressions: &Vec<Expression>,
        start: usize,
    ) -> (r: Result<(), CircuitError>)
        requires
            start <= expressions@.len(),
        ensures
            ({
                let (sr, n) = eval_returns(
                    self.env_view(),
                    witness.entries.deep_view(),
                    exprs_view(expressions@).skip(start as int),
                );
                &&& final(cs).gates@.len() == old(cs).gates@.len() + n
                &&& r == sr
            }),
        decreases expressions@.len() - start,
    {
        proof {
            lemma_exprs_view_index(expressions@);
        }
        let ghost whole = exprs_view(expressions@);
        if start == expressions.len() {
            proof {
                assert(whole.skip(start as int) =~= Seq::<crate::ast::ExpressionV>::empty());
            }
            Ok(())
        } else {
            proof {
                assert(whole.skip(start as int)[0] == whole[start as int]);
                assert(whole.skip(start as int).drop_first() =~= whole.skip(start as int + 1));
            }
            let step = match &expressions[start] {
                Expression::Boolean(be) => match self.enforce_boolean_expression(cs, witness, be) {
                    Ok(_) => Ok(()),
                    Err(c) => Err(c),
                },
                Expression::FieldElement(fe) => match self.enforce_field_expression(
                    cs,
                    witness,
                    fe,
                ) {
                    Ok(_) => Ok(()),
                    Err(c) => Err(c),
                },
                Expression::Variable(v) => match self.lookup(&v.0) {
                    Some(_) => Ok(()),
                    None => Err(CircuitError::UndefinedName),
                },
                _ => Err(CircuitError::Unsupported),
            };
            match step {
                Ok(_) => self.enforce_returns(cs, witness, expressions, start + 1),
                Err(c) => Err(c),
            }
        }
    }

    /// Executes one statement: a `Definition` resolves its expression and
    /// binds the result; a `Return` resolves its expressions for their side
    /// effects and leaves the environment unchanged.
    pub fn enforce_statement(
        &mut self,
        cs: &mut Sink,
        witness: &Witness,
        statement: &Statement,
    ) -> (r: Result<(), CircuitError>)
        ensures
            ({
                let (sr, n) = eval_stmt(
                    old(self).env_view(),
                    witness.entries.deep_view(),
                    stmt_view(*statement),
                );
                &&& final(cs).gates@.len() == old(cs).gates@.len() + n
                &&& (match (r, sr) {
                    (Result::Ok(_), Result::Ok(senv)) => final(self).env_view() == senv,
                    (Result::Err(c), Result::Err(sc)) => c == sc && final(self).env_view() == old(
                        self,
                    ).env_view(),
                    _ => false,
                })
            }),
    {
        match statement {
            Statement::Definition(variable, expression) => {
                match self.enforce_expression(cs, witness, expression) {
                    Ok(result) => {
                        self.insert(variable.clone(), result);
                        Ok(())
                    },
                    Err(c) => Err(c),
                }
            },
            Statement::Return(expressions) => {
                proof {
                    assert(exprs_view(expressions@).skip(0) =~= exprs_view(expressions@));
                }
                match self.enforce_returns(cs, witness, expressions, 0) {
                    Ok(_) => Ok(()),
                    Err(c) => Err(c),
                }
            },
        }
    }

    /// Executes the statements from `start` on, in source order.
    fn run_statements(
        &mut self,
        cs: &mut Sink,
        witness: &Witness,
        statements: &Vec<Statement>,
        start: usize,
    ) -> (r: Result<(), CircuitError>)
        requires
            start <= statements@.len(),
        ensures
            ({
                let (sr, n) = eval_stmts(
                    old(self).env_view(),
                    witness.entries.deep_view(),
                    stmts_view(statements@).skip(start as int),
                );
                &&& final(cs).gates@.len() == old(cs).gates@.len() + n
                &&& (match (r, sr) {
                    (Result::Ok(_), Result::Ok(senv)) => final(self).env_view() == senv,
                    (Result::Err(c), Result::Err(sc)) => c == sc,
                    _ => false,
                })
            }),
        decreases statements@.len() - start,
    {
        proof {
            lemma_stmts_view_index(statements@);
        }
        let ghost whole = stmts_view(statements@);
        if start == statements.len() {
            proof {
                assert(whole.skip(start as int) =~= Seq::<crate::ast::StatementV>::empty());
            }
            Ok(())
        } else {
            proof {
                assert(whole.skip(start as int)[0] == whole[start as int]);
                assert(whole.skip(start as int).drop_first() =~= whole.skip(start as int + 1));
            }
            match self.enforce_statement(cs, witness, &statements[start]) {
                Ok(_) => self.run_statements(cs, witness, statements, start + 1),
                Err(c) => Err(c),
            }
        }
    }

    /// Resolves the operand and allocates a NOT gate: exactly the work of
    /// resolving `Not(expression)`.
    pub fn enforce_not(&self, cs: &mut Sink, witness: &Witness, expression: &BooleanExpression)
        -> (r: Result<GateBool, CircuitError>)
        ensures
            ({
                let (sr, n) = eval_bool(
                    self.env_view(),
                    witness.entries.deep_view(),
                    crate::ast::BooleanExpressionV::Not(Box::new(bool_expr_view(*expression))),
                );
                &&& final(cs).gates@.len() == old(cs).gates@.len() + n
                &&& (match (r, sr) {
                    (Result::Ok(g), Result::Ok(sv)) => sv == ValueV::Boolean(g),
                    (Result::Err(c), Result::Err(sc)) => c == sc,
                    _ => false,
                })
            }),
    {
        match self.get_bool_value(cs, witness, expression) {
            Ok(g) => Ok(cs.not_gate(&g)),
            Err(c) => Err(c),
        }
    }

    /// Resolves both operands (left first) and allocates an OR gate:
    /// exactly the work of resolving `Or(left, right)`.
    pub fn enforce_or(
        &self,
        cs: &mut Sink,
        witness: &Witness,
        left: &BooleanExpression,
        right: &BooleanExpression,
    ) -> (r: Result<GateBool, CircuitError>)
        ensures
            ({
                let (sr, n) = eval_bool(
                    self.env_view(),
                    witness.entries.deep_view(),
                    crate::ast::BooleanExpressionV::Or(
                        Box::new(bool_expr_view(*left)),
                        Box::new(bool_expr_view(*right)),
                    ),
                );
                &&& final(cs).gates@.len() == old(cs).gates@.len() + n
                &&& (match (r, sr) {
                    (Result::Ok(g), Result::Ok(sv)) => sv == ValueV::Boolean(g),
                    (Result::Err(c), Result::Err(sc)) => c == sc,
                    _ => false,
                })
            }),
    {
        let ga = match self.get_bool_value(cs, witness, left) {
            Ok(g) => g,
            Err(c) => {
                return Err(c);
            },
        };
        let gb = match self.get_bool_value(cs, witness, right) {
            Ok(g) => g,
            Err(c) => {
                return Err(c);
            },
        };
        Ok(cs.or_gate(&ga, &gb))
    }

    /// Resolves both operands and allocates an AND gate: exactly the work
    /// of resolving `And(left, right)`.
    pub fn enforce_and(
        &self,
        cs: &mut Sink,
        witness: &Witness,
        left: &BooleanExpression,
        right: &BooleanExpression,
    ) -> (r: Result<GateBool, CircuitError>)
        ensures
            ({
                let (sr, n) = eval_bool(
                    self.env_view(),
                    witness.entries.deep_view(),
                    crate::ast::BooleanExpressionV::And(
                        Box::new(bool_expr_view(*left)),
                        Box::new(bool_expr_view(*right)),
                    ),
                );
                &&& final(cs).gates@.len() == old(cs).gates@.len() + n
                &&& (match (r, sr) {
                    (Result::Ok(g), Result::Ok(sv)) => sv == ValueV::Boolean(g),
                    (Result::Err(c), Result::Err(sc)) => c == sc,
                    _ => false,
                })
            }),
    {
        let ga = match self.get_bool_value(cs, witness, left) {
            Ok(g) => g,
            Err(c) => {
                return Err(c);
            },
        };
        let gb = match self.get_bool_value(cs, witness, right) {
            Ok(g) => g,
            Err(c) => {
                return Err(c);
            },
        };
        Ok(cs.and_gate(&ga, &gb))
    }

    /// Resolves both operands and allocates an unconditional boolean
    /// equality-enforcement gate; the result is the constant `true` unless
    /// the operands' witness values differ, which fails the pass.
    pub fn enforce_bool_equality(
        &self,
        cs: &mut Sink,
        witness: &Witness,
        left: &BooleanExpression,
        right: &BooleanExpression,
    ) -> (r: Result<GateBool, CircuitError>)
        ensures
            ({
                let (sr, n) = eval_bool(
                    self.env_view(),
                    witness.entries.deep_view(),
                    crate::ast::BooleanExpressionV::BoolEq(
                        Box::new(bool_expr_view(*left)),
                        Box::new(bool_expr_view(*right)),
                    ),
                );
                &&& final(cs).gates@.len() == old(cs).gates@.len() + n
                &&& (match (r, sr) {
                    (Result::Ok(g), Result::Ok(sv)) => sv == ValueV::Boolean(g),
                    (Result::Err(c), Result::Err(sc)) => c == sc,
                    _ => false,
                })
            }),
    {
        let ga = match self.get_bool_value(cs, witness, left) {
            Ok(g) => g,
            Err(c) => {
                return Err(c);
            },
        };
        let gb = match self.get_bool_value(cs, witness, right) {
            Ok(g) => g,
            Err(c) => {
                return Err(c);
            },
        };
        cs.enforce_bool_eq(&ga, &gb)
    }

    /// Resolves both operands via the integer resolver and allocates a
    /// conditional equality-enforcement gate whose enforcing condition is
    /// fixed to the constant `true`.
    pub fn enforce_field_equality(
        &self,
        cs: &mut Sink,
        witness: &Witness,
        left: &FieldExpression,
        right: &FieldExpression,
    ) -> (r: Result<GateBool, CircuitError>)
        ensures
            ({
                let (sr, n) = eval_bool(
                    self.env_view(),
                    witness.entries.deep_view(),
                    crate::ast::BooleanExpressionV::FieldEq(
                        Box::new(field_expr_view(*left)),
                        Box::new(field_expr_view(*right)),
                    ),
                );
                &&& final(cs).gates@.len() == old(cs).gates@.len() + n
                &&& (match (r, sr) {
                    (Result::Ok(g), Result::Ok(sv)) => sv == ValueV::Boolean(g),
                    (Result::Err(c), Result::Err(sc)) => c == sc,
                    _ => false,
                })
            }),
    {
        let ga = match self.get_u32_value(cs, witness, left) {
            Ok(g) => g,
            Err(c) => {
                return Err(c);
            },
        };
        let gb = match self.get_u32_value(cs, witness, right) {
            Ok(g) => g,
            Err(c) => {
                return Err(c);
            },
        };
        cs.enforce_field_eq(&ga, &gb)
    }

    /// Resolves both operands and allocates a wrapping addition gate:
    /// exactly the work of resolving `Add(left, right)`.
    pub fn enforce_add(
        &self,
        cs: &mut Sink,
        witness: &Witness,
        left: &FieldExpression,
        right: &FieldExpression,
    ) -> (r: Result<GateUint, CircuitError>)
        ensures
            ({
                let (sr, n) = eval_field(
                    self.env_view(),
                    witness.entries.deep_view(),
                    crate::ast::FieldExpressionV::Add(
                        Box::new(field_expr_view(*left)),
                        Box::new(field_expr_view(*right)),
                    ),
                );
                &&& final(cs).gates@.len() == old(cs).gates@.len() + n
                &&& (match (r, sr) {
                    (Result::Ok(g), Result::Ok(sv)) => sv == ValueV::FieldElement(g),
                    (Result::Err(c), Result::Err(sc)) => c == sc,
                    _ => false,
                })
            }),
    {
        let ga = match self.get_u32_value(cs, witness, left) {
            Ok(g) => g,
            Err(c) => {
                return Err(c);
            },
        };
        let gb = match self.get_u32_value(cs, witness, right) {
            Ok(g) => g,
            Err(c) => {
                return Err(c);
            },
        };
        Ok(cs.add_gate(&ga, &gb))
    }

    /// Resolves both operands and allocates a wrapping subtraction gate.
    pub fn enforce_sub(
        &self,
        cs: &mut Sink,
        witness: &Witness,
        left: &FieldExpression,
        right: &FieldExpression,
    ) -> (r: Result<GateUint, CircuitError>)
        ensures
            ({
                let (sr, n) = eval_field(
                    self.env_view(),
                    witness.entries.deep_view(),
                    crate::ast::FieldExpressionV::Sub(
                        Box::new(field_expr_view(*left)),
                        Box::new(field_expr_view(*right)),
                    ),
                );
                &&& final(cs).gates@.len() == old(cs).gates@.len() + n
                &&& (match (r, sr) {
                    (Result::Ok(g), Result::Ok(sv)) => sv == ValueV::FieldElement(g),
                    (Result::Err(c), Result::Err(sc)) => c == sc,
                    _ => false,
                })
            }),
    {
        let ga = match self.get_u32_value(cs, witness, left) {
            Ok(g) => g,
            Err(c) => {
                return Err(c);
            },
        };
        let gb = match self.get_u32_value(cs, witness, right) {
            Ok(g) => g,
            Err(c) => {
                return Err(c);
            },
        };
        Ok(cs.sub_gate(&ga, &gb))
    }

    /// Resolves both operands and allocates a wrapping multiplication gate.
    pub fn enforce_mul(
        &self,
        cs: &mut Sink,
        witness: &Witness,
        left: &FieldExpression,
        right: &FieldExpression,
    ) -> (r: Result<GateUint, CircuitError>)
        ensures
            ({
                let (sr, n) = eval_field(
                    self.env_view(),
                    witness.entries.deep_view(),
                    crate::ast::FieldExpressionV::Mul(
                        Box::new(field_expr_view(*left)),
                        Box::new(field_expr_view(*right)),
                    ),
                );
                &&& final(cs).gates@.len() == old(cs).gates@.len() + n
                &&& (match (r, sr) {
                    (Result::Ok(g), Result::Ok(sv)) => sv == ValueV::FieldElement(g),
                    (Result::Err(c), Result::Err(sc)) => c == sc,
                    _ => false,
                })
            }),
    {
        let ga = match self.get_u32_value(cs, witness, left) {
            Ok(g) => g,
            Err(c) => {
                return Err(c);
            },
        };
        let gb = match self.get_u32_value(cs, witness, right) {
            Ok(g) => g,
            Err(c) => {
                return Err(c);
            },
        };
        Ok(cs.mul_gate(&ga, &gb))
    }

    /// Resolves both operands and allocates a division gate; division by
    /// zero is a collaborator-level failure and fails the pass.
    pub fn enforce_div(
        &self,
        cs: &mut Sink,
        witness: &Witness,
        left: &FieldExpression,
        right: &FieldExpression,
    ) -> (r: Result<GateUint, CircuitError>)
        ensures
            ({
                let (sr, n) = eval_field(
                    self.env_view(),
                    witness.entries.deep_view(),
                    crate::ast::FieldExpressionV::Div(
                        Box::new(field_expr_view(*left)),
                        Box::new(field_expr_view(*right)),
                    ),
                );
                &&& final(cs).gates@.len() == old(cs).gates@.len() + n
                &&& (match (r, sr) {
                    (Result::Ok(g), Result::Ok(sv)) => sv == ValueV::FieldElement(g),
                    (Result::Err(c), Result::Err(sc)) => c == sc,
                    _ => false,
                })
            }),
    {
        let ga = match self.get_u32_value(cs, witness, left) {
            Ok(g) => g,
            Err(c) => {
                return Err(c);
            },
        };
        let gb = match self.get_u32_value(cs, witness, right) {
            Ok(g) => g,
            Err(c) => {
                return Err(c);
            },
        };
        cs.div_gate(&ga, &gb)
    }

    /// Resolves both operands and allocates an exponentiation gate.
    pub fn enforce_pow(
        &self,
        cs: &mut Sink,
        witness: &Witness,
        left: &FieldExpression,
        right: &FieldExpression,
    ) -> (r: Result<GateUint, CircuitError>)
        ensures
            ({
                let (sr, n) = eval_field(
                    self.env_view(),
                    witness.entries.deep_view(),
                    crate::ast::FieldExpressionV::Pow(
                        Box::new(field_expr_view(*left)),
                        Box::new(field_expr_view(*right)),
                    ),
                );
                &&& final(cs).gates@.len() == old(cs).gates@.len() + n
                &&& (match (r, sr) {
                    (Result::Ok(g), Result::Ok(sv)) => sv == ValueV::FieldElement(g),
                    (Result::Err(c), Result::Err(sc)) => c == sc,
                    _ => false,
                })
            }),
    {
        let ga = match self.get_u32_value(cs, witness, left) {
            Ok(g) => g,
            Err(c) => {
                return Err(c);
            },
        };
        let gb = match self.get_u32_value(cs, witness, right) {
            Ok(g) => g,
            Err(c) => {
                return Err(c);
            },
        };
        Ok(cs.pow_gate(&ga, &gb))
    }

    /// The entry point of the pass: creates a fresh environment, seeds it
    /// with every struct and function declaration (in order, last write
    /// wins on a name collision), then folds the statement driver over the
    /// top-level statements, threading the same environment and sink
    /// through every step.  On success the final environment is returned
    /// for inspection; on failure the whole sink must be discarded.
    pub fn generate_constraints(cs: &mut Sink, witness: &Witness, program: Program) -> (r: Result<
        ResolvedProgram,
        CircuitError,
    >)
        ensures
            ({
                let (sr, n) = eval_program(program_view(program), witness.entries.deep_view());
                &&& final(cs).gates@.len() == old(cs).gates@.len() + n
                &&& (match (r, sr) {
                    (Result::Ok(p), Result::Ok(senv)) => p.env_view() == senv,
                    (Result::Err(c), Result::Err(sc)) => c == sc,
                    _ => false,
                })
            }),
    {
        let mut resolved_program = ResolvedProgram::new();
        let ghost svs = structs_view(program.structs@);
        let ghost fvs = functions_view(program.functions@);
        proof {
            lemma_structs_view_index(program.structs@);
            lemma_functions_view_index(program.functions@);
        }
        let mut idx: usize = 0;
        while idx < program.structs.len()
            invariant
                idx <= program.structs@.len(),
                svs == structs_view(program.structs@),
                svs.len() == program.structs@.len(),
                forall|i: int|
                    0 <= i < program.structs@.len() ==> #[trigger] svs[i] == (
                        program.structs@[i].0.0@,
                        struct_view(program.structs@[i].1),
                    ),
                resolved_program.env_view() == seed_structs(
                    Seq::<(Seq<char>, ValueV)>::empty(),
                    svs.take(idx as int),
                ),
            decreases program.structs@.len() - idx,
        {
            let entry = &program.structs[idx];
            resolved_program.insert(
                entry.0.clone(),
                ResolvedValue::StructDefinition(entry.1.clone()),
            );
            proof {
                lemma_seed_structs_push(
                    Seq::<(Seq<char>, ValueV)>::empty(),
                    svs.take(idx as int),
                    svs[idx as int],
                );
                assert(svs.take(idx as int).push(svs[idx as int]) =~= svs.take(idx + 1));
            }
            idx = idx + 1;
        }
        proof {
            assert(svs.take(program.structs@.len() as int) =~= svs);
        }
        let ghost seeded_structs = resolved_program.env_view();
        let mut idx2: usize = 0;
        while idx2 < program.functions.len()
            invariant
                idx2 <= program.functions@.len(),
                fvs == functions_view(program.functions@),
                fvs.len() == program.functions@.len(),
                forall|i: int|
                    0 <= i < program.functions@.len() ==> #[trigger] fvs[i] == (
                        program.functions@[i].0.0@,
                        function_view(program.functions@[i].1),
                    ),
                resolved_program.env_view() == seed_functions(seeded_structs, fvs.take(idx2 as int)),
            decreases program.functions@.len() - idx2,
        {
            let entry = &program.functions[idx2];
            resolved_program.insert(entry.0.clone(), ResolvedValue::Function(entry.1.clone()));
            proof {
                lemma_seed_functions_push(seeded_structs, fvs.take(idx2 as int), fvs[idx2 as int]);
                assert(fvs.take(idx2 as int).push(fvs[idx2 as int]) =~= fvs.take(idx2 + 1));
            }
            idx2 = idx2 + 1;
        }
        proof {
            assert(fvs.take(program.functions@.len() as int) =~= fvs);
            assert(stmts_view(program.statements@).skip(0) =~= stmts_view(program.statements@));
        }
        match resolved_program.run_statements(cs, witness, &program.statements, 0) {
            Ok(_) => Ok(resolved_program),
            Err(c) => Err(c),
        }
    }
}

/// Seeding commutes with appending one more struct declaration.
pub proof fn lemma_seed_structs_push(
    env: Seq<(Seq<char>, ValueV)>,
    s: Seq<(Seq<char>, crate::ast::StructV)>,
    x: (Seq<char>, crate::ast::StructV),
)
    ensures
        seed_structs(env, s.push(x)) == seed_structs(env, s).push(
            (x.0, ValueV::StructDefinition(x.1)),
        ),
    decreases s.len(),
{
    if s.len() == 0 {
        reveal_with_fuel(seed_structs, 2);
        assert(s.push(x)[0] == x);
        assert(s.push(x).drop_first() =~= Seq::<(Seq<char>, crate::ast::StructV)>::empty());
    } else {
        assert(s.push(x)[0] == s[0]);
        assert(s.push(x).drop_first() =~= s.drop_first().push(x));
        lemma_seed_structs_push(
            env.push((s[0].0, ValueV::StructDefinition(s[0].1))),
            s.drop_first(),
            x,
        );
    }
}

/// Seeding commutes with appending one more function declaration.
pub proof fn lemma_seed_functions_push(
    env: Seq<(Seq<char>, ValueV)>,
    s: Seq<(Seq<char>, crate::ast::FunctionV)>,
    x: (Seq<char>, crate::ast::FunctionV),
)
    ensures
        seed_functions(env, s.push(x)) == seed_functions(env, s).push(
            (x.0, ValueV::Function(x.1)),
        ),
    decreases s.len(),
{
    if s.len() == 0 {
        reveal_with_fuel(seed_functions, 2);
        assert(s.push(x)[0] == x);
        assert(s.push(x).drop_first() =~= Seq::<(Seq<char>, crate::ast::FunctionV)>::empty());
    } else {
        assert(s.push(x)[0] == s[0]);
        assert(s.push(x).drop_first() =~= s.drop_first().push(x));
        lemma_seed_functions_push(
            env.push((s[0].0, ValueV::Function(s[0].1))),
            s.drop_first(),
            x,
        );
    }
}

} // verus!
