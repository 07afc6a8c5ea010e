use leo::ast::BooleanExpression;
use leo::ast::BooleanSpreadOrExpression;
use leo::ast::Expression;
use leo::ast::FieldExpression;
use leo::ast::FieldRangeOrExpression;
use leo::ast::FieldSpreadOrExpression;
use leo::ast::Program;
use leo::ast::Statement;
use leo::ast::Struct;
use leo::ast::StructField;
use leo::ast::StructMember;
use leo::ast::Type;
use leo::ast::Variable;
use leo::constraints::ResolvedProgram;
use leo::errors::CircuitError;
use leo::sink::Sink;
use leo::values::ResolvedValue;
use leo::values::Witness;
use leo::values::WitnessValue;

fn var(name: &str) -> Variable {
    Variable(name.to_string())
}

fn num(n: u32) -> FieldExpression {
    FieldExpression::Number(n)
}

fn field_array(values: &[u32]) -> FieldExpression {
    FieldExpression::Array(
        values
            .iter()
            .map(|v| FieldSpreadOrExpression::FieldExpression(FieldExpression::Number(*v)))
            .collect(),
    )
}

#[test]
fn bool_literal_is_constant_gate() {
    for b in [true, false] {
        let program = ResolvedProgram::new();
        let mut cs = Sink::new();
        let witness = Witness::new();
        let r = program
            .enforce_boolean_expression(&mut cs, &witness, &BooleanExpression::Value(b))
            .unwrap();
        match r {
            ResolvedValue::Boolean(g) => {
                assert!(g.constant);
                assert_eq!(g.value, b);
            }
            _ => panic!("expected a boolean"),
        }
        assert_eq!(cs.num_gates(), 1);
    }
}

#[test]
fn number_literal_is_constant_gate() {
    for n in [0u32, 1, 42, u32::MAX] {
        let program = ResolvedProgram::new();
        let mut cs = Sink::new();
        let witness = Witness::new();
        let r = program
            .enforce_field_expression(&mut cs, &witness, &num(n))
            .unwrap();
        match r {
            ResolvedValue::FieldElement(g) => {
                assert!(g.constant);
                assert_eq!(g.value, n);
            }
            _ => panic!("expected a field element"),
        }
        assert_eq!(cs.num_gates(), 1);
    }
}

#[test]
fn definition_then_variable_reads_back_bound_value() {
    let mut program = ResolvedProgram::new();
    let mut cs = Sink::new();
    let witness = Witness::new();
    program
        .enforce_statement(
            &mut cs,
            &witness,
            &Statement::Definition(var("x"), Expression::Boolean(BooleanExpression::Value(true))),
        )
        .unwrap();
    let gates_before = cs.num_gates();
    let r = program
        .enforce_expression(&mut cs, &witness, &Expression::Variable(var("x")))
        .unwrap();
    match r {
        ResolvedValue::Boolean(g) => {
            assert!(g.constant);
            assert!(g.value);
        }
        _ => panic!("expected a boolean"),
    }
    // re-reading a binding shares its gate and does not allocate a new one
    assert_eq!(cs.num_gates(), gates_before);
}

#[test]
fn bool_eq_equal_values_returns_constant_true() {
    let program = ResolvedProgram::new();
    let mut cs = Sink::new();
    let witness = Witness::new();
    let e = BooleanExpression::BoolEq(
        Box::new(BooleanExpression::Value(true)),
        Box::new(BooleanExpression::Value(true)),
    );
    let r = program
        .enforce_boolean_expression(&mut cs, &witness, &e)
        .unwrap();
    match r {
        ResolvedValue::Boolean(g) => {
            assert!(g.constant);
            assert!(g.value);
        }
        _ => panic!("expected a boolean"),
    }
}

#[test]
fn bool_eq_unequal_values_fails_gate_allocation() {
    let program = ResolvedProgram::new();
    let mut cs = Sink::new();
    let witness = Witness::new();
    let e = BooleanExpression::BoolEq(
        Box::new(BooleanExpression::Value(true)),
        Box::new(BooleanExpression::Value(false)),
    );
    let r = program.enforce_boolean_expression(&mut cs, &witness, &e);
    assert_eq!(r.unwrap_err(), CircuitError::GateAllocationFailure);
}

#[test]
fn field_eq_equal_and_unequal() {
    let program = ResolvedProgram::new();
    let mut cs = Sink::new();
    let witness = Witness::new();
    let ok = BooleanExpression::FieldEq(Box::new(num(3)), Box::new(num(3)));
    match program
        .enforce_boolean_expression(&mut cs, &witness, &ok)
        .unwrap()
    {
        ResolvedValue::Boolean(g) => {
            assert!(g.constant);
            assert!(g.value);
        }
        _ => panic!("expected a boolean"),
    }
    let bad = BooleanExpression::FieldEq(Box::new(num(3)), Box::new(num(4)));
    let r = program.enforce_boolean_expression(&mut cs, &witness, &bad);
    assert_eq!(r.unwrap_err(), CircuitError::GateAllocationFailure);
}

fn slice_values(program: &ResolvedProgram, from: u32, to: u32) -> Vec<u32> {
    let mut cs = Sink::new();
    let witness = Witness::new();
    let access = Expression::ArrayAccess(
        Box::new(Expression::Variable(var("a"))),
        FieldRangeOrExpression::Range(Some(num(from)), Some(num(to))),
    );
    match program.enforce_expression(&mut cs, &witness, &access).unwrap() {
        ResolvedValue::FieldElementArray(arr) => arr.iter().map(|g| g.value).collect(),
        _ => panic!("expected a field element array"),
    }
}

#[test]
fn slicing_decomposes_array() {
    let values = [10u32, 20, 30, 40, 50];
    let n = values.len() as u32;
    let mut program = ResolvedProgram::new();
    let mut cs = Sink::new();
    let witness = Witness::new();
    program
        .enforce_statement(
            &mut cs,
            &witness,
            &Statement::Definition(var("a"), Expression::FieldElement(field_array(&values))),
        )
        .unwrap();
    for k in 0..=n {
        let mut low = slice_values(&program, 0, k);
        let high = slice_values(&program, k, n);
        low.extend(high);
        assert_eq!(low, values.to_vec());
    }
}

#[test]
fn out_of_range_index_fails_never_clamps() {
    let mut program = ResolvedProgram::new();
    let mut cs = Sink::new();
    let witness = Witness::new();
    program
        .enforce_statement(
            &mut cs,
            &witness,
            &Statement::Definition(var("a"), Expression::FieldElement(field_array(&[1, 2, 3]))),
        )
        .unwrap();
    let access = |index: u32| {
        Expression::ArrayAccess(
            Box::new(Expression::Variable(var("a"))),
            FieldRangeOrExpression::FieldExpression(num(index)),
        )
    };
    let mut cs2 = Sink::new();
    let r = program.enforce_expression(&mut cs2, &witness, &access(3));
    assert_eq!(r.unwrap_err(), CircuitError::IndexOutOfRange);
    let mut cs3 = Sink::new();
    match program.enforce_expression(&mut cs3, &witness, &access(2)).unwrap() {
        ResolvedValue::FieldElement(g) => assert_eq!(g.value, 3),
        _ => panic!("expected a field element"),
    }
}

#[test]
fn out_of_range_slice_fails() {
    let mut program = ResolvedProgram::new();
    let mut cs = Sink::new();
    let witness = Witness::new();
    program
        .enforce_statement(
            &mut cs,
            &witness,
            &Statement::Definition(var("a"), Expression::FieldElement(field_array(&[1, 2, 3]))),
        )
        .unwrap();
    let access = Expression::ArrayAccess(
        Box::new(Expression::Variable(var("a"))),
        FieldRangeOrExpression::Range(Some(num(1)), Some(num(4))),
    );
    let r = program.enforce_expression(&mut cs, &witness, &access);
    assert_eq!(r.unwrap_err(), CircuitError::IndexOutOfRange);
}

#[test]
fn if_else_allocates_only_taken_branch() {
    // condition: 1 gate; then-branch: 1 gate; else-branch: 3 gates
    let make = |cond: bool| {
        BooleanExpression::IfElse(
            Box::new(BooleanExpression::Value(cond)),
            Box::new(BooleanExpression::Value(false)),
            Box::new(BooleanExpression::And(
                Box::new(BooleanExpression::Value(true)),
                Box::new(BooleanExpression::Value(true)),
            )),
        )
    };
    let program = ResolvedProgram::new();
    let witness = Witness::new();

    let mut cs_then = Sink::new();
    let r_then = program
        .enforce_boolean_expression(&mut cs_then, &witness, &make(true))
        .unwrap();
    assert_eq!(cs_then.num_gates(), 2);
    match r_then {
        ResolvedValue::Boolean(g) => assert!(!g.value),
        _ => panic!("expected a boolean"),
    }

    let mut cs_else = Sink::new();
    let r_else = program
        .enforce_boolean_expression(&mut cs_else, &witness, &make(false))
        .unwrap();
    assert_eq!(cs_else.num_gates(), 4);
    match r_else {
        ResolvedValue::Boolean(g) => assert!(g.value),
        _ => panic!("expected a boolean"),
    }

    // the result of the taken branch equals resolving that branch alone
    let mut cs_alone = Sink::new();
    let alone = program
        .enforce_boolean_expression(&mut cs_alone, &witness, &BooleanExpression::Value(false))
        .unwrap();
    match (alone, r_then) {
        (ResolvedValue::Boolean(a), ResolvedValue::Boolean(b)) => {
            assert_eq!(a.value, b.value);
            assert_eq!(a.constant, b.constant);
        }
        _ => panic!("expected booleans"),
    }
}

fn point_struct() -> Struct {
    Struct {
        variable: var("Point"),
        fields: vec![
            StructField {
                variable: var("x"),
                ty: Type::FieldElement,
            },
            StructField {
                variable: var("y"),
                ty: Type::FieldElement,
            },
        ],
    }
}

fn point_members(first: &str, second: &str) -> Vec<StructMember> {
    vec![
        StructMember {
            variable: var(first),
            expression: Expression::FieldElement(num(3)),
        },
        StructMember {
            variable: var(second),
            expression: Expression::FieldElement(num(4)),
        },
    ]
}

#[test]
fn struct_member_order_mismatch_fails() {
    let mut program = ResolvedProgram::new();
    let mut cs = Sink::new();
    let witness = Witness::new();
    program.insert(var("Point"), ResolvedValue::StructDefinition(point_struct()));
    let e = Expression::Struct(var("Point"), point_members("y", "x"));
    let r = program.enforce_expression(&mut cs, &witness, &e);
    assert_eq!(r.unwrap_err(), CircuitError::FieldMismatch);
}

#[test]
fn struct_construction_stores_member_list() {
    let mut program = ResolvedProgram::new();
    let mut cs = Sink::new();
    let witness = Witness::new();
    program.insert(var("Point"), ResolvedValue::StructDefinition(point_struct()));
    let e = Expression::Struct(var("Point"), point_members("x", "y"));
    match program.enforce_expression(&mut cs, &witness, &e).unwrap() {
        ResolvedValue::StructExpression(name, members) => {
            assert_eq!(name.0, "Point");
            assert_eq!(members.len(), 2);
            assert_eq!(members[0].variable.0, "x");
            assert_eq!(members[1].variable.0, "y");
            match &members[0].expression {
                Expression::FieldElement(FieldExpression::Number(n)) => assert_eq!(*n, 3),
                _ => panic!("expected the original initializer"),
            }
        }
        _ => panic!("expected a struct instance"),
    }
}

#[test]
fn undefined_struct_fails() {
    let program = ResolvedProgram::new();
    let mut cs = Sink::new();
    let witness = Witness::new();
    let e = Expression::Struct(var("Point"), point_members("x", "y"));
    let r = program.enforce_expression(&mut cs, &witness, &e);
    assert_eq!(r.unwrap_err(), CircuitError::UndefinedName);
}

#[test]
fn struct_name_bound_to_non_definition_fails() {
    let mut program = ResolvedProgram::new();
    let mut cs = Sink::new();
    let witness = Witness::new();
    program.insert(
        var("Point"),
        ResolvedValue::Boolean(leo::sink::GateBool {
            constant: true,
            value: true,
        }),
    );
    let e = Expression::Struct(var("Point"), point_members("x", "y"));
    let r = program.enforce_expression(&mut cs, &witness, &e);
    assert_eq!(r.unwrap_err(), CircuitError::TypeMismatch);
}

#[test]
fn point_program_end_to_end() {
    let program = Program {
        structs: vec![(var("Point"), point_struct())],
        functions: vec![],
        statements: vec![
            Statement::Definition(
                var("p"),
                Expression::Struct(var("Point"), point_members("x", "y")),
            ),
            Statement::Return(vec![Expression::Variable(var("p"))]),
        ],
    };
    let mut cs = Sink::new();
    let witness = Witness::new();
    let resolved = ResolvedProgram::generate_constraints(&mut cs, &witness, program).unwrap();
    let p = resolved.lookup(&"p".to_string()).expect("p must be bound");
    let rendered = p.render().unwrap();
    assert_eq!(rendered, "Point { x: 3, y: 4 }".to_string());
}

#[test]
fn and_program_end_to_end() {
    let program = Program {
        structs: vec![],
        functions: vec![],
        statements: vec![
            Statement::Definition(var("a"), Expression::Boolean(BooleanExpression::Value(true))),
            Statement::Definition(var("b"), Expression::Boolean(BooleanExpression::Value(false))),
            Statement::Definition(
                var("c"),
                Expression::Boolean(BooleanExpression::And(
                    Box::new(BooleanExpression::Variable(var("a"))),
                    Box::new(BooleanExpression::Variable(var("b"))),
                )),
            ),
            Statement::Return(vec![Expression::Variable(var("c"))]),
        ],
    };
    let mut cs = Sink::new();
    let witness = Witness::new();
    let resolved = ResolvedProgram::generate_constraints(&mut cs, &witness, program).unwrap();
    match resolved.lookup(&"c".to_string()).expect("c must be bound") {
        ResolvedValue::Boolean(g) => {
            assert!(!g.value);
            assert!(g.constant);
        }
        _ => panic!("expected a boolean"),
    }
}

#[test]
fn unbound_variable_without_witness_is_missing() {
    let program = ResolvedProgram::new();
    let mut cs = Sink::new();
    let witness = Witness::new();
    let r = program.enforce_boolean_expression(
        &mut cs,
        &witness,
        &BooleanExpression::Variable(var("x")),
    );
    assert_eq!(r.unwrap_err(), CircuitError::MissingWitness);
}

#[test]
fn unbound_variable_draws_from_witness_as_input_gate() {
    let program = ResolvedProgram::new();
    let mut cs = Sink::new();
    let mut witness = Witness::new();
    witness.provide("x".to_string(), WitnessValue::Boolean(true));
    match program
        .enforce_boolean_expression(&mut cs, &witness, &BooleanExpression::Variable(var("x")))
        .unwrap()
    {
        ResolvedValue::Boolean(g) => {
            assert!(!g.constant);
            assert!(g.value);
        }
        _ => panic!("expected a boolean"),
    }
    assert_eq!(cs.num_gates(), 1);
}

#[test]
fn witness_of_wrong_kind_is_missing() {
    let program = ResolvedProgram::new();
    let mut cs = Sink::new();
    let mut witness = Witness::new();
    witness.provide("x".to_string(), WitnessValue::FieldElement(1));
    let r = program.enforce_boolean_expression(
        &mut cs,
        &witness,
        &BooleanExpression::Variable(var("x")),
    );
    assert_eq!(r.unwrap_err(), CircuitError::MissingWitness);
}

#[test]
fn latest_witness_entry_wins() {
    let program = ResolvedProgram::new();
    let mut cs = Sink::new();
    let mut witness = Witness::new();
    witness.provide("n".to_string(), WitnessValue::FieldElement(1));
    witness.provide("n".to_string(), WitnessValue::FieldElement(7));
    match program
        .enforce_field_expression(&mut cs, &witness, &FieldExpression::Variable(var("n")))
        .unwrap()
    {
        ResolvedValue::FieldElement(g) => {
            assert!(!g.constant);
            assert_eq!(g.value, 7);
        }
        _ => panic!("expected a field element"),
    }
}

#[test]
fn bound_variable_of_wrong_kind_is_type_mismatch() {
    let mut program = ResolvedProgram::new();
    let mut cs = Sink::new();
    let witness = Witness::new();
    program
        .enforce_statement(
            &mut cs,
            &witness,
            &Statement::Definition(var("x"), Expression::FieldElement(num(1))),
        )
        .unwrap();
    let r = program.enforce_boolean_expression(
        &mut cs,
        &witness,
        &BooleanExpression::Variable(var("x")),
    );
    assert_eq!(r.unwrap_err(), CircuitError::TypeMismatch);
}

#[test]
fn spread_elements_are_unsupported() {
    let program = ResolvedProgram::new();
    let mut cs = Sink::new();
    let witness = Witness::new();
    let e = BooleanExpression::Array(vec![BooleanSpreadOrExpression::Spread(var("xs"))]);
    let r = program.enforce_boolean_expression(&mut cs, &witness, &e);
    assert_eq!(r.unwrap_err(), CircuitError::Unsupported);
}

#[test]
fn returning_a_struct_is_unsupported() {
    let mut program = ResolvedProgram::new();
    let mut cs = Sink::new();
    let witness = Witness::new();
    program.insert(var("Point"), ResolvedValue::StructDefinition(point_struct()));
    let r = program.enforce_statement(
        &mut cs,
        &witness,
        &Statement::Return(vec![Expression::Struct(var("Point"), point_members("x", "y"))]),
    );
    assert_eq!(r.unwrap_err(), CircuitError::Unsupported);
}

#[test]
fn returning_an_unbound_variable_is_undefined() {
    let mut program = ResolvedProgram::new();
    let mut cs = Sink::new();
    let witness = Witness::new();
    let r = program.enforce_statement(
        &mut cs,
        &witness,
        &Statement::Return(vec![Expression::Variable(var("ghostly"))]),
    );
    assert_eq!(r.unwrap_err(), CircuitError::UndefinedName);
}

#[test]
fn rebinding_overwrites() {
    let mut program = ResolvedProgram::new();
    let mut cs = Sink::new();
    let witness = Witness::new();
    program
        .enforce_statement(
            &mut cs,
            &witness,
            &Statement::Definition(var("x"), Expression::FieldElement(num(1))),
        )
        .unwrap();
    program
        .enforce_statement(
            &mut cs,
            &witness,
            &Statement::Definition(var("x"), Expression::FieldElement(num(2))),
        )
        .unwrap();
    match program.lookup(&"x".to_string()).unwrap() {
        ResolvedValue::FieldElement(g) => assert_eq!(g.value, 2),
        _ => panic!("expected a field element"),
    }
}

fn eval_arith(e: &FieldExpression) -> Result<u32, CircuitError> {
    let program = ResolvedProgram::new();
    let mut cs = Sink::new();
    let witness = Witness::new();
    match program.enforce_field_expression(&mut cs, &witness, e)? {
        ResolvedValue::FieldElement(g) => Ok(g.value),
        _ => Err(CircuitError::TypeMismatch),
    }
}

#[test]
fn arithmetic_gates_compute_wrapping_results() {
    let bin = |f: fn(Box<FieldExpression>, Box<FieldExpression>) -> FieldExpression,
               a: u32,
               b: u32| f(Box::new(num(a)), Box::new(num(b)));
    assert_eq!(eval_arith(&bin(FieldExpression::Add, 2, 3)).unwrap(), 5);
    assert_eq!(eval_arith(&bin(FieldExpression::Add, u32::MAX, 1)).unwrap(), 0);
    assert_eq!(eval_arith(&bin(FieldExpression::Sub, 10, 4)).unwrap(), 6);
    assert_eq!(eval_arith(&bin(FieldExpression::Sub, 0, 1)).unwrap(), u32::MAX);
    assert_eq!(eval_arith(&bin(FieldExpression::Mul, 6, 7)).unwrap(), 42);
    assert_eq!(
        eval_arith(&bin(FieldExpression::Mul, 1 << 16, 1 << 16)).unwrap(),
        0
    );
    assert_eq!(eval_arith(&bin(FieldExpression::Div, 7, 2)).unwrap(), 3);
    assert_eq!(eval_arith(&bin(FieldExpression::Pow, 2, 10)).unwrap(), 1024);
    assert_eq!(eval_arith(&bin(FieldExpression::Pow, 5, 0)).unwrap(), 1);
    assert_eq!(eval_arith(&bin(FieldExpression::Pow, 2, 32)).unwrap(), 0);
}

#[test]
fn division_by_zero_fails_gate_allocation() {
    let e = FieldExpression::Div(Box::new(num(1)), Box::new(num(0)));
    assert_eq!(eval_arith(&e).unwrap_err(), CircuitError::GateAllocationFailure);
}

#[test]
fn boolean_gates_compute_expected_values() {
    let program = ResolvedProgram::new();
    let witness = Witness::new();
    let cases: Vec<(BooleanExpression, bool)> = vec![
        (
            BooleanExpression::Not(Box::new(BooleanExpression::Value(true))),
            false,
        ),
        (
            BooleanExpression::Or(
                Box::new(BooleanExpression::Value(false)),
                Box::new(BooleanExpression::Value(true)),
            ),
            true,
        ),
        (
            BooleanExpression::And(
                Box::new(BooleanExpression::Value(true)),
                Box::new(BooleanExpression::Value(false)),
            ),
            false,
        ),
    ];
    for (e, expected) in cases {
        let mut cs = Sink::new();
        match program.enforce_boolean_expression(&mut cs, &witness, &e).unwrap() {
            ResolvedValue::Boolean(g) => assert_eq!(g.value, expected),
            _ => panic!("expected a boolean"),
        }
    }
}

#[test]
fn standalone_enforcement_helpers_agree() {
    let program = ResolvedProgram::new();
    let witness = Witness::new();
    let mut cs = Sink::new();
    let g = program
        .enforce_or(
            &mut cs,
            &witness,
            &BooleanExpression::Value(false),
            &BooleanExpression::Value(true),
        )
        .unwrap();
    assert!(g.value);
    let g = program
        .enforce_and(
            &mut cs,
            &witness,
            &BooleanExpression::Value(true),
            &BooleanExpression::Value(true),
        )
        .unwrap();
    assert!(g.value);
    let g = program
        .enforce_not(&mut cs, &witness, &BooleanExpression::Value(false))
        .unwrap();
    assert!(g.value);
    let g = program
        .enforce_add(&mut cs, &witness, &num(20), &num(22))
        .unwrap();
    assert_eq!(g.value, 42);
    let g = program
        .enforce_sub(&mut cs, &witness, &num(50), &num(8))
        .unwrap();
    assert_eq!(g.value, 42);
    let g = program
        .enforce_mul(&mut cs, &witness, &num(6), &num(7))
        .unwrap();
    assert_eq!(g.value, 42);
    let g = program
        .enforce_div(&mut cs, &witness, &num(85), &num(2))
        .unwrap();
    assert_eq!(g.value, 42);
    let g = program
        .enforce_pow(&mut cs, &witness, &num(3), &num(4))
        .unwrap();
    assert_eq!(g.value, 81);
    let r = program.enforce_bool_equality(
        &mut cs,
        &witness,
        &BooleanExpression::Value(true),
        &BooleanExpression::Value(true),
    );
    assert!(r.unwrap().value);
    let r = program.enforce_field_equality(&mut cs, &witness, &num(1), &num(2));
    assert_eq!(r.unwrap_err(), CircuitError::GateAllocationFailure);
}

#[test]
fn declarations_seed_environment_with_last_write_winning() {
    let first = Struct {
        variable: var("Point"),
        fields: vec![StructField {
            variable: var("only"),
            ty: Type::Boolean,
        }],
    };
    let program = Program {
        structs: vec![(var("Point"), first), (var("Point"), point_struct())],
        functions: vec![],
        statements: vec![Statement::Definition(
            var("p"),
            Expression::Struct(var("Point"), point_members("x", "y")),
        )],
    };
    let mut cs = Sink::new();
    let witness = Witness::new();
    // the second declaration (with fields x, y) must be the one in effect
    let resolved = ResolvedProgram::generate_constraints(&mut cs, &witness, program).unwrap();
    assert!(resolved.lookup(&"p".to_string()).is_some());
}

#[test]
fn failing_statement_aborts_the_pass() {
    let program = Program {
        structs: vec![],
        functions: vec![],
        statements: vec![
            Statement::Definition(
                var("x"),
                Expression::FieldElement(FieldExpression::Div(Box::new(num(1)), Box::new(num(0)))),
            ),
            Statement::Definition(var("y"), Expression::FieldElement(num(5))),
        ],
    };
    let mut cs = Sink::new();
    let witness = Witness::new();
    let r = ResolvedProgram::generate_constraints(&mut cs, &witness, program);
    assert_eq!(r.unwrap_err(), CircuitError::GateAllocationFailure);
}
