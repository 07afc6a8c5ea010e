use leo::ast::BooleanExpression;
use leo::ast::Expression;
use leo::ast::FieldExpression;
use leo::ast::StructMember;
use leo::ast::Variable;
use leo::render::bool_string;
use leo::render::u32_string;
use leo::sink::GateBool;
use leo::sink::GateUint;
use leo::text::render_expression;
use leo::values::ResolvedValue;

fn gate_u(value: u32) -> GateUint {
    GateUint {
        constant: true,
        value,
    }
}

fn gate_b(value: bool) -> GateBool {
    GateBool {
        constant: true,
        value,
    }
}

#[test]
fn decimal_rendering_is_exact() {
    assert_eq!(u32_string(0), "0".to_string());
    assert_eq!(u32_string(7), "7".to_string());
    assert_eq!(u32_string(10), "10".to_string());
    assert_eq!(u32_string(1234567890), "1234567890".to_string());
    assert_eq!(u32_string(u32::MAX), "4294967295".to_string());
}

#[test]
fn boolean_rendering_is_exact() {
    assert_eq!(bool_string(true), "true".to_string());
    assert_eq!(bool_string(false), "false".to_string());
}

#[test]
fn scalar_values_render() {
    assert_eq!(
        ResolvedValue::Boolean(gate_b(true)).render().unwrap(),
        "true".to_string()
    );
    assert_eq!(
        ResolvedValue::FieldElement(gate_u(42)).render().unwrap(),
        "42".to_string()
    );
}

#[test]
fn arrays_render_bracketed_and_comma_separated() {
    let bools = ResolvedValue::BooleanArray(vec![gate_b(true), gate_b(false)]);
    assert_eq!(bools.render().unwrap(), "[true, false]".to_string());
    let uints = ResolvedValue::FieldElementArray(vec![gate_u(1), gate_u(2), gate_u(3)]);
    assert_eq!(uints.render().unwrap(), "[1, 2, 3]".to_string());
    let empty = ResolvedValue::FieldElementArray(vec![]);
    assert_eq!(empty.render().unwrap(), "[]".to_string());
}

#[test]
fn struct_instances_render_in_declaration_order() {
    let value = ResolvedValue::StructExpression(
        Variable("Point".to_string()),
        vec![
            StructMember {
                variable: Variable("x".to_string()),
                expression: Expression::FieldElement(FieldExpression::Number(3)),
            },
            StructMember {
                variable: Variable("y".to_string()),
                expression: Expression::FieldElement(FieldExpression::Number(4)),
            },
        ],
    );
    assert_eq!(value.render().unwrap(), "Point { x: 3, y: 4 }".to_string());
}

#[test]
fn declarations_have_no_rendering() {
    let f = ResolvedValue::Function(leo::ast::Function {
        variable: Variable("main".to_string()),
        statements: vec![],
    });
    assert_eq!(f.render().unwrap_err(), leo::errors::CircuitError::Unsupported);
}

#[test]
fn expressions_render() {
    let e = Expression::Boolean(BooleanExpression::And(
        Box::new(BooleanExpression::Variable(Variable("a".to_string()))),
        Box::new(BooleanExpression::Not(Box::new(BooleanExpression::Value(
            false,
        )))),
    ));
    assert_eq!(render_expression(&e), "a && !false".to_string());
    let sum = Expression::FieldElement(FieldExpression::Add(
        Box::new(FieldExpression::Number(1)),
        Box::new(FieldExpression::Number(2)),
    ));
    assert_eq!(render_expression(&sum), "1 + 2".to_string());
}
