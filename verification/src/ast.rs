//! The resolved program tree that constraint generation consumes, together
//! with its mathematical mirror: every node has a deep view in which names
//! are character sequences and lists are sequences, so that contracts can
//! speak about program trees up to structural equality.

use vstd::prelude::*;

verus! {

broadcast use vstd::std_specs::vec::group_vec_axioms;

// ---------------------------------------------------------------------------
// Mathematical mirror of the tree
// ---------------------------------------------------------------------------
/// The declared type of a struct field.
#[derive(Clone, Copy, Debug, PartialEq, Eq, Structural)]
pub enum Type {
    Boolean,
    FieldElement,
}

/// Mirror of a boolean-typed expression.
pub enum BooleanExpressionV {
    Variable(Seq<char>),
    Value(bool),
    Not(Box<BooleanExpressionV>),
    Or(Box<BooleanExpressionV>, Box<BooleanExpressionV>),
    And(Box<BooleanExpressionV>, Box<BooleanExpressionV>),
    BoolEq(Box<BooleanExpressionV>, Box<BooleanExpressionV>),
    FieldEq(Box<FieldExpressionV>, Box<FieldExpressionV>),
    IfElse(Box<BooleanExpressionV>, Box<BooleanExpressionV>, Box<BooleanExpressionV>),
    Array(Seq<BooleanSpreadOrExpressionV>),
}

/// Mirror of one element of a boolean array literal.
pub enum BooleanSpreadOrExpressionV {
    Spread(Seq<char>),
    BooleanExpression(BooleanExpressionV),
}

/// Mirror of a fixed-width-integer-typed expression.
pub enum FieldExpressionV {
    Variable(Seq<char>),
    Number(u32),
    Add(Box<FieldExpressionV>, Box<FieldExpressionV>),
    Sub(Box<FieldExpressionV>, Box<FieldExpressionV>),
    Mul(Box<FieldExpressionV>, Box<FieldExpressionV>),
    Div(Box<FieldExpressionV>, Box<FieldExpressionV>),
    Pow(Box<FieldExpressionV>, Box<FieldExpressionV>),
    IfElse(Box<BooleanExpressionV>, Box<FieldExpressionV>, Box<FieldExpressionV>),
    Array(Seq<FieldSpreadOrExpressionV>),
}

/// Mirror of one element of an integer array literal.
pub enum FieldSpreadOrExpressionV {
    Spread(Seq<char>),
    FieldExpression(FieldExpressionV),
}

/// Mirror of an array-access index: a single index or a `(from?, to?)` range.
pub enum FieldRangeOrExpressionV {
    Range(Option<FieldExpressionV>, Option<FieldExpressionV>),
    FieldExpression(FieldExpressionV),
}

/// Mirror of a general expression.
pub enum ExpressionV {
    Boolean(BooleanExpressionV),
    FieldElement(FieldExpressionV),
    Variable(Seq<char>),
    Struct(Seq<char>, Seq<StructMemberV>),
    ArrayAccess(Box<ExpressionV>, FieldRangeOrExpressionV),
}

/// Mirror of one `field: expression` member of a struct literal.
pub struct StructMemberV {
    pub name: Seq<char>,
    pub expression: ExpressionV,
}

/// Mirror of one declared struct field.
pub struct StructFieldV {
    pub name: Seq<char>,
    pub ty: Type,
}

/// Mirror of a struct declaration.
pub struct StructV {
    pub name: Seq<char>,
    pub fields: Seq<StructFieldV>,
}

/// Mirror of a top-level statement.
pub enum StatementV {
    Definition(Seq<char>, ExpressionV),
    Return(Seq<ExpressionV>),
}

/// Mirror of a function declaration.
pub struct FunctionV {
    pub name: Seq<char>,
    pub statements: Seq<StatementV>,
}

/// Mirror of a whole program.
pub struct ProgramV {
    pub structs: Seq<(Seq<char>, StructV)>,
    pub functions: Seq<(Seq<char>, FunctionV)>,
    pub statements: Seq<StatementV>,
}

// ---------------------------------------------------------------------------
// The executable tree
// ---------------------------------------------------------------------------
/// An opaque identifier; equality is exact string equality.
#[derive(Debug)]
pub struct Variable(pub String);

/// A boolean-typed expression node.
#[derive(Debug)]
pub enum BooleanExpression {
    Variable(Variable),
    Value(bool),
    Not(Box<BooleanExpression>),
    Or(Box<BooleanExpression>, Box<BooleanExpression>),
    And(Box<BooleanExpression>, Box<BooleanExpression>),
    BoolEq(Box<BooleanExpression>, Box<BooleanExpression>),
    FieldEq(Box<FieldExpression>, Box<FieldExpression>),
    IfElse(Box<BooleanExpression>, Box<BooleanExpression>, Box<BooleanExpression>),
    Array(Vec<BooleanSpreadOrExpression>),
}

/// One element of a boolean array literal: a spread marker or an expression.
#[derive(Debug)]
pub enum BooleanSpreadOrExpression {
    Spread(Variable),
    BooleanExpression(BooleanExpression),
}

/// A fixed-width-integer-typed expression node.
#[derive(Debug)]
pub enum FieldExpression {
    Variable(Variable),
    Number(u32),
    Add(Box<FieldExpression>, Box<FieldExpression>),
    Sub(Box<FieldExpression>, Box<FieldExpression>),
    Mul(Box<FieldExpression>, Box<FieldExpression>),
    Div(Box<FieldExpression>, Box<FieldExpression>),
    Pow(Box<FieldExpression>, Box<FieldExpression>),
    IfElse(Box<BooleanExpression>, Box<FieldExpression>, Box<FieldExpression>),
    Array(Vec<FieldSpreadOrExpression>),
}

/// One element of an integer array literal.
#[derive(Debug)]
pub enum FieldSpreadOrExpression {
    Spread(Variable),
    FieldExpression(FieldExpression),
}

/// An array-access index specifier.
#[derive(Debug)]
pub enum FieldRangeOrExpression {
    Range(Option<FieldExpression>, Option<FieldExpression>),
    FieldExpression(FieldExpression),
}

/// A general expression node.
#[derive(Debug)]
pub enum Expression {
    Boolean(BooleanExpression),
    FieldElement(FieldExpression),
    Variable(Variable),
    Struct(Variable, Vec<StructMember>),
    ArrayAccess(Box<Expression>, FieldRangeOrExpression),
}

/// One `field: expression` member of a struct literal.
#[derive(Debug)]
pub struct StructMember {
    pub variable: Variable,
    pub expression: Expression,
}

/// One declared field of a struct.
#[derive(Debug)]
pub struct StructField {
    pub variable: Variable,
    pub ty: Type,
}

/// A struct declaration.
#[derive(Debug)]
pub struct Struct {
    pub variable: Variable,
    pub fields: Vec<StructField>,
}

/// A top-level statement.
#[derive(Debug)]
pub enum Statement {
    Definition(Variable, Expression),
    Return(Vec<Expression>),
}

/// A function declaration; stored in the environment but never invoked by
/// the current driver (call dispatch is out of scope).
#[derive(Debug)]
pub struct Function {
    pub variable: Variable,
    pub statements: Vec<Statement>,
}

/// A whole resolved program: ordered struct and function declarations and
/// the top-level statement sequence.  Constraint generation consumes it.
#[derive(Debug)]
pub struct Program {
    pub structs: Vec<(Variable, Struct)>,
    pub functions: Vec<(Variable, Function)>,
    pub statements: Vec<Statement>,
}

// ---------------------------------------------------------------------------
// Views
// ---------------------------------------------------------------------------
/// Mirror of a boolean expression.
pub open spec fn bool_expr_view(e: BooleanExpression) -> BooleanExpressionV
    decreases e,
{
    match e {
        BooleanExpression::Variable(v) => BooleanExpressionV::Variable(v.0@),
        BooleanExpression::Value(b) => BooleanExpressionV::Value(b),
        BooleanExpression::Not(a) => BooleanExpressionV::Not(Box::new(bool_expr_view(*a))),
        BooleanExpression::Or(a, b) => BooleanExpressionV::Or(
            Box::new(bool_expr_view(*a)),
            Box::new(bool_expr_view(*b)),
        ),
        BooleanExpression::And(a, b) => BooleanExpressionV::And(
            Box::new(bool_expr_view(*a)),
            Box::new(bool_expr_view(*b)),
        ),
        BooleanExpression::BoolEq(a, b) => BooleanExpressionV::BoolEq(
            Box::new(bool_expr_view(*a)),
            Box::new(bool_expr_view(*b)),
        ),
        BooleanExpression::FieldEq(a, b) => BooleanExpressionV::FieldEq(
            Box::new(field_expr_view(*a)),
            Box::new(field_expr_view(*b)),
        ),
        BooleanExpression::IfElse(c, t, f) => BooleanExpressionV::IfElse(
            Box::new(bool_expr_view(*c)),
            Box::new(bool_expr_view(*t)),
            Box::new(bool_expr_view(*f)),
        ),
        BooleanExpression::Array(elems) => BooleanExpressionV::Array(bool_elems_view(elems@)),
    }
}

/// Mirror of one element of a boolean array literal.
pub open spec fn bool_elem_view(e: BooleanSpreadOrExpression) -> BooleanSpreadOrExpressionV
    decreases e,
{
    match e {
        BooleanSpreadOrExpression::Spread(v) => BooleanSpreadOrExpressionV::Spread(v.0@),
        BooleanSpreadOrExpression::BooleanExpression(inner) => {
            BooleanSpreadOrExpressionV::BooleanExpression(bool_expr_view(inner))
        },
    }
}

/// Mirror of the elements of a boolean array literal.
pub open spec fn bool_elems_view(s: Seq<BooleanSpreadOrExpression>) -> Seq<
    BooleanSpreadOrExpressionV,
>
    decreases s,
{
    if s.len() == 0 {
        Seq::empty()
    } else {
        bool_elems_view(s.drop_last()).push(bool_elem_view(s.last()))
    }
}

/// Mirror of an integer expression.
pub open spec fn field_expr_view(e: FieldExpression) -> FieldExpressionV
    decreases e,
{
    match e {
        FieldExpression::Variable(v) => FieldExpressionV::Variable(v.0@),
        FieldExpression::Number(n) => FieldExpressionV::Number(n),
        FieldExpression::Add(a, b) => FieldExpressionV::Add(
            Box::new(field_expr_view(*a)),
            Box::new(field_expr_view(*b)),
        ),
        FieldExpression::Sub(a, b) => FieldExpressionV::Sub(
            Box::new(field_expr_view(*a)),
            Box::new(field_expr_view(*b)),
        ),
        FieldExpression::Mul(a, b) => FieldExpressionV::Mul(
            Box::new(field_expr_view(*a)),
            Box::new(field_expr_view(*b)),
        ),
        FieldExpression::Div(a, b) => FieldExpressionV::Div(
            Box::new(field_expr_view(*a)),
            Box::new(field_expr_view(*b)),
        ),
        FieldExpression::Pow(a, b) => FieldExpressionV::Pow(
            Box::new(field_expr_view(*a)),
            Box::new(field_expr_view(*b)),
        ),
        FieldExpression::IfElse(c, t, f) => FieldExpressionV::IfElse(
            Box::new(bool_expr_view(*c)),
            Box::new(field_expr_view(*t)),
            Box::new(field_expr_view(*f)),
        ),
        FieldExpression::Array(elems) => FieldExpressionV::Array(field_elems_view(elems@)),
    }
}

/// Mirror of one element of an integer array literal.
pub open spec fn field_elem_view(e: FieldSpreadOrExpression) -> FieldSpreadOrExpressionV
    decreases e,
{
    match e {
        FieldSpreadOrExpression::Spread(v) => FieldSpreadOrExpressionV::Spread(v.0@),
        FieldSpreadOrExpression::FieldExpression(inner) => {
            FieldSpreadOrExpressionV::FieldExpression(field_expr_view(inner))
        },
    }
}

/// Mirror of the elements of an integer array literal.
pub open spec fn field_elems_view(s: Seq<FieldSpreadOrExpression>) -> Seq<FieldSpreadOrExpressionV>
    decreases s,
{
    if s.len() == 0 {
        Seq::empty()
    } else {
        field_elems_view(s.drop_last()).push(field_elem_view(s.last()))
    }
}

/// Mirror of an array-access index specifier.
pub open spec fn range_or_expr_view(r: FieldRangeOrExpression) -> FieldRangeOrExpressionV
    decreases r,
{
    match r {
        FieldRangeOrExpression::Range(from, to) => FieldRangeOrExpressionV::Range(
            match from {
                Option::Some(e) => Option::Some(field_expr_view(e)),
                Option::None => Option::None,
            },
            match to {
                Option::Some(e) => Option::Some(field_expr_view(e)),
                Option::None => Option::None,
            },
        ),
        FieldRangeOrExpression::FieldExpression(e) => FieldRangeOrExpressionV::FieldExpression(
            field_expr_view(e),
        ),
    }
}

/// Mirror of a general expression.
pub open spec fn expr_view(e: Expression) -> ExpressionV
    decreases e,
{
    match e {
        Expression::Boolean(b) => ExpressionV::Boolean(bool_expr_view(b)),
        Expression::FieldElement(f) => ExpressionV::FieldElement(field_expr_view(f)),
        Expression::Variable(v) => ExpressionV::Variable(v.0@),
        Expression::Struct(name, members) => ExpressionV::Struct(name.0@, members_view(members@)),
        Expression::ArrayAccess(a, idx) => ExpressionV::ArrayAccess(
            Box::new(expr_view(*a)),
            range_or_expr_view(idx),
        ),
    }
}

/// Mirror of one struct-literal member.
pub open spec fn member_view(m: StructMember) -> StructMemberV
    decreases m,
{
    StructMemberV { name: m.variable.0@, expression: expr_view(m.expression) }
}

/// Mirror of a struct literal's member list.
pub open spec fn members_view(s: Seq<StructMember>) -> Seq<StructMemberV>
    decreases s,
{
    if s.len() == 0 {
        Seq::empty()
    } else {
        members_view(s.drop_last()).push(member_view(s.last()))
    }
}

/// Mirror of one declared struct field.
pub open spec fn struct_field_view(f: StructField) -> StructFieldV {
    StructFieldV { name: f.variable.0@, ty: f.ty }
}

/// Mirror of a struct declaration's field list.
pub open spec fn struct_fields_view(s: Seq<StructField>) -> Seq<StructFieldV>
    decreases s,
{
    if s.len() == 0 {
        Seq::empty()
    } else {
        struct_fields_view(s.drop_last()).push(struct_field_view(s.last()))
    }
}

/// Mirror of a struct declaration.
pub open spec fn struct_view(s: Struct) -> StructV {
    StructV { name: s.variable.0@, fields: struct_fields_view(s.fields@) }
}

/// Mirror of a statement.
pub open spec fn stmt_view(s: Statement) -> StatementV
    decreases s,
{
    match s {
        Statement::Definition(v, e) => StatementV::Definition(v.0@, expr_view(e)),
        Statement::Return(es) => StatementV::Return(exprs_view(es@)),
    }
}

/// Mirror of an expression list.
pub open spec fn exprs_view(s: Seq<Expression>) -> Seq<ExpressionV>
    decreases s,
{
    if s.len() == 0 {
        Seq::empty()
    } else {
        exprs_view(s.drop_last()).push(expr_view(s.last()))
    }
}

/// Mirror of a statement list.
pub open spec fn stmts_view(s: Seq<Statement>) -> Seq<StatementV>
    decreases s,
{
    if s.len() == 0 {
        Seq::empty()
    } else {
        stmts_view(s.drop_last()).push(stmt_view(s.last()))
    }
}

/// Mirror of a function declaration.
pub open spec fn function_view(f: Function) -> FunctionV
    decreases f,
{
    FunctionV { name: f.variable.0@, statements: stmts_view(f.statements@) }
}

/// Mirror of the struct-declaration list.
pub open spec fn structs_view(s: Seq<(Variable, Struct)>) -> Seq<(Seq<char>, StructV)>
    decreases s,
{
    if s.len() == 0 {
        Seq::empty()
    } else {
        structs_view(s.drop_last()).push((s.last().0.0@, struct_view(s.last().1)))
    }
}

/// Mirror of the function-declaration list.
pub open spec fn functions_view(s: Seq<(Variable, Function)>) -> Seq<(Seq<char>, FunctionV)>
    decreases s,
{
    if s.len() == 0 {
        Seq::empty()
    } else {
        functions_view(s.drop_last()).push((s.last().0.0@, function_view(s.last().1)))
    }
}

/// Mirror of a whole program.
pub open spec fn program_view(p: Program) -> ProgramV {
    ProgramV {
        structs: structs_view(p.structs@),
        functions: functions_view(p.functions@),
        statements: stmts_view(p.statements@),
    }
}

impl DeepView for Variable {
    type V = Seq<char>;

    open spec fn deep_view(&self) -> Seq<char> {
        self.0@
    }
}

impl DeepView for BooleanExpression {
    type V = BooleanExpressionV;

    open spec fn deep_view(&self) -> BooleanExpressionV {
        bool_expr_view(*self)
    }
}

impl DeepView for FieldExpression {
    type V = FieldExpressionV;

    open spec fn deep_view(&self) -> FieldExpressionV {
        field_expr_view(*self)
    }
}

impl DeepView for Expression {
    type V = ExpressionV;

    open spec fn deep_view(&self) -> ExpressionV {
        expr_view(*self)
    }
}

impl DeepView for StructMember {
    type V = StructMemberV;

    open spec fn deep_view(&self) -> StructMemberV {
        member_view(*self)
    }
}

impl DeepView for BooleanSpreadOrExpression {
    type V = BooleanSpreadOrExpressionV;

    open spec fn deep_view(&self) -> BooleanSpreadOrExpressionV {
        bool_elem_view(*self)
    }
}

impl DeepView for FieldSpreadOrExpression {
    type V = FieldSpreadOrExpressionV;

    open spec fn deep_view(&self) -> FieldSpreadOrExpressionV {
        field_elem_view(*self)
    }
}

impl DeepView for FieldRangeOrExpression {
    type V = FieldRangeOrExpressionV;

    open spec fn deep_view(&self) -> FieldRangeOrExpressionV {
        range_or_expr_view(*self)
    }
}

impl DeepView for StructField {
    type V = StructFieldV;

    open spec fn deep_view(&self) -> StructFieldV {
        struct_field_view(*self)
    }
}

impl DeepView for Struct {
    type V = StructV;

    open spec fn deep_view(&self) -> StructV {
        struct_view(*self)
    }
}

impl DeepView for Statement {
    type V = StatementV;

    open spec fn deep_view(&self) -> StatementV {
        stmt_view(*self)
    }
}

impl DeepView for Function {
    type V = FunctionV;

    open spec fn deep_view(&self) -> FunctionV {
        function_view(*self)
    }
}

impl DeepView for Program {
    type V = ProgramV;

    open spec fn deep_view(&self) -> ProgramV {
        program_view(*self)
    }
}

// ---------------------------------------------------------------------------
// Indexing lemmas for the list views
// ---------------------------------------------------------------------------
/// The mirror of a member list has the same length and mirrors elementwise.
pub proof fn lemma_members_view_index(s: Seq<StructMember>)
    ensures
        members_view(s).len() == s.len(),
        forall|i: int|
            0 <= i < s.len() ==> #[trigger] members_view(s)[i] == member_view(s[i]),
    decreases s.len(),
{
    if s.len() > 0 {
        lemma_members_view_index(s.drop_last());
    }
}

/// The mirror of a boolean-element list mirrors elementwise.
pub proof fn lemma_bool_elems_view_index(s: Seq<BooleanSpreadOrExpression>)
    ensures
        bool_elems_view(s).len() == s.len(),
        forall|i: int|
            0 <= i < s.len() ==> #[trigger] bool_elems_view(s)[i] == bool_elem_view(s[i]),
    decreases s.len(),
{
    if s.len() > 0 {
        lemma_bool_elems_view_index(s.drop_last());
    }
}

/// The mirror of an integer-element list mirrors elementwise.
pub proof fn lemma_field_elems_view_index(s: Seq<FieldSpreadOrExpression>)
    ensures
        field_elems_view(s).len() == s.len(),
        forall|i: int|
            0 <= i < s.len() ==> #[trigger] field_elems_view(s)[i] == field_elem_view(s[i]),
    decreases s.len(),
{
    if s.len() > 0 {
        lemma_field_elems_view_index(s.drop_last());
    }
}

/// The mirror of a field-declaration list mirrors elementwise.
pub proof fn lemma_struct_fields_view_index(s: Seq<StructField>)
    ensures
        struct_fields_view(s).len() == s.len(),
        forall|i: int|
            0 <= i < s.len() ==> #[trigger] struct_fields_view(s)[i] == struct_field_view(s[i]),
    decreases s.len(),
{
    if s.len() > 0 {
        lemma_struct_fields_view_index(s.drop_last());
    }
}

/// The mirror of an expression list mirrors elementwise.
pub proof fn lemma_exprs_view_index(s: Seq<Expression>)
    ensures
        exprs_view(s).len() == s.len(),
        forall|i: int| 0 <= i < s.len() ==> #[trigger] exprs_view(s)[i] == expr_view(s[i]),
    decreases s.len(),
{
    if s.len() > 0 {
        lemma_exprs_view_index(s.drop_last());
    }
}

/// The mirror of a statement list mirrors elementwise.
pub proof fn lemma_stmts_view_index(s: Seq<Statement>)
    ensures
        stmts_view(s).len() == s.len(),
        forall|i: int| 0 <= i < s.len() ==> #[trigger] stmts_view(s)[i] == stmt_view(s[i]),
    decreases s.len(),
{
    if s.len() > 0 {
        lemma_stmts_view_index(s.drop_last());
    }
}

/// The mirror of the struct-declaration list mirrors elementwise.
pub proof fn lemma_structs_view_index(s: Seq<(Variable, Struct)>)
    ensures
        structs_view(s).len() == s.len(),
        forall|i: int|
            0 <= i < s.len() ==> #[trigger] structs_view(s)[i] == (s[i].0.0@, struct_view(s[i].1)),
    decreases s.len(),
{
    if s.len() > 0 {
        lemma_structs_view_index(s.drop_last());
    }
}

// ---------------------------------------------------------------------------
// Cloning: every node clones to a tree with the same mirror
// ---------------------------------------------------------------------------
impl Clone for Variable {
    fn clone(&self) -> (r: Self)
        ensures
            r == *self,
    {
        Variable(self.0.clone())
    }
}

impl Clone for BooleanExpression {
    fn clone(&self) -> (r: Self)
        ensures
            r.deep_view() == self.deep_view(),
        decreases *self,
    {
        match self {
            BooleanExpression::Variable(v) => BooleanExpression::Variable(v.clone()),
            BooleanExpression::Value(b) => BooleanExpression::Value(*b),
            BooleanExpression::Not(a) => BooleanExpression::Not(Box::new((**a).clone())),
            BooleanExpression::Or(a, b) => BooleanExpression::Or(
                Box::new((**a).clone()),
                Box::new((**b).clone()),
            ),
            BooleanExpression::And(a, b) => BooleanExpression::And(
                Box::new((**a).clone()),
                Box::new((**b).clone()),
            ),
            BooleanExpression::BoolEq(a, b) => BooleanExpression::BoolEq(
                Box::new((**a).clone()),
                Box::new((**b).clone()),
            ),
            BooleanExpression::FieldEq(a, b) => BooleanExpression::FieldEq(
                Box::new((**a).clone()),
                Box::new((**b).clone()),
            ),
            BooleanExpression::IfElse(c, t, f) => BooleanExpression::IfElse(
                Box::new((**c).clone()),
                Box::new((**t).clone()),
                Box::new((**f).clone()),
            ),
            BooleanExpression::Array(elems) => {
                let mut out: Vec<BooleanSpreadOrExpression> = Vec::new();
                let mut idx: usize = 0;
                while idx < elems.len()
                    invariant
                        idx <= elems.len(),
                        out@.len() == idx,
                        forall|i: int|
                            0 <= i < idx ==> #[trigger] out@[i].deep_view()
                                == elems@[i].deep_view(),
                        decreases_to!(*self => *elems),
                    decreases elems.len() - idx,
                {
                    out.push(elems[idx].clone());
                    idx = idx + 1;
                }
                proof {
                    lemma_bool_elems_view_index(elems@);
                    lemma_bool_elems_view_index(out@);
                    assert forall|i: int| 0 <= i < out@.len() implies bool_elems_view(out@)[i]
                        == bool_elems_view(elems@)[i] by {
                        assert(out@[i].deep_view() == elems@[i].deep_view());
                    }
                    assert(bool_elems_view(out@) =~= bool_elems_view(elems@));
                }
                BooleanExpression::Array(out)
            },
        }
    }
}

impl Clone for BooleanSpreadOrExpression {
    fn clone(&self) -> (r: Self)
        ensures
            r.deep_view() == self.deep_view(),
        decreases *self,
    {
        match self {
            BooleanSpreadOrExpression::Spread(v) => BooleanSpreadOrExpression::Spread(v.clone()),
            BooleanSpreadOrExpression::BooleanExpression(e) => {
                BooleanSpreadOrExpression::BooleanExpression(e.clone())
            },
        }
    }
}

impl Clone for FieldExpression {
    fn clone(&self) -> (r: Self)
        ensures
            r.deep_view() == self.deep_view(),
        decreases *self,
    {
        match self {
            FieldExpression::Variable(v) => FieldExpression::Variable(v.clone()),
            FieldExpression::Number(n) => FieldExpression::Number(*n),
            FieldExpression::Add(a, b) => FieldExpression::Add(
                Box::new((**a).clone()),
                Box::new((**b).clone()),
            ),
            FieldExpression::Sub(a, b) => FieldExpression::Sub(
                Box::new((**a).clone()),
                Box::new((**b).clone()),
            ),
            FieldExpression::Mul(a, b) => FieldExpression::Mul(
                Box::new((**a).clone()),
                Box::new((**b).clone()),
            ),
            FieldExpression::Div(a, b) => FieldExpression::Div(
                Box::new((**a).clone()),
                Box::new((**b).clone()),
            ),
            FieldExpression::Pow(a, b) => FieldExpression::Pow(
                Box::new((**a).clone()),
                Box::new((**b).clone()),
            ),
            FieldExpression::IfElse(c, t, f) => FieldExpression::IfElse(
                Box::new((**c).clone()),
                Box::new((**t).clone()),
                Box::new((**f).clone()),
            ),
            FieldExpression::Array(elems) => {
                let mut out: Vec<FieldSpreadOrExpression> = Vec::new();
                let mut idx: usize = 0;
                while idx < elems.len()
                    invariant
                        idx <= elems.len(),
                        out@.len() == idx,
                        forall|i: int|
                            0 <= i < idx ==> #[trigger] out@[i].deep_view()
                                == elems@[i].deep_view(),
                        decreases_to!(*self => *elems),
                    decreases elems.len() - idx,
                {
                    out.push(elems[idx].clone());
                    idx = idx + 1;
                }
                proof {
                    lemma_field_elems_view_index(elems@);
                    lemma_field_elems_view_index(out@);
                    assert forall|i: int| 0 <= i < out@.len() implies field_elems_view(out@)[i]
                        == field_elems_view(elems@)[i] by {
                        assert(out@[i].deep_view() == elems@[i].deep_view());
                    }
                    assert(field_elems_view(out@) =~= field_elems_view(elems@));
                }
                FieldExpression::Array(out)
            },
        }
    }
}

impl Clone for FieldSpreadOrExpression {
    fn clone(&self) -> (r: Self)
        ensures
            r.deep_view() == self.deep_view(),
        decreases *self,
    {
        match self {
            FieldSpreadOrExpression::Spread(v) => FieldSpreadOrExpression::Spread(v.clone()),
            FieldSpreadOrExpression::FieldExpression(e) => {
                FieldSpreadOrExpression::FieldExpression(e.clone())
            },
        }
    }
}

impl Clone for FieldRangeOrExpression {
    fn clone(&self) -> (r: Self)
        ensures
            r.deep_view() == self.deep_view(),
        decreases *self,
    {
        match self {
            FieldRangeOrExpression::Range(from, to) => FieldRangeOrExpression::Range(
                match from {
                    Option::Some(e) => Option::Some(e.clone()),
                    Option::None => Option::None,
                },
                match to {
                    Option::Some(e) => Option::Some(e.clone()),
                    Option::None => Option::None,
                },
            ),
            FieldRangeOrExpression::FieldExpression(e) => {
                FieldRangeOrExpression::FieldExpression(e.clone())
            },
        }
    }
}

impl Clone for Expression {
    fn clone(&self) -> (r: Self)
        ensures
            r.deep_view() == self.deep_view(),
        decreases *self,
    {
        match self {
            Expression::Boolean(b) => Expression::Boolean(b.clone()),
            Expression::FieldElement(f) => Expression::FieldElement(f.clone()),
            Expression::Variable(v) => Expression::Variable(v.clone()),
            Expression::Struct(name, members) => {
                let mut out: Vec<StructMember> = Vec::new();
                let mut idx: usize = 0;
                while idx < members.len()
                    invariant
                        idx <= members.len(),
                        out@.len() == idx,
                        forall|i: int|
                            0 <= i < idx ==> #[trigger] out@[i].deep_view()
                                == members@[i].deep_view(),
                        decreases_to!(*self => *members),
                    decreases members.len() - idx,
                {
                    out.push(members[idx].clone());
                    idx = idx + 1;
                }
                proof {
                    lemma_members_view_index(members@);
                    lemma_members_view_index(out@);
                    assert forall|i: int| 0 <= i < out@.len() implies members_view(out@)[i]
                        == members_view(members@)[i] by {
                        assert(out@[i].deep_view() == members@[i].deep_view());
                    }
                    assert(members_view(out@) =~= members_view(members@));
                }
                Expression::Struct(name.clone(), out)
            },
            Expression::ArrayAccess(a, idx) => Expression::ArrayAccess(
                Box::new((**a).clone()),
                idx.clone(),
            ),
        }
    }
}

impl Clone for StructMember {
    fn clone(&self) -> (r: Self)
        ensures
            r.deep_view() == self.deep_view(),
        decreases *self,
    {
        StructMember { variable: self.variable.clone(), expression: self.expression.clone() }
    }
}

impl Clone for StructField {
    fn clone(&self) -> (r: Self)
        ensures
            r.deep_view() == self.deep_view(),
    {
        StructField { variable: self.variable.clone(), ty: self.ty }
    }
}

impl Clone for Struct {
    fn clone(&self) -> (r: Self)
        ensures
            r.deep_view() == self.deep_view(),
    {
        let mut out: Vec<StructField> = Vec::new();
        let mut idx: usize = 0;
        while idx < self.fields.len()
            invariant
                idx <= self.fields.len(),
                out@.len() == idx,
                forall|i: int|
                    0 <= i < idx ==> #[trigger] out@[i].deep_view() == self.fields@[i].deep_view(),
            decreases self.fields.len() - idx,
        {
            out.push(self.fields[idx].clone());
            idx = idx + 1;
        }
        proof {
            lemma_struct_fields_view_index(self.fields@);
            lemma_struct_fields_view_index(out@);
            assert forall|i: int| 0 <= i < out@.len() implies struct_fields_view(out@)[i]
                == struct_fields_view(self.fields@)[i] by {
                assert(out@[i].deep_view() == self.fields@[i].deep_view());
            }
            assert(struct_fields_view(out@) =~= struct_fields_view(self.fields@));
        }
        Struct { variable: self.variable.clone(), fields: out }
    }
}

impl Clone for Statement {
    fn clone(&self) -> (r: Self)
        ensures
            r.deep_view() == self.deep_view(),
    {
        match self {
            Statement::Definition(v, e) => Statement::Definition(v.clone(), e.clone()),
            Statement::Return(es) => {
                let mut out: Vec<Expression> = Vec::new();
                let mut idx: usize = 0;
                while idx < es.len()
                    invariant
                        idx <= es.len(),
                        out@.len() == idx,
                        forall|i: int|
                            0 <= i < idx ==> #[trigger] out@[i].deep_view() == es@[i].deep_view(),
                    decreases es.len() - idx,
                {
                    out.push(es[idx].clone());
                    idx = idx + 1;
                }
                proof {
                    lemma_exprs_view_index(es@);
                    lemma_exprs_view_index(out@);
                    assert forall|i: int| 0 <= i < out@.len() implies exprs_view(out@)[i]
                        == exprs_view(es@)[i] by {
                        assert(out@[i].deep_view() == es@[i].deep_view());
                    }
                    assert(exprs_view(out@) =~= exprs_view(es@));
                }
                Statement::Return(out)
            },
        }
    }
}

impl Clone for Function {
    fn clone(&self) -> (r: Self)
        ensures
            r.deep_view() == self.deep_view(),
    {
        let mut out: Vec<Statement> = Vec::new();
        let mut idx: usize = 0;
        while idx < self.statements.len()
            invariant
                idx <= self.statements.len(),
                out@.len() == idx,
                forall|i: int|
                    0 <= i < idx ==> #[trigger] out@[i].deep_view()
                        == self.statements@[i].deep_view(),
            decreases self.statements.len() - idx,
        {
            out.push(self.statements[idx].clone());
            idx = idx + 1;
        }
        proof {
            lemma_stmts_view_index(self.statements@);
            lemma_stmts_view_index(out@);
            assert forall|i: int| 0 <= i < out@.len() implies stmts_view(out@)[i]
                == stmts_view(self.statements@)[i] by {
                assert(out@[i].deep_view() == self.statements@[i].deep_view());
            }
            assert(stmts_view(out@) =~= stmts_view(self.statements@));
        }
        Function { variable: self.variable.clone(), statements: out }
    }
}

/// The mirror of the function-declaration list mirrors elementwise.
pub proof fn lemma_functions_view_index(s: Seq<(Variable, Function)>)
    ensures
        functions_view(s).len() == s.len(),
        forall|i: int|
            0 <= i < s.len() ==> #[trigger] functions_view(s)[i] == (
                s[i].0.0@,
                function_view(s[i].1),
            ),
    decreases s.len(),
{
    if s.len() > 0 {
        lemma_functions_view_index(s.drop_last());
    }
}

} // verus!
