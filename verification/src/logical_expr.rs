//! Logical expressions: typed predicates over named columns, independent
//! of any schema until they are compiled against one.

use vstd::prelude::*;
use datafusion::common::DFSchema;
use datafusion::common::DataFusionError;
use datafusion::logical_expr::Expr as EngineExpr;
use crate::array_schema::ArraySchema;
use crate::engine::{
    FieldView, OutputType, df_schema_fields, engine_expr, engine_fields, engine_type, engine_view,
    error_to_string, expr_output_type, expr_text, expr_to_engine, expr_to_string, named_fields,
    schema_to_engine,
};
use crate::enums::PhysicalType;
use crate::native::NativeValue;
use crate::schema::{
    ErrorView, WhichSchema, contains_name, field_views, names_view, project_arrow, projectable,
    spec_project_arrow,
};

verus! {

/// The operator of a binary expression.
#[derive(Clone, Copy, Debug, PartialEq, Eq, Structural)]
pub enum Operator {
    Eq,
    NotEq,
    Lt,
    LtEq,
    Gt,
    GtEq,
    And,
    Or,
}

/// A constant in an expression.
#[derive(Clone, Debug, PartialEq, Eq)]
pub enum LiteralValue {
    Boolean(bool),
    /// One value of a native type.
    Native(NativeValue),
    /// A list of as many values of one native type as the second field says.
    FixedSizeList(PhysicalType, i32, Vec<NativeValue>),
    /// A list of any number of values of one native type.
    LargeList(PhysicalType, Vec<NativeValue>),
}

/// A [`LiteralValue`] seen as a mathematical value.
pub enum LiteralValueView {
    Boolean(bool),
    Native(NativeValue),
    FixedSizeList(PhysicalType, i32, Seq<NativeValue>),
    LargeList(PhysicalType, Seq<NativeValue>),
}

impl LiteralValueView {
    /// Whether this constant is a single value: a truth value or a value
    /// of a native type, and no list.
    pub open spec fn is_single(self) -> bool {
        self is Boolean || self is Native
    }
}

impl View for LiteralValue {
    type V = LiteralValueView;

    open spec fn view(&self) -> LiteralValueView {
        match self {
            LiteralValue::Boolean(b) => LiteralValueView::Boolean(*b),
            LiteralValue::Native(v) => LiteralValueView::Native(*v),
            LiteralValue::FixedSizeList(physical, size, values) => LiteralValueView::FixedSizeList(
                *physical,
                *size,
                values@,
            ),
            LiteralValue::LargeList(physical, values) => LiteralValueView::LargeList(
                *physical,
                values@,
            ),
        }
    }
}

/// The views of the constants of a list, in their order.
pub open spec fn scalar_views(list: Seq<LiteralValue>) -> Seq<LiteralValueView> {
    Seq::new(list.len(), |i: int| list[i]@)
}

/// A node of a logical expression. An expression owns its operands.
#[derive(Debug, PartialEq, Eq)]
pub enum LogicalExpr {
    /// The column of a name.
    Column(String),
    /// A constant.
    Literal(LiteralValue),
    /// A comparison of two expressions, or their conjunction or disjunction.
    BinaryExpr { left: Box<LogicalExpr>, op: Operator, right: Box<LogicalExpr> },
    /// Whether the value of an expression is, or is not, among constants.
    InList { expr: Box<LogicalExpr>, list: Vec<LiteralValue>, negated: bool },
    /// Whether the value of an expression is null.
    IsNull(Box<LogicalExpr>),
    /// Whether the value of an expression is not null.
    IsNotNull(Box<LogicalExpr>),
    /// The negation of an expression.
    Not(Box<LogicalExpr>),
    /// An aggregate over rows, by the name of its function. A predicate
    /// holds of each row by itself and must not hold such a node.
    AggregateFunction { name: String, args: Vec<LogicalExpr> },
}

/// A [`LogicalExpr`] seen as a mathematical value.
pub enum LogicalExprView {
    Column(Seq<char>),
    Literal(LiteralValueView),
    BinaryExpr { left: Box<LogicalExprView>, op: Operator, right: Box<LogicalExprView> },
    InList { expr: Box<LogicalExprView>, list: Seq<LiteralValueView>, negated: bool },
    IsNull(Box<LogicalExprView>),
    IsNotNull(Box<LogicalExprView>),
    Not(Box<LogicalExprView>),
    AggregateFunction { name: Seq<char>, args: Seq<LogicalExprView> },
}

/// The mathematical value of an expression.
pub open spec fn expr_view(e: LogicalExpr) -> LogicalExprView
    decreases e,
{
    match e {
        LogicalExpr::Column(name) => LogicalExprView::Column(name@),
        LogicalExpr::Literal(value) => LogicalExprView::Literal(value@),
        LogicalExpr::BinaryExpr { left, op, right } => LogicalExprView::BinaryExpr {
            left: Box::new(expr_view(*left)),
            op,
            right: Box::new(expr_view(*right)),
        },
        LogicalExpr::InList { expr, list, negated } => LogicalExprView::InList {
            expr: Box::new(expr_view(*expr)),
            list: scalar_views(list@),
            negated,
        },
        LogicalExpr::IsNull(e) => LogicalExprView::IsNull(Box::new(expr_view(*e))),
        LogicalExpr::IsNotNull(e) => LogicalExprView::IsNotNull(Box::new(expr_view(*e))),
        LogicalExpr::Not(e) => LogicalExprView::Not(Box::new(expr_view(*e))),
        LogicalExpr::AggregateFunction { name, args } => LogicalExprView::AggregateFunction {
            name: name@,
            args: Seq::new(
                args@.len(),
                |i: int|
                    if 0 <= i < args@.len() {
                        expr_view(args@[i])
                    } else {
                        LogicalExprView::Literal(LiteralValueView::Boolean(false))
                    },
            ),
        },
    }
}

impl View for LogicalExpr {
    type V = LogicalExprView;

    open spec fn view(&self) -> LogicalExprView {
        expr_view(*self)
    }
}

impl LogicalExprView {
    /// The comparison, conjunction or disjunction of two expressions.
    pub open spec fn binary(
        left: LogicalExprView,
        op: Operator,
        right: LogicalExprView,
    ) -> LogicalExprView {
        LogicalExprView::BinaryExpr { left: Box::new(left), op, right: Box::new(right) }
    }

    /// The column of a name.
    pub open spec fn column(name: Seq<char>) -> LogicalExprView {
        LogicalExprView::Column(name)
    }

    /// The constant `true` or `false`.
    pub open spec fn boolean(value: bool) -> LogicalExprView {
        LogicalExprView::Literal(LiteralValueView::Boolean(value))
    }

    /// The test that the column of a name is null.
    pub open spec fn is_null(name: Seq<char>) -> LogicalExprView {
        LogicalExprView::IsNull(Box::new(LogicalExprView::Column(name)))
    }

    /// The test that the column of a name is not null.
    pub open spec fn is_not_null(name: Seq<char>) -> LogicalExprView {
        LogicalExprView::IsNotNull(Box::new(LogicalExprView::Column(name)))
    }

    /// The negation of an expression.
    pub open spec fn not(e: LogicalExprView) -> LogicalExprView {
        LogicalExprView::Not(Box::new(e))
    }
}

impl LogicalExprView {
    /// The names of the columns which this expression refers to, in the
    /// order in which they are met from the left, each as often as it is
    /// met.
    pub open spec fn column_names(self) -> Seq<Seq<char>>
        decreases self,
    {
        match self {
            LogicalExprView::Column(name) => seq![name],
            LogicalExprView::Literal(_) => Seq::empty(),
            LogicalExprView::BinaryExpr { left, right, .. } => left.column_names()
                + right.column_names(),
            LogicalExprView::InList { expr, .. } => expr.column_names(),
            LogicalExprView::IsNull(e) => e.column_names(),
            LogicalExprView::IsNotNull(e) => e.column_names(),
            LogicalExprView::Not(e) => e.column_names(),
            LogicalExprView::AggregateFunction { args, .. } => column_names_of(
                args,
                args.len() as int,
            ),
        }
    }

    /// Whether every constant of this expression is a single value and no
    /// node of it aggregates over rows. The engine takes such an expression
    /// as it is.
    pub open spec fn single_valued(self) -> bool
        decreases self,
    {
        match self {
            LogicalExprView::Column(_) => true,
            LogicalExprView::Literal(value) => value.is_single(),
            LogicalExprView::BinaryExpr { left, right, .. } => left.single_valued()
                && right.single_valued(),
            LogicalExprView::InList { expr, list, .. } => expr.single_valued() && forall|
                i: int,
            |
                0 <= i < list.len() ==> (#[trigger] list[i]).is_single(),
            LogicalExprView::IsNull(e) => e.single_valued(),
            LogicalExprView::IsNotNull(e) => e.single_valued(),
            LogicalExprView::Not(e) => e.single_valued(),
            LogicalExprView::AggregateFunction { .. } => false,
        }
    }

    /// Whether a node of this expression aggregates over rows.
    pub open spec fn contains_aggregate(self) -> bool
        decreases self,
    {
        match self {
            LogicalExprView::Column(_) => false,
            LogicalExprView::Literal(_) => false,
            LogicalExprView::BinaryExpr { left, right, .. } => left.contains_aggregate()
                || right.contains_aggregate(),
            LogicalExprView::InList { expr, .. } => expr.contains_aggregate(),
            LogicalExprView::IsNull(e) => e.contains_aggregate(),
            LogicalExprView::IsNotNull(e) => e.contains_aggregate(),
            LogicalExprView::Not(e) => e.contains_aggregate(),
            LogicalExprView::AggregateFunction { .. } => true,
        }
    }
}

/// The names of the columns which the first `n` of `exprs` refer to, in the
/// order in which they are met.
pub open spec fn column_names_of(exprs: Seq<LogicalExprView>, n: int) -> Seq<Seq<char>>
    decreases exprs, n,
{
    if n <= 0 || n > exprs.len() {
        Seq::empty()
    } else {
        column_names_of(exprs, n - 1) + exprs[n - 1].column_names()
    }
}

/// The names of a run of names, each once, in the order in which they
/// first come.
pub open spec fn distinct(names: Seq<Seq<char>>) -> Seq<Seq<char>>
    decreases names.len(),
{
    if names.len() == 0 {
        Seq::empty()
    } else {
        let before = distinct(names.drop_last());
        if before.contains(names.last()) {
            before
        } else {
            before.push(names.last())
        }
    }
}

/// A name is in a run of names if it is the last or among those before.
proof fn lemma_contains_last(names: Seq<Seq<char>>, name: Seq<char>)
    requires
        names.len() > 0,
    ensures
        names.contains(name) <==> names.drop_last().contains(name) || names.last() == name,
{
    let before = names.drop_last();
    if names.contains(name) {
        let i = choose|i: int| 0 <= i < names.len() && names[i] == name;
        if i < names.len() - 1 {
            assert(before[i] == name);
        }
    }
    if before.contains(name) {
        let i = choose|i: int| 0 <= i < before.len() && before[i] == name;
        assert(names[i] == name);
    }
    if names.last() == name {
        assert(names[names.len() - 1] == name);
    }
}

/// No name comes twice among the distinct names of a run of names, and
/// they are the names of the run.
pub proof fn lemma_distinct_no_duplicates(names: Seq<Seq<char>>)
    ensures
        distinct(names).no_duplicates(),
        forall|name: Seq<char>| distinct(names).contains(name) <==> names.contains(name),
    decreases names.len(),
{
    if names.len() > 0 {
        let before = names.drop_last();
        let last = names.last();
        let once = distinct(before);
        lemma_distinct_no_duplicates(before);
        assert forall|name: Seq<char>| distinct(names).contains(name) <==> names.contains(
            name,
        ) by {
            lemma_contains_last(names, name);
            assert(once.contains(name) <==> before.contains(name));
            if !once.contains(last) {
                lemma_contains_last(once.push(last), name);
                assert(once.push(last).drop_last() =~= once);
            }
        }
        if !once.contains(last) {
            assert forall|i: int, j: int|
                0 <= i < once.push(last).len() && 0 <= j < once.push(last).len() && i
                    != j implies once.push(last)[i] != once.push(last)[j] by {
                if i < once.len() && j < once.len() {
                } else if i < once.len() {
                    assert(once[i] != last);
                } else {
                    assert(once[j] != last);
                }
            }
        }
    }
}

/// The conjunction of the first `n` of `exprs`, joined from the left: the
/// constant `true` for none, the first alone, and then each further one
/// joined with "and" to those before it.
pub open spec fn conjunction(exprs: Seq<LogicalExprView>, n: int) -> LogicalExprView
    decreases n,
{
    if n <= 0 {
        LogicalExprView::boolean(true)
    } else if n == 1 {
        exprs[0]
    } else {
        LogicalExprView::binary(conjunction(exprs, n - 1), Operator::And, exprs[n - 1])
    }
}

/// The expressions as mathematical values, in their order.
pub open spec fn expr_views(exprs: Seq<Box<LogicalExpr>>) -> Seq<LogicalExprView> {
    Seq::new(exprs.len(), |i: int| (*exprs[i])@)
}

impl LiteralValue {
    /// Returns a copy of this constant.
    pub fn duplicate(&self) -> (copy: LiteralValue)
        ensures
            copy@ == self@,
    {
        match self {
            LiteralValue::Boolean(b) => LiteralValue::Boolean(*b),
            LiteralValue::Native(v) => LiteralValue::Native(*v),
            LiteralValue::FixedSizeList(physical, size, values) => LiteralValue::FixedSizeList(
                *physical,
                *size,
                values.clone(),
            ),
            LiteralValue::LargeList(physical, values) => LiteralValue::LargeList(
                *physical,
                values.clone(),
            ),
        }
    }
}

impl LogicalExpr {
    /// Returns a copy of this expression.
    pub fn duplicate(&self) -> (copy: LogicalExpr)
        ensures
            copy@ == self@,
        decreases self,
    {
        match self {
            LogicalExpr::Column(name) => LogicalExpr::Column(name.clone()),
            LogicalExpr::Literal(value) => LogicalExpr::Literal(value.duplicate()),
            LogicalExpr::BinaryExpr { left, op, right } => LogicalExpr::BinaryExpr {
                left: Box::new(left.duplicate()),
                op: *op,
                right: Box::new(right.duplicate()),
            },
            LogicalExpr::InList { expr, list, negated } => {
                let mut copy: Vec<LiteralValue> = Vec::with_capacity(list.len());
                let mut i: usize = 0;
                while i < list.len()
                    invariant
                        i <= list@.len(),
                        copy@.len() == i,
                        forall|j: int| 0 <= j < i ==> (#[trigger] copy@[j])@ == list@[j]@,
                    decreases list@.len() - i,
                {
                    copy.push(list[i].duplicate());
                    i += 1;
                }
                assert(scalar_views(copy@) =~= scalar_views(list@));
                LogicalExpr::InList { expr: Box::new(expr.duplicate()), list: copy, negated: *negated }
            },
            LogicalExpr::IsNull(e) => LogicalExpr::IsNull(Box::new(e.duplicate())),
            LogicalExpr::IsNotNull(e) => LogicalExpr::IsNotNull(Box::new(e.duplicate())),
            LogicalExpr::Not(e) => LogicalExpr::Not(Box::new(e.duplicate())),
            LogicalExpr::AggregateFunction { name, args } => {
                let mut copy: Vec<LogicalExpr> = Vec::with_capacity(args.len());
                let mut i: usize = 0;
                while i < args.len()
                    invariant
                        i <= args@.len(),
                        copy@.len() == i,
                        *self matches LogicalExpr::AggregateFunction { args: a, .. } && a
                            == *args,
                        forall|j: int| 0 <= j < i ==> (#[trigger] copy@[j])@ == args@[j]@,
                    decreases args@.len() - i,
                {
                    copy.push(args[i].duplicate());
                    i += 1;
                }
                let duplicate = LogicalExpr::AggregateFunction { name: name.clone(), args: copy };
                assert(duplicate@->args =~= self@->args);
                duplicate
            },
        }
    }

    /// Returns whether a node of this expression aggregates over rows.
    /// The expression is walked from the top, and the walk ends at the
    /// first such node.
    pub fn has_aggregate_functions(&self) -> (found: bool)
        ensures
            found == self@.contains_aggregate(),
        decreases self,
    {
        match self {
            LogicalExpr::Column(_) => false,
            LogicalExpr::Literal(_) => false,
            LogicalExpr::BinaryExpr { left, right, .. } => left.has_aggregate_functions()
                || right.has_aggregate_functions(),
            LogicalExpr::InList { expr, .. } => expr.has_aggregate_functions(),
            LogicalExpr::IsNull(e) => e.has_aggregate_functions(),
            LogicalExpr::IsNotNull(e) => e.has_aggregate_functions(),
            LogicalExpr::Not(e) => e.has_aggregate_functions(),
            LogicalExpr::AggregateFunction { .. } => true,
        }
    }

    /// Appends to `names` the names of the columns which this expression
    /// refers to, in the order in which they are met from the left.
    fn collect_columns(&self, names: &mut Vec<String>)
        ensures
            names_view(final(names)@) == names_view(old(names)@) + self@.column_names(),
        decreases self,
    {
        let ghost before = names_view(names@);
        match self {
            LogicalExpr::Column(name) => {
                names.push(name.clone());
                assert(names_view(names@) =~= before + seq![name@]);
            },
            LogicalExpr::Literal(_) => {
                assert(names_view(names@) =~= before + Seq::<Seq<char>>::empty());
            },
            LogicalExpr::BinaryExpr { left, right, .. } => {
                left.collect_columns(names);
                right.collect_columns(names);
                assert(names_view(names@) =~= before + (left@.column_names()
                    + right@.column_names()));
            },
            LogicalExpr::InList { expr, .. } => {
                expr.collect_columns(names);
            },
            LogicalExpr::IsNull(e) => {
                e.collect_columns(names);
            },
            LogicalExpr::IsNotNull(e) => {
                e.collect_columns(names);
            },
            LogicalExpr::Not(e) => {
                e.collect_columns(names);
            },
            LogicalExpr::AggregateFunction { args, .. } => {
                let ghost views = self@->args;
                let mut i: usize = 0;
                assert(names_view(names@) =~= before + column_names_of(views, 0));
                while i < args.len()
                    invariant
                        i <= args@.len(),
                        *self matches LogicalExpr::AggregateFunction { args: a, .. } && a
                            == *args,
                        views == self@->args,
                        views.len() == args@.len(),
                        names_view(names@) == before + column_names_of(views, i as int),
                    decreases args@.len() - i,
                {
                    assert(views[i as int] == args@[i as int]@);
                    args[i].collect_columns(names);
                    assert(names_view(names@) =~= before + column_names_of(views, i + 1));
                    i += 1;
                }
            },
        }
    }

    /// Returns the names of the columns which this expression refers to,
    /// each once, in the order in which they first come from the left.
    pub fn columns(&self) -> (columns: Vec<String>)
        ensures
            names_view(columns@) == distinct(self@.column_names()),
    {
        let mut all: Vec<String> = Vec::new();
        assert(names_view(all@) =~= Seq::<Seq<char>>::empty());
        self.collect_columns(&mut all);
        assert(names_view(all@) =~= self@.column_names());
        unique(&all)
    }
}

/// Returns a copy of `names`.
pub fn copy_names(names: &Vec<String>) -> (copy: Vec<String>)
    ensures
        names_view(copy@) == names_view(names@),
{
    let mut copy: Vec<String> = Vec::with_capacity(names.len());
    let mut i: usize = 0;
    while i < names.len()
        invariant
            i <= names@.len(),
            copy@.len() == i,
            forall|j: int| 0 <= j < i ==> (#[trigger] copy@[j])@ == names@[j]@,
        decreases names@.len() - i,
    {
        copy.push(names[i].clone());
        i += 1;
    }
    assert(names_view(copy@) =~= names_view(names@));
    copy
}

/// Returns the names of `names`, each once, in the order in which they
/// first come.
pub fn unique(names: &Vec<String>) -> (once: Vec<String>)
    ensures
        names_view(once@) == distinct(names_view(names@)),
{
    let mut once: Vec<String> = Vec::new();
    let mut i: usize = 0;
    let ghost all = names_view(names@);
    assert(names_view(once@) =~= distinct(all.subrange(0, 0)));
    while i < names.len()
        invariant
            i <= names@.len(),
            all == names_view(names@),
            names_view(once@) == distinct(all.subrange(0, i as int)),
        decreases names@.len() - i,
    {
        let ghost before = names_view(once@);
        proof {
            assert(all.subrange(0, i + 1).drop_last() =~= all.subrange(0, i as int));
            assert(all.subrange(0, i + 1).last() == names@[i as int]@);
        }
        if !contains_name(&once, &names[i]) {
            once.push(names[i].clone());
            assert(names_view(once@) =~= before.push(names@[i as int]@));
        }
        i += 1;
    }
    assert(all.subrange(0, names@.len() as int) =~= all);
    once
}

/// Returns the conjunction of the logical expressions,
/// `((e1 AND e2) AND ...) AND eN`; the constant `true` if there is none.
pub fn make_conjunction(exprs: &[Box<LogicalExpr>]) -> (all: Box<LogicalExpr>)
    ensures
        all@ == conjunction(expr_views(exprs@), exprs@.len() as int),
{
    if exprs.len() == 0 {
        proof {
            reveal_with_fuel(expr_view, 2);
        }
        return Box::new(LogicalExpr::Literal(LiteralValue::Boolean(true)));
    }
    let mut all = exprs[0].duplicate();
    let mut i: usize = 1;
    while i < exprs.len()
        invariant
            1 <= i <= exprs@.len(),
            all@ == conjunction(expr_views(exprs@), i as int),
        decreases exprs@.len() - i,
    {
        let next = exprs[i].duplicate();
        all = LogicalExpr::BinaryExpr { left: Box::new(all), op: Operator::And, right: Box::new(next) };
        i += 1;
    }
    Box::new(all)
}

/// Why an expression has no type.
#[derive(Debug)]
pub enum TypeError {
    /// The array schema has no columnar view.
    ArraySchema(crate::schema::Error),
    /// The engine finds no type for the expression.
    Expr(DataFusionError),
}

/// Whether an outcome is the kind of type which the engine finds for an
/// expression of the engine over a schema which holds the fields: the
/// kind if it finds a type, and an error of the expression if it finds
/// none.
pub open spec fn typed_by(
    expr: EngineExpr,
    fields: Seq<FieldView>,
    result: Result<OutputType, TypeError>,
) -> bool {
    exists|schema: DFSchema|
        #[trigger] df_schema_fields(schema) == fields && match engine_type(expr, schema) {
            Some(output_type) => result matches Ok(found) && found@ == output_type,
            None => result matches Err(TypeError::Expr(_)),
        }
}

/// Whether an outcome is what typing an expression of the engine over the
/// view of an array schema gives, of which the fields of the names are
/// projected: the error of the projection if it has one, and else the
/// kind of type which the engine finds over the fields.
pub open spec fn typed_over(
    expr: EngineExpr,
    schema: &ArraySchema,
    names: Seq<Seq<char>>,
    result: Result<OutputType, TypeError>,
) -> bool {
    match spec_project_arrow(schema, WhichSchema::View, Some(names)) {
        Err(e) => result matches Err(TypeError::ArraySchema(found)) && found@ == e,
        Ok(projection) => typed_by(expr, engine_fields(projection.0), result),
    }
}

/// Returns the kind of type of the value of an expression of the engine
/// over the descriptions of columns.
fn type_over_fields(expr: &EngineExpr, schema: &crate::schema::Schema) -> (result: Result<
    OutputType,
    TypeError,
>)
    ensures
        typed_by(*expr, engine_fields(field_views(schema.fields@)), result),
{
    let df_schema = match schema_to_engine(schema) {
        Ok(df_schema) => df_schema,
        Err(e) => {
            return Err(TypeError::Expr(e));
        },
    };
    assert(named_fields(schema) =~= engine_fields(field_views(schema.fields@)));
    match expr_output_type(expr, &df_schema) {
        Ok(output_type) => Ok(output_type),
        Err(e) => Err(TypeError::Expr(e)),
    }
}

/// Returns the kind of type of the value of an expression of the engine
/// over the view of an array schema, of which the fields of the names are
/// projected.
pub(crate) fn engine_output_type(expr: &EngineExpr, columns: &Vec<String>, schema: &ArraySchema) -> (result:
    Result<OutputType, TypeError>)
    requires
        projectable(schema, WhichSchema::View, Some(names_view(columns@))),
    ensures
        typed_over(*expr, schema, names_view(columns@), result),
{
    let (arrow_schema, _) = match project_arrow(schema, WhichSchema::View, Some(columns)) {
        Ok(projection) => projection,
        Err(e) => {
            return Err(TypeError::ArraySchema(e));
        },
    };
    type_over_fields(expr, &arrow_schema)
}

/// Whether the value of an expression is a truth value, from the kind of
/// its type; an error stays as it is.
pub open spec fn predicate_of(typed: Result<OutputType, TypeError>) -> Result<bool, TypeError> {
    match typed {
        Ok(output_type) => Ok(output_type is Boolean),
        Err(e) => Err(e),
    }
}

/// Returns whether the value of an expression is a truth value, from the
/// kind of its type.
pub fn is_predicate_type(typed: Result<OutputType, TypeError>) -> (result: Result<bool, TypeError>)
    ensures
        result == predicate_of(typed),
{
    match typed {
        Ok(OutputType::Boolean) => Ok(true),
        Ok(_) => Ok(false),
        Err(e) => Err(e),
    }
}

impl LogicalExpr {
    /// Whether an outcome is what typing this expression over the view of
    /// an array schema gives: the error of the projection of the fields
    /// which the expression refers to, if it has one; else what typing the
    /// expression of the engine gives which is the same expression. Only
    /// an expression with a list among its constants or with an aggregate
    /// may have no expression of the engine, which is an error.
    pub open spec fn typed_as_decided(
        self,
        schema: &ArraySchema,
        result: Result<OutputType, TypeError>,
    ) -> bool {
        match spec_project_arrow(
            schema,
            WhichSchema::View,
            Some(distinct(self@.column_names())),
        ) {
            Err(e) => result matches Err(TypeError::ArraySchema(found)) && found@ == e,
            Ok(projection) => (!self@.single_valued() && result matches Err(TypeError::Expr(_)))
                || exists|engine: EngineExpr|
                #[trigger] engine_expr(engine) == Some(engine_view(self@)) && typed_by(
                    engine,
                    engine_fields(projection.0),
                    result,
                ),
        }
    }

    /// Returns the kind of type of the value of this expression over the
    /// view of an array schema. Only the fields which the expression refers
    /// to are projected.
    pub fn output_type(&self, schema: &ArraySchema) -> (result: Result<OutputType, TypeError>)
        requires
            projectable(schema, WhichSchema::View, Some(distinct(self@.column_names()))),
        ensures
            spec_project_arrow(schema, WhichSchema::View, Some(distinct(self@.column_names())))
                is Err <==> result matches Err(TypeError::ArraySchema(_)),
            self.typed_as_decided(schema, result),
    {
        let columns = self.columns();
        let (arrow_schema, _) = match project_arrow(schema, WhichSchema::View, Some(&columns)) {
            Ok(projection) => projection,
            Err(e) => {
                return Err(TypeError::ArraySchema(e));
            },
        };
        let expr = match expr_to_engine(self) {
            Ok(expr) => expr,
            Err(e) => {
                return Err(TypeError::Expr(e));
            },
        };
        let result = type_over_fields(&expr, &arrow_schema);
        assert(engine_expr(expr) == Some(engine_view(self@)) && typed_by(
            expr,
            engine_fields(field_views(arrow_schema.fields@)),
            result,
        ));
        result
    }

    /// Returns this expression as text, as the engine prints the same
    /// expression. Of an expression which the engine does not take, as only
    /// one with a list among its constants or with an aggregate may be, the
    /// text is the reason which the engine gives.
    pub fn to_string(&self) -> (text: String)
        ensures
            !self@.single_valued() || exists|engine: EngineExpr|
                #[trigger] engine_expr(engine) == Some(engine_view(self@)) && text@ == expr_text(
                    engine,
                ),
    {
        match expr_to_engine(self) {
            Ok(expr) => {
                let text = expr_to_string(&expr);
                assert(engine_expr(expr) == Some(engine_view(self@)) && text@ == expr_text(expr));
                text
            },
            Err(e) => error_to_string(&e),
        }
    }

    /// Returns whether the value of this expression over the view of an
    /// array schema is a truth value.
    pub fn is_predicate(&self, schema: &ArraySchema) -> (result: Result<bool, TypeError>)
        requires
            projectable(schema, WhichSchema::View, Some(distinct(self@.column_names()))),
        ensures
            spec_project_arrow(schema, WhichSchema::View, Some(distinct(self@.column_names())))
                is Err <==> result matches Err(TypeError::ArraySchema(_)),
            exists|typed: Result<OutputType, TypeError>|
                self.typed_as_decided(schema, typed) && result == #[trigger] predicate_of(typed),
    {
        is_predicate_type(self.output_type(schema))
    }
}

} // verus!
