//! The predicates of a query: gathered first, then compiled into one, then
//! evaluated against each batch of rows.
//!
//! Predicates can be added only until they are compiled, and evaluated only
//! from then on.

use vstd::prelude::*;
use datafusion::common::DFSchema;
use datafusion::common::DataFusionError;
use datafusion::logical_expr::Expr as EngineExpr;
use datafusion::prelude::SessionContext;
use crate::array_schema::ArraySchema;
use crate::bitmap::{EvaluationOutput, reduce_into_bitmap, reduced};
use crate::engine::{
    FieldView, OutputKind, OutputType, OutputTypeView, PhysicalExpr, coerce_types, coerced,
    compile, compiles, df_schema_fields, engine_aggregates, engine_columns, names_are,
    of_column_types, parsed_text,
    engine_expr, engine_type, engine_view, expr_output_type, expr_to_engine, named_fields,
    new_session, parse_sql_expr, physical_conjunction, plan_error, schema_to_engine,
};
use crate::logical_expr::{
    LogicalExpr, LogicalExprView, copy_names, distinct, lemma_distinct_no_duplicates, unique,
};
use crate::session::{ParsedExpr, text_expr};
use crate::physical_expr::{PhysicalExprOutput, evaluation_output, truth_of};
use crate::record_batch::{ErrorView, consistent, is_consistent, spec_columns, to_record_batch};
use crate::schema::{
    ArrowArraySchema, ArrowField, Schema, WhichSchema, field_views, names_view, project_arrow,
    projectable, spec_project_arrow,
};
use crate::tile::ResultTile;

verus! {

/// Why the predicates of a query cannot be set up.
#[derive(Debug)]
pub enum SchemaError {
    /// The array schema has no columnar view.
    Schema(crate::schema::Error),
    /// The engine refuses the columnar view.
    Engine(DataFusionError),
}

/// Why a predicate cannot be added.
#[derive(Debug)]
pub enum AddPredicateError {
    /// The predicates have been compiled already.
    InvalidState,
    /// The text is not an expression over the columns of the schema.
    Parse(DataFusionError),
    /// The value of the expression is no truth value; holds the name of its
    /// type.
    NotAPredicate(String),
    /// The expression aggregates over rows, which a predicate must not do.
    ContainsAggregateFunctions,
    /// The types of the operands in the expression do not agree.
    TypeCoercion(DataFusionError),
    /// The expression has no type.
    OutputType(DataFusionError),
}

/// Why the predicates do not compile.
#[derive(Debug)]
pub enum CompileError {
    /// The predicates have been compiled already.
    InvalidState,
    /// A predicate does not compile.
    PhysicalExpr(DataFusionError),
}

/// Why the predicates cannot be evaluated.
#[derive(Debug)]
pub enum EvaluatePredicateError {
    /// The predicates have not been compiled yet.
    InvalidState,
    /// The batch of rows does not make columns.
    ResultTile(crate::record_batch::Error),
    /// The engine fails to evaluate the predicates.
    Evaluate(DataFusionError),
    /// What the engine gave is no truth value, or is not one for each row.
    UnexpectedOutput,
}

/// Decides whether an expression may be added as a predicate, from what
/// the engine says of it: the type of its value must be that of truth
/// values, or of null, and no node of it may aggregate. The type is looked
/// at first.
pub fn accept_predicate(output_type: OutputType, has_aggregate: bool) -> (result: Result<
    (),
    AddPredicateError,
>)
    ensures
        match output_type {
            OutputType::Other(name) => (result matches Err(AddPredicateError::NotAPredicate(found))
                && found == name),
            _ => if has_aggregate {
                result matches Err(AddPredicateError::ContainsAggregateFunctions)
            } else {
                result is Ok
            },
        },
{
    match output_type {
        OutputType::Other(name) => Err(AddPredicateError::NotAPredicate(name)),
        _ => if has_aggregate {
            Err(AddPredicateError::ContainsAggregateFunctions)
        } else {
            Ok(())
        },
    }
}

/// Folds what an evaluation gave into `bitmap`, which has one entry for
/// each row, with `zero` for a cleared entry.
///
/// Truth values are folded in as [`reduce_into_bitmap`] does. A value which
/// holds no truth values, or not one for each row, is refused and leaves
/// the bitmap as it is.
pub fn fold_output<T: Copy>(kind: OutputKind, bitmap: &mut [T], zero: T) -> (result: Result<
    (),
    EvaluatePredicateError,
>)
    ensures
        match truth_of(kind) {
            Some(output) => if output.covers(old(bitmap)@.len()) {
                result is Ok && final(bitmap)@ == reduced(&output, old(bitmap)@, zero)
            } else {
                (result matches Err(EvaluatePredicateError::UnexpectedOutput)) && final(bitmap)@
                    == old(bitmap)@
            },
            None => (result matches Err(EvaluatePredicateError::UnexpectedOutput)) && final(bitmap)@
                == old(bitmap)@,
        },
{
    match evaluation_output(kind) {
        Some(output) => {
            let covers = match &output {
                EvaluationOutput::Array(outcomes) => outcomes.len() == bitmap.len(),
                EvaluationOutput::Scalar(_) => true,
            };
            if covers {
                reduce_into_bitmap(&output, bitmap, zero);
                Ok(())
            } else {
                Err(EvaluatePredicateError::UnexpectedOutput)
            }
        },
        None => Err(EvaluatePredicateError::UnexpectedOutput),
    }
}

/// The first index at or after `start` of the description of the column
/// called `name`.
pub open spec fn find_field(fields: Seq<ArrowField>, name: Seq<char>, start: int) -> Option<int>
    decreases fields.len() - start,
{
    if start < 0 || start >= fields.len() {
        None
    } else if fields[start].name@ == name {
        Some(start)
    } else {
        find_field(fields, name, start + 1)
    }
}

/// Returns a copy of the description of the first column called `name`.
fn field_by_name(schema: &Schema, name: &String) -> (field: Option<ArrowField>)
    ensures
        match field {
            Some(f) => (find_field(schema.fields@, name@, 0) matches Some(i) && f
                == schema.fields@[i]),
            None => find_field(schema.fields@, name@, 0) is None,
        },
{
    let mut i: usize = 0;
    while i < schema.fields.len()
        invariant
            i <= schema.fields@.len(),
            find_field(schema.fields@, name@, 0) == find_field(schema.fields@, name@, i as int),
        decreases schema.fields@.len() - i,
    {
        if schema.fields[i].name == *name {
            return Some(schema.fields[i].duplicate());
        }
        i += 1;
    }
    None
}

/// The names of the first `n` runs of names, one run after the other.
pub open spec fn all_names(columns: Seq<Seq<Seq<char>>>, n: int) -> Seq<Seq<char>>
    decreases n,
{
    if n <= 0 {
        Seq::empty()
    } else {
        all_names(columns, n - 1) + columns[n - 1]
    }
}

/// A predicate which has been added: the expression as the engine holds
/// it, and the names of the columns which it refers to, each once.
struct Predicate {
    expr: EngineExpr,
    columns: Vec<String>,
}

/// Gathers the predicates of a query.
pub struct Builder {
    /// The session of the engine which parses text.
    dfsession: SessionContext,
    /// The columnar view of the array schema.
    schema: Schema,
    /// The same for the engine.
    dfschema: DFSchema,
    /// The predicates, in the order in which they were added.
    predicates: Vec<Predicate>,
}

impl Builder {
    /// The names of the columns which each of the predicates added so far
    /// refers to, in the order in which the predicates were added.
    pub closed spec fn spec_columns(&self) -> Seq<Seq<Seq<char>>> {
        Seq::new(self.predicates@.len(), |i: int| names_view(self.predicates@[i].columns@))
    }

    /// The predicates added so far as the engine holds them, in the order
    /// in which they were added. These are what is compiled.
    pub closed spec fn spec_predicates(&self) -> Seq<EngineExpr> {
        Seq::new(self.predicates@.len(), |i: int| self.predicates@[i].expr)
    }

    /// The number of predicates added so far.
    pub open spec fn spec_len(&self) -> nat {
        self.spec_columns().len()
    }

    /// The names of the fields which the predicates added so far refer to,
    /// each once, in the order in which the predicates first name them.
    pub open spec fn spec_field_names(&self) -> Seq<Seq<char>> {
        distinct(all_names(self.spec_columns(), self.spec_columns().len() as int))
    }

    /// The descriptions of the columns which predicates may refer to.
    pub closed spec fn spec_schema(&self) -> Schema {
        self.schema
    }

    /// Returns a builder for predicates over the columns of an array
    /// schema in the given view, with no predicate yet.
    ///
    /// Fails if the array schema has no columns in that view, with the
    /// reason, and only then: the engine takes any columns.
    pub fn new(schema: &ArraySchema, which: WhichSchema) -> (result: Result<Builder, SchemaError>)
        requires
            projectable(schema, which, None),
        ensures
            match result {
                Ok(builder) => builder.spec_len() == 0 && (spec_project_arrow(schema, which, None)
                    matches Ok(projection) && field_views(builder.spec_schema().fields@)
                    == projection.0),
                Err(SchemaError::Schema(e)) => spec_project_arrow(schema, which, None) == Err::<
                    (
                        Seq<crate::schema::ArrowFieldView>,
                        Seq<crate::schema::ResolvedEnumerationView>,
                    ),
                    crate::schema::ErrorView,
                >(e@),
                Err(SchemaError::Engine(_)) => false,
            },
            result is Ok <==> spec_project_arrow(schema, which, None) is Ok,
            result matches Ok(builder) ==> df_schema_fields(builder.spec_engine_schema())
                == named_fields(&builder.spec_schema()),
            result matches Ok(builder) ==> builder.spec_predicates().len() == 0,
    {
        let (arrow_schema, _) = match project_arrow(schema, which, None) {
            Ok(projection) => projection,
            Err(e) => {
                return Err(SchemaError::Schema(e));
            },
        };
        let dfschema = match schema_to_engine(&arrow_schema) {
            Ok(dfschema) => dfschema,
            Err(e) => {
                return Err(SchemaError::Engine(e));
            },
        };
        Ok(
            Builder {
                dfsession: new_session(),
                schema: arrow_schema,
                dfschema,
                predicates: Vec::new(),
            },
        )
    }

    /// Returns the number of predicates added so far.
    pub fn len(&self) -> (len: usize)
        ensures
            len == self.spec_len(),
    {
        self.predicates.len()
    }

    /// Returns the names of the fields which the predicates refer to, each
    /// once, in the order in which the predicates first name them.
    pub fn field_names(&self) -> (names: Vec<String>)
        ensures
            names_view(names@) == self.spec_field_names(),
            names_view(names@).no_duplicates(),
    {
        let mut all: Vec<String> = Vec::new();
        let mut i: usize = 0;
        assert(names_view(all@) =~= all_names(self.spec_columns(), 0));
        while i < self.predicates.len()
            invariant
                i <= self.predicates@.len(),
                names_view(all@) == all_names(self.spec_columns(), i as int),
            decreases self.predicates@.len() - i,
        {
            let ghost before = names_view(all@);
            let mut names = copy_names(&self.predicates[i].columns);
            let ghost added = names_view(names@);
            all.append(&mut names);
            assert(names_view(all@) =~= before + added);
            i += 1;
        }
        let names = unique(&all);
        proof {
            lemma_distinct_no_duplicates(names_view(all@));
        }
        names
    }

    /// The schema as the engine holds it.
    pub closed spec fn spec_engine_schema(&self) -> DFSchema {
        self.dfschema
    }

    /// Whether an outcome is what is decided of an expression of the engine
    /// which does or does not aggregate over rows: the engine is asked for
    /// the type of the value of the expression over the schema. If it
    /// finds none, that is the error. A type which is neither that of truth
    /// values nor that of nulls is refused by its name. Only then is an
    /// expression which aggregates refused; any other is added.
    pub open spec fn decided(
        &self,
        expr: EngineExpr,
        aggregate: bool,
        result: Result<(), AddPredicateError>,
    ) -> bool {
        match engine_type(expr, self.spec_engine_schema()) {
            None => result matches Err(AddPredicateError::OutputType(_)),
            Some(OutputTypeView::Other(name)) => result matches Err(
                AddPredicateError::NotAPredicate(found),
            ) && found@ == name,
            Some(_) => if aggregate {
                result matches Err(AddPredicateError::ContainsAggregateFunctions)
            } else {
                result is Ok
            },
        }
    }

    /// Adds an expression which was parsed from text to the predicates.
    ///
    /// The engine is asked for the type of the value of the expression,
    /// which must be a truth value; then the expression must not aggregate
    /// over rows: no expression which does is ever added. A predicate which
    /// is refused leaves the predicates as they are; one which is added
    /// comes last, with its columns.
    pub fn add_parsed_predicate(&mut self, expr: ParsedExpr) -> (result: Result<
        (),
        AddPredicateError,
    >)
        ensures
            final(self).spec_schema() == old(self).spec_schema(),
            final(self).spec_engine_schema() == old(self).spec_engine_schema(),
            old(self).decided(expr.spec_inner(), expr.spec_has_aggregate(), result),
            result is Ok ==> final(self).spec_len() == old(self).spec_len() + 1,
            result is Ok ==> final(self).spec_columns() == old(self).spec_columns().push(
                expr.spec_columns(),
            ),
            result is Ok ==> final(self).spec_predicates() == old(self).spec_predicates().push(
                expr.spec_inner(),
            ),
            result is Err ==> final(self).spec_len() == old(self).spec_len(),
            result is Err ==> final(self).spec_columns() == old(self).spec_columns(),
            result is Err ==> final(self).spec_predicates() == old(self).spec_predicates(),
            result matches Err(e) ==> !(e is InvalidState),
            expr.spec_has_aggregate() ==> result is Err,
    {
        let output_type = match expr_output_type(expr.inner(), &self.dfschema) {
            Ok(output_type) => output_type,
            Err(e) => {
                return Err(AddPredicateError::OutputType(e));
            },
        };
        match accept_predicate(output_type, expr.has_aggregate_functions()) {
            Ok(()) => {
                let ghost before = self.spec_columns();
                let ghost held = self.spec_predicates();
                let columns = expr.columns();
                self.predicates.push(Predicate { expr: expr.into_inner(), columns });
                assert(self.spec_columns() =~= before.push(expr.spec_columns()));
                assert(self.spec_predicates() =~= held.push(expr.spec_inner()));
                Ok(())
            },
            Err(e) => Err(e),
        }
    }

    /// Whether an outcome is what is decided of text: the engine parses the
    /// text over the schema and makes the types of the operands agree, and
    /// fails at either; what is decided of the expression which comes is
    /// the outcome.
    pub open spec fn decided_of_text(
        &self,
        text: Seq<char>,
        result: Result<(), AddPredicateError>,
    ) -> bool {
        match parsed_text(text, self.spec_engine_schema()) {
            None => result matches Err(AddPredicateError::Parse(_)),
            Some(parsed) => match coerced(parsed, self.spec_engine_schema()) {
                None => result matches Err(AddPredicateError::TypeCoercion(_)),
                Some(expr) => self.decided(expr, engine_aggregates(expr), result),
            },
        }
    }

    /// Parses text as an expression and adds it to the predicates.
    ///
    /// The expression must be over the columns of the schema, its value
    /// must be a truth value, and it must not aggregate over rows.
    /// A predicate which is refused leaves the predicates as they are; one
    /// which is added comes last: the expression which the engine makes of
    /// the text, with the columns which the engine finds in it.
    pub fn add_text_predicate(&mut self, expr: &str) -> (result: Result<(), AddPredicateError>)
        ensures
            final(self).spec_schema() == old(self).spec_schema(),
            final(self).spec_engine_schema() == old(self).spec_engine_schema(),
            old(self).decided_of_text(expr@, result),
            result is Ok ==> (text_expr(expr@, old(self).spec_engine_schema()) matches Some(added)
                && final(self).spec_predicates() == old(self).spec_predicates().push(added)
                && names_are(final(self).spec_columns().last(), engine_columns(added))),
            result is Ok ==> final(self).spec_len() == old(self).spec_len() + 1,
            result is Ok ==> final(self).spec_columns().drop_last() == old(self).spec_columns(),
            result is Ok ==> final(self).spec_predicates().drop_last()
                == old(self).spec_predicates(),
            result is Err ==> final(self).spec_len() == old(self).spec_len(),
            result is Err ==> final(self).spec_columns() == old(self).spec_columns(),
            result is Err ==> final(self).spec_predicates() == old(self).spec_predicates(),
            result matches Err(e) ==> !(e is InvalidState),
    {
        let parsed_expr = match parse_sql_expr(&self.dfsession, expr, &self.dfschema) {
            Ok(parsed_expr) => parsed_expr,
            Err(e) => {
                return Err(AddPredicateError::Parse(e));
            },
        };
        let logical_expr = match coerce_types(parsed_expr, &self.dfschema) {
            Ok(logical_expr) => logical_expr,
            Err(e) => {
                return Err(AddPredicateError::TypeCoercion(e));
            },
        };
        let parsed = ParsedExpr::of_engine(logical_expr);
        let ghost before = self.spec_columns();
        let ghost held = self.spec_predicates();
        let result = self.add_parsed_predicate(parsed);
        proof {
            if result is Ok {
                assert(before.push(parsed.spec_columns()).drop_last() =~= before);
                assert(held.push(parsed.spec_inner()).drop_last() =~= held);
            }
        }
        result
    }

    /// Whether an outcome is what is decided of a logical expression: if
    /// the expression has no expression of the engine, that is the error,
    /// which it can be only of an expression with a list among its
    /// constants or with an aggregate function; else it is what is decided
    /// of the engine's expression, which is the same expression as the
    /// engine holds it.
    pub open spec fn decided_of(
        &self,
        expr: LogicalExprView,
        result: Result<(), AddPredicateError>,
    ) -> bool {
        (!expr.single_valued() && result matches Err(AddPredicateError::OutputType(_)))
            || exists|engine: EngineExpr|
            #[trigger] engine_expr(engine) == Some(engine_view(expr)) && self.decided(
                engine,
                expr.contains_aggregate(),
                result,
            )
    }

    /// Adds a logical expression to the predicates.
    ///
    /// The expression is handed to the engine, which is asked for the type
    /// of its value: that must be a truth value. Then the expression must
    /// not aggregate over rows. A predicate which is refused leaves the
    /// predicates as they are; one which is added comes last, with its
    /// columns.
    pub fn add_predicate(&mut self, logical_expr: &LogicalExpr) -> (result: Result<
        (),
        AddPredicateError,
    >)
        ensures
            final(self).spec_schema() == old(self).spec_schema(),
            final(self).spec_engine_schema() == old(self).spec_engine_schema(),
            old(self).decided_of(logical_expr@, result),
            result is Ok ==> final(self).spec_len() == old(self).spec_len() + 1,
            result is Ok ==> final(self).spec_columns() == old(self).spec_columns().push(
                distinct(logical_expr@.column_names()),
            ),
            result is Ok ==> final(self).spec_predicates().drop_last()
                == old(self).spec_predicates() && engine_expr(final(self).spec_predicates().last())
                == Some(engine_view(logical_expr@)),
            result is Err ==> final(self).spec_len() == old(self).spec_len(),
            result is Err ==> final(self).spec_columns() == old(self).spec_columns(),
            result is Err ==> final(self).spec_predicates() == old(self).spec_predicates(),
            result matches Err(e) ==> !(e is InvalidState),
            logical_expr@.contains_aggregate() ==> result is Err,
            result matches Err(AddPredicateError::ContainsAggregateFunctions)
                ==> logical_expr@.contains_aggregate(),
    {
        let expr = match expr_to_engine(logical_expr) {
            Ok(expr) => expr,
            Err(e) => {
                return Err(AddPredicateError::OutputType(e));
            },
        };
        let columns = logical_expr.columns();
        let aggregate = logical_expr.has_aggregate_functions();
        proof {
            lemma_distinct_no_duplicates(logical_expr@.column_names());
        }
        let ghost held = self.spec_predicates();
        let result = self.add_parsed_predicate(ParsedExpr::of_logical(expr, columns, aggregate));
        assert(old(self).decided(expr, logical_expr@.contains_aggregate(), result));
        proof {
            if result is Ok {
                assert(held.push(expr).drop_last() =~= held);
            }
        }
        result
    }

    /// Whether a predicate refers to a field which the schema lacks.
    pub open spec fn names_unknown_field(&self) -> bool {
        exists|k: int|
            0 <= k < self.spec_field_names().len() && find_field(
                self.spec_schema().fields@,
                #[trigger] self.spec_field_names()[k],
                0,
            ) is None
    }

    /// The fields which the predicates refer to as the engine is handed
    /// them: for each of the names, in their order, the first field of the
    /// schema of that name, with its type and whether it may hold nulls.
    pub open spec fn spec_projected(&self) -> Seq<FieldView> {
        Seq::new(
            self.spec_field_names().len(),
            |k: int|
                {
                    let found = find_field(
                        self.spec_schema().fields@,
                        self.spec_field_names()[k],
                        0,
                    )->Some_0;
                    let field = self.spec_schema().fields@[found];
                    (field.name@, Some(field.data_type), field.nullable)
                },
        )
    }

    /// Whether the predicates compile: each refers only to fields which the
    /// schema has, and the engine binds each to the fields which the
    /// predicates refer to.
    pub open spec fn spec_compiles(&self) -> bool {
        &&& !self.names_unknown_field()
        &&& forall|k: int|
            0 <= k < self.spec_predicates().len() ==> compiles(
                #[trigger] self.spec_predicates()[k],
                self.spec_projected(),
            )
    }

    /// Returns an evaluator of the conjunction of all the predicates, if
    /// they compile.
    ///
    /// The evaluator looks at the fields which the predicates refer to and
    /// at no others, so that the buffers of no other field are decoded.
    /// Without a predicate there is nothing which the engine could refuse,
    /// and the evaluator lets every row pass. A predicate which refers to a
    /// field that the schema lacks fails the compilation before the engine
    /// is asked. In any other case the engine decides, which is asked to
    /// bind each predicate to the fields.
    pub fn compile(&self) -> (result: Result<Evaluator, CompileError>)
        ensures
            result is Ok <==> self.spec_compiles(),
            result matches Err(e) ==> !(e is InvalidState),
            self.spec_len() == 0 ==> result is Ok,
            self.names_unknown_field() ==> result is Err,
            result matches Ok(evaluator) ==> names_view(evaluator.spec_field_names())
                == self.spec_field_names(),
            result matches Ok(evaluator) ==> names_view(
                evaluator.spec_field_names(),
            ).no_duplicates(),
            result matches Ok(evaluator) ==> forall|i: int|
                0 <= i < evaluator.spec_schema().fields@.len() ==> (find_field(
                    self.spec_schema().fields@,
                    (#[trigger] evaluator.spec_schema().fields@[i]).name@,
                    0,
                ) matches Some(j) && evaluator.spec_schema().fields@[i]
                    == self.spec_schema().fields@[j]),
    {
        let names = self.field_names();
        proof {
            if self.spec_len() == 0 {
                reveal_with_fuel(all_names, 1);
                reveal_with_fuel(distinct, 1);
                assert(names_view(names@).len() == 0);
                assert(names@.len() == 0);
            }
        }
        let mut fields: Vec<ArrowField> = Vec::with_capacity(names.len());
        let mut i: usize = 0;
        while i < names.len()
            invariant
                i <= names@.len(),
                fields@.len() == i,
                names_view(names@) == self.spec_field_names(),
                self.spec_len() == 0 ==> names@.len() == 0,
                forall|k: int| 0 <= k < i ==> (#[trigger] fields@[k]).name@ == names@[k]@,
                forall|k: int|
                    0 <= k < i ==> find_field(self.schema.fields@, #[trigger] names@[k]@, 0)
                        is Some,
                forall|k: int|
                    0 <= k < i ==> (find_field(
                        self.schema.fields@,
                        (#[trigger] fields@[k]).name@,
                        0,
                    ) matches Some(j) && fields@[k] == self.schema.fields@[j]),
            decreases names@.len() - i,
        {
            match field_by_name(&self.schema, &names[i]) {
                Some(field) => {
                    proof {
                        lemma_found_field(self.schema.fields@, names@[i as int]@, 0);
                    }
                    fields.push(field);
                },
                None => {
                    proof {
                        assert(names_view(names@)[i as int] == names@[i as int]@);
                        assert(self.spec_field_names().len() == names@.len());
                        assert(find_field(
                            self.spec_schema().fields@,
                            self.spec_field_names()[i as int],
                            0,
                        ) is None);
                        assert(self.names_unknown_field());
                    }
                    return Err(
                        CompileError::PhysicalExpr(
                            plan_error("a predicate refers to a field which the schema lacks"),
                        ),
                    );
                },
            }
            i += 1;
        }
        assert(names_view(field_names_of(fields@)) =~= names_view(names@));
        assert(!self.names_unknown_field()) by {
            assert forall|k: int| 0 <= k < self.spec_field_names().len() implies find_field(
                self.spec_schema().fields@,
                #[trigger] self.spec_field_names()[k],
                0,
            ) is Some by {
                assert(names_view(names@)[k] == names@[k]@);
            }
        }
        let schema = Schema { fields };
        proof {
            assert forall|k: int| 0 <= k < names@.len() implies #[trigger] named_fields(&schema)[k]
                == self.spec_projected()[k] by {
                assert(names_view(names@)[k] == names@[k]@);
                assert(fields@[k].name@ == names@[k]@);
            }
            assert(named_fields(&schema) =~= self.spec_projected());
        }
        let dfschema = match schema_to_engine(&schema) {
            Ok(dfschema) => dfschema,
            Err(e) => {
                return Err(CompileError::PhysicalExpr(e));
            },
        };
        let mut predicates: Vec<PhysicalExpr> = Vec::with_capacity(self.predicates.len());
        let mut k: usize = 0;
        while k < self.predicates.len()
            invariant
                k <= self.predicates@.len(),
                self.spec_len() == self.predicates@.len(),
                self.spec_predicates().len() == self.predicates@.len(),
                df_schema_fields(dfschema) == self.spec_projected(),
                of_column_types(self.spec_projected()),
                forall|j: int|
                    0 <= j < k ==> compiles(
                        #[trigger] self.spec_predicates()[j],
                        self.spec_projected(),
                    ),
            decreases self.predicates@.len() - k,
        {
            assert(self.spec_predicates()[k as int] == self.predicates@[k as int].expr);
            match compile(&self.predicates[k].expr, &dfschema) {
                Ok(predicate) => predicates.push(predicate),
                Err(e) => {
                    return Err(CompileError::PhysicalExpr(e));
                },
            }
            k += 1;
        }
        let predicate = physical_conjunction(predicates);
        Ok(Evaluator { schema: ArrowArraySchema { schema, enumerations: Vec::new() }, predicate })
    }
}

/// The names of the descriptions of columns, in their order.
pub open spec fn field_names_of(fields: Seq<ArrowField>) -> Seq<String> {
    Seq::new(fields.len(), |i: int| fields[i].name)
}

/// A field which is found has the name which was looked for.
proof fn lemma_found_field(fields: Seq<ArrowField>, name: Seq<char>, start: int)
    requires
        0 <= start,
    ensures
        find_field(fields, name, start) matches Some(i) ==> (start <= i < fields.len()
            && fields[i].name@ == name),
    decreases fields.len() - start,
{
    if start < fields.len() && fields[start].name@ != name {
        lemma_found_field(fields, name, start + 1);
    }
}

/// Evaluates the compiled predicates of a query.
pub struct Evaluator {
    /// The columns which the predicates refer to.
    schema: ArrowArraySchema,
    /// The conjunction of the predicates.
    predicate: PhysicalExpr,
}

impl Evaluator {
    /// The descriptions of the columns which the predicates refer to.
    pub closed spec fn spec_schema(&self) -> Schema {
        self.schema.schema
    }

    /// The names of the fields which the predicates refer to.
    pub open spec fn spec_field_names(&self) -> Seq<String> {
        field_names_of(self.spec_schema().fields@)
    }

    /// Returns the names of the fields which the predicates refer to.
    pub fn field_names(&self) -> (names: Vec<String>)
        ensures
            names_view(names@) == names_view(self.spec_field_names()),
    {
        let mut names: Vec<String> = Vec::with_capacity(self.schema.schema.fields.len());
        let mut i: usize = 0;
        while i < self.schema.schema.fields.len()
            invariant
                i <= self.schema.schema.fields@.len(),
                names@.len() == i,
                forall|j: int|
                    0 <= j < i ==> (#[trigger] names@[j])@
                        == self.schema.schema.fields@[j].name@,
            decreases self.schema.schema.fields@.len() - i,
        {
            names.push(self.schema.schema.fields[i].name.clone());
            i += 1;
        }
        assert(names_view(names@) =~= names_view(self.spec_field_names()));
        names
    }

    /// Returns whether a batch of rows can be made into the columns which
    /// the predicates refer to.
    pub fn is_consistent(&self, tile: &ResultTile) -> (yes: bool)
        ensures
            yes == consistent(self.spec_schema().fields@, tile),
    {
        is_consistent(&self.schema, tile)
    }

    /// Evaluates the predicates against a batch of rows.
    ///
    /// The batch is made into columns first: if the buffers of a field are
    /// refused, the engine is not asked, and the field and the reason are
    /// returned. Any other error is the engine's.
    pub fn evaluate(&self, tile: &ResultTile) -> (result: Result<
        PhysicalExprOutput,
        EvaluatePredicateError,
    >)
        requires
            consistent(self.spec_schema().fields@, tile),
        ensures
            result matches Err(e) ==> e is ResultTile || e is Evaluate,
            result matches Ok(output) ==> output.spec_kind_is_of_value(),
            tile_refused(self.spec_schema().fields@, tile) is Some <==> result matches Err(
                EvaluatePredicateError::ResultTile(_),
            ),
            result matches Err(EvaluatePredicateError::ResultTile(e)) ==> tile_refused(
                self.spec_schema().fields@,
                tile,
            ) == Some(e@),
    {
        let batch = match to_record_batch(&self.schema, tile) {
            Ok(batch) => batch,
            Err(e) => {
                return Err(EvaluatePredicateError::ResultTile(e));
            },
        };
        match self.predicate.evaluate(&*batch) {
            Ok(output) => Ok(*output),
            Err(crate::physical_expr::PhysicalExprError::Create(e)) => Err(
                EvaluatePredicateError::Evaluate(e),
            ),
            Err(crate::physical_expr::PhysicalExprError::Evaluate(e)) => Err(
                EvaluatePredicateError::Evaluate(e),
            ),
        }
    }

    /// Evaluates the predicates against a batch of rows and folds the
    /// outcome into `bitmap`, which has one entry for each row, with `zero`
    /// for a cleared entry.
    ///
    /// The entries of the rows which do not pass are cleared and no entry
    /// is set. If the evaluation fails the bitmap stays as it is. A batch
    /// whose buffers are refused fails it before the engine is asked.
    pub fn evaluate_into_bitmap<T: Copy>(&self, tile: &ResultTile, bitmap: &mut [T], zero: T) -> (result:
        Result<(), EvaluatePredicateError>)
        requires
            consistent(self.spec_schema().fields@, tile),
        ensures
            result is Err ==> final(bitmap)@ == old(bitmap)@,
            result is Ok ==> exists|output: EvaluationOutput|
                output.covers(old(bitmap)@.len()) && final(bitmap)@ == #[trigger] reduced(
                    &output,
                    old(bitmap)@,
                    zero,
                ),
            result matches Err(e) ==> !(e is InvalidState),
            tile_refused(self.spec_schema().fields@, tile) is Some <==> result matches Err(
                EvaluatePredicateError::ResultTile(_),
            ),
            result matches Err(EvaluatePredicateError::ResultTile(e)) ==> tile_refused(
                self.spec_schema().fields@,
                tile,
            ) == Some(e@),
    {
        let output = match self.evaluate(tile) {
            Ok(output) => output,
            Err(e) => {
                return Err(e);
            },
        };
        let kind = output.into_kind();
        fold_output(kind, bitmap, zero)
    }
}

/// Why a batch of rows does not make the columns of the fields, if it does
/// not: the first field whose buffers are refused, and the reason.
pub open spec fn tile_refused(fields: Seq<ArrowField>, tile: &ResultTile) -> Option<ErrorView> {
    match spec_columns(fields, tile, fields.len() as int) {
        Ok(_) => None,
        Err(e) => Some(e),
    }
}

/// The predicates of a query, in one of two states.
pub enum QueryPredicates {
    /// Predicates are being added to the query.
    Build(Builder),
    /// The query is being evaluated.
    Evaluate(Evaluator),
}

impl QueryPredicates {
    /// Returns the predicates of a query over an array schema, in the
    /// state in which predicates are added, with none yet.
    ///
    /// Fails if the array schema has no columnar view, with the reason, and
    /// only then.
    pub fn new(schema: &ArraySchema) -> (result: Result<QueryPredicates, SchemaError>)
        requires
            projectable(schema, WhichSchema::View, None),
        ensures
            match result {
                Ok(predicates) => predicates matches QueryPredicates::Build(builder)
                    && builder.spec_len() == 0 && (spec_project_arrow(
                    schema,
                    WhichSchema::View,
                    None,
                ) matches Ok(projection) && field_views(builder.spec_schema().fields@)
                    == projection.0),
                Err(SchemaError::Schema(e)) => spec_project_arrow(schema, WhichSchema::View, None)
                    == Err::<
                    (
                        Seq<crate::schema::ArrowFieldView>,
                        Seq<crate::schema::ResolvedEnumerationView>,
                    ),
                    crate::schema::ErrorView,
                >(e@),
                Err(SchemaError::Engine(_)) => false,
            },
            result is Ok <==> spec_project_arrow(schema, WhichSchema::View, None) is Ok,
    {
        match Builder::new(schema, WhichSchema::View) {
            Ok(builder) => Ok(QueryPredicates::Build(builder)),
            Err(e) => Err(e),
        }
    }

    /// Parses text as an expression and adds it to the predicates.
    /// Predicates which have been compiled take no more, and stay as they
    /// are.
    pub fn add_text_predicate(&mut self, expr: &str) -> (result: Result<(), AddPredicateError>)
        ensures
            *old(self) is Evaluate ==> result matches Err(AddPredicateError::InvalidState),
            *old(self) is Evaluate ==> *final(self) == *old(self),
            *old(self) is Build ==> *final(self) is Build && !(result matches Err(
                AddPredicateError::InvalidState,
            )),
            *old(self) is Build ==> final(self)->Build_0.spec_schema()
                == old(self)->Build_0.spec_schema(),
            *old(self) is Build && result is Ok ==> final(self)->Build_0.spec_len()
                == old(self)->Build_0.spec_len() + 1,
            *old(self) is Build && result is Err ==> final(self)->Build_0.spec_len()
                == old(self)->Build_0.spec_len(),
            *old(self) is Build && result is Ok ==> final(self)->Build_0.spec_columns().drop_last()
                == old(self)->Build_0.spec_columns(),
            *old(self) matches QueryPredicates::Build(builder) ==> builder.decided_of_text(
                expr@,
                result,
            ),
            *old(self) is Build && result is Err ==> final(self)->Build_0.spec_columns()
                == old(self)->Build_0.spec_columns(),
    {
        match self {
            QueryPredicates::Build(builder) => builder.add_text_predicate(expr),
            QueryPredicates::Evaluate(_) => Err(AddPredicateError::InvalidState),
        }
    }

    /// Adds a logical expression to the predicates, if the engine finds
    /// that its value is a truth value and it does not aggregate over rows;
    /// the type is looked at first. Predicates which have been compiled
    /// take no more, and stay as they are.
    pub fn add_predicate(&mut self, logical_expr: &LogicalExpr) -> (result: Result<
        (),
        AddPredicateError,
    >)
        ensures
            *old(self) is Evaluate ==> result matches Err(AddPredicateError::InvalidState),
            *old(self) is Evaluate ==> *final(self) == *old(self),
            *old(self) is Build ==> *final(self) is Build && !(result matches Err(
                AddPredicateError::InvalidState,
            )),
            *old(self) is Build ==> final(self)->Build_0.spec_schema()
                == old(self)->Build_0.spec_schema(),
            *old(self) is Build && result is Ok ==> final(self)->Build_0.spec_len()
                == old(self)->Build_0.spec_len() + 1,
            *old(self) is Build && result is Err ==> final(self)->Build_0.spec_len()
                == old(self)->Build_0.spec_len(),
            *old(self) matches QueryPredicates::Build(builder) ==> builder.decided_of(
                logical_expr@,
                result,
            ),
            logical_expr@.contains_aggregate() ==> result is Err,
            result matches Err(AddPredicateError::ContainsAggregateFunctions)
                ==> logical_expr@.contains_aggregate(),
            *old(self) is Build && result is Ok ==> final(self)->Build_0.spec_columns()
                == old(self)->Build_0.spec_columns().push(distinct(logical_expr@.column_names())),
            *old(self) is Build && result is Err ==> final(self)->Build_0.spec_columns()
                == old(self)->Build_0.spec_columns(),
    {
        match self {
            QueryPredicates::Build(builder) => builder.add_predicate(logical_expr),
            QueryPredicates::Evaluate(_) => Err(AddPredicateError::InvalidState),
        }
    }

    /// Compiles the predicates, after which they can be evaluated and no
    /// more can be added. Predicates which are being gathered move on if and
    /// only if they compile. Predicates which do not compile stay as they
    /// are, and so do predicates which have been compiled already.
    pub fn compile(&mut self) -> (result: Result<(), CompileError>)
        ensures
            *old(self) is Evaluate ==> result matches Err(CompileError::InvalidState),
            *old(self) is Build ==> !(result matches Err(CompileError::InvalidState)),
            result is Ok ==> *final(self) is Evaluate,
            result is Ok ==> names_view(final(self)->Evaluate_0.spec_field_names())
                == old(self)->Build_0.spec_field_names(),
            result is Err ==> *final(self) == *old(self),
            *old(self) matches QueryPredicates::Build(builder) ==> (result is Ok
                <==> builder.spec_compiles()),
            *old(self) matches QueryPredicates::Build(builder) && builder.spec_len() == 0
                ==> result is Ok,
            *old(self) matches QueryPredicates::Build(builder) && builder.names_unknown_field()
                ==> result is Err,
    {
        let evaluator = match self {
            QueryPredicates::Build(builder) => match builder.compile() {
                Ok(evaluator) => evaluator,
                Err(e) => {
                    return Err(e);
                },
            },
            QueryPredicates::Evaluate(_) => {
                return Err(CompileError::InvalidState);
            },
        };
        *self = QueryPredicates::Evaluate(evaluator);
        Ok(())
    }

    /// Returns the names of the fields which the predicates refer to, each
    /// once, in the order in which the predicates first name them.
    pub fn field_names(&self) -> (names: Vec<String>)
        ensures
            *self matches QueryPredicates::Build(builder) ==> names_view(names@)
                == builder.spec_field_names(),
            *self is Build ==> names_view(names@).no_duplicates(),
            *self matches QueryPredicates::Evaluate(evaluator) ==> names_view(names@)
                == names_view(evaluator.spec_field_names()),
    {
        match self {
            QueryPredicates::Build(builder) => builder.field_names(),
            QueryPredicates::Evaluate(evaluator) => evaluator.field_names(),
        }
    }

    /// The descriptions of the columns which compiled predicates refer to.
    pub open spec fn spec_evaluation_fields(&self) -> Seq<ArrowField> {
        match self {
            QueryPredicates::Build(_) => Seq::empty(),
            QueryPredicates::Evaluate(evaluator) => evaluator.spec_schema().fields@,
        }
    }

    /// Returns whether a batch of rows can be made into the columns which
    /// the predicates refer to. It always can while no column is referred
    /// to, as before the predicates are compiled.
    pub fn is_consistent(&self, tile: &ResultTile) -> (yes: bool)
        ensures
            *self is Evaluate ==> yes == consistent(self.spec_evaluation_fields(), tile),
            *self is Build ==> yes,
    {
        match self {
            QueryPredicates::Build(_) => true,
            QueryPredicates::Evaluate(evaluator) => evaluator.is_consistent(tile),
        }
    }

    /// Evaluates the predicates against a batch of rows. Predicates which
    /// have not been compiled are not evaluated.
    pub fn evaluate(&self, tile: &ResultTile) -> (result: Result<
        PhysicalExprOutput,
        EvaluatePredicateError,
    >)
        requires
            *self is Evaluate ==> consistent(self.spec_evaluation_fields(), tile),
        ensures
            *self is Build <==> result matches Err(EvaluatePredicateError::InvalidState),
            result matches Ok(output) ==> output.spec_kind_is_of_value(),
            *self is Evaluate ==> (tile_refused(self.spec_evaluation_fields(), tile) is Some
                <==> result matches Err(EvaluatePredicateError::ResultTile(_))),
            result matches Err(EvaluatePredicateError::ResultTile(e)) ==> tile_refused(
                self.spec_evaluation_fields(),
                tile,
            ) == Some(e@),
    {
        match self {
            QueryPredicates::Build(_) => Err(EvaluatePredicateError::InvalidState),
            QueryPredicates::Evaluate(evaluator) => evaluator.evaluate(tile),
        }
    }

    /// Evaluates the predicates against a batch of rows and folds the
    /// outcome into `bitmap`, which has one entry for each row, with `zero`
    /// for a cleared entry. Predicates which have not been compiled are not
    /// evaluated, and the bitmap stays as it is.
    pub fn evaluate_into_bitmap<T: Copy>(&self, tile: &ResultTile, bitmap: &mut [T], zero: T) -> (result:
        Result<(), EvaluatePredicateError>)
        requires
            *self is Evaluate ==> consistent(self.spec_evaluation_fields(), tile),
        ensures
            *self is Build <==> result matches Err(EvaluatePredicateError::InvalidState),
            *self is Evaluate ==> (tile_refused(self.spec_evaluation_fields(), tile) is Some
                <==> result matches Err(EvaluatePredicateError::ResultTile(_))),
            result matches Err(EvaluatePredicateError::ResultTile(e)) ==> tile_refused(
                self.spec_evaluation_fields(),
                tile,
            ) == Some(e@),
            result is Err ==> final(bitmap)@ == old(bitmap)@,
            result is Ok ==> exists|output: EvaluationOutput|
                output.covers(old(bitmap)@.len()) && final(bitmap)@ == #[trigger] reduced(
                    &output,
                    old(bitmap)@,
                    zero,
                ),
    {
        match self {
            QueryPredicates::Build(_) => Err(EvaluatePredicateError::InvalidState),
            QueryPredicates::Evaluate(evaluator) => evaluator.evaluate_into_bitmap(
                tile,
                bitmap,
                zero,
            ),
        }
    }

    /// Evaluates the predicates and folds the outcome into a bitmap of
    /// bytes.
    pub fn evaluate_into_bitmap_u8(&self, tile: &ResultTile, bitmap: &mut [u8]) -> (result: Result<
        (),
        EvaluatePredicateError,
    >)
        requires
            *self is Evaluate ==> consistent(self.spec_evaluation_fields(), tile),
        ensures
            *self is Build <==> result matches Err(EvaluatePredicateError::InvalidState),
            *self is Evaluate ==> (tile_refused(self.spec_evaluation_fields(), tile) is Some
                <==> result matches Err(EvaluatePredicateError::ResultTile(_))),
            result matches Err(EvaluatePredicateError::ResultTile(e)) ==> tile_refused(
                self.spec_evaluation_fields(),
                tile,
            ) == Some(e@),
            result is Err ==> final(bitmap)@ == old(bitmap)@,
            result is Ok ==> exists|output: EvaluationOutput|
                output.covers(old(bitmap)@.len()) && final(bitmap)@ == #[trigger] reduced(
                    &output,
                    old(bitmap)@,
                    0u8,
                ),
    {
        self.evaluate_into_bitmap::<u8>(tile, bitmap, 0)
    }

    /// Evaluates the predicates and folds the outcome into a bitmap of
    /// 64-bit counts.
    pub fn evaluate_into_bitmap_u64(&self, tile: &ResultTile, bitmap: &mut [u64]) -> (result: Result<
        (),
        EvaluatePredicateError,
    >)
        requires
            *self is Evaluate ==> consistent(self.spec_evaluation_fields(), tile),
        ensures
            *self is Build <==> result matches Err(EvaluatePredicateError::InvalidState),
            *self is Evaluate ==> (tile_refused(self.spec_evaluation_fields(), tile) is Some
                <==> result matches Err(EvaluatePredicateError::ResultTile(_))),
            result matches Err(EvaluatePredicateError::ResultTile(e)) ==> tile_refused(
                self.spec_evaluation_fields(),
                tile,
            ) == Some(e@),
            result is Err ==> final(bitmap)@ == old(bitmap)@,
            result is Ok ==> exists|output: EvaluationOutput|
                output.covers(old(bitmap)@.len()) && final(bitmap)@ == #[trigger] reduced(
                    &output,
                    old(bitmap)@,
                    0u64,
                ),
    {
        self.evaluate_into_bitmap::<u64>(tile, bitmap, 0)
    }
}

} // verus!
