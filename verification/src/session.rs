//! Parsing text into expressions over the columns of an array.

use vstd::prelude::*;
use datafusion::common::DataFusionError;
use datafusion::logical_expr::Expr as EngineExpr;
use datafusion::prelude::SessionContext;
use crate::array_schema::ArraySchema;
use crate::engine::{
    FieldView, OutputType, coerce_types, coerced, df_schema_fields, engine_aggregates,
    engine_columns, engine_fields, expr_column_names, expr_has_aggregate, expr_text,
    expr_to_string, named_fields, names_are, new_session, parse_sql_expr, parsed_text,
    schema_to_engine,
};
use datafusion::common::DFSchema;
use crate::logical_expr::{
    TypeError, copy_names, engine_output_type, is_predicate_type, lemma_distinct_no_duplicates,
    predicate_of, typed_over, unique,
};
use crate::schema::{
    WhichSchema, field_views, names_view, projectable, spec_project_arrow, to_arrow,
};

verus! {

/// Why text is no expression over the columns of an array.
#[derive(Debug)]
pub enum ParseExprError {
    /// The array schema has no columnar view.
    Schema(crate::schema::Error),
    /// The engine refuses the columnar view.
    Engine(DataFusionError),
    /// The text does not parse as an expression over the columns.
    Parse(DataFusionError),
    /// The types of the operands in the expression do not agree.
    TypeCoercion(DataFusionError),
}

/// An expression of the engine, with what the engine said of it when it
/// was made: the columns which it refers to, whether it aggregates over
/// rows, and how it reads as text.
pub struct ParsedExpr {
    expr: EngineExpr,
    columns: Vec<String>,
    aggregate: bool,
    text: String,
}

impl ParsedExpr {
    #[verifier::type_invariant]
    spec fn recorded(&self) -> bool {
        names_view(self.columns@).no_duplicates() && self.text@ == expr_text(self.expr)
    }

    /// The expression as the engine holds it.
    pub closed spec fn spec_inner(&self) -> EngineExpr {
        self.expr
    }

    /// The names of the columns which the expression refers to, each once.
    pub closed spec fn spec_columns(&self) -> Seq<Seq<char>> {
        names_view(self.columns@)
    }

    /// Whether a node of the expression aggregates over rows.
    pub closed spec fn spec_has_aggregate(&self) -> bool {
        self.aggregate
    }

    /// The expression as text.
    pub closed spec fn spec_text(&self) -> Seq<char> {
        self.text@
    }

    /// Whether this is the record of an expression of the engine: it holds
    /// the expression, the names of the columns which the engine finds in
    /// it, each once, whether the engine finds an aggregate in it, and the
    /// text which the engine prints for it.
    pub open spec fn records(&self, expr: EngineExpr) -> bool {
        &&& self.spec_inner() == expr
        &&& self.spec_columns().no_duplicates()
        &&& names_are(self.spec_columns(), engine_columns(expr))
        &&& self.spec_has_aggregate() == engine_aggregates(expr)
        &&& self.spec_text() == expr_text(expr)
    }

    /// Records of an expression of the engine what the engine says of it:
    /// its columns, each once in the order in which the engine names them,
    /// whether the engine finds an aggregate in it, and its text.
    pub(crate) fn of_engine(expr: EngineExpr) -> (parsed: ParsedExpr)
        ensures
            parsed.records(expr),
    {
        let all = expr_column_names(&expr);
        let columns = unique(&all);
        proof {
            lemma_distinct_no_duplicates(names_view(all@));
        }
        let aggregate = expr_has_aggregate(&expr);
        let text = expr_to_string(&expr);
        ParsedExpr { expr, columns, aggregate, text }
    }

    /// Returns the record of the engine's expression for a logical
    /// expression. The columns are those of the logical expression, each
    /// once, and so is whether it aggregates over rows; the text is the
    /// engine's.
    pub(crate) fn of_logical(expr: EngineExpr, columns: Vec<String>, aggregate: bool) -> (parsed:
        ParsedExpr)
        requires
            names_view(columns@).no_duplicates(),
        ensures
            parsed.spec_inner() == expr,
            parsed.spec_columns() == names_view(columns@),
            parsed.spec_has_aggregate() == aggregate,
            parsed.spec_text() == expr_text(expr),
    {
        let text = expr_to_string(&expr);
        ParsedExpr { expr, columns, aggregate, text }
    }

    /// Returns the expression as the engine holds it.
    pub(crate) fn inner(&self) -> (inner: &EngineExpr)
        ensures
            *inner == self.spec_inner(),
    {
        &self.expr
    }

    /// Returns the names of the columns which the expression refers to,
    /// each once.
    pub fn columns(&self) -> (columns: Vec<String>)
        ensures
            names_view(columns@) == self.spec_columns(),
            names_view(columns@).no_duplicates(),
    {
        proof {
            use_type_invariant(self);
        }
        copy_names(&self.columns)
    }

    /// Returns whether a node of the expression aggregates over rows, as
    /// the engine found walking the expression from the top.
    pub fn has_aggregate_functions(&self) -> (found: bool)
        ensures
            found == self.spec_has_aggregate(),
    {
        self.aggregate
    }

    /// Returns the expression as text, as the engine prints it.
    pub fn to_string(&self) -> (text: String)
        ensures
            text@ == self.spec_text(),
            text@ == expr_text(self.spec_inner()),
    {
        proof {
            use_type_invariant(self);
        }
        self.text.clone()
    }

    /// Returns the kind of type of the value of this expression over the
    /// view of an array schema. Only the fields which the expression refers
    /// to are projected. The projection fails for its own reasons; over
    /// the fields the engine finds the type, or none.
    pub fn output_type(&self, schema: &ArraySchema) -> (result: Result<OutputType, TypeError>)
        requires
            projectable(schema, WhichSchema::View, Some(self.spec_columns())),
        ensures
            typed_over(self.spec_inner(), schema, self.spec_columns(), result),
    {
        engine_output_type(&self.expr, &self.columns, schema)
    }

    /// Returns whether the value of this expression over the view of an
    /// array schema is a truth value.
    pub fn is_predicate(&self, schema: &ArraySchema) -> (result: Result<bool, TypeError>)
        requires
            projectable(schema, WhichSchema::View, Some(self.spec_columns())),
        ensures
            exists|typed: Result<OutputType, TypeError>|
                typed_over(self.spec_inner(), schema, self.spec_columns(), typed) && result
                    == #[trigger] predicate_of(typed),
    {
        is_predicate_type(self.output_type(schema))
    }

    /// Gives up this expression for what the engine holds.
    pub(crate) fn into_inner(self) -> (inner: EngineExpr)
        ensures
            inner == self.spec_inner(),
    {
        self.expr
    }
}

/// A session of the engine, which parses text.
pub struct Session(SessionContext);

impl Session {
    /// Returns a session with the default features of the engine.
    pub fn new() -> Session {
        Session(new_session())
    }

    /// Parses text as an expression over the columns of the view of an
    /// array schema, and makes the types of its operands agree.
    ///
    /// The view fails for its own reasons. Over its columns the engine
    /// parses the text and makes the types agree, and fails at either; the
    /// record of the expression which comes is returned.
    pub fn parse_expr(&self, expr: &str, array_schema: &ArraySchema) -> (result: Result<
        ParsedExpr,
        ParseExprError,
    >)
        requires
            projectable(array_schema, WhichSchema::View, None),
        ensures
            spec_project_arrow(array_schema, WhichSchema::View, None) is Err <==> result matches Err(
                ParseExprError::Schema(_),
            ),
            match spec_project_arrow(array_schema, WhichSchema::View, None) {
                Err(e) => result matches Err(ParseExprError::Schema(found)) && found@ == e,
                Ok(projection) => exists|schema: DFSchema|
                    #[trigger] df_schema_fields(schema) == engine_fields(projection.0)
                        && parsed_over(expr@, schema, result),
            },
    {
        let (arrow_schema, _) = match to_arrow(array_schema, WhichSchema::View) {
            Ok(projection) => projection,
            Err(e) => {
                return Err(ParseExprError::Schema(e));
            },
        };
        let df_schema = match schema_to_engine(&arrow_schema) {
            Ok(df_schema) => df_schema,
            Err(e) => {
                return Err(ParseExprError::Engine(e));
            },
        };
        let parsed = match parse_sql_expr(&self.0, expr, &df_schema) {
            Ok(parsed) => parsed,
            Err(e) => {
                return Err(ParseExprError::Parse(e));
            },
        };
        let result = match coerce_types(parsed, &df_schema) {
            Ok(expr) => Ok(ParsedExpr::of_engine(expr)),
            Err(e) => Err(ParseExprError::TypeCoercion(e)),
        };
        proof {
            assert(named_fields(&arrow_schema) =~= engine_fields(
                field_views(arrow_schema.fields@),
            ));
            assert(df_schema_fields(df_schema) == engine_fields(field_views(arrow_schema.fields@))
                && parsed_over(expr@, df_schema, result));
        }
        result
    }
}

/// The expression which the engine makes of text over a schema: it parses
/// the text and makes the types of the operands agree, if it can do both.
pub open spec fn text_expr(text: Seq<char>, schema: DFSchema) -> Option<EngineExpr> {
    match parsed_text(text, schema) {
        None => None,
        Some(parsed) => coerced(parsed, schema),
    }
}

/// Whether an outcome is what parsing text over a schema of the engine
/// gives: the record of the expression which the engine makes of the
/// text, or the error of the step at which the engine fails.
pub open spec fn parsed_over(
    text: Seq<char>,
    schema: DFSchema,
    result: Result<ParsedExpr, ParseExprError>,
) -> bool {
    match parsed_text(text, schema) {
        None => result matches Err(ParseExprError::Parse(_)),
        Some(parsed) => match coerced(parsed, schema) {
            None => result matches Err(ParseExprError::TypeCoercion(_)),
            Some(expr) => result matches Ok(record) && record.records(expr),
        },
    }
}

} // verus!
