//! Predicates bound to a schema, and what evaluating them gives.
//!
//! A logical expression is compiled once against the schema of the batches
//! it will see, and may then be evaluated against any number of them.

use vstd::prelude::*;
use datafusion::common::DataFusionError;
use datafusion::logical_expr::ColumnarValue;
use datafusion::logical_expr::Expr as EngineExpr;
use crate::bitmap::EvaluationOutput;
use crate::engine::{
    FieldView, columnar_kind, compiles, engine_expr, engine_view,
    OutputKind, cast_value, classify, columnar_cast, columnar_type, columnar_type_name, columnar_u64,
    columnar_u8, columnar_values_u64, columnar_values_u8, columns_to_engine, compile,
    distinct_schema_to_engine, engine_data_type, evaluate, expr_to_engine, field_names,
    from_arrow_error, named_fields, plan_error, refuses_nulls, schema_to_engine,
};
use crate::enums::Datatype;
use crate::logical_expr::{LogicalExpr, LogicalExprView};
use crate::record_batch::ArrowRecordBatch;
use crate::session::ParsedExpr;
use crate::schema::{
    ArrowDataType, FieldErrorView, Schema, arrow_primitive_datatype, spec_arrow_primitive_datatype,
};

pub use crate::engine::PhysicalExpr;

verus! {

/// An error using a [`PhysicalExpr`].
#[derive(Debug)]
pub enum PhysicalExprError {
    /// The expression does not compile against the schema.
    Create(DataFusionError),
    /// The expression does not evaluate against the batch.
    Evaluate(DataFusionError),
}

/// An error using the output of the evaluation of a predicate.
#[derive(Debug)]
pub enum PhysicalExprOutputError {
    /// The datatype to cast to has no column type.
    TypeUnavailable(crate::schema::FieldError),
    /// The output does not cast to the type.
    Cast(DataFusionError),
    /// The output is not of the type asked for. Holds the name of that type
    /// and the name of the type found.
    InvalidStaticType(String, String),
}

/// Whether an expression is bound to fields or not as the engine decides:
/// there is an expression of the engine which is the same expression as
/// the engine holds it, and it is bound if and only if the engine binds
/// that one. Only an expression with a list among its constants may have
/// no expression of the engine, and is then not bound.
pub open spec fn bound_as_decided(expr: LogicalExprView, fields: Seq<FieldView>, bound: bool) -> bool {
    (!expr.single_valued() && !bound) || exists|engine: EngineExpr|
        #[trigger] engine_expr(engine) == Some(engine_view(expr)) && (bound <==> compiles(
            engine,
            fields,
        ))
}

/// Returns a predicate which evaluates `expr` for batches of the given
/// schema. Fails if a column of the expression is not in the schema or the
/// types of its operands do not agree, and always if the expression
/// aggregates over rows or two columns of the schema have one name. In any
/// other case the engine decides, which is asked to bind the same
/// expression to the fields of the schema.
pub fn create_physical_expr(schema: &Schema, expr: Box<LogicalExpr>) -> (result: Result<
    Box<PhysicalExpr>,
    PhysicalExprError,
>)
    ensures
        result matches Err(e) ==> e is Create,
        expr@.contains_aggregate() ==> result is Err,
        !field_names(named_fields(schema)).no_duplicates() ==> result is Err,
        !expr@.contains_aggregate() && field_names(named_fields(schema)).no_duplicates()
            ==> bound_as_decided(expr@, named_fields(schema), result is Ok),
{
    if expr.has_aggregate_functions() {
        return Err(
            PhysicalExprError::Create(plan_error("an aggregate over rows has no value for a row")),
        );
    }
    let dfschema = match distinct_schema_to_engine(schema) {
        Ok(dfschema) => dfschema,
        Err(e) => {
            return Err(PhysicalExprError::Create(e));
        },
    };
    let dfexpr = match expr_to_engine(&*expr) {
        Ok(dfexpr) => dfexpr,
        Err(e) => {
            return Err(PhysicalExprError::Create(e));
        },
    };
    let result = match compile(&dfexpr, &dfschema) {
        Ok(physical) => Ok(Box::new(physical)),
        Err(e) => Err(PhysicalExprError::Create(e)),
    };
    assert(engine_expr(dfexpr) == Some(engine_view(expr@)) && (result is Ok <==> compiles(
        dfexpr,
        named_fields(schema),
    )));
    result
}

/// Returns a predicate which evaluates an expression that was parsed from
/// text for batches of the given schema. Fails if the expression
/// aggregates over rows or two columns of the schema have one name. In any
/// other case it comes if and only if the engine binds the expression to
/// the fields of the schema.
pub fn create_parsed_physical_expr(schema: &Schema, expr: &ParsedExpr) -> (result: Result<
    Box<PhysicalExpr>,
    PhysicalExprError,
>)
    ensures
        result matches Err(e) ==> e is Create,
        result is Ok <==> !expr.spec_has_aggregate() && field_names(
            named_fields(schema),
        ).no_duplicates() && compiles(expr.spec_inner(), named_fields(schema)),
{
    if expr.has_aggregate_functions() {
        return Err(
            PhysicalExprError::Create(plan_error("an aggregate over rows has no value for a row")),
        );
    }
    let dfschema = match distinct_schema_to_engine(schema) {
        Ok(dfschema) => dfschema,
        Err(e) => {
            return Err(PhysicalExprError::Create(e));
        },
    };
    match compile(expr.inner(), &dfschema) {
        Ok(physical) => Ok(Box::new(physical)),
        Err(e) => Err(PhysicalExprError::Create(e)),
    }
}

/// The output of the evaluation of a predicate.
pub struct PhysicalExprOutput {
    value: ColumnarValue,
    kind: OutputKind,
}

/// The truth values of an output of the given kind: the truth values
/// themselves, null for all rows for nulls without a type, and nothing for
/// an output which holds no truth values.
pub open spec fn truth_of(kind: OutputKind) -> Option<EvaluationOutput> {
    match kind {
        OutputKind::BooleanScalar(b) => Some(EvaluationOutput::Scalar(b)),
        OutputKind::NullScalar => Some(EvaluationOutput::Scalar(None)),
        OutputKind::OtherScalar => None,
        OutputKind::BooleanArray(v) => Some(EvaluationOutput::Array(v)),
        OutputKind::NullArray(_) => Some(EvaluationOutput::Scalar(None)),
        OutputKind::OtherArray => None,
    }
}

/// Returns the truth values of an output of the given kind.
///
/// A truth value for all rows, or null for all, stands for itself. Nulls
/// without a type are null for all rows, however many there are. An output
/// of any other type has no truth values.
pub fn evaluation_output(kind: OutputKind) -> (output: Option<EvaluationOutput>)
    ensures
        output == truth_of(kind),
{
    match kind {
        OutputKind::BooleanScalar(b) => Some(EvaluationOutput::Scalar(b)),
        OutputKind::NullScalar => Some(EvaluationOutput::Scalar(None)),
        OutputKind::OtherScalar => None,
        OutputKind::BooleanArray(v) => Some(EvaluationOutput::Array(v)),
        OutputKind::NullArray(_) => Some(EvaluationOutput::Scalar(None)),
        OutputKind::OtherArray => None,
    }
}

impl PhysicalExpr {
    /// Evaluates this predicate against a batch of columns. Fails if the
    /// batch does not have the columns or the types which the predicate was
    /// compiled for.
    ///
    /// The engine is handed a schema which has a field for each column of
    /// the batch, of its name and type, and arrays which hold the columns.
    /// A batch with a column of nulls which the engine does not make fails
    /// before the engine is asked to evaluate. Every error is of the
    /// evaluation.
    pub fn evaluate(&self, records: &ArrowRecordBatch) -> (result: Result<
        Box<PhysicalExprOutput>,
        PhysicalExprError,
    >)
        ensures
            result matches Err(e) ==> e is Evaluate,
            refuses_nulls(records.spec_columns()) ==> result is Err,
            result matches Ok(output) ==> output.spec_kind_is_of_value(),
    {
        let dfschema = match schema_to_engine(records.schema()) {
            Ok(dfschema) => dfschema,
            Err(e) => {
                return Err(PhysicalExprError::Evaluate(e));
            },
        };
        let columns = match columns_to_engine(records) {
            Ok(columns) => columns,
            Err(e) => {
                return Err(PhysicalExprError::Evaluate(from_arrow_error(e)));
            },
        };
        match evaluate(self, &dfschema, columns, records.num_rows()) {
            Ok(value) => {
                let kind = classify(&value);
                Ok(Box::new(PhysicalExprOutput { value, kind }))
            },
            Err(e) => Err(PhysicalExprError::Evaluate(e)),
        }
    }
}

impl PhysicalExprOutput {
    #[verifier::type_invariant]
    spec fn kind_of_value(&self) -> bool {
        self.kind@ == columnar_kind(self.value)
    }

    /// The kind of value which this output holds.
    pub closed spec fn spec_kind(&self) -> OutputKind {
        self.kind
    }

    /// Whether the kind of this output is the kind of the value of the
    /// engine which it holds, as it is of every output.
    pub open spec fn spec_kind_is_of_value(&self) -> bool {
        self.spec_kind()@ == columnar_kind(self.spec_value())
    }

    /// Whether this output is one value for all rows.
    pub open spec fn spec_is_scalar(&self) -> bool {
        self.spec_kind() is BooleanScalar || self.spec_kind() is NullScalar
            || self.spec_kind() is OtherScalar
    }

    /// Returns whether this output is one value which holds of all rows.
    #[verifier::when_used_as_spec(spec_is_scalar)]
    pub fn is_scalar(&self) -> (scalar: bool)
        ensures
            scalar == self.spec_is_scalar(),
    {
        match &self.kind {
            OutputKind::BooleanScalar(_) | OutputKind::NullScalar | OutputKind::OtherScalar => true,
            _ => false,
        }
    }

    /// Returns whether this output holds one value for each row.
    pub fn is_array(&self) -> (array: bool)
        ensures
            array == !self.spec_is_scalar(),
    {
        !self.is_scalar()
    }

    /// Gives up this output for the kind of value which it holds, with its
    /// truth values if it holds any.
    pub fn into_kind(self) -> (kind: OutputKind)
        ensures
            kind == self.spec_kind(),
            kind@ == columnar_kind(self.spec_value()),
    {
        proof {
            use_type_invariant(&self);
        }
        self.kind
    }

    /// Returns the kind of value which this output holds, with its truth
    /// values if it holds any.
    pub fn kind(&self) -> (kind: &OutputKind)
        ensures
            *kind == self.spec_kind(),
            kind@ == columnar_kind(self.spec_value()),
    {
        proof {
            use_type_invariant(self);
        }
        &self.kind
    }

    /// The value of the engine which this output holds.
    pub closed spec fn spec_value(&self) -> ColumnarValue {
        self.value
    }

    /// Returns this output cast to the native type of `datatype`.
    ///
    /// Fails if `datatype` is none of the closed set, with the reason, or
    /// if the engine does not cast the output to its type. The output
    /// which comes holds the value which the engine casts to.
    pub fn cast_to(&self, datatype: Datatype) -> (result: Result<
        Box<PhysicalExprOutput>,
        PhysicalExprOutputError,
    >)
        ensures
            match datatype.spec_physical_type() {
                None => result matches Err(PhysicalExprOutputError::TypeUnavailable(e)) && Err::<
                    ArrowDataType,
                    FieldErrorView,
                >(e@) == spec_arrow_primitive_datatype(datatype),
                Some(physical) => match result {
                    Ok(output) => cast_value(self.spec_value(), physical) == Some(
                        output.spec_value(),
                    ) && output.spec_kind_is_of_value(),
                    Err(e) => e is Cast && cast_value(self.spec_value(), physical) is None,
                },
            },
    {
        let arrow_type = match arrow_primitive_datatype(datatype) {
            Ok(arrow_type) => arrow_type,
            Err(e) => {
                return Err(PhysicalExprOutputError::TypeUnavailable(e));
            },
        };
        match columnar_cast(&self.value, engine_data_type(arrow_type)) {
            Ok(value) => {
                let kind = classify(&value);
                Ok(Box::new(PhysicalExprOutput { value, kind }))
            },
            Err(e) => Err(PhysicalExprOutputError::Cast(e)),
        }
    }

    /// The unsigned 8-bit integers which this output holds, if it holds
    /// such: one for each row, or for a scalar one, or none if it is null.
    pub closed spec fn spec_values_u8(&self) -> Option<Seq<u8>> {
        columnar_u8(self.value)
    }

    /// The unsigned 64-bit integers which this output holds, if it holds
    /// such: one for each row, or for a scalar one, or none if it is null.
    pub closed spec fn spec_values_u64(&self) -> Option<Seq<u64>> {
        columnar_u64(self.value)
    }

    /// The name of the type of the values of this output.
    pub closed spec fn spec_type_name(&self) -> Seq<char> {
        columnar_type(self.value)
    }

    /// Returns the values of this output if they are unsigned 8-bit
    /// integers: one for each row, or one or none for a scalar. Fails for
    /// an output of any other type, and names the type.
    pub fn values_u8(&self) -> (result: Result<Vec<u8>, PhysicalExprOutputError>)
        ensures
            match result {
                Ok(values) => self.spec_values_u8() == Some(values@),
                Err(e) => self.spec_values_u8() is None && (e
                    matches PhysicalExprOutputError::InvalidStaticType(_, found) && found@
                    == self.spec_type_name()),
            },
    {
        match columnar_values_u8(&self.value) {
            Some(values) => Ok(values),
            None => Err(
                PhysicalExprOutputError::InvalidStaticType(
                    "u8".to_string(),
                    columnar_type_name(&self.value),
                ),
            ),
        }
    }

    /// Returns the values of this output if they are unsigned 64-bit
    /// integers: one for each row, or one or none for a scalar. Fails for
    /// an output of any other type, and names the type.
    pub fn values_u64(&self) -> (result: Result<Vec<u64>, PhysicalExprOutputError>)
        ensures
            match result {
                Ok(values) => self.spec_values_u64() == Some(values@),
                Err(e) => self.spec_values_u64() is None && (e
                    matches PhysicalExprOutputError::InvalidStaticType(_, found) && found@
                    == self.spec_type_name()),
            },
    {
        match columnar_values_u64(&self.value) {
            Some(values) => Ok(values),
            None => Err(
                PhysicalExprOutputError::InvalidStaticType(
                    "u64".to_string(),
                    columnar_type_name(&self.value),
                ),
            ),
        }
    }
}

} // verus!
