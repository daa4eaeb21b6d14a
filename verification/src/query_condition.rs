//! From a query condition to a logical expression.
//!
//! The tree is walked from the root down and an expression is built from
//! the leaves up. The bytes of a leaf are decoded by the datatype of the
//! field which the leaf names, and shaped by the number of values which a
//! cell of that field holds.

use vstd::prelude::*;
use crate::array_schema::{ArraySchema, CellValNum, Field};
use crate::ast::ASTNode;
use crate::enums::{Datatype, PhysicalType, QueryConditionCombinationOp, QueryConditionOp};
use crate::logical_expr::{
    LiteralValue, LiteralValueView, LogicalExpr, LogicalExprView, Operator, expr_view, scalar_views,
};
use crate::misc::{ByteVecValue, Utf8Error, spec_name};
use crate::native::{NativeValue, decode_native, lemma_decode_bytes, read_native};
use crate::offsets::converted_bytes_and_num_values;
use crate::offsets::try_from_bytes_and_num_values;
use crate::offsets::valid_offsets;
use crate::offsets::lemma_valid_offsets_ordered;
use crate::schema::{FieldError, FieldErrorView, arrow_datatype, spec_arrow_datatype};

verus! {

/// An error which a valid schema and a validated query condition cannot
/// cause. It is returned all the same, should either have drifted.
#[derive(Clone, Debug, PartialEq, Eq)]
pub enum InternalError {
    /// The datatype of a field is none of the closed set.
    InvalidDatatype(u64),
    /// The operator of a leaf is none of the closed set, or has no meaning
    /// where it stands.
    InvalidOp(u64),
    /// The operator of a combination is none of the closed set.
    InvalidCombinationOp(u64),
    /// A negation has not exactly one operand; holds how many it has.
    NotTree(usize),
    /// A conjunction or disjunction has no operand.
    EmptyCombination,
    /// The field of this name has no column type; holds the bytes of the
    /// name.
    SchemaField(Vec<u8>, FieldError),
}

/// An [`InternalError`] seen as a mathematical value.
pub enum InternalErrorView {
    InvalidDatatype(u64),
    InvalidOp(u64),
    InvalidCombinationOp(u64),
    NotTree(usize),
    EmptyCombination,
    SchemaField(Seq<u8>, FieldErrorView),
}

impl View for InternalError {
    type V = InternalErrorView;

    open spec fn view(&self) -> InternalErrorView {
        match self {
            InternalError::InvalidDatatype(d) => InternalErrorView::InvalidDatatype(*d),
            InternalError::InvalidOp(o) => InternalErrorView::InvalidOp(*o),
            InternalError::InvalidCombinationOp(o) => InternalErrorView::InvalidCombinationOp(*o),
            InternalError::NotTree(n) => InternalErrorView::NotTree(*n),
            InternalError::EmptyCombination => InternalErrorView::EmptyCombination,
            InternalError::SchemaField(name, e) => InternalErrorView::SchemaField(name@, e@),
        }
    }
}

/// An error in a query condition which does not fit the schema.
#[derive(Clone, Debug, PartialEq, Eq)]
pub enum UserError {
    /// The schema has no field of this name; holds the bytes of the name.
    UnknownField(Vec<u8>),
    /// The name of the field is not valid UTF-8.
    FieldNameNotUtf8(Utf8Error),
    /// The number of bytes of a value is no multiple of the size of the
    /// datatype; holds the datatype and the number of bytes.
    DatatypeMismatch(Datatype, usize),
    /// The number of values does not fit the field; holds what a cell of
    /// the field holds and how many values were found.
    CellValNumMismatch(CellValNum, usize),
    /// The fixed number of values in a cell is more than a list can hold.
    CellValNumOutOfRange(CellValNum),
    /// The values of a set do not divide into members of the fixed number
    /// of values which a cell of the field holds.
    InListCellValNumMismatch(CellValNum, usize),
    /// The offsets which delimit the members of a set are not valid.
    InListVarOffsets(crate::offsets::Error),
}

/// A [`UserError`] seen as a mathematical value.
pub enum UserErrorView {
    UnknownField(Seq<u8>),
    FieldNameNotUtf8(Utf8Error),
    DatatypeMismatch(Datatype, usize),
    CellValNumMismatch(CellValNum, usize),
    CellValNumOutOfRange(CellValNum),
    InListCellValNumMismatch(CellValNum, usize),
    InListVarOffsets(crate::offsets::Error),
}

impl View for UserError {
    type V = UserErrorView;

    open spec fn view(&self) -> UserErrorView {
        match self {
            UserError::UnknownField(name) => UserErrorView::UnknownField(name@),
            UserError::FieldNameNotUtf8(e) => UserErrorView::FieldNameNotUtf8(*e),
            UserError::DatatypeMismatch(d, n) => UserErrorView::DatatypeMismatch(*d, *n),
            UserError::CellValNumMismatch(c, n) => UserErrorView::CellValNumMismatch(*c, *n),
            UserError::CellValNumOutOfRange(c) => UserErrorView::CellValNumOutOfRange(*c),
            UserError::InListCellValNumMismatch(c, n) => UserErrorView::InListCellValNumMismatch(
                *c,
                *n,
            ),
            UserError::InListVarOffsets(e) => UserErrorView::InListVarOffsets(*e),
        }
    }
}

/// Why a query condition has no logical expression. An internal error asks
/// for a report, a user error for another query.
#[derive(Clone, Debug, PartialEq, Eq)]
pub enum Error {
    Internal(InternalError),
    User(UserError),
}

/// An [`Error`] seen as a mathematical value.
pub enum ErrorView {
    Internal(InternalErrorView),
    User(UserErrorView),
}

impl View for Error {
    type V = ErrorView;

    open spec fn view(&self) -> ErrorView {
        match self {
            Error::Internal(e) => ErrorView::Internal(e@),
            Error::User(e) => ErrorView::User(e@),
        }
    }
}

/// What building an expression returned, as a mathematical value.
pub open spec fn outcome(result: Result<LogicalExpr, Error>) -> Result<LogicalExprView, ErrorView> {
    match result {
        Ok(e) => Ok(e@),
        Err(e) => Err(e@),
    }
}

/// What decoding returned, as a mathematical value.
pub open spec fn values_outcome(result: Result<Vec<NativeValue>, Error>) -> Result<
    Seq<NativeValue>,
    ErrorView,
> {
    match result {
        Ok(values) => Ok(values@),
        Err(e) => Err(e@),
    }
}

/// The values of a native type which `data` holds one after the other.
/// Bytes beyond the last whole value are left out.
pub open spec fn decoded_values(physical: PhysicalType, data: Seq<u8>) -> Seq<NativeValue> {
    let width = physical.spec_width() as int;
    Seq::new(
        (data.len() / width as nat) as nat,
        |i: int| decode_native(physical, data.subrange(i * width, i * width + width)),
    )
}

/// The values of `datatype` which `data` holds, or why it holds none:
/// the datatype is none of the closed set, or the bytes are not a whole
/// number of values.
pub open spec fn spec_values(datatype: Datatype, data: Seq<u8>) -> Result<
    Seq<NativeValue>,
    ErrorView,
> {
    match datatype.spec_physical_type() {
        None => Err(
            ErrorView::Internal(InternalErrorView::InvalidDatatype(datatype.spec_repr() as u64)),
        ),
        Some(physical) => if data.len() % physical.spec_width() as nat != 0 {
            Err(ErrorView::User(UserErrorView::DatatypeMismatch(datatype, data.len() as usize)))
        } else {
            Ok(decoded_values(physical, data))
        },
    }
}

/// The constant which a field is compared with: one value for a field of
/// single values, a list of exactly the fixed number of values for a field
/// of fixed-size cells, and a list of all the values for a field of
/// variable-size cells.
pub open spec fn spec_comparison_literal(
    cell_val_num: CellValNum,
    physical: PhysicalType,
    values: Seq<NativeValue>,
) -> Result<LiteralValueView, ErrorView> {
    match cell_val_num {
        CellValNum::Single => if values.len() == 1 {
            Ok(LiteralValueView::Native(values[0]))
        } else {
            Err(
                ErrorView::User(
                    UserErrorView::CellValNumMismatch(cell_val_num, values.len() as usize),
                ),
            )
        },
        CellValNum::Fixed(n) => if values.len() != n {
            Err(
                ErrorView::User(
                    UserErrorView::CellValNumMismatch(cell_val_num, values.len() as usize),
                ),
            )
        } else {
            Ok(LiteralValueView::FixedSizeList(physical, n as i32, values))
        },
        CellValNum::Var => Ok(LiteralValueView::LargeList(physical, values)),
    }
}

/// The column which the name of a field refers to: the name must be text.
pub open spec fn spec_column(field_name: Seq<u8>) -> Result<LogicalExprView, ErrorView> {
    match spec_name(field_name) {
        Ok(name) => Ok(LogicalExprView::column(name)),
        Err(e) => Err(ErrorView::User(UserErrorView::FieldNameNotUtf8(e))),
    }
}

/// The comparison of the field called `field_name` with the value which
/// `data` holds.
///
/// What is wrong is reported in this order: the schema has no such field;
/// its datatype is not of the closed set; its name is not text; `data` is
/// not a whole number of values; the field has no column type; the number
/// of values does not fit the field.
pub open spec fn spec_leaf_to_binary_expr(
    schema: &ArraySchema,
    field_name: Seq<u8>,
    data: Seq<u8>,
    op: Operator,
) -> Result<LogicalExprView, ErrorView> {
    match schema.spec_field(field_name) {
        None => Err(ErrorView::User(UserErrorView::UnknownField(field_name))),
        Some(field) => match field.spec_datatype().spec_physical_type() {
            None => Err(
                ErrorView::Internal(
                    InternalErrorView::InvalidDatatype(field.spec_datatype().spec_repr() as u64),
                ),
            ),
            Some(physical) => match spec_column(field_name) {
                Err(e) => Err(e),
                Ok(column) => match spec_values(field.spec_datatype(), data) {
                    Err(e) => Err(e),
                    Ok(values) => match spec_arrow_datatype(
                        field.spec_datatype(),
                        field.spec_cell_val_num(),
                    ) {
                        Err(e) => Err(
                            ErrorView::Internal(InternalErrorView::SchemaField(field_name, e)),
                        ),
                        Ok(_) => match spec_comparison_literal(
                            field.spec_cell_val_num(),
                            physical,
                            values,
                        ) {
                            Err(e) => Err(e),
                            Ok(literal) => Ok(
                                LogicalExprView::binary(
                                    column,
                                    op,
                                    LogicalExprView::Literal(literal),
                                ),
                            ),
                        },
                    },
                },
            },
        },
    }
}

/// The members of the set which a field is tested against.
///
/// For a field of single values each value is a member. For a field of
/// fixed-size cells the values divide evenly into members of that size.
/// For a field of variable-size cells, `offsets` holds the byte offset at
/// which each member begins among the values.
pub open spec fn spec_in_list_members(
    cell_val_num: CellValNum,
    physical: PhysicalType,
    values: Seq<NativeValue>,
    offsets: Seq<u8>,
) -> Result<Seq<LiteralValueView>, ErrorView> {
    match cell_val_num {
        CellValNum::Single => Ok(
            Seq::new(values.len(), |i: int| LiteralValueView::Native(values[i])),
        ),
        CellValNum::Fixed(n) => if n == 0 || values.len() % n as nat != 0 {
            Err(
                ErrorView::User(
                    UserErrorView::InListCellValNumMismatch(cell_val_num, values.len() as usize),
                ),
            )
        } else if n > i32::MAX {
            Err(ErrorView::User(UserErrorView::CellValNumOutOfRange(cell_val_num)))
        } else {
            Ok(
                Seq::new(
                    (values.len() / n as nat) as nat,
                    |i: int|
                        LiteralValueView::FixedSizeList(
                            physical,
                            n as i32,
                            values.subrange(i * n, i * n + n),
                        ),
                ),
            )
        },
        CellValNum::Var => match converted_bytes_and_num_values(
            physical.spec_width() as int,
            offsets,
            values.len() as int,
        ) {
            Err(e) => Err(ErrorView::User(UserErrorView::InListVarOffsets(e))),
            Ok(bounds) => Ok(
                Seq::new(
                    (bounds.len() - 1) as nat,
                    |i: int|
                        LiteralValueView::LargeList(
                            physical,
                            values.subrange(bounds[i] as int, bounds[i + 1] as int),
                        ),
                ),
            ),
        },
    }
}

/// The test whether the field called `field_name` is, or if `negated` is
/// not, among the members which `data` holds.
///
/// What is wrong is reported in this order: the schema has no such field;
/// its datatype is not of the closed set; its name is not text; `data` is
/// not a whole number of values; the values do not make members.
pub open spec fn spec_leaf_to_in_list(
    schema: &ArraySchema,
    field_name: Seq<u8>,
    data: Seq<u8>,
    offsets: Seq<u8>,
    negated: bool,
) -> Result<LogicalExprView, ErrorView> {
    match schema.spec_field(field_name) {
        None => Err(ErrorView::User(UserErrorView::UnknownField(field_name))),
        Some(field) => match field.spec_datatype().spec_physical_type() {
            None => Err(
                ErrorView::Internal(
                    InternalErrorView::InvalidDatatype(field.spec_datatype().spec_repr() as u64),
                ),
            ),
            Some(physical) => match spec_column(field_name) {
                Err(e) => Err(e),
                Ok(column) => match spec_values(field.spec_datatype(), data) {
                    Err(e) => Err(e),
                    Ok(values) => match spec_in_list_members(
                        field.spec_cell_val_num(),
                        physical,
                        values,
                        offsets,
                    ) {
                        Err(e) => Err(e),
                        Ok(list) => Ok(
                            LogicalExprView::InList { expr: Box::new(column), list, negated },
                        ),
                    },
                },
            },
        },
    }
}

/// What "always true" means for a field: a cell passes unless it is null.
/// The name of a field whose cells cannot be null is not looked at.
pub open spec fn spec_always_true(schema: &ArraySchema, field_name: Seq<u8>) -> Result<
    LogicalExprView,
    ErrorView,
> {
    match schema.spec_field(field_name) {
        None => Err(ErrorView::User(UserErrorView::UnknownField(field_name))),
        Some(field) => if field.spec_nullable() {
            match spec_column(field_name) {
                Ok(column) => Ok(LogicalExprView::IsNotNull(Box::new(column))),
                Err(e) => Err(e),
            }
        } else {
            Ok(LogicalExprView::boolean(true))
        },
    }
}

/// The meaning of a leaf without a value.
///
/// Equality with nothing is a test for null and inequality a test for not
/// null. An ordering against nothing holds of no cell. The field must be
/// in the schema and its name must be text, whatever the operator.
pub open spec fn spec_leaf_to_null_test(
    schema: &ArraySchema,
    field_name: Seq<u8>,
    op: QueryConditionOp,
) -> Result<LogicalExprView, ErrorView> {
    match schema.spec_field(field_name) {
        None => Err(ErrorView::User(UserErrorView::UnknownField(field_name))),
        Some(field) => match spec_column(field_name) {
            Err(e) => Err(e),
            Ok(column) => match op {
                QueryConditionOp::EQ => Ok(LogicalExprView::IsNull(Box::new(column))),
                QueryConditionOp::NE => Ok(LogicalExprView::IsNotNull(Box::new(column))),
                QueryConditionOp::ALWAYS_TRUE => if field.spec_nullable() {
                    Ok(LogicalExprView::IsNotNull(Box::new(column)))
                } else {
                    Ok(LogicalExprView::boolean(true))
                },
                QueryConditionOp::ALWAYS_FALSE => Ok(LogicalExprView::boolean(false)),
                QueryConditionOp::LT
                | QueryConditionOp::LE
                | QueryConditionOp::GT
                | QueryConditionOp::GE => Ok(LogicalExprView::boolean(false)),
                _ => Err(
                    ErrorView::Internal(InternalErrorView::InvalidOp(op.spec_repr() as u64)),
                ),
            },
        },
    }
}

/// The meaning of a leaf.
pub open spec fn spec_leaf(
    schema: &ArraySchema,
    field_name: Seq<u8>,
    op: QueryConditionOp,
    data: Seq<u8>,
    offsets: Seq<u8>,
) -> Result<LogicalExprView, ErrorView> {
    if data.len() == 0 && !op.spec_is_set_membership() {
        spec_leaf_to_null_test(schema, field_name, op)
    } else {
        match op {
            QueryConditionOp::LT => spec_leaf_to_binary_expr(
                schema,
                field_name,
                data,
                Operator::Lt,
            ),
            QueryConditionOp::LE => spec_leaf_to_binary_expr(
                schema,
                field_name,
                data,
                Operator::LtEq,
            ),
            QueryConditionOp::GT => spec_leaf_to_binary_expr(
                schema,
                field_name,
                data,
                Operator::Gt,
            ),
            QueryConditionOp::GE => spec_leaf_to_binary_expr(
                schema,
                field_name,
                data,
                Operator::GtEq,
            ),
            QueryConditionOp::EQ => spec_leaf_to_binary_expr(
                schema,
                field_name,
                data,
                Operator::Eq,
            ),
            QueryConditionOp::NE => spec_leaf_to_binary_expr(
                schema,
                field_name,
                data,
                Operator::NotEq,
            ),
            QueryConditionOp::IN => spec_leaf_to_in_list(schema, field_name, data, offsets, false),
            QueryConditionOp::NOT_IN => spec_leaf_to_in_list(
                schema,
                field_name,
                data,
                offsets,
                true,
            ),
            QueryConditionOp::ALWAYS_TRUE => spec_always_true(schema, field_name),
            QueryConditionOp::ALWAYS_FALSE => Ok(LogicalExprView::boolean(false)),
            QueryConditionOp::Invalid(repr) => Err(
                ErrorView::Internal(InternalErrorView::InvalidOp(repr as u64)),
            ),
        }
    }
}

/// The logical expression which means the same as a query condition.
pub open spec fn logical_expr_of(schema: &ArraySchema, node: ASTNode) -> Result<
    LogicalExprView,
    ErrorView,
>
    decreases node,
{
    match node {
        ASTNode::Value { field_name, op, data, offsets } => spec_leaf(
            schema,
            field_name@,
            op,
            data@,
            offsets@,
        ),
        ASTNode::Expr { combination_op, children } => match combination_op {
            QueryConditionCombinationOp::AND => folded(
                schema,
                children@,
                Operator::And,
                children@.len() as int,
            ),
            QueryConditionCombinationOp::OR => folded(
                schema,
                children@,
                Operator::Or,
                children@.len() as int,
            ),
            QueryConditionCombinationOp::NOT => if children@.len() != 1 {
                Err(ErrorView::Internal(InternalErrorView::NotTree(children@.len() as usize)))
            } else {
                match logical_expr_of(schema, children@[0]) {
                    Ok(e) => Ok(LogicalExprView::not(e)),
                    Err(e) => Err(e),
                }
            },
            QueryConditionCombinationOp::Invalid(repr) => Err(
                ErrorView::Internal(InternalErrorView::InvalidCombinationOp(repr as u64)),
            ),
        },
    }
}

/// The first `n` of `children` combined from the left: the first child
/// alone, then each further child joined to what came before it. The
/// error of the first child which has no expression is the outcome.
pub open spec fn folded(schema: &ArraySchema, children: Seq<ASTNode>, op: Operator, n: int) -> Result<
    LogicalExprView,
    ErrorView,
>
    decreases children, n,
{
    if n <= 0 || n > children.len() {
        Err(ErrorView::Internal(InternalErrorView::EmptyCombination))
    } else if n == 1 {
        logical_expr_of(schema, children[0])
    } else {
        match folded(schema, children, op, n - 1) {
            Err(e) => Err(e),
            Ok(left) => match logical_expr_of(schema, children[n - 1]) {
                Err(e) => Err(e),
                Ok(right) => Ok(LogicalExprView::binary(left, op, right)),
            },
        }
    }
}

/// Once a child has no expression, its error is the outcome however many
/// more children are combined.
pub proof fn lemma_folded_error(
    schema: &ArraySchema,
    children: Seq<ASTNode>,
    op: Operator,
    k: int,
    n: int,
)
    requires
        1 <= k <= n <= children.len(),
        folded(schema, children, op, k) is Err,
    ensures
        folded(schema, children, op, n) == folded(schema, children, op, k),
    decreases n - k,
{
    if k < n {
        lemma_folded_error(schema, children, op, k, n - 1);
    }
}

/// Returns the values of `datatype` which `bytes` holds, in their order.
pub fn values_iter(datatype: Datatype, bytes: &ByteVecValue) -> (result: Result<
    Vec<NativeValue>,
    Error,
>)
    ensures
        values_outcome(result) == spec_values(datatype, bytes@),
{
    let physical = match datatype.physical_type() {
        Some(physical) => physical,
        None => {
            return Err(Error::Internal(InternalError::InvalidDatatype(datatype.repr() as u64)));
        },
    };
    let width = physical.width();
    let size = bytes.size();
    if size % width != 0 {
        return Err(Error::User(UserError::DatatypeMismatch(datatype, size)));
    }
    let data = bytes.as_slice();
    let count = size / width;
    let mut values: Vec<NativeValue> = Vec::with_capacity(count);
    let mut i: usize = 0;
    let mut start: usize = 0;
    assert(count * width == size) by (nonlinear_arith)
        requires
            count == size / width,
            size % width == 0,
            width > 0,
    ;
    while i < count
        invariant
            width == physical.spec_width(),
            data@ == bytes@,
            size == data@.len(),
            count * width == size,
            i <= count,
            start == i * width,
            values@.len() == i,
            forall|j: int|
                0 <= j < i ==> #[trigger] values@[j] == decode_native(
                    physical,
                    data@.subrange(j * width, j * width + width),
                ),
        decreases count - i,
    {
        assert((i + 1) * width == i * width + width && (i + 1) * width <= count * width)
            by (nonlinear_arith)
            requires
                i < count,
                width > 0,
        ;
        values.push(read_native(physical, data, start));
        i += 1;
        start += width;
    }
    assert(values@ =~= decoded_values(physical, bytes@));
    Ok(values)
}

/// Returns the values of `values` from position `start` up to `end`.
fn copy_range(values: &Vec<NativeValue>, start: usize, end: usize) -> (range: Vec<NativeValue>)
    requires
        start <= end <= values@.len(),
    ensures
        range@ == values@.subrange(start as int, end as int),
{
    let mut range: Vec<NativeValue> = Vec::with_capacity(end - start);
    let mut i: usize = start;
    while i < end
        invariant
            start <= i <= end <= values@.len(),
            range@ == values@.subrange(start as int, i as int),
        decreases end - i,
    {
        range.push(values[i]);
        assert(range@ =~= values@.subrange(start as int, i + 1));
        i += 1;
    }
    range
}

/// Returns the constant which a field is compared with.
fn comparison_literal(
    cell_val_num: CellValNum,
    physical: PhysicalType,
    values: Vec<NativeValue>,
) -> (result: Result<LiteralValue, Error>)
    requires
        cell_val_num matches CellValNum::Fixed(n) ==> n <= i32::MAX,
    ensures
        match result {
            Ok(literal) => spec_comparison_literal(cell_val_num, physical, values@) == Ok::<
                LiteralValueView,
                ErrorView,
            >(literal@),
            Err(e) => spec_comparison_literal(cell_val_num, physical, values@) == Err::<
                LiteralValueView,
                ErrorView,
            >(e@),
        },
{
    match cell_val_num {
        CellValNum::Single => {
            if values.len() == 1 {
                Ok(LiteralValue::Native(values[0]))
            } else {
                Err(Error::User(UserError::CellValNumMismatch(cell_val_num, values.len())))
            }
        },
        CellValNum::Fixed(n) => {
            if values.len() != n as usize {
                Err(Error::User(UserError::CellValNumMismatch(cell_val_num, values.len())))
            } else {
                Ok(LiteralValue::FixedSizeList(physical, n as i32, values))
            }
        },
        CellValNum::Var => Ok(LiteralValue::LargeList(physical, values)),
    }
}

/// Returns the column which the name of a field refers to.
/// Fails if the name is not valid UTF-8.
fn column_of(field: &Field) -> (result: Result<LogicalExpr, Error>)
    ensures
        outcome(result) == spec_column(field.spec_name_cxx()),
{
    match field.name() {
        Ok(name) => Ok(LogicalExpr::Column(name.to_string())),
        Err(e) => Err(Error::User(UserError::FieldNameNotUtf8(e))),
    }
}

/// Returns the expression of a leaf which compares a field with a value.
///
/// The value is decoded by the datatype of the field called `field_name`.
/// A field of single values is compared with exactly one value, a field of
/// fixed-size cells with a list of exactly that many values, and a field
/// of variable-size cells with the list of all the values.
pub fn leaf_ast_to_binary_expr(
    schema: &ArraySchema,
    field_name: &Vec<u8>,
    data: &ByteVecValue,
    op: Operator,
) -> (result: Result<LogicalExpr, Error>)
    ensures
        outcome(result) == spec_leaf_to_binary_expr(schema, field_name@, data@, op),
{
    let field = match schema.field_cxx(field_name.as_slice()) {
        Some(field) => field,
        None => {
            return Err(Error::User(UserError::UnknownField(field_name.clone())));
        },
    };
    let physical = match field.datatype().physical_type() {
        Some(physical) => physical,
        None => {
            return Err(
                Error::Internal(InternalError::InvalidDatatype(field.datatype().repr() as u64)),
            );
        },
    };
    let column = match column_of(&field) {
        Ok(column) => column,
        Err(e) => {
            return Err(e);
        },
    };
    let values = match values_iter(field.datatype(), data) {
        Ok(values) => values,
        Err(e) => {
            return Err(e);
        },
    };
    match arrow_datatype(field.datatype(), field.cell_val_num()) {
        Ok(_) => {},
        Err(e) => {
            return Err(Error::Internal(InternalError::SchemaField(field.name_cxx().clone(), e)));
        },
    }
    match comparison_literal(field.cell_val_num(), physical, values) {
        Ok(literal) => {
            let expr = LogicalExpr::BinaryExpr {
                left: Box::new(column),
                op,
                right: Box::new(LogicalExpr::Literal(literal)),
            };
            proof {
                reveal_with_fuel(expr_view, 2);
            }
            Ok(expr)
        },
        Err(e) => Err(e),
    }
}

/// Returns the members of the set which a field is tested against.
fn in_list_members(
    cell_val_num: CellValNum,
    physical: PhysicalType,
    values: &Vec<NativeValue>,
    offsets: &ByteVecValue,
) -> (result: Result<Vec<LiteralValue>, Error>)
    ensures
        match result {
            Ok(list) => spec_in_list_members(cell_val_num, physical, values@, offsets@) == Ok::<
                Seq<LiteralValueView>,
                ErrorView,
            >(scalar_views(list@)),
            Err(e) => spec_in_list_members(cell_val_num, physical, values@, offsets@) == Err::<
                Seq<LiteralValueView>,
                ErrorView,
            >(e@),
        },
{
    let len = values.len();
    let mut list: Vec<LiteralValue> = Vec::new();
    match cell_val_num {
        CellValNum::Single => {
            let mut i: usize = 0;
            while i < len
                invariant
                    len == values@.len(),
                    i <= len,
                    list@.len() == i,
                    forall|j: int|
                        0 <= j < i ==> (#[trigger] list@[j])@ == LiteralValueView::Native(values@[j]),
                decreases len - i,
            {
                list.push(LiteralValue::Native(values[i]));
                i += 1;
            }
            assert(scalar_views(list@) =~= Seq::new(
                values@.len(),
                |i: int| LiteralValueView::Native(values@[i]),
            ));
            Ok(list)
        },
        CellValNum::Fixed(n) => {
            if n == 0 || len % (n as usize) != 0 {
                return Err(Error::User(UserError::InListCellValNumMismatch(cell_val_num, len)));
            }
            if n > 0x7fff_ffff {
                return Err(Error::User(UserError::CellValNumOutOfRange(cell_val_num)));
            }
            let size = n as usize;
            let count = len / size;
            assert(count * size == len) by (nonlinear_arith)
                requires
                    count == len / size,
                    len % size == 0,
                    size > 0,
            ;
            let mut i: usize = 0;
            let mut start: usize = 0;
            while i < count
                invariant
                    len == values@.len(),
                    size == n,
                    size > 0,
                    n <= i32::MAX,
                    count * size == len,
                    i <= count,
                    start == i * size,
                    list@.len() == i,
                    forall|j: int|
                        0 <= j < i ==> (#[trigger] list@[j])@ == LiteralValueView::FixedSizeList(
                            physical,
                            n as i32,
                            values@.subrange(j * size, j * size + size),
                        ),
                decreases count - i,
            {
                assert((i + 1) * size == i * size + size && (i + 1) * size <= count * size)
                    by (nonlinear_arith)
                    requires
                        i < count,
                        size > 0,
                ;
                let member = copy_range(values, start, start + size);
                list.push(LiteralValue::FixedSizeList(physical, n as i32, member));
                i += 1;
                start += size;
            }
            assert(scalar_views(list@) =~= Seq::new(
                (values@.len() / n as nat) as nat,
                |i: int|
                    LiteralValueView::FixedSizeList(
                        physical,
                        n as i32,
                        values@.subrange(i * n, i * n + n),
                    ),
            ));
            Ok(list)
        },
        CellValNum::Var => {
            let bounds = match try_from_bytes_and_num_values(
                physical.width(),
                offsets.as_slice(),
                len,
            ) {
                Ok(bounds) => bounds,
                Err(e) => {
                    return Err(Error::User(UserError::InListVarOffsets(e)));
                },
            };
            let bounds = bounds.as_slice();
            let count = bounds.len() - 1;
            proof {
                // The last bound is the number of values, or its low bits
                // where that number is out of range: either way no bound
                // is beyond the values.
                let last = bounds@.len() - 1;
                assert(bounds@[last] == (len as int) as i64);
                assert(bounds@[last] <= len);
                assert forall|j: int| 0 <= j < bounds@.len() implies 0 <= #[trigger] bounds@[j]
                    <= len by {
                    lemma_valid_offsets_ordered(bounds@, j, last);
                }
            }
            let mut i: usize = 0;
            while i < count
                invariant
                    len == values@.len(),
                    count == bounds@.len() - 1,
                    valid_offsets(bounds@),
                    forall|j: int| 0 <= j < bounds@.len() ==> 0 <= #[trigger] bounds@[j] <= len,
                    i <= count,
                    list@.len() == i,
                    forall|j: int|
                        0 <= j < i ==> (#[trigger] list@[j])@ == LiteralValueView::LargeList(
                            physical,
                            values@.subrange(bounds@[j] as int, bounds@[j + 1] as int),
                        ),
                decreases count - i,
            {
                assert(bounds@[i as int] <= bounds@[i + 1]);
                let member = copy_range(values, bounds[i] as usize, bounds[i + 1] as usize);
                list.push(LiteralValue::LargeList(physical, member));
                i += 1;
            }
            assert(scalar_views(list@) =~= Seq::new(
                (bounds@.len() - 1) as nat,
                |i: int|
                    LiteralValueView::LargeList(
                        physical,
                        values@.subrange(bounds@[i] as int, bounds@[i + 1] as int),
                    ),
            ));
            Ok(list)
        },
    }
}

/// Returns the expression of a leaf which tests whether a field is among
/// the members of a set, or if `negated` whether it is not.
///
/// The members are decoded by the datatype of the field called
/// `field_name`. For a field of single values each value is a member; for
/// a field of fixed-size cells each run of that many values is; for a
/// field of variable-size cells `offsets` delimits the members.
pub fn leaf_ast_to_in_list(
    schema: &ArraySchema,
    field_name: &Vec<u8>,
    data: &ByteVecValue,
    offsets: &ByteVecValue,
    negated: bool,
) -> (result: Result<LogicalExpr, Error>)
    ensures
        outcome(result) == spec_leaf_to_in_list(schema, field_name@, data@, offsets@, negated),
{
    let field = match schema.field_cxx(field_name.as_slice()) {
        Some(field) => field,
        None => {
            return Err(Error::User(UserError::UnknownField(field_name.clone())));
        },
    };
    let physical = match field.datatype().physical_type() {
        Some(physical) => physical,
        None => {
            return Err(
                Error::Internal(InternalError::InvalidDatatype(field.datatype().repr() as u64)),
            );
        },
    };
    let column = match column_of(&field) {
        Ok(column) => column,
        Err(e) => {
            return Err(e);
        },
    };
    let values = match values_iter(field.datatype(), data) {
        Ok(values) => values,
        Err(e) => {
            return Err(e);
        },
    };
    match in_list_members(field.cell_val_num(), physical, &values, offsets) {
        Ok(list) => {
            let expr = LogicalExpr::InList { expr: Box::new(column), list, negated };
            proof {
                reveal_with_fuel(expr_view, 2);
            }
            Ok(expr)
        },
        Err(e) => Err(e),
    }
}

/// Returns what "always true" means for the field called `field_name`: a
/// test for not null if the field may be null, and else the constant `true`.
fn always_true(schema: &ArraySchema, field_name: &Vec<u8>) -> (result: Result<LogicalExpr, Error>)
    ensures
        outcome(result) == spec_always_true(schema, field_name@),
{
    let field = match schema.field_cxx(field_name.as_slice()) {
        Some(field) => field,
        None => {
            return Err(Error::User(UserError::UnknownField(field_name.clone())));
        },
    };
    proof {
        reveal_with_fuel(expr_view, 2);
    }
    if field.nullable() {
        match column_of(&field) {
            Ok(column) => Ok(LogicalExpr::IsNotNull(Box::new(column))),
            Err(e) => Err(e),
        }
    } else {
        Ok(LogicalExpr::Literal(LiteralValue::Boolean(true)))
    }
}

/// Returns the expression of a leaf without a value.
///
/// Equality is a test for null and inequality a test for not null.
/// "Always true" still leaves out the cells which are null. An ordering
/// against no value holds of no cell.
pub fn leaf_ast_to_null_test(
    schema: &ArraySchema,
    field_name: &Vec<u8>,
    op: QueryConditionOp,
) -> (result: Result<LogicalExpr, Error>)
    ensures
        outcome(result) == spec_leaf_to_null_test(schema, field_name@, op),
{
    let field = match schema.field_cxx(field_name.as_slice()) {
        Some(field) => field,
        None => {
            return Err(Error::User(UserError::UnknownField(field_name.clone())));
        },
    };
    let column = match column_of(&field) {
        Ok(column) => column,
        Err(e) => {
            return Err(e);
        },
    };
    proof {
        reveal_with_fuel(expr_view, 2);
    }
    match op {
        QueryConditionOp::EQ => Ok(LogicalExpr::IsNull(Box::new(column))),
        QueryConditionOp::NE => Ok(LogicalExpr::IsNotNull(Box::new(column))),
        QueryConditionOp::ALWAYS_TRUE => {
            if field.nullable() {
                Ok(LogicalExpr::IsNotNull(Box::new(column)))
            } else {
                Ok(LogicalExpr::Literal(LiteralValue::Boolean(true)))
            }
        },
        QueryConditionOp::ALWAYS_FALSE => Ok(LogicalExpr::Literal(LiteralValue::Boolean(false))),
        QueryConditionOp::LT
        | QueryConditionOp::LE
        | QueryConditionOp::GT
        | QueryConditionOp::GE => Ok(LogicalExpr::Literal(LiteralValue::Boolean(false))),
        invalid => Err(Error::Internal(InternalError::InvalidOp(invalid.repr() as u64))),
    }
}

/// Returns the expressions of the children of a conjunction or disjunction
/// combined from the left, in their order: `[c0, c1, c2]` becomes
/// `((c0 op c1) op c2)`. A single child stands for itself.
pub fn combination_ast_to_binary_expr(
    schema: &ArraySchema,
    children: &Vec<ASTNode>,
    operator: Operator,
) -> (result: Result<LogicalExpr, Error>)
    ensures
        outcome(result) == folded(schema, children@, operator, children@.len() as int),
    decreases children,
{
    if children.len() == 0 {
        return Err(Error::Internal(InternalError::EmptyCombination));
    }
    let mut level = match to_datafusion_impl(schema, &children[0]) {
        Ok(first) => first,
        Err(e) => {
            proof {
                lemma_folded_error(schema, children@, operator, 1, children@.len() as int);
            }
            return Err(e);
        },
    };
    let mut i: usize = 1;
    while i < children.len()
        invariant
            1 <= i <= children@.len(),
            Ok::<LogicalExprView, ErrorView>(level@) == folded(schema, children@, operator, i as int),
        decreases children@.len() - i,
    {
        let right = match to_datafusion_impl(schema, &children[i]) {
            Ok(right) => right,
            Err(e) => {
                proof {
                    lemma_folded_error(schema, children@, operator, i + 1, children@.len() as int);
                }
                return Err(e);
            },
        };
        let ghost left_view = level@;
        level = LogicalExpr::BinaryExpr { left: Box::new(level), op: operator, right: Box::new(right) };
        assert(level@ == LogicalExprView::binary(left_view, operator, right@));
        i += 1;
    }
    Ok(level)
}

/// Returns the logical expression which means the same as a query
/// condition.
///
/// A conjunction or disjunction combines its children from the left. A
/// negation has exactly one child. A leaf without a value tests for null,
/// and any other leaf compares a field with a value or tests whether it
/// is among the members of a set.
pub fn to_datafusion_impl(schema: &ArraySchema, query_condition: &ASTNode) -> (result: Result<
    LogicalExpr,
    Error,
>)
    ensures
        outcome(result) == logical_expr_of(schema, *query_condition),
    decreases query_condition,
{
    match query_condition {
        ASTNode::Expr { combination_op, children } => {
            match combination_op {
                QueryConditionCombinationOp::AND => combination_ast_to_binary_expr(
                    schema,
                    children,
                    Operator::And,
                ),
                QueryConditionCombinationOp::OR => combination_ast_to_binary_expr(
                    schema,
                    children,
                    Operator::Or,
                ),
                QueryConditionCombinationOp::NOT => {
                    if children.len() != 1 {
                        return Err(Error::Internal(InternalError::NotTree(children.len())));
                    }
                    match to_datafusion_impl(schema, &children[0]) {
                        Ok(negate_arg) => Ok(LogicalExpr::Not(Box::new(negate_arg))),
                        Err(e) => Err(e),
                    }
                },
                QueryConditionCombinationOp::Invalid(repr) => Err(
                    Error::Internal(InternalError::InvalidCombinationOp(*repr as u64)),
                ),
            }
        },
        ASTNode::Value { field_name, op, data, offsets } => {
            if query_condition.is_null_test() {
                return leaf_ast_to_null_test(schema, field_name, *op);
            }
            proof {
                reveal_with_fuel(expr_view, 2);
            }
            match op {
                QueryConditionOp::LT => leaf_ast_to_binary_expr(
                    schema,
                    field_name,
                    data,
                    Operator::Lt,
                ),
                QueryConditionOp::LE => leaf_ast_to_binary_expr(
                    schema,
                    field_name,
                    data,
                    Operator::LtEq,
                ),
                QueryConditionOp::GT => leaf_ast_to_binary_expr(
                    schema,
                    field_name,
                    data,
                    Operator::Gt,
                ),
                QueryConditionOp::GE => leaf_ast_to_binary_expr(
                    schema,
                    field_name,
                    data,
                    Operator::GtEq,
                ),
                QueryConditionOp::EQ => leaf_ast_to_binary_expr(
                    schema,
                    field_name,
                    data,
                    Operator::Eq,
                ),
                QueryConditionOp::NE => leaf_ast_to_binary_expr(
                    schema,
                    field_name,
                    data,
                    Operator::NotEq,
                ),
                QueryConditionOp::IN => leaf_ast_to_in_list(schema, field_name, data, offsets, false),
                QueryConditionOp::NOT_IN => leaf_ast_to_in_list(
                    schema,
                    field_name,
                    data,
                    offsets,
                    true,
                ),
                QueryConditionOp::ALWAYS_TRUE => always_true(schema, field_name),
                QueryConditionOp::ALWAYS_FALSE => Ok(LogicalExpr::Literal(LiteralValue::Boolean(false))),
                QueryConditionOp::Invalid(repr) => Err(
                    Error::Internal(InternalError::InvalidOp(*repr as u64)),
                ),
            }
        },
    }
}

/// Returns a logical expression which means the same as the query
/// condition, or the reason why there is none.
pub fn to_datafusion(schema: &ArraySchema, query_condition: &ASTNode) -> (result: Result<
    Box<LogicalExpr>,
    Error,
>)
    ensures
        match result {
            Ok(e) => logical_expr_of(schema, *query_condition) == Ok::<LogicalExprView, ErrorView>(e@),
            Err(e) => logical_expr_of(schema, *query_condition) == Err::<LogicalExprView, ErrorView>(e@),
        },
{
    match to_datafusion_impl(schema, query_condition) {
        Ok(e) => Ok(Box::new(e)),
        Err(e) => Err(e),
    }
}

/// A leaf which asks whether a field of single values is less than a value
/// becomes a comparison of the column with that very value: for
/// every native type, the constant decoded from the bytes of a value is
/// the value.
pub proof fn lemma_less_than_literal(schema: &ArraySchema, node: ASTNode, value: NativeValue)
    requires
        node matches ASTNode::Value { field_name, op, data, .. } && op == QueryConditionOp::LT
            && data@ == value.bytes() && spec_name(field_name@) is Ok && (schema.spec_field(
            field_name@,
        ) matches Some(field) && field.spec_cell_val_num() == CellValNum::Single
            && field.spec_datatype().spec_physical_type() == Some(value.spec_physical_type())),
    ensures
        logical_expr_of(schema, node) == Ok::<LogicalExprView, ErrorView>(
            LogicalExprView::binary(
                LogicalExprView::column(spec_name(node->field_name@)->Ok_0),
                Operator::Lt,
                LogicalExprView::Literal(LiteralValueView::Native(value)),
            ),
        ),
{
    let physical = value.spec_physical_type();
    let data = node->data@;
    let width = physical.spec_width() as int;
    lemma_decode_bytes(value);
    assert(data.len() == width);
    assert(width == 1 || width == 2 || width == 4 || width == 8);
    assert(data.len() / width as nat == 1);
    assert(data.len() % width as nat == 0);
    let values = decoded_values(physical, data);
    assert(values.len() == 1);
    assert(data.subrange(0 * width, 0 * width + width) =~= data);
    assert(values[0] == value);
}

/// A leaf without a value which asks for equality tests for null, and one
/// which asks for inequality tests for not null.
pub proof fn lemma_null_test(schema: &ArraySchema, node: ASTNode)
    requires
        node matches ASTNode::Value { field_name, data, .. } && data@.len() == 0
            && schema.spec_field(field_name@) is Some && spec_name(field_name@) is Ok,
    ensures
        node->op == QueryConditionOp::EQ ==> logical_expr_of(schema, node) == Ok::<
            LogicalExprView,
            ErrorView,
        >(LogicalExprView::is_null(spec_name(node->field_name@)->Ok_0)),
        node->op == QueryConditionOp::NE ==> logical_expr_of(schema, node) == Ok::<
            LogicalExprView,
            ErrorView,
        >(LogicalExprView::is_not_null(spec_name(node->field_name@)->Ok_0)),
{
}

/// A negation of exactly one child is the negation of the expression of
/// the child, and fails as the child does. A negation of no child or
/// of several fails and tells how many children it has.
pub proof fn lemma_not(schema: &ArraySchema, node: ASTNode)
    requires
        node matches ASTNode::Expr { combination_op, .. } && combination_op
            == QueryConditionCombinationOp::NOT,
    ensures
        node->children@.len() == 1 ==> logical_expr_of(schema, node) == match logical_expr_of(
            schema,
            node->children@[0],
        ) {
            Ok(e) => Ok::<LogicalExprView, ErrorView>(LogicalExprView::not(e)),
            Err(e) => Err(e),
        },
        node->children@.len() != 1 ==> logical_expr_of(schema, node) == Err::<
            LogicalExprView,
            ErrorView,
        >(ErrorView::Internal(InternalErrorView::NotTree(node->children@.len() as usize))),
{
}

/// The operator which joins the children of a conjunction or disjunction.
pub open spec fn combination_operator(op: QueryConditionCombinationOp) -> Operator {
    if op == QueryConditionCombinationOp::OR {
        Operator::Or
    } else {
        Operator::And
    }
}

/// Three children of a conjunction or disjunction always combine as
/// `((c0 op c1) op c2)`: the order of the children is kept and the
/// grouping is from the left.
pub proof fn lemma_fold_three(
    schema: &ArraySchema,
    node: ASTNode,
    e0: LogicalExprView,
    e1: LogicalExprView,
    e2: LogicalExprView,
)
    requires
        node matches ASTNode::Expr { combination_op, children } && (combination_op
            == QueryConditionCombinationOp::AND || combination_op
            == QueryConditionCombinationOp::OR) && children@.len() == 3,
        logical_expr_of(schema, node->children@[0]) == Ok::<LogicalExprView, ErrorView>(e0),
        logical_expr_of(schema, node->children@[1]) == Ok::<LogicalExprView, ErrorView>(e1),
        logical_expr_of(schema, node->children@[2]) == Ok::<LogicalExprView, ErrorView>(e2),
    ensures
        logical_expr_of(schema, node) == Ok::<LogicalExprView, ErrorView>(
            LogicalExprView::binary(
                LogicalExprView::binary(e0, combination_operator(node->combination_op), e1),
                combination_operator(node->combination_op),
                e2,
            ),
        ),
{
    let op = combination_operator(node->combination_op);
    let children = node->children@;
    assert(folded(schema, children, op, 1) == Ok::<LogicalExprView, ErrorView>(e0));
    assert(folded(schema, children, op, 2) == Ok::<LogicalExprView, ErrorView>(
        LogicalExprView::binary(e0, op, e1),
    ));
    assert(folded(schema, children, op, 3) == Ok::<LogicalExprView, ErrorView>(
        LogicalExprView::binary(LogicalExprView::binary(e0, op, e1), op, e2),
    ));
}

/// Children which all have an expression combine from the left whatever
/// their number: all but the last are combined first, and the last is
/// joined to them on the right.
pub proof fn lemma_fold_left(schema: &ArraySchema, children: Seq<ASTNode>, op: Operator, n: int)
    requires
        2 <= n <= children.len(),
        forall|i: int| 0 <= i < n ==> (#[trigger] logical_expr_of(schema, children[i])) is Ok,
    ensures
        folded(schema, children, op, n - 1) is Ok,
        folded(schema, children, op, n) == Ok::<LogicalExprView, ErrorView>(
            LogicalExprView::binary(
                folded(schema, children, op, n - 1)->Ok_0,
                op,
                logical_expr_of(schema, children[n - 1])->Ok_0,
            ),
        ),
    decreases n,
{
    if n > 2 {
        lemma_fold_left(schema, children, op, n - 1);
    } else {
        assert(logical_expr_of(schema, children[0]) is Ok);
    }
    assert(logical_expr_of(schema, children[n - 1]) is Ok);
}

/// The expression of a query condition holds of each row by itself: no
/// node of it aggregates over rows.
pub proof fn lemma_no_aggregate(schema: &ArraySchema, node: ASTNode)
    ensures
        logical_expr_of(schema, node) matches Ok(e) ==> !e.contains_aggregate(),
    decreases node,
{
    match node {
        ASTNode::Value { .. } => {
            reveal_with_fuel(LogicalExprView::contains_aggregate, 3);
        },
        ASTNode::Expr { combination_op, children } => {
            match combination_op {
                QueryConditionCombinationOp::AND => {
                    lemma_folded_no_aggregate(
                        schema,
                        children@,
                        Operator::And,
                        children@.len() as int,
                    );
                },
                QueryConditionCombinationOp::OR => {
                    lemma_folded_no_aggregate(
                        schema,
                        children@,
                        Operator::Or,
                        children@.len() as int,
                    );
                },
                QueryConditionCombinationOp::NOT => {
                    if children@.len() == 1 {
                        lemma_no_aggregate(schema, children@[0]);
                    }
                },
                QueryConditionCombinationOp::Invalid(_) => {},
            }
        },
    }
}

/// No node of the combination of children aggregates over rows.
proof fn lemma_folded_no_aggregate(
    schema: &ArraySchema,
    children: Seq<ASTNode>,
    op: Operator,
    n: int,
)
    requires
        0 <= n <= children.len(),
    ensures
        folded(schema, children, op, n) matches Ok(e) ==> !e.contains_aggregate(),
    decreases children, n,
{
    if n == 1 {
        lemma_no_aggregate(schema, children[0]);
    } else if n > 1 {
        lemma_folded_no_aggregate(schema, children, op, n - 1);
        lemma_no_aggregate(schema, children[n - 1]);
    }
}

} // verus!
