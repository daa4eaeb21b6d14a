//! The expression engine and its data formats.
//!
//! Everything here hands values of this library to the engine or takes
//! values back. What the engine computes is not proved: each function whose
//! body calls the engine says so, and states of the call only what the
//! engine documents.

use vstd::prelude::*;
use std::sync::Arc;
use datafusion::arrow::array::ArrayData;
use datafusion::arrow::buffer::Buffer;
use datafusion::arrow::datatypes::DataType;
use datafusion::arrow::datatypes::SchemaBuilder;
use datafusion::arrow::error::ArrowError;
use datafusion::common::DFSchema;
use datafusion::common::DataFusionError;
use datafusion::common::ScalarValue as EngineScalar;
use datafusion::common::tree_node::TreeNode;
use datafusion::logical_expr::ExprSchemable;
use datafusion::logical_expr::ColumnarValue;
use datafusion::logical_expr::Expr as EngineExpr;
use datafusion::prelude::SessionContext;
use num_traits::FromBytes;
use crate::enums::PhysicalType;
use crate::logical_expr::{
    LiteralValue, LiteralValueView, LogicalExpr, LogicalExprView, Operator, scalar_views,
};
use crate::native::NativeValue;
use crate::record_batch::{ArrayParts, ArrowArray, ArrowArrayView, ArrowRecordBatch, flags_view};
use crate::schema::{ArrowDataType, Schema};

verus! {

/// The greatest number of null values which the engine is asked to make
/// at once. The engine counts the bytes of at most sixteen times as many.
pub const NULL_CELLS_MAX: usize = usize::MAX / 32;

/// `arrow::array::ArrayData`: the parts of an array of the engine.
#[verifier::external_type_specification]
#[verifier::external_body]
pub struct ExArrayData(datafusion::arrow::array::ArrayData);

/// `arrow::buffer::Buffer`: bytes in memory of the engine.
#[verifier::external_type_specification]
#[verifier::external_body]
pub struct ExBuffer(datafusion::arrow::buffer::Buffer);

/// `arrow::datatypes::DataType`: the type of an array of the engine.
#[verifier::external_type_specification]
#[verifier::external_body]
pub struct ExDataType(datafusion::arrow::datatypes::DataType);

/// `arrow::datatypes::SchemaBuilder`: fields gathered for a schema.
#[verifier::external_type_specification]
#[verifier::external_body]
pub struct ExSchemaBuilder(datafusion::arrow::datatypes::SchemaBuilder);

/// `arrow::error::ArrowError`: why the array library refuses.
#[verifier::external_type_specification]
#[verifier::external_body]
pub struct ExArrowError(datafusion::arrow::error::ArrowError);

/// `datafusion::common::DFSchema`: the schema which the engine compiles
/// against.
#[verifier::external_type_specification]
#[verifier::external_body]
pub struct ExDFSchema(datafusion::common::DFSchema);

/// `datafusion::common::DataFusionError`: why the engine refuses.
#[verifier::external_type_specification]
#[verifier::external_body]
pub struct ExDataFusionError(datafusion::common::DataFusionError);

/// `datafusion::common::ScalarValue`: a constant of the engine.
#[verifier::external_type_specification]
#[verifier::external_body]
pub struct ExEngineScalar(datafusion::common::ScalarValue);

/// `datafusion::logical_expr::ColumnarValue`: what an evaluation gives.
#[verifier::external_type_specification]
#[verifier::external_body]
pub struct ExColumnarValue(datafusion::logical_expr::ColumnarValue);

/// `datafusion::logical_expr::Expr`: an expression of the engine.
#[verifier::external_type_specification]
#[verifier::external_body]
pub struct ExEngineExpr(datafusion::logical_expr::Expr);

/// `datafusion::prelude::SessionContext`: a session, which parses text.
#[verifier::external_type_specification]
#[verifier::external_body]
pub struct ExSessionContext(datafusion::prelude::SessionContext);

/// A predicate which the engine has bound to a schema.
///
/// Holds `Arc<dyn datafusion::physical_plan::PhysicalExpr>`, of which
/// nothing is known here.
#[verifier::external_body]
pub struct PhysicalExpr {
    inner: Arc<dyn datafusion::physical_plan::PhysicalExpr>,
}

/// The number of cells of an array of the engine, which
/// `arrow::array::ArrayData::len` returns.
pub uninterp spec fn array_data_len(data: ArrayData) -> nat;

/// The type of an array of the engine, as the column type which it is.
pub uninterp spec fn array_data_type(data: ArrayData) -> Option<ArrowDataType>;

/// Whether the validity flags of an array of the engine mark each of its
/// cells as valid. Every cell of an array without validity flags counts as
/// valid.
pub uninterp spec fn array_data_valid(data: ArrayData) -> Seq<bool>;

/// The buffers which an array of the engine holds, in their order.
pub uninterp spec fn array_data_buffers(data: ArrayData) -> Seq<Buffer>;

/// The arrays which an array of the engine holds the cells of its lists
/// in, in their order.
pub uninterp spec fn array_data_children(data: ArrayData) -> Seq<ArrayData>;

/// The bytes which a buffer of the engine holds.
pub uninterp spec fn buffer_bytes(buffer: Buffer) -> Seq<u8>;

/// The 64-bit integers which a buffer of the engine holds, read as the
/// machine holds them.
pub uninterp spec fn buffer_offsets(buffer: Buffer) -> Seq<i64>;

/// The column type which a type of the engine is, if it is one: a native
/// type, lists of a fixed size or of any size whose elements are of a
/// native type, text of any length, truth values, or nulls. `None` of
/// every other type of the engine.
pub uninterp spec fn data_type_view(data_type: DataType) -> Option<ArrowDataType>;

/// A field of a schema of the engine: its name, the column type which its
/// type is, and whether it may hold nulls.
pub type FieldView = (Seq<char>, Option<ArrowDataType>, bool);

/// The fields which a schema builder of the engine holds, in their order.
pub uninterp spec fn schema_builder_fields(builder: SchemaBuilder) -> Seq<FieldView>;

/// The fields which a schema of the engine holds, in their order.
pub uninterp spec fn df_schema_fields(schema: DFSchema) -> Seq<FieldView>;

/// Names the variant of `arrow::datatypes::DataType` for single values of
/// a native type.
#[verifier::external_body]
fn primitive_type(physical: PhysicalType) -> (data_type: DataType)
    ensures
        data_type_view(data_type) == Some(ArrowDataType::Primitive(physical)),
{
    match physical {
        PhysicalType::Int8 => DataType::Int8,
        PhysicalType::Int16 => DataType::Int16,
        PhysicalType::Int32 => DataType::Int32,
        PhysicalType::Int64 => DataType::Int64,
        PhysicalType::UInt8 => DataType::UInt8,
        PhysicalType::UInt16 => DataType::UInt16,
        PhysicalType::UInt32 => DataType::UInt32,
        PhysicalType::UInt64 => DataType::UInt64,
        PhysicalType::Float32 => DataType::Float32,
        PhysicalType::Float64 => DataType::Float64,
    }
}

/// Calls `arrow::datatypes::Field::new_list_field` and makes the type of
/// lists of `size` elements which are not null.
#[verifier::external_body]
fn fixed_size_list_type(element: DataType, size: i32) -> (data_type: DataType)
    ensures
        data_type_view(element) matches Some(ArrowDataType::Primitive(physical))
            ==> data_type_view(data_type) == Some(ArrowDataType::FixedSizeList(physical, size)),
{
    DataType::FixedSizeList(
        Arc::new(datafusion::arrow::datatypes::Field::new_list_field(element, false)),
        size,
    )
}

/// Calls `arrow::datatypes::Field::new_list_field` and makes the type of
/// lists of any number of elements which are not null.
#[verifier::external_body]
fn large_list_type(element: DataType) -> (data_type: DataType)
    ensures
        data_type_view(element) matches Some(ArrowDataType::Primitive(physical))
            ==> data_type_view(data_type) == Some(ArrowDataType::LargeList(physical)),
{
    DataType::LargeList(
        Arc::new(datafusion::arrow::datatypes::Field::new_list_field(element, false)),
    )
}

/// Names `arrow::datatypes::DataType::Boolean`, the type of truth values.
#[verifier::external_body]
fn boolean_type() -> (data_type: DataType)
    ensures
        data_type_view(data_type) == Some(ArrowDataType::Boolean),
{
    DataType::Boolean
}

/// Names `arrow::datatypes::DataType::LargeUtf8`, the type of text of any
/// length.
#[verifier::external_body]
fn large_utf8_type() -> (data_type: DataType)
    ensures
        data_type_view(data_type) == Some(ArrowDataType::LargeUtf8),
{
    DataType::LargeUtf8
}

/// Names `arrow::datatypes::DataType::Null`, the type of columns which
/// hold nothing but nulls.
#[verifier::external_body]
fn null_type() -> (data_type: DataType)
    ensures
        data_type_view(data_type) == Some(ArrowDataType::Null),
{
    DataType::Null
}

/// Returns the engine's type for a column type.
pub(crate) fn engine_data_type(data_type: ArrowDataType) -> (engine: DataType)
    ensures
        data_type_view(engine) == Some(data_type),
{
    match data_type {
        ArrowDataType::Primitive(physical) => primitive_type(physical),
        ArrowDataType::FixedSizeList(physical, size) => fixed_size_list_type(
            primitive_type(physical),
            size,
        ),
        ArrowDataType::LargeList(physical) => large_list_type(primitive_type(physical)),
        ArrowDataType::LargeUtf8 => large_utf8_type(),
        ArrowDataType::Boolean => boolean_type(),
        ArrowDataType::Null => null_type(),
    }
}

/// Calls `arrow::buffer::Buffer::from_slice_ref`, which copies the bytes
/// into memory of the engine.
#[verifier::external_body]
fn buffer_from_bytes(bytes: &[u8]) -> (buffer: Buffer)
    ensures
        buffer_bytes(buffer) == bytes@,
{
    Buffer::from_slice_ref(bytes)
}

/// Calls `arrow::buffer::Buffer::from_slice_ref`, which copies the offsets
/// into memory of the engine, eight bytes each.
#[verifier::external_body]
fn buffer_from_offsets(offsets: &[i64]) -> (buffer: Buffer)
    ensures
        buffer_offsets(buffer) == offsets@,
        buffer_bytes(buffer).len() == 8 * offsets@.len(),
{
    Buffer::from_slice_ref(offsets)
}

/// The validity flags of `len` cells: those given, or valid for each cell
/// where none are given.
pub open spec fn flags_of(validity: Option<Seq<bool>>, len: nat) -> Seq<bool> {
    Seq::new(
        len,
        |i: int|
            match validity {
                Some(flags) => i < flags.len() && flags[i],
                None => true,
            },
    )
}

/// Whether buffers may be handed to the engine for an array of a type: of
/// a type whose cells are delimited by offsets the first buffer, if there
/// is one, must hold whole 64-bit integers, as the engine reads it so
/// before it checks anything else.
pub open spec fn offsets_are_whole(data_type: Option<ArrowDataType>, buffers: Seq<Buffer>) -> bool {
    data_type matches Some(of_cells) && ((of_cells is LargeList || of_cells is LargeUtf8)
        && buffers.len() > 0 ==> buffer_bytes(buffers[0]).len() % 8 == 0)
}

/// Whether the engine can count the values of `len` cells of a type: of
/// lists of a fixed size there are `size` values in each cell, which the
/// engine multiplies out before it checks anything of the values.
pub open spec fn values_are_counted(data_type: Option<ArrowDataType>, len: nat) -> bool {
    data_type matches Some(ArrowDataType::FixedSizeList(_, size)) ==> size < 0 || len * size
        <= usize::MAX
}

/// Calls `arrow::array::ArrayData::try_new`, which checks that the parts
/// make an array of the type and fails if they do not. An array which it
/// returns is made of the parts it was handed: validity flags which mark
/// no cell as null may be dropped, which leaves every cell valid. The
/// type must be a column type.
#[verifier::external_body]
fn array_data(
    data_type: DataType,
    len: usize,
    validity: &Option<Vec<bool>>,
    buffers: Vec<Buffer>,
    children: Vec<ArrayData>,
) -> (result: Result<ArrayData, ArrowError>)
    requires
        offsets_are_whole(data_type_view(data_type), buffers@),
        values_are_counted(data_type_view(data_type), len as nat),
    ensures
        result matches Ok(data) ==> array_data_type(data) == data_type_view(data_type),
        result matches Ok(data) ==> array_data_len(data) == len,
        result matches Ok(data) ==> array_data_valid(data) == flags_of(
            flags_view(*validity),
            len as nat,
        ),
        result matches Ok(data) ==> array_data_buffers(data) == buffers@,
        result matches Ok(data) ==> array_data_children(data) == children@,
{
    let nulls = validity.as_ref().map(
        |v| datafusion::arrow::buffer::BooleanBuffer::from(v.as_slice()).into_inner(),
    );
    ArrayData::try_new(data_type, len, nulls, 0, buffers, children)
}

/// Whether the engine makes `len` cells of nulls of a type: not of lists of
/// a negative size, and not more cells than it has memory to count.
pub open spec fn nulls_of_type(data_type: ArrowDataType, len: nat) -> bool {
    match data_type {
        ArrowDataType::FixedSizeList(_, size) => 0 <= size && (size + 1) * (len + 1)
            <= NULL_CELLS_MAX,
        _ => len + 1 <= NULL_CELLS_MAX,
    }
}

/// Calls `arrow::array::new_null_array`, which makes an array of the type
/// with `len` cells, all of them null: marked so by the validity flags,
/// but for an array of the type of nulls, which has no flags. For lists
/// of a fixed size it makes `size` null values for each cell, so the size
/// must not be negative, and in all there must not be more values than
/// the machine can count the bytes of.
#[verifier::external_body]
fn null_array_data(data_type: DataType, len: usize) -> (data: ArrayData)
    requires
        data_type_view(data_type) matches Some(of_nulls) && nulls_of_type(of_nulls, len as nat),
    ensures
        array_data_len(data) == len,
        array_data_type(data) == data_type_view(data_type),
        !(data_type_view(data_type) matches Some(ArrowDataType::Null)) ==> array_data_valid(data)
            == Seq::new(len as nat, |i: int| false),
{
    datafusion::arrow::array::new_null_array(&data_type, len).to_data()
}

/// Turns an error of the array library into an error of the engine, with
/// `DataFusionError::from`.
#[verifier::external_body]
pub(crate) fn from_arrow_error(e: ArrowError) -> DataFusionError {
    DataFusionError::from(e)
}

/// Makes `arrow::error::ArrowError::InvalidArgumentError` of a message.
#[verifier::external_body]
fn invalid_argument(message: &str) -> ArrowError {
    ArrowError::InvalidArgumentError(message.to_owned())
}

/// Whether a column is handed to the engine without asking anything which
/// it may refuse: a column of nulls of a type of which there are nulls.
pub open spec fn always_converts(array: ArrowArrayView) -> bool {
    array matches ArrowArrayView::Null { data_type, len } && nulls_of_type(data_type, len)
}

/// Whether an array of the engine holds a column: it is of the type of the
/// column and has as many cells. A column of nulls is an array whose cells
/// the validity flags mark as null. For any other column the array is made
/// of the validity flags of the column and of buffers which hold the
/// offsets and the bytes of the column; the values of lists stand in an
/// array of their own, of the native type and without flags.
pub open spec fn holds_column(data: ArrayData, array: ArrowArrayView) -> bool {
    &&& array_data_type(data) == Some(array.data_type())
    &&& array_data_len(data) == array.len()
    &&& match array {
        ArrowArrayView::Null { data_type, len } => data_type is Null || array_data_valid(data)
            == Seq::new(len, |i: int| false),
        ArrowArrayView::Primitive { values, validity, .. } => {
            &&& array_data_valid(data) == flags_of(validity, array.len())
            &&& array_data_buffers(data).len() == 1
            &&& buffer_bytes(array_data_buffers(data)[0]) == values
            &&& array_data_children(data).len() == 0
        },
        ArrowArrayView::FixedSizeList { physical, values, validity, .. } => {
            &&& array_data_valid(data) == flags_of(validity, array.len())
            &&& array_data_buffers(data).len() == 0
            &&& array_data_children(data).len() == 1
            &&& holds_values(array_data_children(data)[0], physical, values)
        },
        ArrowArrayView::LargeList { physical, offsets, values, validity } => {
            &&& array_data_valid(data) == flags_of(validity, array.len())
            &&& array_data_buffers(data).len() == 1
            &&& buffer_offsets(array_data_buffers(data)[0]) == offsets
            &&& array_data_children(data).len() == 1
            &&& holds_values(array_data_children(data)[0], physical, values)
        },
        ArrowArrayView::LargeUtf8 { offsets, values, validity } => {
            &&& array_data_valid(data) == flags_of(validity, array.len())
            &&& array_data_buffers(data).len() == 2
            &&& buffer_offsets(array_data_buffers(data)[0]) == offsets
            &&& buffer_bytes(array_data_buffers(data)[1]) == values
            &&& array_data_children(data).len() == 0
        },
    }
}

/// Whether an array of the engine holds the values of a native type which
/// `bytes` holds, none of them null: as many cells as there are whole
/// values, and one buffer of the bytes.
pub open spec fn holds_values(data: ArrayData, physical: PhysicalType, bytes: Seq<u8>) -> bool {
    &&& array_data_type(data) == Some(ArrowDataType::Primitive(physical))
    &&& array_data_len(data) == bytes.len() / (physical.spec_width() as nat)
    &&& array_data_valid(data) == flags_of(None, array_data_len(data))
    &&& array_data_buffers(data).len() == 1
    &&& buffer_bytes(array_data_buffers(data)[0]) == bytes
    &&& array_data_children(data).len() == 0
}

/// The values of the cells of a column of lists of a fixed size can be
/// counted: there are no more of them than bytes.
proof fn lemma_cells_counted(array: ArrowArrayView)
    requires
        array.well_formed(),
        array is FixedSizeList,
        array->FixedSizeList_values.len() <= usize::MAX,
    ensures
        values_are_counted(Some(array.data_type()), array.len()),
{
    let size = array->FixedSizeList_size;
    let physical = array->FixedSizeList_physical;
    let bytes = array->FixedSizeList_values.len();
    let count = array.value_count();
    let cells = array.len();
    assert(count <= bytes) by {
        vstd::arithmetic::div_mod::lemma_div_is_ordered_by_denominator(
            bytes as int,
            1,
            physical.spec_width() as int,
        );
        vstd::arithmetic::div_mod::lemma_div_basics(bytes as int);
    }
    if size > 0 {
        vstd::arithmetic::div_mod::lemma_fundamental_div_mod(count as int, size as int);
        assert(cells * size <= count) by (nonlinear_arith)
            requires
                count == size * (count as int / size as int) + (count as int % size as int),
                0 <= count as int % size as int,
                cells == count as int / size as int,
        ;
    } else {
        assert(cells * size == 0) by (nonlinear_arith)
            requires
                size == 0,
        ;
    }
}

/// Returns whether the engine makes `len` cells of nulls of a type.
fn has_nulls_of_type(data_type: ArrowDataType, len: usize) -> (yes: bool)
    ensures
        yes == nulls_of_type(data_type, len as nat),
{
    let cells: u128 = len as u128 + 1;
    match data_type {
        ArrowDataType::FixedSizeList(_, size) => {
            if size < 0 {
                return false;
            }
            let values: u128 = size as u128 + 1;
            assert(values * cells <= 0x8000_0000 * 0x1_0000_0000_0000_0000) by (nonlinear_arith)
                requires
                    values <= 0x8000_0000,
                    cells <= 0x1_0000_0000_0000_0000,
            ;
            values * cells <= NULL_CELLS_MAX as u128
        },
        _ => cells <= NULL_CELLS_MAX as u128,
    }
}

/// Returns the engine's array for a column: one which holds the column.
///
/// A column of nulls is made by the engine and always comes, unless its
/// type is that of lists of a negative size, of which there are none, or
/// it has more cells than the engine makes nulls of. For any other column
/// the engine checks the parts which it is handed: the bytes of the values,
/// the offsets and the validity flags as they stand in the column.
pub(crate) fn array_to_engine(array: &ArrowArray) -> (result: Result<ArrayData, ArrowError>)
    ensures
        result matches Ok(data) ==> holds_column(data, array@),
        always_converts(array@) ==> result is Ok,
        array@ is Null && !always_converts(array@) ==> result is Err,
{
    let len = array.len();
    let data_type = engine_data_type(array.data_type());
    match array.parts() {
        ArrayParts::Null { data_type: of_nulls, .. } => {
            if !has_nulls_of_type(of_nulls, len) {
                return Err(invalid_argument("the engine makes no such column of nulls"));
            }
            Ok(null_array_data(data_type, len))
        },
        ArrayParts::Primitive { values, validity, .. } => {
            let mut buffers: Vec<Buffer> = Vec::new();
            buffers.push(buffer_from_bytes(values.as_slice()));
            array_data(data_type, len, validity, buffers, Vec::new())
        },
        ArrayParts::FixedSizeList { physical, size, values, validity } => {
            let child = values_to_engine(physical, values)?;
            let mut children: Vec<ArrayData> = Vec::new();
            children.push(child);
            let bytes = values.len();
            proof {
                assert(values@.len() == bytes);
                lemma_cells_counted(array@);
            }
            array_data(data_type, len, validity, Vec::new(), children)
        },
        ArrayParts::LargeList { physical, offsets, values, validity } => {
            let child = values_to_engine(physical, values)?;
            let mut buffers: Vec<Buffer> = Vec::new();
            buffers.push(buffer_from_offsets(offsets.as_slice()));
            let mut children: Vec<ArrayData> = Vec::new();
            children.push(child);
            array_data(data_type, len, validity, buffers, children)
        },
        ArrayParts::LargeUtf8 { offsets, values, validity } => {
            let mut buffers: Vec<Buffer> = Vec::new();
            buffers.push(buffer_from_offsets(offsets.as_slice()));
            buffers.push(buffer_from_bytes(values.as_slice()));
            array_data(data_type, len, validity, buffers, Vec::new())
        },
    }
}

/// Returns the engine's array of the values of a native type which `bytes`
/// holds, none of them null. The engine checks the bytes which it is
/// handed.
fn values_to_engine(physical: PhysicalType, bytes: &Vec<u8>) -> (result: Result<
    ArrayData,
    ArrowError,
>)
    ensures
        result matches Ok(data) ==> holds_values(data, physical, bytes@),
{
    let count = bytes.len() / physical.width();
    let mut buffers: Vec<Buffer> = Vec::new();
    buffers.push(buffer_from_bytes(bytes.as_slice()));
    array_data(primitive_type(physical), count, &None, buffers, Vec::new())
}

/// Calls `arrow::datatypes::SchemaBuilder::new`, which makes a builder
/// without a field.
#[verifier::external_body]
fn schema_builder() -> (builder: SchemaBuilder)
    ensures
        schema_builder_fields(builder) == Seq::<FieldView>::empty(),
{
    SchemaBuilder::new()
}

/// Calls `arrow::datatypes::Field::new` and
/// `arrow::datatypes::SchemaBuilder::push`, which appends the field to
/// those which the builder holds.
#[verifier::external_body]
fn schema_builder_push(
    builder: &mut SchemaBuilder,
    name: &String,
    data_type: DataType,
    nullable: bool,
)
    ensures
        schema_builder_fields(*final(builder)) == schema_builder_fields(*old(builder)).push(
            (name@, data_type_view(data_type), nullable),
        ),
{
    builder.push(datafusion::arrow::datatypes::Field::new(name.as_str(), data_type, nullable));
}

/// Calls `arrow::datatypes::SchemaBuilder::finish` and
/// `datafusion::common::DFSchema::try_from`, which gives the fields of the
/// builder to the engine as they are, without a qualifier. The conversion
/// looks at no field and returns no error.
#[verifier::external_body]
fn schema_builder_finish(builder: SchemaBuilder) -> (result: Result<DFSchema, DataFusionError>)
    ensures
        result is Ok,
        result matches Ok(schema) ==> df_schema_fields(schema) == schema_builder_fields(builder),
{
    DFSchema::try_from(builder.finish())
}

/// The descriptions of columns as fields of the engine, in their order:
/// the name, the type and whether the column may hold nulls.
pub open spec fn named_fields(schema: &Schema) -> Seq<FieldView> {
    Seq::new(
        schema.fields@.len(),
        |i: int|
            (
                schema.fields@[i].name@,
                Some(schema.fields@[i].data_type),
                schema.fields@[i].nullable,
            ),
    )
}

/// The descriptions of columns, seen as mathematical values, as fields of
/// the engine.
pub open spec fn engine_fields(fields: Seq<crate::schema::ArrowFieldView>) -> Seq<FieldView> {
    Seq::new(fields.len(), |i: int| (fields[i].name, Some(fields[i].data_type), fields[i].nullable))
}

/// The names of fields of the engine, in their order.
pub open spec fn field_names(fields: Seq<FieldView>) -> Seq<Seq<char>> {
    Seq::new(fields.len(), |i: int| fields[i].0)
}

/// Calls `arrow::datatypes::SchemaBuilder::finish` and
/// `datafusion::common::DFSchema::from_field_specific_qualified_schema`
/// with no qualifier for any field, which gives the fields of the builder
/// to the engine as they are unless two of them have one name.
#[verifier::external_body]
fn schema_builder_finish_distinct(builder: SchemaBuilder) -> (result: Result<
    DFSchema,
    DataFusionError,
>)
    ensures
        result is Ok <==> field_names(schema_builder_fields(builder)).no_duplicates(),
        result matches Ok(schema) ==> df_schema_fields(schema) == schema_builder_fields(builder),
{
    let schema = Arc::new(builder.finish());
    DFSchema::from_field_specific_qualified_schema(vec![None; schema.fields().len()], &schema)
}

/// Returns a builder which holds a field for each of the descriptions of
/// columns, in their order: of the name of the column, of the engine's
/// type for the type of the column, and nullable as the column is.
fn schema_fields(schema: &Schema) -> (builder: SchemaBuilder)
    ensures
        schema_builder_fields(builder) == named_fields(schema),
{
    let mut builder = schema_builder();
    let mut i: usize = 0;
    while i < schema.fields.len()
        invariant
            i <= schema.fields@.len(),
            schema_builder_fields(builder) == named_fields(schema).subrange(0, i as int),
        decreases schema.fields@.len() - i,
    {
        let f = &schema.fields[i];
        schema_builder_push(&mut builder, &f.name, engine_data_type(f.data_type), f.nullable);
        assert(named_fields(schema).subrange(0, i + 1) =~= named_fields(schema).subrange(
            0,
            i as int,
        ).push(named_fields(schema)[i as int]));
        i += 1;
    }
    assert(named_fields(schema).subrange(0, schema.fields@.len() as int) =~= named_fields(
        schema,
    ));
    builder
}

/// Returns the engine's schema for the descriptions of columns: a field
/// for each column, in their order, of the name of the column and of the
/// engine's type for the type of the column. The engine takes any columns.
pub(crate) fn schema_to_engine(schema: &Schema) -> (result: Result<DFSchema, DataFusionError>)
    ensures
        result is Ok,
        result matches Ok(engine) ==> df_schema_fields(engine) == named_fields(schema),
{
    schema_builder_finish(schema_fields(schema))
}

/// Returns the engine's schema for the descriptions of columns as
/// [`schema_to_engine`] does, unless two columns have one name, which is
/// refused.
pub(crate) fn distinct_schema_to_engine(schema: &Schema) -> (result: Result<
    DFSchema,
    DataFusionError,
>)
    ensures
        result is Ok <==> field_names(named_fields(schema)).no_duplicates(),
        result matches Ok(engine) ==> df_schema_fields(engine) == named_fields(schema),
{
    schema_builder_finish_distinct(schema_fields(schema))
}

/// A constant of the engine as a constant of this library, if it is one: a
/// truth value, a value of a native type or a list of such values, none of
/// them null.
pub uninterp spec fn engine_scalar(scalar: EngineScalar) -> Option<LiteralValueView>;

/// The constant which the engine reads from the one cell of an array of
/// lists: of the type of the array, the offsets of the cell if lists of
/// this type have any, and the bytes of the values of the lists.
pub uninterp spec fn list_constant(
    data_type: Option<ArrowDataType>,
    offsets: Seq<i64>,
    bytes: Seq<u8>,
) -> LiteralValueView;

/// Makes `datafusion::common::ScalarValue::Boolean` of a truth value.
#[verifier::external_body]
fn boolean_scalar(value: bool) -> (scalar: EngineScalar)
    ensures
        engine_scalar(scalar) == Some(LiteralValueView::Boolean(value)),
{
    EngineScalar::Boolean(Some(value))
}

/// Calls `datafusion::common::ScalarValue::from` for an integer, which
/// makes the variant of its type that holds the integer and is not null.
/// A floating-point number is made of its bit pattern with
/// `num_traits::FromBytes::from_le_bytes`, and held likewise.
#[verifier::external_body]
fn native_scalar(value: NativeValue) -> (scalar: EngineScalar)
    ensures
        engine_scalar(scalar) == Some(LiteralValueView::Native(value)),
{
    match value {
        NativeValue::Int8(v) => v.into(),
        NativeValue::Int16(v) => v.into(),
        NativeValue::Int32(v) => v.into(),
        NativeValue::Int64(v) => v.into(),
        NativeValue::UInt8(v) => v.into(),
        NativeValue::UInt16(v) => v.into(),
        NativeValue::UInt32(v) => v.into(),
        NativeValue::UInt64(v) => v.into(),
        NativeValue::Float32(b) => EngineScalar::Float32(
            Some(FromBytes::from_le_bytes(&b.to_le_bytes()))),
        NativeValue::Float64(b) => EngineScalar::Float64(
            Some(FromBytes::from_le_bytes(&b.to_le_bytes()))),
    }
}

/// The offsets which stand in the first buffer of an array of lists, if
/// it has a buffer.
pub open spec fn list_offsets(data: ArrayData) -> Seq<i64> {
    if array_data_buffers(data).len() > 0 {
        buffer_offsets(array_data_buffers(data)[0])
    } else {
        Seq::empty()
    }
}

/// The bytes of the values of an array of lists.
pub open spec fn list_bytes(data: ArrayData) -> Seq<u8> {
    buffer_bytes(array_data_buffers(array_data_children(data)[0])[0])
}

/// Calls `arrow::array::make_array` and
/// `datafusion::common::ScalarValue::try_from_array` for the one cell of an
/// array of lists which is not null. The values of the lists stand in an
/// array of a native type which holds nothing but their bytes: as many
/// cells as there are whole values, none of them null. The constant which
/// comes is then that of the type, the offsets and the bytes.
#[verifier::external_body]
fn scalar_from_array(data: ArrayData) -> (result: Result<EngineScalar, DataFusionError>)
    requires
        array_data_type(data) is Some,
        array_data_len(data) == 1,
        array_data_valid(data) == flags_of(None, 1),
        array_data_children(data).len() == 1,
        array_data_type(array_data_children(data)[0]) matches Some(
            ArrowDataType::Primitive(physical),
        ) && holds_values(array_data_children(data)[0], physical, list_bytes(data)),
    ensures
        result matches Ok(scalar) ==> engine_scalar(scalar) == Some(
            list_constant(array_data_type(data), list_offsets(data), list_bytes(data)),
        ),
{
    EngineScalar::try_from_array(&datafusion::arrow::array::make_array(data), 0)
}

/// The bytes which hold the first `n` of `values`, one value after the
/// other.
pub open spec fn bytes_of_values(values: Seq<NativeValue>, n: int) -> Seq<u8>
    decreases n,
{
    if n <= 0 {
        Seq::empty()
    } else {
        bytes_of_values(values, n - 1) + values[n - 1].bytes()
    }
}

/// Returns the bytes of `values` one after the other.
fn values_bytes(values: &Vec<NativeValue>) -> (bytes: Vec<u8>)
    ensures
        bytes@ == bytes_of_values(values@, values@.len() as int),
{
    let mut bytes: Vec<u8> = Vec::new();
    let mut i: usize = 0;
    assert(bytes@ =~= bytes_of_values(values@, 0));
    while i < values.len()
        invariant
            i <= values@.len(),
            bytes@ == bytes_of_values(values@, i as int),
        decreases values@.len() - i,
    {
        let mut value = values[i].to_bytes();
        bytes.append(&mut value);
        i += 1;
    }
    bytes
}

/// The offsets of the one cell of an array of lists which holds so many
/// values, where lists of its type have offsets.
pub open spec fn cell_offsets(offsets: bool, count: nat) -> Seq<i64> {
    if offsets {
        seq![0i64, count as i64]
    } else {
        Seq::empty()
    }
}

/// Returns the engine's array of one cell which holds a list of values:
/// of the type given, with the offsets of the cell where lists of the type
/// have offsets, and with the bytes of the values in an array of their
/// own. The engine checks the parts which it is handed.
fn list_to_engine(
    data_type: DataType,
    physical: PhysicalType,
    values: &Vec<NativeValue>,
    offsets: bool,
) -> (result: Result<ArrayData, ArrowError>)
    requires
        offsets ==> values@.len() <= i64::MAX,
        data_type_view(data_type) is Some,
        offsets || !(data_type_view(data_type) matches Some(ArrowDataType::LargeList(_))
            || data_type_view(data_type) matches Some(ArrowDataType::LargeUtf8)),
    ensures
        result matches Ok(data) ==> {
            &&& array_data_type(data) == data_type_view(data_type)
            &&& array_data_len(data) == 1
            &&& array_data_valid(data) == flags_of(None, 1)
            &&& list_offsets(data) == cell_offsets(offsets, values@.len())
            &&& array_data_children(data).len() == 1
            &&& holds_values(
                array_data_children(data)[0],
                physical,
                bytes_of_values(values@, values@.len() as int),
            )
        },
{
    let bytes = values_bytes(values);
    let child = values_to_engine(physical, &bytes)?;
    let mut children: Vec<ArrayData> = Vec::new();
    children.push(child);
    let mut buffers: Vec<Buffer> = Vec::new();
    if offsets {
        let mut bounds: Vec<i64> = Vec::new();
        bounds.push(0);
        bounds.push(values.len() as i64);
        buffers.push(buffer_from_offsets(bounds.as_slice()));
    }
    array_data(data_type, 1, &None, buffers, children)
}

/// A constant as the engine holds it: a single value as it is, and a list
/// as the constant which the engine reads from the array of one cell that
/// holds the bytes of its values.
pub open spec fn engine_literal(literal: LiteralValueView) -> LiteralValueView {
    match literal {
        LiteralValueView::FixedSizeList(physical, size, values) => list_constant(
            Some(ArrowDataType::FixedSizeList(physical, size)),
            cell_offsets(false, values.len()),
            bytes_of_values(values, values.len() as int),
        ),
        LiteralValueView::LargeList(physical, values) => list_constant(
            Some(ArrowDataType::LargeList(physical)),
            cell_offsets(true, values.len()),
            bytes_of_values(values, values.len() as int),
        ),
        _ => literal,
    }
}

/// Returns the engine's constant for a constant of an expression.
///
/// A single value always has one, a truth value or a value of a native
/// type. A list is handed to the engine as an array of one cell, of which
/// the engine takes the cell if it accepts the array; a list of more
/// values than a signed 64-bit integer counts has none.
pub(crate) fn literal_to_engine(literal: &LiteralValue) -> (result: Result<
    EngineScalar,
    DataFusionError,
>)
    ensures
        result matches Ok(scalar) ==> engine_scalar(scalar) == Some(engine_literal(literal@)),
        literal@.is_single() ==> result is Ok,
        literal@ matches LiteralValueView::LargeList(_, values) && values.len() > i64::MAX
            ==> result is Err,
{
    let data = match literal {
        LiteralValue::Boolean(value) => {
            return Ok(boolean_scalar(*value));
        },
        LiteralValue::Native(value) => {
            return Ok(native_scalar(*value));
        },
        LiteralValue::FixedSizeList(physical, size, values) => {
            list_to_engine(
                fixed_size_list_type(primitive_type(*physical), *size),
                *physical,
                values,
                false,
            )
        },
        LiteralValue::LargeList(physical, values) => {
            if values.len() as u64 > 0x7fff_ffff_ffff_ffff {
                return Err(plan_error("a list has too many values"));
            }
            list_to_engine(large_list_type(primitive_type(*physical)), *physical, values, true)
        },
    };
    match data {
        Ok(data) => scalar_from_array(data),
        Err(e) => Err(from_arrow_error(e)),
    }
}

/// Makes `datafusion::common::DataFusionError::Plan` of a message.
#[verifier::external_body]
pub(crate) fn plan_error(message: &str) -> DataFusionError {
    DataFusionError::Plan(message.to_owned())
}

/// An expression of the engine as an expression of this library, if it is
/// one: a column without a qualifier, a constant of this library, a
/// comparison, conjunction or disjunction of two such expressions, a test
/// of one for membership in a list of constants, a test of one for null, a
/// negation, or an aggregate function which is called plainly on such
/// expressions, by the name of the function.
pub uninterp spec fn engine_expr(expr: EngineExpr) -> Option<LogicalExprView>;

/// The name of the aggregate function which the engine knows by a name
/// among its default functions, if it knows one by it.
pub uninterp spec fn aggregate_name(name: Seq<char>) -> Option<Seq<char>>;

/// Calls `datafusion::execution::FunctionRegistry::udaf` of a session
/// state with the default features of the engine, which looks an aggregate
/// function up by a name, and
/// `datafusion::logical_expr::expr::AggregateFunction::new_udf`, which
/// calls the function plainly on the arguments.
#[verifier::external_body]
fn aggregate_expr(name: &String, args: Vec<EngineExpr>) -> (result: Result<
    EngineExpr,
    DataFusionError,
>)
    ensures
        result is Ok <==> aggregate_name(name@) is Some,
        result matches Ok(expr) ==> ((forall|i: int|
            0 <= i < args@.len() ==> engine_expr(#[trigger] args@[i]) is Some) ==> engine_expr(
            expr,
        ) == Some(
            LogicalExprView::AggregateFunction {
                name: aggregate_name(name@)->Some_0,
                args: argument_views(args@),
            },
        )),
{
    let state =
        datafusion::execution::session_state::SessionStateBuilder::new_with_default_features().build();
    let function = datafusion::execution::FunctionRegistry::udaf(&state, name.as_str())?;
    let call = datafusion::logical_expr::expr::AggregateFunction::new_udf(
        function, args, false, None, Vec::new(), None);
    Ok(EngineExpr::AggregateFunction(call))
}

/// Calls `datafusion::common::Column::from_name` and makes the expression
/// which refers to the column of that name, without a qualifier.
#[verifier::external_body]
fn column_expr(name: &String) -> (expr: EngineExpr)
    ensures
        engine_expr(expr) == Some(LogicalExprView::Column(name@)),
{
    EngineExpr::Column(datafusion::common::Column::from_name(name.as_str()))
}

/// Makes `datafusion::logical_expr::Expr::Literal` of a constant.
#[verifier::external_body]
fn literal_expr(value: EngineScalar) -> (expr: EngineExpr)
    ensures
        engine_scalar(value) matches Some(constant) ==> engine_expr(expr) == Some(
            LogicalExprView::Literal(constant),
        ),
{
    EngineExpr::Literal(value, None)
}

/// Calls `datafusion::logical_expr::BinaryExpr::new` with the engine's
/// operator of the same name.
#[verifier::external_body]
fn binary_expr(left: EngineExpr, op: Operator, right: EngineExpr) -> (expr: EngineExpr)
    ensures
        engine_expr(left) matches Some(l) && engine_expr(right) matches Some(r) ==> engine_expr(
            expr,
        ) == Some(LogicalExprView::BinaryExpr { left: Box::new(l), op, right: Box::new(r) }),
{
    let op = match op {
        Operator::Eq => datafusion::logical_expr::Operator::Eq,
        Operator::NotEq => datafusion::logical_expr::Operator::NotEq,
        Operator::Lt => datafusion::logical_expr::Operator::Lt,
        Operator::LtEq => datafusion::logical_expr::Operator::LtEq,
        Operator::Gt => datafusion::logical_expr::Operator::Gt,
        Operator::GtEq => datafusion::logical_expr::Operator::GtEq,
        Operator::And => datafusion::logical_expr::Operator::And,
        Operator::Or => datafusion::logical_expr::Operator::Or,
    };
    let binary = datafusion::logical_expr::BinaryExpr::new(Box::new(left), op, Box::new(right));
    EngineExpr::BinaryExpr(binary)
}

/// The constants which expressions of the engine are, in their order.
pub open spec fn member_views(list: Seq<EngineExpr>) -> Seq<LiteralValueView> {
    Seq::new(list.len(), |i: int| engine_expr(list[i])->Some_0->Literal_0)
}

/// The expressions of this library which expressions of the engine are, in
/// their order.
pub open spec fn argument_views(args: Seq<EngineExpr>) -> Seq<LogicalExprView> {
    Seq::new(args.len(), |i: int| engine_expr(args[i])->Some_0)
}

/// Calls `datafusion::logical_expr::expr::InList::new`, which tests an
/// expression for membership in a list, here of constants.
#[verifier::external_body]
fn in_list_expr(expr: EngineExpr, list: Vec<EngineExpr>, negated: bool) -> (tested: EngineExpr)
    ensures
        engine_expr(expr) is Some && (forall|i: int|
            0 <= i < list@.len() ==> engine_expr(#[trigger] list@[i]) matches Some(
                LogicalExprView::Literal(_),
            )) ==> engine_expr(tested) == Some(
            LogicalExprView::InList {
                expr: Box::new(engine_expr(expr)->Some_0),
                list: member_views(list@),
                negated,
            },
        ),
{
    EngineExpr::InList(datafusion::logical_expr::expr::InList::new(Box::new(expr), list, negated))
}

/// Makes `datafusion::logical_expr::Expr::IsNull` of an expression.
#[verifier::external_body]
fn is_null_expr(expr: EngineExpr) -> (test: EngineExpr)
    ensures
        engine_expr(expr) matches Some(e) ==> engine_expr(test) == Some(
            LogicalExprView::IsNull(Box::new(e)),
        ),
{
    EngineExpr::IsNull(Box::new(expr))
}

/// Makes `datafusion::logical_expr::Expr::IsNotNull` of an expression.
#[verifier::external_body]
fn is_not_null_expr(expr: EngineExpr) -> (test: EngineExpr)
    ensures
        engine_expr(expr) matches Some(e) ==> engine_expr(test) == Some(
            LogicalExprView::IsNotNull(Box::new(e)),
        ),
{
    EngineExpr::IsNotNull(Box::new(expr))
}

/// The negation of an expression as the engine makes it: of a test for
/// membership in a list the test for the opposite, and of any other
/// expression a node of its own.
pub open spec fn negated_view(expr: LogicalExprView) -> LogicalExprView {
    match expr {
        LogicalExprView::InList { expr, list, negated } => LogicalExprView::InList {
            expr,
            list,
            negated: !negated,
        },
        _ => LogicalExprView::Not(Box::new(expr)),
    }
}

/// Calls `std::ops::Not::not` of `datafusion::logical_expr::Expr`, which
/// negates the expression: a test for membership in a list by testing for
/// the opposite, and any other expression of this library by a node of its
/// own.
#[verifier::external_body]
fn not_expr(expr: EngineExpr) -> (negation: EngineExpr)
    ensures
        engine_expr(expr) matches Some(e) ==> engine_expr(negation) == Some(negated_view(e)),
{
    !expr
}

/// The constants of a list as the engine holds them.
pub open spec fn engine_literals(list: Seq<LiteralValueView>) -> Seq<LiteralValueView> {
    Seq::new(list.len(), |i: int| engine_literal(list[i]))
}

/// An expression as the engine holds it: node for node the same, but that
/// the negation of a test for membership in a list is the test for the
/// opposite; with each list among its constants as the engine reads it,
/// and each aggregate function by the name which the engine has for it.
pub open spec fn engine_view(expr: LogicalExprView) -> LogicalExprView
    decreases expr,
{
    match expr {
        LogicalExprView::Column(name) => LogicalExprView::Column(name),
        LogicalExprView::Literal(value) => LogicalExprView::Literal(engine_literal(value)),
        LogicalExprView::BinaryExpr { left, op, right } => LogicalExprView::BinaryExpr {
            left: Box::new(engine_view(*left)),
            op,
            right: Box::new(engine_view(*right)),
        },
        LogicalExprView::InList { expr, list, negated } => LogicalExprView::InList {
            expr: Box::new(engine_view(*expr)),
            list: engine_literals(list),
            negated,
        },
        LogicalExprView::IsNull(e) => LogicalExprView::IsNull(Box::new(engine_view(*e))),
        LogicalExprView::IsNotNull(e) => LogicalExprView::IsNotNull(Box::new(engine_view(*e))),
        LogicalExprView::Not(e) => negated_view(engine_view(*e)),
        LogicalExprView::AggregateFunction { name, args } => LogicalExprView::AggregateFunction {
            name: match aggregate_name(name) {
                Some(known) => known,
                None => name,
            },
            args: Seq::new(
                args.len(),
                |i: int|
                    if 0 <= i < args.len() {
                        engine_view(args[i])
                    } else {
                        LogicalExprView::Literal(LiteralValueView::Boolean(false))
                    },
            ),
        },
    }
}

/// Whether an expression is held by the engine as it is: it is without an
/// aggregate, its constants are single values, and it negates no test for
/// membership in a list.
pub open spec fn held_as_it_is(expr: LogicalExprView) -> bool
    decreases expr,
{
    match expr {
        LogicalExprView::Column(_) => true,
        LogicalExprView::Literal(value) => value.is_single(),
        LogicalExprView::BinaryExpr { left, right, .. } => held_as_it_is(*left) && held_as_it_is(
            *right,
        ),
        LogicalExprView::InList { expr, list, .. } => held_as_it_is(*expr) && forall|i: int|
            0 <= i < list.len() ==> (#[trigger] list[i]).is_single(),
        LogicalExprView::IsNull(e) => held_as_it_is(*e),
        LogicalExprView::IsNotNull(e) => held_as_it_is(*e),
        LogicalExprView::Not(e) => held_as_it_is(*e) && !(*e is InList),
        LogicalExprView::AggregateFunction { .. } => false,
    }
}

/// The engine holds an expression without an aggregate, whose constants
/// are single values and which negates no test for membership in a list,
/// as the very same expression.
pub proof fn lemma_held_as_it_is(expr: LogicalExprView)
    requires
        held_as_it_is(expr),
    ensures
        engine_view(expr) == expr,
    decreases expr,
{
    match expr {
        LogicalExprView::BinaryExpr { left, right, .. } => {
            lemma_held_as_it_is(*left);
            lemma_held_as_it_is(*right);
        },
        LogicalExprView::InList { expr: tested, list, .. } => {
            lemma_held_as_it_is(*tested);
            assert(engine_literals(list) =~= list);
        },
        LogicalExprView::IsNull(e) => {
            lemma_held_as_it_is(*e);
        },
        LogicalExprView::IsNotNull(e) => {
            lemma_held_as_it_is(*e);
        },
        LogicalExprView::Not(e) => {
            lemma_held_as_it_is(*e);
        },
        _ => {},
    }
}

/// Whether the engine knows every aggregate function of an expression by
/// its name.
pub open spec fn aggregates_known(expr: LogicalExprView) -> bool
    decreases expr,
{
    match expr {
        LogicalExprView::Column(_) => true,
        LogicalExprView::Literal(_) => true,
        LogicalExprView::BinaryExpr { left, right, .. } => aggregates_known(*left)
            && aggregates_known(*right),
        LogicalExprView::InList { expr, .. } => aggregates_known(*expr),
        LogicalExprView::IsNull(e) => aggregates_known(*e),
        LogicalExprView::IsNotNull(e) => aggregates_known(*e),
        LogicalExprView::Not(e) => aggregates_known(*e),
        LogicalExprView::AggregateFunction { name, args } => aggregate_name(name) is Some
            && forall|i: int| 0 <= i < args.len() ==> aggregates_known(#[trigger] args[i]),
    }
}

/// Returns the engine's expression for a logical expression: the same
/// expression, node for node, as the engine holds it.
///
/// An expression without an aggregate whose constants are single values
/// always has one. An aggregate function which the engine does not know
/// by its name has none. For any other expression the engine decides,
/// which is asked for each constant that is a list.
pub(crate) fn expr_to_engine(expr: &LogicalExpr) -> (result: Result<EngineExpr, DataFusionError>)
    ensures
        result matches Ok(engine) ==> engine_expr(engine) == Some(engine_view(expr@)),
        expr@.single_valued() ==> result is Ok,
        !aggregates_known(expr@) ==> result is Err,
    decreases expr,
{
    match expr {
        LogicalExpr::Column(name) => Ok(column_expr(name)),
        LogicalExpr::Literal(value) => Ok(literal_expr(literal_to_engine(value)?)),
        LogicalExpr::BinaryExpr { left, op, right } => {
            let left = expr_to_engine(left)?;
            let right = expr_to_engine(right)?;
            Ok(binary_expr(left, *op, right))
        },
        LogicalExpr::InList { expr: tested, list, negated } => {
            let tested = expr_to_engine(tested)?;
            let mut members: Vec<EngineExpr> = Vec::new();
            let mut i: usize = 0;
            proof {
                assert(expr@ matches LogicalExprView::InList { list: views, .. } && views
                    == scalar_views(list@));
                if expr@.single_valued() {
                    assert forall|j: int| 0 <= j < list@.len() implies (#[trigger] list@[j])@
                        .is_single() by {
                        assert(scalar_views(list@)[j] == list@[j]@);
                    }
                }
            }
            while i < list.len()
                invariant
                    i <= list@.len(),
                    members@.len() == i,
                    expr@.single_valued() ==> forall|j: int|
                        0 <= j < list@.len() ==> (#[trigger] list@[j])@.is_single(),
                    forall|j: int|
                        0 <= j < i ==> engine_expr(#[trigger] members@[j]) == Some(
                            LogicalExprView::Literal(engine_literal(list@[j]@)),
                        ),
                decreases list@.len() - i,
            {
                members.push(literal_expr(literal_to_engine(&list[i])?));
                i += 1;
            }
            let result = in_list_expr(tested, members, *negated);
            assert(member_views(members@) =~= engine_literals(scalar_views(list@)));
            Ok(result)
        },
        LogicalExpr::IsNull(e) => Ok(is_null_expr(expr_to_engine(e)?)),
        LogicalExpr::IsNotNull(e) => Ok(is_not_null_expr(expr_to_engine(e)?)),
        LogicalExpr::Not(e) => Ok(not_expr(expr_to_engine(e)?)),
        LogicalExpr::AggregateFunction { name, args } => {
            let ghost views = expr@->args;
            let mut members: Vec<EngineExpr> = Vec::new();
            let mut i: usize = 0;
            while i < args.len()
                invariant
                    i <= args@.len(),
                    members@.len() == i,
                    *expr matches LogicalExpr::AggregateFunction { args: a, .. } && a == *args,
                    views == expr@->args,
                    views.len() == args@.len(),
                    forall|j: int|
                        0 <= j < i ==> engine_expr(#[trigger] members@[j]) == Some(
                            engine_view(views[j]),
                        ),
                    forall|j: int| 0 <= j < i ==> aggregates_known(#[trigger] views[j]),
                decreases args@.len() - i,
            {
                assert(views[i as int] == args@[i as int]@);
                members.push(expr_to_engine(&args[i])?);
                i += 1;
            }
            let ghost handed = members@;
            let result = aggregate_expr(name, members);
            proof {
                if result is Ok {
                    assert(argument_views(handed) =~= engine_view(expr@)->args);
                }
            }
            result
        },
    }
}

/// Whether the engine binds an expression to a schema which holds the
/// fields, each of a column type and none with a qualifier.
pub uninterp spec fn compiles(expr: EngineExpr, fields: Seq<FieldView>) -> bool;

/// Whether each of the fields is of a column type.
pub open spec fn of_column_types(fields: Seq<FieldView>) -> bool {
    forall|i: int| 0 <= i < fields.len() ==> (#[trigger] fields[i]).1 is Some
}

/// Calls `datafusion::physical_expr::create_physical_expr` with the
/// engine's default properties, which hold nothing of the time or the
/// machine. It binds an expression to a schema and fails if a column or a
/// type does not resolve: whether it does is a matter of the expression
/// and of the fields of the schema alone.
#[verifier::external_body]
pub(crate) fn compile(expr: &EngineExpr, schema: &DFSchema) -> (result: Result<
    PhysicalExpr,
    DataFusionError,
>)
    requires
        of_column_types(df_schema_fields(*schema)),
    ensures
        result is Ok <==> compiles(*expr, df_schema_fields(*schema)),
{
    let props = datafusion::execution::context::ExecutionProps::new();
    let context = Default::default();
    let inner = datafusion::physical_expr::create_physical_expr(expr, schema, &props, &context)?;
    Ok(PhysicalExpr { inner })
}

/// Calls `datafusion::physical_expr::conjunction`, which joins predicates
/// with "and", the first two first, and gives "true" for none.
#[verifier::external_body]
pub(crate) fn physical_conjunction(predicates: Vec<PhysicalExpr>) -> PhysicalExpr {
    let inner = datafusion::physical_expr::conjunction(predicates.into_iter().map(|p| p.inner));
    PhysicalExpr { inner }
}

/// Calls `arrow::record_batch::RecordBatch::try_new_with_options`, which
/// fails unless the arrays fit the schema and have `rows` cells each, and
/// `datafusion::physical_plan::PhysicalExpr::evaluate` on the batch. It is
/// handed one array for each field of the schema, of the type of the
/// field, with one cell for each row.
#[verifier::external_body]
pub(crate) fn evaluate(
    physical: &PhysicalExpr,
    schema: &DFSchema,
    columns: Vec<ArrayData>,
    rows: usize,
) -> Result<ColumnarValue, DataFusionError>
    requires
        columns@.len() == df_schema_fields(*schema).len(),
        forall|i: int|
            0 <= i < columns@.len() ==> array_data_len(#[trigger] columns@[i]) == rows
                && array_data_type(columns@[i]) is Some && array_data_type(columns@[i])
                == df_schema_fields(*schema)[i].1,
{
    let arrays = columns.into_iter().map(datafusion::arrow::array::make_array).collect();
    let options = datafusion::arrow::record_batch::RecordBatchOptions::new().with_row_count(Some(rows));
    let schema = Arc::clone(schema.inner());
    let batch = datafusion::arrow::record_batch::RecordBatch::try_new_with_options(
        schema,
        arrays,
        &options,
    )?;
    physical.inner.evaluate(&batch)
}

/// Whether one of the columns is a column of nulls which the engine does
/// not make: of lists of a negative size, or of too many cells.
pub open spec fn refuses_nulls(columns: Seq<ArrowArrayView>) -> bool {
    exists|i: int|
        0 <= i < columns.len() && (#[trigger] columns[i]) is Null && !always_converts(columns[i])
}

/// Returns the engine's arrays for the columns of a batch: one for each
/// column, which holds the column and so has one cell for each row. They
/// always come for a batch of columns of nulls, and for a batch without a
/// column, and never for a batch with a column of nulls which the engine
/// does not make.
pub(crate) fn columns_to_engine(batch: &ArrowRecordBatch) -> (result: Result<
    Vec<ArrayData>,
    ArrowError,
>)
    ensures
        result matches Ok(columns) ==> columns@.len() == batch.spec_columns().len() && forall|
            i: int,
        |
            0 <= i < columns@.len() ==> holds_column(
                #[trigger] columns@[i],
                batch.spec_columns()[i],
            ) && array_data_len(columns@[i]) == batch.spec_num_rows(),
        (forall|i: int|
            0 <= i < batch.spec_columns().len() ==> always_converts(
                #[trigger] batch.spec_columns()[i],
            )) ==> result is Ok,
        refuses_nulls(batch.spec_columns()) ==> result is Err,
{
    let mut columns: Vec<ArrayData> = Vec::with_capacity(batch.num_columns());
    let mut i: usize = 0;
    while i < batch.num_columns()
        invariant
            i <= batch.spec_columns().len(),
            batch.well_formed(),
            columns@.len() == i,
            forall|j: int|
                0 <= j < i ==> holds_column(#[trigger] columns@[j], batch.spec_columns()[j])
                    && array_data_len(columns@[j]) == batch.spec_num_rows(),
            forall|j: int|
                0 <= j < i ==> !((#[trigger] batch.spec_columns()[j]) is Null
                    && !always_converts(batch.spec_columns()[j])),
        decreases batch.spec_columns().len() - i,
    {
        let column = batch.column(i);
        assert(column@.len() == batch.spec_num_rows());
        columns.push(array_to_engine(column)?);
        i += 1;
    }
    Ok(columns)
}

/// What kind of value an evaluation gave.
#[derive(Debug, PartialEq, Eq)]
pub enum OutputKind {
    /// One truth value, or null, for all rows.
    BooleanScalar(Option<bool>),
    /// Null without a type, for all rows.
    NullScalar,
    /// One value for all rows which is no truth value.
    OtherScalar,
    /// A truth value, or null, for each row.
    BooleanArray(Vec<Option<bool>>),
    /// Null without a type for each of so many rows.
    NullArray(usize),
    /// A value for each row which is no truth value.
    OtherArray,
}

/// An [`OutputKind`] seen as a mathematical value.
pub enum OutputKindView {
    BooleanScalar(Option<bool>),
    NullScalar,
    OtherScalar,
    BooleanArray(Seq<Option<bool>>),
    NullArray(nat),
    OtherArray,
}

impl View for OutputKind {
    type V = OutputKindView;

    open spec fn view(&self) -> OutputKindView {
        match self {
            OutputKind::BooleanScalar(b) => OutputKindView::BooleanScalar(*b),
            OutputKind::NullScalar => OutputKindView::NullScalar,
            OutputKind::OtherScalar => OutputKindView::OtherScalar,
            OutputKind::BooleanArray(v) => OutputKindView::BooleanArray(v@),
            OutputKind::NullArray(n) => OutputKindView::NullArray(*n as nat),
            OutputKind::OtherArray => OutputKindView::OtherArray,
        }
    }
}

/// The kind of a value of the engine: one truth value or null for all
/// rows, or a truth value or null for each row, with the truth values; one
/// null without a type, or so many of them; or anything else, for all rows
/// or for each.
pub uninterp spec fn columnar_kind(value: ColumnarValue) -> OutputKindView;

/// Tells the variants of `datafusion::logical_expr::ColumnarValue` apart
/// and, by `datafusion::common::ScalarValue` or the type of the array,
/// truth values and nulls from anything else.
#[verifier::external_body]
pub(crate) fn classify(value: &ColumnarValue) -> (kind: OutputKind)
    ensures
        kind@ == columnar_kind(*value),
{
    match value {
        ColumnarValue::Scalar(EngineScalar::Boolean(b)) => OutputKind::BooleanScalar(*b),
        ColumnarValue::Scalar(EngineScalar::Null) => OutputKind::NullScalar,
        ColumnarValue::Scalar(_) => OutputKind::OtherScalar,
        ColumnarValue::Array(a) => match a.data_type() {
            DataType::Boolean => OutputKind::BooleanArray(
                datafusion::arrow::array::as_boolean_array(a).iter().collect(),
            ),
            DataType::Null => OutputKind::NullArray(a.len()),
            _ => OutputKind::OtherArray,
        },
    }
}

/// The value which the engine casts a value to for a native type, if it
/// casts it.
pub uninterp spec fn cast_value(value: ColumnarValue, physical: PhysicalType) -> Option<
    ColumnarValue,
>;

/// Calls `datafusion::common::ScalarValue::cast_to` for one value for all
/// rows and `arrow::compute::kernels::cast::cast` for a value for each
/// row. The outcome is a function of the value and the type.
#[verifier::external_body]
pub(crate) fn columnar_cast(value: &ColumnarValue, to: DataType) -> (result: Result<
    ColumnarValue,
    DataFusionError,
>)
    ensures
        data_type_view(to) matches Some(ArrowDataType::Primitive(physical)) ==> match result {
            Ok(cast) => cast_value(*value, physical) == Some(cast),
            Err(_) => cast_value(*value, physical) is None,
        },
{
    match value {
        ColumnarValue::Scalar(s) => Ok(ColumnarValue::Scalar(s.cast_to(&to)?)),
        ColumnarValue::Array(a) => Ok(
            ColumnarValue::Array(datafusion::arrow::compute::kernels::cast::cast(a, &to)?),
        ),
    }
}

/// The name of the type of a value of the engine, as the engine prints it.
pub uninterp spec fn columnar_type(value: ColumnarValue) -> Seq<char>;

/// The unsigned 8-bit integers which a value of the engine holds: those of
/// an array of them, one for each cell, and the one of a scalar of them, or
/// none if the scalar is null. `None` of a value of any other type.
pub uninterp spec fn columnar_u8(value: ColumnarValue) -> Option<Seq<u8>>;

/// The unsigned 64-bit integers which a value of the engine holds: those
/// of an array of them, one for each cell, and the one of a scalar of them,
/// or none if the scalar is null. `None` of a value of any other type.
pub uninterp spec fn columnar_u64(value: ColumnarValue) -> Option<Seq<u64>>;

/// Calls `datafusion::logical_expr::ColumnarValue::data_type` and gives the
/// name of the type as the engine prints it.
#[verifier::external_body]
pub(crate) fn columnar_type_name(value: &ColumnarValue) -> (name: String)
    ensures
        name@ == columnar_type(*value),
{
    value.data_type().to_string()
}

/// Copies the bytes of a value of unsigned 8-bit integers: the one of
/// `datafusion::common::ScalarValue::UInt8`, none if it is null, or those of
/// `arrow::array::UInt8Array::values`. Gives `None` for any other value.
#[verifier::external_body]
pub(crate) fn columnar_values_u8(value: &ColumnarValue) -> (values: Option<Vec<u8>>)
    ensures
        match values {
            Some(v) => columnar_u8(*value) == Some(v@),
            None => columnar_u8(*value) is None,
        },
{
    match value {
        ColumnarValue::Scalar(EngineScalar::UInt8(v)) => Some(v.as_slice().to_vec()),
        ColumnarValue::Scalar(_) => None,
        ColumnarValue::Array(a) => a
            .as_any()
            .downcast_ref::<datafusion::arrow::array::UInt8Array>()
            .map(|a| a.values().to_vec()),
    }
}

/// Copies the numbers of a value of unsigned 64-bit integers: the one of
/// `datafusion::common::ScalarValue::UInt64`, none if it is null, or those
/// of `arrow::array::UInt64Array::values`. Gives `None` for any other value.
#[verifier::external_body]
pub(crate) fn columnar_values_u64(value: &ColumnarValue) -> (values: Option<Vec<u64>>)
    ensures
        match values {
            Some(v) => columnar_u64(*value) == Some(v@),
            None => columnar_u64(*value) is None,
        },
{
    match value {
        ColumnarValue::Scalar(EngineScalar::UInt64(v)) => Some(v.as_slice().to_vec()),
        ColumnarValue::Scalar(_) => None,
        ColumnarValue::Array(a) => a
            .as_any()
            .downcast_ref::<datafusion::arrow::array::UInt64Array>()
            .map(|a| a.values().to_vec()),
    }
}

/// Calls `datafusion::execution::session_state::SessionStateBuilder` for a
/// session with the default features of the engine.
#[verifier::external_body]
pub(crate) fn new_session() -> SessionContext {
    SessionContext::from(
        datafusion::execution::session_state::SessionStateBuilder::new_with_default_features().build(),
    )
}

/// The expression which a session with the default features of the engine
/// parses text as over the columns of a schema, if it parses it.
pub uninterp spec fn parsed_text(text: Seq<char>, schema: DFSchema) -> Option<EngineExpr>;

/// Calls `datafusion::prelude::SessionContext::parse_sql_expr`, which
/// parses text as an expression over the columns of a schema. Every
/// session here has the default features of the engine, so that what
/// comes is a matter of the text and the schema alone.
#[verifier::external_body]
pub(crate) fn parse_sql_expr(session: &SessionContext, text: &str, schema: &DFSchema) -> (result:
    Result<EngineExpr, DataFusionError>)
    ensures
        match result {
            Ok(expr) => parsed_text(text@, *schema) == Some(expr),
            Err(_) => parsed_text(text@, *schema) is None,
        },
{
    session.parse_sql_expr(text, schema)
}

/// The expression which the engine makes of an expression over a schema by
/// making the types of the operands of each node agree, if it can.
pub uninterp spec fn coerced(expr: EngineExpr, schema: DFSchema) -> Option<EngineExpr>;

/// Calls `datafusion::common::tree_node::TreeNode::rewrite` with the
/// engine's `TypeCoercionRewriter`, which makes the types of the operands
/// of each node agree.
#[verifier::external_body]
pub(crate) fn coerce_types(expr: EngineExpr, schema: &DFSchema) -> (result: Result<
    EngineExpr,
    DataFusionError,
>)
    ensures
        match result {
            Ok(agreeing) => coerced(expr, *schema) == Some(agreeing),
            Err(_) => coerced(expr, *schema) is None,
        },
{
    let mut rewriter = datafusion::optimizer::analyzer::type_coercion::TypeCoercionRewriter::new(schema);
    expr.rewrite(&mut rewriter).map(|t| t.data)
}

/// The kind of type of the value of an expression.
#[derive(Debug, PartialEq, Eq)]
pub enum OutputType {
    Boolean,
    Null,
    /// Any other type, by the name which the engine prints.
    Other(String),
}

/// An [`OutputType`] seen as a mathematical value.
pub enum OutputTypeView {
    Boolean,
    Null,
    Other(Seq<char>),
}

impl View for OutputType {
    type V = OutputTypeView;

    open spec fn view(&self) -> OutputTypeView {
        match self {
            OutputType::Boolean => OutputTypeView::Boolean,
            OutputType::Null => OutputTypeView::Null,
            OutputType::Other(name) => OutputTypeView::Other(name@),
        }
    }
}

/// The kind of type which the engine finds for the value of an expression
/// over a schema, if it finds one.
pub uninterp spec fn engine_type(expr: EngineExpr, schema: DFSchema) -> Option<OutputTypeView>;

/// Calls `datafusion::logical_expr::ExprSchemable::get_type`, which finds
/// the type of the value of an expression from the expression and the
/// schema, and tells `arrow::datatypes::DataType::Boolean` and `Null` from
/// other types.
#[verifier::external_body]
pub(crate) fn expr_output_type(expr: &EngineExpr, schema: &DFSchema) -> (result: Result<
    OutputType,
    DataFusionError,
>)
    ensures
        match result {
            Ok(output_type) => engine_type(*expr, *schema) == Some(output_type@),
            Err(_) => engine_type(*expr, *schema) is None,
        },
{
    match expr.get_type(schema)? {
        DataType::Boolean => Ok(OutputType::Boolean),
        DataType::Null => Ok(OutputType::Null),
        other => Ok(OutputType::Other(other.to_string())),
    }
}

/// Whether a node of an expression of the engine is an aggregate function.
pub uninterp spec fn engine_aggregates(expr: EngineExpr) -> bool;

/// The names of the columns which an expression of the engine refers to.
pub uninterp spec fn engine_columns(expr: EngineExpr) -> Set<Seq<char>>;

/// Whether names are those of a set, each at least once.
pub open spec fn names_are(names: Seq<Seq<char>>, columns: Set<Seq<char>>) -> bool {
    forall|name: Seq<char>| names.contains(name) <==> columns.contains(name)
}

/// Calls `datafusion::common::tree_node::TreeNode::exists`, which walks
/// the tree from the top and stops at the first node which is
/// `Expr::AggregateFunction`.
#[verifier::external_body]
pub(crate) fn expr_has_aggregate(expr: &EngineExpr) -> (found: bool)
    ensures
        found == engine_aggregates(*expr),
{
    expr.exists(|e| Ok(matches!(e, EngineExpr::AggregateFunction(_)))).unwrap_or(true)
}

/// Calls `datafusion::logical_expr::Expr::column_refs` and gives the names
/// of the columns which the expression refers to, in no particular order.
#[verifier::external_body]
pub(crate) fn expr_column_names(expr: &EngineExpr) -> (names: Vec<String>)
    ensures
        forall|name: Seq<char>|
            crate::schema::names_view(names@).contains(name) <==> engine_columns(*expr).contains(
                name,
            ),
{
    expr.column_refs().into_iter().map(|c| c.name.clone()).collect()
}

/// The text which the engine prints for an expression.
pub uninterp spec fn expr_text(expr: EngineExpr) -> Seq<char>;

/// Calls `datafusion::logical_expr::Expr::human_display` and gives the
/// text which the engine prints for an expression.
#[verifier::external_body]
pub(crate) fn expr_to_string(expr: &EngineExpr) -> (text: String)
    ensures
        text@ == expr_text(*expr),
{
    expr.human_display().to_string()
}

/// Calls `std::string::ToString::to_string` of
/// `datafusion::common::DataFusionError` and gives the text which the
/// engine prints for an error.
#[verifier::external_body]
pub(crate) fn error_to_string(error: &DataFusionError) -> String {
    error.to_string()
}

} // verus!
