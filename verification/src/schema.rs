//! The columnar view of an array schema.
//!
//! Each field of an array maps to one column. A datatype without an exact
//! columnar counterpart takes the type in which its values are stored.
//!
//! Enumerations make two views of one schema. A column of the *storage*
//! view holds what is stored for an attribute, which for an attribute with
//! an enumeration is the key. In the *view* view such a column stands for
//! the variant which the key selects. Keys which select no variant are
//! allowed, so a dictionary column does not fit.

use vstd::prelude::*;
use crate::array_schema::{ArraySchema, CellValNum, Field};
use vstd::string::StringSliceAdditionalSpecFns;
use vstd::utf8::encode_utf8;
use crate::enums::{Datatype, PhysicalType};
use crate::misc::{Utf8Error, spec_name};
use crate::enumeration::{decode_enumeration, enumeration_decodable, spec_array_from_enumeration};
use crate::record_batch::{ArrowArray, ArrowArrayView};

verus! {

/// Which view of an array schema a column schema describes.
#[derive(Clone, Copy, Debug, PartialEq, Eq, Structural)]
pub enum WhichSchema {
    /// What is stored: the keys of attributes with an enumeration.
    Storage,
    /// What a user sees: the variants of attributes with an enumeration.
    View,
}

/// The type of a column.
#[derive(Clone, Copy, Debug, PartialEq, Eq, Structural)]
pub enum ArrowDataType {
    /// The type of a column of the view whose enumeration has not been
    /// resolved. No tile decodes to it.
    Null,
    /// The type of the outcome of a predicate.
    Boolean,
    /// One value in each cell.
    Primitive(PhysicalType),
    /// The same number of values in each cell.
    FixedSizeList(PhysicalType, i32),
    /// Any number of values in each cell.
    LargeList(PhysicalType),
    /// Text of any length in each cell.
    LargeUtf8,
}

/// The description of one column: its name, its type and whether its
/// cells may be null.
#[derive(Clone, Debug, PartialEq, Eq)]
pub struct ArrowField {
    pub name: String,
    pub data_type: ArrowDataType,
    pub nullable: bool,
    /// The name of the enumeration of the attribute which the column
    /// stands for, if it has one.
    pub enumeration: Option<String>,
}

impl ArrowField {
    /// Returns a copy of this description.
    pub fn duplicate(&self) -> (copy: ArrowField)
        ensures
            copy == *self,
    {
        ArrowField {
            name: self.name.clone(),
            data_type: self.data_type,
            nullable: self.nullable,
            enumeration: match &self.enumeration {
                Some(name) => Some(name.clone()),
                None => None,
            },
        }
    }
}

/// The descriptions of the columns of a batch, in their order.
#[derive(Clone, Debug, PartialEq, Eq)]
pub struct Schema {
    pub fields: Vec<ArrowField>,
}

/// An enumeration which columns of a schema refer to.
pub struct ResolvedEnumeration {
    pub name: String,
    /// The variants, one in each cell, once the enumeration is loaded.
    pub variants: Option<ArrowArray>,
}

/// The columnar view of an array schema: the descriptions of the columns
/// and the enumerations which they refer to.
pub struct ArrowArraySchema {
    pub schema: Schema,
    pub enumerations: Vec<ResolvedEnumeration>,
}

/// Why a field has no column type.
#[derive(Clone, Debug, PartialEq, Eq)]
pub enum FieldError {
    /// The fixed number of values in a cell is more than a list can hold.
    InvalidCellValNum(CellValNum),
    /// The datatype is none of the closed set; holds its discriminant.
    InternalInvalidDatatype(u8),
    /// The schema declares no enumeration of the name which an attribute
    /// refers to; holds the bytes of the name.
    InternalEnumerationNotFound(Vec<u8>),
    /// The name of the enumeration which an attribute refers to is not
    /// valid UTF-8; holds the bytes of the name.
    EnumerationNameNotUtf8(Vec<u8>, Utf8Error),
}

/// A [`FieldError`] seen as a mathematical value.
pub enum FieldErrorView {
    InvalidCellValNum(CellValNum),
    InternalInvalidDatatype(u8),
    InternalEnumerationNotFound(Seq<u8>),
    EnumerationNameNotUtf8(Seq<u8>, Utf8Error),
}

impl View for FieldError {
    type V = FieldErrorView;

    open spec fn view(&self) -> FieldErrorView {
        match self {
            FieldError::InvalidCellValNum(c) => FieldErrorView::InvalidCellValNum(*c),
            FieldError::InternalInvalidDatatype(d) => FieldErrorView::InternalInvalidDatatype(*d),
            FieldError::InternalEnumerationNotFound(name) => FieldErrorView::InternalEnumerationNotFound(
                name@,
            ),
            FieldError::EnumerationNameNotUtf8(name, e) => FieldErrorView::EnumerationNameNotUtf8(
                name@,
                *e,
            ),
        }
    }
}

/// What a function which types a field returned, as a mathematical value.
pub open spec fn type_outcome(result: Result<ArrowDataType, FieldError>) -> Result<
    ArrowDataType,
    FieldErrorView,
> {
    match result {
        Ok(t) => Ok(t),
        Err(e) => Err(e@),
    }
}

/// The column type of a single value of `datatype`.
pub open spec fn spec_arrow_primitive_datatype(datatype: Datatype) -> Result<
    ArrowDataType,
    FieldErrorView,
> {
    match datatype.spec_physical_type() {
        Some(physical) => Ok(ArrowDataType::Primitive(physical)),
        None => Err(FieldErrorView::InternalInvalidDatatype(datatype.spec_repr())),
    }
}

/// The column type of a field of `datatype` whose cells hold
/// `cell_val_num` values.
///
/// A fixed count which is more than a list can hold is refused before the
/// datatype is looked at. Text of variable length is a string column
/// whatever else holds.
pub open spec fn spec_arrow_datatype(datatype: Datatype, cell_val_num: CellValNum) -> Result<
    ArrowDataType,
    FieldErrorView,
> {
    match cell_val_num {
        CellValNum::Single => spec_arrow_primitive_datatype(datatype),
        CellValNum::Fixed(n) => if n <= i32::MAX {
            match datatype.spec_physical_type() {
                Some(physical) => Ok(ArrowDataType::FixedSizeList(physical, n as i32)),
                None => Err(FieldErrorView::InternalInvalidDatatype(datatype.spec_repr())),
            }
        } else {
            Err(FieldErrorView::InvalidCellValNum(cell_val_num))
        },
        CellValNum::Var => if datatype.spec_is_text() {
            Ok(ArrowDataType::LargeUtf8)
        } else {
            match datatype.spec_physical_type() {
                Some(physical) => Ok(ArrowDataType::LargeList(physical)),
                None => Err(FieldErrorView::InternalInvalidDatatype(datatype.spec_repr())),
            }
        },
    }
}

/// The column type of `field` in the view `which` of `array_schema`.
///
/// In the storage view, and for a field without an enumeration, this is
/// the type of what is stored. In the view view an attribute with an
/// enumeration must refer to one which the schema declares; its type is
/// then left unresolved, because the type of an enumeration is stored with
/// its variants and those may not have been loaded.
pub open spec fn spec_field_arrow_datatype(
    array_schema: &ArraySchema,
    which: WhichSchema,
    field: &Field,
) -> Result<ArrowDataType, FieldErrorView> {
    match which {
        WhichSchema::Storage => spec_arrow_datatype(
            field.spec_datatype(),
            field.spec_cell_val_num(),
        ),
        WhichSchema::View => match field.spec_enumeration_name_cxx() {
            None => spec_arrow_datatype(field.spec_datatype(), field.spec_cell_val_num()),
            Some(name) => if array_schema.spec_has_enumeration(name) {
                Ok(ArrowDataType::Null)
            } else {
                Err(FieldErrorView::InternalEnumerationNotFound(name))
            },
        },
    }
}

/// Returns the column type of a single value of `datatype`.
/// Fails if `datatype` is none of the closed set.
pub fn arrow_primitive_datatype(datatype: Datatype) -> (result: Result<ArrowDataType, FieldError>)
    ensures
        type_outcome(result) == spec_arrow_primitive_datatype(datatype),
{
    match datatype.physical_type() {
        Some(physical) => Ok(ArrowDataType::Primitive(physical)),
        None => Err(FieldError::InternalInvalidDatatype(datatype.repr())),
    }
}

/// Returns the column type of a field of `datatype` whose cells hold
/// `cell_val_num` values.
pub fn arrow_datatype(datatype: Datatype, cell_val_num: CellValNum) -> (result: Result<
    ArrowDataType,
    FieldError,
>)
    ensures
        type_outcome(result) == spec_arrow_datatype(datatype, cell_val_num),
{
    match cell_val_num {
        CellValNum::Single => arrow_primitive_datatype(datatype),
        CellValNum::Fixed(n) => {
            if n <= 0x7fff_ffff {
                match datatype.physical_type() {
                    Some(physical) => Ok(ArrowDataType::FixedSizeList(physical, n as i32)),
                    None => Err(FieldError::InternalInvalidDatatype(datatype.repr())),
                }
            } else {
                Err(FieldError::InvalidCellValNum(cell_val_num))
            }
        },
        CellValNum::Var => {
            if datatype.is_text() {
                Ok(ArrowDataType::LargeUtf8)
            } else {
                match datatype.physical_type() {
                    Some(physical) => Ok(ArrowDataType::LargeList(physical)),
                    None => Err(FieldError::InternalInvalidDatatype(datatype.repr())),
                }
            }
        },
    }
}

/// Returns the column type of `field` in the view `which` of
/// `array_schema`.
pub fn field_arrow_datatype(
    array_schema: &ArraySchema,
    which: WhichSchema,
    field: &Field,
) -> (result: Result<ArrowDataType, FieldError>)
    ensures
        type_outcome(result) == spec_field_arrow_datatype(array_schema, which, field),
{
    match which {
        WhichSchema::Storage => arrow_datatype(field.datatype(), field.cell_val_num()),
        WhichSchema::View => {
            match field.enumeration_name_cxx() {
                None => arrow_datatype(field.datatype(), field.cell_val_num()),
                Some(name) => {
                    if array_schema.has_enumeration(name.as_slice()) {
                        Ok(ArrowDataType::Null)
                    } else {
                        Err(FieldError::InternalEnumerationNotFound(name.clone()))
                    }
                },
            }
        },
    }
}

/// An [`ArrowField`] seen as a mathematical value.
pub struct ArrowFieldView {
    pub name: Seq<char>,
    pub data_type: ArrowDataType,
    pub nullable: bool,
    pub enumeration: Option<Seq<char>>,
}

impl View for ArrowField {
    type V = ArrowFieldView;

    open spec fn view(&self) -> ArrowFieldView {
        ArrowFieldView {
            name: self.name@,
            data_type: self.data_type,
            nullable: self.nullable,
            enumeration: match self.enumeration {
                Some(name) => Some(name@),
                None => None,
            },
        }
    }
}

/// The descriptions of columns as mathematical values, in their order.
pub open spec fn field_views(fields: Seq<ArrowField>) -> Seq<ArrowFieldView> {
    Seq::new(fields.len(), |i: int| fields[i]@)
}

/// A [`ResolvedEnumeration`] seen as a mathematical value.
pub struct ResolvedEnumerationView {
    pub name: Seq<char>,
    pub variants: Option<ArrowArrayView>,
}

impl View for ResolvedEnumeration {
    type V = ResolvedEnumerationView;

    open spec fn view(&self) -> ResolvedEnumerationView {
        ResolvedEnumerationView {
            name: self.name@,
            variants: match self.variants {
                Some(a) => Some(a@),
                None => None,
            },
        }
    }
}

/// Resolved enumerations as mathematical values, in their order.
pub open spec fn resolved_views(enumerations: Seq<ResolvedEnumeration>) -> Seq<
    ResolvedEnumerationView,
> {
    Seq::new(enumerations.len(), |i: int| enumerations[i]@)
}

/// Why an array schema has no columnar view.
#[derive(Clone, Debug, PartialEq, Eq)]
pub enum Error {
    /// The name of a field is not valid UTF-8; holds the bytes of the name.
    NameNotUtf8(Vec<u8>, Utf8Error),
    /// The field of this name has no column type.
    FieldError(String, FieldError),
    /// The variants of the enumeration of this name do not make a column.
    EnumerationError(String, crate::enumeration::Error),
}

/// An [`Error`] seen as a mathematical value.
pub enum ErrorView {
    NameNotUtf8(Seq<u8>, Utf8Error),
    FieldError(Seq<char>, FieldErrorView),
    EnumerationError(Seq<char>, crate::enumeration::ErrorView),
}

impl View for Error {
    type V = ErrorView;

    open spec fn view(&self) -> ErrorView {
        match self {
            Error::NameNotUtf8(name, e) => ErrorView::NameNotUtf8(name@, *e),
            Error::FieldError(name, e) => ErrorView::FieldError(name@, e@),
            Error::EnumerationError(name, e) => ErrorView::EnumerationError(name@, e@),
        }
    }
}

/// The names of an allow-list as mathematical values.
pub open spec fn names_view(names: Seq<String>) -> Seq<Seq<char>> {
    Seq::new(names.len(), |i: int| names[i]@)
}

/// The allow-list as a mathematical value. Without a list every field is
/// allowed.
pub open spec fn select_view(select: Option<&Vec<String>>) -> Option<Seq<Seq<char>>> {
    match select {
        Some(names) => Some(names_view(names@)),
        None => None,
    }
}

/// Whether a field is projected: every field is if there is no list, and
/// else the fields whose names are text which the list holds.
pub open spec fn is_selected(select: Option<Seq<Seq<char>>>, field: &Field) -> bool {
    match select {
        Some(names) => spec_name(field.spec_name_cxx()) matches Ok(name) && names.contains(name),
        None => true,
    }
}

/// The description of the column of a field. Every column may hold nulls,
/// whatever the field says: a field which was added to the schema later has
/// no data in the rows written before.
///
/// The name of the field must be text, then the field must have a column
/// type, then the name of its enumeration must be text.
pub open spec fn spec_project_field(
    array_schema: &ArraySchema,
    which: WhichSchema,
    field: &Field,
) -> Result<ArrowFieldView, ErrorView> {
    match spec_name(field.spec_name_cxx()) {
        Err(e) => Err(ErrorView::NameNotUtf8(field.spec_name_cxx(), e)),
        Ok(name) => match spec_field_arrow_datatype(array_schema, which, field) {
            Err(e) => Err(ErrorView::FieldError(name, e)),
            Ok(data_type) => match field.spec_enumeration_name_cxx() {
                None => Ok(ArrowFieldView { name, data_type, nullable: true, enumeration: None }),
                Some(bytes) => match spec_name(bytes) {
                    Err(e) => Err(
                        ErrorView::FieldError(name, FieldErrorView::EnumerationNameNotUtf8(bytes, e)),
                    ),
                    Ok(enumeration) => Ok(
                        ArrowFieldView {
                            name,
                            data_type,
                            nullable: true,
                            enumeration: Some(enumeration),
                        },
                    ),
                },
            },
        },
    }
}

/// The descriptions of the columns of those of the first `n` fields which
/// are selected, or the error of the first of them which has no column.
pub open spec fn spec_project_fields(
    array_schema: &ArraySchema,
    which: WhichSchema,
    select: Option<Seq<Seq<char>>>,
    n: int,
) -> Result<Seq<ArrowFieldView>, ErrorView>
    decreases n,
{
    if n <= 0 {
        Ok(Seq::empty())
    } else {
        match spec_project_fields(array_schema, which, select, n - 1) {
            Err(e) => Err(e),
            Ok(fields) => {
                let field = array_schema.spec_field_at(n - 1);
                if !is_selected(select, &field) {
                    Ok(fields)
                } else {
                    match spec_project_field(array_schema, which, &field) {
                        Err(e) => Err(e),
                        Ok(f) => Ok(fields.push(f)),
                    }
                }
            },
        }
    }
}

/// Whether an enumeration of a name is among those resolved already.
pub open spec fn is_resolved(resolved: Seq<ResolvedEnumerationView>, name: Seq<char>) -> bool {
    exists|i: int| 0 <= i < resolved.len() && (#[trigger] resolved[i]).name == name
}

/// The enumeration of a name as far as it can be resolved: with its
/// variants if it has been loaded, and without them if it has not.
pub open spec fn spec_resolve(array_schema: &ArraySchema, name: Seq<char>) -> Result<
    ResolvedEnumerationView,
    ErrorView,
> {
    match array_schema.spec_enumeration(encode_utf8(name)) {
        None => Ok(ResolvedEnumerationView { name, variants: None }),
        Some(e) => match spec_array_from_enumeration(&e) {
            Ok(a) => Ok(ResolvedEnumerationView { name, variants: Some(a) }),
            Err(err) => Err(ErrorView::EnumerationError(name, err)),
        },
    }
}

/// The enumerations which the first `n` columns refer to, each once, in
/// the order in which the columns first name them.
pub open spec fn spec_enumerations(
    array_schema: &ArraySchema,
    fields: Seq<ArrowFieldView>,
    n: int,
) -> Result<Seq<ResolvedEnumerationView>, ErrorView>
    decreases n,
{
    if n <= 0 {
        Ok(Seq::empty())
    } else {
        match spec_enumerations(array_schema, fields, n - 1) {
            Err(e) => Err(e),
            Ok(resolved) => match fields[n - 1].enumeration {
                None => Ok(resolved),
                Some(name) => if is_resolved(resolved, name) {
                    Ok(resolved)
                } else {
                    match spec_resolve(array_schema, name) {
                        Err(e) => Err(e),
                        Ok(r) => Ok(resolved.push(r)),
                    }
                },
            },
        }
    }
}

/// Whether no two of the enumerations have one name.
pub open spec fn distinct_names(resolved: Seq<ResolvedEnumerationView>) -> bool {
    forall|i: int, j: int|
        0 <= i < j < resolved.len() ==> (#[trigger] resolved[i]).name != (
        #[trigger] resolved[j]).name
}

/// The enumerations which columns refer to are resolved once each: no two
/// of them have one name, so that a name finds at most one.
pub proof fn lemma_enumerations_distinct(
    array_schema: &ArraySchema,
    fields: Seq<ArrowFieldView>,
    n: int,
)
    ensures
        spec_enumerations(array_schema, fields, n) matches Ok(resolved) ==> distinct_names(
            resolved,
        ),
    decreases n,
{
    if n > 0 {
        lemma_enumerations_distinct(array_schema, fields, n - 1);
        if let Ok(before) = spec_enumerations(array_schema, fields, n - 1) {
            if let Some(name) = fields[n - 1].enumeration {
                if !is_resolved(before, name) {
                    if let Ok(r) = spec_resolve(array_schema, name) {
                        let resolved = before.push(r);
                        assert(r.name == name);
                        assert forall|i: int, j: int| 0 <= i < j < resolved.len() implies (
                        #[trigger] resolved[i]).name != (#[trigger] resolved[j]).name by {
                            if j == before.len() {
                                assert(before[i].name != name);
                            } else {
                                assert(resolved[i] == before[i] && resolved[j] == before[j]);
                            }
                        }
                    }
                }
            }
        }
    }
}

/// The enumerations of a projection are resolved once each: no two of
/// them have one name.
pub proof fn lemma_projected_enumerations_distinct(
    array_schema: &ArraySchema,
    which: WhichSchema,
    select: Option<Seq<Seq<char>>>,
)
    ensures
        spec_project_arrow(array_schema, which, select) matches Ok(projection) ==> distinct_names(
            projection.1,
        ),
{
    if let Ok(fields) = spec_project_fields(
        array_schema,
        which,
        select,
        array_schema.spec_field_num() as int,
    ) {
        lemma_enumerations_distinct(array_schema, fields, fields.len() as int);
    }
}

/// The columnar view of an array schema, restricted to the selected
/// fields: the descriptions of their columns and the enumerations which
/// these refer to.
pub open spec fn spec_project_arrow(
    array_schema: &ArraySchema,
    which: WhichSchema,
    select: Option<Seq<Seq<char>>>,
) -> Result<(Seq<ArrowFieldView>, Seq<ResolvedEnumerationView>), ErrorView> {
    match spec_project_fields(array_schema, which, select, array_schema.spec_field_num() as int) {
        Err(e) => Err(e),
        Ok(fields) => match spec_enumerations(array_schema, fields, fields.len() as int) {
            Err(e) => Err(e),
            Ok(enumerations) => Ok((fields, enumerations)),
        },
    }
}

/// Whether the enumeration which column `i` refers to can be resolved, if
/// it falls to that column to resolve it.
pub open spec fn enumeration_resolvable(
    array_schema: &ArraySchema,
    fields: Seq<ArrowFieldView>,
    i: int,
) -> bool {
    (spec_enumerations(array_schema, fields, i) matches Ok(resolved) && fields[i].enumeration matches Some(
        name,
    ) && !is_resolved(resolved, name) && array_schema.spec_enumeration(encode_utf8(name)) matches Some(
        e,
    )) ==> enumeration_decodable(
        &array_schema.spec_enumeration(encode_utf8(fields[i].enumeration->Some_0))->Some_0,
    )
}

/// Whether an array schema can be projected at all: the buffers of each
/// enumeration which is resolved can be decoded.
pub open spec fn projectable(
    array_schema: &ArraySchema,
    which: WhichSchema,
    select: Option<Seq<Seq<char>>>,
) -> bool {
    spec_project_fields(
        array_schema,
        which,
        select,
        array_schema.spec_field_num() as int,
    ) matches Ok(fields) ==> forall|i: int|
        0 <= i < fields.len() ==> #[trigger] enumeration_resolvable(array_schema, fields, i)
}

/// What a projection returned, as a mathematical value.
pub open spec fn projection_outcome(result: Result<(Schema, Vec<ResolvedEnumeration>), Error>) -> Result<
    (Seq<ArrowFieldView>, Seq<ResolvedEnumerationView>),
    ErrorView,
> {
    match result {
        Ok((schema, enumerations)) => Ok((field_views(schema.fields@), resolved_views(enumerations@))),
        Err(e) => Err(e@),
    }
}

/// Once a field has no column, its error is the outcome however many more
/// fields follow.
proof fn lemma_project_fields_error(
    array_schema: &ArraySchema,
    which: WhichSchema,
    select: Option<Seq<Seq<char>>>,
    k: int,
    n: int,
)
    requires
        0 <= k <= n,
        spec_project_fields(array_schema, which, select, k) is Err,
    ensures
        spec_project_fields(array_schema, which, select, n) == spec_project_fields(
            array_schema,
            which,
            select,
            k,
        ),
    decreases n - k,
{
    if k < n {
        lemma_project_fields_error(array_schema, which, select, k, n - 1);
    }
}

/// Once an enumeration cannot be resolved, its error is the outcome
/// however many more columns follow.
proof fn lemma_enumerations_error(
    array_schema: &ArraySchema,
    fields: Seq<ArrowFieldView>,
    k: int,
    n: int,
)
    requires
        0 <= k <= n,
        spec_enumerations(array_schema, fields, k) is Err,
    ensures
        spec_enumerations(array_schema, fields, n) == spec_enumerations(array_schema, fields, k),
    decreases n - k,
{
    if k < n {
        lemma_enumerations_error(array_schema, fields, k, n - 1);
    }
}

/// Returns whether `name` is among `names`.
pub(crate) fn contains_name(names: &Vec<String>, name: &String) -> (found: bool)
    ensures
        found == names_view(names@).contains(name@),
{
    let mut i: usize = 0;
    while i < names.len()
        invariant
            i <= names@.len(),
            forall|j: int| 0 <= j < i ==> names_view(names@)[j] != name@,
        decreases names@.len() - i,
    {
        if names[i] == *name {
            assert(names_view(names@)[i as int] == name@);
            return true;
        }
        i += 1;
    }
    false
}

/// Returns whether an enumeration called `name` is among `resolved`.
fn contains_enumeration(resolved: &Vec<ResolvedEnumeration>, name: &String) -> (found: bool)
    ensures
        found == is_resolved(resolved_views(resolved@), name@),
{
    let mut i: usize = 0;
    while i < resolved.len()
        invariant
            i <= resolved@.len(),
            forall|j: int| 0 <= j < i ==> resolved_views(resolved@)[j].name != name@,
        decreases resolved@.len() - i,
    {
        if resolved[i].name == *name {
            assert(resolved_views(resolved@)[i as int].name == name@);
            return true;
        }
        i += 1;
    }
    false
}

/// Projects the selected fields, or finds that the schema cannot be
/// projected.
fn project(
    array_schema: &ArraySchema,
    which: WhichSchema,
    select: Option<&Vec<String>>,
) -> (result: Result<Option<(Schema, Vec<ResolvedEnumeration>)>, Error>)
    ensures
        match result {
            Ok(Some(projection)) => projectable(array_schema, which, select_view(select))
                && projection_outcome(Ok(projection)) == spec_project_arrow(
                array_schema,
                which,
                select_view(select),
            ),
            Ok(None) => !projectable(array_schema, which, select_view(select)),
            Err(e) => projectable(array_schema, which, select_view(select)) && spec_project_arrow(
                array_schema,
                which,
                select_view(select),
            ) == Err::<(Seq<ArrowFieldView>, Seq<ResolvedEnumerationView>), ErrorView>(e@),
        },
{
    let ghost selected = select_view(select);
    let all = array_schema.fields();
    let ghost total = array_schema.spec_field_num() as int;
    let mut fields: Vec<ArrowField> = Vec::new();
    let mut i: usize = 0;
    assert(field_views(fields@) =~= Seq::<ArrowFieldView>::empty());
    while i < all.len()
        invariant
            i <= all@.len(),
            all@.len() == total,
            total == array_schema.spec_field_num(),
            selected == select_view(select),
            forall|j: int| 0 <= j < all@.len() ==> all@[j] == #[trigger] array_schema.spec_field_at(j),
            spec_project_fields(array_schema, which, selected, i as int) == Ok::<
                Seq<ArrowFieldView>,
                ErrorView,
            >(field_views(fields@)),
        decreases all@.len() - i,
    {
        let f = &all[i];
        assert(*f == array_schema.spec_field_at(i as int));
        let wanted = match select {
            Some(names) => match f.name() {
                Ok(name) => contains_name(names, &name.to_string()),
                Err(_) => false,
            },
            None => true,
        };
        if wanted {
            let name = match f.name() {
                Ok(name) => name.to_string(),
                Err(e) => {
                    proof {
                        lemma_project_fields_error(array_schema, which, selected, i + 1, total);
                    }
                    return Err(Error::NameNotUtf8(f.name_cxx().clone(), e));
                },
            };
            let data_type = match field_arrow_datatype(array_schema, which, f) {
                Ok(data_type) => data_type,
                Err(e) => {
                    proof {
                        lemma_project_fields_error(array_schema, which, selected, i + 1, total);
                    }
                    return Err(Error::FieldError(name, e));
                },
            };
            let enumeration = match f.enumeration_name() {
                Some(Ok(enumeration)) => Some(enumeration.to_string()),
                Some(Err(e)) => {
                    proof {
                        lemma_project_fields_error(array_schema, which, selected, i + 1, total);
                    }
                    let bytes = match f.enumeration_name_cxx() {
                        Some(bytes) => bytes.clone(),
                        None => vstd::pervasive::unreached(),
                    };
                    return Err(Error::FieldError(name, FieldError::EnumerationNameNotUtf8(bytes, e)));
                },
                None => None,
            };
            let ghost before = field_views(fields@);
            let arrow = ArrowField { name, data_type, nullable: true, enumeration };
            fields.push(arrow);
            assert(field_views(fields@) =~= before.push(arrow@));
        }
        i += 1;
    }
    let ghost columns = field_views(fields@);
    let mut enumerations: Vec<ResolvedEnumeration> = Vec::new();
    let mut k: usize = 0;
    assert(resolved_views(enumerations@) =~= Seq::<ResolvedEnumerationView>::empty());
    while k < fields.len()
        invariant
            k <= fields@.len(),
            selected == select_view(select),
            total == array_schema.spec_field_num(),
            columns == field_views(fields@),
            spec_project_fields(array_schema, which, selected, total) == Ok::<
                Seq<ArrowFieldView>,
                ErrorView,
            >(columns),
            spec_enumerations(array_schema, columns, k as int) == Ok::<
                Seq<ResolvedEnumerationView>,
                ErrorView,
            >(resolved_views(enumerations@)),
            forall|j: int| 0 <= j < k ==> #[trigger] enumeration_resolvable(array_schema, columns, j),
        decreases fields@.len() - k,
    {
        assert(columns[k as int] == fields@[k as int]@);
        match &fields[k].enumeration {
            None => {},
            Some(name) => {
                if !contains_enumeration(&enumerations, name) {
                    let ghost resolved_before = resolved_views(enumerations@);
                    assert(columns.len() == fields@.len());
                    assert(columns[k as int].enumeration == Some(name@));
                    assert(!is_resolved(resolved_before, name@));
                    let variants = match array_schema.enumeration(name.as_str().as_bytes()) {
                        None => None,
                        Some(e) => {
                            assert(array_schema.spec_enumeration(encode_utf8(name@)) == Some(*e));
                            match decode_enumeration(e) {
                                Ok(Some(a)) => Some(a),
                                Ok(None) => {
                                    assert(!enumeration_resolvable(array_schema, columns, k as int));
                                    return Ok(None);
                                },
                                Err(err) => {
                                    proof {
                                        assert(spec_resolve(array_schema, name@) == Err::<
                                            ResolvedEnumerationView,
                                            ErrorView,
                                        >(ErrorView::EnumerationError(name@, err@)));
                                        assert(spec_enumerations(array_schema, columns, k + 1)
                                            == Err::<Seq<ResolvedEnumerationView>, ErrorView>(
                                            ErrorView::EnumerationError(name@, err@),
                                        ));
                                        lemma_enumerations_error(
                                            array_schema,
                                            columns,
                                            k + 1,
                                            columns.len() as int,
                                        );
                                        assert(enumeration_resolvable(array_schema, columns, k as int));
                                        assert forall|j: int|
                                            0 <= j < columns.len() implies #[trigger] enumeration_resolvable(
                                            array_schema,
                                            columns,
                                            j,
                                        ) by {
                                            if j > k {
                                                lemma_enumerations_error(
                                                    array_schema,
                                                    columns,
                                                    k + 1,
                                                    j,
                                                );
                                            }
                                        }
                                    }
                                    return Err(Error::EnumerationError(name.clone(), err));
                                },
                            }
                        },
                    };
                    let ghost before = resolved_views(enumerations@);
                    let resolved = ResolvedEnumeration { name: name.clone(), variants };
                    let ghost view = resolved@;
                    enumerations.push(resolved);
                    assert(resolved_views(enumerations@) =~= before.push(view));
                }
            },
        }
        k += 1;
    }
    Ok(Some((Schema { fields }, enumerations)))
}

/// Returns whether the selected fields of an array schema can be
/// projected at all.
pub fn is_projectable(
    array_schema: &ArraySchema,
    which: WhichSchema,
    select: Option<&Vec<String>>,
) -> (yes: bool)
    ensures
        yes == projectable(array_schema, which, select_view(select)),
{
    match project(array_schema, which, select) {
        Ok(None) => false,
        _ => true,
    }
}

/// Returns the descriptions of the columns of the selected fields of
/// `array_schema` in the view `which`, and the enumerations which these
/// columns refer to.
///
/// Without a list of names every field is selected. The columns keep the
/// order of the fields: dimensions first, then attributes. Every column may
/// hold nulls. Each enumeration comes once, with its variants if it has
/// been loaded.
pub fn project_arrow(
    array_schema: &ArraySchema,
    which: WhichSchema,
    select: Option<&Vec<String>>,
) -> (result: Result<(Schema, Vec<ResolvedEnumeration>), Error>)
    requires
        projectable(array_schema, which, select_view(select)),
    ensures
        projection_outcome(result) == spec_project_arrow(array_schema, which, select_view(select)),
{
    match project(array_schema, which, select) {
        Ok(Some(projection)) => Ok(projection),
        Ok(None) => vstd::pervasive::unreached(),
        Err(e) => Err(e),
    }
}

/// Returns the descriptions of the columns of all fields of `array_schema`
/// in the view `which`, and the enumerations which these columns refer to.
pub fn to_arrow(array_schema: &ArraySchema, which: WhichSchema) -> (result: Result<
    (Schema, Vec<ResolvedEnumeration>),
    Error,
>)
    requires
        projectable(array_schema, which, None),
    ensures
        projection_outcome(result) == spec_project_arrow(array_schema, which, None),
{
    project_arrow(array_schema, which, None)
}

/// Whatever the fields of a schema say, each column of its projection may
/// hold nulls, and the columns come in the order of the fields.
pub proof fn lemma_projected_nullable(
    array_schema: &ArraySchema,
    which: WhichSchema,
    select: Option<Seq<Seq<char>>>,
    n: int,
)
    requires
        spec_project_fields(array_schema, which, select, n) is Ok,
    ensures
        forall|i: int|
            0 <= i < spec_project_fields(array_schema, which, select, n)->Ok_0.len()
                ==> (#[trigger] spec_project_fields(array_schema, which, select, n)->Ok_0[i]).nullable,
    decreases n,
{
    if n > 0 {
        lemma_projected_nullable(array_schema, which, select, n - 1);
    }
}

} // verus!
