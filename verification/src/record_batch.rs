//! The cells of a batch of rows as columns.
//!
//! A column is decoded from the buffers of one field. The bytes of the
//! values are copied as they are; offsets are converted from bytes to
//! elements; the validity bytes become one flag for each cell.

use vstd::prelude::*;
use vstd::slice::slice_to_vec;
use vstd::utf8::valid_utf8;
use crate::enums::PhysicalType;
use crate::misc::name_from_bytes;
use crate::offsets::{OffsetBuffer, converted_bytes, try_from_bytes, valid_offsets};
use crate::schema::{ArrowArraySchema, ArrowDataType, ArrowField, Schema};
use crate::tile::{ResultTile, TileTuple};

verus! {

/// Why the buffers of a field do not make a column.
#[derive(Clone, Copy, Debug, PartialEq, Eq, Structural)]
pub enum FieldError {
    /// There is a validity buffer for a field whose cells cannot be null.
    UnexpectedValidityTile,
    /// There is a var buffer for a field of fixed-size cells.
    UnexpectedVarTile,
    /// There is no var buffer for a field of variable-size cells.
    ExpectedVarTile,
    /// The bytes of the values are not a whole number of values.
    InternalUnalignedValues,
    /// The offsets of the cells are not valid.
    InternalOffsets(crate::offsets::Error),
    /// The offsets or the validity flags of a column of text do not fit its
    /// bytes, or the bytes are not text, or an offset parts a character.
    InvalidTileData,
    /// The column stands for an enumeration which has not been resolved.
    EnumerationNotSupported,
}

/// Whether text may be parted at an offset into its bytes: at its end, or
/// before a byte which does not continue a character.
pub open spec fn char_boundary(values: Seq<u8>, offset: i64) -> bool {
    0 <= offset <= values.len() && (offset == values.len() || !(0x80 <= values[offset as int]
        < 0xc0))
}

/// Whether text may be parted at each of the first `n` offsets.
pub open spec fn text_boundaries(offsets: Seq<i64>, values: Seq<u8>, n: int) -> bool {
    forall|i: int| 0 <= i < n && i < offsets.len() ==> char_boundary(values, #[trigger] offsets[i])
}

/// Returns whether text may be parted at each of the offsets.
fn has_text_boundaries(offsets: &OffsetBuffer, values: &Vec<u8>) -> (yes: bool)
    ensures
        yes == text_boundaries(offsets@, values@, offsets@.len() as int),
{
    let mut i: usize = 0;
    while i < offsets.len()
        invariant
            i <= offsets@.len(),
            text_boundaries(offsets@, values@, i as int),
        decreases offsets@.len() - i,
    {
        let offset = offsets.get(i);
        if offset < 0 || offset as u64 > values.len() as u64 {
            assert(!char_boundary(values@, offsets@[i as int]));
            return false;
        }
        if (offset as u64) < values.len() as u64 {
            let byte = values[offset as usize];
            if 0x80 <= byte && byte < 0xc0 {
                assert(!char_boundary(values@, offsets@[i as int]));
                return false;
            }
        }
        i += 1;
    }
    true
}

/// A column seen as a mathematical value.
pub enum ArrowArrayView {
    /// A column of the given type all of whose cells are null.
    Null { data_type: ArrowDataType, len: nat },
    /// One value in each cell. `values` holds the bytes of the values.
    Primitive { physical: PhysicalType, values: Seq<u8>, validity: Option<Seq<bool>> },
    /// `size` values in each cell.
    FixedSizeList {
        physical: PhysicalType,
        size: i32,
        values: Seq<u8>,
        validity: Option<Seq<bool>>,
    },
    /// Cell `i` holds the values from `offsets[i]` up to `offsets[i + 1]`.
    LargeList {
        physical: PhysicalType,
        offsets: Seq<i64>,
        values: Seq<u8>,
        validity: Option<Seq<bool>>,
    },
    /// Cell `i` holds the bytes from `offsets[i]` up to `offsets[i + 1]`.
    LargeUtf8 { offsets: Seq<i64>, values: Seq<u8>, validity: Option<Seq<bool>> },
}

impl ArrowArrayView {
    /// The type of this column.
    pub open spec fn data_type(self) -> ArrowDataType {
        match self {
            ArrowArrayView::Null { data_type, .. } => data_type,
            ArrowArrayView::Primitive { physical, .. } => ArrowDataType::Primitive(physical),
            ArrowArrayView::FixedSizeList { physical, size, .. } => ArrowDataType::FixedSizeList(
                physical,
                size,
            ),
            ArrowArrayView::LargeList { physical, .. } => ArrowDataType::LargeList(physical),
            ArrowArrayView::LargeUtf8 { .. } => ArrowDataType::LargeUtf8,
        }
    }

    /// The validity flags of this column, if it has any.
    pub open spec fn validity(self) -> Option<Seq<bool>> {
        match self {
            ArrowArrayView::Null { .. } => None,
            ArrowArrayView::Primitive { validity, .. } => validity,
            ArrowArrayView::FixedSizeList { validity, .. } => validity,
            ArrowArrayView::LargeList { validity, .. } => validity,
            ArrowArrayView::LargeUtf8 { validity, .. } => validity,
        }
    }

    /// The number of values which the bytes of this column hold.
    pub open spec fn value_count(self) -> nat {
        match self {
            ArrowArrayView::Null { .. } => 0,
            ArrowArrayView::Primitive { physical, values, .. } => values.len() / (
            physical.spec_width() as nat),
            ArrowArrayView::FixedSizeList { physical, values, .. } => values.len() / (
            physical.spec_width() as nat),
            ArrowArrayView::LargeList { physical, values, .. } => values.len() / (
            physical.spec_width() as nat),
            ArrowArrayView::LargeUtf8 { values, .. } => values.len(),
        }
    }

    /// The number of cells of this column.
    pub open spec fn len(self) -> nat {
        match self {
            ArrowArrayView::Null { len, .. } => len,
            ArrowArrayView::Primitive { .. } => self.value_count(),
            ArrowArrayView::FixedSizeList { size, validity, .. } => if size > 0 {
                self.value_count() / (size as nat)
            } else {
                match validity {
                    Some(v) => v.len(),
                    None => 0,
                }
            },
            ArrowArrayView::LargeList { offsets, .. } => (offsets.len() - 1) as nat,
            ArrowArrayView::LargeUtf8 { offsets, .. } => (offsets.len() - 1) as nat,
        }
    }

    /// Whether cell `i` of this column is null.
    pub open spec fn is_null(self, i: int) -> bool {
        match self {
            ArrowArrayView::Null { .. } => true,
            _ => match self.validity() {
                Some(v) => !v[i],
                None => false,
            },
        }
    }

    /// Whether the parts of this column fit together: the bytes are a whole
    /// number of values, the values fill the cells, and there is one
    /// validity flag for each cell.
    pub open spec fn well_formed(self) -> bool {
        match self {
            ArrowArrayView::Null { .. } => true,
            ArrowArrayView::Primitive { physical, values, validity } => {
                &&& values.len() % (physical.spec_width() as nat) == 0
                &&& validity matches Some(v) ==> v.len() == self.value_count()
            },
            ArrowArrayView::FixedSizeList { physical, size, values, validity } => {
                &&& values.len() % (physical.spec_width() as nat) == 0
                &&& size >= 0
                &&& size == 0 ==> self.value_count() == 0
                &&& size > 0 ==> self.value_count() % (size as nat) == 0
                &&& size > 0 ==> (validity matches Some(v) ==> v.len() == self.len())
            },
            ArrowArrayView::LargeList { physical, offsets, values, validity } => {
                &&& values.len() % (physical.spec_width() as nat) == 0
                &&& valid_offsets(offsets)
                &&& offsets.last() <= self.value_count()
                &&& validity matches Some(v) ==> v.len() == self.len()
            },
            ArrowArrayView::LargeUtf8 { offsets, values, validity } => {
                &&& valid_offsets(offsets)
                &&& offsets.last() <= self.value_count()
                &&& validity matches Some(v) ==> v.len() == self.len()
            },
        }
    }
}

/// The parts of a column.
enum ColumnData {
    Null { data_type: ArrowDataType, len: usize },
    Primitive { physical: PhysicalType, values: Vec<u8>, validity: Option<Vec<bool>> },
    FixedSizeList {
        physical: PhysicalType,
        size: i32,
        values: Vec<u8>,
        validity: Option<Vec<bool>>,
    },
    LargeList {
        physical: PhysicalType,
        offsets: OffsetBuffer,
        values: Vec<u8>,
        validity: Option<Vec<bool>>,
    },
    LargeUtf8 { offsets: OffsetBuffer, values: Vec<u8>, validity: Option<Vec<bool>> },
}

/// The validity flags of a column as a mathematical value.
pub open spec fn flags_view(validity: Option<Vec<bool>>) -> Option<Seq<bool>> {
    match validity {
        Some(v) => Some(v@),
        None => None,
    }
}

/// A column: the cells of one field in a batch of rows.
/// The parts of a column always fit together.
pub struct ArrowArray {
    data: ColumnData,
}

impl View for ArrowArray {
    type V = ArrowArrayView;

    closed spec fn view(&self) -> ArrowArrayView {
        match self.data {
            ColumnData::Null { data_type, len } => ArrowArrayView::Null {
                data_type,
                len: len as nat,
            },
            ColumnData::Primitive { physical, values, validity } => ArrowArrayView::Primitive {
                physical,
                values: values@,
                validity: flags_view(validity),
            },
            ColumnData::FixedSizeList {
                physical,
                size,
                values,
                validity,
            } => ArrowArrayView::FixedSizeList {
                physical,
                size,
                values: values@,
                validity: flags_view(validity),
            },
            ColumnData::LargeList {
                physical,
                offsets,
                values,
                validity,
            } => ArrowArrayView::LargeList {
                physical,
                offsets: offsets@,
                values: values@,
                validity: flags_view(validity),
            },
            ColumnData::LargeUtf8 { offsets, values, validity } => ArrowArrayView::LargeUtf8 {
                offsets: offsets@,
                values: values@,
                validity: flags_view(validity),
            },
        }
    }
}

/// The flags which validity bytes stand for: a cell is valid unless its
/// byte is zero.
pub open spec fn validity_bits(validity: Seq<u8>) -> Seq<bool> {
    Seq::new(validity.len(), |i: int| validity[i] != 0)
}

/// The validity flags of a column whose field has the given validity
/// buffer, if any. A field whose cells cannot be null must have none.
/// A field whose cells may be null can do without: none of its cells is
/// null then.
pub open spec fn spec_null_buffer(nullable: bool, validity: Option<Seq<u8>>) -> Result<
    Option<Seq<bool>>,
    FieldError,
> {
    match validity {
        Some(v) => if !nullable {
            Err(FieldError::UnexpectedValidityTile)
        } else {
            Ok(Some(validity_bits(v)))
        },
        None => Ok(None),
    }
}

/// The column of the given type which the buffers of a field decode to.
///
/// `fixed` holds the values, or if there is a `var` buffer the byte offsets
/// of the cells while `var` holds the values. A validity buffer which must
/// not be there is reported before anything else.
pub open spec fn spec_to_arrow_array(
    data_type: ArrowDataType,
    nullable: bool,
    fixed: Seq<u8>,
    var: Option<Seq<u8>>,
    validity: Option<Seq<u8>>,
) -> Result<ArrowArrayView, FieldError> {
    match spec_null_buffer(nullable, validity) {
        Err(e) => Err(e),
        Ok(nulls) => match data_type {
            ArrowDataType::Primitive(physical) => if var is Some {
                Err(FieldError::UnexpectedVarTile)
            } else if fixed.len() % (physical.spec_width() as nat) != 0 {
                Err(FieldError::InternalUnalignedValues)
            } else {
                Ok(ArrowArrayView::Primitive { physical, values: fixed, validity: nulls })
            },
            ArrowDataType::FixedSizeList(physical, size) => if fixed.len() % (
            physical.spec_width() as nat) != 0 {
                Err(FieldError::InternalUnalignedValues)
            } else {
                Ok(ArrowArrayView::FixedSizeList { physical, size, values: fixed, validity: nulls })
            },
            ArrowDataType::LargeUtf8 => match var {
                None => Err(FieldError::ExpectedVarTile),
                Some(values) => match converted_bytes(1, fixed) {
                    Err(e) => Err(FieldError::InternalOffsets(e)),
                    Ok(offsets) => if offsets.last() > values.len() || (nulls matches Some(v)
                        && v.len() != offsets.len() - 1) || !valid_utf8(values)
                        || !text_boundaries(offsets, values, offsets.len() as int) {
                        Err(FieldError::InvalidTileData)
                    } else {
                        Ok(ArrowArrayView::LargeUtf8 { offsets, values, validity: nulls })
                    },
                },
            },
            ArrowDataType::LargeList(physical) => match var {
                None => Err(FieldError::ExpectedVarTile),
                Some(values) => match converted_bytes(physical.spec_width() as int, fixed) {
                    Err(e) => Err(FieldError::InternalOffsets(e)),
                    Ok(offsets) => if values.len() % (physical.spec_width() as nat) != 0 {
                        Err(FieldError::InternalUnalignedValues)
                    } else {
                        Ok(
                            ArrowArrayView::LargeList {
                                physical,
                                offsets,
                                values,
                                validity: nulls,
                            },
                        )
                    },
                },
            },
            ArrowDataType::Null => Err(FieldError::EnumerationNotSupported),
            ArrowDataType::Boolean => Err(FieldError::EnumerationNotSupported),
        },
    }
}

/// Whether buffers can be decoded at all.
///
/// Buffers which do not fit together are a sign of corrupted storage, not
/// of a mistake of the user, and no column is made of them: the offsets of
/// variable-size cells are missing altogether, the values do not fill the
/// cells, or the validity flags are not one for each cell. No field has a
/// column of booleans.
pub open spec fn decodable(
    data_type: ArrowDataType,
    nullable: bool,
    fixed: Seq<u8>,
    var: Option<Seq<u8>>,
    validity: Option<Seq<u8>>,
) -> bool {
    spec_null_buffer(nullable, validity) is Ok ==> {
        &&& !(data_type is Boolean)
        &&& (data_type is LargeUtf8 || data_type is LargeList) && var is Some ==> fixed.len() > 0
        &&& spec_to_arrow_array(data_type, nullable, fixed, var, validity) matches Ok(a)
            ==> a.well_formed()
    }
}

/// What decoding returned, as a mathematical value.
pub open spec fn array_outcome(result: Result<ArrowArray, FieldError>) -> Result<
    ArrowArrayView,
    FieldError,
> {
    match result {
        Ok(a) => Ok(a@),
        Err(e) => Err(e),
    }
}

impl ArrowArray {
    #[verifier::type_invariant]
    spec fn fits(&self) -> bool {
        self@.well_formed()
    }

    /// Returns a column of `len` cells of the given type, all of them null.
    pub fn new_null(data_type: ArrowDataType, len: usize) -> (array: ArrowArray)
        ensures
            array@ == (ArrowArrayView::Null { data_type, len: len as nat }),
    {
        ArrowArray { data: ColumnData::Null { data_type, len } }
    }

    /// Returns the type of this column.
    pub fn data_type(&self) -> (data_type: ArrowDataType)
        ensures
            data_type == self@.data_type(),
            self@.well_formed(),
    {
        proof {
            use_type_invariant(self);
        }
        match &self.data {
            ColumnData::Null { data_type, .. } => *data_type,
            ColumnData::Primitive { physical, .. } => ArrowDataType::Primitive(*physical),
            ColumnData::FixedSizeList { physical, size, .. } => ArrowDataType::FixedSizeList(
                *physical,
                *size,
            ),
            ColumnData::LargeList { physical, .. } => ArrowDataType::LargeList(*physical),
            ColumnData::LargeUtf8 { .. } => ArrowDataType::LargeUtf8,
        }
    }

    /// Returns the number of cells of this column.
    pub fn len(&self) -> (len: usize)
        ensures
            len == self@.len(),
            self@.well_formed(),
    {
        proof {
            use_type_invariant(self);
        }
        match &self.data {
            ColumnData::Null { len, .. } => *len,
            ColumnData::Primitive { physical, values, .. } => values.len() / physical.width(),
            ColumnData::FixedSizeList { physical, size, values, validity } => {
                if *size > 0 {
                    values.len() / physical.width() / (*size as usize)
                } else {
                    match validity {
                        Some(v) => v.len(),
                        None => 0,
                    }
                }
            },
            ColumnData::LargeList { offsets, .. } => offsets.len() - 1,
            ColumnData::LargeUtf8 { offsets, .. } => offsets.len() - 1,
        }
    }

    /// Returns whether cell `i` of this column is null.
    pub fn is_null(&self, i: usize) -> (null: bool)
        requires
            i < self@.len(),
        ensures
            null == self@.is_null(i as int),
    {
        proof {
            use_type_invariant(self);
        }
        let validity = match &self.data {
            ColumnData::Null { .. } => {
                return true;
            },
            ColumnData::Primitive { validity, .. } => validity,
            ColumnData::FixedSizeList { validity, .. } => validity,
            ColumnData::LargeList { validity, .. } => validity,
            ColumnData::LargeUtf8 { validity, .. } => validity,
        };
        match validity {
            Some(v) => !v[i],
            None => false,
        }
    }
}

/// The parts of a column, on loan.
pub enum ArrayParts<'a> {
    Null { data_type: ArrowDataType, len: usize },
    Primitive { physical: PhysicalType, values: &'a Vec<u8>, validity: &'a Option<Vec<bool>> },
    FixedSizeList {
        physical: PhysicalType,
        size: i32,
        values: &'a Vec<u8>,
        validity: &'a Option<Vec<bool>>,
    },
    LargeList {
        physical: PhysicalType,
        offsets: &'a OffsetBuffer,
        values: &'a Vec<u8>,
        validity: &'a Option<Vec<bool>>,
    },
    LargeUtf8 { offsets: &'a OffsetBuffer, values: &'a Vec<u8>, validity: &'a Option<Vec<bool>> },
}

impl<'a> View for ArrayParts<'a> {
    type V = ArrowArrayView;

    open spec fn view(&self) -> ArrowArrayView {
        match self {
            ArrayParts::Null { data_type, len } => ArrowArrayView::Null {
                data_type: *data_type,
                len: *len as nat,
            },
            ArrayParts::Primitive { physical, values, validity } => ArrowArrayView::Primitive {
                physical: *physical,
                values: values@,
                validity: flags_view(**validity),
            },
            ArrayParts::FixedSizeList {
                physical,
                size,
                values,
                validity,
            } => ArrowArrayView::FixedSizeList {
                physical: *physical,
                size: *size,
                values: values@,
                validity: flags_view(**validity),
            },
            ArrayParts::LargeList {
                physical,
                offsets,
                values,
                validity,
            } => ArrowArrayView::LargeList {
                physical: *physical,
                offsets: offsets@,
                values: values@,
                validity: flags_view(**validity),
            },
            ArrayParts::LargeUtf8 { offsets, values, validity } => ArrowArrayView::LargeUtf8 {
                offsets: offsets@,
                values: values@,
                validity: flags_view(**validity),
            },
        }
    }
}

impl ArrowArray {
    /// Returns the parts of this column.
    pub fn parts(&self) -> (parts: ArrayParts<'_>)
        ensures
            parts@ == self@,
            self@.well_formed(),
    {
        proof {
            use_type_invariant(self);
        }
        match &self.data {
            ColumnData::Null { data_type, len } => ArrayParts::Null {
                data_type: *data_type,
                len: *len,
            },
            ColumnData::Primitive { physical, values, validity } => ArrayParts::Primitive {
                physical: *physical,
                values,
                validity,
            },
            ColumnData::FixedSizeList {
                physical,
                size,
                values,
                validity,
            } => ArrayParts::FixedSizeList { physical: *physical, size: *size, values, validity },
            ColumnData::LargeList { physical, offsets, values, validity } => ArrayParts::LargeList {
                physical: *physical,
                offsets,
                values,
                validity,
            },
            ColumnData::LargeUtf8 { offsets, values, validity } => ArrayParts::LargeUtf8 {
                offsets,
                values,
                validity,
            },
        }
    }
}

/// The bytes of a buffer which may be missing, as a mathematical value.
pub open spec fn bytes_view(bytes: Option<&[u8]>) -> Option<Seq<u8>> {
    match bytes {
        Some(b) => Some(b@),
        None => None,
    }
}

/// Returns the flags which validity bytes stand for.
fn to_null_buffer(validity: &[u8]) -> (flags: Vec<bool>)
    ensures
        flags@ == validity_bits(validity@),
{
    let len = validity.len();
    let mut flags: Vec<bool> = Vec::with_capacity(len);
    let mut i: usize = 0;
    while i < len
        invariant
            len == validity@.len(),
            i <= len,
            flags@.len() == i,
            forall|j: int| 0 <= j < i ==> #[trigger] flags@[j] == (validity@[j] != 0),
        decreases len - i,
    {
        flags.push(validity[i] != 0);
        i += 1;
    }
    assert(flags@ =~= validity_bits(validity@));
    flags
}

/// Returns a copy of `bytes`, which must be a whole number of values of
/// the given type.
fn to_buffer(physical: PhysicalType, bytes: &[u8]) -> (result: Result<Vec<u8>, FieldError>)
    ensures
        match result {
            Ok(values) => values@ == bytes@ && bytes@.len() % (physical.spec_width() as nat) == 0,
            Err(e) => e == FieldError::InternalUnalignedValues && bytes@.len() % (
            physical.spec_width() as nat) != 0,
        },
{
    if bytes.len() % physical.width() != 0 {
        return Err(FieldError::InternalUnalignedValues);
    }
    Ok(slice_to_vec(bytes))
}

/// Returns the offsets in elements of the given type which `bytes` holds
/// as byte offsets.
fn to_offsets_buffer(physical: PhysicalType, bytes: &[u8]) -> (result: Result<
    OffsetBuffer,
    crate::offsets::Error,
>)
    requires
        bytes@.len() > 0,
    ensures
        crate::offsets::outcome(result) == converted_bytes(physical.spec_width() as int, bytes@),
{
    try_from_bytes(physical.width(), bytes)
}

/// Returns the column of single values which `bytes` holds, or `None` if
/// there is not one validity flag for each value.
fn to_primitive_array(
    physical: PhysicalType,
    bytes: &[u8],
    validity: Option<Vec<bool>>,
) -> (result: Result<Option<ArrowArray>, FieldError>)
    ensures
        match result {
            Ok(Some(a)) => a@ == (ArrowArrayView::Primitive {
                physical,
                values: bytes@,
                validity: flags_view(validity),
            }) && a@.well_formed(),
            Ok(None) => bytes@.len() % (physical.spec_width() as nat) == 0 && !(
            ArrowArrayView::Primitive {
                physical,
                values: bytes@,
                validity: flags_view(validity),
            }).well_formed(),
            Err(e) => e == FieldError::InternalUnalignedValues && bytes@.len() % (
            physical.spec_width() as nat) != 0,
        },
{
    let values = match to_buffer(physical, bytes) {
        Ok(values) => values,
        Err(e) => {
            return Err(e);
        },
    };
    let count = values.len() / physical.width();
    let fits = match &validity {
        Some(v) => v.len() == count,
        None => true,
    };
    if !fits {
        return Ok(None);
    }
    Ok(Some(ArrowArray { data: ColumnData::Primitive { physical, values, validity } }))
}

/// Decodes the buffers of a field, or finds that they do not fit together.
pub(crate) fn decode(
    data_type: ArrowDataType,
    nullable: bool,
    fixed: &[u8],
    var: Option<&[u8]>,
    validity: Option<&[u8]>,
) -> (result: Result<Option<ArrowArray>, FieldError>)
    ensures
        match result {
            Ok(Some(a)) => decodable(data_type, nullable, fixed@, bytes_view(var), bytes_view(validity))
                && spec_to_arrow_array(
                data_type,
                nullable,
                fixed@,
                bytes_view(var),
                bytes_view(validity),
            ) == Ok::<ArrowArrayView, FieldError>(a@),
            Ok(None) => !decodable(
                data_type,
                nullable,
                fixed@,
                bytes_view(var),
                bytes_view(validity),
            ),
            Err(e) => decodable(data_type, nullable, fixed@, bytes_view(var), bytes_view(validity))
                && spec_to_arrow_array(
                data_type,
                nullable,
                fixed@,
                bytes_view(var),
                bytes_view(validity),
            ) == Err::<ArrowArrayView, FieldError>(e),
        },
{
    let null_buffer = match validity {
        Some(validity) => {
            if !nullable {
                return Err(FieldError::UnexpectedValidityTile);
            }
            Some(to_null_buffer(validity))
        },
        None => None,
    };
    match data_type {
        ArrowDataType::Primitive(physical) => {
            if var.is_some() {
                return Err(FieldError::UnexpectedVarTile);
            }
            to_primitive_array(physical, fixed, null_buffer)
        },
        ArrowDataType::FixedSizeList(physical, size) => {
            let values = match to_buffer(physical, fixed) {
                Ok(values) => values,
                Err(e) => {
                    return Err(e);
                },
            };
            let count = values.len() / physical.width();
            if size < 0 {
                return Ok(None);
            }
            if size == 0 {
                if count != 0 {
                    return Ok(None);
                }
            } else {
                if count % (size as usize) != 0 {
                    return Ok(None);
                }
                let cells = count / (size as usize);
                let fits = match &null_buffer {
                    Some(v) => v.len() == cells,
                    None => true,
                };
                if !fits {
                    return Ok(None);
                }
            }
            Ok(
                Some(
                    ArrowArray {
                        data: ColumnData::FixedSizeList {
                            physical,
                            size,
                            values,
                            validity: null_buffer,
                        },
                    },
                ),
            )
        },
        ArrowDataType::LargeUtf8 => {
            let var_tile = match var {
                Some(var_tile) => var_tile,
                None => {
                    return Err(FieldError::ExpectedVarTile);
                },
            };
            if fixed.len() == 0 {
                return Ok(None);
            }
            let offsets = match to_offsets_buffer(PhysicalType::UInt8, fixed) {
                Ok(offsets) => offsets,
                Err(e) => {
                    return Err(FieldError::InternalOffsets(e));
                },
            };
            let values = slice_to_vec(var_tile);
            let last = offsets.last();
            let cells = offsets.len() - 1;
            let fits = match &null_buffer {
                Some(v) => v.len() == cells,
                None => true,
            };
            if last as u64 > values.len() as u64 || !fits {
                return Err(FieldError::InvalidTileData);
            }
            if name_from_bytes(values.as_slice()).is_err() || !has_text_boundaries(
                &offsets,
                &values,
            ) {
                return Err(FieldError::InvalidTileData);
            }
            Ok(
                Some(
                    ArrowArray {
                        data: ColumnData::LargeUtf8 { offsets, values, validity: null_buffer },
                    },
                ),
            )
        },
        ArrowDataType::LargeList(physical) => {
            let var_tile = match var {
                Some(var_tile) => var_tile,
                None => {
                    return Err(FieldError::ExpectedVarTile);
                },
            };
            if fixed.len() == 0 {
                return Ok(None);
            }
            let offsets = match to_offsets_buffer(physical, fixed) {
                Ok(offsets) => offsets,
                Err(e) => {
                    return Err(FieldError::InternalOffsets(e));
                },
            };
            let values = match to_buffer(physical, var_tile) {
                Ok(values) => values,
                Err(e) => {
                    return Err(e);
                },
            };
            let count = values.len() / physical.width();
            let last = offsets.last();
            let cells = offsets.len() - 1;
            let fits = match &null_buffer {
                Some(v) => v.len() == cells,
                None => true,
            };
            if last as u64 > count as u64 || !fits {
                return Ok(None);
            }
            Ok(
                Some(
                    ArrowArray {
                        data: ColumnData::LargeList {
                            physical,
                            offsets,
                            values,
                            validity: null_buffer,
                        },
                    },
                ),
            )
        },
        ArrowDataType::Null => Err(FieldError::EnumerationNotSupported),
        ArrowDataType::Boolean => Ok(None),
    }
}

/// Returns whether the buffers of a field can be decoded at all: whether
/// they fit together well enough to make a column or to be refused for a
/// stated reason.
pub fn is_decodable(
    f: &ArrowField,
    fixed: &[u8],
    var: Option<&[u8]>,
    validity: Option<&[u8]>,
) -> (yes: bool)
    ensures
        yes == decodable(f.data_type, f.nullable, fixed@, bytes_view(var), bytes_view(validity)),
{
    match decode(f.data_type, f.nullable, fixed, var, validity) {
        Ok(None) => false,
        _ => true,
    }
}

/// Returns the column which the buffers of a field decode to.
///
/// `fixed` holds the values, or if the cells of the field vary in size
/// their byte offsets while `var` holds the values. `validity` holds one
/// byte for each cell, zero where the cell is null. A field whose cells may
/// be null can come without it, and none of its cells is null then.
pub fn to_arrow_array(
    f: &ArrowField,
    fixed: &[u8],
    var: Option<&[u8]>,
    validity: Option<&[u8]>,
) -> (result: Result<ArrowArray, FieldError>)
    requires
        decodable(f.data_type, f.nullable, fixed@, bytes_view(var), bytes_view(validity)),
    ensures
        array_outcome(result) == spec_to_arrow_array(
            f.data_type,
            f.nullable,
            fixed@,
            bytes_view(var),
            bytes_view(validity),
        ),
        result matches Ok(a) ==> a@.well_formed() && a@.data_type() == f.data_type,
{
    match decode(f.data_type, f.nullable, fixed, var, validity) {
        Ok(Some(a)) => Ok(a),
        Ok(None) => vstd::pervasive::unreached(),
        Err(e) => Err(e),
    }
}

/// Returns the column which the buffers of a field decode to.
pub fn tile_to_arrow_array(f: &ArrowField, tile: &TileTuple) -> (result: Result<
    ArrowArray,
    FieldError,
>)
    requires
        decodable(f.data_type, f.nullable, tile.fixed_tile@, tile.spec_var(), tile.spec_validity()),
    ensures
        array_outcome(result) == spec_to_arrow_array(
            f.data_type,
            f.nullable,
            tile.fixed_tile@,
            tile.spec_var(),
            tile.spec_validity(),
        ),
        result matches Ok(a) ==> a@.well_formed() && a@.data_type() == f.data_type,
{
    let var = match tile.var_tile() {
        Some(t) => Some(t.as_slice()),
        None => None,
    };
    let validity = match tile.validity_tile() {
        Some(t) => Some(t.as_slice()),
        None => None,
    };
    to_arrow_array(f, tile.fixed_tile().as_slice(), var, validity)
}

/// Why a batch of rows has no columns.
#[derive(Clone, Debug, PartialEq, Eq)]
pub enum Error {
    /// The buffers of the field of this name do not make a column.
    FieldError(String, FieldError),
}

/// An [`Error`] seen as a mathematical value.
pub enum ErrorView {
    FieldError(Seq<char>, FieldError),
}

impl View for Error {
    type V = ErrorView;

    open spec fn view(&self) -> ErrorView {
        match self {
            Error::FieldError(name, e) => ErrorView::FieldError(name@, *e),
        }
    }
}

/// The column of a field in a batch of rows. A field without buffers has
/// no data in these rows, which the schema may have gained since they were
/// written: all of its cells are null.
pub open spec fn spec_column(f: ArrowField, tile: &ResultTile) -> Result<ArrowArrayView, ErrorView> {
    match tile.spec_tile_tuple(f.name@) {
        None => Ok(ArrowArrayView::Null { data_type: f.data_type, len: tile.cell_num as nat }),
        Some(t) => match spec_to_arrow_array(
            f.data_type,
            f.nullable,
            t.fixed_tile@,
            t.spec_var(),
            t.spec_validity(),
        ) {
            Ok(a) => Ok(a),
            Err(e) => Err(ErrorView::FieldError(f.name@, e)),
        },
    }
}

/// The columns of the first `n` fields, or the error of the first field
/// which has no column.
pub open spec fn spec_columns(fields: Seq<ArrowField>, tile: &ResultTile, n: int) -> Result<
    Seq<ArrowArrayView>,
    ErrorView,
>
    decreases n,
{
    if n <= 0 {
        Ok(Seq::empty())
    } else {
        match spec_columns(fields, tile, n - 1) {
            Err(e) => Err(e),
            Ok(columns) => match spec_column(fields[n - 1], tile) {
                Err(e) => Err(e),
                Ok(column) => Ok(columns.push(column)),
            },
        }
    }
}

/// Whether the buffers of a field fit the batch of rows: they can be
/// decoded, and the column they make has as many cells as there are rows.
pub open spec fn field_consistent(f: ArrowField, tile: &ResultTile) -> bool {
    tile.spec_tile_tuple(f.name@) matches Some(t) ==> {
        &&& decodable(f.data_type, f.nullable, t.fixed_tile@, t.spec_var(), t.spec_validity())
        &&& spec_to_arrow_array(
            f.data_type,
            f.nullable,
            t.fixed_tile@,
            t.spec_var(),
            t.spec_validity(),
        ) matches Ok(a) ==> a.len() == tile.cell_num
    }
}

/// Whether a batch of rows can be made into columns at all: the number of
/// rows can be counted, and the buffers of each field fit the batch, as far
/// as the fields are looked at, which is up to the first whose buffers are
/// refused.
pub open spec fn consistent(fields: Seq<ArrowField>, tile: &ResultTile) -> bool {
    &&& tile.cell_num <= usize::MAX
    &&& forall|i: int|
        0 <= i < fields.len() && spec_columns(fields, tile, i) is Ok ==> #[trigger] field_consistent(
            fields[i],
            tile,
        )
}

/// Columns of equal length, one for each field of a schema.
pub struct ArrowRecordBatch {
    schema: Schema,
    columns: Vec<ArrowArray>,
    num_rows: usize,
}

/// The columns as mathematical values, in their order.
pub open spec fn array_views(columns: Seq<ArrowArray>) -> Seq<ArrowArrayView> {
    Seq::new(columns.len(), |i: int| columns[i]@)
}

impl ArrowRecordBatch {
    #[verifier::type_invariant]
    spec fn fits(&self) -> bool {
        self.well_formed()
    }

    /// The descriptions of the columns.
    pub closed spec fn spec_schema(&self) -> Schema {
        self.schema
    }

    /// The columns.
    pub closed spec fn spec_columns(&self) -> Seq<ArrowArrayView> {
        array_views(self.columns@)
    }

    /// The number of rows.
    pub closed spec fn spec_num_rows(&self) -> nat {
        self.num_rows as nat
    }

    /// Whether there is one column for each field of the schema, of the
    /// type of the field, and every column has as many cells as there are
    /// rows.
    pub open spec fn well_formed(&self) -> bool {
        &&& self.spec_columns().len() == self.spec_schema().fields@.len()
        &&& forall|i: int|
            0 <= i < self.spec_columns().len() ==> {
                &&& (#[trigger] self.spec_columns()[i]).well_formed()
                &&& self.spec_columns()[i].len() == self.spec_num_rows()
                &&& self.spec_columns()[i].data_type() == self.spec_schema().fields@[i].data_type
            }
    }

    /// Returns the descriptions of the columns.
    pub fn schema(&self) -> (schema: &Schema)
        ensures
            *schema == self.spec_schema(),
            self.well_formed(),
    {
        proof {
            use_type_invariant(self);
        }
        &self.schema
    }

    /// Returns the number of rows.
    pub fn num_rows(&self) -> (num_rows: usize)
        ensures
            num_rows == self.spec_num_rows(),
            self.well_formed(),
    {
        proof {
            use_type_invariant(self);
        }
        self.num_rows
    }

    /// Returns the number of columns.
    pub fn num_columns(&self) -> (num_columns: usize)
        ensures
            num_columns == self.spec_columns().len(),
            self.well_formed(),
    {
        proof {
            use_type_invariant(self);
        }
        self.columns.len()
    }

    /// Returns the column at position `i`.
    pub fn column(&self, i: usize) -> (column: &ArrowArray)
        requires
            i < self.spec_columns().len(),
        ensures
            column@ == self.spec_columns()[i as int],
            self.well_formed(),
    {
        proof {
            use_type_invariant(self);
        }
        &self.columns[i]
    }
}

/// Decodes the buffers of each field of a schema, or finds that the batch
/// cannot be made into columns.
fn materialize(schema: &Schema, tile: &ResultTile) -> (result: Result<Option<ArrowRecordBatch>, Error>)
    ensures
        match result {
            Ok(Some(batch)) => consistent(schema.fields@, tile) && spec_columns(
                schema.fields@,
                tile,
                schema.fields@.len() as int,
            ) == Ok::<Seq<ArrowArrayView>, ErrorView>(batch.spec_columns())
                && batch.spec_num_rows() == tile.cell_num && batch.spec_schema().fields@
                == schema.fields@ && batch.well_formed(),
            Ok(None) => !consistent(schema.fields@, tile),
            Err(e) => consistent(schema.fields@, tile) && spec_columns(
                schema.fields@,
                tile,
                schema.fields@.len() as int,
            ) == Err::<Seq<ArrowArrayView>, ErrorView>(e@),
        },
{
    if tile.cell_num() > usize::MAX as u64 {
        return Ok(None);
    }
    let num_rows = tile.cell_num() as usize;
    let mut columns: Vec<ArrowArray> = Vec::with_capacity(schema.fields.len());
    let mut fields: Vec<ArrowField> = Vec::with_capacity(schema.fields.len());
    let mut i: usize = 0;
    assert(array_views(columns@) =~= Seq::<ArrowArrayView>::empty());
    assert(fields@ =~= schema.fields@.subrange(0, 0));
    while i < schema.fields.len()
        invariant
            i <= schema.fields@.len(),
            num_rows == tile.cell_num,
            columns@.len() == i,
            fields@ == schema.fields@.subrange(0, i as int),
            spec_columns(schema.fields@, tile, i as int) == Ok::<Seq<ArrowArrayView>, ErrorView>(
                array_views(columns@),
            ),
            forall|j: int| 0 <= j < i ==> #[trigger] field_consistent(schema.fields@[j], tile),
            forall|j: int|
                0 <= j < i ==> {
                    &&& (#[trigger] columns@[j])@.well_formed()
                    &&& columns@[j]@.len() == num_rows
                    &&& columns@[j]@.data_type() == schema.fields@[j].data_type
                },
        decreases schema.fields@.len() - i,
    {
        let f = &schema.fields[i];
        let column = match tile.tile_tuple(&f.name) {
            None => ArrowArray::new_null(f.data_type, num_rows),
            Some(t) => {
                let var = match t.var_tile() {
                    Some(v) => Some(v.as_slice()),
                    None => None,
                };
                let validity = match t.validity_tile() {
                    Some(v) => Some(v.as_slice()),
                    None => None,
                };
                match decode(f.data_type, f.nullable, t.fixed_tile().as_slice(), var, validity) {
                    Ok(Some(a)) => {
                        if a.len() != num_rows {
                            assert(!field_consistent(schema.fields@[i as int], tile));
                            return Ok(None);
                        }
                        a
                    },
                    Ok(None) => {
                        assert(!field_consistent(schema.fields@[i as int], tile));
                        return Ok(None);
                    },
                    Err(e) => {
                        proof {
                            lemma_columns_error(
                                schema.fields@,
                                tile,
                                i + 1,
                                schema.fields@.len() as int,
                            );
                            lemma_consistent_up_to_error(schema.fields@, tile, i + 1);
                        }
                        return Err(Error::FieldError(f.name.clone(), e));
                    },
                }
            },
        };
        let ghost before = array_views(columns@);
        columns.push(column);
        fields.push(f.duplicate());
        assert(array_views(columns@) =~= before.push(column@));
        assert(fields@ =~= schema.fields@.subrange(0, i + 1));
        i += 1;
    }
    assert(fields@ =~= schema.fields@);
    let batch = ArrowRecordBatch { schema: Schema { fields }, columns, num_rows };
    Ok(Some(batch))
}

/// Once a field has no column, its error is the outcome however many more
/// fields follow.
proof fn lemma_columns_error(fields: Seq<ArrowField>, tile: &ResultTile, k: int, n: int)
    requires
        0 <= k <= n,
        spec_columns(fields, tile, k) is Err,
    ensures
        spec_columns(fields, tile, n) == spec_columns(fields, tile, k),
    decreases n - k,
{
    if k < n {
        lemma_columns_error(fields, tile, k, n - 1);
    }
}

/// Where the columns fail at a field and the fields up to it are
/// consistent, the batch is: no field after the failure is looked at.
proof fn lemma_consistent_up_to_error(fields: Seq<ArrowField>, tile: &ResultTile, k: int)
    requires
        0 < k <= fields.len(),
        tile.cell_num <= usize::MAX,
        spec_columns(fields, tile, k) is Err,
        forall|j: int| 0 <= j < k ==> #[trigger] field_consistent(fields[j], tile),
    ensures
        consistent(fields, tile),
{
    assert forall|i: int|
        0 <= i < fields.len() && spec_columns(fields, tile, i) is Ok implies #[trigger] field_consistent(
        fields[i],
        tile,
    ) by {
        if i >= k {
            lemma_columns_error(fields, tile, k, i);
        }
    }
}

/// Returns whether a batch of rows can be made into columns at all.
pub fn is_consistent(schema: &ArrowArraySchema, tile: &ResultTile) -> (yes: bool)
    ensures
        yes == consistent(schema.schema.fields@, tile),
{
    match materialize(&schema.schema, tile) {
        Ok(None) => false,
        _ => true,
    }
}

/// Returns a batch of columns which holds the cells of a batch of rows.
///
/// There is one column for each field of the schema. A field which has no
/// buffers in these rows gets a column of as many nulls as there are rows.
/// The first field whose buffers are refused ends the work, and nothing is
/// returned but its name and the reason.
pub fn to_record_batch(schema: &ArrowArraySchema, tile: &ResultTile) -> (result: Result<
    Box<ArrowRecordBatch>,
    Error,
>)
    requires
        consistent(schema.schema.fields@, tile),
    ensures
        match result {
            Ok(batch) => spec_columns(
                schema.schema.fields@,
                tile,
                schema.schema.fields@.len() as int,
            ) == Ok::<Seq<ArrowArrayView>, ErrorView>(batch.spec_columns())
                && batch.spec_num_rows() == tile.cell_num
                && batch.spec_schema().fields@ == schema.schema.fields@
                && batch.well_formed(),
            Err(e) => spec_columns(schema.schema.fields@, tile, schema.schema.fields@.len() as int)
                == Err::<Seq<ArrowArrayView>, ErrorView>(e@),
        },
{
    match materialize(&schema.schema, tile) {
        Ok(Some(batch)) => Ok(Box::new(batch)),
        Ok(None) => vstd::pervasive::unreached(),
        Err(e) => Err(e),
    }
}

/// A field which has no buffers in a batch of rows gets a column of nulls
/// with one cell for each row, and no error.
pub proof fn lemma_absent_field_is_null(f: ArrowField, tile: &ResultTile)
    requires
        tile.spec_tile_tuple(f.name@) is None,
    ensures
        spec_column(f, tile) == Ok::<ArrowArrayView, ErrorView>(
            ArrowArrayView::Null { data_type: f.data_type, len: tile.cell_num as nat },
        ),
        spec_column(f, tile)->Ok_0.len() == tile.cell_num,
        forall|i: int| spec_column(f, tile)->Ok_0.is_null(i),
        field_consistent(f, tile),
{
}

} // verus!
