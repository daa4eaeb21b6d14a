//! The variants of an enumeration as a column.

use vstd::prelude::*;
use crate::array_schema::Enumeration;
use crate::record_batch::{
    ArrowArray, ArrowArrayView, decodable, decode, spec_to_arrow_array,
};
use crate::schema::{ArrowDataType, arrow_datatype, spec_arrow_datatype};

verus! {

/// Why the variants of an enumeration do not make a column.
#[derive(Clone, Debug, PartialEq, Eq)]
pub enum Error {
    /// The variants have no column type.
    DataType(crate::schema::FieldError),
    /// The buffers of the variants do not make a column.
    Variants(crate::record_batch::FieldError),
}

/// An [`Error`] seen as a mathematical value.
pub enum ErrorView {
    DataType(crate::schema::FieldErrorView),
    Variants(crate::record_batch::FieldError),
}

impl View for Error {
    type V = ErrorView;

    open spec fn view(&self) -> ErrorView {
        match self {
            Error::DataType(e) => ErrorView::DataType(e@),
            Error::Variants(e) => ErrorView::Variants(*e),
        }
    }
}

/// The bytes of the offsets of the variants, if their length varies.
pub open spec fn offsets_view(enumeration: &Enumeration) -> Option<Seq<u8>> {
    match enumeration.offsets {
        Some(o) => Some(o@),
        None => None,
    }
}

/// The column of the variants, given its type. The variants are never
/// null. Where their length varies, the offsets take the place of the
/// values and the values follow them.
pub open spec fn spec_variants(enumeration: &Enumeration, data_type: ArrowDataType) -> Result<
    ArrowArrayView,
    crate::record_batch::FieldError,
> {
    match offsets_view(enumeration) {
        Some(offsets) => spec_to_arrow_array(
            data_type,
            false,
            offsets,
            Some(enumeration.data@),
            None,
        ),
        None => spec_to_arrow_array(data_type, false, enumeration.data@, None, None),
    }
}

/// The column whose cells are the variants of an enumeration.
pub open spec fn spec_array_from_enumeration(enumeration: &Enumeration) -> Result<
    ArrowArrayView,
    ErrorView,
> {
    match spec_arrow_datatype(enumeration.datatype, enumeration.cell_val_num) {
        Err(e) => Err(ErrorView::DataType(e)),
        Ok(data_type) => match spec_variants(enumeration, data_type) {
            Ok(a) => Ok(a),
            Err(e) => Err(ErrorView::Variants(e)),
        },
    }
}

/// Whether the buffers of an enumeration can be decoded at all.
pub open spec fn enumeration_decodable(enumeration: &Enumeration) -> bool {
    spec_arrow_datatype(enumeration.datatype, enumeration.cell_val_num) matches Ok(data_type)
        ==> match offsets_view(enumeration) {
        Some(offsets) => decodable(data_type, false, offsets, Some(enumeration.data@), None),
        None => decodable(data_type, false, enumeration.data@, None, None),
    }
}

/// Decodes the variants of an enumeration, or finds that its buffers do
/// not fit together.
pub(crate) fn decode_enumeration(enumeration: &Enumeration) -> (result: Result<
    Option<ArrowArray>,
    Error,
>)
    ensures
        match result {
            Ok(Some(a)) => enumeration_decodable(enumeration) && spec_array_from_enumeration(
                enumeration,
            ) == Ok::<ArrowArrayView, ErrorView>(a@) && a@.well_formed(),
            Ok(None) => !enumeration_decodable(enumeration),
            Err(e) => enumeration_decodable(enumeration) && spec_array_from_enumeration(
                enumeration,
            ) == Err::<ArrowArrayView, ErrorView>(e@),
        },
{
    let data_type = match arrow_datatype(enumeration.datatype, enumeration.cell_val_num) {
        Ok(data_type) => data_type,
        Err(e) => {
            return Err(Error::DataType(e));
        },
    };
    let decoded = match &enumeration.offsets {
        Some(offsets) => decode(
            data_type,
            false,
            offsets.as_slice(),
            Some(enumeration.data.as_slice()),
            None,
        ),
        None => decode(data_type, false, enumeration.data.as_slice(), None, None),
    };
    match decoded {
        Ok(Some(a)) => Ok(Some(a)),
        Ok(None) => Ok(None),
        Err(e) => Err(Error::Variants(e)),
    }
}

/// Returns whether the buffers of an enumeration can be decoded at all.
pub fn is_enumeration_decodable(enumeration: &Enumeration) -> (yes: bool)
    ensures
        yes == enumeration_decodable(enumeration),
{
    match decode_enumeration(enumeration) {
        Ok(None) => false,
        _ => true,
    }
}

/// Returns a column whose cells are the variants of an enumeration.
pub fn array_from_enumeration(enumeration: &Enumeration) -> (result: Result<ArrowArray, Error>)
    requires
        enumeration_decodable(enumeration),
    ensures
        match result {
            Ok(a) => spec_array_from_enumeration(enumeration) == Ok::<ArrowArrayView, ErrorView>(
                a@,
            ) && a@.well_formed(),
            Err(e) => spec_array_from_enumeration(enumeration) == Err::<
                ArrowArrayView,
                ErrorView,
            >(e@),
        },
{
    match decode_enumeration(enumeration) {
        Ok(Some(a)) => Ok(a),
        Ok(None) => vstd::pervasive::unreached(),
        Err(e) => Err(e),
    }
}

} // verus!
