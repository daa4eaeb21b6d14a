//! The shape of an array schema as far as predicates need it:
//! the fields (dimensions and attributes), how many values a cell of each
//! field holds, and the enumerations which attributes refer to.
//!
//! Names are held as the bytes which the storage engine holds. Fields are
//! found by these bytes; a name is text only if the bytes are valid UTF-8.

use vstd::prelude::*;
use vstd::string::StringSliceAdditionalSpecFns;
use crate::enums::Datatype;
use crate::misc::{Utf8Error, bytes_equal, name_from_bytes, name_outcome, spec_name};

verus! {

/// The number of values which each cell of a field holds.
#[derive(Clone, Copy, Debug, PartialEq, Eq, Structural)]
pub enum CellValNum {
    /// Cells of this field each contain exactly one value.
    Single,
    /// Cells of this field each contain a fixed number of values.
    Fixed(u32),
    /// Cells of this field each contain a variable number of values.
    Var,
}

impl CellValNum {
    /// The cell value count which the storage engine's number stands for.
    ///
    /// One is a single value, the largest number marks a variable count,
    /// zero is no count at all and every other number is a fixed count.
    pub open spec fn spec_from_cxx(cell_val_num: u32) -> Option<CellValNum> {
        if cell_val_num == 1 {
            Some(CellValNum::Single)
        } else if cell_val_num == u32::MAX {
            Some(CellValNum::Var)
        } else if cell_val_num == 0 {
            None
        } else {
            Some(CellValNum::Fixed(cell_val_num))
        }
    }

    /// Returns the cell value count which the storage engine's number stands
    /// for, or `None` for zero.
    pub fn from_cxx(cell_val_num: u32) -> (result: Option<CellValNum>)
        ensures
            result == CellValNum::spec_from_cxx(cell_val_num),
            result matches Some(c) ==> c.spec_to_cxx() == cell_val_num,
    {
        if cell_val_num == 1 {
            Some(CellValNum::Single)
        } else if cell_val_num == u32::MAX {
            Some(CellValNum::Var)
        } else if cell_val_num == 0 {
            None
        } else {
            Some(CellValNum::Fixed(cell_val_num))
        }
    }

    /// The storage engine's number for this cell value count.
    pub open spec fn spec_to_cxx(&self) -> u32 {
        match self {
            CellValNum::Single => 1,
            CellValNum::Fixed(n) => *n,
            CellValNum::Var => u32::MAX,
        }
    }

    /// Returns the storage engine's number for this cell value count.
    #[verifier::when_used_as_spec(spec_to_cxx)]
    pub fn to_cxx(&self) -> (n: u32)
        ensures
            n == self.spec_to_cxx(),
    {
        match self {
            CellValNum::Single => 1,
            CellValNum::Fixed(n) => *n,
            CellValNum::Var => u32::MAX,
        }
    }
}

impl From<CellValNum> for u32 {
    /// Returns the storage engine's number for a cell value count.
    fn from(value: CellValNum) -> (n: u32) {
        value.to_cxx()
    }
}

impl vstd::std_specs::convert::FromSpecImpl<CellValNum> for u32 {
    open spec fn obeys_from_spec() -> bool {
        true
    }

    open spec fn from_spec(value: CellValNum) -> u32 {
        value.spec_to_cxx()
    }
}

/// An attribute of an array.
#[derive(Clone, Debug)]
pub struct Attribute {
    pub name: Vec<u8>,
    pub datatype: Datatype,
    pub cell_val_num: CellValNum,
    pub nullable: bool,
    /// The name of the enumeration whose variants the stored keys refer to.
    pub enumeration_name: Option<Vec<u8>>,
}

/// A dimension of an array. The cells of a dimension are never null.
#[derive(Clone, Debug)]
pub struct Dimension {
    pub name: Vec<u8>,
    pub datatype: Datatype,
    pub cell_val_num: CellValNum,
}

/// A named dictionary of variant values.
#[derive(Clone, Debug)]
pub struct Enumeration {
    pub name: Vec<u8>,
    pub datatype: Datatype,
    pub cell_val_num: CellValNum,
    /// The values of the variants.
    pub data: Vec<u8>,
    /// The byte offsets of the variants in `data`, if their length varies.
    pub offsets: Option<Vec<u8>>,
}

/// An enumeration which a schema declares.
/// The variants of an enumeration are loaded separately from the schema.
#[derive(Clone, Debug)]
pub struct DeclaredEnumeration {
    pub name: Vec<u8>,
    /// The enumeration, once it has been loaded.
    pub loaded: Option<Enumeration>,
}

/// A dimension or an attribute.
#[derive(Clone, Copy, Debug)]
pub enum Field<'a> {
    Attribute(&'a Attribute),
    Dimension(&'a Dimension),
}

impl<'a> Field<'a> {
    /// The bytes of the name of this field.
    pub open spec fn spec_name_cxx(&self) -> Seq<u8> {
        match self {
            Field::Attribute(a) => a.name@,
            Field::Dimension(d) => d.name@,
        }
    }

    /// Returns the bytes of the name of this field.
    pub fn name_cxx(&self) -> (name: &'a Vec<u8>)
        ensures
            name@ == self.spec_name_cxx(),
    {
        match self {
            Field::Attribute(a) => &a.name,
            Field::Dimension(d) => &d.name,
        }
    }

    /// Returns the name of this field as text.
    /// Fails if the name is not valid UTF-8.
    pub fn name(&self) -> (name: Result<&'a str, Utf8Error>)
        ensures
            name_outcome(name) == spec_name(self.spec_name_cxx()),
    {
        name_from_bytes(self.name_cxx().as_slice())
    }

    pub open spec fn spec_datatype(&self) -> Datatype {
        match self {
            Field::Attribute(a) => a.datatype,
            Field::Dimension(d) => d.datatype,
        }
    }

    /// Returns the datatype of the values of this field.
    #[verifier::when_used_as_spec(spec_datatype)]
    pub fn datatype(&self) -> (datatype: Datatype)
        ensures
            datatype == self.spec_datatype(),
    {
        match self {
            Field::Attribute(a) => a.datatype,
            Field::Dimension(d) => d.datatype,
        }
    }

    pub open spec fn spec_cell_val_num(&self) -> CellValNum {
        match self {
            Field::Attribute(a) => a.cell_val_num,
            Field::Dimension(d) => d.cell_val_num,
        }
    }

    /// Returns the number of values in each cell of this field.
    #[verifier::when_used_as_spec(spec_cell_val_num)]
    pub fn cell_val_num(&self) -> (cell_val_num: CellValNum)
        ensures
            cell_val_num == self.spec_cell_val_num(),
    {
        match self {
            Field::Attribute(a) => a.cell_val_num,
            Field::Dimension(d) => d.cell_val_num,
        }
    }

    /// Whether cells of this field may be null. Dimensions never are.
    pub open spec fn spec_nullable(&self) -> bool {
        match self {
            Field::Attribute(a) => a.nullable,
            Field::Dimension(_) => false,
        }
    }

    /// Returns whether cells of this field may be null.
    #[verifier::when_used_as_spec(spec_nullable)]
    pub fn nullable(&self) -> (nullable: bool)
        ensures
            nullable == self.spec_nullable(),
    {
        match self {
            Field::Attribute(a) => a.nullable,
            Field::Dimension(_) => false,
        }
    }

    /// The bytes of the name of the enumeration of this field.
    /// Dimensions have none.
    pub open spec fn spec_enumeration_name_cxx(&self) -> Option<Seq<u8>> {
        match self {
            Field::Attribute(a) => match a.enumeration_name {
                Some(name) => Some(name@),
                None => None,
            },
            Field::Dimension(_) => None,
        }
    }

    /// Returns the bytes of the name of the enumeration of this field, if
    /// it has one.
    pub fn enumeration_name_cxx(&self) -> (name: Option<&'a Vec<u8>>)
        ensures
            match name {
                Some(name) => self.spec_enumeration_name_cxx() == Some(name@),
                None => self.spec_enumeration_name_cxx() is None,
            },
    {
        match self {
            Field::Attribute(a) => match &a.enumeration_name {
                Some(name) => Some(name),
                None => None,
            },
            Field::Dimension(_) => None,
        }
    }

    /// Returns the name of the enumeration of this field as text, if it
    /// has one. Fails if the name is not valid UTF-8.
    pub fn enumeration_name(&self) -> (name: Option<Result<&'a str, Utf8Error>>)
        ensures
            match name {
                Some(name) => self.spec_enumeration_name_cxx() matches Some(bytes)
                    && name_outcome(name) == spec_name(bytes),
                None => self.spec_enumeration_name_cxx() is None,
            },
    {
        match self.enumeration_name_cxx() {
            Some(name) => Some(name_from_bytes(name.as_slice())),
            None => None,
        }
    }
}

/// The first index at or after `start` of an attribute called `name`.
pub open spec fn find_attribute(attributes: Seq<Attribute>, name: Seq<u8>, start: int) -> Option<int>
    decreases attributes.len() - start,
{
    if start < 0 || start >= attributes.len() {
        None
    } else if attributes[start].name@ == name {
        Some(start)
    } else {
        find_attribute(attributes, name, start + 1)
    }
}

/// The first index at or after `start` of a dimension called `name`.
pub open spec fn find_dimension(dimensions: Seq<Dimension>, name: Seq<u8>, start: int) -> Option<int>
    decreases dimensions.len() - start,
{
    if start < 0 || start >= dimensions.len() {
        None
    } else if dimensions[start].name@ == name {
        Some(start)
    } else {
        find_dimension(dimensions, name, start + 1)
    }
}

/// The first index at or after `start` of a declared enumeration called `name`.
pub open spec fn find_enumeration(
    enumerations: Seq<DeclaredEnumeration>,
    name: Seq<u8>,
    start: int,
) -> Option<int>
    decreases enumerations.len() - start,
{
    if start < 0 || start >= enumerations.len() {
        None
    } else if enumerations[start].name@ == name {
        Some(start)
    } else {
        find_enumeration(enumerations, name, start + 1)
    }
}

/// The fields of an array and the enumerations it declares.
#[derive(Clone, Debug)]
pub struct ArraySchema {
    pub dimensions: Vec<Dimension>,
    pub attributes: Vec<Attribute>,
    pub enumerations: Vec<DeclaredEnumeration>,
}

impl ArraySchema {
    /// The number of fields: dimensions and attributes together.
    pub open spec fn spec_field_num(&self) -> nat {
        self.dimensions@.len() + self.attributes@.len()
    }

    /// The field at a position: the dimensions come first, in their order,
    /// and the attributes follow in theirs.
    pub open spec fn spec_field_at(&self, i: int) -> Field<'_> {
        if i < self.dimensions@.len() {
            Field::Dimension(&self.dimensions@[i])
        } else {
            Field::Attribute(&self.attributes@[i - self.dimensions@.len()])
        }
    }

    /// Returns all of the fields of this schema: the dimensions in their
    /// order, followed by the attributes in theirs.
    pub fn fields(&self) -> (fields: Vec<Field<'_>>)
        ensures
            fields@.len() == self.spec_field_num(),
            forall|i: int| 0 <= i < fields@.len() ==> fields@[i] == #[trigger] self.spec_field_at(i),
    {
        let mut fields: Vec<Field<'_>> = Vec::new();
        let mut d: usize = 0;
        while d < self.dimensions.len()
            invariant
                d <= self.dimensions@.len(),
                fields@.len() == d,
                forall|i: int| 0 <= i < d ==> fields@[i] == #[trigger] self.spec_field_at(i),
            decreases self.dimensions@.len() - d,
        {
            fields.push(Field::Dimension(&self.dimensions[d]));
            d += 1;
        }
        let mut a: usize = 0;
        while a < self.attributes.len()
            invariant
                a <= self.attributes@.len(),
                fields@.len() == self.dimensions@.len() + a,
                forall|i: int| 0 <= i < fields@.len() ==> fields@[i] == #[trigger] self.spec_field_at(i),
            decreases self.attributes@.len() - a,
        {
            fields.push(Field::Attribute(&self.attributes[a]));
            a += 1;
        }
        fields
    }

    /// Returns the attributes of this schema in their order.
    pub fn attributes(&self) -> (attributes: &Vec<Attribute>)
        ensures
            attributes == &self.attributes,
    {
        &self.attributes
    }

    /// Returns the dimensions of this schema in their order.
    pub fn dimensions(&self) -> (dimensions: &Vec<Dimension>)
        ensures
            dimensions == &self.dimensions,
    {
        &self.dimensions
    }

    /// The field whose name is the bytes `name`: the first attribute of
    /// that name, or else the first dimension of that name.
    pub open spec fn spec_field(&self, name: Seq<u8>) -> Option<Field<'_>> {
        match find_attribute(self.attributes@, name, 0) {
            Some(a) => Some(Field::Attribute(&self.attributes@[a])),
            None => match find_dimension(self.dimensions@, name, 0) {
                Some(d) => Some(Field::Dimension(&self.dimensions@[d])),
                None => None,
            },
        }
    }

    /// Returns the field whose name is the bytes `name`, looking among the
    /// attributes first and then among the dimensions, or `None` if there
    /// is no such field.
    pub fn field_cxx(&self, name: &[u8]) -> (field: Option<Field<'_>>)
        ensures
            field == self.spec_field(name@),
            field matches Some(f) ==> f.spec_name_cxx() == name@,
    {
        let mut a: usize = 0;
        while a < self.attributes.len()
            invariant
                a <= self.attributes@.len(),
                find_attribute(self.attributes@, name@, 0) == find_attribute(
                    self.attributes@,
                    name@,
                    a as int,
                ),
            decreases self.attributes@.len() - a,
        {
            if bytes_equal(self.attributes[a].name.as_slice(), name) {
                return Some(Field::Attribute(&self.attributes[a]));
            }
            a += 1;
        }
        let mut d: usize = 0;
        while d < self.dimensions.len()
            invariant
                d <= self.dimensions@.len(),
                find_attribute(self.attributes@, name@, 0) is None,
                find_dimension(self.dimensions@, name@, 0) == find_dimension(
                    self.dimensions@,
                    name@,
                    d as int,
                ),
            decreases self.dimensions@.len() - d,
        {
            if bytes_equal(self.dimensions[d].name.as_slice(), name) {
                return Some(Field::Dimension(&self.dimensions[d]));
            }
            d += 1;
        }
        None
    }

    /// Returns the field called `name`, looking among the attributes first
    /// and then among the dimensions, or `None` if there is no such field.
    pub fn field(&self, name: &str) -> (field: Option<Field<'_>>)
        ensures
            field == self.spec_field(name.spec_bytes()),
            field matches Some(f) ==> f.spec_name_cxx() == name.spec_bytes(),
    {
        self.field_cxx(name.as_bytes())
    }

    /// Whether this schema declares an enumeration called `name`.
    pub open spec fn spec_has_enumeration(&self, name: Seq<u8>) -> bool {
        find_enumeration(self.enumerations@, name, 0) is Some
    }

    /// The enumeration called `name`, if this schema declares it and its
    /// variants have been loaded.
    pub open spec fn spec_enumeration(&self, name: Seq<u8>) -> Option<Enumeration> {
        match find_enumeration(self.enumerations@, name, 0) {
            Some(e) => self.enumerations@[e].loaded,
            None => None,
        }
    }

    /// Returns the position of the first declared enumeration called `name`.
    fn enumeration_index(&self, name: &[u8]) -> (index: Option<usize>)
        ensures
            match index {
                Some(e) => find_enumeration(self.enumerations@, name@, 0) == Some(e as int)
                    && e < self.enumerations@.len(),
                None => find_enumeration(self.enumerations@, name@, 0) is None,
            },
    {
        let mut e: usize = 0;
        while e < self.enumerations.len()
            invariant
                e <= self.enumerations@.len(),
                find_enumeration(self.enumerations@, name@, 0) == find_enumeration(
                    self.enumerations@,
                    name@,
                    e as int,
                ),
            decreases self.enumerations@.len() - e,
        {
            if bytes_equal(self.enumerations[e].name.as_slice(), name) {
                return Some(e);
            }
            e += 1;
        }
        None
    }

    /// Returns whether this schema declares an enumeration called `name`.
    pub fn has_enumeration(&self, name: &[u8]) -> (declared: bool)
        ensures
            declared == self.spec_has_enumeration(name@),
    {
        self.enumeration_index(name).is_some()
    }

    /// Returns the enumeration called `name` if this schema declares it and
    /// its variants have been loaded.
    pub fn enumeration(&self, name: &[u8]) -> (enumeration: Option<&Enumeration>)
        ensures
            match enumeration {
                Some(e) => self.spec_enumeration(name@) == Some(*e),
                None => self.spec_enumeration(name@) is None,
            },
    {
        match self.enumeration_index(name) {
            Some(e) => match &self.enumerations[e].loaded {
                Some(enumeration) => Some(enumeration),
                None => None,
            },
            None => None,
        }
    }
}

} // verus!
