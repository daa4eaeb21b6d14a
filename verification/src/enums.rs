//! The closed sets of discriminants shared with the storage engine:
//! field datatypes, comparison operators and combination operators.
//!
//! Each set has one more variant, `Invalid`, which carries a discriminant
//! outside the set, so that a value which drifted out of range is reported
//! rather than lost.

use vstd::prelude::*;

verus! {

/// The native representation of a single value of a field.
#[derive(Clone, Copy, Debug, PartialEq, Eq, Structural)]
pub enum PhysicalType {
    Int8,
    Int16,
    Int32,
    Int64,
    UInt8,
    UInt16,
    UInt32,
    UInt64,
    /// IEEE-754 binary32, carried as its bit pattern.
    Float32,
    /// IEEE-754 binary64, carried as its bit pattern.
    Float64,
}

impl PhysicalType {
    /// The number of bytes which one value occupies.
    pub open spec fn spec_width(self) -> usize {
        match self {
            PhysicalType::Int8 | PhysicalType::UInt8 => 1,
            PhysicalType::Int16 | PhysicalType::UInt16 => 2,
            PhysicalType::Int32 | PhysicalType::UInt32 | PhysicalType::Float32 => 4,
            PhysicalType::Int64 | PhysicalType::UInt64 | PhysicalType::Float64 => 8,
        }
    }

    /// Returns the number of bytes which one value occupies.
    #[verifier::when_used_as_spec(spec_width)]
    pub fn width(self) -> (w: usize)
        ensures
            w == self.spec_width(),
    {
        match self {
            PhysicalType::Int8 | PhysicalType::UInt8 => 1,
            PhysicalType::Int16 | PhysicalType::UInt16 => 2,
            PhysicalType::Int32 | PhysicalType::UInt32 | PhysicalType::Float32 => 4,
            PhysicalType::Int64 | PhysicalType::UInt64 | PhysicalType::Float64 => 8,
        }
    }
}

/// The logical datatype of a field.
#[allow(non_camel_case_types)]
#[derive(Clone, Copy, Debug, PartialEq, Eq, Structural)]
pub enum Datatype {
    INT32,
    INT64,
    FLOAT32,
    FLOAT64,
    CHAR,
    INT8,
    UINT8,
    INT16,
    UINT16,
    UINT32,
    UINT64,
    STRING_ASCII,
    STRING_UTF8,
    STRING_UTF16,
    STRING_UTF32,
    STRING_UCS2,
    STRING_UCS4,
    ANY,
    DATETIME_YEAR,
    DATETIME_MONTH,
    DATETIME_WEEK,
    DATETIME_DAY,
    DATETIME_HR,
    DATETIME_MIN,
    DATETIME_SEC,
    DATETIME_MS,
    DATETIME_US,
    DATETIME_NS,
    DATETIME_PS,
    DATETIME_FS,
    DATETIME_AS,
    TIME_HR,
    TIME_MIN,
    TIME_SEC,
    TIME_MS,
    TIME_US,
    TIME_NS,
    TIME_PS,
    TIME_FS,
    TIME_AS,
    BLOB,
    BOOL,
    GEOM_WKB,
    GEOM_WKT,
    /// A discriminant which names no datatype.
    Invalid(u8),
}

impl Datatype {
    /// The datatype which a discriminant names.
    pub open spec fn spec_from_repr(repr: u8) -> Datatype {
        match repr {
            0 => Datatype::INT32,
            1 => Datatype::INT64,
            2 => Datatype::FLOAT32,
            3 => Datatype::FLOAT64,
            4 => Datatype::CHAR,
            5 => Datatype::INT8,
            6 => Datatype::UINT8,
            7 => Datatype::INT16,
            8 => Datatype::UINT16,
            9 => Datatype::UINT32,
            10 => Datatype::UINT64,
            11 => Datatype::STRING_ASCII,
            12 => Datatype::STRING_UTF8,
            13 => Datatype::STRING_UTF16,
            14 => Datatype::STRING_UTF32,
            15 => Datatype::STRING_UCS2,
            16 => Datatype::STRING_UCS4,
            17 => Datatype::ANY,
            18 => Datatype::DATETIME_YEAR,
            19 => Datatype::DATETIME_MONTH,
            20 => Datatype::DATETIME_WEEK,
            21 => Datatype::DATETIME_DAY,
            22 => Datatype::DATETIME_HR,
            23 => Datatype::DATETIME_MIN,
            24 => Datatype::DATETIME_SEC,
            25 => Datatype::DATETIME_MS,
            26 => Datatype::DATETIME_US,
            27 => Datatype::DATETIME_NS,
            28 => Datatype::DATETIME_PS,
            29 => Datatype::DATETIME_FS,
            30 => Datatype::DATETIME_AS,
            31 => Datatype::TIME_HR,
            32 => Datatype::TIME_MIN,
            33 => Datatype::TIME_SEC,
            34 => Datatype::TIME_MS,
            35 => Datatype::TIME_US,
            36 => Datatype::TIME_NS,
            37 => Datatype::TIME_PS,
            38 => Datatype::TIME_FS,
            39 => Datatype::TIME_AS,
            40 => Datatype::BLOB,
            41 => Datatype::BOOL,
            42 => Datatype::GEOM_WKB,
            43 => Datatype::GEOM_WKT,
            _ => Datatype::Invalid(repr),
        }
    }

    /// Returns the datatype which a discriminant names,
    /// or `Invalid` holding the discriminant if it names none.
    pub fn from_repr(repr: u8) -> (datatype: Datatype)
        ensures
            datatype == Datatype::spec_from_repr(repr),
            datatype.spec_is_valid() <==> repr <= 43,
            datatype.spec_repr() == repr,
    {
        match repr {
            0 => Datatype::INT32,
            1 => Datatype::INT64,
            2 => Datatype::FLOAT32,
            3 => Datatype::FLOAT64,
            4 => Datatype::CHAR,
            5 => Datatype::INT8,
            6 => Datatype::UINT8,
            7 => Datatype::INT16,
            8 => Datatype::UINT16,
            9 => Datatype::UINT32,
            10 => Datatype::UINT64,
            11 => Datatype::STRING_ASCII,
            12 => Datatype::STRING_UTF8,
            13 => Datatype::STRING_UTF16,
            14 => Datatype::STRING_UTF32,
            15 => Datatype::STRING_UCS2,
            16 => Datatype::STRING_UCS4,
            17 => Datatype::ANY,
            18 => Datatype::DATETIME_YEAR,
            19 => Datatype::DATETIME_MONTH,
            20 => Datatype::DATETIME_WEEK,
            21 => Datatype::DATETIME_DAY,
            22 => Datatype::DATETIME_HR,
            23 => Datatype::DATETIME_MIN,
            24 => Datatype::DATETIME_SEC,
            25 => Datatype::DATETIME_MS,
            26 => Datatype::DATETIME_US,
            27 => Datatype::DATETIME_NS,
            28 => Datatype::DATETIME_PS,
            29 => Datatype::DATETIME_FS,
            30 => Datatype::DATETIME_AS,
            31 => Datatype::TIME_HR,
            32 => Datatype::TIME_MIN,
            33 => Datatype::TIME_SEC,
            34 => Datatype::TIME_MS,
            35 => Datatype::TIME_US,
            36 => Datatype::TIME_NS,
            37 => Datatype::TIME_PS,
            38 => Datatype::TIME_FS,
            39 => Datatype::TIME_AS,
            40 => Datatype::BLOB,
            41 => Datatype::BOOL,
            42 => Datatype::GEOM_WKB,
            43 => Datatype::GEOM_WKT,
            _ => Datatype::Invalid(repr),
        }
    }

    /// The discriminant of a datatype.
    pub open spec fn spec_repr(&self) -> u8 {
        match self {
            Datatype::INT32 => 0,
            Datatype::INT64 => 1,
            Datatype::FLOAT32 => 2,
            Datatype::FLOAT64 => 3,
            Datatype::CHAR => 4,
            Datatype::INT8 => 5,
            Datatype::UINT8 => 6,
            Datatype::INT16 => 7,
            Datatype::UINT16 => 8,
            Datatype::UINT32 => 9,
            Datatype::UINT64 => 10,
            Datatype::STRING_ASCII => 11,
            Datatype::STRING_UTF8 => 12,
            Datatype::STRING_UTF16 => 13,
            Datatype::STRING_UTF32 => 14,
            Datatype::STRING_UCS2 => 15,
            Datatype::STRING_UCS4 => 16,
            Datatype::ANY => 17,
            Datatype::DATETIME_YEAR => 18,
            Datatype::DATETIME_MONTH => 19,
            Datatype::DATETIME_WEEK => 20,
            Datatype::DATETIME_DAY => 21,
            Datatype::DATETIME_HR => 22,
            Datatype::DATETIME_MIN => 23,
            Datatype::DATETIME_SEC => 24,
            Datatype::DATETIME_MS => 25,
            Datatype::DATETIME_US => 26,
            Datatype::DATETIME_NS => 27,
            Datatype::DATETIME_PS => 28,
            Datatype::DATETIME_FS => 29,
            Datatype::DATETIME_AS => 30,
            Datatype::TIME_HR => 31,
            Datatype::TIME_MIN => 32,
            Datatype::TIME_SEC => 33,
            Datatype::TIME_MS => 34,
            Datatype::TIME_US => 35,
            Datatype::TIME_NS => 36,
            Datatype::TIME_PS => 37,
            Datatype::TIME_FS => 38,
            Datatype::TIME_AS => 39,
            Datatype::BLOB => 40,
            Datatype::BOOL => 41,
            Datatype::GEOM_WKB => 42,
            Datatype::GEOM_WKT => 43,
            Datatype::Invalid(repr) => *repr,
        }
    }

    /// Returns the discriminant of this datatype.
    #[verifier::when_used_as_spec(spec_repr)]
    pub fn repr(&self) -> (repr: u8)
        ensures
            repr == self.spec_repr(),
    {
        match self {
            Datatype::INT32 => 0,
            Datatype::INT64 => 1,
            Datatype::FLOAT32 => 2,
            Datatype::FLOAT64 => 3,
            Datatype::CHAR => 4,
            Datatype::INT8 => 5,
            Datatype::UINT8 => 6,
            Datatype::INT16 => 7,
            Datatype::UINT16 => 8,
            Datatype::UINT32 => 9,
            Datatype::UINT64 => 10,
            Datatype::STRING_ASCII => 11,
            Datatype::STRING_UTF8 => 12,
            Datatype::STRING_UTF16 => 13,
            Datatype::STRING_UTF32 => 14,
            Datatype::STRING_UCS2 => 15,
            Datatype::STRING_UCS4 => 16,
            Datatype::ANY => 17,
            Datatype::DATETIME_YEAR => 18,
            Datatype::DATETIME_MONTH => 19,
            Datatype::DATETIME_WEEK => 20,
            Datatype::DATETIME_DAY => 21,
            Datatype::DATETIME_HR => 22,
            Datatype::DATETIME_MIN => 23,
            Datatype::DATETIME_SEC => 24,
            Datatype::DATETIME_MS => 25,
            Datatype::DATETIME_US => 26,
            Datatype::DATETIME_NS => 27,
            Datatype::DATETIME_PS => 28,
            Datatype::DATETIME_FS => 29,
            Datatype::DATETIME_AS => 30,
            Datatype::TIME_HR => 31,
            Datatype::TIME_MIN => 32,
            Datatype::TIME_SEC => 33,
            Datatype::TIME_MS => 34,
            Datatype::TIME_US => 35,
            Datatype::TIME_NS => 36,
            Datatype::TIME_PS => 37,
            Datatype::TIME_FS => 38,
            Datatype::TIME_AS => 39,
            Datatype::BLOB => 40,
            Datatype::BOOL => 41,
            Datatype::GEOM_WKB => 42,
            Datatype::GEOM_WKT => 43,
            Datatype::Invalid(repr) => *repr,
        }
    }

    /// Whether this is one of the datatypes of the closed set.
    pub open spec fn spec_is_valid(&self) -> bool {
        !(*self is Invalid)
    }

    /// Returns whether this is one of the datatypes of the closed set.
    #[verifier::when_used_as_spec(spec_is_valid)]
    pub fn is_valid(&self) -> (valid: bool)
        ensures
            valid == self.spec_is_valid(),
    {
        match self {
            Datatype::Invalid(_) => false,
            _ => true,
        }
    }

    /// The native representation of one value of this datatype.
    ///
    /// Datatypes without an exact native counterpart (dates, times, text,
    /// blobs) take the integer type of the same width in which they are
    /// stored. A `CHAR` is a signed byte.
    pub open spec fn spec_physical_type(&self) -> Option<PhysicalType> {
        match self {
            Datatype::CHAR
            | Datatype::INT8 => Some(PhysicalType::Int8),
            Datatype::INT16 => Some(PhysicalType::Int16),
            Datatype::INT32 => Some(PhysicalType::Int32),
            Datatype::INT64
            | Datatype::DATETIME_YEAR
            | Datatype::DATETIME_MONTH
            | Datatype::DATETIME_WEEK
            | Datatype::DATETIME_DAY
            | Datatype::DATETIME_HR
            | Datatype::DATETIME_MIN
            | Datatype::DATETIME_SEC
            | Datatype::DATETIME_MS
            | Datatype::DATETIME_US
            | Datatype::DATETIME_NS
            | Datatype::DATETIME_PS
            | Datatype::DATETIME_FS
            | Datatype::DATETIME_AS
            | Datatype::TIME_HR
            | Datatype::TIME_MIN
            | Datatype::TIME_SEC
            | Datatype::TIME_MS
            | Datatype::TIME_US
            | Datatype::TIME_NS
            | Datatype::TIME_PS
            | Datatype::TIME_FS
            | Datatype::TIME_AS => Some(PhysicalType::Int64),
            Datatype::UINT8
            | Datatype::STRING_ASCII
            | Datatype::STRING_UTF8
            | Datatype::ANY
            | Datatype::BLOB
            | Datatype::BOOL
            | Datatype::GEOM_WKB
            | Datatype::GEOM_WKT => Some(PhysicalType::UInt8),
            Datatype::UINT16
            | Datatype::STRING_UTF16
            | Datatype::STRING_UCS2 => Some(PhysicalType::UInt16),
            Datatype::UINT32
            | Datatype::STRING_UTF32
            | Datatype::STRING_UCS4 => Some(PhysicalType::UInt32),
            Datatype::UINT64 => Some(PhysicalType::UInt64),
            Datatype::FLOAT32 => Some(PhysicalType::Float32),
            Datatype::FLOAT64 => Some(PhysicalType::Float64),
            Datatype::Invalid(_) => None,
        }
    }

    /// Returns the native representation of one value of this datatype,
    /// or `None` if this is not a datatype of the closed set.
    #[verifier::when_used_as_spec(spec_physical_type)]
    pub fn physical_type(&self) -> (physical: Option<PhysicalType>)
        ensures
            physical == self.spec_physical_type(),
            physical is Some <==> self.spec_is_valid(),
    {
        match self {
            Datatype::CHAR
            | Datatype::INT8 => Some(PhysicalType::Int8),
            Datatype::INT16 => Some(PhysicalType::Int16),
            Datatype::INT32 => Some(PhysicalType::Int32),
            Datatype::INT64
            | Datatype::DATETIME_YEAR
            | Datatype::DATETIME_MONTH
            | Datatype::DATETIME_WEEK
            | Datatype::DATETIME_DAY
            | Datatype::DATETIME_HR
            | Datatype::DATETIME_MIN
            | Datatype::DATETIME_SEC
            | Datatype::DATETIME_MS
            | Datatype::DATETIME_US
            | Datatype::DATETIME_NS
            | Datatype::DATETIME_PS
            | Datatype::DATETIME_FS
            | Datatype::DATETIME_AS
            | Datatype::TIME_HR
            | Datatype::TIME_MIN
            | Datatype::TIME_SEC
            | Datatype::TIME_MS
            | Datatype::TIME_US
            | Datatype::TIME_NS
            | Datatype::TIME_PS
            | Datatype::TIME_FS
            | Datatype::TIME_AS => Some(PhysicalType::Int64),
            Datatype::UINT8
            | Datatype::STRING_ASCII
            | Datatype::STRING_UTF8
            | Datatype::ANY
            | Datatype::BLOB
            | Datatype::BOOL
            | Datatype::GEOM_WKB
            | Datatype::GEOM_WKT => Some(PhysicalType::UInt8),
            Datatype::UINT16
            | Datatype::STRING_UTF16
            | Datatype::STRING_UCS2 => Some(PhysicalType::UInt16),
            Datatype::UINT32
            | Datatype::STRING_UTF32
            | Datatype::STRING_UCS4 => Some(PhysicalType::UInt32),
            Datatype::UINT64 => Some(PhysicalType::UInt64),
            Datatype::FLOAT32 => Some(PhysicalType::Float32),
            Datatype::FLOAT64 => Some(PhysicalType::Float64),
            Datatype::Invalid(_) => None,
        }
    }

    /// The size in bytes of one value of this datatype; zero for `Invalid`.
    pub open spec fn spec_value_size(&self) -> usize {
        match self.spec_physical_type() {
            Some(physical) => physical.spec_width(),
            None => 0,
        }
    }

    /// Returns the size in bytes of one value of this datatype,
    /// and zero if this is not a datatype of the closed set.
    #[verifier::when_used_as_spec(spec_value_size)]
    pub fn value_size(&self) -> (size: usize)
        ensures
            size == self.spec_value_size(),
    {
        match self.physical_type() {
            Some(physical) => physical.width(),
            None => 0,
        }
    }

    /// Whether values of this datatype are text which a column holds as a
    /// string rather than as a list of bytes.
    pub open spec fn spec_is_text(&self) -> bool {
        *self is STRING_ASCII || *self is STRING_UTF8
    }

    /// Returns whether values of this datatype are text which a column holds
    /// as a string rather than as a list of bytes.
    #[verifier::when_used_as_spec(spec_is_text)]
    pub fn is_text(&self) -> (text: bool)
        ensures
            text == self.spec_is_text(),
    {
        match self {
            Datatype::STRING_ASCII | Datatype::STRING_UTF8 => true,
            _ => false,
        }
    }
}

/// The operator of a leaf of a query condition.
#[allow(non_camel_case_types)]
#[derive(Clone, Copy, Debug, PartialEq, Eq, Structural)]
pub enum QueryConditionOp {
    LT,
    LE,
    GT,
    GE,
    EQ,
    NE,
    IN,
    NOT_IN,
    ALWAYS_TRUE,
    ALWAYS_FALSE,
    /// A discriminant which names no operator.
    Invalid(u8),
}

impl QueryConditionOp {
    /// The operator which a discriminant names.
    pub open spec fn spec_from_repr(repr: u8) -> QueryConditionOp {
        match repr {
            0 => QueryConditionOp::LT,
            1 => QueryConditionOp::LE,
            2 => QueryConditionOp::GT,
            3 => QueryConditionOp::GE,
            4 => QueryConditionOp::EQ,
            5 => QueryConditionOp::NE,
            6 => QueryConditionOp::IN,
            7 => QueryConditionOp::NOT_IN,
            253 => QueryConditionOp::ALWAYS_TRUE,
            254 => QueryConditionOp::ALWAYS_FALSE,
            _ => QueryConditionOp::Invalid(repr),
        }
    }

    /// Returns the operator which a discriminant names,
    /// or `Invalid` holding the discriminant if it names none.
    pub fn from_repr(repr: u8) -> (op: QueryConditionOp)
        ensures
            op == QueryConditionOp::spec_from_repr(repr),
            op.spec_repr() == repr,
    {
        match repr {
            0 => QueryConditionOp::LT,
            1 => QueryConditionOp::LE,
            2 => QueryConditionOp::GT,
            3 => QueryConditionOp::GE,
            4 => QueryConditionOp::EQ,
            5 => QueryConditionOp::NE,
            6 => QueryConditionOp::IN,
            7 => QueryConditionOp::NOT_IN,
            253 => QueryConditionOp::ALWAYS_TRUE,
            254 => QueryConditionOp::ALWAYS_FALSE,
            _ => QueryConditionOp::Invalid(repr),
        }
    }

    /// The discriminant of an operator.
    pub open spec fn spec_repr(&self) -> u8 {
        match self {
            QueryConditionOp::LT => 0,
            QueryConditionOp::LE => 1,
            QueryConditionOp::GT => 2,
            QueryConditionOp::GE => 3,
            QueryConditionOp::EQ => 4,
            QueryConditionOp::NE => 5,
            QueryConditionOp::IN => 6,
            QueryConditionOp::NOT_IN => 7,
            QueryConditionOp::ALWAYS_TRUE => 253,
            QueryConditionOp::ALWAYS_FALSE => 254,
            QueryConditionOp::Invalid(repr) => *repr,
        }
    }

    /// Returns the discriminant of this operator.
    #[verifier::when_used_as_spec(spec_repr)]
    pub fn repr(&self) -> (repr: u8)
        ensures
            repr == self.spec_repr(),
    {
        match self {
            QueryConditionOp::LT => 0,
            QueryConditionOp::LE => 1,
            QueryConditionOp::GT => 2,
            QueryConditionOp::GE => 3,
            QueryConditionOp::EQ => 4,
            QueryConditionOp::NE => 5,
            QueryConditionOp::IN => 6,
            QueryConditionOp::NOT_IN => 7,
            QueryConditionOp::ALWAYS_TRUE => 253,
            QueryConditionOp::ALWAYS_FALSE => 254,
            QueryConditionOp::Invalid(repr) => *repr,
        }
    }

    /// Whether this operator tests membership in a set of values.
    pub open spec fn spec_is_set_membership(&self) -> bool {
        *self is IN || *self is NOT_IN
    }

    /// Returns whether this operator tests membership in a set of values.
    #[verifier::when_used_as_spec(spec_is_set_membership)]
    pub fn is_set_membership(&self) -> (set: bool)
        ensures
            set == self.spec_is_set_membership(),
    {
        match self {
            QueryConditionOp::IN | QueryConditionOp::NOT_IN => true,
            _ => false,
        }
    }
}

/// The operator of a combination node of a query condition.
#[allow(non_camel_case_types)]
#[derive(Clone, Copy, Debug, PartialEq, Eq, Structural)]
pub enum QueryConditionCombinationOp {
    AND,
    OR,
    NOT,
    /// A discriminant which names no combination operator.
    Invalid(u8),
}

impl QueryConditionCombinationOp {
    /// The combination operator which a discriminant names.
    pub open spec fn spec_from_repr(repr: u8) -> QueryConditionCombinationOp {
        match repr {
            0 => QueryConditionCombinationOp::AND,
            1 => QueryConditionCombinationOp::OR,
            2 => QueryConditionCombinationOp::NOT,
            _ => QueryConditionCombinationOp::Invalid(repr),
        }
    }

    /// Returns the combination operator which a discriminant names,
    /// or `Invalid` holding the discriminant if it names none.
    pub fn from_repr(repr: u8) -> (op: QueryConditionCombinationOp)
        ensures
            op == QueryConditionCombinationOp::spec_from_repr(repr),
            op.spec_repr() == repr,
    {
        match repr {
            0 => QueryConditionCombinationOp::AND,
            1 => QueryConditionCombinationOp::OR,
            2 => QueryConditionCombinationOp::NOT,
            _ => QueryConditionCombinationOp::Invalid(repr),
        }
    }

    /// The discriminant of a combination operator.
    pub open spec fn spec_repr(&self) -> u8 {
        match self {
            QueryConditionCombinationOp::AND => 0,
            QueryConditionCombinationOp::OR => 1,
            QueryConditionCombinationOp::NOT => 2,
            QueryConditionCombinationOp::Invalid(repr) => *repr,
        }
    }

    /// Returns the discriminant of this combination operator.
    #[verifier::when_used_as_spec(spec_repr)]
    pub fn repr(&self) -> (repr: u8)
        ensures
            repr == self.spec_repr(),
    {
        match self {
            QueryConditionCombinationOp::AND => 0,
            QueryConditionCombinationOp::OR => 1,
            QueryConditionCombinationOp::NOT => 2,
            QueryConditionCombinationOp::Invalid(repr) => *repr,
        }
    }
}

} // verus!
