//! Values in their native representation and their decoding from bytes.
//!
//! Bytes are read in little-endian order. A signed integer is read in two's
//! complement; a floating-point number is carried as its IEEE-754 bit
//! pattern and never interpreted.

use vstd::prelude::*;
use crate::enums::PhysicalType;

verus! {

/// One value of a field in its native representation.
#[derive(Clone, Copy, Debug, PartialEq, Eq, Structural)]
pub enum NativeValue {
    Int8(i8),
    Int16(i16),
    Int32(i32),
    Int64(i64),
    UInt8(u8),
    UInt16(u16),
    UInt32(u32),
    UInt64(u64),
    /// The bit pattern of an IEEE-754 binary32 number.
    Float32(u32),
    /// The bit pattern of an IEEE-754 binary64 number.
    Float64(u64),
}

impl NativeValue {
    pub open spec fn spec_physical_type(&self) -> PhysicalType {
        match self {
            NativeValue::Int8(_) => PhysicalType::Int8,
            NativeValue::Int16(_) => PhysicalType::Int16,
            NativeValue::Int32(_) => PhysicalType::Int32,
            NativeValue::Int64(_) => PhysicalType::Int64,
            NativeValue::UInt8(_) => PhysicalType::UInt8,
            NativeValue::UInt16(_) => PhysicalType::UInt16,
            NativeValue::UInt32(_) => PhysicalType::UInt32,
            NativeValue::UInt64(_) => PhysicalType::UInt64,
            NativeValue::Float32(_) => PhysicalType::Float32,
            NativeValue::Float64(_) => PhysicalType::Float64,
        }
    }

    /// Returns the native type of this value.
    #[verifier::when_used_as_spec(spec_physical_type)]
    pub fn physical_type(&self) -> (physical: PhysicalType)
        ensures
            physical == self.spec_physical_type(),
    {
        match self {
            NativeValue::Int8(_) => PhysicalType::Int8,
            NativeValue::Int16(_) => PhysicalType::Int16,
            NativeValue::Int32(_) => PhysicalType::Int32,
            NativeValue::Int64(_) => PhysicalType::Int64,
            NativeValue::UInt8(_) => PhysicalType::UInt8,
            NativeValue::UInt16(_) => PhysicalType::UInt16,
            NativeValue::UInt32(_) => PhysicalType::UInt32,
            NativeValue::UInt64(_) => PhysicalType::UInt64,
            NativeValue::Float32(_) => PhysicalType::Float32,
            NativeValue::Float64(_) => PhysicalType::Float64,
        }
    }

    /// The number which this value holds: the integer itself, or for a
    /// floating-point number its bit pattern read as an unsigned integer.
    pub open spec fn number(&self) -> int {
        match self {
            NativeValue::Int8(v) => *v as int,
            NativeValue::Int16(v) => *v as int,
            NativeValue::Int32(v) => *v as int,
            NativeValue::Int64(v) => *v as int,
            NativeValue::UInt8(v) => *v as int,
            NativeValue::UInt16(v) => *v as int,
            NativeValue::UInt32(v) => *v as int,
            NativeValue::UInt64(v) => *v as int,
            NativeValue::Float32(v) => *v as int,
            NativeValue::Float64(v) => *v as int,
        }
    }

    /// The bytes which hold this value.
    pub open spec fn bytes(&self) -> Seq<u8> {
        le_bytes(self.number(), self.spec_physical_type().spec_width() as int)
    }
}

/// Two to the power of eight times `width`, for the widths of native types.
pub open spec fn modulus(width: int) -> int {
    if width == 1 {
        0x100
    } else if width == 2 {
        0x1_0000
    } else if width == 4 {
        0x1_0000_0000
    } else {
        0x1_0000_0000_0000_0000
    }
}

/// The unsigned number which `bytes` hold in little-endian order, for the
/// lengths of native types; zero for any other length.
pub open spec fn le_unsigned(bytes: Seq<u8>) -> int {
    if bytes.len() == 1 {
        bytes[0] as int
    } else if bytes.len() == 2 {
        bytes[0] + 0x100 * bytes[1]
    } else if bytes.len() == 4 {
        bytes[0] + 0x100 * bytes[1] + 0x1_0000 * bytes[2] + 0x100_0000 * bytes[3]
    } else if bytes.len() == 8 {
        bytes[0] + 0x100 * bytes[1] + 0x1_0000 * bytes[2] + 0x100_0000 * bytes[3] + 0x1_0000_0000
            * bytes[4] + 0x100_0000_0000 * bytes[5] + 0x1_0000_0000_0000 * bytes[6]
            + 0x100_0000_0000_0000 * bytes[7]
    } else {
        0
    }
}

/// The signed number which `bytes` hold in little-endian two's complement.
pub open spec fn le_signed(bytes: Seq<u8>) -> int {
    let unsigned = le_unsigned(bytes);
    let modulus = modulus(bytes.len() as int);
    if 2 * unsigned >= modulus {
        unsigned - modulus
    } else {
        unsigned
    }
}

/// The `width` bytes which hold `value` in little-endian order,
/// a negative value in two's complement.
pub open spec fn le_bytes(value: int, width: int) -> Seq<u8> {
    let unsigned = if value < 0 {
        value + modulus(width)
    } else {
        value
    };
    Seq::new(width as nat, |i: int| ((unsigned / modulus_of_index(i)) % 0x100) as u8)
}

/// Two to the power of eight times `i`, for the byte positions of native types.
pub open spec fn modulus_of_index(i: int) -> int {
    if i == 0 {
        1
    } else if i == 1 {
        0x100
    } else if i == 2 {
        0x1_0000
    } else if i == 3 {
        0x100_0000
    } else if i == 4 {
        0x1_0000_0000
    } else if i == 5 {
        0x100_0000_0000
    } else if i == 6 {
        0x1_0000_0000_0000
    } else {
        0x100_0000_0000_0000
    }
}

/// The value of a native type which `bytes` hold.
/// `bytes` is as long as the type is wide.
pub open spec fn decode_native(physical: PhysicalType, bytes: Seq<u8>) -> NativeValue {
    match physical {
        PhysicalType::Int8 => NativeValue::Int8(le_signed(bytes) as i8),
        PhysicalType::Int16 => NativeValue::Int16(le_signed(bytes) as i16),
        PhysicalType::Int32 => NativeValue::Int32(le_signed(bytes) as i32),
        PhysicalType::Int64 => NativeValue::Int64(le_signed(bytes) as i64),
        PhysicalType::UInt8 => NativeValue::UInt8(le_unsigned(bytes) as u8),
        PhysicalType::UInt16 => NativeValue::UInt16(le_unsigned(bytes) as u16),
        PhysicalType::UInt32 => NativeValue::UInt32(le_unsigned(bytes) as u32),
        PhysicalType::UInt64 => NativeValue::UInt64(le_unsigned(bytes) as u64),
        PhysicalType::Float32 => NativeValue::Float32(le_unsigned(bytes) as u32),
        PhysicalType::Float64 => NativeValue::Float64(le_unsigned(bytes) as u64),
    }
}

/// Reads the unsigned number which `width` bytes of `bytes` hold from
/// position `start` on.
pub fn read_unsigned(bytes: &[u8], start: usize, width: usize) -> (value: u64)
    requires
        width == 1 || width == 2 || width == 4 || width == 8,
        start + width <= bytes@.len(),
    ensures
        value == le_unsigned(bytes@.subrange(start as int, start + width)),
        value < modulus(width as int),
{
    let ghost s = bytes@.subrange(start as int, start + width);
    if width == 1 {
        assert(s[0] == bytes@[start as int]);
        bytes[start] as u64
    } else if width == 2 {
        assert(s[0] == bytes@[start as int]);
        assert(s[1] == bytes@[start + 1]);
        bytes[start] as u64 + 0x100 * (bytes[start + 1] as u64)
    } else if width == 4 {
        assert(s[0] == bytes@[start as int]);
        assert(s[1] == bytes@[start + 1]);
        assert(s[2] == bytes@[start + 2]);
        assert(s[3] == bytes@[start + 3]);
        bytes[start] as u64 + 0x100 * (bytes[start + 1] as u64) + 0x1_0000 * (bytes[start
            + 2] as u64) + 0x100_0000 * (bytes[start + 3] as u64)
    } else {
        assert(s[0] == bytes@[start as int]);
        assert(s[1] == bytes@[start + 1]);
        assert(s[2] == bytes@[start + 2]);
        assert(s[3] == bytes@[start + 3]);
        assert(s[4] == bytes@[start + 4]);
        assert(s[5] == bytes@[start + 5]);
        assert(s[6] == bytes@[start + 6]);
        assert(s[7] == bytes@[start + 7]);
        bytes[start] as u64 + 0x100 * (bytes[start + 1] as u64) + 0x1_0000 * (bytes[start
            + 2] as u64) + 0x100_0000 * (bytes[start + 3] as u64) + 0x1_0000_0000 * (bytes[start
            + 4] as u64) + 0x100_0000_0000 * (bytes[start + 5] as u64) + 0x1_0000_0000_0000 * (
        bytes[start + 6] as u64) + 0x100_0000_0000_0000 * (bytes[start + 7] as u64)
    }
}

/// Reads the signed number which `width` bytes of `bytes` hold from
/// position `start` on.
pub fn read_signed(bytes: &[u8], start: usize, width: usize) -> (value: i64)
    requires
        width == 1 || width == 2 || width == 4 || width == 8,
        start + width <= bytes@.len(),
    ensures
        value == le_signed(bytes@.subrange(start as int, start + width)),
        -modulus(width as int) <= 2 * value < modulus(width as int),
{
    let unsigned = read_unsigned(bytes, start, width);
    if width == 8 {
        if unsigned >= 0x8000_0000_0000_0000 {
            let low: u64 = unsigned - 0x8000_0000_0000_0000;
            (low as i64) + i64::MIN
        } else {
            unsigned as i64
        }
    } else {
        let modulus: u64 = if width == 1 {
            0x100
        } else if width == 2 {
            0x1_0000
        } else {
            0x1_0000_0000
        };
        if 2 * unsigned >= modulus {
            (unsigned as i64) - (modulus as i64)
        } else {
            unsigned as i64
        }
    }
}

/// Reads the value of a native type which `bytes` hold from position
/// `start` on.
pub fn read_native(physical: PhysicalType, bytes: &[u8], start: usize) -> (value: NativeValue)
    requires
        start + physical.spec_width() <= bytes@.len(),
    ensures
        value == decode_native(physical, bytes@.subrange(start as int, start + physical.spec_width())),
        value.spec_physical_type() == physical,
{
    match physical {
        PhysicalType::Int8 => NativeValue::Int8(read_signed(bytes, start, 1) as i8),
        PhysicalType::Int16 => NativeValue::Int16(read_signed(bytes, start, 2) as i16),
        PhysicalType::Int32 => NativeValue::Int32(read_signed(bytes, start, 4) as i32),
        PhysicalType::Int64 => NativeValue::Int64(read_signed(bytes, start, 8)),
        PhysicalType::UInt8 => NativeValue::UInt8(read_unsigned(bytes, start, 1) as u8),
        PhysicalType::UInt16 => NativeValue::UInt16(read_unsigned(bytes, start, 2) as u16),
        PhysicalType::UInt32 => NativeValue::UInt32(read_unsigned(bytes, start, 4) as u32),
        PhysicalType::UInt64 => NativeValue::UInt64(read_unsigned(bytes, start, 8)),
        PhysicalType::Float32 => NativeValue::Float32(read_unsigned(bytes, start, 4) as u32),
        PhysicalType::Float64 => NativeValue::Float64(read_unsigned(bytes, start, 8)),
    }
}

/// Dividing by a power of 256 is dividing by 256 once more after the power
/// below it.
proof fn lemma_shift(value: int, i: int)
    requires
        0 <= value,
        0 <= i < 7,
    ensures
        value / modulus_of_index(i + 1) == (value / modulus_of_index(i)) / 0x100,
{
    vstd::arithmetic::div_mod::lemma_div_denominator(value, modulus_of_index(i), 0x100);
}

/// The bytes of a number within the range of its width hold that number.
pub proof fn lemma_le_unsigned_of_le_bytes(value: int, width: int)
    requires
        width == 1 || width == 2 || width == 4 || width == 8,
        0 <= value < modulus(width),
    ensures
        le_bytes(value, width).len() == width,
        le_unsigned(le_bytes(value, width)) == value,
{
    let b = le_bytes(value, width);
    let q0 = value;
    let q1 = q0 / 0x100;
    let q2 = q1 / 0x100;
    let q3 = q2 / 0x100;
    let q4 = q3 / 0x100;
    let q5 = q4 / 0x100;
    let q6 = q5 / 0x100;
    let q7 = q6 / 0x100;
    lemma_shift(value, 0);
    lemma_shift(value, 1);
    lemma_shift(value, 2);
    lemma_shift(value, 3);
    lemma_shift(value, 4);
    lemma_shift(value, 5);
    lemma_shift(value, 6);
    assert(value / modulus_of_index(0) == q0);
    assert(value / modulus_of_index(1) == q1);
    assert(value / modulus_of_index(2) == q2);
    assert(value / modulus_of_index(3) == q3);
    assert(value / modulus_of_index(4) == q4);
    assert(value / modulus_of_index(5) == q5);
    assert(value / modulus_of_index(6) == q6);
    assert(value / modulus_of_index(7) == q7);
    assert(b.len() == width);
    assert(b[0] == (q0 % 0x100) as u8);
    if width >= 2 {
        assert(b[1] == (q1 % 0x100) as u8);
    }
    if width >= 4 {
        assert(b[2] == (q2 % 0x100) as u8);
        assert(b[3] == (q3 % 0x100) as u8);
    }
    if width == 8 {
        assert(b[4] == (q4 % 0x100) as u8);
        assert(b[5] == (q5 % 0x100) as u8);
        assert(b[6] == (q6 % 0x100) as u8);
        assert(b[7] == (q7 % 0x100) as u8);
    }
}

/// Writes the low `width` bytes of `unsigned` in little-endian order.
fn write_unsigned(unsigned: u64, width: usize) -> (bytes: Vec<u8>)
    requires
        width == 1 || width == 2 || width == 4 || width == 8,
        unsigned < modulus(width as int),
    ensures
        bytes@ == le_bytes(unsigned as int, width as int),
{
    let mut bytes: Vec<u8> = Vec::with_capacity(width);
    let mut rest: u64 = unsigned;
    let mut i: usize = 0;
    while i < width
        invariant
            i <= width <= 8,
            rest == (unsigned as int) / modulus_of_index(i as int) || i == 8,
            bytes@.len() == i,
            forall|j: int|
                0 <= j < i ==> #[trigger] bytes@[j] == (((unsigned as int) / modulus_of_index(j))
                    % 0x100) as u8,
        decreases width - i,
    {
        bytes.push((rest % 0x100) as u8);
        proof {
            if i < 7 {
                lemma_shift(unsigned as int, i as int);
            }
        }
        rest = rest / 0x100;
        i += 1;
    }
    assert(bytes@ =~= le_bytes(unsigned as int, width as int));
    bytes
}

impl NativeValue {
    /// Returns the bytes which hold this value.
    pub fn to_bytes(&self) -> (bytes: Vec<u8>)
        ensures
            bytes@ == self.bytes(),
            bytes@.len() == self.spec_physical_type().spec_width(),
    {
        match self {
            NativeValue::Int8(v) => {
                let unsigned: u64 = if *v < 0 {
                    (*v as i16 + 0x100) as u64
                } else {
                    *v as u64
                };
                write_unsigned(unsigned, 1)
            },
            NativeValue::Int16(v) => {
                let unsigned: u64 = if *v < 0 {
                    (*v as i32 + 0x1_0000) as u64
                } else {
                    *v as u64
                };
                write_unsigned(unsigned, 2)
            },
            NativeValue::Int32(v) => {
                let unsigned: u64 = if *v < 0 {
                    (*v as i64 + 0x1_0000_0000) as u64
                } else {
                    *v as u64
                };
                write_unsigned(unsigned, 4)
            },
            NativeValue::Int64(v) => {
                let unsigned: u64 = if *v < 0 {
                    (*v - i64::MIN) as u64 + 0x8000_0000_0000_0000
                } else {
                    *v as u64
                };
                write_unsigned(unsigned, 8)
            },
            NativeValue::UInt8(v) => write_unsigned(*v as u64, 1),
            NativeValue::UInt16(v) => write_unsigned(*v as u64, 2),
            NativeValue::UInt32(v) => write_unsigned(*v as u64, 4),
            NativeValue::UInt64(v) => write_unsigned(*v, 8),
            NativeValue::Float32(v) => write_unsigned(*v as u64, 4),
            NativeValue::Float64(v) => write_unsigned(*v, 8),
        }
    }
}

/// Decoding the bytes of a value gives the value back.
pub proof fn lemma_decode_bytes(value: NativeValue)
    ensures
        value.bytes().len() == value.spec_physical_type().spec_width(),
        decode_native(value.spec_physical_type(), value.bytes()) == value,
{
    let width = value.spec_physical_type().spec_width() as int;
    let number = value.number();
    let unsigned = if number < 0 {
        number + modulus(width)
    } else {
        number
    };
    lemma_le_unsigned_of_le_bytes(unsigned, width);
    assert(le_bytes(number, width) =~= le_bytes(unsigned, width));
}

} // verus!
