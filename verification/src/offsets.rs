//! Conversion of the offsets of variable-length cells.
//!
//! The storage engine counts offsets in bytes; a column counts them in
//! elements and holds one more offset than it has cells, so that cell `i`
//! spans the elements from offset `i` up to offset `i + 1`.
//! Because the units differ, the converted offsets are always new memory.

use vstd::prelude::*;
use vstd::arithmetic::div_mod::lemma_fundamental_div_mod_converse;
use crate::native::{le_signed, read_signed};

verus! {

/// Why a run of offsets could not be converted.
#[derive(Clone, Copy, Debug, PartialEq, Eq, Structural)]
pub enum Error {
    /// An offset is not a multiple of the size of a value.
    NonIntegralOffsets,
    /// The bytes of the offsets are not a whole number of 64-bit integers.
    UnalignedOffsets,
    /// The first offset, given here in elements, is negative.
    NegativeOffset(i64),
    /// An offset is greater than the one after it. Holds the index of the
    /// first such offset and the two offsets, in elements.
    DescendingOffsets(usize, i64, i64),
}

/// Whether `offsets` delimit cells: there is at least one offset, the first
/// is not negative and none is greater than the one after it.
pub open spec fn valid_offsets(offsets: Seq<i64>) -> bool {
    &&& offsets.len() > 0
    &&& offsets[0] >= 0
    &&& forall|i: int| 0 <= i < offsets.len() - 1 ==> offsets[i] <= #[trigger] offsets[i + 1]
}

/// Offsets in elements which delimit the cells of a variable-length column.
pub struct OffsetBuffer {
    offsets: Vec<i64>,
}

impl View for OffsetBuffer {
    type V = Seq<i64>;

    closed spec fn view(&self) -> Seq<i64> {
        self.offsets@
    }
}

impl OffsetBuffer {
    #[verifier::type_invariant]
    spec fn well_formed(&self) -> bool {
        valid_offsets(self.offsets@)
    }

    /// Returns the offsets.
    pub fn as_slice(&self) -> (offsets: &[i64])
        ensures
            offsets@ == self@,
            valid_offsets(offsets@),
    {
        proof {
            use_type_invariant(self);
        }
        self.offsets.as_slice()
    }

    /// Returns the number of offsets, which is one more than the number of
    /// cells.
    pub fn len(&self) -> (len: usize)
        ensures
            len == self@.len(),
            len > 0,
    {
        proof {
            use_type_invariant(self);
        }
        self.offsets.len()
    }

    /// Returns the last offset, at which the values of the last cell end.
    pub fn last(&self) -> (offset: i64)
        ensures
            offset == self@.last(),
            offset >= 0,
            valid_offsets(self@),
    {
        proof {
            use_type_invariant(self);
            lemma_valid_offsets_ordered(self.offsets@, 0, self.offsets@.len() - 1);
        }
        self.offsets[self.offsets.len() - 1]
    }

    /// Returns the offset at position `i`.
    pub fn get(&self, i: usize) -> (offset: i64)
        requires
            i < self@.len(),
        ensures
            offset == self@[i as int],
            offset >= 0,
    {
        proof {
            use_type_invariant(self);
            lemma_valid_offsets_ordered(self.offsets@, 0, i as int);
        }
        self.offsets[i]
    }
}

/// Offsets which delimit cells are ordered over any distance.
pub proof fn lemma_valid_offsets_ordered(offsets: Seq<i64>, i: int, j: int)
    requires
        valid_offsets(offsets),
        0 <= i <= j < offsets.len(),
    ensures
        0 <= offsets[i] <= offsets[j],
    decreases j,
{
    if i < j {
        lemma_valid_offsets_ordered(offsets, i, j - 1);
        assert(offsets[j - 1] <= offsets[(j - 1) + 1]);
    } else if 0 < i {
        lemma_valid_offsets_ordered(offsets, 0, i - 1);
        assert(offsets[i - 1] <= offsets[(i - 1) + 1]);
    }
}

/// The 64-bit integers which `bytes` hold, eight bytes each.
/// Bytes beyond the last whole integer are left out.
pub open spec fn raw_offsets(bytes: Seq<u8>) -> Seq<i64> {
    Seq::new(bytes.len() / 8, |i: int| le_signed(bytes.subrange(8 * i, 8 * i + 8)) as i64)
}

/// Whether every offset is a multiple of `value_size`.
pub open spec fn all_integral(value_size: int, raw: Seq<i64>) -> bool {
    forall|i: int| 0 <= i < raw.len() ==> (#[trigger] raw[i]) as int % value_size == 0
}

/// The offsets in elements of `value_size` bytes which stand for the byte
/// offsets `raw`.
pub open spec fn element_offsets(value_size: int, raw: Seq<i64>) -> Seq<i64> {
    Seq::new(raw.len(), |i: int| ((raw[i] as int) / value_size) as i64)
}

/// The first index at or after `start` of an offset which is greater than
/// the offset after it.
pub open spec fn first_descent(offsets: Seq<i64>, start: int) -> Option<int>
    decreases offsets.len() - start,
{
    if start < 0 || start + 1 >= offsets.len() {
        None
    } else if offsets[start] > offsets[start + 1] {
        Some(start)
    } else {
        first_descent(offsets, start + 1)
    }
}

/// The outcome of checking offsets in elements: the offsets themselves if
/// they delimit cells, and else what is wrong with them. A negative first
/// offset is reported before a descent. There is at least one offset.
pub open spec fn checked(offsets: Seq<i64>) -> Result<Seq<i64>, Error> {
    if offsets[0] < 0 {
        Err(Error::NegativeOffset(offsets[0]))
    } else {
        match first_descent(offsets, 0) {
            Some(i) => Err(Error::DescendingOffsets(i as usize, offsets[i], offsets[i + 1])),
            None => Ok(offsets),
        }
    }
}

/// The outcome of converting byte offsets to offsets in elements of
/// `value_size` bytes. There is at least one offset.
pub open spec fn converted(value_size: int, raw: Seq<i64>) -> Result<Seq<i64>, Error> {
    if !all_integral(value_size, raw) {
        Err(Error::NonIntegralOffsets)
    } else {
        checked(element_offsets(value_size, raw))
    }
}

/// The outcome of converting the byte offsets which `bytes` hold.
pub open spec fn converted_bytes(value_size: int, bytes: Seq<u8>) -> Result<Seq<i64>, Error> {
    if bytes.len() % 8 != 0 {
        Err(Error::UnalignedOffsets)
    } else {
        converted(value_size, raw_offsets(bytes))
    }
}

/// The outcome of converting the byte offsets which `bytes` hold and
/// closing them with `num_values`, the number of elements in all cells,
/// as the last offset.
pub open spec fn converted_bytes_and_num_values(
    value_size: int,
    bytes: Seq<u8>,
    num_values: int,
) -> Result<Seq<i64>, Error> {
    if bytes.len() % 8 != 0 {
        Err(Error::UnalignedOffsets)
    } else if !all_integral(value_size, raw_offsets(bytes)) {
        Err(Error::NonIntegralOffsets)
    } else {
        checked(element_offsets(value_size, raw_offsets(bytes)).push(num_values as i64))
    }
}

/// What a conversion returned, with the buffer replaced by its offsets.
pub open spec fn outcome(result: Result<OffsetBuffer, Error>) -> Result<Seq<i64>, Error> {
    match result {
        Ok(buffer) => Ok(buffer@),
        Err(e) => Err(e),
    }
}

/// Offsets without a descent which start at zero or above delimit cells.
proof fn lemma_no_descent(offsets: Seq<i64>, start: int)
    requires
        0 <= start,
        first_descent(offsets, start) is None,
    ensures
        forall|i: int| start <= i < offsets.len() - 1 ==> offsets[i] <= #[trigger] offsets[i + 1],
    decreases offsets.len() - start,
{
    if start + 1 < offsets.len() {
        lemma_no_descent(offsets, start + 1);
    }
}

/// Divides a byte offset by the size of a value.
/// Returns `None` if the offset is not a multiple of the size.
fn try_element_offset(offset: i64, value_size: i64) -> (element: Option<i64>)
    requires
        value_size > 0,
    ensures
        match element {
            Some(e) => (offset as int) % (value_size as int) == 0 && e == (offset as int) / (
                value_size as int),
            None => (offset as int) % (value_size as int) != 0,
        },
{
    if offset >= 0 {
        if offset % value_size == 0 {
            Some(offset / value_size)
        } else {
            None
        }
    } else {
        // Work on `-(offset + 1)`, which is not negative and cannot overflow.
        let below: i64 = -(offset + 1);
        let quotient: i64 = below / value_size;
        let remainder: i64 = below % value_size;
        proof {
            let d = value_size as int;
            assert(below == d * quotient + remainder) by {
                vstd::arithmetic::div_mod::lemma_fundamental_div_mod(below as int, d);
            }
            if remainder == d - 1 {
                assert(offset == (-quotient - 1) * d + 0) by (nonlinear_arith)
                    requires
                        below == d * quotient + remainder,
                        remainder == d - 1,
                        below == -(offset + 1),
                ;
                lemma_fundamental_div_mod_converse(offset as int, d, -quotient - 1, 0);
            } else if (offset as int) % d == 0 {
                let k = (offset as int) / d;
                assert(offset == d * k) by {
                    vstd::arithmetic::div_mod::lemma_fundamental_div_mod(offset as int, d);
                }
                assert(below == (-k - 1) * d + (d - 1)) by (nonlinear_arith)
                    requires
                        offset == d * k,
                        below == -(offset + 1),
                ;
                lemma_fundamental_div_mod_converse(below as int, d, -k - 1, d - 1);
                assert(false);
            }
        }
        if remainder == value_size - 1 {
            Some(-quotient - 1)
        } else {
            None
        }
    }
}

/// Checks offsets in elements and wraps them in a buffer.
fn check(offsets: Vec<i64>) -> (result: Result<OffsetBuffer, Error>)
    requires
        offsets@.len() > 0,
    ensures
        outcome(result) == checked(offsets@),
{
    if offsets[0] < 0 {
        return Err(Error::NegativeOffset(offsets[0]));
    }
    let len = offsets.len();
    let mut i: usize = 0;
    while i + 1 < len
        invariant
            len == offsets@.len(),
            offsets@[0] >= 0,
            i < len,
            first_descent(offsets@, 0) == first_descent(offsets@, i as int),
        decreases offsets@.len() - i,
    {
        if offsets[i] > offsets[i + 1] {
            return Err(Error::DescendingOffsets(i, offsets[i], offsets[i + 1]));
        }
        i += 1;
    }
    proof {
        lemma_no_descent(offsets@, 0);
    }
    Ok(OffsetBuffer { offsets })
}

/// Divides a byte offset by the size of a value which is greater than any
/// offset: only zero is a multiple of such a size, and the least offset
/// of that size itself.
fn try_wide_element_offset(offset: i64, value_size: usize) -> (element: Option<i64>)
    requires
        value_size > i64::MAX,
    ensures
        match element {
            Some(e) => (offset as int) % (value_size as int) == 0 && e == (offset as int) / (
                value_size as int),
            None => (offset as int) % (value_size as int) != 0,
        },
{
    let ghost d = value_size as int;
    if offset == 0 {
        proof {
            lemma_fundamental_div_mod_converse(0, d, 0, 0);
        }
        Some(0)
    } else if offset > 0 {
        proof {
            lemma_fundamental_div_mod_converse(offset as int, d, 0, offset as int);
        }
        None
    } else if offset == i64::MIN && value_size as u128 == 0x8000_0000_0000_0000u128 {
        proof {
            lemma_fundamental_div_mod_converse(offset as int, d, -1, 0);
        }
        Some(-1)
    } else {
        proof {
            lemma_fundamental_div_mod_converse(offset as int, d, -1, offset + d);
        }
        None
    }
}

/// Converts byte offsets to offsets in elements of a size which is greater
/// than any offset, without checking their order.
fn convert_wide(value_size: usize, raw: &[i64]) -> (elements: Option<Vec<i64>>)
    requires
        value_size > i64::MAX,
    ensures
        match elements {
            Some(e) => all_integral(value_size as int, raw@) && e@ == element_offsets(
                value_size as int,
                raw@,
            ),
            None => !all_integral(value_size as int, raw@),
        },
{
    let mut elements: Vec<i64> = Vec::with_capacity(raw.len());
    let mut i: usize = 0;
    while i < raw.len()
        invariant
            value_size > i64::MAX,
            i <= raw@.len(),
            elements@.len() == i,
            forall|j: int| 0 <= j < i ==> (#[trigger] raw@[j]) as int % (value_size as int) == 0,
            forall|j: int|
                0 <= j < i ==> #[trigger] elements@[j] == (raw@[j] as int) / (value_size as int),
        decreases raw@.len() - i,
    {
        match try_wide_element_offset(raw[i], value_size) {
            Some(e) => elements.push(e),
            None => {
                return None;
            },
        }
        i += 1;
    }
    assert(elements@ =~= element_offsets(value_size as int, raw@));
    Some(elements)
}

/// Converts byte offsets to offsets in elements, without checking their
/// order. Returns `None` if an offset is not a multiple of `value_size`.
fn convert(value_size: usize, raw: &[i64]) -> (elements: Option<Vec<i64>>)
    requires
        0 < value_size,
    ensures
        match elements {
            Some(e) => all_integral(value_size as int, raw@) && e@ == element_offsets(
                value_size as int,
                raw@,
            ),
            None => !all_integral(value_size as int, raw@),
        },
{
    if value_size as u128 > 0x7fff_ffff_ffff_ffffu128 {
        return convert_wide(value_size, raw);
    }
    let size = value_size as i64;
    let mut elements: Vec<i64> = Vec::with_capacity(raw.len());
    let mut i: usize = 0;
    while i < raw.len()
        invariant
            size == value_size,
            size > 0,
            i <= raw@.len(),
            elements@.len() == i,
            forall|j: int| 0 <= j < i ==> (#[trigger] raw@[j]) as int % (size as int) == 0,
            forall|j: int| 0 <= j < i ==> #[trigger] elements@[j] == (raw@[j] as int) / (size as int),
        decreases raw@.len() - i,
    {
        match try_element_offset(raw[i], size) {
            Some(e) => elements.push(e),
            None => {
                return None;
            },
        }
        i += 1;
    }
    assert(elements@ =~= element_offsets(value_size as int, raw@));
    Some(elements)
}

/// Reads the 64-bit integers which `bytes` hold.
fn read_raw_offsets(bytes: &[u8]) -> (raw: Vec<i64>)
    requires
        bytes@.len() % 8 == 0,
    ensures
        raw@ == raw_offsets(bytes@),
{
    let len = bytes.len();
    let count = len / 8;
    let mut raw: Vec<i64> = Vec::with_capacity(count);
    let mut i: usize = 0;
    while i < count
        invariant
            len == bytes@.len(),
            8 * count == len,
            i <= count,
            raw@.len() == i,
            forall|j: int|
                0 <= j < i ==> #[trigger] raw@[j] == le_signed(
                    bytes@.subrange(8 * j, 8 * j + 8),
                ),
        decreases count - i,
    {
        raw.push(read_signed(bytes, 8 * i, 8));
        i += 1;
    }
    assert(raw@ =~= raw_offsets(bytes@));
    raw
}

/// Converts byte offsets into the offsets of a column whose elements are
/// `value_size` bytes each.
///
/// Every offset must be a multiple of `value_size`, the first must not be
/// negative and none may be greater than the one after it. The first offset
/// which breaks the order is reported with its index and its successor.
/// As many offsets are returned as were given.
pub fn try_new(value_size: usize, raw_offsets: &[i64]) -> (result: Result<OffsetBuffer, Error>)
    requires
        0 < value_size,
        raw_offsets@.len() > 0,
    ensures
        outcome(result) == converted(value_size as int, raw_offsets@),
        result matches Ok(buffer) ==> buffer@.len() == raw_offsets@.len(),
{
    match convert(value_size, raw_offsets) {
        Some(elements) => check(elements),
        None => Err(Error::NonIntegralOffsets),
    }
}

/// Converts the byte offsets which `bytes` hold as 64-bit integers.
///
/// The number of bytes must be a multiple of eight. The offsets are then
/// converted as [`try_new`] does, so that `N` offsets come out of `8 * N`
/// bytes.
pub fn try_from_bytes(value_size: usize, bytes: &[u8]) -> (result: Result<OffsetBuffer, Error>)
    requires
        0 < value_size,
        bytes@.len() > 0,
    ensures
        outcome(result) == converted_bytes(value_size as int, bytes@),
        result matches Ok(buffer) ==> 8 * buffer@.len() == bytes@.len(),
{
    if bytes.len() % 8 != 0 {
        return Err(Error::UnalignedOffsets);
    }
    let raw = read_raw_offsets(bytes);
    try_new(value_size, raw.as_slice())
}

/// Converts the byte offsets which `bytes` hold as 64-bit integers and
/// closes them with the total number of values.
///
/// This is for offsets of which there are as many as cells, where the last
/// cell ends with the values. `num_values` counts elements and becomes the
/// last offset as it is, so that `N + 1` offsets come out of `8 * N` bytes.
/// A count beyond the range of an offset is cut to its low 64 bits.
pub fn try_from_bytes_and_num_values(
    value_size: usize,
    bytes: &[u8],
    num_values: usize,
) -> (result: Result<OffsetBuffer, Error>)
    requires
        0 < value_size,
    ensures
        outcome(result) == converted_bytes_and_num_values(
            value_size as int,
            bytes@,
            num_values as int,
        ),
        result matches Ok(buffer) ==> 8 * (buffer@.len() - 1) == bytes@.len() && (num_values
            <= i64::MAX ==> buffer@.last() == num_values),
{
    if bytes.len() % 8 != 0 {
        return Err(Error::UnalignedOffsets);
    }
    let raw = read_raw_offsets(bytes);
    match convert(value_size, raw.as_slice()) {
        Some(elements) => {
            let mut elements = elements;
            elements.push(num_values as i64);
            check(elements)
        },
        None => Err(Error::NonIntegralOffsets),
    }
}

/// What it means for `first_descent` to find an index: the offset there is
/// greater than the next one, and no offset from `start` up to there is.
pub proof fn lemma_first_descent(offsets: Seq<i64>, start: int)
    requires
        0 <= start,
    ensures
        match first_descent(offsets, start) {
            Some(i) => start <= i < offsets.len() - 1 && offsets[i] > offsets[i + 1] && forall|
                j: int,
            |
                start <= j < i ==> offsets[j] <= #[trigger] offsets[j + 1],
            None => forall|j: int|
                start <= j < offsets.len() - 1 ==> offsets[j] <= #[trigger] offsets[j + 1],
        },
    decreases offsets.len() - start,
{
    if start + 1 < offsets.len() && offsets[start] <= offsets[start + 1] {
        lemma_first_descent(offsets, start + 1);
        match first_descent(offsets, start) {
            Some(i) => {
                assert forall|j: int| start <= j < i implies offsets[j] <= #[trigger] offsets[j
                    + 1] by {
                    if j > start {
                    }
                }
            },
            None => {
                assert forall|j: int| start <= j < offsets.len() - 1 implies offsets[j]
                    <= #[trigger] offsets[j + 1] by {
                    if j > start {
                    }
                }
            },
        }
    }
}

/// Checking offsets succeeds exactly on offsets which delimit cells, and
/// then returns them unchanged.
pub proof fn lemma_checked_ok(offsets: Seq<i64>)
    requires
        offsets.len() > 0,
    ensures
        checked(offsets) is Ok <==> valid_offsets(offsets),
        checked(offsets) is Ok ==> checked(offsets) == Ok::<Seq<i64>, Error>(offsets),
{
    lemma_first_descent(offsets, 0);
    if valid_offsets(offsets) {
        if let Some(i) = first_descent(offsets, 0) {
            assert(offsets[i] <= offsets[i + 1]);
        }
    }
}

/// Each failure of a check names what is wrong: a negative first offset is
/// reported with its value, and a descent with the least index at which an
/// offset is greater than the next, together with those two offsets.
pub proof fn lemma_checked_err(offsets: Seq<i64>)
    requires
        0 < offsets.len() <= usize::MAX,
    ensures
        offsets[0] < 0 <==> checked(offsets) == Err::<Seq<i64>, Error>(
            Error::NegativeOffset(offsets[0]),
        ),
        forall|i: usize, a: i64, b: i64|
            checked(offsets) == Err::<Seq<i64>, Error>(Error::DescendingOffsets(i, a, b)) ==> {
                &&& offsets[0] >= 0
                &&& i < offsets.len() - 1
                &&& a == offsets[i as int]
                &&& b == offsets[i + 1]
                &&& a > b
                &&& forall|j: int| 0 <= j < i ==> offsets[j] <= #[trigger] offsets[j + 1]
            },
        offsets[0] >= 0 && !valid_offsets(offsets) ==> checked(offsets) matches Err(
            Error::DescendingOffsets(_, _, _),
        ),
        !(checked(offsets) matches Err(Error::UnalignedOffsets)),
        !(checked(offsets) matches Err(Error::NonIntegralOffsets)),
{
    lemma_first_descent(offsets, 0);
    lemma_checked_ok(offsets);
}

/// Converting bytes fails with the error of the first of these which holds:
/// the bytes are not whole 64-bit integers; an offset is not a multiple of
/// the value size; the offsets in elements do not pass the check.
pub proof fn lemma_converted_bytes_err(value_size: int, bytes: Seq<u8>)
    requires
        value_size > 0,
        0 < bytes.len() <= usize::MAX,
    ensures
        converted_bytes(value_size, bytes) == Err::<Seq<i64>, Error>(Error::UnalignedOffsets)
            <==> bytes.len() % 8 != 0,
        converted_bytes(value_size, bytes) == Err::<Seq<i64>, Error>(Error::NonIntegralOffsets)
            <==> bytes.len() % 8 == 0 && !all_integral(value_size, raw_offsets(bytes)),
        bytes.len() % 8 == 0 && all_integral(value_size, raw_offsets(bytes)) ==> converted_bytes(
            value_size,
            bytes,
        ) == checked(element_offsets(value_size, raw_offsets(bytes))),
{
    if bytes.len() % 8 == 0 {
        let elements = element_offsets(value_size, raw_offsets(bytes));
        assert(elements.len() > 0);
        lemma_checked_err(elements);
    }
}

/// Byte offsets which are multiples of the value size, start at zero or
/// above and never descend convert to as many offsets in elements, each the
/// byte offset divided by the value size, and multiplying those by the
/// value size gives the byte offsets back.
pub proof fn lemma_round_trip(value_size: int, raw: Seq<i64>)
    requires
        value_size > 0,
        valid_offsets(raw),
        all_integral(value_size, raw),
    ensures
        converted(value_size, raw) == Ok::<Seq<i64>, Error>(element_offsets(value_size, raw)),
        element_offsets(value_size, raw).len() == raw.len(),
        valid_offsets(element_offsets(value_size, raw)),
        forall|i: int|
            0 <= i < raw.len() ==> (#[trigger] element_offsets(value_size, raw)[i]) * value_size
                == raw[i],
{
    let elements = element_offsets(value_size, raw);
    assert forall|i: int| 0 <= i < raw.len() implies 0 <= (raw[i] as int) / value_size <= raw[i]
        && #[trigger] elements[i] == (raw[i] as int) / value_size && elements[i] * value_size
        == raw[i] by {
        lemma_valid_offsets_ordered(raw, 0, i);
        vstd::arithmetic::div_mod::lemma_div_pos_is_pos(raw[i] as int, value_size);
        vstd::arithmetic::div_mod::lemma_div_is_ordered_by_denominator(raw[i] as int, 1, value_size);
        vstd::arithmetic::div_mod::lemma_div_basics(raw[i] as int);
        assert(raw[i] as int % value_size == 0);
        vstd::arithmetic::div_mod::lemma_fundamental_div_mod(raw[i] as int, value_size);
    }
    assert forall|i: int| 0 <= i < elements.len() - 1 implies elements[i] <= #[trigger] elements[i
        + 1] by {
        assert(raw[i] <= raw[i + 1]);
        vstd::arithmetic::div_mod::lemma_div_is_ordered(raw[i] as int, raw[i + 1] as int, value_size);
    }
    lemma_valid_offsets_ordered(raw, 0, 0);
    lemma_checked_ok(elements);
}

/// Closing converted offsets with the total number of values: where the
/// byte offsets are multiples of the value size, start at zero or above,
/// never descend and end at or below the total, `N` of them come out as
/// `N + 1` offsets which delimit cells, begin with the converted offsets
/// and end in `num_values`.
pub proof fn lemma_append_num_values(value_size: int, bytes: Seq<u8>, num_values: int)
    requires
        value_size > 0,
        bytes.len() % 8 == 0,
        0 <= num_values <= i64::MAX,
        all_integral(value_size, raw_offsets(bytes)),
        bytes.len() > 0 ==> valid_offsets(raw_offsets(bytes)) && raw_offsets(bytes).last()
            <= num_values * value_size,
    ensures
        converted_bytes_and_num_values(value_size, bytes, num_values) == Ok::<Seq<i64>, Error>(
            element_offsets(value_size, raw_offsets(bytes)).push(num_values as i64),
        ),
        valid_offsets(element_offsets(value_size, raw_offsets(bytes)).push(num_values as i64)),
        element_offsets(value_size, raw_offsets(bytes)).push(num_values as i64).len()
            == bytes.len() / 8 + 1,
        element_offsets(value_size, raw_offsets(bytes)).push(num_values as i64).last()
            == num_values,
{
    let raw = raw_offsets(bytes);
    let elements = element_offsets(value_size, raw);
    let closed = elements.push(num_values as i64);
    if bytes.len() > 0 {
        lemma_round_trip(value_size, raw);
        let last = raw.len() - 1;
        assert(elements[last] * value_size == raw[last]);
        assert(elements[last] <= num_values) by (nonlinear_arith)
            requires
                elements[last] * value_size <= num_values * value_size,
                value_size > 0,
        ;
        assert forall|i: int| 0 <= i < closed.len() - 1 implies closed[i] <= #[trigger] closed[i
            + 1] by {
            if i < last {
                assert(elements[i] <= elements[i + 1]);
            }
        }
        assert(closed[0] == elements[0]);
    }
    lemma_checked_ok(closed);
}

} // verus!
