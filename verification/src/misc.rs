//! Raw bytes as the storage engine hands them over: the payload of a query
//! condition, and names, which are text only if they are valid UTF-8.

use vstd::prelude::*;
use vstd::string::StringSliceAdditionalSpecFns;
use vstd::utf8::{decode_utf8, valid_utf8};

verus! {

/// Why bytes are no text.
#[derive(Clone, Copy, Debug, PartialEq, Eq, Structural)]
pub struct Utf8Error {
    /// The number of bytes from the start which are valid UTF-8.
    pub valid_up_to: usize,
}

/// Whether the first `n` bytes are valid UTF-8 and no more of them are.
pub open spec fn is_valid_up_to(bytes: Seq<u8>, n: int) -> bool {
    &&& 0 <= n <= bytes.len()
    &&& valid_utf8(bytes.subrange(0, n))
    &&& forall|m: int| n < m <= bytes.len() ==> !valid_utf8(#[trigger] bytes.subrange(0, m))
}

/// The greatest number of bytes from the start of `bytes` which are valid
/// UTF-8.
pub open spec fn utf8_valid_up_to(bytes: Seq<u8>) -> usize {
    choose|n: usize| is_valid_up_to(bytes, n as int)
}

/// Calls `std::str::from_utf8`, which returns the bytes as text if and only
/// if they are valid UTF-8, and else an error from which
/// `std::str::Utf8Error::valid_up_to` is taken: the greatest number of
/// bytes from the start which are valid UTF-8.
#[verifier::external_body]
fn str_from_utf8(bytes: &[u8]) -> (result: Result<&str, usize>)
    ensures
        match result {
            Ok(s) => valid_utf8(bytes@) && s.spec_bytes() == bytes@,
            Err(n) => !valid_utf8(bytes@) && is_valid_up_to(bytes@, n as int),
        },
{
    std::str::from_utf8(bytes).map_err(|e| e.valid_up_to())
}

/// The text which the bytes of a name hold, or why they hold none.
pub open spec fn spec_name(bytes: Seq<u8>) -> Result<Seq<char>, Utf8Error> {
    if valid_utf8(bytes) {
        Ok(decode_utf8(bytes))
    } else {
        Err(Utf8Error { valid_up_to: utf8_valid_up_to(bytes) })
    }
}

/// What reading a name returned, as a mathematical value.
pub open spec fn name_outcome(result: Result<&str, Utf8Error>) -> Result<Seq<char>, Utf8Error> {
    match result {
        Ok(s) => Ok(s@),
        Err(e) => Err(e),
    }
}

/// Returns the text which the bytes of a name hold.
/// Fails if the bytes are not valid UTF-8.
pub fn name_from_bytes(bytes: &[u8]) -> (result: Result<&str, Utf8Error>)
    ensures
        name_outcome(result) == spec_name(bytes@),
{
    match str_from_utf8(bytes) {
        Ok(s) => {
            proof {
                vstd::utf8::encode_utf8_decode_utf8(s@);
            }
            Ok(s)
        },
        Err(valid_up_to) => {
            proof {
                let other = utf8_valid_up_to(bytes@);
                assert(is_valid_up_to(bytes@, other as int));
                if valid_up_to < other {
                    assert(!valid_utf8(bytes@.subrange(0, other as int)));
                } else if other < valid_up_to {
                    assert(!valid_utf8(bytes@.subrange(0, valid_up_to as int)));
                }
            }
            Err(Utf8Error { valid_up_to })
        },
    }
}

/// Returns whether two runs of bytes are the same.
pub fn bytes_equal(a: &[u8], b: &[u8]) -> (equal: bool)
    ensures
        equal == (a@ == b@),
{
    if a.len() != b.len() {
        return false;
    }
    let len = a.len();
    let mut i: usize = 0;
    while i < len
        invariant
            len == a@.len(),
            len == b@.len(),
            i <= len,
            forall|j: int| 0 <= j < i ==> a@[j] == b@[j],
        decreases len - i,
    {
        if a[i] != b[i] {
            return false;
        }
        i += 1;
    }
    assert(a@ =~= b@);
    true
}

/// An owned run of bytes whose meaning depends on the datatype of the field
/// it belongs to.
#[derive(Clone, Debug)]
pub struct ByteVecValue {
    pub bytes: Vec<u8>,
}

impl View for ByteVecValue {
    type V = Seq<u8>;

    open spec fn view(&self) -> Seq<u8> {
        self.bytes@
    }
}

impl ByteVecValue {
    /// Returns a buffer which holds `bytes`.
    pub fn new(bytes: Vec<u8>) -> (value: ByteVecValue)
        ensures
            value@ == bytes@,
    {
        ByteVecValue { bytes }
    }

    /// Returns the bytes of this buffer.
    pub fn as_slice(&self) -> (slice: &[u8])
        ensures
            slice@ == self@,
    {
        self.bytes.as_slice()
    }

    /// Returns whether this buffer holds no byte.
    pub fn is_empty(&self) -> (empty: bool)
        ensures
            empty == (self@.len() == 0),
    {
        self.len() == 0
    }

    /// Returns the number of bytes in this buffer.
    pub fn len(&self) -> (len: usize)
        ensures
            len == self@.len(),
    {
        self.bytes.len()
    }

    /// Returns the number of bytes in this buffer.
    pub fn size(&self) -> (size: usize)
        ensures
            size == self@.len(),
    {
        self.bytes.len()
    }
}

} // verus!
