//! Folding the outcome of a predicate into a selection bitmap.
//!
//! A bitmap has one entry for each row. An entry which is not zero marks a
//! row which every predicate so far has let pass. Folding one more
//! predicate into the bitmap clears the entries of the rows which it does
//! not let pass, and never sets an entry: a row whose outcome is false or
//! null is out for good.

use vstd::prelude::*;

verus! {

/// The outcome of a predicate for a batch of rows. The outcome for one row
/// is `Some(true)`, `Some(false)` or, where it is null, `None`.
#[derive(Debug, PartialEq, Eq)]
pub enum EvaluationOutput {
    /// One outcome which holds of every row.
    Scalar(Option<bool>),
    /// One outcome for each row.
    Array(Vec<Option<bool>>),
}

impl EvaluationOutput {
    /// Whether the outcome is one for all rows.
    pub open spec fn spec_is_scalar(&self) -> bool {
        *self is Scalar
    }

    /// Returns whether the outcome is one for all rows.
    #[verifier::when_used_as_spec(spec_is_scalar)]
    pub fn is_scalar(&self) -> (scalar: bool)
        ensures
            scalar == self.spec_is_scalar(),
    {
        match self {
            EvaluationOutput::Scalar(_) => true,
            EvaluationOutput::Array(_) => false,
        }
    }

    /// Whether there is an outcome for each row.
    pub open spec fn spec_is_array(&self) -> bool {
        *self is Array
    }

    /// Returns whether there is an outcome for each row.
    #[verifier::when_used_as_spec(spec_is_array)]
    pub fn is_array(&self) -> (array: bool)
        ensures
            array == self.spec_is_array(),
    {
        match self {
            EvaluationOutput::Scalar(_) => false,
            EvaluationOutput::Array(_) => true,
        }
    }

    /// Whether the predicate lets row `i` pass: its outcome for the row is
    /// true, neither false nor null.
    pub open spec fn passes(&self, i: int) -> bool {
        match self {
            EvaluationOutput::Scalar(outcome) => *outcome == Some(true),
            EvaluationOutput::Array(outcomes) => outcomes@[i] == Some(true),
        }
    }

    /// Whether there is an outcome for each of `rows` rows.
    pub open spec fn covers(&self, rows: nat) -> bool {
        *self matches EvaluationOutput::Array(outcomes) ==> outcomes@.len() == rows
    }
}

/// The bitmap after a predicate has been folded into it: the entry of a
/// row which passes is kept, and the entry of any other row is `zero`.
pub open spec fn reduced<T>(output: &EvaluationOutput, bitmap: Seq<T>, zero: T) -> Seq<T> {
    Seq::new(
        bitmap.len(),
        |i: int|
            if output.passes(i) {
                bitmap[i]
            } else {
                zero
            },
    )
}

/// Sets every entry of `bitmap` to `zero`.
fn clear<T: Copy>(bitmap: &mut [T], zero: T)
    ensures
        final(bitmap)@.len() == old(bitmap)@.len(),
        forall|i: int| 0 <= i < old(bitmap)@.len() ==> final(bitmap)@[i] == zero,
{
    let len = bitmap.len();
    let mut i: usize = 0;
    while i < len
        invariant
            len == bitmap@.len(),
            len == old(bitmap)@.len(),
            i <= len,
            forall|j: int| 0 <= j < i ==> bitmap@[j] == zero,
        decreases len - i,
    {
        bitmap[i] = zero;
        i += 1;
    }
}

/// Folds the outcome of a predicate into `bitmap`, whose entries stand for
/// the rows in their order, with `zero` for a cleared entry.
///
/// One true outcome for all rows leaves the bitmap as it is. One false or
/// null outcome for all rows clears every entry. Where there is an outcome
/// for each row, the entry of each row whose outcome is not true is
/// cleared.
pub fn reduce_into_bitmap<T: Copy>(output: &EvaluationOutput, bitmap: &mut [T], zero: T)
    requires
        output.covers(old(bitmap)@.len()),
    ensures
        final(bitmap)@ == reduced(output, old(bitmap)@, zero),
{
    match output {
        EvaluationOutput::Scalar(Some(true)) => {
            assert(bitmap@ =~= reduced(output, bitmap@, zero));
        },
        EvaluationOutput::Scalar(_) => {
            clear(bitmap, zero);
            assert(bitmap@ =~= reduced(output, old(bitmap)@, zero));
        },
        EvaluationOutput::Array(outcomes) => {
            let len = bitmap.len();
            let mut i: usize = 0;
            while i < len
                invariant
                    len == bitmap@.len(),
                    len == old(bitmap)@.len(),
                    len == outcomes@.len(),
                    *output == EvaluationOutput::Array(*outcomes),
                    i <= len,
                    forall|j: int|
                        0 <= j < i ==> bitmap@[j] == reduced(output, old(bitmap)@, zero)[j],
                    forall|j: int| i <= j < len ==> bitmap@[j] == old(bitmap)@[j],
                decreases len - i,
            {
                match outcomes[i] {
                    Some(true) => {},
                    _ => {
                        bitmap[i] = zero;
                    },
                }
                i += 1;
            }
            assert(bitmap@ =~= reduced(output, old(bitmap)@, zero));
        },
    }
}

/// Folds the outcome of a predicate into a bitmap of bytes.
pub fn reduce_into_bitmap_u8(output: &EvaluationOutput, bitmap: &mut [u8])
    requires
        output.covers(old(bitmap)@.len()),
    ensures
        final(bitmap)@ == reduced(output, old(bitmap)@, 0u8),
{
    reduce_into_bitmap::<u8>(output, bitmap, 0)
}

/// Folds the outcome of a predicate into a bitmap of 64-bit counts.
pub fn reduce_into_bitmap_u64(output: &EvaluationOutput, bitmap: &mut [u64])
    requires
        output.covers(old(bitmap)@.len()),
    ensures
        final(bitmap)@ == reduced(output, old(bitmap)@, 0u64),
{
    reduce_into_bitmap::<u64>(output, bitmap, 0)
}

/// Folding never widens a bitmap: it has as many entries as before, and
/// each is what it was or is cleared.
pub proof fn lemma_reduced_narrows<T>(output: &EvaluationOutput, bitmap: Seq<T>, zero: T)
    ensures
        reduced(output, bitmap, zero).len() == bitmap.len(),
        forall|i: int|
            0 <= i < bitmap.len() ==> #[trigger] reduced(output, bitmap, zero)[i] == bitmap[i]
                || reduced(output, bitmap, zero)[i] == zero,
{
}

/// Folding the same predicate a second time changes nothing.
pub proof fn lemma_reduced_idempotent<T>(output: &EvaluationOutput, bitmap: Seq<T>, zero: T)
    ensures
        reduced(output, reduced(output, bitmap, zero), zero) == reduced(output, bitmap, zero),
{
    assert(reduced(output, reduced(output, bitmap, zero), zero) =~= reduced(output, bitmap, zero));
}

/// Folding two predicates gives the same bitmap in either order: the
/// bitmap which keeps the entries of exactly the rows which pass both.
pub proof fn lemma_reduced_commutes<T>(
    first: &EvaluationOutput,
    second: &EvaluationOutput,
    bitmap: Seq<T>,
    zero: T,
)
    ensures
        reduced(second, reduced(first, bitmap, zero), zero) == reduced(
            first,
            reduced(second, bitmap, zero),
            zero,
        ),
        reduced(second, reduced(first, bitmap, zero), zero).len() == bitmap.len(),
        forall|i: int|
            0 <= i < bitmap.len() ==> #[trigger] reduced(
                second,
                reduced(first, bitmap, zero),
                zero,
            )[i] == if first.passes(i) && second.passes(i) {
                bitmap[i]
            } else {
                zero
            },
{
    assert(reduced(second, reduced(first, bitmap, zero), zero) =~= reduced(
        first,
        reduced(second, bitmap, zero),
        zero,
    ));
}

} // verus!
