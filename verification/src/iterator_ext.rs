//! A sequence of items followed by one more item, handed out one at a time.

use vstd::prelude::*;

verus! {

/// Items in their order with one item appended.
///
/// The items which are still to come are its view. Each call of
/// [`Append::next`] hands out the first of them.
pub struct Append<T> {
    /// The items which are still to come, the next one last.
    rest: Vec<T>,
}

impl<T> View for Append<T> {
    type V = Seq<T>;

    closed spec fn view(&self) -> Seq<T> {
        self.rest@.reverse()
    }
}

impl<T> Append<T> {
    /// Returns the items of `a` in their order, followed by `b`.
    pub fn new(a: Vec<T>, b: T) -> (append: Append<T>)
        ensures
            append@ == a@.push(b),
    {
        let ghost items = a@.push(b);
        let mut rest = a;
        rest.push(b);
        reverse(&mut rest);
        proof {
            assert(rest@.reverse() =~= items);
        }
        Append { rest }
    }

    /// Hands out the next item, or `None` once all items and the appended
    /// one have been handed out, and from then on.
    pub fn next(&mut self) -> (item: Option<T>)
        ensures
            old(self)@.len() == 0 ==> item is None && final(self)@ == old(self)@,
            old(self)@.len() > 0 ==> item == Some(old(self)@[0]) && final(self)@ == old(self)@.skip(
                1,
            ),
    {
        let ghost before = self.rest@;
        let item = self.rest.pop();
        proof {
            if before.len() > 0 {
                assert(self.rest@.reverse() =~= before.reverse().skip(1));
            }
        }
        item
    }

    /// Returns the number of items which are still to come.
    pub fn len(&self) -> (len: usize)
        ensures
            len == self@.len(),
    {
        self.rest.len()
    }

    /// Returns the least and the greatest number of items which are still
    /// to come. The two are the same, since the number is known.
    pub fn size_hint(&self) -> (hint: (usize, Option<usize>))
        ensures
            hint.0 == self@.len(),
            hint.1 == Some(hint.0),
    {
        let len = self.len();
        (len, Some(len))
    }
}

/// Puts the items of `v` in the opposite order.
fn reverse<T>(v: &mut Vec<T>)
    ensures
        final(v)@ == old(v)@.reverse(),
{
    let ghost items = v@;
    let mut reversed: Vec<T> = Vec::with_capacity(v.len());
    while v.len() > 0
        invariant
            v@.len() <= items.len(),
            v@ == items.subrange(0, v@.len() as int),
            reversed@ == items.subrange(v@.len() as int, items.len() as int).reverse(),
        decreases v@.len(),
    {
        let ghost len = v@.len();
        let item = v.pop();
        match item {
            Some(item) => {
                reversed.push(item);
                proof {
                    assert(v@ =~= items.subrange(0, len - 1));
                    assert(reversed@ =~= items.subrange(len - 1, items.len() as int).reverse());
                }
            },
            None => {},
        }
    }
    proof {
        assert(items.subrange(0, items.len() as int) =~= items);
    }
    *v = reversed;
}

/// Adaptors for a run of items.
pub trait IteratorExt: Sized {
    type Item;

    /// Appends a single additional value to the items.
    fn append(self, value: Self::Item) -> Append<Self::Item>;
}

impl<T> IteratorExt for Vec<T> {
    type Item = T;

    /// Returns the items of this vector in their order, followed by `value`.
    fn append(self, value: T) -> (append: Append<T>)
        ensures
            append@ == self@.push(value),
    {
        Append::new(self, value)
    }
}

} // verus!
