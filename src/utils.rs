use vstd::prelude::*;

verus! {

/// Bounded removal and insertion on a sequence: neither ever writes or
/// reads out of range.
pub trait VecUtils<T>: View<V = Seq<T>> + Sized {
    /// Try to remove the element at `index`.
    /// Returns `Some` with that element if `index < len()`, else `None` and
    /// leaves the sequence as it was.
    fn try_remove(&mut self, index: usize) -> (r: Option<T>)
        ensures
            index < old(self)@.len() ==> r == Some(old(self)@[index as int]) && final(self)@
                == old(self)@.remove(index as int),
            index >= old(self)@.len() ==> r is None && final(self)@ == old(self)@,
    ;

    /// Try to insert `value` at `index`: an insertion when `index < len()`,
    /// an append when `index == len()`. Any other index leaves the sequence
    /// as it was and returns false.
    fn push_or_insert(&mut self, index: usize, value: T) -> (r: bool)
        ensures
            r == (index <= old(self)@.len()),
            r ==> final(self)@ == old(self)@.insert(index as int, value),
            !r ==> final(self)@ == old(self)@,
    ;
}

impl<T> VecUtils<T> for Vec<T> {
    fn try_remove(&mut self, index: usize) -> (r: Option<T>) {
        if self.len() <= index {
            None
        } else {
            Some(self.remove(index))
        }
    }

    fn push_or_insert(&mut self, index: usize, value: T) -> (r: bool) {
        if index < self.len() {
            self.insert(index, value);
            true
        } else if index == self.len() {
            self.push(value);
            proof {
                assert(self@ =~= old(self)@.insert(index as int, value));
            }
            true
        } else {
            false
        }
    }
}

} // verus!
