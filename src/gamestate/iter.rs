use vstd::prelude::*;

verus! {

/// The elements of the sequences of `parts`, one sequence after the other.
pub open spec fn flatten<T>(parts: Seq<Seq<T>>) -> Seq<T>
    decreases parts.len(),
{
    if parts.len() == 0 {
        Seq::empty()
    } else {
        parts[0] + flatten(parts.drop_first())
    }
}

proof fn lemma_flatten_single<T>(x: Seq<T>)
    ensures
        flatten(seq![x]) == x,
{
    assert(seq![x].drop_first() =~= Seq::<Seq<T>>::empty());
    assert(flatten(Seq::<Seq<T>>::empty()) == Seq::<T>::empty());
    assert(flatten(seq![x]) =~= x);
}

proof fn lemma_flatten_push<T>(parts: Seq<Seq<T>>, last: Seq<T>)
    ensures
        flatten(parts.push(last)) == flatten(parts) + last,
    decreases parts.len(),
{
    if parts.len() == 0 {
        assert(parts.push(last) =~= seq![last]);
        lemma_flatten_single(last);
        assert(flatten(parts.push(last)) =~= flatten(parts) + last);
    } else {
        lemma_flatten_push(parts.drop_first(), last);
        assert(parts.push(last).drop_first() =~= parts.drop_first().push(last));
        assert(flatten(parts.push(last)) =~= flatten(parts) + last);
    }
}

/// Walks several slices as one sequence: the elements of the first slice,
/// then those of the second, and so on.
pub struct CombinedIterator<'a, T> {
    /// The slices, in order.
    iterators: Vec<&'a [T]>,
    /// The slice that is being walked.
    index: usize,
    /// The position in that slice of the element that comes next.
    offset: usize,
}

impl<'a, T> CombinedIterator<'a, T> {
    /// The contents of the slices.
    pub closed spec fn parts(self) -> Seq<Seq<T>> {
        self.iterators@.map_values(|s: &'a [T]| s@)
    }

    /// The elements that are still to come, in order.
    pub closed spec fn remaining(self) -> Seq<T> {
        if self.index < self.iterators@.len() {
            flatten(self.parts().subrange(self.index as int, self.parts().len() as int)).skip(
                self.offset as int,
            )
        } else {
            Seq::empty()
        }
    }

    /// The walk stands within the slices.
    pub closed spec fn wf(self) -> bool {
        &&& self.index <= self.iterators@.len()
        &&& self.index < self.iterators@.len() ==> self.offset <= self.iterators@[self.index as int]@.len()
        &&& self.index == self.iterators@.len() ==> self.offset == 0
    }

    proof fn lemma_flatten_split(parts: Seq<Seq<T>>, i: int)
        requires
            0 <= i < parts.len(),
        ensures
            flatten(parts.subrange(i, parts.len() as int)) == parts[i] + flatten(
                parts.subrange(i + 1, parts.len() as int),
            ),
    {
        assert(parts.subrange(i, parts.len() as int).drop_first() =~= parts.subrange(
            i + 1,
            parts.len() as int,
        ));
    }

    /// Construct a new `CombinedIterator` over the elements of `iter`.
    pub fn new(iter: &'a [T]) -> (r: CombinedIterator<'a, T>)
        ensures
            r.wf(),
            r.remaining() == iter@,
    {
        let r = CombinedIterator { iterators: vec![iter], index: 0, offset: 0 };
        proof {
            assert(r.parts() =~= seq![iter@]);
            assert(r.parts().subrange(0, 1) =~= seq![iter@]);
            lemma_flatten_single(iter@);
            assert(iter@.skip(0) =~= iter@);
        }
        r
    }

    /// Add the elements of `iter` after those that are still to come.
    pub fn and(&mut self, iter: &'a [T]) -> (r: &mut Self)
        requires
            old(self).wf(),
        ensures
            r.wf(),
            r.remaining() == old(self).remaining() + iter@,
            *final(self) == *final(r),
    {
        let ghost old_parts = self.parts();
        self.iterators.push(iter);
        proof {
            assert(self.parts() =~= old_parts.push(iter@));
            if self.index < old_parts.len() {
                let i = self.index as int;
                let n = old_parts.len() as int;
                lemma_flatten_push(old_parts.subrange(i, n), iter@);
                assert(old_parts.subrange(i, n).push(iter@) =~= self.parts().subrange(i, n + 1));
                assert(self.remaining() =~= old(self).remaining() + iter@);
            } else {
                assert(self.parts().subrange(self.index as int, self.parts().len() as int) =~= seq![iter@]);
                lemma_flatten_single(iter@);
                assert(self.remaining() =~= old(self).remaining() + iter@);
            }
        }
        self
    }

    /// The next element, or `None` once every slice has been walked.
    pub fn next(&mut self) -> (r: Option<&'a T>)
        requires
            old(self).wf(),
        ensures
            final(self).wf(),
            old(self).remaining().len() == 0 ==> r is None && final(self).remaining().len() == 0,
            old(self).remaining().len() > 0 ==> r is Some && *r.unwrap() == old(self).remaining()[0]
                && final(self).remaining() == old(self).remaining().drop_first(),
    {
        loop
            invariant
                self.wf(),
                self.iterators == old(self).iterators,
                self.remaining() == old(self).remaining(),
            decreases self.iterators@.len() - self.index, self.iterators@[self.index as int]@.len() - self.offset,
        {
            if self.index >= self.iterators.len() {
                return None;
            }
            let current: &'a [T] = self.iterators[self.index];
            let ghost n = self.parts().len() as int;
            proof {
                Self::lemma_flatten_split(self.parts(), self.index as int);
            }
            if self.offset < current.len() {
                let item = &current[self.offset];
                self.offset = self.offset + 1;
                proof {
                    let rest = flatten(self.parts().subrange(self.index as int, n));
                    assert(rest.skip(self.offset as int) =~= rest.skip(self.offset - 1).drop_first());
                }
                return Some(item);
            }
            let ghost before = self.remaining();
            self.index = self.index + 1;
            self.offset = 0;
            proof {
                if self.index < n {
                    assert(flatten(self.parts().subrange(self.index as int, n)).skip(0) =~= flatten(
                        self.parts().subrange(self.index as int, n),
                    ));
                } else {
                    assert(self.parts().subrange(self.index as int, n) =~= Seq::<Seq<T>>::empty());
                }
                assert(before =~= self.remaining());
            }
        }
    }
}

} // verus!
