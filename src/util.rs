use vstd::prelude::*;

verus! {

/// The number that `bits` spells in binary, least significant bit first.
pub open spec fn counter_value(bits: Seq<bool>) -> nat
    decreases bits.len(),
{
    if bits.len() == 0 {
        0
    } else {
        (if bits[0] {
            1nat
        } else {
            0nat
        }) + 2 * counter_value(bits.drop_first())
    }
}

/// The items of `items` at or after index `from` whose flag in `selected` is set,
/// in order.
pub open spec fn picked<T>(items: Seq<T>, selected: Seq<bool>, from: int) -> Seq<T>
    decreases selected.len() - from,
{
    if from < 0 || from >= selected.len() || from >= items.len() {
        Seq::empty()
    } else if selected[from] {
        seq![items[from]] + picked(items, selected, from + 1)
    } else {
        picked(items, selected, from + 1)
    }
}

/// Slices whose subsets can be enumerated.
pub trait SliceSubsetsExt {
    type Item;

    /// An enumeration of all subsets of the slice.
    fn subsets(&self) -> Subsets<'_, Self::Item>;
}

impl<T> SliceSubsetsExt for [T] {
    type Item = T;

    fn subsets(&self) -> Subsets<'_, T> {
        Subsets::new(self)
    }
}

/// Enumerates the subsets of a slice as a binary counter over its positions:
/// the empty subset first, then the subset whose selected positions spell
/// 1, 2, 3, ... in binary (position 0 being the least significant bit), up to
/// the whole slice.
pub struct Subsets<'a, T> {
    slice: &'a [T],
    current: Vec<bool>,
    produced_empty: bool,
}

impl<'a, T> Subsets<'a, T> {
    pub closed spec fn items(&self) -> Seq<T> {
        self.slice@
    }

    /// The positions selected by the subset handed out last (or to hand out first).
    pub closed spec fn selected(&self) -> Seq<bool> {
        self.current@
    }

    /// Whether the empty subset has been handed out.
    pub closed spec fn started(&self) -> bool {
        self.produced_empty
    }

    pub closed spec fn wf(&self) -> bool {
        self.current@.len() == self.slice@.len()
    }

    /// An enumeration that has not started, over `slice`.
    pub fn new(slice: &'a [T]) -> (r: Subsets<'a, T>)
        ensures
            r.wf(),
            r.items() == slice@,
            r.selected() == Seq::new(slice@.len(), |i: int| false),
            !r.started(),
    {
        let mut current: Vec<bool> = Vec::new();
        let n = slice.len();
        let mut i: usize = 0;
        while i < n
            invariant
                n == slice@.len(),
                i <= n,
                current@ == Seq::new(i as nat, |k: int| false),
            decreases n - i,
        {
            current.push(false);
            i = i + 1;
            assert(current@ =~= Seq::new(i as nat, |k: int| false));
        }
        Subsets { slice, current, produced_empty: false }
    }

    /// The subset that the current positions select, not yet walked.
    fn snapshot(&self) -> (r: Subset<'a, T>)
        requires
            self.wf(),
        ensures
            r.wf(),
            r.remaining() == picked(self.items(), self.selected(), 0),
    {
        let selected = self.current.clone();
        assert(selected@ =~= self.current@);
        Subset { slice: self.slice, selected, current: 0 }
    }

    /// The next subset, or `None` once the whole slice has been handed out.
    ///
    /// After `None` the counter has wrapped to the empty subset; calling again
    /// starts a new round at the subset that selects position 0 alone.
    pub fn next(&mut self) -> (r: Option<Subset<'a, T>>)
        requires
            old(self).wf(),
        ensures
            final(self).wf(),
            final(self).items() == old(self).items(),
            final(self).started(),
            !old(self).started() ==> final(self).selected() == old(self).selected(),
            old(self).started() && old(self).selected().contains(false) ==> counter_value(
                final(self).selected(),
            ) == counter_value(old(self).selected()) + 1,
            old(self).started() && !old(self).selected().contains(false) ==> final(self).selected()
                == Seq::new(old(self).selected().len(), |i: int| false),
            r is Some <==> !old(self).started() || old(self).selected().contains(false),
            r matches Some(s) ==> s.wf() && s.remaining() == picked(
                final(self).items(),
                final(self).selected(),
                0,
            ),
    {
        if !self.produced_empty {
            self.produced_empty = true;
            return Some(self.snapshot());
        }
        let ghost before = self.current@;
        let n = self.current.len();
        let mut i: usize = 0;
        let mut carried = true;
        while i < n
            invariant_except_break
                carried,
            invariant
                n == self.current@.len(),
                n == before.len(),
                i <= n,
                self.wf(),
                self.produced_empty,
                self.items() == old(self).items(),
                before == old(self).current@,
                forall|k: int| 0 <= k < i ==> before[k],
                carried ==> forall|k: int| 0 <= k < i ==> !self.current@[k],
                carried ==> forall|k: int| i <= k < n ==> self.current@[k] == before[k],
            ensures
                carried ==> i == n,
                !carried ==> i < n && !before[i as int] && self.current@ == before.update(
                    i as int,
                    true,
                ).take(i as int).map_values(|b: bool| false) + before.update(
                    i as int,
                    true,
                ).skip(i as int),
            decreases n - i,
        {
            if !self.current[i] {
                self.current.set(i, true);
                carried = false;
                proof {
                    assert(self.current@ =~= before.update(i as int, true).take(i as int).map_values(
                        |b: bool| false,
                    ) + before.update(i as int, true).skip(i as int));
                }
                break;
            } else {
                self.current.set(i, false);
                i = i + 1;
            }
        }
        proof {
            if carried {
                assert(!before.contains(false));
                assert(self.current@ =~= Seq::new(n as nat, |k: int| false));
            } else {
                assert(before.contains(false)) by {
                    assert(before[i as int] == false);
                }
                lemma_counter_increment(before, i as int);
            }
        }
        if carried {
            None
        } else {
            Some(self.snapshot())
        }
    }
}

/// Setting the lowest clear bit and clearing the set bits below it adds one
/// to the counter.
proof fn lemma_counter_increment(bits: Seq<bool>, i: int)
    requires
        0 <= i < bits.len(),
        !bits[i],
        forall|k: int| 0 <= k < i ==> bits[k],
    ensures
        counter_value(
            bits.update(i, true).take(i).map_values(|b: bool| false) + bits.update(i, true).skip(i),
        ) == counter_value(bits) + 1,
    decreases i,
{
    let next = bits.update(i, true).take(i).map_values(|b: bool| false) + bits.update(i, true).skip(
        i,
    );
    if i == 0 {
        assert(next.drop_first() =~= bits.drop_first());
    } else {
        let tail = bits.drop_first();
        lemma_counter_increment(tail, i - 1);
        assert(next.drop_first() =~= tail.update(i - 1, true).take(i - 1).map_values(
            |b: bool| false,
        ) + tail.update(i - 1, true).skip(i - 1));
    }
}

/// One subset of a slice, walked in the order of the slice.
pub struct Subset<'a, T> {
    slice: &'a [T],
    selected: Vec<bool>,
    current: usize,
}

impl<'a, T> Subset<'a, T> {
    pub closed spec fn wf(&self) -> bool {
        &&& self.selected@.len() == self.slice@.len()
        &&& self.current <= self.selected@.len()
    }

    /// The selected items not yet handed out, in order.
    pub closed spec fn remaining(&self) -> Seq<T> {
        picked(self.slice@, self.selected@, self.current as int)
    }

    /// The next selected item, or `None` when all have been handed out.
    pub fn next(&mut self) -> (r: Option<&'a T>)
        requires
            old(self).wf(),
        ensures
            final(self).wf(),
            old(self).remaining().len() == 0 ==> r is None && final(self).remaining().len() == 0,
            old(self).remaining().len() > 0 ==> (r matches Some(x) && *x == old(
                self,
            ).remaining()[0]) && final(self).remaining() == old(self).remaining().drop_first(),
    {
        let slice: &'a [T] = self.slice;
        let n = self.selected.len();
        while self.current < n
            invariant
                self.wf(),
                n == self.selected@.len(),
                self.slice == slice,
                self.selected@ == old(self).selected@,
                self.remaining() == old(self).remaining(),
            decreases n - self.current,
        {
            if self.selected[self.current] {
                let r = &slice[self.current];
                proof {
                    let rest = picked(slice@, self.selected@, self.current + 1);
                    assert(self.remaining() == seq![slice@[self.current as int]] + rest);
                    assert((seq![slice@[self.current as int]] + rest).drop_first() =~= rest);
                }
                self.current = self.current + 1;
                return Some(r);
            }
            self.current = self.current + 1;
        }
        None
    }
}

} // verus!
