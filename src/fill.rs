use vstd::prelude::*;

verus! {

/// A sequence brought to `new_len` elements: cut at `new_len`, or extended
/// with copies of `fill`.
pub open spec fn resized<A>(s: Seq<A>, new_len: nat, fill: A) -> Seq<A> {
    if new_len <= s.len() {
        s.take(new_len as int)
    } else {
        s + Seq::new((new_len - s.len()) as nat, |_i: int| fill)
    }
}

/// Growing a run of `n` elements to `2 * n` and cutting it back to `n`
/// gives the original elements back, whatever the fill.
pub proof fn lemma_grow_then_shrink_keeps_prefix<A>(s: Seq<A>, fill: A)
    ensures
        resized(resized(s, 2 * s.len(), fill), s.len(), fill) == s,
{
    assert(resized(resized(s, 2 * s.len(), fill), s.len(), fill) =~= s);
}

/// Overwrites every element from index `start` on with `value`, in
/// ascending order; the elements below `start` stay as they are.
pub fn fill_tail<A: Copy>(elems: &mut [A], start: usize, value: A)
    ensures
        start <= old(elems)@.len() ==> final(elems)@ == resized(
            old(elems)@.take(start as int),
            old(elems)@.len(),
            value,
        ),
        start > old(elems)@.len() ==> final(elems)@ == old(elems)@,
{
    let mut i: usize = start;
    while i < elems.len()
        invariant
            elems@.len() == old(elems)@.len(),
            start <= i,
            forall|j: int| 0 <= j < start && j < elems@.len() ==> #[trigger] elems@[j] == old(elems)@[j],
            forall|j: int| start <= j < i && j < elems@.len() ==> #[trigger] elems@[j] == value,
            i > elems@.len() ==> elems@ == old(elems)@,
        decreases elems@.len() - i,
    {
        elems[i] = value;
        i = i + 1;
    }
    if start <= elems.len() {
        assert(elems@ =~= resized(old(elems)@.take(start as int), old(elems)@.len(), value));
    }
}

/// Overwrites every element from index `start` on with a value of its own
/// drawn from `f`, one call per element in ascending order; the elements
/// below `start` stay as they are.
pub fn fill_tail_with<A, F: FnMut() -> A>(elems: &mut [A], start: usize, f: F)
    requires
        f.requires(()),
    ensures
        final(elems)@.len() == old(elems)@.len(),
        forall|j: int| 0 <= j < start && j < old(elems)@.len() ==> #[trigger] final(elems)@[j] == old(elems)@[j],
        forall|j: int| start <= j < old(elems)@.len() ==> f.ensures((), #[trigger] final(elems)@[j]),
{
    let ghost f0 = f;
    let mut f = f;
    let mut i: usize = start;
    while i < elems.len()
        invariant
            elems@.len() == old(elems)@.len(),
            f0.requires(()),
            start <= i,
            forall|j: int| 0 <= j < start && j < elems@.len() ==> #[trigger] elems@[j] == old(elems)@[j],
            f == f0,
            forall|j: int| start <= j < i && j < elems@.len() ==> f0.ensures((), #[trigger] elems@[j]),
        decreases elems@.len() - i,
    {
        let value = f();
        elems[i] = value;
        i = i + 1;
    }
}

} // verus!
