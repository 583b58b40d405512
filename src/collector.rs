use vstd::prelude::*;

verus! {

/// The entries of `items` whose mark is unset, in their original order.
pub open spec fn unmarked<T>(items: Seq<T>, marks: Seq<bool>) -> Seq<T>
    decreases items.len(),
{
    if items.len() == 0 {
        Seq::empty()
    } else {
        let rest = unmarked(items.drop_first(), marks.drop_first());
        if marks[0] {
            rest
        } else {
            seq![items[0]] + rest
        }
    }
}

/// Removes from `items` every entry whose mark in `marks` is set, keeping the
/// order of the others; no entry is skipped or looked at twice.
pub fn remove_marked<T>(items: &mut Vec<T>, marks: &Vec<bool>)
    requires
        old(items)@.len() == marks@.len(),
    ensures
        final(items)@ == unmarked(old(items)@, marks@),
{
    let ghost original = items@;
    let len = items.len();
    let mut i: usize = len;
    assert(original.subrange(len as int, len as int).len() == 0);
    assert(original.subrange(0, len as int) == original);
    while i > 0
        invariant
            len == original.len(),
            len == marks@.len(),
            i <= len,
            items@ == original.subrange(0, i as int) + unmarked(
                original.subrange(i as int, len as int),
                marks@.subrange(i as int, len as int),
            ),
        decreases i,
    {
        i -= 1;
        let ghost tail = unmarked(
            original.subrange(i + 1, len as int),
            marks@.subrange(i + 1, len as int),
        );
        assert(original.subrange(i as int, len as int).drop_first() == original.subrange(
            i + 1,
            len as int,
        ));
        assert(marks@.subrange(i as int, len as int).drop_first() == marks@.subrange(
            i + 1,
            len as int,
        ));
        if marks[i] {
            items.remove(i);
            assert(items@ == original.subrange(0, i as int) + tail);
        } else {
            assert(items@ == original.subrange(0, i as int) + (seq![original[i as int]] + tail));
        }
    }
    assert(original.subrange(0, 0).len() == 0);
    assert(items@ == unmarked(original.subrange(0, len as int), marks@.subrange(0, len as int)));
    assert(marks@.subrange(0, len as int) == marks@);
}

} // verus!
