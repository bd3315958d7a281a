//! Bookkeeping of a workspace: which entry is selected, and which windows
//! are left when some were closed.

use vstd::prelude::*;

verus! {

/// The entry that stays selected among `count` entries when the entry
/// `selected` was: itself, or the last one where it is gone.
pub fn clamp_selection(selected: usize, count: usize) -> (kept: usize)
    ensures
        kept == if selected < count {
            selected
        } else if count > 0 {
            (count - 1) as usize
        } else {
            0usize
        },
{
    let last = if count > 0 {
        count - 1
    } else {
        0
    };
    if selected < last {
        selected
    } else {
        last
    }
}

/// Whether `closed` names positions among `count` items, each once and in
/// ascending order.
pub open spec fn ascending_below(closed: Seq<usize>, count: nat) -> bool {
    &&& forall|i: int, j: int| 0 <= i < j < closed.len() ==> closed[i] < closed[j]
    &&& forall|i: int| 0 <= i < closed.len() ==> closed[i] < count
}

/// Whether `position` is among `closed`.
pub open spec fn is_closed(closed: Seq<usize>, position: int) -> bool {
    exists|i: int| 0 <= i < closed.len() && #[trigger] closed[i] == position
}

/// The items whose position is not among `closed`, in their order.
pub open spec fn left_open<T>(items: Seq<T>, closed: Seq<usize>) -> Seq<T>
    decreases items.len(),
{
    if items.len() == 0 {
        items
    } else if is_closed(closed, items.len() - 1) {
        left_open(items.drop_last(), closed)
    } else {
        left_open(items.drop_last(), closed).push(items.last())
    }
}

/// Where no position from `from` up to `to` is closed, the items there are
/// all left open.
proof fn lemma_open_stretch<T>(items: Seq<T>, closed: Seq<usize>, from: int, to: int)
    requires
        0 <= from <= to <= items.len(),
        forall|i: int| 0 <= i < closed.len() ==> !(from <= #[trigger] closed[i] < to),
    ensures
        left_open(items.subrange(0, to), closed) == left_open(items.subrange(0, from), closed)
            + items.subrange(from, to),
    decreases to - from,
{
    if from == to {
        assert(left_open(items.subrange(0, from), closed) + items.subrange(from, to)
            =~= left_open(items.subrange(0, from), closed));
    } else {
        lemma_open_stretch(items, closed, from, to - 1);
        let prefix = items.subrange(0, to);
        assert(prefix.drop_last() =~= items.subrange(0, to - 1));
        assert(prefix.last() == items[to - 1]);
        assert(!is_closed(closed, to - 1));
        assert(left_open(items.subrange(0, from), closed) + items.subrange(from, to)
            =~= (left_open(items.subrange(0, from), closed) + items.subrange(from, to - 1)).push(
            items[to - 1],
        ));
    }
}

/// Removes the items at the positions `closed` and keeps the others in
/// their order.
pub fn remove_closed<T>(items: &mut Vec<T>, closed: &Vec<usize>)
    requires
        ascending_below(closed@, old(items)@.len()),
    ensures
        final(items)@ == left_open(old(items)@, closed@),
        final(items)@.len() == old(items)@.len() - closed@.len(),
{
    let ghost before = items@;
    let ghost mut done: int = 0;
    let mut removed: usize = 0;
    proof {
        assert(before.subrange(0, 0) =~= Seq::<T>::empty());
        assert(left_open(before.subrange(0, 0), closed@) + before.subrange(
            0,
            before.len() as int,
        ) =~= before);
    }
    while removed < closed.len()
        invariant
            ascending_below(closed@, before.len()),
            removed <= closed@.len(),
            0 <= done <= before.len(),
            removed > 0 ==> done == closed@[removed - 1] + 1,
            removed == 0 ==> done == 0,
            items@.len() == before.len() - removed,
            items@ == left_open(before.subrange(0, done), closed@) + before.subrange(
                done,
                before.len() as int,
            ),
        decreases closed@.len() - removed,
    {
        let position = closed[removed];
        proof {
            assert forall|i: int| 0 <= i < closed@.len() implies !(done <= #[trigger] closed@[i]
                < position) by {
                if i < removed {
                    if i < removed - 1 {
                        assert(closed@[i] < closed@[removed - 1]);
                    }
                } else if i > removed {
                    assert(closed@[removed as int] < closed@[i]);
                }
            }
            if removed > 0 {
                assert(closed@[removed - 1] < closed@[removed as int]);
            }
            lemma_open_stretch(before, closed@, done, position as int);
            lemma_kept_length(before.subrange(0, done), closed@, removed as int);
        }
        let ghost open_before = left_open(before.subrange(0, done), closed@);
        assert(open_before.len() == done - removed);
        items.remove(position - removed);
        proof {
            let upto = before.subrange(0, position + 1);
            assert(upto.drop_last() =~= before.subrange(0, position as int));
            assert(closed@[removed as int] == position);
            assert(is_closed(closed@, position as int));
            assert(left_open(upto, closed@) == left_open(
                before.subrange(0, position as int),
                closed@,
            ));
            assert(items@ =~= left_open(upto, closed@) + before.subrange(
                position + 1,
                before.len() as int,
            ));
            done = position + 1;
        }
        removed = removed + 1;
    }
    proof {
        assert forall|i: int| 0 <= i < closed@.len() implies !(done <= #[trigger] closed@[i]
            < before.len()) by {
            if removed > 0 && i < removed - 1 {
                assert(closed@[i] < closed@[removed - 1]);
            }
        }
        lemma_open_stretch(before, closed@, done, before.len() as int);
        assert(before.subrange(0, before.len() as int) =~= before);
    }
}

/// Of a stretch of items that starts at the first position and ends right
/// after the last of the first `count` closed positions, or holds none of
/// them for `count` zero, all but `count` are left open.
proof fn lemma_kept_length<T>(items: Seq<T>, closed: Seq<usize>, count: int)
    requires
        0 <= count <= closed.len(),
        forall|i: int, j: int| 0 <= i < j < closed.len() ==> closed[i] < closed[j],
        count > 0 ==> items.len() == closed[count - 1] + 1,
        count == 0 ==> items.len() == 0,
    ensures
        left_open(items, closed).len() == items.len() - count,
    decreases count,
{
    if count > 0 {
        let last = closed[count - 1] as int;
        let from: int = if count > 1 {
            closed[count - 2] + 1
        } else {
            0
        };
        if count > 1 {
            assert(closed[count - 2] < closed[count - 1]);
        }
        lemma_kept_length(items.subrange(0, from), closed, count - 1);
        assert forall|i: int| 0 <= i < closed.len() implies !(from <= #[trigger] closed[i]
            < last) by {
            if i < count - 1 {
                if i < count - 2 {
                    assert(closed[i] < closed[count - 2]);
                }
            } else if i > count - 1 {
                assert(closed[count - 1] < closed[i]);
            }
        }
        lemma_open_stretch(items, closed, from, last);
        assert(items.drop_last() =~= items.subrange(0, last));
        assert(closed[count - 1] == last);
        assert(is_closed(closed, last));
    }
}

} // verus!
