use std::collections::VecDeque;
use vstd::prelude::*;

verus! {

/// How many completed-episode returns to keep per company (the learning curve).
pub const MAX_EPISODE_RETURNS: usize = 1_000;

/// The window after appending `item` to `window` and, if it then holds more
/// than `cap` entries, dropping the oldest one.
pub open spec fn spec_push_capped<T>(window: Seq<T>, item: T, cap: nat) -> Seq<T> {
    let pushed = window.push(item);
    if pushed.len() > cap {
        pushed.drop_first()
    } else {
        pushed
    }
}

/// The window after appending each of `items` in turn to an empty window.
pub open spec fn spec_window_after<T>(items: Seq<T>, cap: nat) -> Seq<T>
    decreases items.len(),
{
    if items.len() == 0 {
        Seq::empty()
    } else {
        spec_push_capped(spec_window_after(items.drop_last(), cap), items.last(), cap)
    }
}

/// Appends `item` to a rolling window that keeps at most `cap` entries,
/// dropping the oldest entry when the window grows past `cap`.
pub fn push_capped<T>(window: &mut VecDeque<T>, item: T, cap: usize)
    ensures
        final(window)@ == spec_push_capped(old(window)@, item, cap as nat),
{
    window.push_back(item);
    if window.len() > cap {
        let _ = window.pop_front();
    }
}

/// A rolling window fed one entry at a time always holds exactly the latest
/// `cap` entries (or all of them while fewer have arrived), oldest first.
pub proof fn lemma_window_keeps_latest<T>(items: Seq<T>, cap: nat)
    ensures
        spec_window_after(items, cap) == items.subrange(
            if items.len() > cap { items.len() - cap } else { 0 },
            items.len() as int,
        ),
    decreases items.len(),
{
    if items.len() > 0 {
        let prefix = items.drop_last();
        lemma_window_keeps_latest(prefix, cap);
        let n = items.len() as int;
        let start = if prefix.len() > cap { prefix.len() - cap } else { 0int };
        assert(prefix.subrange(start, n - 1).push(items.last()) =~= items.subrange(start, n));
        if n - start > cap {
            assert(items.subrange(start, n).drop_first() =~= items.subrange(start + 1, n));
        }
    } else {
        assert(items.subrange(0, 0) =~= Seq::<T>::empty());
    }
}

} // verus!
