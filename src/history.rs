use vstd::prelude::*;

verus! {

/// Most results a history log keeps.
pub const MAX_HISTORY: usize = 100;

/// `entries` with the oldest dropped so that at most `cap` remain.
pub open spec fn newest<T>(entries: Seq<T>, cap: nat) -> Seq<T> {
    if entries.len() > cap {
        entries.skip(entries.len() - cap)
    } else {
        entries
    }
}

/// Appends `entry` to a log kept to at most `cap` entries, evicting the
/// oldest first.
pub fn append_capped<T>(history: &mut Vec<T>, entry: T, cap: usize)
    ensures
        final(history)@ == newest(old(history)@.push(entry), cap as nat),
        final(history)@.len() <= cap || final(history)@.len() == old(history)@.len() + 1,
{
    history.push(entry);
    let n = history.len();
    if n > cap {
        let kept = history.split_off(n - cap);
        *history = kept;
    }
}

} // verus!
