//! The cursor of a list: which entry, if any, is selected.

use vstd::prelude::*;

verus! {

/// A cursor that is on no entry, or on one of the `len` entries of its list.
pub open spec fn in_list(selected: Option<usize>, len: nat) -> bool {
    selected matches Some(i) ==> i < len
}

/// The cursor after one step down a list of `len` entries: from the last
/// entry it goes to the first, and a cursor on no entry goes to the first.
pub open spec fn after_down(selected: Option<usize>, len: nat) -> Option<usize> {
    match selected {
        Some(i) => if i + 1 == len {
            Some(0)
        } else {
            Some((i + 1) as usize)
        },
        None => Some(0),
    }
}

/// The cursor after one step up a list of `len` entries: from the first
/// entry it goes to the last, and a cursor on no entry goes to the first.
pub open spec fn after_up(selected: Option<usize>, len: nat) -> Option<usize> {
    match selected {
        Some(i) => if i == 0 {
            Some((len - 1) as usize)
        } else {
            Some((i - 1) as usize)
        },
        None => Some(0),
    }
}

/// Moves the cursor one entry down, wrapping at the end of the list.
pub fn move_down(selected: Option<usize>, len: usize) -> (moved: Option<usize>)
    requires
        len > 0,
        in_list(selected, len as nat),
    ensures
        moved == after_down(selected, len as nat),
        moved matches Some(i) && i < len,
{
    match selected {
        Some(i) => if i + 1 == len {
            Some(0)
        } else {
            Some(i + 1)
        },
        None => Some(0),
    }
}

/// Moves the cursor one entry up, wrapping at the start of the list.
pub fn move_up(selected: Option<usize>, len: usize) -> (moved: Option<usize>)
    requires
        len > 0,
        in_list(selected, len as nat),
    ensures
        moved == after_up(selected, len as nat),
        moved matches Some(i) && i < len,
{
    match selected {
        Some(i) => if i == 0 {
            Some(len - 1)
        } else {
            Some(i - 1)
        },
        None => Some(0),
    }
}

/// The cursor after a run of presses, `true` for down and `false` for up.
pub open spec fn after_presses(selected: Option<usize>, len: nat, presses: Seq<bool>) -> Option<
    usize,
>
    decreases presses.len(),
{
    if presses.len() == 0 {
        selected
    } else {
        let before = after_presses(selected, len, presses.drop_last());
        if presses.last() {
            after_down(before, len)
        } else {
            after_up(before, len)
        }
    }
}

/// Whatever the arrow keys pressed, the cursor of a list that has entries
/// stays on one of them.
pub proof fn lemma_presses_stay_in_list(selected: Option<usize>, len: nat, presses: Seq<bool>)
    requires
        0 < len <= usize::MAX,
        in_list(selected, len),
    ensures
        in_list(after_presses(selected, len, presses), len),
        presses.len() > 0 ==> after_presses(selected, len, presses) is Some,
    decreases presses.len(),
{
    if presses.len() > 0 {
        lemma_presses_stay_in_list(selected, len, presses.drop_last());
    }
}

/// The cursor wraps exactly at the two ends of the list, and moves by one
/// entry everywhere else.
pub proof fn lemma_cursor_wraps_at_the_ends(i: usize, len: nat)
    requires
        i < len <= usize::MAX,
    ensures
        after_down(Some(i), len) == Some(
            if i == len - 1 {
                0usize
            } else {
                (i + 1) as usize
            },
        ),
        after_up(Some(i), len) == Some(
            if i == 0 {
                (len - 1) as usize
            } else {
                (i - 1) as usize
            },
        ),
        after_up(after_down(Some(i), len), len) == Some(i),
        after_down(after_up(Some(i), len), len) == Some(i),
{
}

} // verus!
