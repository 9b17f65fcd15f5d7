//! Wrap-around selection arithmetic, shared by the task list and the
//! filter menu.

use vstd::prelude::*;

verus! {

/// Which way a navigation key moves the cursor.
#[derive(Clone, Copy, Debug, PartialEq, Eq, Structural)]
pub enum Direction {
    Up,
    Down,
}

/// Where the cursor lands: an empty list never has a selection; a first
/// press on a non-empty list selects the top; otherwise the cursor moves
/// one place, wrapping past either end. A stale cursor at or past the end
/// re-enters at the nearest wrapped position.
pub open spec fn nav_target(selected: Option<usize>, len: usize, dir: Direction) -> Option<
    usize,
> {
    if len == 0 {
        None
    } else {
        match selected {
            None => Some(0usize),
            Some(i) => match dir {
                Direction::Down => if i + 1 >= len {
                    Some(0usize)
                } else {
                    Some((i + 1) as usize)
                },
                Direction::Up => if i == 0 || i >= len {
                    Some((len - 1) as usize)
                } else {
                    Some((i - 1) as usize)
                },
            },
        }
    }
}

/// Moves a selection cursor one step over a list of `len` entries.
pub fn navigate(selected: Option<usize>, len: usize, dir: Direction) -> (r: Option<usize>)
    ensures
        r == nav_target(selected, len, dir),
{
    if len == 0 {
        None
    } else {
        match selected {
            None => Some(0),
            Some(i) => match dir {
                Direction::Down => if i >= len - 1 {
                    Some(0)
                } else {
                    Some(i + 1)
                },
                Direction::Up => if i == 0 || i >= len {
                    Some(len - 1)
                } else {
                    Some(i - 1)
                },
            },
        }
    }
}

/// One navigation step on a non-empty list always selects an index inside
/// `[0, len)`; moving down from the last index lands on 0, and moving up
/// from 0 lands on `len - 1`. An empty list yields no selection.
pub proof fn lemma_navigate_in_range(selected: Option<usize>, len: usize, dir: Direction)
    ensures
        len == 0 ==> nav_target(selected, len, dir) is None,
        len > 0 ==> (nav_target(selected, len, dir) matches Some(j) && j < len),
        len > 0 && selected == Some((len - 1) as usize) && dir is Down ==> nav_target(
            selected,
            len,
            dir,
        ) == Some(0usize),
        len > 0 && selected == Some(0usize) && dir is Up ==> nav_target(selected, len, dir)
            == Some((len - 1) as usize),
{
}

/// The selection after a whole sequence of navigation steps, applied in
/// order.
pub open spec fn nav_seq(selected: Option<usize>, len: usize, dirs: Seq<Direction>) -> Option<
    usize,
>
    decreases dirs.len(),
{
    if dirs.len() == 0 {
        selected
    } else {
        nav_seq(nav_target(selected, len, dirs[0]), len, dirs.drop_first())
    }
}

/// However many steps are taken in whatever order: on a non-empty list the
/// navigator never leaves `[0, len)` once a step has been taken, and on an
/// empty list the selection stays "none".
pub proof fn lemma_nav_seq_in_range(selected: Option<usize>, len: usize, dirs: Seq<Direction>)
    ensures
        len > 0 && dirs.len() > 0 ==> (nav_seq(selected, len, dirs) matches Some(j) && j < len),
        len > 0 && (selected matches Some(i) && i < len) ==> (nav_seq(selected, len, dirs)
            matches Some(j) && j < len),
        len == 0 && (selected is None || dirs.len() > 0) ==> nav_seq(selected, len, dirs) is None,
    decreases dirs.len(),
{
    if dirs.len() > 0 {
        lemma_navigate_in_range(selected, len, dirs[0]);
        lemma_nav_seq_in_range(nav_target(selected, len, dirs[0]), len, dirs.drop_first());
    }
}

} // verus!
