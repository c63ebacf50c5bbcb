use vstd::prelude::*;
use crate::event::{is_movement, KeyCode};
use crate::terminal::Size;

verus! {

/// The caret's place in the text: column `x`, row `y`.
#[derive(Clone, Copy, Debug, PartialEq, Eq)]
pub struct Location {
    pub x: usize,
    pub y: usize,
}

impl Default for Location {
    fn default() -> (r: Location)
        ensures
            r.x == 0,
            r.y == 0,
    {
        Location { x: 0, y: 0 }
    }
}

/// The last index below `n`, or 0 where `n` is 0.
pub open spec fn last_index(n: usize) -> usize {
    if n == 0 {
        0
    } else {
        (n - 1) as usize
    }
}

/// One step up or left: 0 stays 0.
pub open spec fn step_back(v: usize) -> usize {
    if v == 0 {
        0
    } else {
        (v - 1) as usize
    }
}

/// One step down or right, held below `n`.
pub open spec fn step_forward(v: usize, n: usize) -> usize {
    if v < last_index(n) {
        (v + 1) as usize
    } else {
        last_index(n)
    }
}

/// Where `key` takes the caret from `l` on a screen of `size`. Keys that do
/// not move the caret leave it where it is.
pub open spec fn advance(l: Location, key: KeyCode, size: Size) -> Location {
    match key {
        KeyCode::Up => Location { x: l.x, y: step_back(l.y) },
        KeyCode::Down => Location { x: l.x, y: step_forward(l.y, size.height) },
        KeyCode::Left => Location { x: step_back(l.x), y: l.y },
        KeyCode::Right => Location { x: step_forward(l.x, size.width), y: l.y },
        KeyCode::PageUp => Location { x: l.x, y: 0 },
        KeyCode::PageDown => Location { x: l.x, y: last_index(size.height) },
        KeyCode::Home => Location { x: 0, y: l.y },
        KeyCode::End => Location { x: last_index(size.width), y: l.y },
        _ => l,
    }
}

/// `key` applied `n` times from `l`.
pub open spec fn advance_n(l: Location, key: KeyCode, size: Size, n: nat) -> Location
    decreases n,
{
    if n == 0 {
        l
    } else {
        advance(advance_n(l, key, size, (n - 1) as nat), key, size)
    }
}

/// Every key keeps a caret that is on the screen on the screen.
pub proof fn lemma_advance_in_bounds(l: Location, key: KeyCode, size: Size)
    requires
        l.x < size.width,
        l.y < size.height,
    ensures
        advance(l, key, size).x < size.width,
        advance(l, key, size).y < size.height,
{
}

/// Clamping is idempotent: Up from the top row, Down from the bottom row,
/// Left from the first column and Right from the last column leave the caret
/// where it is, however often they are applied.
pub proof fn lemma_clamp_idempotent(l: Location, size: Size, n: nat)
    ensures
        l.y == 0 ==> advance_n(l, KeyCode::Up, size, n) == l,
        l.y == last_index(size.height) ==> advance_n(l, KeyCode::Down, size, n) == l,
        l.x == 0 ==> advance_n(l, KeyCode::Left, size, n) == l,
        l.x == last_index(size.width) ==> advance_n(l, KeyCode::Right, size, n) == l,
    decreases n,
{
    if n > 0 {
        lemma_clamp_idempotent(l, size, (n - 1) as nat);
    }
}

/// On a screen with no rows and no columns every key leaves the caret at the
/// origin.
pub proof fn lemma_zero_size(key: KeyCode)
    ensures
        advance(Location { x: 0, y: 0 }, key, Size { height: 0, width: 0 }) == (Location {
            x: 0,
            y: 0,
        }),
{
}

/// A key that is not a movement key never moves the caret.
pub proof fn lemma_no_op_keys(l: Location, key: KeyCode, size: Size)
    requires
        !is_movement(key),
    ensures
        advance(l, key, size) == l,
{
}

} // verus!
