//! The image-selection state: one index into the fixed image set, moved by
//! button presses and rotation steps, always kept inside `[0, TOTAL_IMAGES)`.

use vstd::prelude::*;

use crate::TOTAL_IMAGES;

verus! {

/// Direction of a detected rotation step.
#[derive(Clone, Copy, Debug, PartialEq, Eq, Structural)]
pub enum Direction {
    Left,
    Right,
}

/// Index reached from `i` by one rotation step: the next image to the
/// right, the previous one to the left, wrapping modulo the image count.
/// Only the direction of a step moves the index, never its magnitude.
pub open spec fn spec_rotate(i: u8, dir: Direction) -> u8
    recommends
        i < TOTAL_IMAGES,
{
    match dir {
        Direction::Right => ((i + 1) % (TOTAL_IMAGES as int)) as u8,
        Direction::Left => ((i + TOTAL_IMAGES - 1) % (TOTAL_IMAGES as int)) as u8,
    }
}

/// Owns the currently selected image index.
pub struct SelectionController {
    index: u8,
}

impl View for SelectionController {
    type V = u8;

    closed spec fn view(&self) -> u8 {
        self.index
    }
}

impl SelectionController {
    /// The selected index is always a valid member of `[0, TOTAL_IMAGES)`.
    pub open spec fn wf(self) -> bool {
        self@ < TOTAL_IMAGES
    }

    /// Selection starts at the default image, index 0.
    pub fn new() -> (c: Self)
        ensures
            c@ == 0,
            c.wf(),
    {
        SelectionController { index: 0 }
    }

    /// The currently selected image index.
    pub fn current(&self) -> (i: u8)
        ensures
            i == self@,
    {
        self.index
    }

    /// A press of button `n` selects image `n` outright; the caller issues
    /// exactly one render of the returned index.
    pub fn apply_button(&mut self, n: u8) -> (i: u8)
        requires
            1 <= n < TOTAL_IMAGES,
        ensures
            final(self)@ == n,
            i == n,
            final(self).wf(),
    {
        self.index = n;
        self.index
    }

    /// One rotation step moves the selection by one place, wrapping over the
    /// image set; the caller issues exactly one render of the returned index.
    pub fn apply_rotation(&mut self, dir: Direction) -> (i: u8)
        requires
            old(self).wf(),
        ensures
            final(self)@ == spec_rotate(old(self)@, dir),
            i == final(self)@,
            final(self).wf(),
    {
        match dir {
            Direction::Right => {
                self.index = (self.index + 1) % TOTAL_IMAGES;
            },
            Direction::Left => {
                self.index = (self.index + TOTAL_IMAGES - 1) % TOTAL_IMAGES;
            },
        }
        self.index
    }
}

/// Both rotation steps land inside `[0, TOTAL_IMAGES)` from every valid
/// starting index: the selection can never leave the image set.
pub proof fn lemma_rotation_in_range(i: u8, dir: Direction)
    requires
        i < TOTAL_IMAGES,
    ensures
        spec_rotate(i, dir) < TOTAL_IMAGES,
{
}

/// Round trip: one step right followed by one step left returns to the
/// starting index, for every valid starting index.
pub proof fn lemma_rotation_round_trip(i: u8)
    requires
        i < TOTAL_IMAGES,
    ensures
        spec_rotate(spec_rotate(i, Direction::Right), Direction::Left) == i,
{
}

} // verus!
