//! The editor window's logical size and the rules that bound it.

use vstd::prelude::*;

verus! {

/// Width the editor opens with.
pub const EDITOR_WIDTH: u32 = 900;

/// Height the editor opens with.
pub const EDITOR_HEIGHT: u32 = 560;

/// Smallest width the editor takes.
pub const MIN_WIDTH: u32 = 600;

/// Smallest height the editor takes.
pub const MIN_HEIGHT: u32 = 380;

/// Largest width the editor takes.
pub const MAX_WIDTH: u32 = 2560;

/// Largest height the editor takes.
pub const MAX_HEIGHT: u32 = 1600;

/// Whether a size lies within the editor's bounds.
pub open spec fn within_bounds(width: int, height: int) -> bool {
    &&& MIN_WIDTH <= width <= MAX_WIDTH
    &&& MIN_HEIGHT <= height <= MAX_HEIGHT
}

/// `v` brought into `lo..=hi` (for `lo <= hi`).
pub open spec fn clamp_int(v: int, lo: int, hi: int) -> int {
    if v < lo {
        lo
    } else if v > hi {
        hi
    } else {
        v
    }
}

/// The logical size of the editor, always within bounds.
pub struct EditorSize {
    width: u32,
    height: u32,
}

impl View for EditorSize {
    type V = (u32, u32);

    closed spec fn view(&self) -> (u32, u32) {
        (self.width, self.height)
    }
}

impl EditorSize {
    #[verifier::type_invariant]
    spec fn inv(self) -> bool {
        within_bounds(self.width as int, self.height as int)
    }

    /// The size the editor opens with.
    pub fn new() -> (r: Self)
        ensures
            r@ == (EDITOR_WIDTH, EDITOR_HEIGHT),
    {
        EditorSize { width: EDITOR_WIDTH, height: EDITOR_HEIGHT }
    }

    /// The current logical size, (width, height).
    pub fn size(&self) -> (r: (u32, u32))
        ensures
            r == self@,
            within_bounds(r.0 as int, r.1 as int),
    {
        proof {
            use_type_invariant(self);
        }
        (self.width, self.height)
    }

    /// The host sets the size: each side is clamped into its bounds. Returns
    /// the size now held.
    pub fn set_size(&mut self, width: u32, height: u32) -> (r: (u32, u32))
        ensures
            r.0 == clamp_int(width as int, MIN_WIDTH as int, MAX_WIDTH as int),
            r.1 == clamp_int(height as int, MIN_HEIGHT as int, MAX_HEIGHT as int),
            within_bounds(r.0 as int, r.1 as int),
            width >= MAX_WIDTH ==> r.0 == MAX_WIDTH,
            width <= MIN_WIDTH ==> r.0 == MIN_WIDTH,
            height >= MAX_HEIGHT ==> r.1 == MAX_HEIGHT,
            height <= MIN_HEIGHT ==> r.1 == MIN_HEIGHT,
            within_bounds(width as int, height as int) ==> r == (width, height),
            final(self)@ == r,
    {
        let w = if width < MIN_WIDTH {
            MIN_WIDTH
        } else if width > MAX_WIDTH {
            MAX_WIDTH
        } else {
            width
        };
        let h = if height < MIN_HEIGHT {
            MIN_HEIGHT
        } else if height > MAX_HEIGHT {
            MAX_HEIGHT
        } else {
            height
        };
        *self = EditorSize { width: w, height: h };
        (w, h)
    }

    /// The editor asks for a new size: it is taken only when both sides lie
    /// within bounds, and refused otherwise, leaving the size as it was.
    pub fn request_resize(&mut self, width: u32, height: u32) -> (accepted: bool)
        ensures
            accepted == within_bounds(width as int, height as int),
            accepted ==> final(self)@ == (width, height),
            !accepted ==> final(self)@ == old(self)@,
    {
        if MIN_WIDTH <= width && width <= MAX_WIDTH && MIN_HEIGHT <= height && height
            <= MAX_HEIGHT {
            *self = EditorSize { width, height };
            true
        } else {
            false
        }
    }
}

/// A size within bounds is kept as it is when the host sets it, and any size
/// the host sets ends up within bounds.
pub proof fn law_set_size_clamps_into_bounds(width: int, height: int)
    ensures
        within_bounds(
            clamp_int(width, MIN_WIDTH as int, MAX_WIDTH as int),
            clamp_int(height, MIN_HEIGHT as int, MAX_HEIGHT as int),
        ),
        within_bounds(width, height) ==> clamp_int(width, MIN_WIDTH as int, MAX_WIDTH as int)
            == width && clamp_int(height, MIN_HEIGHT as int, MAX_HEIGHT as int) == height,
{
}


/// Clamping keeps values inside `lo..=hi` unchanged, never leaves the range,
/// and never reverses the order of two values; these three facts together
/// make it the clamp (a value above the range goes to `hi`, one below to
/// `lo`).
pub proof fn law_clamp_is_monotone_and_in_range(v: int, w: int, lo: int, hi: int)
    requires
        lo <= hi,
    ensures
        lo <= clamp_int(v, lo, hi) <= hi,
        lo <= v <= hi ==> clamp_int(v, lo, hi) == v,
        v <= w ==> clamp_int(v, lo, hi) <= clamp_int(w, lo, hi),
        v >= hi ==> clamp_int(v, lo, hi) == hi,
        v <= lo ==> clamp_int(v, lo, hi) == lo,
{
}

/// The editor opens at 900 by 560 and takes any size from 600 by 380 up to
/// 2560 by 1600; the opening size lies within those bounds.
pub proof fn law_editor_dimensions()
    ensures
        EDITOR_WIDTH == 900 && EDITOR_HEIGHT == 560,
        MIN_WIDTH == 600 && MIN_HEIGHT == 380,
        MAX_WIDTH == 2560 && MAX_HEIGHT == 1600,
        within_bounds(EDITOR_WIDTH as int, EDITOR_HEIGHT as int),
{
}

/// A larger size asked by the host never gives a smaller editor: the sizes
/// `set_size` gives for two requests are ordered side by side as the
/// requests are, and each lies within the bounds.
pub proof fn law_set_size_is_monotone(w1: int, h1: int, w2: int, h2: int)
    requires
        w1 <= w2,
        h1 <= h2,
    ensures
        clamp_int(w1, MIN_WIDTH as int, MAX_WIDTH as int) <= clamp_int(
            w2,
            MIN_WIDTH as int,
            MAX_WIDTH as int,
        ),
        clamp_int(h1, MIN_HEIGHT as int, MAX_HEIGHT as int) <= clamp_int(
            h2,
            MIN_HEIGHT as int,
            MAX_HEIGHT as int,
        ),
        w2 >= MAX_WIDTH ==> clamp_int(w2, MIN_WIDTH as int, MAX_WIDTH as int) == MAX_WIDTH,
        h2 >= MAX_HEIGHT ==> clamp_int(h2, MIN_HEIGHT as int, MAX_HEIGHT as int) == MAX_HEIGHT,
{
    law_clamp_is_monotone_and_in_range(w1, w2, MIN_WIDTH as int, MAX_WIDTH as int);
    law_clamp_is_monotone_and_in_range(h1, h2, MIN_HEIGHT as int, MAX_HEIGHT as int);
}

} // verus!
