use vstd::prelude::*;

verus! {

/// The largest side of a drawing surface, in physical pixels.
pub const MAX_TEXTURE_SIZE: u32 = 8192;

/// Nanopixels in a pixel.
pub const NANOPIXELS_PER_PIXEL: u64 = 1_000_000_000;

/// The narrowest the text column may be, in nanopixels (400 px).
pub const MIN_TEXT_WIDTH: u64 = 400_000_000_000;

/// A side of the drawing surface: the window's side, kept between one pixel
/// and the largest texture.
pub open spec fn spec_surface_side(side: u32) -> u32 {
    if side > MAX_TEXTURE_SIZE {
        MAX_TEXTURE_SIZE
    } else if side < 1 {
        1
    } else {
        side
    }
}

/// The size that the drawing surface takes for a window of `width` by
/// `height` physical pixels.
pub fn surface_size(width: u32, height: u32) -> (r: (u32, u32))
    ensures
        r == (spec_surface_side(width), spec_surface_side(height)),
{
    let w = if width < MAX_TEXTURE_SIZE { width } else { MAX_TEXTURE_SIZE };
    let w = if w > 1 { w } else { 1 };
    let h = if height < MAX_TEXTURE_SIZE { height } else { MAX_TEXTURE_SIZE };
    let h = if h > 1 { h } else { 1 };
    (w, h)
}

/// How frames reach the screen.
#[derive(Debug, Clone, Copy, PartialEq, Eq, Structural)]
pub enum PresentMode {
    AutoVsync,
    AutoNoVsync,
    Fifo,
    FifoRelaxed,
    Immediate,
    Mailbox,
}

/// Mailbox where the surface offers it, for smoother scrolling; first in,
/// first out otherwise.
pub fn choose_present_mode(available: &[PresentMode]) -> (r: PresentMode)
    ensures
        r == (if available@.contains(PresentMode::Mailbox) {
            PresentMode::Mailbox
        } else {
            PresentMode::Fifo
        }),
{
    let mut i: usize = 0;
    while i < available.len()
        invariant
            i <= available.len(),
            forall|j: int| 0 <= j < i ==> available@[j] != PresentMode::Mailbox,
        decreases available.len() - i,
    {
        if available[i] == PresentMode::Mailbox {
            assert(available@.contains(PresentMode::Mailbox)) by {
                assert(available@[i as int] == PresentMode::Mailbox);
            }
            return PresentMode::Mailbox;
        }
        i = i + 1;
    }
    PresentMode::Fifo
}

/// The index of the surface format to draw in, given for each format the
/// surface offers whether it is sRGB: the first sRGB one, or else the first.
pub fn choose_surface_format(is_srgb: &[bool]) -> (r: usize)
    requires
        is_srgb.len() > 0,
    ensures
        r < is_srgb.len(),
        forall|j: int| 0 <= j < r ==> !is_srgb@[j],
        is_srgb@[r as int] || (r == 0 && forall|j: int| 0 <= j < is_srgb.len() ==> !is_srgb@[j]),
{
    let mut i: usize = 0;
    while i < is_srgb.len()
        invariant
            i <= is_srgb.len(),
            forall|j: int| 0 <= j < i ==> !is_srgb@[j],
        decreases is_srgb.len() - i,
    {
        if is_srgb[i] {
            return i;
        }
        i = i + 1;
    }
    0
}

/// Where the script is drawn, in nanopixels.
#[derive(Debug, Clone, Copy, PartialEq, Eq, Structural)]
pub struct TextLayout {
    /// Width of the text column.
    pub width: u64,
    /// Distance from the window's left edge to the column's.
    pub left: i128,
    /// Distance from the window's top edge to the script's first line.
    pub top: i128,
}

/// The column width for a window `width` pixels wide: 60% of the window,
/// but no narrower than 400 px.
pub open spec fn spec_text_width(width: u32) -> int {
    let share = width * (NANOPIXELS_PER_PIXEL as int) * 3 / 5;
    if share >= MIN_TEXT_WIDTH { share } else { MIN_TEXT_WIDTH as int }
}

/// Placement of the script in a window of `width` by `height` pixels after
/// it scrolled `scroll` nanopixels: a column centred across the window,
/// whose first line starts half a window down and moves up as it scrolls.
pub open spec fn spec_text_layout(width: u32, height: u32, scroll: u64) -> TextLayout {
    let column = spec_text_width(width);
    TextLayout {
        width: column as u64,
        left: ((width * (NANOPIXELS_PER_PIXEL as int) - column) / 2) as i128,
        top: (height * (NANOPIXELS_PER_PIXEL as int) / 2 - scroll) as i128,
    }
}

/// Where to draw the script in a window of `width` by `height` pixels after
/// it scrolled `scroll` nanopixels.
pub fn text_layout(width: u32, height: u32, scroll: u64) -> (r: TextLayout)
    ensures
        r == spec_text_layout(width, height, scroll),
        r.left * 2 + r.width == width * NANOPIXELS_PER_PIXEL,
{
    let window: u64 = width as u64 * NANOPIXELS_PER_PIXEL;
    let share: u64 = width as u64 * 600_000_000;
    let column: u64 = if share >= MIN_TEXT_WIDTH { share } else { MIN_TEXT_WIDTH };
    let left: i128 = if window >= column {
        ((window - column) / 2) as i128
    } else {
        -(((column - window) / 2) as i128)
    };
    let top: i128 = height as i128 * 500_000_000 - scroll as i128;
    TextLayout { width: column, left, top }
}

} // verus!
