//! The frame buffer: a grid of `0xAARRGGBB` pixels, each with the tag of the
//! layer that drew it. The tags serve the compositor alone; the display
//! reads the pixels.

use vstd::prelude::*;

verus! {

/// Black with full alpha, the colour of a new buffer.
pub const OPAQUE_BLACK: u32 = 0xFF00_0000;

/// The tag of the background and of every pixel no layer has drawn.
pub const TAG_BACKGROUND: u8 = 0;

/// The largest layer tag: four bits.
pub const TAG_MAX: u8 = 15;

/// Whether a colour has a non-zero alpha byte.
pub open spec fn is_opaque(color: u32) -> bool {
    color >= 0x0100_0000
}

/// A colour with its alpha byte set to full.
pub open spec fn with_full_alpha(color: u32) -> u32 {
    (color % 0x0100_0000 + 0xFF00_0000) as u32
}

/// Whether the compositor lets a contribution replace what a pixel holds: the
/// contribution is opaque, and the pixel is transparent, is background, or
/// carries a tag that is not above that of the contribution.
pub open spec fn merge_accepts(dst_color: u32, dst_tag: u8, src_color: u32, src_tag: u8) -> bool {
    is_opaque(src_color) && (!is_opaque(dst_color) || dst_tag == TAG_BACKGROUND || src_tag
        >= dst_tag)
}

/// Colour and tag of a pixel after a contribution was offered to it.
pub open spec fn merged(dst: (u32, u8), src_color: u32, src_tag: u8) -> (u32, u8) {
    if merge_accepts(dst.0, dst.1, src_color, src_tag) {
        (src_color, src_tag)
    } else {
        dst
    }
}

/// The grey level of a colour: 299, 587 and 114 thousandths of red, green and blue.
pub open spec fn gray_level(color: u32) -> int {
    (((color as int / 0x1_0000) % 256) * 299 + ((color as int / 0x100) % 256) * 587 + (color as int
        % 256) * 114) / 1000
}

/// A colour turned grey, its alpha byte kept.
pub open spec fn gray_of(color: u32) -> u32 {
    ((color as int / 0x0100_0000) * 0x0100_0000 + gray_level(color) * 0x1_0101) as u32
}

/// Byte `k` of the red, green, blue, alpha form of a colour.
pub open spec fn rgba_byte(color: u32, k: int) -> u8 {
    if k == 0 {
        ((color as int / 0x1_0000) % 256) as u8
    } else if k == 1 {
        ((color as int / 0x100) % 256) as u8
    } else if k == 2 {
        (color as int % 256) as u8
    } else {
        (color as int / 0x0100_0000) as u8
    }
}

/// The colour of four bytes in the order red, green, blue, alpha.
pub open spec fn color_of_rgba(r: u8, g: u8, b: u8, a: u8) -> u32 {
    (a as int * 0x0100_0000 + r as int * 0x1_0000 + g as int * 0x100 + b as int) as u32
}

/// The entry of place (`x`, `y`) in a grid stored row by row, `width` to a row.
pub open spec fn grid_at<T>(grid: Seq<T>, width: int, x: int, y: int) -> T {
    grid[y * width + x]
}

/// A pixel of a grid `width` wide has one index, and that index is its own.
pub proof fn lemma_pixel_index(x: int, y: int, width: int, height: int)
    requires
        0 <= x < width,
        0 <= y < height,
    ensures
        0 <= y * width + x < width * height,
        (y * width + x) / width == y,
        (y * width + x) % width == x,
{
    vstd::arithmetic::div_mod::lemma_fundamental_div_mod_converse(y * width + x, width, y, x);
    assert(y * width + x < width * height) by (nonlinear_arith)
        requires
            0 <= x < width,
            0 <= y < height,
    ;
    assert(0 <= y * width) by (nonlinear_arith)
        requires
            0 <= y,
            0 <= width,
    ;
}

/// Every index of a grid is the index of a pixel.
pub proof fn lemma_index_pixel(i: int, width: int, height: int)
    requires
        0 <= i < width * height,
        0 < width,
    ensures
        0 <= i % width < width,
        0 <= i / width < height,
        (i / width) * width + i % width == i,
{
    vstd::arithmetic::div_mod::lemma_fundamental_div_mod(i, width);
    vstd::arithmetic::div_mod::lemma_mod_bound(i, width);
    assert((i / width) * width == width * (i / width)) by (nonlinear_arith);
    assert(i / width < height) by (nonlinear_arith)
        requires
            0 <= i < width * height,
            0 < width,
            0 <= i % width < width,
            (i / width) * width + i % width == i,
    ;
    assert(0 <= i / width) by (nonlinear_arith)
        requires
            0 <= i,
            0 < width,
            0 <= i % width < width,
            (i / width) * width + i % width == i,
    ;
}

/// The frame buffer.
#[derive(Clone)]
pub struct FrameBuffer {
    pub width: usize,
    pub height: usize,
    pub pixels: Vec<u32>,
    pub dirty: bool,
    pub tags: Vec<u8>,
}

impl FrameBuffer {
    pub const WIDTH_256: usize = 256;

    pub const WIDTH_320: usize = 320;

    pub const HEIGHT_224: usize = 224;

    pub const HEIGHT_240: usize = 240;

    pub const HEIGHT_256: usize = 256;

    /// There is one pixel and one tag for each place of the grid.
    pub open spec fn wf(&self) -> bool {
        &&& self.width * self.height <= usize::MAX
        &&& self.pixels@.len() == self.width * self.height
        &&& self.tags@.len() == self.width * self.height
    }

    /// Whether the buffer is well formed.
    pub fn is_well_formed(&self) -> (ok: bool)
        ensures
            ok == self.wf(),
    {
        match self.width.checked_mul(self.height) {
            Some(cells) => self.pixels.len() == cells && self.tags.len() == cells,
            None => false,
        }
    }

    /// Whether (`x`, `y`) is a place of the grid.
    #[verifier::inline]
    pub open spec fn contains(&self, x: int, y: int) -> bool {
        0 <= x < self.width && 0 <= y < self.height
    }

    /// The colour at (`x`, `y`).
    #[verifier::inline]
    pub open spec fn px(&self, x: int, y: int) -> u32 {
        grid_at(self.pixels@, self.width as int, x, y)
    }

    /// The layer tag at (`x`, `y`).
    #[verifier::inline]
    pub open spec fn tag(&self, x: int, y: int) -> u8 {
        grid_at(self.tags@, self.width as int, x, y)
    }

    /// Colour and tag at (`x`, `y`).
    #[verifier::inline]
    pub open spec fn cell(&self, x: int, y: int) -> (u32, u8) {
        (self.px(x, y), self.tag(x, y))
    }

    /// The grid has the size of `other`.
    pub open spec fn same_size(&self, other: &FrameBuffer) -> bool {
        self.width == other.width && self.height == other.height
    }

    /// Two buffers of one size hold the same pixels and tags where each
    /// place holds the same.
    pub proof fn lemma_equal_by_cells(&self, other: &FrameBuffer)
        requires
            self.wf(),
            other.wf(),
            self.same_size(other),
            forall|x: int, y: int| self.contains(x, y) ==> self.cell(x, y) == other.cell(x, y),
        ensures
            self.pixels@ == other.pixels@,
            self.tags@ == other.tags@,
    {
        let w = self.width as int;
        let h = self.height as int;
        assert forall|i: int| 0 <= i < self.pixels@.len() implies self.pixels@[i]
            == other.pixels@[i] && self.tags@[i] == other.tags@[i] by {
            if w > 0 {
                lemma_index_pixel(i, w, h);
                let x = i % w;
                let y = i / w;
                assert(0 <= x < w && 0 <= y < h);
                assert(y * w + x == i);
                assert(grid_at(self.pixels@, w, x, y) == grid_at(other.pixels@, w, x, y));
                assert(grid_at(self.tags@, w, x, y) == grid_at(other.tags@, w, x, y));
            } else {
                assert(w * h == 0) by (nonlinear_arith)
                    requires
                        w == 0,
                ;
            }
        }
        assert(self.pixels@ =~= other.pixels@);
        assert(self.tags@ =~= other.tags@);
    }

    /// A buffer of opaque black.
    pub fn new(width: usize, height: usize) -> (fb: FrameBuffer)
        requires
            width * height <= usize::MAX,
        ensures
            fb.wf(),
            fb.width == width,
            fb.height == height,
            fb.dirty,
            forall|i: int| 0 <= i < width * height ==> fb.pixels@[i] == OPAQUE_BLACK,
            forall|i: int| 0 <= i < width * height ==> fb.tags@[i] == TAG_BACKGROUND,
            forall|x: int, y: int| fb.contains(x, y) ==> fb.cell(x, y) == (OPAQUE_BLACK, TAG_BACKGROUND),
    {
        let fb = FrameBuffer {
            width,
            height,
            pixels: vec![OPAQUE_BLACK; width * height],
            dirty: true,
            tags: vec![TAG_BACKGROUND; width * height],
        };
        assert forall|x: int, y: int| fb.contains(x, y) implies fb.cell(x, y) == (
            OPAQUE_BLACK,
            TAG_BACKGROUND,
        ) by {
            lemma_pixel_index(x, y, width as int, height as int);
        }
        fb
    }

    /// A buffer of the standard size, 320 by 224.
    pub fn new_standard() -> (fb: FrameBuffer)
        ensures
            fb.wf(),
            fb.width == 320,
            fb.height == 224,
            fb.dirty,
            forall|x: int, y: int| fb.contains(x, y) ==> fb.cell(x, y) == (OPAQUE_BLACK, TAG_BACKGROUND),
    {
        FrameBuffer::new(320, 224)
    }

    /// A buffer around the given pixels, or `None` unless there are exactly
    /// `width * height` of them.
    pub fn from_pixels(width: usize, height: usize, pixels: Vec<u32>) -> (fb: Option<FrameBuffer>)
        ensures
            fb is Some <==> pixels@.len() == width * height,
            fb is Some ==> {
                &&& fb->0.wf()
                &&& fb->0.width == width
                &&& fb->0.height == height
                &&& fb->0.pixels@ == pixels@
                &&& fb->0.dirty
                &&& forall|i: int| 0 <= i < pixels@.len() ==> fb->0.tags@[i] == TAG_BACKGROUND
            },
    {
        match width.checked_mul(height) {
            Some(n) => {
                if pixels.len() == n {
                    Some(
                        FrameBuffer {
                            width,
                            height,
                            pixels,
                            dirty: true,
                            tags: vec![TAG_BACKGROUND; n],
                        },
                    )
                } else {
                    None
                }
            },
            None => {
                let _n: usize = pixels.len();
                None
            },
        }
    }

    /// Fills the buffer with `color` at full alpha and marks every pixel as background.
    pub fn clear(&mut self, color: u32)
        requires
            old(self).wf(),
        ensures
            final(self).wf(),
            final(self).same_size(old(self)),
            final(self).dirty,
            forall|i: int|
                0 <= i < final(self).pixels@.len() ==> final(self).pixels@[i] == with_full_alpha(
                    color,
                ),
            forall|i: int|
                0 <= i < final(self).tags@.len() ==> final(self).tags@[i] == TAG_BACKGROUND,
            forall|x: int, y: int| final(self).contains(x, y) ==> final(self).cell(x, y) == (
                    with_full_alpha(color),
                    TAG_BACKGROUND,
                ),
    {
        self.fill_all(color % 0x0100_0000 + 0xFF00_0000);
    }

    /// Fills the buffer with transparent black and marks every pixel as background.
    pub fn clear_transparent(&mut self)
        requires
            old(self).wf(),
        ensures
            final(self).wf(),
            final(self).same_size(old(self)),
            final(self).dirty,
            forall|i: int| 0 <= i < final(self).pixels@.len() ==> final(self).pixels@[i] == 0,
            forall|i: int|
                0 <= i < final(self).tags@.len() ==> final(self).tags@[i] == TAG_BACKGROUND,
            forall|x: int, y: int| final(self).contains(x, y) ==> final(self).cell(x, y) == (0u32, TAG_BACKGROUND),
    {
        self.fill_all(0);
    }

    fn fill_all(&mut self, value: u32)
        requires
            old(self).wf(),
        ensures
            final(self).wf(),
            final(self).same_size(old(self)),
            final(self).dirty,
            forall|i: int| 0 <= i < final(self).pixels@.len() ==> final(self).pixels@[i] == value,
            forall|i: int|
                0 <= i < final(self).tags@.len() ==> final(self).tags@[i] == TAG_BACKGROUND,
            forall|x: int, y: int| final(self).contains(x, y) ==> final(self).cell(x, y) == (value, TAG_BACKGROUND),
    {
        let n: usize = self.pixels.len();
        let mut i: usize = 0;
        while i < n
            invariant
                self.wf(),
                self.same_size(old(self)),
                n == self.pixels@.len(),
                i <= n,
                forall|k: int| 0 <= k < i ==> self.pixels@[k] == value,
                forall|k: int| 0 <= k < i ==> self.tags@[k] == TAG_BACKGROUND,
            decreases n - i,
        {
            self.pixels[i] = value;
            self.tags[i] = TAG_BACKGROUND;
            i += 1;
        }
        self.dirty = true;
        proof {
            assert forall|x: int, y: int| self.contains(x, y) implies self.cell(x, y) == (
                value,
                TAG_BACKGROUND,
            ) by {
                lemma_pixel_index(x, y, self.width as int, self.height as int);
            }
        }
    }

    fn put(&mut self, x: usize, y: usize, color: u32)
        requires
            old(self).wf(),
            x < old(self).width,
            y < old(self).height,
        ensures
            final(self).wf(),
            final(self).same_size(old(self)),
            final(self).tags == old(self).tags,
            final(self).dirty == old(self).dirty,
            final(self).pixels@ == old(self).pixels@.update(y * old(self).width + x, color),
            forall|x2: int, y2: int| final(self).contains(x2, y2) ==> final(self).px(x2, y2) == (if x2 == x && y2 == y {
                    color
                } else {
                    old(self).px(x2, y2)
                }),
    {
        proof {
            lemma_pixel_index(x as int, y as int, self.width as int, self.height as int);
        }
        let index: usize = y * self.width + x;
        self.pixels[index] = color;
        proof {
            assert forall|x2: int, y2: int| self.contains(x2, y2) implies self.px(x2, y2)
                == (if x2 == x && y2 == y {
                color
            } else {
                old(self).px(x2, y2)
            }) by {
                lemma_pixel_index(x2, y2, self.width as int, self.height as int);
            }
        }
    }

    fn at(&self, x: usize, y: usize) -> (color: u32)
        requires
            self.wf(),
            x < self.width,
            y < self.height,
        ensures
            color == self.px(x as int, y as int),
    {
        proof {
            lemma_pixel_index(x as int, y as int, self.width as int, self.height as int);
        }
        self.pixels[y * self.width + x]
    }

    /// Sets the pixel at (`x`, `y`); returns whether that is a place of the grid.
    pub fn set_pixel(&mut self, x: usize, y: usize, color: u32) -> (inside: bool)
        requires
            old(self).wf(),
        ensures
            final(self).wf(),
            final(self).same_size(old(self)),
            final(self).tags == old(self).tags,
            inside == old(self).contains(x as int, y as int),
            inside ==> final(self).dirty && final(self).pixels@ == old(self).pixels@.update(
                y * old(self).width + x,
                color,
            ),
            !inside ==> *final(self) == *old(self),
            forall|x2: int, y2: int| final(self).contains(x2, y2) ==> final(self).px(x2, y2) == (if x2 == x && y2 == y {
                    color
                } else {
                    old(self).px(x2, y2)
                }),
    {
        if x < self.width && y < self.height {
            self.put(x, y, color);
            self.dirty = true;
            true
        } else {
            false
        }
    }

    /// The pixel at (`x`, `y`), or `None` outside the grid.
    pub fn get_pixel(&self, x: usize, y: usize) -> (color: Option<u32>)
        requires
            self.wf(),
        ensures
            color == (if self.contains(x as int, y as int) {
                Some(self.px(x as int, y as int))
            } else {
                None
            }),
    {
        if x < self.width && y < self.height {
            Some(self.at(x, y))
        } else {
            None
        }
    }

    /// The layer tag at (`x`, `y`), or `None` outside the grid.
    pub fn get_tag(&self, x: usize, y: usize) -> (tag: Option<u8>)
        requires
            self.wf(),
        ensures
            tag == (if self.contains(x as int, y as int) {
                Some(self.tag(x as int, y as int))
            } else {
                None
            }),
    {
        if x < self.width && y < self.height {
            proof {
                lemma_pixel_index(x as int, y as int, self.width as int, self.height as int);
            }
            Some(self.tags[y * self.width + x])
        } else {
            None
        }
    }

    /// Offers a contribution of the layer `tag` to the pixel at (`x`, `y`).
    /// The pixel takes its colour and tag where the compositor's rule
    /// accepts it; returns whether it did.
    pub fn merge_pixel(&mut self, x: usize, y: usize, color: u32, tag: u8) -> (taken: bool)
        requires
            old(self).wf(),
        ensures
            final(self).wf(),
            final(self).same_size(old(self)),
            taken == (old(self).contains(x as int, y as int) && merge_accepts(
                old(self).px(x as int, y as int),
                old(self).tag(x as int, y as int),
                color,
                tag,
            )),
            taken ==> final(self).dirty,
            !taken ==> *final(self) == *old(self),
            forall|x2: int, y2: int| final(self).contains(x2, y2) ==> final(self).cell(x2, y2) == (if x2 == x && y2
                    == y {
                    merged(old(self).cell(x2, y2), color, tag)
                } else {
                    old(self).cell(x2, y2)
                }),
    {
        if x >= self.width || y >= self.height {
            return false;
        }
        proof {
            lemma_pixel_index(x as int, y as int, self.width as int, self.height as int);
        }
        let index: usize = y * self.width + x;
        let dst_color: u32 = self.pixels[index];
        let dst_tag: u8 = self.tags[index];
        if color >= 0x0100_0000 && (dst_color < 0x0100_0000 || dst_tag == TAG_BACKGROUND || tag
            >= dst_tag) {
            self.pixels[index] = color;
            self.tags[index] = tag;
            self.dirty = true;
            proof {
                assert forall|x2: int, y2: int| self.contains(x2, y2) implies self.cell(
                    x2,
                    y2,
                ) == (if x2 == x && y2 == y {
                    merged(old(self).cell(x2, y2), color, tag)
                } else {
                    old(self).cell(x2, y2)
                }) by {
                    lemma_pixel_index(x2, y2, self.width as int, self.height as int);
                }
            }
            true
        } else {
            false
        }
    }

    /// Whether the buffer changed since it was last marked clean.
    pub fn is_dirty(&self) -> (d: bool)
        ensures
            d == self.dirty,
    {
        self.dirty
    }

    /// Marks the buffer as shown.
    pub fn mark_clean(&mut self)
        ensures
            final(self).dirty == false,
            final(self).pixels == old(self).pixels,
            final(self).tags == old(self).tags,
            final(self).same_size(old(self)),
    {
        self.dirty = false;
    }

    /// The pixels, row by row.
    pub fn pixels(&self) -> (p: &[u32])
        ensures
            p@ == self.pixels@,
    {
        self.pixels.as_slice()
    }

    /// The pixels, open to writing; the buffer counts as changed.
    pub fn pixels_mut(&mut self) -> (p: &mut [u32])
        ensures
            p@ == old(self).pixels@,
            final(self).pixels@ == final(p)@,
            final(self).dirty,
            final(self).tags == old(self).tags,
            final(self).same_size(old(self)),
    {
        self.dirty = true;
        self.pixels.as_mut_slice()
    }

    /// Number of pixels.
    pub fn size(&self) -> (n: usize)
        requires
            self.wf(),
        ensures
            n == self.width * self.height,
    {
        self.pixels.len()
    }

    /// A copy of the pixels.
    pub fn to_argb_vec(&self) -> (v: Vec<u32>)
        ensures
            v@ == self.pixels@,
    {
        self.pixels.clone()
    }
}

/// The smaller of two numbers.
pub open spec fn min_of(a: int, b: int) -> int {
    if a <= b {
        a
    } else {
        b
    }
}

/// The larger of two numbers.
pub open spec fn max_of(a: int, b: int) -> int {
    if a >= b {
        a
    } else {
        b
    }
}

/// The last column or row of a span that starts at `start` and is `extent`
/// long, kept inside a grid of `limit` columns or rows.
pub open spec fn span_last(start: int, extent: int, limit: int) -> int {
    min_of(start + extent - 1, limit - 1)
}

fn lesser(a: usize, b: usize) -> (m: usize)
    ensures
        m == min_of(a as int, b as int),
{
    if a <= b {
        a
    } else {
        b
    }
}

fn greater(a: usize, b: usize) -> (m: usize)
    ensures
        m == max_of(a as int, b as int),
{
    if a >= b {
        a
    } else {
        b
    }
}

fn last_of_span(start: usize, extent: usize, limit: usize) -> (last: usize)
    requires
        start < limit,
        extent > 0,
    ensures
        last == span_last(start as int, extent as int, limit as int),
        start <= last < limit,
{
    if extent - 1 < limit - start {
        start + (extent - 1)
    } else {
        limit - 1
    }
}

impl FrameBuffer {
    fn fill_region(&mut self, x0: usize, y0: usize, x1: usize, y1: usize, color: u32)
        requires
            old(self).wf(),
            x0 <= x1 <= old(self).width,
            y0 <= y1 <= old(self).height,
        ensures
            final(self).wf(),
            final(self).same_size(old(self)),
            final(self).tags == old(self).tags,
            final(self).dirty == old(self).dirty,
            forall|x: int, y: int|
                final(self).contains(x, y) ==> final(self).px(x, y) == (if x0 <= x < x1 && y0 <= y
                    < y1 {
                    color
                } else {
                    old(self).px(x, y)
                }),
    {
        let mut row: usize = y0;
        while row < y1
            invariant
                self.wf(),
                self.same_size(old(self)),
                self.tags == old(self).tags,
                self.dirty == old(self).dirty,
                x0 <= x1 <= self.width,
                y0 <= row <= y1 <= self.height,
                forall|x: int, y: int|
                    self.contains(x, y) ==> self.px(x, y) == (if x0 <= x < x1 && y0 <= y < row {
                        color
                    } else {
                        old(self).px(x, y)
                    }),
            decreases y1 - row,
        {
            let mut col: usize = x0;
            while col < x1
                invariant
                    self.wf(),
                    self.same_size(old(self)),
                    self.tags == old(self).tags,
                    self.dirty == old(self).dirty,
                    x0 <= col <= x1 <= self.width,
                    y0 <= row < y1 <= self.height,
                    forall|x: int, y: int|
                        self.contains(x, y) ==> self.px(x, y) == (if x0 <= x < x1 && (y0 <= y < row
                            || (y == row && x < col)) {
                            color
                        } else {
                            old(self).px(x, y)
                        }),
                decreases x1 - col,
            {
                self.put(col, row, color);
                col += 1;
            }
            row += 1;
        }
    }

    /// Draws the pixels of row `y` from the lesser to the greater of `x1`
    /// and `x2`, both kept inside the grid. Nothing is drawn where `y` lies
    /// outside it or the grid is empty.
    pub fn draw_horizontal_line(&mut self, x1: usize, x2: usize, y: usize, color: u32)
        requires
            old(self).wf(),
        ensures
            final(self).wf(),
            final(self).same_size(old(self)),
            final(self).tags == old(self).tags,
            y >= old(self).height || old(self).width == 0 ==> *final(self) == *old(self),
            y < old(self).height && old(self).width > 0 ==> final(self).dirty,
            forall|px: int, py: int|
                final(self).contains(px, py) ==> final(self).px(px, py) == (if py == y && min_of(
                    min_of(x1 as int, x2 as int),
                    old(self).width - 1,
                ) <= px <= min_of(max_of(x1 as int, x2 as int), old(self).width - 1) {
                    color
                } else {
                    old(self).px(px, py)
                }),
    {
        if y >= self.height || self.width == 0 {
            return ;
        }
        let start: usize = lesser(lesser(x1, x2), self.width - 1);
        let end: usize = lesser(greater(x1, x2), self.width - 1);
        self.fill_region(start, y, end + 1, y + 1, color);
        self.dirty = true;
    }

    /// Draws the pixels of column `x` from the lesser to the greater of `y1`
    /// and `y2`, both kept inside the grid. Nothing is drawn where `x` lies
    /// outside it or the grid is empty.
    pub fn draw_vertical_line(&mut self, x: usize, y1: usize, y2: usize, color: u32)
        requires
            old(self).wf(),
        ensures
            final(self).wf(),
            final(self).same_size(old(self)),
            final(self).tags == old(self).tags,
            x >= old(self).width || old(self).height == 0 ==> *final(self) == *old(self),
            x < old(self).width && old(self).height > 0 ==> final(self).dirty,
            forall|px: int, py: int|
                final(self).contains(px, py) ==> final(self).px(px, py) == (if px == x && min_of(
                    min_of(y1 as int, y2 as int),
                    old(self).height - 1,
                ) <= py <= min_of(max_of(y1 as int, y2 as int), old(self).height - 1) {
                    color
                } else {
                    old(self).px(px, py)
                }),
    {
        if x >= self.width || self.height == 0 {
            return ;
        }
        let start: usize = lesser(lesser(y1, y2), self.height - 1);
        let end: usize = lesser(greater(y1, y2), self.height - 1);
        self.fill_region(x, start, x + 1, end + 1, color);
        self.dirty = true;
    }

    /// Whether (`px`, `py`) lies on the outline of the rectangle whose
    /// corners are (`x`, `y`) and (`x2`, `y2`).
    pub open spec fn on_outline(x: int, y: int, x2: int, y2: int, px: int, py: int) -> bool {
        x <= px <= x2 && y <= py <= y2 && (px == x || px == x2 || py == y || py == y2)
    }

    /// Draws the outline of the rectangle `width` by `height` whose top left
    /// corner is (`x`, `y`), cut off at the edge of the grid. Nothing is
    /// drawn where the corner lies outside the grid or the rectangle is empty.
    pub fn draw_rect(&mut self, x: usize, y: usize, width: usize, height: usize, color: u32)
        requires
            old(self).wf(),
        ensures
            final(self).wf(),
            final(self).same_size(old(self)),
            final(self).tags == old(self).tags,
            x >= old(self).width || y >= old(self).height || width == 0 || height == 0 ==> *final(self) == *old(self),
            forall|px: int, py: int|
                final(self).contains(px, py) && x < old(self).width && y < old(self).height && width
                    > 0 && height > 0 ==> final(self).px(px, py) == (if Self::on_outline(
                    x as int,
                    y as int,
                    span_last(x as int, width as int, old(self).width as int),
                    span_last(y as int, height as int, old(self).height as int),
                    px,
                    py,
                ) {
                    color
                } else {
                    old(self).px(px, py)
                }),
    {
        if x >= self.width || y >= self.height || width == 0 || height == 0 {
            return ;
        }
        let x2: usize = last_of_span(x, width, self.width);
        let y2: usize = last_of_span(y, height, self.height);
        self.fill_region(x, y, x2 + 1, y + 1, color);
        self.fill_region(x, y2, x2 + 1, y2 + 1, color);
        self.fill_region(x, y, x + 1, y2 + 1, color);
        self.fill_region(x2, y, x2 + 1, y2 + 1, color);
        self.dirty = true;
    }

    /// Fills the rectangle `width` by `height` whose top left corner is
    /// (`x`, `y`), cut off at the edge of the grid.
    pub fn fill_rect(&mut self, x: usize, y: usize, width: usize, height: usize, color: u32)
        requires
            old(self).wf(),
        ensures
            final(self).wf(),
            final(self).same_size(old(self)),
            final(self).tags == old(self).tags,
            x >= old(self).width || y >= old(self).height || width == 0 || height == 0 ==> *final(self) == *old(self),
            forall|px: int, py: int|
                final(self).contains(px, py) ==> final(self).px(px, py) == (if x <= px < x + width
                    && y <= py < y + height {
                    color
                } else {
                    old(self).px(px, py)
                }),
    {
        if x >= self.width || y >= self.height || width == 0 || height == 0 {
            return ;
        }
        let x2: usize = last_of_span(x, width, self.width);
        let y2: usize = last_of_span(y, height, self.height);
        self.fill_region(x, y, x2 + 1, y2 + 1, color);
        self.dirty = true;
    }

    /// The pixel that a copy from `src` brings to (`px`, `py`), where the
    /// area copied is `width` by `height`, taken at (`src_x`, `src_y`) and
    /// put at (`dest_x`, `dest_y`), and cut off at the edges of both grids.
    pub open spec fn blit_source(
        &self,
        src: &FrameBuffer,
        src_x: int,
        src_y: int,
        width: int,
        height: int,
        dest_x: int,
        dest_y: int,
        px: int,
        py: int,
    ) -> Option<u32> {
        if dest_x <= px < dest_x + width && dest_y <= py < dest_y + height && px - dest_x + src_x
            < src.width && py - dest_y + src_y < src.height && self.contains(px, py) {
            Some(src.px(px - dest_x + src_x, py - dest_y + src_y))
        } else {
            None
        }
    }

    fn copy_region(
        &mut self,
        src: &FrameBuffer,
        src_x: usize,
        src_y: usize,
        width: usize,
        height: usize,
        dest_x: usize,
        dest_y: usize,
        skip_transparent: bool,
    )
        requires
            old(self).wf(),
            src.wf(),
        ensures
            final(self).wf(),
            final(self).same_size(old(self)),
            final(self).tags == old(self).tags,
            dest_x >= old(self).width || dest_y >= old(self).height || src_x >= src.width || src_y
                >= src.height ==> *final(self) == *old(self),
            dest_x < old(self).width && dest_y < old(self).height && src_x < src.width && src_y
                < src.height ==> final(self).dirty,
            forall|px: int, py: int|
                final(self).contains(px, py) ==> final(self).px(px, py) == (match old(self).blit_source(
                    src,
                    src_x as int,
                    src_y as int,
                    width as int,
                    height as int,
                    dest_x as int,
                    dest_y as int,
                    px,
                    py,
                ) {
                    Some(c) => if skip_transparent && !is_opaque(c) {
                        old(self).px(px, py)
                    } else {
                        c
                    },
                    None => old(self).px(px, py),
                }),
    {
        if dest_x >= self.width || dest_y >= self.height {
            return ;
        }
        if src_x >= src.width || src_y >= src.height {
            return ;
        }
        let copy_width: usize = lesser(lesser(width, self.width - dest_x), src.width - src_x);
        let copy_height: usize = lesser(lesser(height, self.height - dest_y), src.height - src_y);
        let mut y: usize = 0;
        while y < copy_height
            invariant
                self.wf(),
                src.wf(),
                self.same_size(old(self)),
                self.tags == old(self).tags,
                self.dirty == old(self).dirty,
                dest_x < self.width,
                dest_y < self.height,
                src_x < src.width,
                src_y < src.height,
                copy_width == min_of(
                    min_of(width as int, self.width - dest_x),
                    src.width - src_x,
                ),
                copy_height == min_of(
                    min_of(height as int, self.height - dest_y),
                    src.height - src_y,
                ),
                y <= copy_height,
                forall|px: int, py: int|
                    self.contains(px, py) ==> self.px(px, py) == (if py < dest_y + y {
                        match old(self).blit_source(
                            src,
                            src_x as int,
                            src_y as int,
                            width as int,
                            height as int,
                            dest_x as int,
                            dest_y as int,
                            px,
                            py,
                        ) {
                            Some(c) => if skip_transparent && !is_opaque(c) {
                                old(self).px(px, py)
                            } else {
                                c
                            },
                            None => old(self).px(px, py),
                        }
                    } else {
                        old(self).px(px, py)
                    }),
            decreases copy_height - y,
        {
            let mut x: usize = 0;
            while x < copy_width
                invariant
                    self.wf(),
                    src.wf(),
                    self.same_size(old(self)),
                    self.tags == old(self).tags,
                    self.dirty == old(self).dirty,
                    dest_x < self.width,
                    dest_y < self.height,
                    src_x < src.width,
                    src_y < src.height,
                    copy_width == min_of(
                        min_of(width as int, self.width - dest_x),
                        src.width - src_x,
                    ),
                    copy_height == min_of(
                        min_of(height as int, self.height - dest_y),
                        src.height - src_y,
                    ),
                    y < copy_height,
                    x <= copy_width,
                    forall|px: int, py: int|
                        self.contains(px, py) ==> self.px(px, py) == (if py < dest_y + y || (py
                            == dest_y + y && px < dest_x + x) {
                            match old(self).blit_source(
                                src,
                                src_x as int,
                                src_y as int,
                                width as int,
                                height as int,
                                dest_x as int,
                                dest_y as int,
                                px,
                                py,
                            ) {
                                Some(c) => if skip_transparent && !is_opaque(c) {
                                    old(self).px(px, py)
                                } else {
                                    c
                                },
                                None => old(self).px(px, py),
                            }
                        } else {
                            old(self).px(px, py)
                        }),
                decreases copy_width - x,
            {
                let c: u32 = src.at(src_x + x, src_y + y);
                if !(skip_transparent && c < 0x0100_0000) {
                    self.put(dest_x + x, dest_y + y, c);
                }
                x += 1;
            }
            y += 1;
        }
        self.dirty = true;
    }

    /// Copies an area of `src` into this buffer, cut off at the edges of both.
    pub fn blit(
        &mut self,
        src: &FrameBuffer,
        src_x: usize,
        src_y: usize,
        width: usize,
        height: usize,
        dest_x: usize,
        dest_y: usize,
    )
        requires
            old(self).wf(),
            src.wf(),
        ensures
            final(self).wf(),
            final(self).same_size(old(self)),
            final(self).tags == old(self).tags,
            dest_x >= old(self).width || dest_y >= old(self).height || src_x >= src.width || src_y
                >= src.height ==> *final(self) == *old(self),
            forall|px: int, py: int|
                final(self).contains(px, py) ==> final(self).px(px, py) == (match old(self).blit_source(
                    src,
                    src_x as int,
                    src_y as int,
                    width as int,
                    height as int,
                    dest_x as int,
                    dest_y as int,
                    px,
                    py,
                ) {
                    Some(c) => c,
                    None => old(self).px(px, py),
                }),
    {
        self.copy_region(src, src_x, src_y, width, height, dest_x, dest_y, false);
    }

    /// Copies an area of `src` as `blit` does, but leaves a pixel as it is
    /// where the pixel of `src` has a zero alpha byte.
    pub fn blit_transparent(
        &mut self,
        src: &FrameBuffer,
        src_x: usize,
        src_y: usize,
        width: usize,
        height: usize,
        dest_x: usize,
        dest_y: usize,
    )
        requires
            old(self).wf(),
            src.wf(),
        ensures
            final(self).wf(),
            final(self).same_size(old(self)),
            final(self).tags == old(self).tags,
            dest_x >= old(self).width || dest_y >= old(self).height || src_x >= src.width || src_y
                >= src.height ==> *final(self) == *old(self),
            forall|px: int, py: int|
                final(self).contains(px, py) ==> final(self).px(px, py) == (match old(self).blit_source(
                    src,
                    src_x as int,
                    src_y as int,
                    width as int,
                    height as int,
                    dest_x as int,
                    dest_y as int,
                    px,
                    py,
                ) {
                    Some(c) => if is_opaque(c) {
                        c
                    } else {
                        old(self).px(px, py)
                    },
                    None => old(self).px(px, py),
                }),
    {
        self.copy_region(src, src_x, src_y, width, height, dest_x, dest_y, true);
    }

    /// Replaces every pixel by the palette entry that its low byte selects.
    pub fn apply_palette(&mut self, palette: &[u32; 256])
        requires
            old(self).wf(),
        ensures
            final(self).wf(),
            final(self).same_size(old(self)),
            final(self).tags == old(self).tags,
            final(self).dirty,
            forall|i: int|
                0 <= i < old(self).pixels@.len() ==> final(self).pixels@[i] == palette@[old(self).pixels@[i] as int % 256],
    {
        let n: usize = self.pixels.len();
        let mut i: usize = 0;
        while i < n
            invariant
                self.wf(),
                self.same_size(old(self)),
                self.tags == old(self).tags,
                n == self.pixels@.len(),
                i <= n,
                forall|k: int|
                    0 <= k < i ==> self.pixels@[k] == palette@[old(self).pixels@[k] as int % 256],
                forall|k: int| i <= k < n ==> self.pixels@[k] == old(self).pixels@[k],
            decreases n - i,
        {
            let index: usize = (self.pixels[i] % 256) as usize;
            self.pixels[i] = palette[index];
            i += 1;
        }
        self.dirty = true;
    }

    /// Turns every pixel grey by the integer weights 299, 587 and 114 per
    /// thousand; the alpha byte stays.
    pub fn convert_to_grayscale(&mut self)
        requires
            old(self).wf(),
        ensures
            final(self).wf(),
            final(self).same_size(old(self)),
            final(self).tags == old(self).tags,
            final(self).dirty,
            forall|i: int|
                0 <= i < old(self).pixels@.len() ==> final(self).pixels@[i] == gray_of(
                    old(self).pixels@[i],
                ),
    {
        let n: usize = self.pixels.len();
        let mut i: usize = 0;
        while i < n
            invariant
                self.wf(),
                self.same_size(old(self)),
                self.tags == old(self).tags,
                n == self.pixels@.len(),
                i <= n,
                forall|k: int| 0 <= k < i ==> self.pixels@[k] == gray_of(old(self).pixels@[k]),
                forall|k: int| i <= k < n ==> self.pixels@[k] == old(self).pixels@[k],
            decreases n - i,
        {
            let pixel: u32 = self.pixels[i];
            let a: u32 = pixel / 0x0100_0000;
            let r: u32 = (pixel / 0x1_0000) % 256;
            let g: u32 = (pixel / 0x100) % 256;
            let b: u32 = pixel % 256;
            let gray: u32 = (r * 299 + g * 587 + b * 114) / 1000;
            self.pixels[i] = a * 0x0100_0000 + gray * 0x1_0101;
            i += 1;
        }
        self.dirty = true;
    }

    /// The pixels as bytes, four to a pixel: red, green, blue, alpha.
    pub fn to_rgba_bytes(&self) -> (bytes: Vec<u8>)
        ensures
            bytes@.len() == 4 * self.pixels@.len(),
            forall|i: int|
                0 <= i < bytes@.len() ==> bytes@[i] == rgba_byte(self.pixels@[i / 4], i % 4),
    {
        let mut bytes: Vec<u8> = Vec::new();
        let n: usize = self.pixels.len();
        let mut i: usize = 0;
        while i < n
            invariant
                n == self.pixels@.len(),
                i <= n,
                bytes@.len() == 4 * i,
                forall|k: int|
                    0 <= k < bytes@.len() ==> bytes@[k] == rgba_byte(self.pixels@[k / 4], k % 4),
            decreases n - i,
        {
            let pixel: u32 = self.pixels[i];
            bytes.push(((pixel / 0x1_0000) % 256) as u8);
            bytes.push(((pixel / 0x100) % 256) as u8);
            bytes.push((pixel % 256) as u8);
            bytes.push((pixel / 0x0100_0000) as u8);
            i += 1;
        }
        bytes
    }

    /// A buffer from bytes in the order red, green, blue, alpha, or `None`
    /// unless there are exactly four bytes for each pixel.
    pub fn from_rgba_bytes(width: usize, height: usize, bytes: &[u8]) -> (fb: Option<FrameBuffer>)
        ensures
            fb is Some <==> bytes@.len() == width * height * 4,
            fb is Some ==> {
                &&& fb->0.wf()
                &&& fb->0.width == width
                &&& fb->0.height == height
                &&& fb->0.dirty
                &&& forall|i: int|
                    0 <= i < width * height ==> fb->0.pixels@[i] == color_of_rgba(
                        bytes@[4 * i],
                        bytes@[4 * i + 1],
                        bytes@[4 * i + 2],
                        bytes@[4 * i + 3],
                    )
                &&& forall|i: int| 0 <= i < width * height ==> fb->0.tags@[i] == TAG_BACKGROUND
            },
    {
        let len: usize = bytes.len();
        let n: usize = match width.checked_mul(height) {
            Some(n) => n,
            None => {
                return None;
            },
        };
        if len % 4 != 0 || len / 4 != n {
            return None;
        }
        let mut pixels: Vec<u32> = Vec::new();
        let mut i: usize = 0;
        while i < n
            invariant
                len == bytes@.len(),
                len == 4 * n,
                i <= n,
                pixels@.len() == i,
                forall|k: int|
                    0 <= k < i ==> pixels@[k] == color_of_rgba(
                        bytes@[4 * k],
                        bytes@[4 * k + 1],
                        bytes@[4 * k + 2],
                        bytes@[4 * k + 3],
                    ),
            decreases n - i,
        {
            let r: u32 = bytes[4 * i] as u32;
            let g: u32 = bytes[4 * i + 1] as u32;
            let b: u32 = bytes[4 * i + 2] as u32;
            let a: u32 = bytes[4 * i + 3] as u32;
            pixels.push(a * 0x0100_0000 + r * 0x1_0000 + g * 0x100 + b);
            i += 1;
        }
        Some(FrameBuffer { width, height, pixels, dirty: true, tags: vec![TAG_BACKGROUND; n] })
    }
}

/// A rearrangement of the grid.
#[derive(Clone, Copy, Debug, PartialEq, Eq, Structural)]
pub enum Transform {
    /// Top and bottom exchanged.
    FlipVertical,
    /// Left and right exchanged.
    FlipHorizontal,
    /// A quarter turn clockwise; width and height change places.
    Rotate90,
}

impl Transform {
    /// Width of the grid after the rearrangement of a `width` by `height` grid.
    pub open spec fn width_after(self, width: int, height: int) -> int {
        match self {
            Transform::Rotate90 => height,
            _ => width,
        }
    }

    /// Height of the grid after the rearrangement of a `width` by `height` grid.
    pub open spec fn height_after(self, width: int, height: int) -> int {
        match self {
            Transform::Rotate90 => width,
            _ => height,
        }
    }

    /// The place of a `width` by `height` grid whose pixel the place (`x`, `y`)
    /// of the rearranged grid shows.
    pub open spec fn source(self, width: int, height: int, x: int, y: int) -> (int, int) {
        match self {
            Transform::FlipVertical => (x, height - 1 - y),
            Transform::FlipHorizontal => (width - 1 - x, y),
            Transform::Rotate90 => (y, height - 1 - x),
        }
    }
}

/// The column or row of a grid `size` wide that place `i` of a grid `scaled` wide shows.
pub open spec fn nearest(i: int, size: int, scaled: int) -> int {
    (i * size) / scaled
}

fn nearest_index(i: usize, size: usize, scaled: usize) -> (n: usize)
    requires
        i < scaled,
        size > 0,
    ensures
        n == nearest(i as int, size as int, scaled as int),
        n < size,
{
    assert(i * size <= 0xFFFF_FFFF_FFFF_FFFF * 0xFFFF_FFFF_FFFF_FFFF) by (nonlinear_arith)
        requires
            0 <= i <= 0xFFFF_FFFF_FFFF_FFFF,
            0 <= size <= 0xFFFF_FFFF_FFFF_FFFF,
    ;
    let product: u128 = i as u128 * size as u128;
    let q: u128 = product / scaled as u128;
    proof {
        let p = i as int * size as int;
        let s = scaled as int;
        vstd::arithmetic::div_mod::lemma_fundamental_div_mod(p, s);
        vstd::arithmetic::div_mod::lemma_mod_bound(p, s);
        assert(p / s < size) by (nonlinear_arith)
            requires
                0 <= i < s,
                0 < size,
                p == i * size,
                p == s * (p / s) + p % s,
                0 <= p % s < s,
        ;
        assert(0 <= p / s) by (nonlinear_arith)
            requires
                0 <= p,
                0 < s,
                p == s * (p / s) + p % s,
                0 <= p % s < s,
        ;
    }
    q as usize
}

impl FrameBuffer {
    /// Tiles the rectangle `width` by `height` at (`x`, `y`), cut off at the
    /// edge of the grid, with the pattern `tile`, which is `tile_width` by
    /// `tile_height`. Nothing is drawn where the corner lies outside the
    /// grid, the pattern is empty or `tile` has another length than the
    /// pattern.
    pub fn fill_with_tile(
        &mut self,
        tile: &[u32],
        tile_width: usize,
        tile_height: usize,
        x: usize,
        y: usize,
        width: usize,
        height: usize,
    )
        requires
            old(self).wf(),
        ensures
            final(self).wf(),
            final(self).same_size(old(self)),
            final(self).tags == old(self).tags,
            x >= old(self).width || y >= old(self).height || tile_width == 0 || tile_height == 0
                || tile@.len() != tile_width * tile_height ==> *final(self) == *old(self),
            forall|px: int, py: int|
                final(self).contains(px, py) && x < old(self).width && y < old(self).height
                    && tile_width > 0 && tile_height > 0 && tile@.len() == tile_width * tile_height
                    ==> final(self).px(px, py) == (if x <= px < x + width && y <= py < y + height {
                    grid_at(
                        tile@,
                        tile_width as int,
                        (px - x) % (tile_width as int),
                        (py - y) % (tile_height as int),
                    )
                } else {
                    old(self).px(px, py)
                }),
    {
        if x >= self.width || y >= self.height || tile_width == 0 || tile_height == 0 {
            return ;
        }
        let len: usize = tile.len();
        match tile_width.checked_mul(tile_height) {
            Some(n) => {
                if len != n {
                    return ;
                }
            },
            None => {
                return ;
            },
        }
        let x_end: usize = x + lesser(width, self.width - x);
        let y_end: usize = y + lesser(height, self.height - y);
        let mut ty: usize = y;
        while ty < y_end
            invariant
                self.wf(),
                self.same_size(old(self)),
                self.tags == old(self).tags,
                self.dirty == old(self).dirty,
                tile_width > 0,
                tile_height > 0,
                tile@.len() == tile_width * tile_height,
                tile_width * tile_height <= usize::MAX,
                x < self.width,
                y < self.height,
                x_end == x + min_of(width as int, self.width - x),
                y_end == y + min_of(height as int, self.height - y),
                y <= ty <= y_end,
                forall|px: int, py: int|
                    self.contains(px, py) ==> self.px(px, py) == (if x <= px < x + width && y <= py
                        < ty {
                        grid_at(
                            tile@,
                            tile_width as int,
                            (px - x) % (tile_width as int),
                            (py - y) % (tile_height as int),
                        )
                    } else {
                        old(self).px(px, py)
                    }),
            decreases y_end - ty,
        {
            let tile_y: usize = (ty - y) % tile_height;
            let mut tx: usize = x;
            while tx < x_end
                invariant
                    self.wf(),
                    self.same_size(old(self)),
                    self.tags == old(self).tags,
                    self.dirty == old(self).dirty,
                    tile_width > 0,
                    tile_height > 0,
                    tile@.len() == tile_width * tile_height,
                    tile_width * tile_height <= usize::MAX,
                    x < self.width,
                    y < self.height,
                    x_end == x + min_of(width as int, self.width - x),
                    y_end == y + min_of(height as int, self.height - y),
                    y <= ty < y_end,
                    x <= tx <= x_end,
                    tile_y == (ty - y) % (tile_height as int),
                    forall|px: int, py: int|
                        self.contains(px, py) ==> self.px(px, py) == (if x <= px < x + width && (y
                            <= py < ty || (py == ty && px < tx)) {
                            grid_at(
                                tile@,
                                tile_width as int,
                                (px - x) % (tile_width as int),
                                (py - y) % (tile_height as int),
                            )
                        } else {
                            old(self).px(px, py)
                        }),
                decreases x_end - tx,
            {
                let tile_x: usize = (tx - x) % tile_width;
                proof {
                    lemma_pixel_index(
                        tile_x as int,
                        tile_y as int,
                        tile_width as int,
                        tile_height as int,
                    );
                }
                let c: u32 = tile[tile_y * tile_width + tile_x];
                self.put(tx, ty, c);
                tx += 1;
            }
            ty += 1;
        }
        self.dirty = true;
    }

    /// A copy scaled to `thumb_width` by `thumb_height`, each pixel taken
    /// from the nearest place above and left. The copy of an empty buffer is black.
    pub fn create_thumbnail(&self, thumb_width: usize, thumb_height: usize) -> (thumb: FrameBuffer)
        requires
            self.wf(),
            thumb_width * thumb_height <= usize::MAX,
        ensures
            thumb.wf(),
            thumb.width == thumb_width,
            thumb.height == thumb_height,
            forall|x: int, y: int|
                thumb.contains(x, y) ==> thumb.px(x, y) == (if self.width == 0 || self.height == 0 {
                    OPAQUE_BLACK
                } else {
                    self.px(
                        nearest(x, self.width as int, thumb_width as int),
                        nearest(y, self.height as int, thumb_height as int),
                    )
                }),
            forall|x: int, y: int| thumb.contains(x, y) ==> thumb.tag(x, y) == TAG_BACKGROUND,
    {
        let mut thumb = FrameBuffer::new(thumb_width, thumb_height);
        if self.width == 0 || self.height == 0 {
            return thumb;
        }
        let mut y: usize = 0;
        while y < thumb_height
            invariant
                self.wf(),
                self.width > 0,
                self.height > 0,
                thumb.wf(),
                thumb.width == thumb_width,
                thumb.height == thumb_height,
                y <= thumb_height,
                forall|px: int, py: int| thumb.contains(px, py) ==> thumb.tag(px, py) == TAG_BACKGROUND,
                forall|px: int, py: int|
                    thumb.contains(px, py) && py < y ==> thumb.px(px, py) == self.px(
                        nearest(px, self.width as int, thumb_width as int),
                        nearest(py, self.height as int, thumb_height as int),
                    ),
            decreases thumb_height - y,
        {
            let src_y: usize = nearest_index(y, self.height, thumb_height);
            let mut x: usize = 0;
            while x < thumb_width
                invariant
                    self.wf(),
                    self.width > 0,
                    self.height > 0,
                    thumb.wf(),
                    thumb.width == thumb_width,
                    thumb.height == thumb_height,
                    y < thumb_height,
                    x <= thumb_width,
                    src_y == nearest(y as int, self.height as int, thumb_height as int),
                    src_y < self.height,
                    forall|px: int, py: int|
                        thumb.contains(px, py) ==> thumb.tag(px, py) == TAG_BACKGROUND,
                    forall|px: int, py: int|
                        thumb.contains(px, py) && (py < y || (py == y && px < x)) ==> thumb.px(
                            px,
                            py,
                        ) == self.px(
                            nearest(px, self.width as int, thumb_width as int),
                            nearest(py, self.height as int, thumb_height as int),
                        ),
                decreases thumb_width - x,
            {
                let src_x: usize = nearest_index(x, self.width, thumb_width);
                let c: u32 = self.at(src_x, src_y);
                thumb.put(x, y, c);
                x += 1;
            }
            y += 1;
        }
        thumb
    }

    /// Changes the size. The pixels that both sizes have keep their colour,
    /// new pixels are opaque black, and every tag is background. Nothing
    /// changes where the size is the old one.
    pub fn resize(&mut self, new_width: usize, new_height: usize)
        requires
            old(self).wf(),
            new_width * new_height <= usize::MAX,
        ensures
            final(self).wf(),
            final(self).width == new_width,
            final(self).height == new_height,
            new_width == old(self).width && new_height == old(self).height ==> *final(self) == *old(self),
            new_width != old(self).width || new_height != old(self).height ==> {
                &&& final(self).dirty
                &&& forall|x: int, y: int|
                    final(self).contains(x, y) ==> final(self).px(x, y) == (if old(self).contains(
                        x,
                        y,
                    ) {
                        old(self).px(x, y)
                    } else {
                        OPAQUE_BLACK
                    })
                &&& forall|x: int, y: int|
                    final(self).contains(x, y) ==> final(self).tag(x, y) == TAG_BACKGROUND
            },
    {
        if new_width == self.width && new_height == self.height {
            return ;
        }
        let mut out = FrameBuffer::new(new_width, new_height);
        out.copy_region(self, 0, 0, self.width, self.height, 0, 0, false);
        out.dirty = true;
        *self = out;
    }

    fn transformed(&self, transform: Transform) -> (out: FrameBuffer)
        requires
            self.wf(),
        ensures
            out.wf(),
            out.width == transform.width_after(self.width as int, self.height as int),
            out.height == transform.height_after(self.width as int, self.height as int),
            forall|x: int, y: int|
                out.contains(x, y) ==> out.px(x, y) == self.px(
                    transform.source(self.width as int, self.height as int, x, y).0,
                    transform.source(self.width as int, self.height as int, x, y).1,
                ),
            forall|x: int, y: int| out.contains(x, y) ==> out.tag(x, y) == TAG_BACKGROUND,
    {
        let rotate: bool = match transform {
            Transform::Rotate90 => true,
            _ => false,
        };
        let (w, h): (usize, usize) = if rotate {
            (self.height, self.width)
        } else {
            (self.width, self.height)
        };
        assert(w * h == self.width * self.height) by (nonlinear_arith)
            requires
                (w == self.width && h == self.height) || (w == self.height && h == self.width),
        ;
        let mut out = FrameBuffer::new(w, h);
        let mut y: usize = 0;
        while y < h
            invariant
                self.wf(),
                out.wf(),
                out.width == w,
                out.height == h,
                w == transform.width_after(self.width as int, self.height as int),
                h == transform.height_after(self.width as int, self.height as int),
                y <= h,
                forall|px: int, py: int| out.contains(px, py) ==> out.tag(px, py) == TAG_BACKGROUND,
                forall|px: int, py: int|
                    out.contains(px, py) && py < y ==> out.px(px, py) == self.px(
                        transform.source(self.width as int, self.height as int, px, py).0,
                        transform.source(self.width as int, self.height as int, px, py).1,
                    ),
            decreases h - y,
        {
            let mut x: usize = 0;
            while x < w
                invariant
                    self.wf(),
                    out.wf(),
                    out.width == w,
                    out.height == h,
                    w == transform.width_after(self.width as int, self.height as int),
                    h == transform.height_after(self.width as int, self.height as int),
                    y < h,
                    x <= w,
                    forall|px: int, py: int|
                        out.contains(px, py) ==> out.tag(px, py) == TAG_BACKGROUND,
                    forall|px: int, py: int|
                        out.contains(px, py) && (py < y || (py == y && px < x)) ==> out.px(px, py)
                            == self.px(
                            transform.source(self.width as int, self.height as int, px, py).0,
                            transform.source(self.width as int, self.height as int, px, py).1,
                        ),
                decreases w - x,
            {
                let c: u32 = match transform {
                    Transform::FlipVertical => self.at(x, self.height - 1 - y),
                    Transform::FlipHorizontal => self.at(self.width - 1 - x, y),
                    Transform::Rotate90 => self.at(y, self.height - 1 - x),
                };
                out.put(x, y, c);
                x += 1;
            }
            y += 1;
        }
        out
    }

    /// Exchanges top and bottom.
    pub fn flip_vertical(&mut self)
        requires
            old(self).wf(),
        ensures
            final(self).wf(),
            final(self).same_size(old(self)),
            final(self).tags == old(self).tags,
            final(self).dirty,
            forall|x: int, y: int|
                final(self).contains(x, y) ==> final(self).px(x, y) == old(self).px(
                    x,
                    old(self).height - 1 - y,
                ),
    {
        let out = self.transformed(Transform::FlipVertical);
        self.pixels = out.pixels;
        self.dirty = true;
    }

    /// Exchanges left and right.
    pub fn flip_horizontal(&mut self)
        requires
            old(self).wf(),
        ensures
            final(self).wf(),
            final(self).same_size(old(self)),
            final(self).tags == old(self).tags,
            final(self).dirty,
            forall|x: int, y: int|
                final(self).contains(x, y) ==> final(self).px(x, y) == old(self).px(
                    old(self).width - 1 - x,
                    y,
                ),
    {
        let out = self.transformed(Transform::FlipHorizontal);
        self.pixels = out.pixels;
        self.dirty = true;
    }

    /// Turns the picture a quarter clockwise: the pixel at (`x`, `y`) goes to
    /// (`height - 1 - y`, `x`), and width and height change places. Every tag
    /// becomes background.
    pub fn rotate_90_cw(&mut self)
        requires
            old(self).wf(),
        ensures
            final(self).wf(),
            final(self).width == old(self).height,
            final(self).height == old(self).width,
            final(self).dirty,
            forall|x: int, y: int|
                final(self).contains(x, y) ==> final(self).px(x, y) == old(self).px(
                    y,
                    old(self).height - 1 - x,
                ),
            forall|x: int, y: int|
                final(self).contains(x, y) ==> final(self).tag(x, y) == TAG_BACKGROUND,
    {
        let mut out = self.transformed(Transform::Rotate90);
        out.dirty = true;
        *self = out;
    }
}

impl Default for FrameBuffer {
    fn default() -> (fb: FrameBuffer)
        ensures
            fb.wf(),
            fb.width == 320,
            fb.height == 224,
    {
        FrameBuffer::new_standard()
    }
}

} // verus!
