//! Packed monochrome framebuffers in the controller's native scan order.
//!
//! The display is a 296 x 128 panel with one bit per pixel: bit value 0 is a
//! foreground (dark) pixel, bit value 1 is background. One framebuffer type
//! exists per physical mounting orientation of the display ribbon; the two
//! differ only in the coordinate transform applied before bit addressing.

use vstd::prelude::*;

verus! {

/// Number of packed bytes in one full frame: 296 * 128 pixels, one bit each.
pub const BUF_BYTES: usize = 296 * 128 / 8;

/// Packed bytes per native row group: 128 pixels, eight to a byte.
pub const ROW_BYTES: usize = 128 / 8;

/// One logical pixel update: color zero paints background, any other value
/// paints foreground.
#[derive(Clone, Copy, PartialEq, Eq, Structural, Debug)]
pub struct Pixel {
    pub x: u32,
    pub y: u32,
    pub color: u8,
}

/// The packed byte with the given bit forced to foreground (bit value 0).
pub open spec fn fg_byte(b: u8, bit: u8) -> u8 {
    b & !(1u8 << bit)
}

/// The packed byte with the given bit forced to background (bit value 1).
pub open spec fn bg_byte(b: u8, bit: u8) -> u8 {
    b | (1u8 << bit)
}

/// Whether the given bit of a packed byte holds a foreground pixel.
pub open spec fn bit_is_fg(b: u8, bit: u8) -> bool {
    b & (1u8 << bit) == 0
}

/// The packed bytes after forcing one bit of byte `i` to foreground or
/// background.
pub open spec fn stamp(s: Seq<u8>, i: int, bit: u8, fg: bool) -> Seq<u8> {
    s.update(i, if fg { fg_byte(s[i], bit) } else { bg_byte(s[i], bit) })
}

/// A frame that is entirely background: every packed byte is 0xFF.
pub open spec fn all_background() -> Seq<u8> {
    Seq::new(BUF_BYTES as nat, |i: int| 0xFFu8)
}

proof fn lemma_stamp_reads_back(b: u8, bit: u8)
    requires
        bit < 8,
    ensures
        bit_is_fg(fg_byte(b, bit), bit),
        !bit_is_fg(bg_byte(b, bit), bit),
{
    assert((b & !(1u8 << bit)) & (1u8 << bit) == 0 && (b | (1u8 << bit)) & (1u8 << bit) != 0)
        by (bit_vector)
        requires
            bit < 8,
    ;
}

/// Read-only access to a framebuffer's packed bytes, in the controller's
/// native scan order, ready to transfer verbatim as display RAM data.
pub trait GetBuf {
    /// Model of the packed bytes.
    spec fn buf(&self) -> Seq<u8>;

    /// The packed bitmap itself.
    fn get_buf(&self) -> (r: &[u8])
        ensures
            r@ == self.buf(),
    ;
}

/// Builds one frame's worth of background bytes.
fn background_bytes() -> (r: Vec<u8>)
    ensures
        r@ == all_background(),
{
    let mut v: Vec<u8> = Vec::new();
    let mut i: usize = 0;
    while i < BUF_BYTES
        invariant
            i <= BUF_BYTES,
            v@.len() == i as int,
            forall|j: int| 0 <= j < i ==> v@[j] == 0xFFu8,
        decreases BUF_BYTES - i,
    {
        v.push(0xFF);
        i += 1;
    }
    proof {
        assert(v@ =~= all_background());
    }
    v
}

/// Whether logical coordinates fall on the canvas of the direct orientation:
/// 128 pixels wide, 296 tall.
pub open spec fn button_in_bounds(x: u32, y: u32) -> bool {
    x < 128 && y < 296
}

/// Byte address of a logical coordinate under the direct mapping.
pub open spec fn button_index(x: u32, y: u32) -> int {
    x as int / 8 + y as int * (ROW_BYTES as int)
}

/// Bit position of a logical coordinate under the direct mapping.
pub open spec fn button_bit(x: u32) -> u8 {
    (7 - x % 8) as u8
}

/// The packed bytes after one pixel write under the direct mapping;
/// out-of-bounds coordinates leave the frame untouched.
pub open spec fn button_plot(s: Seq<u8>, x: u32, y: u32, color: u8) -> Seq<u8> {
    if button_in_bounds(x, y) {
        stamp(s, button_index(x, y), button_bit(x), color != 0)
    } else {
        s
    }
}

/// The packed bytes after a whole sequence of pixel writes under the direct
/// mapping, applied in order.
pub open spec fn button_plot_all(s: Seq<u8>, ps: Seq<Pixel>) -> Seq<u8>
    decreases ps.len(),
{
    if ps.len() == 0 {
        s
    } else {
        button_plot(button_plot_all(s, ps.drop_last()), ps.last().x, ps.last().y, ps.last().color)
    }
}

/// Whether the pixel at a logical coordinate reads back as foreground under
/// the direct mapping.
pub open spec fn button_pixel(s: Seq<u8>, x: u32, y: u32) -> bool {
    bit_is_fg(s[button_index(x, y)], button_bit(x))
}

/// Framebuffer for the mounting with the display ribbon at the bottom:
/// logical x runs along the 128-pixel axis and maps directly onto the
/// controller's RAM layout.
pub struct DisplayRibbonButton(Vec<u8>);

impl DisplayRibbonButton {
    /// The frame always holds exactly one panel's worth of packed bytes.
    pub open spec fn wf(&self) -> bool {
        self.buf().len() == BUF_BYTES as int
    }

    /// Set the pixel at logical (x, y): foreground when `color` is nonzero,
    /// background otherwise. Coordinates outside the canvas are silently
    /// ignored; that clipping is deliberate policy, not an error.
    pub fn draw_pixel(&mut self, x: u32, y: u32, color: u8)
        requires
            old(self).wf(),
        ensures
            final(self).wf(),
            final(self).buf() == button_plot(old(self).buf(), x, y, color),
    {
        if x <= 127 && y <= 295 {
            proof {
                assert(x as int / 8 <= 15) by (nonlinear_arith)
                    requires
                        x <= 127,
                ;
            }
            let i: usize = x as usize / 8 + y as usize * ROW_BYTES;
            let bit: u8 = (7 - x % 8) as u8;
            let cell: u8 = self.0[i];
            let updated: u8 = if color != 0 {
                cell & !(1u8 << bit)
            } else {
                cell | (1u8 << bit)
            };
            self.0[i] = updated;
        }
    }

    /// Apply a stream of pixel updates in order, clipping each to the canvas.
    pub fn draw(&mut self, pixels: &[Pixel])
        requires
            old(self).wf(),
        ensures
            final(self).wf(),
            final(self).buf() == button_plot_all(old(self).buf(), pixels@),
    {
        let ghost base = self.buf();
        let mut i: usize = 0;
        while i < pixels.len()
            invariant
                i <= pixels@.len(),
                self.wf(),
                self.buf() == button_plot_all(base, pixels@.take(i as int)),
            decreases pixels@.len() - i,
        {
            let p = pixels[i];
            self.draw_pixel(p.x, p.y, p.color);
            proof {
                assert(pixels@.take(i as int + 1).drop_last() =~= pixels@.take(i as int));
            }
            i += 1;
        }
        proof {
            assert(pixels@.take(pixels@.len() as int) =~= pixels@);
        }
    }
}

impl Default for DisplayRibbonButton {
    /// A fresh canvas is entirely background: every packed byte is 0xFF.
    fn default() -> (r: Self)
        ensures
            r.wf(),
            r.buf() == all_background(),
    {
        DisplayRibbonButton(background_bytes())
    }
}

impl GetBuf for DisplayRibbonButton {
    closed spec fn buf(&self) -> Seq<u8> {
        self.0@
    }

    fn get_buf(&self) -> (r: &[u8]) {
        self.0.as_slice()
    }
}

/// Whether logical coordinates fall on the canvas of the rotated-left
/// orientation: 296 pixels wide, 128 tall.
pub open spec fn left_in_bounds(x: u32, y: u32) -> bool {
    x < 296 && y < 128
}

/// Byte address of a logical coordinate under the rotated-left mapping:
/// the axes are swapped and x is mirrored.
pub open spec fn left_index(x: u32, y: u32) -> int {
    y as int / 8 + (295 - x as int) * (ROW_BYTES as int)
}

/// Bit position of a logical coordinate under the rotated-left mapping.
pub open spec fn left_bit(y: u32) -> u8 {
    (7 - y % 8) as u8
}

/// The packed bytes after one pixel write under the rotated-left mapping;
/// out-of-bounds coordinates leave the frame untouched.
pub open spec fn left_plot(s: Seq<u8>, x: u32, y: u32, color: u8) -> Seq<u8> {
    if left_in_bounds(x, y) {
        stamp(s, left_index(x, y), left_bit(y), color != 0)
    } else {
        s
    }
}

/// The packed bytes after a whole sequence of pixel writes under the
/// rotated-left mapping, applied in order.
pub open spec fn left_plot_all(s: Seq<u8>, ps: Seq<Pixel>) -> Seq<u8>
    decreases ps.len(),
{
    if ps.len() == 0 {
        s
    } else {
        left_plot(left_plot_all(s, ps.drop_last()), ps.last().x, ps.last().y, ps.last().color)
    }
}

/// Whether the pixel at a logical coordinate reads back as foreground under
/// the rotated-left mapping.
pub open spec fn left_pixel(s: Seq<u8>, x: u32, y: u32) -> bool {
    bit_is_fg(s[left_index(x, y)], left_bit(y))
}

/// Framebuffer for the mounting with the display ribbon on the left:
/// logical x runs along the 296-pixel axis, so coordinates are swapped and
/// mirrored onto the controller's RAM layout.
pub struct DisplayRibbonLeft(Vec<u8>);

impl DisplayRibbonLeft {
    /// The frame always holds exactly one panel's worth of packed bytes.
    pub open spec fn wf(&self) -> bool {
        self.buf().len() == BUF_BYTES as int
    }

    /// Set the pixel at logical (x, y): foreground when `color` is nonzero,
    /// background otherwise. Coordinates outside the canvas are silently
    /// ignored; that clipping is deliberate policy, not an error.
    pub fn draw_pixel(&mut self, x: u32, y: u32, color: u8)
        requires
            old(self).wf(),
        ensures
            final(self).wf(),
            final(self).buf() == left_plot(old(self).buf(), x, y, color),
    {
        if y <= 127 && x <= 295 {
            proof {
                assert(y as int / 8 <= 15) by (nonlinear_arith)
                    requires
                        y <= 127,
                ;
            }
            let i: usize = y as usize / 8 + (295 - x as usize) * ROW_BYTES;
            let bit: u8 = (7 - y % 8) as u8;
            let cell: u8 = self.0[i];
            let updated: u8 = if color != 0 {
                cell & !(1u8 << bit)
            } else {
                cell | (1u8 << bit)
            };
            self.0[i] = updated;
        }
    }

    /// Apply a stream of pixel updates in order, clipping each to the canvas.
    pub fn draw(&mut self, pixels: &[Pixel])
        requires
            old(self).wf(),
        ensures
            final(self).wf(),
            final(self).buf() == left_plot_all(old(self).buf(), pixels@),
    {
        let ghost base = self.buf();
        let mut i: usize = 0;
        while i < pixels.len()
            invariant
                i <= pixels@.len(),
                self.wf(),
                self.buf() == left_plot_all(base, pixels@.take(i as int)),
            decreases pixels@.len() - i,
        {
            let p = pixels[i];
            self.draw_pixel(p.x, p.y, p.color);
            proof {
                assert(pixels@.take(i as int + 1).drop_last() =~= pixels@.take(i as int));
            }
            i += 1;
        }
        proof {
            assert(pixels@.take(pixels@.len() as int) =~= pixels@);
        }
    }
}

impl Default for DisplayRibbonLeft {
    /// A fresh canvas is entirely background: every packed byte is 0xFF.
    fn default() -> (r: Self)
        ensures
            r.wf(),
            r.buf() == all_background(),
    {
        DisplayRibbonLeft(background_bytes())
    }
}

impl GetBuf for DisplayRibbonLeft {
    closed spec fn buf(&self) -> Seq<u8> {
        self.0@
    }

    fn get_buf(&self) -> (r: &[u8]) {
        self.0.as_slice()
    }
}

/// Law: within bounds, a pixel write under the direct mapping reads back as
/// what was written, whatever the prior content of the frame was. Writing a
/// nonzero color yields a foreground bit, writing zero yields a background
/// bit, and the last write wins.
pub proof fn lemma_button_plot_reads_back(s: Seq<u8>, x: u32, y: u32, color: u8)
    requires
        s.len() == BUF_BYTES as int,
        button_in_bounds(x, y),
    ensures
        button_pixel(button_plot(s, x, y, color), x, y) == (color != 0),
{
    assert(0 <= x as int / 8 <= 15) by (nonlinear_arith)
        requires
            x < 128,
    ;
    assert(0 <= x % 8 <= 7) by (nonlinear_arith);
    assert(0 <= button_index(x, y) < s.len());
    assert(button_bit(x) < 8);
    lemma_stamp_reads_back(s[button_index(x, y)], button_bit(x));
    assert(button_plot(s, x, y, color)[button_index(x, y)] == (if color != 0 {
        fg_byte(s[button_index(x, y)], button_bit(x))
    } else {
        bg_byte(s[button_index(x, y)], button_bit(x))
    }));
}

/// Law: outside the canvas, a pixel write under the direct mapping is a
/// no-op: the packed bytes are unchanged.
pub proof fn lemma_button_plot_clips(s: Seq<u8>, x: u32, y: u32, color: u8)
    requires
        !button_in_bounds(x, y),
    ensures
        button_plot(s, x, y, color) == s,
{
}

/// Law: within bounds, a pixel write under the rotated-left mapping reads
/// back as what was written, whatever the prior content of the frame was.
pub proof fn lemma_left_plot_reads_back(s: Seq<u8>, x: u32, y: u32, color: u8)
    requires
        s.len() == BUF_BYTES as int,
        left_in_bounds(x, y),
    ensures
        left_pixel(left_plot(s, x, y, color), x, y) == (color != 0),
{
    assert(0 <= y as int / 8 <= 15) by (nonlinear_arith)
        requires
            y < 128,
    ;
    assert(0 <= y % 8 <= 7) by (nonlinear_arith);
    assert(0 <= left_index(x, y) < s.len());
    assert(left_bit(y) < 8);
    lemma_stamp_reads_back(s[left_index(x, y)], left_bit(y));
    assert(left_plot(s, x, y, color)[left_index(x, y)] == (if color != 0 {
        fg_byte(s[left_index(x, y)], left_bit(y))
    } else {
        bg_byte(s[left_index(x, y)], left_bit(y))
    }));
}

/// Law: outside the canvas, a pixel write under the rotated-left mapping is
/// a no-op: the packed bytes are unchanged.
pub proof fn lemma_left_plot_clips(s: Seq<u8>, x: u32, y: u32, color: u8)
    requires
        !left_in_bounds(x, y),
    ensures
        left_plot(s, x, y, color) == s,
{
}

/// Law: under the rotated-left mapping the two extreme logical corners land
/// on opposite ends of the packed buffer. Logical (0, 0) addresses the first
/// bit of the last row group, and logical (295, 127) addresses the last bit
/// of the first row group.
pub proof fn lemma_left_corners()
    ensures
        left_index(0, 0) == BUF_BYTES - ROW_BYTES,
        left_bit(0) == 7,
        left_index(295, 127) == ROW_BYTES - 1,
        left_bit(127) == 0,
{
}

} // verus!
