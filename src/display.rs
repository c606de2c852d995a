use vstd::prelude::*;

use crate::uc8151::{steps_view, update_model, Step, Uc8151};

verus! {

/// Width of the panel in pixels (columns).
pub const WIDTH: usize = 296;

/// Height of the panel in pixels (rows).
pub const HEIGHT: usize = 128;

/// Number of bytes in a packed frame: one bit per pixel.
pub const FRAME_BYTES: usize = 4736;

pub open spec fn in_bounds(x: int, y: int) -> bool {
    0 <= x < WIDTH as int && 0 <= y < HEIGHT as int
}

/// Byte that holds pixel (x, y): each column is HEIGHT / 8 bytes, eight rows per byte.
pub open spec fn byte_index(x: int, y: int) -> int {
    y / 8 + x * (HEIGHT as int / 8)
}

/// Bit position of row y inside its byte: the top row of a group is the most significant bit.
pub open spec fn bit_offset(y: int) -> u8 {
    (7 - y % 8) as u8
}

/// Whether bit `o` of `b` is one.
pub open spec fn bit_set(b: u8, o: u8) -> bool {
    (b >> o) & 1u8 == 1u8
}

pub open spec fn bit_value(v: bool) -> u8 {
    if v {
        1u8
    } else {
        0u8
    }
}

/// `b` with bit `o` replaced by `v`.
pub open spec fn with_bit(b: u8, o: u8, v: bool) -> u8 {
    (b & !(1u8 << o)) | (bit_value(v) << o)
}

/// The frame after pixel (x, y) is set to `v`; a pixel outside the panel leaves it as it is.
pub open spec fn write_spec(bits: Seq<u8>, x: int, y: int, v: bool) -> Seq<u8> {
    if in_bounds(x, y) {
        bits.update(byte_index(x, y), with_bit(bits[byte_index(x, y)], bit_offset(y), v))
    } else {
        bits
    }
}

/// What a read of pixel (x, y) reports: its bit, or `None` outside the panel.
pub open spec fn read_spec(bits: Seq<u8>, x: int, y: int) -> Option<bool> {
    if in_bounds(x, y) {
        Some(bit_set(bits[byte_index(x, y)], bit_offset(y)))
    } else {
        None
    }
}

/// An all-zero frame.
pub open spec fn blank() -> Seq<u8> {
    Seq::new(FRAME_BYTES as nat, |i: int| 0u8)
}

proof fn lemma_with_bit(b: u8, o: u8, v: bool, o2: u8)
    requires
        o < 8,
        o2 < 8,
    ensures
        bit_set(with_bit(b, o, v), o) == v,
        o2 != o ==> bit_set(with_bit(b, o, v), o2) == bit_set(b, o2),
{
    let bv = bit_value(v);
    assert(bv == 0 || bv == 1);
    assert(((b & !(1u8 << o)) | (bv << o)) >> o & 1u8 == bv) by (bit_vector)
        requires
            o < 8,
            bv == 0 || bv == 1,
    ;
    assert(o2 != o ==> ((b & !(1u8 << o)) | (bv << o)) >> o2 & 1u8 == (b >> o2) & 1u8)
        by (bit_vector)
        requires
            o < 8,
            o2 < 8,
            bv == 0 || bv == 1,
    ;
}

proof fn lemma_distinct_pixels(x: int, y: int, x2: int, y2: int)
    requires
        in_bounds(x, y),
        in_bounds(x2, y2),
        x != x2 || y != y2,
    ensures
        byte_index(x, y) != byte_index(x2, y2) || bit_offset(y) != bit_offset(y2),
{
    if byte_index(x, y) == byte_index(x2, y2) {
        assert(x == x2 && y / 8 == y2 / 8) by (nonlinear_arith)
            requires
                y / 8 + x * 16 == y2 / 8 + x2 * 16,
                0 <= y < 128,
                0 <= y2 < 128,
                0 <= x,
                0 <= x2,
        ;
        assert(y % 8 != y2 % 8);
    }
}

/// Reading a pixel back after a write gives the value written, and leaves every other pixel
/// as it was; a write outside the panel changes nothing.
pub proof fn lemma_write_read_back(bits: Seq<u8>, x: int, y: int, v: bool, x2: int, y2: int)
    requires
        bits.len() == FRAME_BYTES,
    ensures
        in_bounds(x, y) ==> read_spec(write_spec(bits, x, y, v), x, y) == Some(v),
        (x2 != x || y2 != y) ==> read_spec(write_spec(bits, x, y, v), x2, y2) == read_spec(
            bits,
            x2,
            y2,
        ),
        !in_bounds(x, y) ==> write_spec(bits, x, y, v) == bits,
        write_spec(bits, x, y, v).len() == FRAME_BYTES,
{
    if in_bounds(x, y) {
        lemma_index_in_range(x, y);
        lemma_with_bit(bits[byte_index(x, y)], bit_offset(y), v, bit_offset(y));
        if in_bounds(x2, y2) && (x2 != x || y2 != y) {
            lemma_index_in_range(x2, y2);
            lemma_distinct_pixels(x, y, x2, y2);
            lemma_with_bit(bits[byte_index(x, y)], bit_offset(y), v, bit_offset(y2));
        }
    }
}

/// Every pixel of a cleared frame reads back as false.
pub proof fn lemma_blank_reads_false(x: int, y: int)
    requires
        in_bounds(x, y),
    ensures
        read_spec(blank(), x, y) == Some(false),
{
    lemma_index_in_range(x, y);
    let o = bit_offset(y);
    assert((0u8 >> o) & 1u8 == 0u8) by (bit_vector);
}

pub proof fn lemma_index_in_range(x: int, y: int)
    requires
        in_bounds(x, y),
    ensures
        0 <= byte_index(x, y) < FRAME_BYTES as int,
{
    assert(0 <= x * 16 <= 295 * 16) by (nonlinear_arith)
        requires
            0 <= x < 296,
    ;
}

/// The byte that every byte of a frame holds when all its pixels are `v`.
pub open spec fn full_byte(v: bool) -> u8 {
    if v {
        0xFFu8
    } else {
        0u8
    }
}

proof fn lemma_byte_from_bits(b: u8, v: bool)
    requires
        bit_set(b, 0),
        bit_set(b, 1),
        bit_set(b, 2),
        bit_set(b, 3),
        bit_set(b, 4),
        bit_set(b, 5),
        bit_set(b, 6),
        bit_set(b, 7),
    ensures
        b == 0xFFu8,
{
    assert(b == 0xFFu8) by (bit_vector)
        requires
            (b >> 0u8) & 1u8 == 1u8,
            (b >> 1u8) & 1u8 == 1u8,
            (b >> 2u8) & 1u8 == 1u8,
            (b >> 3u8) & 1u8 == 1u8,
            (b >> 4u8) & 1u8 == 1u8,
            (b >> 5u8) & 1u8 == 1u8,
            (b >> 6u8) & 1u8 == 1u8,
            (b >> 7u8) & 1u8 == 1u8,
    ;
}

proof fn lemma_byte_from_clear_bits(b: u8)
    requires
        !bit_set(b, 0),
        !bit_set(b, 1),
        !bit_set(b, 2),
        !bit_set(b, 3),
        !bit_set(b, 4),
        !bit_set(b, 5),
        !bit_set(b, 6),
        !bit_set(b, 7),
    ensures
        b == 0u8,
{
    assert(b == 0u8) by (bit_vector)
        requires
            (b >> 0u8) & 1u8 != 1u8,
            (b >> 1u8) & 1u8 != 1u8,
            (b >> 2u8) & 1u8 != 1u8,
            (b >> 3u8) & 1u8 != 1u8,
            (b >> 4u8) & 1u8 != 1u8,
            (b >> 5u8) & 1u8 != 1u8,
            (b >> 6u8) & 1u8 != 1u8,
            (b >> 7u8) & 1u8 != 1u8,
    ;
}

/// The pixel that bit `k` of byte `i` holds.
proof fn lemma_pixel_of_bit(i: int, k: u8)
    requires
        0 <= i < FRAME_BYTES,
        k < 8,
    ensures
        in_bounds(i / 16, (i % 16) * 8 + 7 - k),
        byte_index(i / 16, (i % 16) * 8 + 7 - k) == i,
        bit_offset((i % 16) * 8 + 7 - k) == k,
{
    let y = (i % 16) * 8 + 7 - k;
    assert(y / 8 == i % 16 && y % 8 == 7 - k);
    vstd::arithmetic::div_mod::lemma_fundamental_div_mod(i, 16);
    assert(i / 16 * 16 == 16 * (i / 16)) by (nonlinear_arith);
    assert(i / 16 < 296) by (nonlinear_arith)
        requires
            0 <= i < 4736,
    ;
}

/// A frame whose every pixel reads `v` is all ones when `v` holds and all zeros when not.
pub proof fn lemma_uniform_frame_bytes(bits: Seq<u8>, v: bool)
    requires
        bits.len() == FRAME_BYTES,
        forall|x: int, y: int| in_bounds(x, y) ==> #[trigger] read_spec(bits, x, y) == Some(v),
    ensures
        bits == Seq::new(FRAME_BYTES as nat, |i: int| full_byte(v)),
{
    assert forall|i: int| 0 <= i < FRAME_BYTES implies bits[i] == full_byte(v) by {
        assert forall|k: u8| k < 8 implies bit_set(bits[i], k) == v by {
            lemma_pixel_of_bit(i, k);
            assert(read_spec(bits, i / 16, (i % 16) * 8 + 7 - k) == Some(v));
        }
        if v {
            lemma_byte_from_bits(bits[i], v);
        } else {
            lemma_byte_from_clear_bits(bits[i]);
        }
    }
    assert(bits =~= Seq::new(FRAME_BYTES as nat, |i: int| full_byte(v)));
}

/// A packed one-bit-per-pixel image of the whole panel.
pub struct Framebuffer {
    bits: Vec<u8>,
}

impl View for Framebuffer {
    type V = Seq<u8>;

    closed spec fn view(&self) -> Seq<u8> {
        self.bits@
    }
}

impl Framebuffer {
    pub open spec fn wf(&self) -> bool {
        self@.len() == FRAME_BYTES
    }

    /// An all-zero framebuffer.
    pub fn new() -> (r: Framebuffer)
        ensures
            r.wf(),
            r@ == blank(),
    {
        let bits: Vec<u8> = vec![0u8; FRAME_BYTES];
        let r = Framebuffer { bits };
        assert(r@ =~= blank());
        r
    }

    /// Sets pixel (x, y) to `value`; a pixel outside the panel is ignored.
    pub fn write(&mut self, x: usize, y: usize, value: bool)
        requires
            old(self).wf(),
        ensures
            final(self).wf(),
            final(self)@ == write_spec(old(self)@, x as int, y as int, value),
    {
        proof {
            lemma_write_read_back(self@, x as int, y as int, value, x as int, y as int);
        }
        if x >= WIDTH || y >= HEIGHT {
            return;
        }
        proof {
            lemma_index_in_range(x as int, y as int);
        }
        let address: usize = y / 8 + x * (HEIGHT / 8);
        let o: u8 = 7 - (y % 8) as u8;
        let b: u8 = if value {
            1
        } else {
            0
        };
        let cur: u8 = self.bits[address];
        let m: u8 = !(1u8 << o);
        self.bits.set(address, (cur & m) | (b << o));
    }

    /// Reads pixel (x, y) back: `None` outside the panel.
    pub fn read(&self, x: usize, y: usize) -> (r: Option<bool>)
        requires
            self.wf(),
        ensures
            r == read_spec(self@, x as int, y as int),
    {
        if x >= WIDTH || y >= HEIGHT {
            return None;
        }
        proof {
            lemma_index_in_range(x as int, y as int);
        }
        let address: usize = y / 8 + x * (HEIGHT / 8);
        let o: u8 = 7 - (y % 8) as u8;
        Some((self.bits[address] >> o) & 1u8 == 1u8)
    }

    /// Sets every pixel to zero.
    pub fn clear(&mut self)
        requires
            old(self).wf(),
        ensures
            final(self).wf(),
            final(self)@ == blank(),
    {
        let n: usize = self.bits.len();
        let mut i: usize = 0;
        while i < n
            invariant
                n == FRAME_BYTES,
                self.bits@.len() == n,
                0 <= i <= n,
                forall|j: int| 0 <= j < i ==> self.bits@[j] == 0u8,
            decreases n - i,
        {
            self.bits.set(i, 0u8);
            i = i + 1;
        }
        assert(self@ =~= blank());
    }

    /// The packed frame, as the panel takes it.
    pub fn bytes(&self) -> (r: &Vec<u8>)
        requires
            self.wf(),
        ensures
            r@ == self@,
            r@.len() == WIDTH * HEIGHT / 8,
    {
        &self.bits
    }
}

impl Default for Framebuffer {
    fn default() -> (r: Framebuffer)
        ensures
            r.wf(),
            r@ == blank(),
    {
        Framebuffer::new()
    }
}

/// The two colours a drawing can ask for.
#[derive(Clone, Copy, PartialEq, Eq, Debug, Structural)]
pub enum BinaryColor {
    Off,
    On,
}

/// A drawing request: colour the pixel at (x, y).
#[derive(Clone, Copy, PartialEq, Eq, Debug, Structural)]
pub struct Pixel {
    pub x: i32,
    pub y: i32,
    pub color: BinaryColor,
}

/// The bit a colour is stored as. `Off` is what the panel shows as black, so it
/// is stored as one: images whose background is `On` come out as drawn.
pub open spec fn color_bit(c: BinaryColor) -> bool {
    c == BinaryColor::Off
}

/// The frame after the pixels are drawn in order; those outside the panel are skipped.
pub open spec fn draw_spec(bits: Seq<u8>, pixels: Seq<Pixel>) -> Seq<u8>
    decreases pixels.len(),
{
    if pixels.len() == 0 {
        bits
    } else {
        let p = pixels.last();
        write_spec(draw_spec(bits, pixels.drop_last()), p.x as int, p.y as int, color_bit(p.color))
    }
}

/// A panel controller paired with the frame it shows.
pub struct Display {
    pub uc8151: Uc8151,
    pub framebuffer: Framebuffer,
}

impl Display {
    pub fn new(uc8151: Uc8151) -> (r: Display)
        ensures
            r.uc8151 == uc8151,
            r.framebuffer.wf(),
            r.framebuffer@ == blank(),
    {
        Display { uc8151, framebuffer: Framebuffer::new() }
    }

    /// The steps that send the current frame to the panel and refresh it.
    pub fn push_to_display(&mut self) -> (r: Vec<Step>)
        requires
            old(self).framebuffer.wf(),
        ensures
            steps_view(r@) == update_model(old(self).framebuffer@),
            final(self).framebuffer == old(self).framebuffer,
            final(self).uc8151.phase == old(self).uc8151.phase,
    {
        self.uc8151.update(self.framebuffer.bytes().as_slice())
    }

    /// Clears the frame; the panel changes only at the next push.
    pub fn clear_buffer(&mut self)
        requires
            old(self).framebuffer.wf(),
        ensures
            final(self).framebuffer.wf(),
            final(self).framebuffer@ == blank(),
            final(self).uc8151 == old(self).uc8151,
    {
        self.framebuffer.clear();
    }

    /// Draws the pixels in order, skipping those outside the panel.
    pub fn draw_iter(&mut self, pixels: &Vec<Pixel>)
        requires
            old(self).framebuffer.wf(),
        ensures
            final(self).framebuffer.wf(),
            final(self).framebuffer@ == draw_spec(old(self).framebuffer@, pixels@),
            final(self).uc8151 == old(self).uc8151,
    {
        let n: usize = pixels.len();
        let mut i: usize = 0;
        while i < n
            invariant
                n == pixels@.len(),
                0 <= i <= n,
                self.framebuffer.wf(),
                self.framebuffer@ == draw_spec(old(self).framebuffer@, pixels@.take(i as int)),
                self.uc8151 == old(self).uc8151,
            decreases n - i,
        {
            let p: Pixel = pixels[i];
            proof {
                assert(pixels@.take(i as int + 1).drop_last() =~= pixels@.take(i as int));
                lemma_write_read_back(
                    self.framebuffer@,
                    p.x as int,
                    p.y as int,
                    color_bit(p.color),
                    0,
                    0,
                );
            }
            if p.x >= 0 && p.y >= 0 && (p.x as usize) < WIDTH && (p.y as usize) < HEIGHT {
                self.framebuffer.write(p.x as usize, p.y as usize, p.color == BinaryColor::Off);
            }
            i = i + 1;
        }
        assert(pixels@.take(n as int) =~= pixels@);
    }

    /// The panel's size in pixels, width first.
    pub fn size(&self) -> (r: (u32, u32))
        ensures
            r == (WIDTH as u32, HEIGHT as u32),
    {
        (WIDTH as u32, HEIGHT as u32)
    }
}

} // verus!
