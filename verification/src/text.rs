//! Rendering characters of a packed monochrome font into pixel bytes for
//! the display. The font holds one glyph per character from `' '` on, each
//! `char_byte_count` bytes long, one bit per pixel with the lowest bit first.
use vstd::prelude::*;

verus! {

/// Pixel `p` of the glyph that starts at byte `start` of `data`: set or not.
pub open spec fn glyph_bit(data: Seq<u8>, start: int, p: int) -> bool {
    (data[start + p / 8] >> ((p % 8) as u8)) & 1u8 == 1u8
}

/// Position of byte `q` of pixel `p` when each pixel takes `color_len` bytes.
pub open spec fn pixel_index(p: int, q: int, color_len: int) -> int {
    p * color_len + q
}

/// A packed font and the size of its glyphs.
pub struct TextRenderer {
    data: &'static [u8],
    char_width: u32,
    char_height: u32,
    char_byte_count: usize,
}

proof fn lemma_pixel_bounds(p: int, q: int, n: int, cl: int)
    requires
        0 <= p < n,
        0 <= q < cl,
    ensures
        0 <= pixel_index(p, q, cl) < n * cl,
        pixel_index(p, q, cl) < (p + 1) * cl,
        p * cl <= pixel_index(p, q, cl),
{
    assert(0 <= p * cl) by (nonlinear_arith)
        requires
            0 <= p,
            0 <= q < cl,
    ;
    assert((p + 1) * cl <= n * cl) by (nonlinear_arith)
        requires
            p + 1 <= n,
            0 <= q < cl,
    ;
    assert((p + 1) * cl == p * cl + cl) by (nonlinear_arith);
}

impl TextRenderer {
    /// The font's bytes.
    pub closed spec fn font(&self) -> Seq<u8> {
        self.data@
    }

    /// Bytes per glyph.
    pub closed spec fn glyph_len(&self) -> nat {
        self.char_byte_count as nat
    }

    /// Glyph width in pixels.
    pub closed spec fn width(&self) -> u32 {
        self.char_width
    }

    /// Glyph height in pixels.
    pub closed spec fn height(&self) -> u32 {
        self.char_height
    }

    /// A renderer for the font `data` with glyphs of `char_width` by
    /// `char_height` pixels, one bit each.
    pub fn new(data: &'static [u8], char_width: u32, char_height: u32) -> (r: Self)
        requires
            char_width * char_height <= usize::MAX,
        ensures
            r.font() == data@,
            r.width() == char_width,
            r.height() == char_height,
            r.glyph_len() == char_width * char_height / 8,
    {
        let char_bit_count = char_width as usize * char_height as usize;
        TextRenderer { data, char_width, char_height, char_byte_count: char_bit_count / 8 }
    }

    /// Glyph width in pixels.
    pub fn char_width(&self) -> (r: u32)
        ensures
            r == self.width(),
    {
        self.char_width
    }

    /// Glyph height in pixels.
    pub fn char_height(&self) -> (r: u32)
        ensures
            r == self.height(),
    {
        self.char_height
    }

    /// Whether the font holds a glyph for `c`.
    pub fn has_glyph(&self, c: char) -> (r: bool)
        ensures
            r == (c >= ' ' && (c as int - 32) * self.glyph_len() + self.glyph_len()
                <= self.font().len()),
    {
        if ' ' > c {
            return false;
        }
        let idx = (c as u32 - ' ' as u32) as usize;
        let n = self.char_byte_count;
        let len = self.data.len();
        if n == 0 {
            assert(idx * 0 == 0) by (nonlinear_arith);
            return true;
        }
        if idx > len / n {
            proof {
                assert(idx * n > len) by (nonlinear_arith)
                    requires
                        idx > len / n,
                        n > 0,
                ;
            }
            return false;
        }
        proof {
            assert(idx * n <= len) by (nonlinear_arith)
                requires
                    idx <= len / n,
                    n > 0,
            ;
        }
        n <= len - idx * n
    }

    /// Writes the pixels of the glyph of `c` into the front of `buf`, pixel
    /// after pixel, each as the bytes of the colour `fc` where the glyph's
    /// bit is set and of `bc` where it is not; the rest of `buf` is kept.
    pub fn unpack(&self, c: char, buf: &mut [u8], fc: &[u8], bc: &[u8])
        requires
            c >= ' ',
            fc@.len() == bc@.len(),
            (c as int - 32) * self.glyph_len() + self.glyph_len() <= self.font().len(),
            self.glyph_len() * 8 * fc@.len() <= old(buf)@.len(),
        ensures
            final(buf)@.len() == old(buf)@.len(),
            forall|p: int, q: int|
                0 <= p < self.glyph_len() * 8 && 0 <= q < fc@.len() ==> #[trigger] final(buf)@[pixel_index(p, q, fc@.len() as int)] == if glyph_bit(
                    self.font(),
                    (c as int - 32) * self.glyph_len(),
                    p,
                ) {
                    fc@[q]
                } else {
                    bc@[q]
                },
            forall|k: int|
                self.glyph_len() * 8 * fc@.len() <= k < old(buf)@.len() ==> #[trigger] final(buf)@[k] == old(buf)@[k],
    {
        let color_len = fc.len();
        let ghost cl = color_len as int;
        let ghost n = self.char_byte_count as int;
        let ghost data = self.data@;
        let ghost orig = buf@;
        let blen = buf.len();
        let dlen = self.data.len();
        let idx = (c as u32 - ' ' as u32) as usize;
        proof {
            assert(0 <= idx * n) by (nonlinear_arith)
                requires
                    0 <= idx,
                    0 <= n,
            ;
            assert(idx == c as int - 32);
            assert(idx * n + n <= dlen);
        }
        let start = idx * self.char_byte_count;
        let ghost gstart = start as int;
        proof {
            assert(0 * 8 * cl == 0) by (nonlinear_arith);
        }
        let mut i: usize = 0;
        let mut k: usize = 0;
        while k < self.char_byte_count
            invariant
                0 <= k <= n,
                n == self.char_byte_count,
                data == self.data@,
                gstart == start,
                start + n <= data.len(),
                data.len() == dlen,
                orig.len() == blen,
                cl == color_len,
                cl == fc@.len(),
                cl == bc@.len(),
                n * 8 * cl <= orig.len(),
                buf@.len() == orig.len(),
                i == k * 8 * cl,
                forall|p: int, q: int|
                    0 <= p < k * 8 && 0 <= q < cl ==> #[trigger] buf@[pixel_index(p, q, cl)]
                        == if glyph_bit(data, gstart, p) {
                        fc@[q]
                    } else {
                        bc@[q]
                    },
                forall|x: int| i <= x < orig.len() ==> #[trigger] buf@[x] == orig[x],
            decreases n - k,
        {
            let byte = self.data[start + k];
            let mut code = byte;
            let mut j: usize = 0;
            proof {
                assert((k as int) * 8 * cl + 8 * cl == (k as int + 1) * 8 * cl) by (nonlinear_arith);
                assert((k as int + 1) * 8 * cl <= n * 8 * cl) by (nonlinear_arith)
                    requires
                        k + 1 <= n,
                        0 <= cl,
                ;
                assert(byte >> 0u8 == byte) by (bit_vector);
            }
            while j < 8
                invariant
                    0 <= k < n,
                    0 <= j <= 8,
                    n == self.char_byte_count,
                    data == self.data@,
                    gstart == start,
                    start + n <= data.len(),
                    data.len() == dlen,
                    orig.len() == blen,
                    byte == data[gstart + k],
                    code == byte >> (j as u8),
                    cl == color_len,
                    cl == fc@.len(),
                    cl == bc@.len(),
                    (k + 1) * 8 * cl <= orig.len(),
                    (k as int) * 8 * cl + 8 * cl == (k as int + 1) * 8 * cl,
                    buf@.len() == orig.len(),
                    i == (k * 8 + j) * cl,
                    forall|p: int, q: int|
                        0 <= p < k * 8 + j && 0 <= q < cl ==> #[trigger] buf@[pixel_index(
                            p,
                            q,
                            cl,
                        )] == if glyph_bit(data, gstart, p) {
                            fc@[q]
                        } else {
                            bc@[q]
                        },
                    forall|x: int| i <= x < orig.len() ==> #[trigger] buf@[x] == orig[x],
                decreases 8 - j,
            {
                let ghost p_now = k as int * 8 + j as int;
                proof {
                    assert((p_now + 1) * cl <= (k as int + 1) * 8 * cl) by (nonlinear_arith)
                        requires
                            p_now + 1 <= (k as int + 1) * 8,
                            0 <= cl,
                    ;
                    assert((p_now + 1) * cl == p_now * cl + cl) by (nonlinear_arith);
                    assert(p_now / 8 == k as int && p_now % 8 == j as int);
                }
                let set = code & 1 == 1;
                assert(set == glyph_bit(data, gstart, p_now));
                let color = if set {
                    fc
                } else {
                    bc
                };
                let mut q: usize = 0;
                while q < color_len
                    invariant
                        0 <= q <= cl,
                        cl == color_len,
                        cl == fc@.len(),
                        cl == bc@.len(),
                        color@ == (if set {
                            fc@
                        } else {
                            bc@
                        }),
                        i == p_now * cl,
                        i + cl <= orig.len(),
                        orig.len() == blen,
                        buf@.len() == orig.len(),
                        forall|p: int, qq: int|
                            0 <= p < p_now && 0 <= qq < cl ==> #[trigger] buf@[pixel_index(
                                p,
                                qq,
                                cl,
                            )] == if glyph_bit(data, gstart, p) {
                                fc@[qq]
                            } else {
                                bc@[qq]
                            },
                        forall|qq: int| 0 <= qq < q ==> #[trigger] buf@[i + qq] == color@[qq],
                        forall|x: int| i + q <= x < orig.len() ==> #[trigger] buf@[x] == orig[x],
                    decreases cl - q,
                {
                    let ghost before = buf@;
                    buf[i + q] = color[q];
                    proof {
                        assert forall|p: int, qq: int|
                            0 <= p < p_now && 0 <= qq < cl implies #[trigger] buf@[pixel_index(
                            p,
                            qq,
                            cl,
                        )] == before[pixel_index(p, qq, cl)] by {
                            lemma_pixel_bounds(p, qq, p_now, cl);
                        }
                    }
                    q = q + 1;
                }
                proof {
                    assert forall|p: int, qq: int|
                        0 <= p < p_now + 1 && 0 <= qq < cl implies #[trigger] buf@[pixel_index(
                        p,
                        qq,
                        cl,
                    )] == if glyph_bit(data, gstart, p) {
                        fc@[qq]
                    } else {
                        bc@[qq]
                    } by {
                        if p == p_now {
                            assert(pixel_index(p, qq, cl) == i + qq);
                        }
                    }
                    let c0 = code;
                    let jj = j as u8;
                    assert(c0 == byte >> jj && jj < 8 ==> c0 >> 1u8 == byte >> ((jj + 1) as u8))
                        by (bit_vector);
                }
                code = code >> 1;
                i = i + color_len;
                j = j + 1;
            }
            k = k + 1;
        }
        proof {
            assert forall|p: int, q: int|
                0 <= p < n * 8 && 0 <= q < cl implies #[trigger] buf@[pixel_index(p, q, cl)]
                == if glyph_bit(data, gstart, p) {
                fc@[q]
            } else {
                bc@[q]
            } by {}
        }
    }
}

} // verus!
