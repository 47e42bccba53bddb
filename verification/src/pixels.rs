//! A rectangular buffer of RGBA texels in host memory.

use vstd::prelude::*;

verus! {

/// One texel: red, green, blue and alpha, eight bits each.
#[derive(Clone, Copy, Debug, PartialEq, Eq, Structural)]
pub struct Rgba {
    pub r: u8,
    pub g: u8,
    pub b: u8,
    pub a: u8,
}

/// Index of the first byte of texel `(x, y)` in tightly packed rows of `width` texels.
pub open spec fn texel_offset(width: nat, x: nat, y: nat) -> nat {
    (y * width + x) * 4
}

/// Row `y` of tightly packed pixel data: `width * 4` bytes.
pub open spec fn source_row(data: Seq<u8>, width: nat, y: int) -> Seq<u8> {
    data.subrange(y * (width * 4), y * (width * 4) + width * 4)
}

/// The texel whose four bytes start at `at`.
pub open spec fn texel_at(data: Seq<u8>, at: int) -> Rgba {
    Rgba { r: data[at], g: data[at + 1], b: data[at + 2], a: data[at + 3] }
}

/// RGBA data made from tightly packed RGB data of `width * height` texels:
/// the three colour channels of each texel are kept and its alpha is opaque.
pub open spec fn rgba_of_rgb(width: nat, height: nat, rgb: Seq<u8>) -> Seq<u8> {
    Seq::new(
        width * height * 4,
        |k: int|
            if k % 4 == 3 {
                255u8
            } else {
                rgb[(k / 4) * 3 + k % 4]
            },
    )
}

/// Whether RGB data of `len` bytes can be converted: it holds every texel, and
/// the RGBA data can be addressed on this machine.
pub open spec fn rgb_convertible(width: nat, height: nat, len: nat) -> bool {
    &&& width * 4 <= usize::MAX
    &&& width * height * 4 <= usize::MAX
    &&& width * height * 3 <= len
}

/// Calls `image::ImageBuffer::from_raw` on the RGB bytes and, where that
/// gives an image, `image::buffer::ConvertBuffer::convert` to RGBA, and hands
/// out the raw bytes of the result.
///
/// Trusted: `from_raw` gives an image exactly when the buffer holds at least
/// `3 * width * height` bytes; `convert` maps texel by texel over exactly
/// that many bytes, copying the three channels and setting alpha to 255. The
/// precondition keeps the size computations of both calls from overflowing,
/// where `convert` would panic.
#[verifier::external_body]
fn convert_rgb(width: u32, height: u32, rgb: Vec<u8>) -> (r: Option<Vec<u8>>)
    requires
        width * 4 <= usize::MAX,
        width * height * 4 <= usize::MAX,
    ensures
        r is Some <==> width * height * 3 <= rgb@.len(),
        r matches Some(out) ==> out@ == rgba_of_rgb(width as nat, height as nat, rgb@),
{
    match image::RgbImage::from_raw(width, height, rgb) {
        Some(rgb_image) => {
            let rgba: image::RgbaImage = image::buffer::ConvertBuffer::convert(&rgb_image);
            Some(rgba.into_raw())
        },
        None => None,
    }
}

/// Whether texel `(x, y)` lies on the cross that marks an image: a bar three
/// texels wide and sixteen long, once upright and once lying, both over the
/// texels 8 to 23 and centred on texel 16.
pub open spec fn in_cross(x: int, y: int) -> bool {
    (15 <= x <= 17 && 8 <= y < 24) || (15 <= y <= 17 && 8 <= x < 24)
}

/// Row-major RGBA8 pixel data: `height` rows of `width` texels, four bytes
/// each, without padding between rows.
#[derive(Debug)]
pub struct PixelSource {
    /// Texels per row.
    pub width: u32,
    /// Number of rows.
    pub height: u32,
    /// The texels, row after row.
    pub data: Vec<u8>,
}

impl PixelSource {
    /// The invariant of a pixel source: the data holds exactly its texels.
    pub open spec fn wf(&self) -> bool {
        self.data@.len() == self.width * self.height * 4
    }

    /// The texel at column `x` of row `y`.
    pub open spec fn texel(&self, x: int, y: int) -> Rgba {
        texel_at(self.data@, (y * self.width + x) * 4)
    }

    /// Row `y` of the source.
    pub open spec fn row(&self, y: int) -> Seq<u8> {
        source_row(self.data@, self.width as nat, y)
    }

    /// Wraps pixel data, or gives it up with `None` unless its length is
    /// exactly `width * height * 4`.
    pub fn new(width: u32, height: u32, data: Vec<u8>) -> (r: Option<PixelSource>)
        ensures
            r is Some <==> data@.len() == width * height * 4,
            r matches Some(p) ==> p.wf() && p.width == width && p.height == height && p.data@
                == data@,
    {
        let p = PixelSource { width, height, data };
        if p.is_valid() {
            Some(p)
        } else {
            None
        }
    }

    /// An image in which every texel is `pixel`. Gives `None` exactly when
    /// the data would not fit in this machine's memory.
    pub fn filled(width: u32, height: u32, pixel: Rgba) -> (r: Option<PixelSource>)
        ensures
            r is Some <==> width * height * 4 <= usize::MAX,
            r matches Some(p) ==> p.wf() && p.width == width && p.height == height && forall|
                k: int,
            |
                0 <= k < width * height ==> #[trigger] texel_at(p.data@, k * 4) == pixel,
    {
        proof {
            assert(width as u64 * height as u64 <= 0xffff_ffff * 0xffff_ffff) by (nonlinear_arith)
                requires
                    width <= 0xffff_ffff,
                    height <= 0xffff_ffff,
            ;
        }
        let texels: u64 = width as u64 * height as u64;
        if texels > (usize::MAX / 4) as u64 {
            return None;
        }
        let count: usize = texels as usize;
        let mut data: Vec<u8> = Vec::new();
        let mut k: usize = 0;
        while k < count
            invariant
                k <= count,
                count * 4 <= usize::MAX,
                data@.len() == k * 4,
                forall|j: int| 0 <= j < k ==> #[trigger] texel_at(data@, j * 4) == pixel,
            decreases count - k,
        {
            let ghost before = data@;
            data.push(pixel.r);
            data.push(pixel.g);
            data.push(pixel.b);
            data.push(pixel.a);
            proof {
                assert forall|j: int| 0 <= j < k + 1 implies #[trigger] texel_at(data@, j * 4)
                    == pixel by {
                    if j < k {
                        assert(texel_at(before, j * 4) == pixel);
                    }
                }
            }
            k += 1;
        }
        Some(PixelSource { width, height, data })
    }

    /// Makes an RGBA pixel source from the RGB bytes of a canvas: colours are
    /// kept, alpha is opaque, bytes behind the last texel are dropped. Gives
    /// `None` exactly when the bytes do not hold `width * height` texels or the
    /// result could not be addressed.
    pub fn from_rgb(width: u32, height: u32, rgb: Vec<u8>) -> (r: Option<PixelSource>)
        ensures
            r is Some <==> rgb_convertible(width as nat, height as nat, rgb@.len()),
            r matches Some(p) ==> p.wf() && p.width == width && p.height == height && p.data@
                == rgba_of_rgb(width as nat, height as nat, rgb@),
    {
        proof {
            assert(width as u128 * height as u128 * 4 <= 0xffff_ffff * 0xffff_ffff * 4)
                by (nonlinear_arith)
                requires
                    width <= 0xffff_ffff,
                    height <= 0xffff_ffff,
            ;
        }
        let wide: u128 = width as u128 * height as u128 * 4;
        if width as u128 * 4 > usize::MAX as u128 || wide > usize::MAX as u128 {
            return None;
        }
        match convert_rgb(width, height, rgb) {
            Some(data) => Some(PixelSource { width, height, data }),
            None => None,
        }
    }

    /// Whether the data holds exactly `width * height` texels.
    pub fn is_valid(&self) -> (r: bool)
        ensures
            r == self.wf(),
    {
        proof {
            assert(self.width as u64 * self.height as u64 <= 0xffff_ffff * 0xffff_ffff)
                by (nonlinear_arith)
                requires
                    self.width <= 0xffff_ffff,
                    self.height <= 0xffff_ffff,
            ;
        }
        let texels: u128 = self.width as u128 * self.height as u128;
        self.data.len() as u128 == texels * 4
    }

    /// Texels per row and number of rows.
    pub fn dimensions(&self) -> (r: (u32, u32))
        ensures
            r == (self.width, self.height),
    {
        (self.width, self.height)
    }

    /// The texel at column `x` of row `y`.
    pub fn get_pixel(&self, x: u32, y: u32) -> (r: Rgba)
        requires
            self.wf(),
            x < self.width,
            y < self.height,
        ensures
            r == texel_at(self.data@, texel_offset(self.width as nat, x as nat, y as nat) as int),
            r == self.texel(x as int, y as int),
    {
        proof {
            lemma_texel_in_bounds(self.width as nat, self.height as nat, x as nat, y as nat);
            assert(self.data@.len() == self.data.len());
        }
        let at: usize = (y as usize * self.width as usize + x as usize) * 4;
        Rgba { r: self.data[at], g: self.data[at + 1], b: self.data[at + 2], a: self.data[at + 3] }
    }

    /// Sets the texel at column `x` of row `y`; every other byte stays.
    pub fn put_pixel(&mut self, x: u32, y: u32, pixel: Rgba)
        requires
            old(self).wf(),
            x < old(self).width,
            y < old(self).height,
        ensures
            final(self).wf(),
            final(self).width == old(self).width,
            final(self).height == old(self).height,
            texel_at(
                final(self).data@,
                texel_offset(old(self).width as nat, x as nat, y as nat) as int,
            ) == pixel,
            forall|k: int|
                0 <= k < old(self).data@.len() && !(texel_offset(
                    old(self).width as nat,
                    x as nat,
                    y as nat,
                ) <= k < texel_offset(old(self).width as nat, x as nat, y as nat) + 4)
                    ==> final(self).data@[k] == old(self).data@[k],
            forall|a: int, b: int|
                0 <= a < old(self).width && 0 <= b < old(self).height ==> #[trigger] final(
                    self
                ).texel(a, b) == if a == x && b == y {
                    pixel
                } else {
                    old(self).texel(a, b)
                },
    {
        proof {
            lemma_texel_in_bounds(self.width as nat, self.height as nat, x as nat, y as nat);
            assert(self.data@.len() == self.data.len());
        }
        let ghost before = *self;
        let at: usize = (y as usize * self.width as usize + x as usize) * 4;
        self.data.set(at, pixel.r);
        self.data.set(at + 1, pixel.g);
        self.data.set(at + 2, pixel.b);
        self.data.set(at + 3, pixel.a);
        proof {
            assert forall|a: int, b: int|
                0 <= a < before.width && 0 <= b < before.height implies #[trigger] self.texel(a, b)
                == if a == x && b == y {
                pixel
            } else {
                before.texel(a, b)
            } by {
                lemma_texel_in_bounds(self.width as nat, self.height as nat, a as nat, b as nat);
                if !(a == x && b == y) {
                    lemma_texels_apart(self.width as int, x as int, y as int, a, b);
                }
            }
        }
    }

    /// Sets every texel of the rectangle of columns `x0` up to `x1` and rows
    /// `y0` up to `y1` to `pixel`; every other texel stays.
    pub fn fill_rect(&mut self, x0: u32, y0: u32, x1: u32, y1: u32, pixel: Rgba)
        requires
            old(self).wf(),
            x0 <= x1 <= old(self).width,
            y0 <= y1 <= old(self).height,
        ensures
            final(self).wf(),
            final(self).width == old(self).width,
            final(self).height == old(self).height,
            forall|a: int, b: int|
                0 <= a < old(self).width && 0 <= b < old(self).height ==> #[trigger] final(
                    self
                ).texel(a, b) == if x0 <= a < x1 && y0 <= b < y1 {
                    pixel
                } else {
                    old(self).texel(a, b)
                },
    {
        let ghost before = *self;
        let mut y: u32 = y0;
        while y < y1
            invariant
                y0 <= y <= y1,
                y1 <= self.height,
                x0 <= x1 <= self.width,
                self.wf(),
                self.width == before.width,
                self.height == before.height,
                forall|a: int, b: int|
                    0 <= a < self.width && 0 <= b < self.height ==> #[trigger] self.texel(a, b)
                        == if x0 <= a < x1 && y0 <= b < y {
                        pixel
                    } else {
                        before.texel(a, b)
                    },
            decreases y1 - y,
        {
            let mut x: u32 = x0;
            while x < x1
                invariant
                    x0 <= x <= x1,
                    y0 <= y < y1,
                    y1 <= self.height,
                    x1 <= self.width,
                    self.wf(),
                    self.width == before.width,
                    self.height == before.height,
                    forall|a: int, b: int|
                        0 <= a < self.width && 0 <= b < self.height ==> #[trigger] self.texel(a, b)
                            == if (x0 <= a < x1 && y0 <= b < y) || (b == y && x0 <= a < x) {
                            pixel
                        } else {
                            before.texel(a, b)
                        },
                decreases x1 - x,
            {
                self.put_pixel(x, y, pixel);
                x += 1;
            }
            y += 1;
        }
    }

    /// Marks the image with a cross of `pixel`: the texels on the cross take
    /// that colour, every other texel stays. An image of fewer than 24 by 24
    /// texels has no room for the cross: it stays as it is, and the result is
    /// `false`.
    pub fn mark_cross(&mut self, pixel: Rgba) -> (marked: bool)
        requires
            old(self).wf(),
        ensures
            final(self).wf(),
            final(self).width == old(self).width,
            final(self).height == old(self).height,
            marked == (old(self).width >= 24 && old(self).height >= 24),
            !marked ==> final(self).data@ == old(self).data@,
            marked ==> forall|a: int, b: int|
                0 <= a < old(self).width && 0 <= b < old(self).height ==> #[trigger] final(
                    self
                ).texel(a, b) == if in_cross(a, b) {
                    pixel
                } else {
                    old(self).texel(a, b)
                },
    {
        if self.width < 24 || self.height < 24 {
            return false;
        }
        self.fill_rect(15, 8, 18, 24, pixel);
        self.fill_rect(8, 15, 24, 18, pixel);
        true
    }
}

/// Two different texels of an image do not share a byte.
pub proof fn lemma_texels_apart(width: int, x: int, y: int, a: int, b: int)
    requires
        0 <= x < width,
        0 <= a < width,
        0 <= y,
        0 <= b,
        !(a == x && b == y),
    ensures
        (b * width + a) * 4 + 4 <= (y * width + x) * 4 || (y * width + x) * 4 + 4 <= (b * width + a)
            * 4,
{
    if b < y {
        assert(b * width + width <= y * width) by (nonlinear_arith)
            requires
                b < y,
                0 <= width,
        ;
    } else if y < b {
        assert(y * width + width <= b * width) by (nonlinear_arith)
            requires
                y < b,
                0 <= width,
        ;
    }
}

/// The four bytes of a texel inside the image lie inside its data.
pub proof fn lemma_texel_in_bounds(width: nat, height: nat, x: nat, y: nat)
    requires
        x < width,
        y < height,
    ensures
        y * width + x < width * height,
        texel_offset(width, x, y) + 4 <= width * height * 4,
{
    assert(y * width + x < width * height) by (nonlinear_arith)
        requires
            x < width,
            y < height,
    ;
}

} // verus!
