//! RGBA8 colours, the bit layout that packs shading and depth into them, and
//! row-major pixel buffers.

use vstd::prelude::*;

verus! {

/// One RGBA8 pixel.
#[derive(Clone, Copy, Debug, PartialEq, Eq, Structural)]
pub struct Rgba {
    pub r: u8,
    pub g: u8,
    pub b: u8,
    pub a: u8,
}

/// Largest depth that the upper twelve bits of a packed pixel can carry.
pub const MAX_DEPTH: u16 = 0xFFF;

/// Largest texture coordinate payload: the lower twelve bits of a packed pixel.
pub const MAX_COORDINATE: u16 = 0xFFF;

/// The four channels as one little-endian word: red in the lowest byte, alpha
/// in the highest.
pub open spec fn packed_word(c: Rgba) -> u32 {
    (c.r as u32) | ((c.g as u32) << 8) | ((c.b as u32) << 16) | ((c.a as u32) << 24)
}

/// The depth that a packed pixel carries: bits 20 and up of its word, which are
/// the upper half of blue and all of alpha.
pub open spec fn depth_of(c: Rgba) -> u16 {
    ((packed_word(c) >> 20) & 0x1FFF) as u16
}

/// The colour whose word holds `coordinate` in bits 0..12, `shading` in bits
/// 12..20 and `depth` in bits 20..32.
pub open spec fn packed_pixel(coordinate: u16, shading: u8, depth: u16) -> Rgba {
    Rgba {
        r: (coordinate % 256) as u8,
        g: (coordinate / 256 + (shading % 16) * 16) as u8,
        b: (shading / 16 + (depth % 16) * 16) as u8,
        a: (depth / 16) as u8,
    }
}

/// The depth of a pixel is the upper half of blue plus sixteen times alpha.
/// So a pixel with any alpha, which is what a covered pixel is, lies at
/// depth sixteen or deeper.
pub proof fn lemma_depth_arithmetic(c: Rgba)
    ensures
        depth_of(c) == c.b / 16 + 16 * c.a,
        depth_of(c) <= MAX_DEPTH,
        c.a != 0 ==> depth_of(c) >= 16,
{
    let r = c.r;
    let g = c.g;
    let b = c.b;
    let a = c.a;
    assert(((((r as u32) | ((g as u32) << 8) | ((b as u32) << 16) | ((a as u32) << 24)) >> 20)
        & 0x1FFF) == (b as u32) / 16 + 16 * (a as u32)) by (bit_vector);
}

/// Decoding the depth of a packed pixel gives back the depth that was packed,
/// for every depth that fits the twelve bits the layout has for it.
pub proof fn lemma_depth_round_trip(coordinate: u16, shading: u8, depth: u16)
    requires
        coordinate <= MAX_COORDINATE,
        depth <= MAX_DEPTH,
    ensures
        depth_of(packed_pixel(coordinate, shading, depth)) == depth,
{
    lemma_depth_arithmetic(packed_pixel(coordinate, shading, depth));
}

/// Decodes the depth of a rendered pixel.
pub fn get_depth(pixel: &Rgba) -> (depth: u16)
    ensures
        depth == depth_of(*pixel),
        depth == pixel.b / 16 + 16 * pixel.a,
        depth <= MAX_DEPTH,
        pixel.a != 0 ==> depth >= 16,
{
    let r: u32 = pixel.r as u32;
    let g: u32 = pixel.g as u32;
    let b: u32 = pixel.b as u32;
    let a: u32 = pixel.a as u32;
    let rgba: u32 = r | (g << 8) | (b << 16) | (a << 24);
    proof {
        lemma_depth_arithmetic(*pixel);
        assert(((rgba >> 20) & 0x1FFF) <= 0xFFFF) by (bit_vector);
    }
    ((rgba >> 20) & 0x1FFF) as u16
}

/// Packs a texture coordinate payload, a shading value and a depth into a
/// pixel, as a renderer of depth-encoded passes does.
pub fn pack_pixel(coordinate: u16, shading: u8, depth: u16) -> (pixel: Rgba)
    requires
        coordinate <= MAX_COORDINATE,
        depth <= MAX_DEPTH,
    ensures
        pixel == packed_pixel(coordinate, shading, depth),
        packed_word(pixel) == coordinate + shading * 0x1000 + depth * 0x10_0000,
        depth_of(pixel) == depth,
{
    let pixel = Rgba {
        r: (coordinate % 256) as u8,
        g: (coordinate / 256 + (shading as u16 % 16) * 16) as u8,
        b: (shading / 16 + (depth % 16) as u8 * 16) as u8,
        a: (depth / 16) as u8,
    };
    proof {
        lemma_depth_round_trip(coordinate, shading, depth);
        let r = pixel.r;
        let g = pixel.g;
        let b = pixel.b;
        let a = pixel.a;
        assert(((r as u32) | ((g as u32) << 8) | ((b as u32) << 16) | ((a as u32) << 24)) == (
        r as u32) + (g as u32) * 0x100 + (b as u32) * 0x1_0000 + (a as u32) * 0x100_0000)
            by (bit_vector);
    }
    pixel
}

impl Rgba {
    /// The fully transparent pixel: every channel zero.
    pub open spec fn transparent() -> Rgba {
        Rgba { r: 0, g: 0, b: 0, a: 0 }
    }

    /// The fully transparent pixel.
    pub fn new_transparent() -> (pixel: Rgba)
        ensures
            pixel == Rgba::transparent(),
    {
        Rgba { r: 0, g: 0, b: 0, a: 0 }
    }
}

/// An RGBA8 image: `width * height` pixels, row by row from the top.
pub struct PixelBuffer {
    width: u32,
    height: u32,
    pixels: Vec<Rgba>,
}

impl View for PixelBuffer {
    type V = Seq<Rgba>;

    /// The pixels in row-major order.
    closed spec fn view(&self) -> Seq<Rgba> {
        self.pixels@
    }
}

/// The pixel that four consecutive bytes of a raw buffer spell.
pub open spec fn pixel_of_bytes(bytes: Seq<u8>, index: int) -> Rgba {
    Rgba {
        r: bytes[4 * index],
        g: bytes[4 * index + 1],
        b: bytes[4 * index + 2],
        a: bytes[4 * index + 3],
    }
}

/// Channel `index` of a colour, in the order red, green, blue, alpha.
pub open spec fn channel(c: Rgba, index: int) -> u8 {
    if index == 0 {
        c.r
    } else if index == 1 {
        c.g
    } else if index == 2 {
        c.b
    } else {
        c.a
    }
}

/// The pixels as raw bytes, four per pixel.
pub open spec fn raw_bytes(pixels: Seq<Rgba>) -> Seq<u8> {
    Seq::new(4 * pixels.len(), |i: int| channel(pixels[i / 4], i % 4))
}

/// The index of pixel `(x, y)` in a row-major image of the given width.
pub open spec fn pixel_index(width: int, x: int, y: int) -> int {
    y * width + x
}

/// A pixel inside a `width * height` image has an index below `width * height`,
/// and the index determines the pixel.
pub proof fn lemma_pixel_index(width: int, height: int, x: int, y: int)
    requires
        0 <= x < width,
        0 <= y < height,
    ensures
        0 <= pixel_index(width, x, y) < width * height,
        pixel_index(width, x, y) % width == x,
        pixel_index(width, x, y) / width == y,
{
    assert(y * width + x < width * height) by (nonlinear_arith)
        requires
            0 <= x < width,
            0 <= y < height,
    ;
    assert(0 <= y * width) by (nonlinear_arith)
        requires
            0 <= y,
            0 < width,
    ;
    vstd::arithmetic::div_mod::lemma_fundamental_div_mod_converse(y * width + x, width, y, x);
}

impl PixelBuffer {
    pub closed spec fn spec_width(&self) -> u32 {
        self.width
    }

    pub closed spec fn spec_height(&self) -> u32 {
        self.height
    }

    /// The buffer holds exactly one pixel per position.
    pub open spec fn wf(&self) -> bool {
        self@.len() == self.spec_width() * self.spec_height()
    }

    #[verifier::type_invariant]
    spec fn holds_every_pixel(&self) -> bool {
        self.wf()
    }


    pub open spec fn in_bounds(&self, x: int, y: int) -> bool {
        0 <= x < self.spec_width() && 0 <= y < self.spec_height()
    }

    /// The pixel in column `x` of row `y`.
    pub open spec fn pixel_at(&self, x: int, y: int) -> Rgba {
        self@[pixel_index(self.spec_width() as int, x, y)]
    }

    /// A render pass covers a pixel where it left a non-zero alpha.
    pub open spec fn covers(&self, x: int, y: int) -> bool {
        self.in_bounds(x, y) && self.pixel_at(x, y).a != 0
    }

    /// A fully transparent image.
    pub fn new(width: u32, height: u32) -> (image: PixelBuffer)
        requires
            width * height <= usize::MAX,
        ensures
            image.wf(),
            image.spec_width() == width,
            image.spec_height() == height,
            forall|i: int| 0 <= i < image@.len() ==> image@[i] == Rgba::transparent(),
    {
        let count: usize = (width as usize) * (height as usize);
        let pixels = vec![Rgba::new_transparent(); count];
        PixelBuffer { width, height, pixels }
    }

    /// Reads an image out of raw RGBA8 bytes, four per pixel, row by row.
    /// Fails where the bytes do not hold every pixel; bytes beyond the last
    /// pixel are dropped.
    pub fn from_raw(width: u32, height: u32, data: &Vec<u8>) -> (image: Option<PixelBuffer>)
        ensures
            image.is_some() <==> 4 * (width * height) <= data.len(),
            image matches Some(img) ==> {
                &&& img.wf()
                &&& img.spec_width() == width
                &&& img.spec_height() == height
                &&& forall|i: int| 0 <= i < img@.len() ==> img@[i] == pixel_of_bytes(data@, i)
            },
    {
        proof {
            assert(width * height <= 0xFFFF_FFFF * 0xFFFF_FFFF) by (nonlinear_arith)
                requires
                    0 <= width <= 0xFFFF_FFFF,
                    0 <= height <= 0xFFFF_FFFF,
            ;
        }
        let count: u64 = (width as u64) * (height as u64);
        if count > (data.len() / 4) as u64 {
            return None;
        }
        let n: usize = count as usize;
        let mut pixels: Vec<Rgba> = Vec::new();
        let mut i: usize = 0;
        while i < n
            invariant
                i <= n,
                4 * n <= data.len(),
                pixels.len() == i,
                forall|k: int| 0 <= k < i ==> pixels@[k] == pixel_of_bytes(data@, k),
            decreases n - i,
        {
            pixels.push(
                Rgba { r: data[4 * i], g: data[4 * i + 1], b: data[4 * i + 2], a: data[4 * i + 3] },
            );
            i += 1;
        }
        Some(PixelBuffer { width, height, pixels })
    }

    /// The image as raw RGBA8 bytes, four per pixel, row by row.
    pub fn to_raw(&self) -> (data: Vec<u8>)
        ensures
            self.wf(),
            data@ == raw_bytes(self@),
            data.len() == 4 * self@.len(),
            forall|i: int| 0 <= i < self@.len() ==> pixel_of_bytes(data@, i) == self@[i],
    {
        let mut data: Vec<u8> = Vec::new();
        let mut i: usize = 0;
        proof {
            use_type_invariant(self);
        }
        while i < self.pixels.len()
            invariant
                i <= self.pixels.len(),
                data.len() == 4 * i,
                forall|k: int| 0 <= k < i ==> pixel_of_bytes(data@, k) == self.pixels@[k],
            decreases self.pixels.len() - i,
        {
            let p = self.pixels[i];
            let ghost before = data@;
            data.push(p.r);
            data.push(p.g);
            data.push(p.b);
            data.push(p.a);
            proof {
                assert forall|k: int| 0 <= k < i implies pixel_of_bytes(data@, k)
                    == self.pixels@[k] by {
                    assert(pixel_of_bytes(data@, k) == pixel_of_bytes(before, k));
                }
            }
            i += 1;
        }
        proof {
            assert forall|k: int| 0 <= k < data@.len() implies data@[k] == raw_bytes(self@)[k] by {
                let pixel = pixel_of_bytes(data@, k / 4);
                assert(pixel == self.pixels@[k / 4]);
                assert(data@[k] == channel(pixel, k % 4));
            }
            assert(data@ =~= raw_bytes(self@));
        }
        data
    }

    pub fn width(&self) -> (width: u32)
        ensures
            width == self.spec_width(),
            self.wf(),
    {
        proof {
            use_type_invariant(self);
        }
        self.width
    }

    pub fn height(&self) -> (height: u32)
        ensures
            height == self.spec_height(),
            self.wf(),
    {
        proof {
            use_type_invariant(self);
        }
        self.height
    }

    fn index_of(&self, x: u32, y: u32) -> (index: usize)
        requires
            self.in_bounds(x as int, y as int),
        ensures
            index == pixel_index(self.spec_width() as int, x as int, y as int),
            index < self@.len(),
    {
        let ghost w = self.width as int;
        let ghost h = self.height as int;
        proof {
            use_type_invariant(self);
            lemma_pixel_index(w, h, x as int, y as int);
            assert(self.pixels@.len() == w * h);
            assert(0 <= y * w <= y * w + x) by (nonlinear_arith)
                requires
                    0 <= y,
                    0 <= w,
                    0 <= x,
            ;
            assert(self.pixels.len() == self.pixels@.len());
        }
        (y as usize) * (self.width as usize) + (x as usize)
    }

    /// The pixel in column `x` of row `y`.
    pub fn get_pixel(&self, x: u32, y: u32) -> (pixel: Rgba)
        requires
            self.in_bounds(x as int, y as int),
        ensures
            pixel == self.pixel_at(x as int, y as int),
    {
        let index = self.index_of(x, y);
        self.pixels[index]
    }

    /// Overwrites the pixel in column `x` of row `y` and no other.
    pub fn put_pixel(&mut self, x: u32, y: u32, pixel: Rgba)
        requires
            old(self).in_bounds(x as int, y as int),
        ensures
            final(self).wf(),
            final(self).spec_width() == old(self).spec_width(),
            final(self).spec_height() == old(self).spec_height(),
            final(self)@ == old(self)@.update(
                pixel_index(old(self).spec_width() as int, x as int, y as int),
                pixel,
            ),
            final(self).pixel_at(x as int, y as int) == pixel,
            forall|u: int, v: int|
                old(self).in_bounds(u, v) && (u != x || v != y) ==> #[trigger] final(self).pixel_at(
                    u,
                    v,
                ) == old(self).pixel_at(u, v),
    {
        proof {
            use_type_invariant(&*self);
        }
        let index = self.index_of(x, y);
        self.pixels[index] = pixel;
        proof {
            let w = self.width as int;
            let h = self.height as int;
            lemma_pixel_index(w, h, x as int, y as int);
            assert forall|u: int, v: int|
                old(self).in_bounds(u, v) && (u != x || v != y) implies #[trigger] self.pixel_at(
                u,
                v,
            ) == old(self).pixel_at(u, v) by {
                lemma_pixel_index(w, h, u, v);
            }
        }
    }
}

} // verus!
