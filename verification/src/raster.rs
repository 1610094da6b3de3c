//! Rectangular rasters of RGBA pixels, and their packed sample layouts.
//!
//! A raster is independent of any decoder or display surface. It meets them
//! through flat sample buffers: four samples per pixel in the order red,
//! green, blue, alpha, rows from the top, pixels of a row from the left.

use vstd::prelude::*;

verus! {

/// One pixel: four 8-bit channels, alpha not premultiplied.
#[derive(Clone, Copy, Debug, PartialEq, Eq, Structural)]
pub struct Rgba {
    pub r: u8,
    pub g: u8,
    pub b: u8,
    pub a: u8,
}

/// The colour that marks the part of a warped raster that has no source:
/// a half transparent magenta.
pub open spec fn fill() -> Rgba {
    Rgba { r: 255, g: 0, b: 255, a: 117 }
}

/// The fill colour, as a value.
pub fn fill_color() -> (c: Rgba)
    ensures
        c == fill(),
{
    Rgba { r: 255, g: 0, b: 255, a: 117 }
}

/// Channel `c` of a pixel, counted red, green, blue, alpha.
pub open spec fn channel(p: Rgba, c: int) -> u8 {
    if c == 0 {
        p.r
    } else if c == 1 {
        p.g
    } else if c == 2 {
        p.b
    } else {
        p.a
    }
}

/// The packed RGBA samples of a run of pixels.
pub open spec fn packed(pixels: Seq<Rgba>) -> Seq<u8> {
    Seq::new(4 * pixels.len(), |i: int| channel(pixels[i / 4], i % 4))
}

/// The pixels that packed RGBA samples hold. Samples after the last whole
/// group of four belong to no pixel.
pub open spec fn unpacked(samples: Seq<u8>) -> Seq<Rgba> {
    Seq::new(
        (samples.len() / 4) as nat,
        |i: int|
            Rgba {
                r: samples[4 * i],
                g: samples[4 * i + 1],
                b: samples[4 * i + 2],
                a: samples[4 * i + 3],
            },
    )
}

/// The pixels that packed RGB samples hold, each made fully opaque.
pub open spec fn promoted(samples: Seq<u8>) -> Seq<Rgba> {
    Seq::new(
        (samples.len() / 3) as nat,
        |i: int|
            Rgba { r: samples[3 * i], g: samples[3 * i + 1], b: samples[3 * i + 2], a: 255 },
    )
}

/// Packing pixels and unpacking the samples gives the pixels back.
pub proof fn lemma_unpack_packed(pixels: Seq<Rgba>)
    ensures
        unpacked(packed(pixels)) == pixels,
{
    let samples = packed(pixels);
    assert(samples.len() / 4 == pixels.len());
    assert forall|i: int| 0 <= i < pixels.len() implies unpacked(samples)[i] == pixels[i] by {
        assert((4 * i) / 4 == i && (4 * i) % 4 == 0);
        assert((4 * i + 1) / 4 == i && (4 * i + 1) % 4 == 1);
        assert((4 * i + 2) / 4 == i && (4 * i + 2) % 4 == 2);
        assert((4 * i + 3) / 4 == i && (4 * i + 3) % 4 == 3);
    }
    assert(unpacked(samples) =~= pixels);
}

/// Unpacking whole groups of four samples and packing the pixels gives the
/// samples back.
pub proof fn lemma_pack_unpacked(samples: Seq<u8>)
    requires
        samples.len() % 4 == 0,
    ensures
        packed(unpacked(samples)) == samples,
{
    let pixels = unpacked(samples);
    assert(4 * pixels.len() == samples.len());
    assert forall|i: int| 0 <= i < samples.len() implies packed(pixels)[i] == samples[i] by {
        let k = i / 4;
        assert(i == 4 * k + i % 4);
        assert(0 <= k < pixels.len());
    }
    assert(packed(pixels) =~= samples);
}

/// What a raster is: its two dimensions and its pixels in row-major order.
pub struct RasterView {
    pub width: nat,
    pub height: nat,
    pub pixels: Seq<Rgba>,
}

impl RasterView {
    /// There is exactly one pixel for each position.
    pub open spec fn dense(self) -> bool {
        self.pixels.len() == self.width * self.height
    }

    /// The pixel at column `x` of row `y`.
    pub open spec fn at(self, x: int, y: int) -> Rgba
        recommends
            0 <= x < self.width,
            0 <= y < self.height,
    {
        self.pixels[y * self.width + x]
    }
}

/// A dense rectangle of pixels. Its packed samples are always addressable:
/// four times the number of pixels fits the machine word.
pub struct Raster {
    width: u32,
    height: u32,
    pixels: Vec<Rgba>,
}

impl View for Raster {
    type V = RasterView;

    closed spec fn view(&self) -> RasterView {
        RasterView {
            width: self.width as nat,
            height: self.height as nat,
            pixels: self.pixels@,
        }
    }
}

/// The number of pixels of a `width` by `height` raster, where its packed
/// samples are addressable.
pub fn pixel_count(width: u32, height: u32) -> (count: Option<usize>)
    ensures
        count is Some <==> 4 * (width * height) <= usize::MAX,
        count is Some ==> count->0 == width * height,
{
    proof {
        assert(0 <= width * height <= 0xffff_ffff * 0xffff_ffff) by (nonlinear_arith)
            requires
                0 <= width <= 0xffff_ffff,
                0 <= height <= 0xffff_ffff,
        ;
    }
    let area: u64 = width as u64 * height as u64;
    let limit: u64 = (usize::MAX / 4) as u64;
    if area <= limit {
        Some(area as usize)
    } else {
        None
    }
}

impl Raster {
    #[verifier::type_invariant]
    spec fn well_formed(self) -> bool {
        &&& self.pixels@.len() == self.width * self.height
        &&& 4 * (self.width * self.height) <= usize::MAX
    }

    /// A raster of the given pixels, where there is one for each position
    /// and their packed samples are addressable.
    pub fn new(width: u32, height: u32, pixels: Vec<Rgba>) -> (raster: Option<Raster>)
        ensures
            raster is Some <==> pixels@.len() == width * height && 4 * (width * height)
                <= usize::MAX,
            raster is Some ==> raster->0@ == (RasterView {
                width: width as nat,
                height: height as nat,
                pixels: pixels@,
            }),
    {
        match pixel_count(width, height) {
            Some(count) => {
                if pixels.len() == count {
                    Some(Raster { width, height, pixels })
                } else {
                    None
                }
            },
            None => None,
        }
    }

    /// A raster of one colour.
    pub fn uniform(width: u32, height: u32, color: Rgba) -> (raster: Option<Raster>)
        ensures
            raster is Some <==> 4 * (width * height) <= usize::MAX,
            raster is Some ==> raster->0@ == (RasterView {
                width: width as nat,
                height: height as nat,
                pixels: Seq::new((width * height) as nat, |i: int| color),
            }),
    {
        match pixel_count(width, height) {
            Some(count) => {
                let mut pixels: Vec<Rgba> = Vec::with_capacity(count);
                let mut i: usize = 0;
                while i < count
                    invariant
                        i <= count,
                        pixels@ == Seq::new(i as nat, |k: int| color),
                    decreases count - i,
                {
                    pixels.push(color);
                    i += 1;
                    assert(pixels@ =~= Seq::new(i as nat, |k: int| color));
                }
                Some(Raster { width, height, pixels })
            },
            None => None,
        }
    }

    /// A raster from packed RGBA samples, four for each position.
    pub fn from_rgba_samples(width: u32, height: u32, samples: &[u8]) -> (raster: Option<Raster>)
        ensures
            raster is Some <==> samples@.len() == 4 * (width * height),
            raster is Some ==> raster->0@ == (RasterView {
                width: width as nat,
                height: height as nat,
                pixels: unpacked(samples@),
            }),
    {
        let given = samples.len();
        let count = match pixel_count(width, height) {
            Some(count) => count,
            None => {
                return None;
            },
        };
        if given != 4 * count {
            return None;
        }
        let mut pixels: Vec<Rgba> = Vec::with_capacity(count);
        let mut i: usize = 0;
        while i < count
            invariant
                i <= count,
                samples@.len() == 4 * count,
                4 * count <= usize::MAX,
                pixels@ == unpacked(samples@).take(i as int),
            decreases count - i,
        {
            let p = Rgba {
                r: samples[4 * i],
                g: samples[4 * i + 1],
                b: samples[4 * i + 2],
                a: samples[4 * i + 3],
            };
            pixels.push(p);
            i += 1;
            assert(pixels@ =~= unpacked(samples@).take(i as int));
        }
        assert(pixels@ =~= unpacked(samples@));
        Some(Raster { width, height, pixels })
    }

    /// A raster from packed RGB samples, three for each position. Every
    /// pixel is fully opaque.
    pub fn from_rgb_samples(width: u32, height: u32, samples: &[u8]) -> (raster: Option<Raster>)
        ensures
            raster is Some <==> samples@.len() == 3 * (width * height) && 4 * (width * height)
                <= usize::MAX,
            raster is Some ==> raster->0@ == (RasterView {
                width: width as nat,
                height: height as nat,
                pixels: promoted(samples@),
            }),
    {
        let count = match pixel_count(width, height) {
            Some(count) => count,
            None => {
                return None;
            },
        };
        if samples.len() != 3 * count {
            return None;
        }
        let mut pixels: Vec<Rgba> = Vec::with_capacity(count);
        let mut i: usize = 0;
        while i < count
            invariant
                i <= count,
                samples@.len() == 3 * count,
                4 * count <= usize::MAX,
                pixels@ == promoted(samples@).take(i as int),
            decreases count - i,
        {
            let p = Rgba { r: samples[3 * i], g: samples[3 * i + 1], b: samples[3 * i + 2], a: 255 };
            pixels.push(p);
            i += 1;
            assert(pixels@ =~= promoted(samples@).take(i as int));
        }
        assert(pixels@ =~= promoted(samples@));
        Some(Raster { width, height, pixels })
    }

    /// The number of columns.
    pub fn width(&self) -> (w: u32)
        ensures
            w == self@.width,
    {
        self.width
    }

    /// The number of rows.
    pub fn height(&self) -> (h: u32)
        ensures
            h == self@.height,
    {
        self.height
    }

    /// The pixels in row-major order, one for each position.
    pub fn pixels(&self) -> (pixels: &Vec<Rgba>)
        ensures
            pixels@ == self@.pixels,
            self@.dense(),
            4 * self@.pixels.len() <= usize::MAX,
    {
        proof {
            use_type_invariant(self);
        }
        &self.pixels
    }

    /// The pixel at column `x` of row `y`, where the raster has one.
    pub fn get(&self, x: u32, y: u32) -> (pixel: Option<Rgba>)
        ensures
            pixel is Some <==> x < self@.width && y < self@.height,
            pixel is Some ==> pixel->0 == self@.at(x as int, y as int),
    {
        proof {
            use_type_invariant(self);
        }
        if x < self.width && y < self.height {
            proof {
                assert(y * self.width + x < self.width * self.height) by (nonlinear_arith)
                    requires
                        0 <= x < self.width,
                        0 <= y < self.height,
                ;
                assert(0 <= y * self.width) by (nonlinear_arith)
                    requires
                        0 <= y,
                        0 <= self.width,
                ;
            }
            let row: usize = y as usize * self.width as usize;
            Some(self.pixels[row + x as usize])
        } else {
            None
        }
    }

    /// The packed RGBA samples of the raster.
    pub fn to_rgba_samples(&self) -> (samples: Vec<u8>)
        ensures
            samples@ == packed(self@.pixels),
    {
        proof {
            use_type_invariant(self);
        }
        let count = self.pixels.len();
        let mut samples: Vec<u8> = Vec::with_capacity(4 * count);
        let mut i: usize = 0;
        while i < count
            invariant
                i <= count,
                count == self.pixels@.len(),
                4 * count <= usize::MAX,
                samples@ == packed(self.pixels@).take(4 * i),
            decreases count - i,
        {
            let p = self.pixels[i];
            samples.push(p.r);
            samples.push(p.g);
            samples.push(p.b);
            samples.push(p.a);
            i += 1;
            assert(samples@ =~= packed(self.pixels@).take(4 * i)) by {
                let k = (i - 1) as int;
                assert((4 * k) / 4 == k && (4 * k) % 4 == 0);
                assert((4 * k + 1) / 4 == k && (4 * k + 1) % 4 == 1);
                assert((4 * k + 2) / 4 == k && (4 * k + 2) % 4 == 2);
                assert((4 * k + 3) / 4 == k && (4 * k + 3) % 4 == 3);
            }
        }
        assert(samples@ =~= packed(self.pixels@));
        samples
    }
}

} // verus!
