//! Composition of projective transforms and the warp of a raster by one.
//!
//! The matrices and the resampling are imageproc's. A matrix is carried as
//! an opaque value; what it holds, what a product holds and what a warp
//! returns are named here, and the contracts of this module are stated over
//! those names.

use crate::raster::{fill, fill_color, packed, unpacked, Raster, RasterView, Rgba};
use image::ImageBuffer;
use imageproc::geometric_transformations::{Interpolation, Projection};
use vstd::prelude::*;

verus! {

/// `Projection` of imageproc, a projective transform of the plane. Nothing
/// inside it is read here: a value is made outside, carried, multiplied and
/// handed to the warp.
#[verifier::external_type_specification]
#[verifier::external_body]
pub struct ExProjection(imageproc::geometric_transformations::Projection);

/// All that a `Projection` holds: the nine entries of its matrix, the nine of
/// the inverse it keeps beside it, and its class (translation, affine or
/// general), each as one integer. Every entry that is not a number counts as
/// the same one.
pub uninterp spec fn entries(p: Projection) -> Seq<int>;

/// What the product `left * right` of two projections holds.
pub uninterp spec fn product(left: Seq<int>, right: Seq<int>) -> Seq<int>;

/// The packed RGBA samples that imageproc's bilinear `warp` returns for an
/// image of `width` by `height` pixels with the given samples, a projection
/// that holds `entries`, and `fill` as the default pixel.
pub uninterp spec fn resampled(
    width: nat,
    height: nat,
    samples: Seq<u8>,
    entries: Seq<int>,
    fill: Rgba,
) -> Seq<u8>;

/// `Projection * Projection` of imageproc: multiplies the two matrices in
/// this order, the two inverses in the other, and joins the classes. The
/// result depends on what the operands hold and on nothing else.
#[verifier::external_body]
fn times(left: &Projection, right: &Projection) -> (out: Projection)
    ensures
        entries(out) == product(entries(*left), entries(*right)),
{
    *left * *right
}

/// `warp` of imageproc with bilinear interpolation, on an RGBA image made of
/// `samples` by `ImageBuffer::from_raw` and handed back by `into_raw`. The
/// returned image has the dimensions of the given one, so as many samples;
/// they depend on the arguments alone. A width of zero is left out: the
/// rows are then cut into chunks of no samples, which panics.
#[verifier::external_body]
fn warp_samples(
    width: u32,
    height: u32,
    samples: Vec<u8>,
    transform: &Projection,
    fill: Rgba,
) -> (out: Vec<u8>)
    requires
        width > 0,
        samples@.len() == 4 * (width * height),
    ensures
        out@.len() == samples@.len(),
        out@ == resampled(width as nat, height as nat, samples@, entries(*transform), fill),
{
    let source: ImageBuffer<image::Rgba<u8>, Vec<u8>> = ImageBuffer::from_raw(
        width,
        height,
        samples,
    ).unwrap();
    let default = image::Rgba([fill.r, fill.g, fill.b, fill.a]);
    imageproc::geometric_transformations::warp(
        &source,
        transform,
        Interpolation::Bilinear,
        default,
    ).into_raw()
}

/// What the steps of a chain hold, in order.
pub open spec fn held(steps: Seq<Projection>) -> Seq<Seq<int>> {
    steps.map_values(|p: Projection| entries(p))
}

/// What the net transform of a chain holds: each step in turn is multiplied
/// from the left onto what the steps before it gave, beginning with `start`.
/// So the first step acts first on a point and the last step last.
pub open spec fn composed(start: Seq<int>, steps: Seq<Seq<int>>) -> Seq<int>
    decreases steps.len(),
{
    if steps.len() == 0 {
        start
    } else {
        product(steps.last(), composed(start, steps.drop_last()))
    }
}

/// The net transform of a chain of steps, begun from `start`. For the
/// transform of the chain alone, `start` is the identity.
pub fn compose(start: Projection, steps: &Vec<Projection>) -> (net: Projection)
    ensures
        entries(net) == composed(entries(start), held(steps@)),
{
    let mut net = start;
    let mut i: usize = 0;
    while i < steps.len()
        invariant
            i <= steps@.len(),
            entries(net) == composed(entries(start), held(steps@).take(i as int)),
        decreases steps@.len() - i,
    {
        net = times(&steps[i], &net);
        i += 1;
        proof {
            let upto = held(steps@).take(i as int);
            assert(upto.drop_last() == held(steps@).take(i - 1));
            assert(upto.last() == entries(steps@[i - 1]));
        }
    }
    assert(held(steps@).take(i as int) == held(steps@));
    net
}

/// A chain without steps leaves the start as it is.
pub proof fn lemma_composed_none(start: Seq<int>)
    ensures
        composed(start, Seq::empty()) == start,
{
}

/// A chain of one step is that step multiplied from the left onto the start.
pub proof fn lemma_composed_one(start: Seq<int>, step: Seq<int>)
    ensures
        composed(start, seq![step]) == product(step, start),
{
    assert(seq![step].drop_last() == Seq::<Seq<int>>::empty());
    assert(composed(start, seq![step]) == product(
        seq![step].last(),
        composed(start, seq![step].drop_last()),
    ));
}

/// Composing a chain is composing its first part and going on from there
/// with the rest.
pub proof fn lemma_composed_in_parts(start: Seq<int>, first: Seq<Seq<int>>, rest: Seq<Seq<int>>)
    ensures
        composed(start, first + rest) == composed(composed(start, first), rest),
    decreases rest.len(),
{
    if rest.len() == 0 {
        assert(first + rest == first);
    } else {
        lemma_composed_in_parts(start, first, rest.drop_last());
        assert((first + rest).drop_last() == first + rest.drop_last());
        assert((first + rest).last() == rest.last());
    }
}

/// The raster that a warp gives: the dimensions of the source, and for
/// pixels what the resampling returns. A source without pixels has nothing
/// to resample.
pub open spec fn warped(source: RasterView, transform: Seq<int>, fill: Rgba) -> RasterView {
    RasterView {
        width: source.width,
        height: source.height,
        pixels: if source.pixels.len() == 0 {
            source.pixels
        } else {
            unpacked(
                resampled(source.width, source.height, packed(source.pixels), transform, fill),
            )
        },
    }
}

/// Warps `source` by `transform`: each pixel of the result is resampled
/// from the place in the source that the transform sends to it, and is
/// `fill` where the source has no such place.
pub fn warp_onto(source: &Raster, transform: &Projection, fill: Rgba) -> (out: Raster)
    ensures
        out@ == warped(source@, entries(*transform), fill),
        out@.dense(),
{
    let width = source.width();
    let height = source.height();
    let count = source.pixels().len();
    if count == 0 {
        let none: Vec<Rgba> = Vec::new();
        assert(none@ =~= source@.pixels);
        let same = Raster::new(width, height, none);
        return same.unwrap();
    }
    proof {
        assert(width > 0) by (nonlinear_arith)
            requires
                width * height > 0,
                width >= 0,
        ;
    }
    let samples = source.to_rgba_samples();
    let moved = warp_samples(width, height, samples, transform, fill);
    let out = Raster::from_rgba_samples(width, height, moved.as_slice());
    out.unwrap()
}

/// Warps `source` by `transform`, with the fill colour of this library
/// where the source has no place to sample.
pub fn warp(source: &Raster, transform: &Projection) -> (out: Raster)
    ensures
        out@ == warped(source@, entries(*transform), fill()),
        out@.dense(),
{
    warp_onto(source, transform, fill_color())
}

/// One frame: the source warped by the net transform of the chain.
pub fn render(source: &Raster, start: Projection, steps: &Vec<Projection>) -> (out: Raster)
    ensures
        out@ == warped(source@, composed(entries(start), held(steps@)), fill()),
        out@.dense(),
{
    let net = compose(start, steps);
    warp(source, &net)
}

} // verus!
