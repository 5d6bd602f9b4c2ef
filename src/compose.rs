//! Drawing the overlays: each placement resizes one of the two overlay
//! pictures to its footprint and draws it over the base picture.

use crate::error::StrangeError;
use crate::geometry::{lemma_plan_sized, plan, plan_placements, FaceRegion, Placement, Scale};
use vstd::prelude::*;

verus! {

/// `image`'s decoded picture, carried as an opaque value.
#[verifier::external_type_specification]
#[verifier::external_body]
pub struct ExDynamicImage(image::DynamicImage);

/// `image`'s error for a failed decode or encode, carried as an opaque value.
#[verifier::external_type_specification]
#[verifier::external_body]
pub struct ExImageError(image::ImageError);

/// The picture that `DynamicImage::resize_exact` makes from `img`, exactly
/// `width` by `height`, with the Catmull-Rom filter.
pub uninterp spec fn resized(img: image::DynamicImage, width: u32, height: u32) -> image::DynamicImage;

/// The picture that `imageops::overlay` leaves in `bottom` after drawing
/// `top` with its top-left corner at `(x, y)`.
pub uninterp spec fn overlaid(
    bottom: image::DynamicImage,
    top: image::DynamicImage,
    x: i64,
    y: i64,
) -> image::DynamicImage;

/// Relies on `DynamicImage::resize_exact`, which scales to exactly the
/// given size, without keeping the aspect ratio, with the given filter and
/// depends on its arguments alone. A zero bound can trip the sampler's
/// assertions, so both bounds are positive.
#[verifier::external_body]
fn resize_catmull_rom(img: &image::DynamicImage, width: u32, height: u32) -> (r:
    image::DynamicImage)
    requires
        width > 0,
        height > 0,
    ensures
        r == resized(*img, width, height),
{
    img.resize_exact(width, height, image::imageops::FilterType::CatmullRom)
}

/// Relies on `imageops::overlay`, which blends `top` into `bottom` at
/// `(x, y)`, clips what falls outside `bottom`, and depends on its arguments
/// alone.
#[verifier::external_body]
fn overlay_at(bottom: &mut image::DynamicImage, top: &image::DynamicImage, x: i64, y: i64)
    ensures
        *final(bottom) == overlaid(*old(bottom), *top, x, y),
{
    image::imageops::overlay(bottom, top, x, y)
}

/// The overlay picture that a placement uses.
pub open spec fn chosen(overlays: Seq<image::DynamicImage>, p: Placement) -> image::DynamicImage {
    if p.second {
        overlays[1]
    } else {
        overlays[0]
    }
}

/// The picture after drawing each placement in order over `base`: for each
/// placement one resize of the chosen overlay and one draw of the result.
pub open spec fn composed(
    base: image::DynamicImage,
    overlays: Seq<image::DynamicImage>,
    ps: Seq<Placement>,
) -> image::DynamicImage
    decreases ps.len(),
{
    if ps.len() == 0 {
        base
    } else {
        let n = (ps.len() - 1) as int;
        let p = ps[n];
        overlaid(
            composed(base, overlays, ps.take(n)),
            resized(chosen(overlays, p), p.width, p.height),
            p.x,
            p.y,
        )
    }
}

/// Every placement has a footprint of at least one pixel each way.
pub open spec fn all_sized(ps: Seq<Placement>) -> bool {
    forall|i: int| 0 <= i < ps.len() ==> #[trigger] ps[i].width > 0 && ps[i].height > 0
}

/// Draws every placement over `img`, in order.
pub fn apply_placements(
    img: &mut image::DynamicImage,
    overlays: &[image::DynamicImage; 2],
    placements: &Vec<Placement>,
)
    requires
        all_sized(placements@),
    ensures
        *final(img) == composed(*old(img), overlays@, placements@),
{
    let ghost base = *img;
    let mut i: usize = 0;
    while i < placements.len()
        invariant
            i <= placements@.len(),
            all_sized(placements@),
            *img == composed(base, overlays@, placements@.take(i as int)),
        decreases placements@.len() - i,
    {
        let p = placements[i];
        assert(placements@.take(i + 1).take(i as int) == placements@.take(i as int));
        let top = if p.second {
            resize_catmull_rom(&overlays[1], p.width, p.height)
        } else {
            resize_catmull_rom(&overlays[0], p.width, p.height)
        };
        overlay_at(img, &top, p.x, p.y);
        i = i + 1;
    }
    assert(placements@.take(placements@.len() as int) == placements@);
}

/// With no region detected, nothing is drawn: the picture is left exactly as
/// it was.
pub proof fn lemma_no_faces_leaves_picture(
    img: image::DynamicImage,
    overlays: Seq<image::DynamicImage>,
    scale: Scale,
    picks: Seq<bool>,
)
    ensures
        composed(img, overlays, plan(Seq::<FaceRegion>::empty(), scale, picks)) == img,
{
}

/// Each placement costs exactly one resize and one draw: drawing one more
/// placement draws the resized chosen overlay once over what was there.
pub proof fn lemma_one_draw_per_placement(
    img: image::DynamicImage,
    overlays: Seq<image::DynamicImage>,
    ps: Seq<Placement>,
    p: Placement,
)
    ensures
        composed(img, overlays, ps.push(p)) == overlaid(
            composed(img, overlays, ps),
            resized(chosen(overlays, p), p.width, p.height),
            p.x,
            p.y,
        ),
{
    assert(ps.push(p).take(ps.len() as int) == ps);
}

/// Relies on `rand::random`, here for a fair coin flip; nothing is promised
/// of its value.
pub assume_specification<T>[ rand::random::<T> ]() -> (r: T)
    where
        rand::distributions::Standard: rand::distributions::Distribution<T>,
;

/// One fair coin flip per region, each choosing between the two overlays.
fn draw_picks(n: usize) -> (r: Vec<bool>)
    ensures
        r@.len() == n,
{
    let mut picks: Vec<bool> = Vec::new();
    let mut i: usize = 0;
    while i < n
        invariant
            i <= n,
            picks@.len() == i,
        decreases n - i,
    {
        let flip: bool = rand::random::<bool>();
        picks.push(flip);
        i = i + 1;
    }
    picks
}

/// Draws an overlay over every drawable region of `faces`, each with an
/// overlay picked at random, and returns the placements drawn.
pub fn strangify(
    img: &mut image::DynamicImage,
    faces: &Vec<FaceRegion>,
    scale: Scale,
    overlays: &[image::DynamicImage; 2],
) -> (r: Vec<Placement>)
    ensures
        exists|picks: Seq<bool>|
            #![trigger plan(faces@, scale, picks)]
            picks.len() == faces@.len() && r@ == plan(faces@, scale, picks),
        *final(img) == composed(*old(img), overlays@, r@),
        faces@.len() == 0 ==> *final(img) == *old(img),
{
    let picks = draw_picks(faces.len());
    let placements = plan_placements(faces, scale, &picks);
    proof {
        lemma_plan_sized(faces@, scale, picks@);
    }
    apply_placements(img, overlays, &placements);
    assert(faces@.len() == 0 ==> placements@.len() == 0);
    placements
}

/// The picture that `image::load_from_memory` decodes from `bytes`, or
/// `None` where it fails.
pub uninterp spec fn decoded(bytes: Seq<u8>) -> Option<image::DynamicImage>;

/// The bytes that `DynamicImage::write_to` writes for `img` in the JPEG
/// format, or `None` where it fails.
pub uninterp spec fn jpeg_of(img: image::DynamicImage) -> Option<Seq<u8>>;

/// Relies on `image::load_from_memory`, which guesses the format from the
/// bytes and decodes them; the outcome depends on the bytes alone.
#[verifier::external_body]
fn load_from_memory(bytes: &[u8]) -> (r: Result<image::DynamicImage, image::ImageError>)
    ensures
        r is Ok <==> decoded(bytes@) is Some,
        r is Ok ==> r->Ok_0 == decoded(bytes@)->0,
{
    image::load_from_memory(bytes)
}

/// Relies on `DynamicImage::write_to` with the JPEG format, writing into a
/// fresh byte buffer; the outcome depends on the picture alone.
#[verifier::external_body]
fn write_jpeg(img: &image::DynamicImage) -> (r: Result<Vec<u8>, image::ImageError>)
    ensures
        r is Ok <==> jpeg_of(*img) is Some,
        r is Ok ==> r->Ok_0@ == jpeg_of(*img)->0,
{
    let mut cursor = std::io::Cursor::new(Vec::new());
    match img.write_to(&mut cursor, image::ImageFormat::Jpeg) {
        Ok(()) => Ok(cursor.into_inner()),
        Err(e) => Err(e),
    }
}

/// Decodes a picture in any known format; a failure is `DecodeFailed`.
pub fn decode_image(bytes: &[u8]) -> (r: Result<image::DynamicImage, StrangeError>)
    ensures
        r is Ok <==> decoded(bytes@) is Some,
        r is Ok ==> r->Ok_0 == decoded(bytes@)->0,
        r is Err ==> r == Err::<image::DynamicImage, StrangeError>(StrangeError::DecodeFailed),
{
    match load_from_memory(bytes) {
        Ok(img) => Ok(img),
        Err(_) => Err(StrangeError::DecodeFailed),
    }
}

/// Encodes a picture as JPEG; a failure is `EncodeFailed`.
pub fn encode_jpeg(img: &image::DynamicImage) -> (r: Result<Vec<u8>, StrangeError>)
    ensures
        r is Ok <==> jpeg_of(*img) is Some,
        r is Ok ==> r->Ok_0@ == jpeg_of(*img)->0,
        r is Err ==> r == Err::<Vec<u8>, StrangeError>(StrangeError::EncodeFailed),
{
    match write_jpeg(img) {
        Ok(bytes) => Ok(bytes),
        Err(_) => Err(StrangeError::EncodeFailed),
    }
}

} // verus!
