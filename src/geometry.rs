//! Integer geometry of overlay placement.
//!
//! A face region is enlarged by a scale factor and the replacement picture is
//! centred on the region. The scale factor is an exact decimal, held in
//! millionths, so every footprint here is computed without rounding error.

use vstd::prelude::*;

verus! {

/// Number of millionths in a scale factor of one.
pub const MICROS_PER_UNIT: u64 = 1_000_000;

/// A rectangle reported by the face detector.
#[derive(Clone, Copy, Debug, PartialEq, Eq, Structural)]
pub struct FaceRegion {
    pub x: i32,
    pub y: i32,
    pub width: u32,
    pub height: u32,
}

/// How much larger than the face the overlay is drawn, in millionths:
/// `550_000` stands for 0.55.
#[derive(Clone, Copy, Debug, PartialEq, Eq, Structural)]
pub struct Scale {
    pub micros: u64,
}

/// Where and how large one overlay is drawn, and which of the two overlay
/// pictures is used (`second` selects the second one).
#[derive(Clone, Copy, Debug, PartialEq, Eq, Structural)]
pub struct Placement {
    pub second: bool,
    pub x: i64,
    pub y: i64,
    pub width: u32,
    pub height: u32,
}

/// The amount added to a side of length `len`, truncated to an integer.
pub open spec fn growth(len: nat, scale: Scale) -> nat {
    (len * scale.micros as nat) / (MICROS_PER_UNIT as nat)
}

/// The enlarged length of a side of length `len`.
pub open spec fn enlarged(len: nat, scale: Scale) -> nat {
    len + growth(len, scale)
}

/// A region is drawn only when it has an area and its enlarged footprint is
/// a valid picture size.
pub open spec fn drawable(face: FaceRegion, scale: Scale) -> bool {
    &&& face.width > 0
    &&& face.height > 0
    &&& enlarged(face.width as nat, scale) <= u32::MAX
    &&& enlarged(face.height as nat, scale) <= u32::MAX
}

/// The placement of the overlay for a drawable region: the enlarged
/// footprint, moved up and left by half the growth so that it is centred on
/// the region.
pub open spec fn placement_of(face: FaceRegion, scale: Scale, second: bool) -> Placement {
    Placement {
        second,
        x: (face.x - growth(face.width as nat, scale) / 2) as i64,
        y: (face.y - growth(face.height as nat, scale) / 2) as i64,
        width: enlarged(face.width as nat, scale) as u32,
        height: enlarged(face.height as nat, scale) as u32,
    }
}

/// The placements for a sequence of regions, one choice of picture per
/// region; regions that are not drawable contribute nothing.
pub open spec fn plan(faces: Seq<FaceRegion>, scale: Scale, picks: Seq<bool>) -> Seq<Placement>
    decreases faces.len(),
{
    if faces.len() == 0 {
        Seq::empty()
    } else {
        let n = (faces.len() - 1) as int;
        let rest = plan(faces.take(n), scale, picks.take(n));
        if drawable(faces[n], scale) {
            rest.push(placement_of(faces[n], scale, picks[n]))
        } else {
            rest
        }
    }
}

/// Computes `growth(len, scale)`, or `None` when the enlarged side would not
/// fit in a `u32`.
fn grow(len: u32, scale: Scale) -> (r: Option<u32>)
    ensures
        r is Some <==> enlarged(len as nat, scale) <= u32::MAX,
        r is Some ==> r->0 as nat == growth(len as nat, scale),
{
    assert((len as u128) * (scale.micros as u128) <= u32::MAX as u128 * u64::MAX as u128)
        by (nonlinear_arith);
    let product: u128 = (len as u128) * (scale.micros as u128);
    let g: u128 = product / (MICROS_PER_UNIT as u128);
    if g > (u32::MAX - len) as u128 {
        None
    } else {
        Some(g as u32)
    }
}

/// The placement of the overlay for one region, or `None` where the region
/// has no area or its enlarged footprint is too large for a picture.
pub fn place(face: &FaceRegion, scale: Scale, second: bool) -> (r: Option<Placement>)
    ensures
        r is Some <==> drawable(*face, scale),
        r is Some ==> r->0 == placement_of(*face, scale, second),
{
    if face.width == 0 || face.height == 0 {
        return None;
    }
    let gw = match grow(face.width, scale) {
        Some(g) => g,
        None => return None,
    };
    let gh = match grow(face.height, scale) {
        Some(g) => g,
        None => return None,
    };
    Some(Placement {
        second,
        x: face.x as i64 - (gw / 2) as i64,
        y: face.y as i64 - (gh / 2) as i64,
        width: face.width + gw,
        height: face.height + gh,
    })
}

/// The placements for all regions, in order, with `picks[i]` choosing the
/// picture for `faces[i]`. Regions that are not drawable are left out.
pub fn plan_placements(faces: &Vec<FaceRegion>, scale: Scale, picks: &Vec<bool>) -> (r: Vec<
    Placement,
>)
    requires
        picks@.len() == faces@.len(),
    ensures
        r@ == plan(faces@, scale, picks@),
{
    let mut out: Vec<Placement> = Vec::new();
    let mut i: usize = 0;
    while i < faces.len()
        invariant
            i <= faces@.len(),
            picks@.len() == faces@.len(),
            out@ == plan(faces@.take(i as int), scale, picks@.take(i as int)),
        decreases faces@.len() - i,
    {
        assert(faces@.take(i + 1).take(i as int) == faces@.take(i as int));
        assert(picks@.take(i + 1).take(i as int) == picks@.take(i as int));
        match place(&faces[i], scale, picks[i]) {
            Some(p) => out.push(p),
            None => {},
        }
        i = i + 1;
    }
    assert(faces@.take(faces@.len() as int) == faces@);
    assert(picks@.take(picks@.len() as int) == picks@);
    out
}

/// For any scale factor, the enlarged footprint of a region is at least as
/// wide and as tall as the region itself, and exactly the region at scale
/// zero; wherever the footprint fits a picture size, the overlay placed from
/// it covers the region.
pub proof fn lemma_footprint_covers_region(face: FaceRegion, scale: Scale, second: bool)
    ensures
        enlarged(face.width as nat, scale) >= face.width,
        enlarged(face.height as nat, scale) >= face.height,
        scale.micros == 0 ==> enlarged(face.width as nat, scale) == face.width
            && enlarged(face.height as nat, scale) == face.height,
        enlarged(face.width as nat, scale) <= u32::MAX && enlarged(face.height as nat, scale)
            <= u32::MAX ==> {
            let p = placement_of(face, scale, second);
            &&& p.width >= face.width
            &&& p.height >= face.height
            &&& p.x <= face.x
            &&& p.y <= face.y
            &&& p.x + p.width >= face.x + face.width
            &&& p.y + p.height >= face.y + face.height
        },
{
    if scale.micros == 0 {
        assert(face.width as nat * scale.micros as nat == 0) by (nonlinear_arith)
            requires
                scale.micros == 0,
        ;
        assert(face.height as nat * scale.micros as nat == 0) by (nonlinear_arith)
            requires
                scale.micros == 0,
        ;
    }
}

/// When every region is drawable, there is exactly one placement per region,
/// in the order of the regions, each made from its own region and choice.
pub proof fn lemma_one_placement_per_region(faces: Seq<FaceRegion>, scale: Scale, picks: Seq<bool>)
    requires
        picks.len() == faces.len(),
        forall|i: int| 0 <= i < faces.len() ==> drawable(#[trigger] faces[i], scale),
    ensures
        plan(faces, scale, picks).len() == faces.len(),
        forall|i: int|
            0 <= i < faces.len() ==> #[trigger] plan(faces, scale, picks)[i] == placement_of(
                faces[i],
                scale,
                picks[i],
            ),
    decreases faces.len(),
{
    if faces.len() > 0 {
        let n = (faces.len() - 1) as int;
        let fs = faces.take(n);
        let ps = picks.take(n);
        assert forall|i: int| 0 <= i < fs.len() implies drawable(#[trigger] fs[i], scale) by {
            assert(fs[i] == faces[i]);
        }
        lemma_one_placement_per_region(fs, scale, ps);
        assert forall|i: int| 0 <= i < faces.len() implies #[trigger] plan(faces, scale, picks)[i]
            == placement_of(faces[i], scale, picks[i]) by {
            if i < n {
                assert(fs[i] == faces[i]);
                assert(ps[i] == picks[i]);
            }
        }
    }
}

/// Every planned placement is at least one pixel wide and tall.
pub proof fn lemma_plan_sized(faces: Seq<FaceRegion>, scale: Scale, picks: Seq<bool>)
    ensures
        forall|i: int|
            0 <= i < plan(faces, scale, picks).len() ==> #[trigger] plan(faces, scale, picks)[i].width
                > 0 && plan(faces, scale, picks)[i].height > 0,
    decreases faces.len(),
{
    if faces.len() > 0 {
        let n = (faces.len() - 1) as int;
        let rest = plan(faces.take(n), scale, picks.take(n));
        lemma_plan_sized(faces.take(n), scale, picks.take(n));
        if drawable(faces[n], scale) {
            let p = placement_of(faces[n], scale, picks[n]);
            assert(enlarged(faces[n].width as nat, scale) >= faces[n].width);
            assert(enlarged(faces[n].height as nat, scale) >= faces[n].height);
            assert forall|i: int| 0 <= i < rest.push(p).len() implies #[trigger] rest.push(
                p,
            )[i].width > 0 && rest.push(p)[i].height > 0 by {
                if i < rest.len() {
                    assert(rest.push(p)[i] == rest[i]);
                }
            }
        }
    }
}

} // verus!
