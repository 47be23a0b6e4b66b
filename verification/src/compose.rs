//! The compositing logic: cyclic access into the decoded input set and the
//! three generators (poster atlas, tip thumbnail, painting), together with
//! the per-index orchestration and the laws of cyclic reuse.

use vstd::prelude::*;
use crate::img::{
    blank_image, blank_of, clone_image, fill_resized, fit_resized, height_of, image_height,
    image_width, overlaid, overlay_onto, resize_fill, resize_fit, width_of,
};

verus! {

/// The element of `s` that cyclic index `k` selects: `s[k mod |s|]`.
pub open spec fn cyclic_at(s: Seq<image::DynamicImage>, k: int) -> image::DynamicImage {
    s[k % (s.len() as int)]
}

/// Every raster in `s` has at least one pixel in each dimension, as every
/// successfully decoded image does.
pub open spec fn all_decodable(s: Seq<image::DynamicImage>) -> bool {
    forall|j: int|
        0 <= j < s.len() ==> 1 <= image_width(#[trigger] s[j]) && 1 <= image_height(s[j])
}

/// The rasters referenced by a sequence of borrows.
pub open spec fn pointed_to(s: Seq<&image::DynamicImage>) -> Seq<image::DynamicImage> {
    s.map_values(|p: &image::DynamicImage| *p)
}

/// Run-time test of the decodability invariant: whether every raster in
/// `input` has at least one pixel in each dimension.
pub fn all_decodable_check(input: &Vec<image::DynamicImage>) -> (b: bool)
    ensures
        b == all_decodable(input@),
{
    let mut i: usize = 0;
    while i < input.len()
        invariant
            i <= input@.len(),
            forall|j: int|
                0 <= j < i ==> 1 <= image_width(#[trigger] input@[j]) && 1 <= image_height(
                    input@[j],
                ),
        decreases input@.len() - i,
    {
        let w = width_of(&input[i]);
        let h = height_of(&input[i]);
        if w < 1 || h < 1 {
            return false;
        }
        i = i + 1;
    }
    true
}

/// Cyclic accessor into the input set: the element at `index mod |input|`.
pub fn g<'a>(input: &'a Vec<image::DynamicImage>, index: usize) -> (r: &'a image::DynamicImage)
    requires
        input@.len() >= 1,
    ensures
        *r == cyclic_at(input@, index as int),
        0 <= (index as int) % (input@.len() as int) < input@.len(),
{
    &input[index % input.len()]
}

/// The fixed target rectangle `(x, y, w, h)` of atlas slot `i`: the
/// intrinsic layout of the poster template.
pub open spec fn poster_offset(i: int) -> (u32, u32, u32, u32) {
    if i == 0 {
        (0u32, 0u32, 341u32, 559u32)
    } else if i == 1 {
        (346u32, 0u32, 284u32, 559u32)
    } else if i == 2 {
        (641u32, 58u32, 274u32, 243u32)
    } else if i == 3 {
        (184u32, 620u32, 411u32, 364u32)
    } else {
        (632u32, 320u32, 372u32, 672u32)
    }
}

/// One atlas slot: `poster` resized to fit slot `i`'s rectangle and drawn
/// right-aligned, top-aligned within it.
pub open spec fn slot_pasted(
    base: image::DynamicImage,
    poster: image::DynamicImage,
    i: int,
) -> image::DynamicImage {
    let o = poster_offset(i);
    let p = fit_resized(poster, o.2, o.3);
    overlaid(base, p, (o.0 + o.2 - image_width(p)) as i64, o.1 as i64)
}

/// The atlas after the first `n` slots have been pasted, in slot order.
pub open spec fn atlas_prefix(
    template: image::DynamicImage,
    posters: Seq<image::DynamicImage>,
    n: int,
) -> image::DynamicImage
    decreases n,
{
    if n <= 0 {
        template
    } else {
        slot_pasted(atlas_prefix(template, posters, n - 1), posters[n - 1], n - 1)
    }
}

/// The finished five-slot poster atlas over a fresh copy of `template`.
pub open spec fn atlas_composed(
    template: image::DynamicImage,
    posters: Seq<image::DynamicImage>,
) -> image::DynamicImage {
    atlas_prefix(template, posters, 5)
}

/// The tip thumbnail: the source fitted into 796 by 1024 and drawn
/// right-aligned, top-aligned on a fresh transparent canvas of that size.
pub open spec fn tip_composed(poster: image::DynamicImage) -> image::DynamicImage {
    let p = fit_resized(poster, 796, 1024);
    overlaid(blank_of(796, 1024), p, (796 - image_width(p)) as i64, 0)
}

/// The painting: the source scaled to fill 243 by 324, center-cropped, and
/// drawn at the fixed offset `(264, 19)` on a fresh copy of `template`.
pub open spec fn painting_composed(
    template: image::DynamicImage,
    poster: image::DynamicImage,
) -> image::DynamicImage {
    overlaid(template, fill_resized(poster, 243, 324), 264, 19)
}

/// The fixed target rectangle of atlas slot `i`.
fn poster_offset_at(i: usize) -> (r: (u32, u32, u32, u32))
    requires
        i < 5,
    ensures
        r == poster_offset(i as int),
{
    if i == 0 {
        (0, 0, 341, 559)
    } else if i == 1 {
        (346, 0, 284, 559)
    } else if i == 2 {
        (641, 58, 274, 243)
    } else if i == 3 {
        (184, 620, 411, 364)
    } else {
        (632, 320, 372, 672)
    }
}

/// Compose the five-slot poster atlas: starting from a fresh copy of the
/// poster template, paste each source into its fixed slot, in slot order;
/// where slots overlap, later slots paint over earlier ones.
pub fn generate_atlas(
    template: &image::DynamicImage,
    posters: &[&image::DynamicImage; 5],
) -> (r: image::DynamicImage)
    requires
        all_decodable(pointed_to(posters@)),
    ensures
        r == atlas_composed(*template, pointed_to(posters@)),
        image_width(r) == image_width(*template),
        image_height(r) == image_height(*template),
{
    let ghost pseq = pointed_to(posters@);
    let mut base = clone_image(template);
    let mut i: usize = 0;
    while i < 5
        invariant
            i <= 5,
            pseq == pointed_to(posters@),
            all_decodable(pseq),
            base == atlas_prefix(*template, pseq, i as int),
            image_width(base) == image_width(*template),
            image_height(base) == image_height(*template),
        decreases 5 - i,
    {
        assert(pseq[i as int] == *posters@[i as int]);
        let o = poster_offset_at(i);
        let p = resize_fit(posters[i], o.2, o.3);
        let x: u32 = o.0 + o.2 - width_of(&p);
        overlay_onto(&mut base, &p, x as i64, o.1 as i64);
        i = i + 1;
    }
    base
}

/// Compose the tip thumbnail: the source fitted into the fixed 796 by 1024
/// canvas and drawn right-aligned, top-aligned; no template is involved.
pub fn generate_tips(poster: &image::DynamicImage) -> (r: image::DynamicImage)
    requires
        1 <= image_width(*poster),
        1 <= image_height(*poster),
    ensures
        r == tip_composed(*poster),
        image_width(r) == 796,
        image_height(r) == 1024,
{
    let mut base = blank_image(796, 1024);
    let p = resize_fit(poster, 796, 1024);
    let x: u32 = 796 - width_of(&p);
    overlay_onto(&mut base, &p, x as i64, 0);
    base
}

/// Compose the painting: the source scaled to fill the fixed 243 by 324
/// rectangle with its aspect ratio kept (overflow cropped away, never
/// squeezed), drawn at `(264, 19)` on a fresh copy of the template.
pub fn generate_painting(
    template: &image::DynamicImage,
    poster: &image::DynamicImage,
) -> (r: image::DynamicImage)
    requires
        1 <= image_width(*poster),
        1 <= image_height(*poster),
    ensures
        r == painting_composed(*template, *poster),
        image_width(r) == image_width(*template),
        image_height(r) == image_height(*template),
{
    let mut base = clone_image(template);
    let p = resize_fill(poster, 243, 324);
    overlay_onto(&mut base, &p, 264, 19);
    base
}

/// The five atlas sources of loop index `i`: cyclic indices `i` to `i + 4`.
pub open spec fn atlas_sources(s: Seq<image::DynamicImage>, i: int) -> Seq<image::DynamicImage> {
    seq![
        cyclic_at(s, i),
        cyclic_at(s, i + 1),
        cyclic_at(s, i + 2),
        cyclic_at(s, i + 3),
        cyclic_at(s, i + 4),
    ]
}

/// All three assets of loop index `i`: the poster atlas from the cyclic
/// sources `i` to `i + 4`, and the tip and painting from cyclic source `i`.
pub fn generate_set(
    poster_template: &image::DynamicImage,
    painting_template: &image::DynamicImage,
    input: &Vec<image::DynamicImage>,
    i: usize,
) -> (r: (image::DynamicImage, image::DynamicImage, image::DynamicImage))
    requires
        input@.len() >= 1,
        all_decodable(input@),
        i + 4 <= usize::MAX,
    ensures
        r.0 == atlas_composed(*poster_template, atlas_sources(input@, i as int)),
        r.1 == tip_composed(cyclic_at(input@, i as int)),
        r.2 == painting_composed(*painting_template, cyclic_at(input@, i as int)),
        image_width(r.0) == image_width(*poster_template),
        image_height(r.0) == image_height(*poster_template),
        image_width(r.1) == 796,
        image_height(r.1) == 1024,
        image_width(r.2) == image_width(*painting_template),
        image_height(r.2) == image_height(*painting_template),
{
    let p0 = g(input, i);
    let p1 = g(input, i + 1);
    let p2 = g(input, i + 2);
    let p3 = g(input, i + 3);
    let p4 = g(input, i + 4);
    let posters = [p0, p1, p2, p3, p4];
    assert(pointed_to(posters@) =~= atlas_sources(input@, i as int));
    let atlas = generate_atlas(poster_template, &posters);
    let tips = generate_tips(p0);
    let painting = generate_painting(painting_template, p0);
    (atlas, tips, painting)
}

/// Cyclic reuse law: the accessor is periodic in the index with period
/// `|s|`, so indices past the end of the input set reuse its elements in
/// order.
pub proof fn lemma_cyclic_period(s: Seq<image::DynamicImage>, k: int)
    requires
        s.len() >= 1,
        0 <= k,
    ensures
        cyclic_at(s, k + s.len() as int) == cyclic_at(s, k),
{
    vstd::arithmetic::div_mod::lemma_mod_add_multiples_vanish(k, s.len() as int);
}

/// Single-input law: with exactly one decoded input, every cyclic index
/// selects it, so one input still fills all five slots of its atlas.
pub proof fn lemma_single_input_fills_atlas(s: Seq<image::DynamicImage>, i: int)
    requires
        s.len() == 1,
        0 <= i,
    ensures
        atlas_sources(s, i) =~= seq![s[0], s[0], s[0], s[0], s[0]],
{
    vstd::arithmetic::div_mod::lemma_mod_multiples_basic(i, 1);
    vstd::arithmetic::div_mod::lemma_mod_multiples_basic(i + 1, 1);
    vstd::arithmetic::div_mod::lemma_mod_multiples_basic(i + 2, 1);
    vstd::arithmetic::div_mod::lemma_mod_multiples_basic(i + 3, 1);
    vstd::arithmetic::div_mod::lemma_mod_multiples_basic(i + 4, 1);
}

/// Determinism law: with the same templates and the same decoded inputs in
/// the same order, every generator composes the same rasters, so a second
/// identical run reproduces the first one's outputs.
pub proof fn lemma_run_deterministic(
    poster_template: image::DynamicImage,
    painting_template: image::DynamicImage,
    s1: Seq<image::DynamicImage>,
    s2: Seq<image::DynamicImage>,
    i: int,
)
    requires
        s1 == s2,
    ensures
        atlas_composed(poster_template, atlas_sources(s1, i)) == atlas_composed(
            poster_template,
            atlas_sources(s2, i),
        ),
        tip_composed(cyclic_at(s1, i)) == tip_composed(cyclic_at(s2, i)),
        painting_composed(painting_template, cyclic_at(s1, i)) == painting_composed(
            painting_template,
            cyclic_at(s2, i),
        ),
{
}

} // verus!
