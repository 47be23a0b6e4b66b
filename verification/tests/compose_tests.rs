use image::GenericImageView;
use poster_composer::compose::{
    all_decodable_check, g, generate_atlas, generate_painting, generate_set, generate_tips,
};
use poster_composer::names::output_name;

fn solid(w: u32, h: u32, rgba: [u8; 4]) -> image::DynamicImage {
    image::DynamicImage::ImageRgba8(image::ImageBuffer::from_pixel(w, h, image::Rgba(rgba)))
}

fn thirds(w: u32, h: u32, c1: [u8; 4], c2: [u8; 4], c3: [u8; 4]) -> image::DynamicImage {
    let buf = image::ImageBuffer::from_fn(w, h, |x, _y| {
        if x < w / 3 {
            image::Rgba(c1)
        } else if x < 2 * w / 3 {
            image::Rgba(c2)
        } else {
            image::Rgba(c3)
        }
    });
    image::DynamicImage::ImageRgba8(buf)
}

const RED: [u8; 4] = [255, 0, 0, 255];
const GREEN: [u8; 4] = [0, 255, 0, 255];
const BLUE: [u8; 4] = [0, 0, 255, 255];
const WHITE: [u8; 4] = [255, 255, 255, 255];

fn png_bytes(img: &image::DynamicImage) -> Vec<u8> {
    let mut buf: Vec<u8> = Vec::new();
    img.write_to(&mut std::io::Cursor::new(&mut buf), image::ImageFormat::Png)
        .unwrap();
    buf
}

#[test]
fn cyclic_accessor_wraps() {
    let a = solid(2, 2, RED);
    let b = solid(3, 3, GREEN);
    let c = solid(4, 4, BLUE);
    let v = vec![a.clone(), b.clone(), c.clone()];
    assert_eq!(*g(&v, 0), a);
    assert_eq!(*g(&v, 1), b);
    assert_eq!(*g(&v, 2), c);
    assert_eq!(*g(&v, 3), a);
    assert_eq!(*g(&v, 4), b);
    assert_eq!(*g(&v, 7), b);
    assert_eq!(*g(&v, 300), a);
}

#[test]
fn single_input_fills_all_slots() {
    let poster_tpl = solid(1024, 1024, WHITE);
    let painting_tpl = solid(600, 400, WHITE);
    let a = thirds(90, 60, RED, GREEN, BLUE);
    let v = vec![a.clone()];
    assert!(all_decodable_check(&v));
    let (atlas, tips, painting) = generate_set(&poster_tpl, &painting_tpl, &v, 0);
    let atlas_direct = generate_atlas(&poster_tpl, &[&a, &a, &a, &a, &a]);
    assert_eq!(atlas, atlas_direct);
    assert_eq!(tips, generate_tips(&a));
    assert_eq!(painting, generate_painting(&painting_tpl, &a));
    assert_eq!(atlas.dimensions(), (1024, 1024));
}

#[test]
fn three_inputs_cycle_through_slots() {
    let poster_tpl = solid(1024, 1024, WHITE);
    let painting_tpl = solid(600, 400, WHITE);
    let a = solid(30, 40, RED);
    let b = solid(40, 30, GREEN);
    let c = solid(50, 50, BLUE);
    let v = vec![a.clone(), b.clone(), c.clone()];
    assert!(all_decodable_check(&v));
    let (atlas, tips, painting) = generate_set(&poster_tpl, &painting_tpl, &v, 0);
    let atlas_direct = generate_atlas(&poster_tpl, &[&a, &b, &c, &a, &b]);
    assert_eq!(atlas, atlas_direct);
    assert_eq!(tips, generate_tips(&a));
    assert_eq!(painting, generate_painting(&painting_tpl, &a));

    let (atlas1, tips1, _) = generate_set(&poster_tpl, &painting_tpl, &v, 1);
    assert_eq!(atlas1, generate_atlas(&poster_tpl, &[&b, &c, &a, &b, &c]));
    assert_eq!(tips1, generate_tips(&b));
}

#[test]
fn identical_runs_give_identical_bytes() {
    let poster_tpl = solid(1024, 1024, WHITE);
    let painting_tpl = solid(600, 400, WHITE);
    let v = vec![solid(33, 21, RED), solid(10, 80, GREEN)];
    let first = generate_set(&poster_tpl, &painting_tpl, &v, 0);
    let second = generate_set(&poster_tpl, &painting_tpl, &v, 0);
    assert_eq!(first, second);
    assert_eq!(png_bytes(&first.0), png_bytes(&second.0));
    assert_eq!(png_bytes(&first.1), png_bytes(&second.1));
    assert_eq!(png_bytes(&first.2), png_bytes(&second.2));
}

#[test]
fn painting_crops_instead_of_squeezing() {
    // A 3:1 source whose middle third is green: filling the 243x324 target
    // keeps the aspect ratio, so only the middle of the source survives the
    // centered crop; the red and blue thirds are discarded, not squeezed in.
    let painting_tpl = solid(600, 400, WHITE);
    let src = thirds(972, 324, RED, GREEN, BLUE);
    let out = generate_painting(&painting_tpl, &src);
    assert_eq!(out.dimensions(), (600, 400));
    let px = out.to_rgba8();
    // The pasted region is exactly 243x324 at offset (264, 19).
    assert_eq!(px.get_pixel(264, 19).0, GREEN);
    assert_eq!(px.get_pixel(506, 19).0, GREEN);
    assert_eq!(px.get_pixel(264, 342).0, GREEN);
    assert_eq!(px.get_pixel(506, 342).0, GREEN);
    assert_eq!(px.get_pixel(385, 180).0, GREEN);
    // Just outside the region the template shows through.
    assert_eq!(px.get_pixel(263, 19).0, WHITE);
    assert_eq!(px.get_pixel(507, 19).0, WHITE);
    assert_eq!(px.get_pixel(264, 18).0, WHITE);
    assert_eq!(px.get_pixel(264, 343).0, WHITE);
    // No pixel of the discarded thirds appears anywhere.
    for p in px.pixels() {
        assert_ne!(p.0, RED);
        assert_ne!(p.0, BLUE);
    }
}

#[test]
fn tip_canvas_is_fixed_and_right_aligned() {
    // A source with the canvas's own aspect ratio fills all of 796x1024.
    let wide = solid(398, 512, RED);
    let out = generate_tips(&wide);
    assert_eq!(out.dimensions(), (796, 1024));
    let px = out.to_rgba8();
    assert_eq!(px.get_pixel(0, 0).0, RED);
    assert_eq!(px.get_pixel(795, 0).0, RED);
    assert_eq!(px.get_pixel(0, 1023).0, RED);
    assert_eq!(px.get_pixel(795, 1023).0, RED);

    // A taller source keeps its aspect ratio and sits right-aligned at the
    // top: the canvas stays 796x1024 and the left strip stays transparent.
    let tall = solid(100, 200, BLUE);
    let out2 = generate_tips(&tall);
    assert_eq!(out2.dimensions(), (796, 1024));
    let px2 = out2.to_rgba8();
    assert_eq!(px2.get_pixel(284, 0).0, BLUE);
    assert_eq!(px2.get_pixel(795, 0).0, BLUE);
    assert_eq!(px2.get_pixel(795, 1023).0, BLUE);
    assert_eq!(px2.get_pixel(0, 0).0[3], 0);
    assert_eq!(px2.get_pixel(283, 511).0[3], 0);
}

#[test]
fn atlas_pastes_right_aligned_into_each_slot() {
    // The first slot is the 341x559 rectangle at (0, 0). A source of that
    // aspect ratio fills it exactly; the template shows through elsewhere
    // in uncovered corners.
    let poster_tpl = solid(1024, 1024, WHITE);
    let a = solid(341, 559, BLUE);
    let atlas = generate_atlas(&poster_tpl, &[&a, &a, &a, &a, &a]);
    assert_eq!(atlas.dimensions(), (1024, 1024));
    let px = atlas.to_rgba8();
    assert_eq!(px.get_pixel(0, 0).0, BLUE);
    assert_eq!(px.get_pixel(340, 558).0, BLUE);
    // Slot two starts at x = 346: the single-pixel gap at x = 341..346
    // keeps the template visible.
    assert_eq!(px.get_pixel(343, 0).0, WHITE);
}

#[test]
fn empty_input_set_is_reported() {
    let v: Vec<image::DynamicImage> = Vec::new();
    assert!(v.is_empty());
    assert!(all_decodable_check(&v));
}

#[test]
fn output_names_are_index_dot_png() {
    assert_eq!(output_name(0), b"0.png".to_vec());
    assert_eq!(output_name(7), b"7.png".to_vec());
    assert_eq!(output_name(12), b"12.png".to_vec());
    assert_eq!(output_name(105), b"105.png".to_vec());
    assert_eq!(output_name(u64::MAX), b"18446744073709551615.png".to_vec());
}

#[test]
fn output_names_are_distinct() {
    let names: Vec<Vec<u8>> = (0..40).map(output_name).collect();
    for i in 0..names.len() {
        for j in 0..names.len() {
            if i != j {
                assert_ne!(names[i], names[j]);
            }
        }
    }
}

#[test]
fn output_directories_are_fixed() {
    assert_eq!(
        poster_composer::names::posters_dir(),
        "BepInEx/plugins/LethalPosters/posters"
    );
    assert_eq!(
        poster_composer::names::tips_dir(),
        "BepInEx/plugins/LethalPosters/tips"
    );
    assert_eq!(
        poster_composer::names::paintings_dir(),
        "BepInEx/plugins/LethalPaintings/paintings"
    );
}
