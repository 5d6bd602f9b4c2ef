use image::{DynamicImage, GenericImageView, Rgba, RgbaImage};
use strangeway::compose::{apply_placements, decode_image, encode_jpeg, strangify};
use strangeway::error::StrangeError;
use strangeway::geometry::{FaceRegion, Placement, Scale};

fn solid(w: u32, h: u32, px: [u8; 4]) -> DynamicImage {
    DynamicImage::ImageRgba8(RgbaImage::from_pixel(w, h, Rgba(px)))
}

fn overlays() -> [DynamicImage; 2] {
    [solid(8, 8, [255, 0, 0, 255]), solid(8, 8, [0, 0, 255, 255])]
}

#[test]
fn no_faces_leaves_image_identical() {
    let mut img = solid(64, 48, [10, 20, 30, 255]);
    let before = img.clone();
    let ps = strangify(&mut img, &vec![], Scale { micros: 550_000 }, &overlays());
    assert!(ps.is_empty());
    assert_eq!(img, before);
}

#[test]
fn each_face_gets_one_overlay() {
    let mut img = solid(200, 200, [0, 255, 0, 255]);
    let faces = vec![
        FaceRegion { x: 100, y: 100, width: 40, height: 40 },
        FaceRegion { x: 10, y: 10, width: 20, height: 20 },
    ];
    let ps = strangify(&mut img, &faces, Scale { micros: 500_000 }, &overlays());
    assert_eq!(ps.len(), 2);
    assert_eq!((ps[0].x, ps[0].y, ps[0].width, ps[0].height), (90, 90, 60, 60));
    assert_eq!((ps[1].x, ps[1].y, ps[1].width, ps[1].height), (5, 5, 30, 30));
    // inside each footprint the pixel now comes from an overlay
    for (x, y) in [(120u32, 120u32), (20, 20)] {
        let p = img.get_pixel(x, y);
        assert!(p[1] < 10 && (p[0] > 200 || p[2] > 200));
    }
    // outside every footprint nothing changed
    assert_eq!(img.get_pixel(199, 0), Rgba([0, 255, 0, 255]));
    assert_eq!(img.get_pixel(89, 150), Rgba([0, 255, 0, 255]));
}

#[test]
fn placement_draws_chosen_overlay_and_clips() {
    let mut img = solid(20, 20, [0, 0, 0, 255]);
    let ps = vec![
        Placement { second: true, x: -4, y: -4, width: 8, height: 8 },
        Placement { second: false, x: 16, y: 16, width: 8, height: 8 },
    ];
    apply_placements(&mut img, &overlays(), &ps);
    assert_eq!(img.dimensions(), (20, 20));
    assert_eq!(img.get_pixel(0, 0), Rgba([0, 0, 255, 255]));
    assert_eq!(img.get_pixel(3, 3), Rgba([0, 0, 255, 255]));
    assert_eq!(img.get_pixel(4, 4), Rgba([0, 0, 0, 255]));
    assert_eq!(img.get_pixel(19, 19), Rgba([255, 0, 0, 255]));
    assert_eq!(img.get_pixel(15, 15), Rgba([0, 0, 0, 255]));
}

#[test]
fn jpeg_round_trip_keeps_dimensions() {
    let mut img = DynamicImage::new_rgb8(64, 40);
    let faces = vec![FaceRegion { x: 20, y: 10, width: 16, height: 16 }];
    strangify(&mut img, &faces, Scale { micros: 550_000 }, &overlays());
    let bytes = encode_jpeg(&img).unwrap();
    assert!(!bytes.is_empty());
    let back = decode_image(&bytes).unwrap();
    assert_eq!(back.dimensions(), (64, 40));
}

#[test]
fn garbage_bytes_fail_to_decode() {
    assert_eq!(decode_image(b"not a picture at all").err(), Some(StrangeError::DecodeFailed));
    assert_eq!(decode_image(&[]).err(), Some(StrangeError::DecodeFailed));
}

#[test]
fn overlay_fills_whole_footprint() {
    let mut img = solid(20, 20, [0, 0, 0, 255]);
    let wide = [solid(8, 2, [255, 0, 0, 255]), solid(8, 2, [255, 0, 0, 255])];
    let ps = vec![Placement { second: false, x: 2, y: 2, width: 10, height: 10 }];
    apply_placements(&mut img, &wide, &ps);
    for (x, y) in [(2u32, 2u32), (11, 11), (2, 11), (11, 2), (6, 7)] {
        let p = img.get_pixel(x, y);
        assert!(p[0] > 200 && p[1] < 10 && p[2] < 10);
    }
    assert_eq!(img.get_pixel(12, 12), Rgba([0, 0, 0, 255]));
    assert_eq!(img.get_pixel(1, 1), Rgba([0, 0, 0, 255]));
}

#[test]
fn empty_picture_fails_to_encode() {
    let img = DynamicImage::new_rgb8(0, 0);
    assert_eq!(encode_jpeg(&img).err(), Some(StrangeError::EncodeFailed));
}

#[test]
fn encoded_bytes_decode_to_same_size() {
    let img = solid(30, 17, [1, 2, 3, 255]);
    let bytes = encode_jpeg(&img).unwrap();
    assert_eq!(&bytes[..2], &[0xFF, 0xD8]);
    assert_eq!(decode_image(&bytes).unwrap().dimensions(), (30, 17));
}
