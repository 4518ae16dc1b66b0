use base64::Engine;
use visolingua::capture::{encode_area, local_coord, select_display, CaptureError, DisplayBounds};
use visolingua::raster::{crop_image, Image};

fn demo_image(width: u32, height: u32) -> Image {
    let mut pixels = Vec::new();
    for y in 0..height {
        for x in 0..width {
            pixels.push((x % 256) as u8);
            pixels.push((y % 256) as u8);
            pixels.push(((x + y) % 256) as u8);
            pixels.push(255u8);
        }
    }
    Image { width, height, pixels }
}

#[test]
fn select_display_empty_list_fails() {
    let displays: Vec<DisplayBounds> = Vec::new();
    assert_eq!(select_display(&displays, 0, 0), Err(CaptureError::NoDisplaysFound));
}

#[test]
fn select_display_origin_outside_all_fails() {
    let displays = vec![
        DisplayBounds { x: 0, y: 0, width: 1920, height: 1080 },
        DisplayBounds { x: 1920, y: 0, width: 1280, height: 1024 },
    ];
    assert_eq!(select_display(&displays, -5, 10), Err(CaptureError::NoContainingDisplay));
    assert_eq!(select_display(&displays, 3200, 10), Err(CaptureError::NoContainingDisplay));
    assert_eq!(select_display(&displays, 100, 2000), Err(CaptureError::NoContainingDisplay));
}

#[test]
fn select_display_picks_containing_monitor() {
    let displays = vec![
        DisplayBounds { x: 0, y: 0, width: 1920, height: 1080 },
        DisplayBounds { x: 1920, y: 0, width: 1280, height: 1024 },
    ];
    assert_eq!(select_display(&displays, 0, 0), Ok(0));
    assert_eq!(select_display(&displays, 1919, 1079), Ok(0));
    assert_eq!(select_display(&displays, 1920, 0), Ok(1));
    assert_eq!(select_display(&displays, 3199, 1023), Ok(1));
}

#[test]
fn local_coord_translates_and_floors() {
    assert_eq!(local_coord(100, 40), 60);
    assert_eq!(local_coord(40, 100), 0);
    assert_eq!(local_coord(-10, -30), 20);
    assert_eq!(local_coord(i32::MAX, i32::MIN), u32::MAX);
}

#[test]
fn crop_inside_keeps_requested_dimensions() {
    let img = demo_image(8, 6);
    let c = crop_image(&img, 2, 1, 3, 4);
    assert_eq!(c.width, 3);
    assert_eq!(c.height, 4);
}

#[test]
fn crop_past_edges_clamps_to_source() {
    let img = demo_image(8, 6);
    let c = crop_image(&img, 5, 4, 10, 10);
    assert_eq!(c.width, 3);
    assert_eq!(c.height, 2);
    let c2 = crop_image(&img, 20, 20, 4, 4);
    assert_eq!(c2.width, 1);
    assert_eq!(c2.height, 1);
}

#[test]
fn crop_copies_pixels_at_matching_offsets() {
    let img = demo_image(8, 6);
    let (cx, cy, cw, ch) = (2u32, 1u32, 3u32, 4u32);
    let c = crop_image(&img, cx, cy, cw, ch);
    for dy in 0..ch {
        for dx in 0..cw {
            for k in 0..4u32 {
                let got = c.pixels[(4 * (dy * cw + dx) + k) as usize];
                let want = img.pixels[(4 * ((cy + dy) * img.width + cx + dx) + k) as usize];
                assert_eq!(got, want);
            }
        }
    }
}

#[test]
fn encode_area_round_trips_losslessly() {
    let img = demo_image(10, 7);
    let d = DisplayBounds { x: 100, y: 50, width: 10, height: 7 };
    // rectangle at global (103, 52), size 4x3 -> local (3, 2)
    let s = encode_area(&img, &d, 103, 52, 4, 3).unwrap();
    let png = base64::engine::general_purpose::STANDARD.decode(&s).unwrap();
    let decoded = image::load_from_memory(&png).unwrap().to_rgba8();
    assert_eq!(decoded.width(), 4);
    assert_eq!(decoded.height(), 3);
    for dy in 0..3u32 {
        for dx in 0..4u32 {
            let got = decoded.get_pixel(dx, dy).0;
            let base = (4 * ((2 + dy) * img.width + 3 + dx)) as usize;
            let want = [
                img.pixels[base],
                img.pixels[base + 1],
                img.pixels[base + 2],
                img.pixels[base + 3],
            ];
            assert_eq!(got, want);
        }
    }
}

#[test]
fn encode_area_matches_independent_encoding() {
    let img = demo_image(5, 5);
    let d = DisplayBounds { x: 0, y: 0, width: 5, height: 5 };
    let s = encode_area(&img, &d, 0, 0, 5, 5).unwrap();
    let buf: image::RgbaImage =
        image::ImageBuffer::from_raw(5, 5, img.pixels.clone()).unwrap();
    let mut png = Vec::new();
    buf.write_to(&mut std::io::Cursor::new(&mut png), image::ImageFormat::Png).unwrap();
    let expected = base64::engine::general_purpose::STANDARD.encode(&png);
    assert_eq!(s, expected);
}

#[test]
fn encode_zero_sized_crop_fails_with_encode_error() {
    let img = demo_image(4, 4);
    let d = DisplayBounds { x: 0, y: 0, width: 4, height: 4 };
    let r = encode_area(&img, &d, 0, 0, 0, 3);
    assert_eq!(r, Err(CaptureError::EncodeFailed));
}
