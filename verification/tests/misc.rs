use base64::Engine;
use vibe_extract_core::asar::{asar_header_from_bytes, asar_header_len, parse_asar_header, trim_trailing_nuls};
use vibe_extract_core::image_diff::{
    decode_pair, diff_on_canvas, heatmap_png_b64, pixel_pass, resize_if_needed, DiffOptions, Metric, RgbaPixels,
};
use vibe_extract_core::overlay::{overlay_collection_behavior, SCREEN_SAVER_LEVEL};
use vibe_extract_core::tap::{left_mouse_down_mask, tap_decision, TapAction};
use vibe_extract_core::xaml::{find_xaml_files, FsEntry};

#[test]
fn asar_header_length_is_little_endian() {
    let mut prefix = [0u8; 16];
    prefix[12] = 0x34;
    prefix[13] = 0x12;
    prefix[14] = 0x01;
    assert_eq!(asar_header_len(&prefix), 0x011234);
    prefix[15] = 0x80;
    assert_eq!(asar_header_len(&prefix), 0x8001_1234);
}

#[test]
fn asar_header_trims_padding_and_parses() {
    assert_eq!(trim_trailing_nuls(vec![1, 0, 2, 0, 0]), vec![1, 0, 2]);
    assert_eq!(trim_trailing_nuls(vec![0, 0]), Vec::<u8>::new());
    let v = parse_asar_header(b"{\"files\":{\"a.js\":{\"size\":3}}}\0\0\0".to_vec()).unwrap();
    assert_eq!(v["files"]["a.js"]["size"], 3);
    assert!(parse_asar_header(b"{\"files\":".to_vec()).is_err());
}

fn file(p: &str) -> FsEntry {
    FsEntry { path: p.to_string(), is_dir: false, children: vec![] }
}

#[test]
fn xaml_files_are_found_depth_first() {
    let tree = vec![
        file("out/App.xaml"),
        FsEntry {
            path: "out/Views".to_string(),
            is_dir: true,
            children: vec![file("out/Views/Main.xaml"), file("out/Views/Main.xaml.cs"), file("out/Views/.xaml")],
        },
        file("out/readme.txt"),
        file("out/Theme.xaml"),
    ];
    assert_eq!(
        find_xaml_files(&tree),
        vec!["out/App.xaml".to_string(), "out/Views/Main.xaml".to_string(), "out/Theme.xaml".to_string()]
    );
    assert!(find_xaml_files(&vec![]).is_empty());
}

#[test]
fn tap_consumes_left_clicks_only_while_listening() {
    assert_eq!(tap_decision(1, 0x20000, true), TapAction::Consume { shift: true });
    assert_eq!(tap_decision(1, 0x100, true), TapAction::Consume { shift: false });
    assert_eq!(tap_decision(1, 0x20000, false), TapAction::PassThrough);
    assert_eq!(tap_decision(2, 0, true), TapAction::PassThrough);
    assert_eq!(left_mouse_down_mask(), 2);
}

#[test]
fn overlay_behaviour_adds_bits() {
    assert_eq!(overlay_collection_behavior(0), 265);
    assert_eq!(overlay_collection_behavior(2), 267);
    assert_eq!(overlay_collection_behavior(265), 265);
    assert_eq!(SCREEN_SAVER_LEVEL, 1000);
}

#[test]
fn diff_defaults() {
    let o = DiffOptions::default();
    assert_eq!(o.metric, Metric::Ssim);
    assert_eq!(o.per_pixel_threshold, 16);
    assert_eq!(o.max_edge, 1024);
    assert_eq!(Metric::default(), Metric::Ssim);
    assert_eq!(Metric::Mae.name(), "mae");
    assert_eq!(Metric::Ssim.name(), "ssim");
}

#[test]
fn pixel_pass_measures_differences() {
    let a = vec![200u8, 200, 200, 255, 10, 20, 30, 255];
    let b = vec![200u8, 200, 200, 0, 30, 20, 0, 255];
    let p = pixel_pass(&a, &b, 16);
    assert_eq!(p.sum_abs, 50);
    assert_eq!(p.mismatched, 1);
    assert_eq!(p.heatmap, vec![0, 0, 0, 255, 30, 0, 0, 255]);
    let p = pixel_pass(&a, &b, 30);
    assert_eq!(p.mismatched, 0);
}

fn png(w: u32, h: u32, px: &[u8]) -> Vec<u8> {
    let img = image::RgbaImage::from_raw(w, h, px.to_vec()).unwrap();
    let mut out = Vec::new();
    image::DynamicImage::ImageRgba8(img)
        .write_to(&mut std::io::Cursor::new(&mut out), image::ImageFormat::Png)
        .unwrap();
    out
}

#[test]
fn decoding_resizing_and_heatmap() {
    let bytes = png(2, 1, &[1, 2, 3, 255, 4, 5, 6, 255]);
    assert_eq!(decode_pair(b"nope", &bytes).unwrap_err(), "decoding first image");
    assert_eq!(decode_pair(&bytes, b"nope").unwrap_err(), "decoding second image");
    let (x, y) = decode_pair(&bytes, &bytes).unwrap();
    assert_eq!((x.width, x.height), (2, 1));
    assert_eq!(x.data, vec![1, 2, 3, 255, 4, 5, 6, 255]);
    assert_eq!(y.data, x.data);
    let same = resize_if_needed(&x, 2, 1);
    assert_eq!(same.data, x.data);
    let big = resize_if_needed(&RgbaPixels { width: 1, height: 1, data: vec![9, 9, 9, 255] }, 2, 2);
    assert_eq!((big.width, big.height), (2, 2));
    assert_eq!(big.data, vec![9, 9, 9, 255, 9, 9, 9, 255, 9, 9, 9, 255, 9, 9, 9, 255]);
    let b64 = heatmap_png_b64(1, 1, vec![7, 0, 0, 255]).unwrap();
    assert_eq!(b64, base64_of(&png(1, 1, &[7, 0, 0, 255])));
}

fn base64_of(bytes: &[u8]) -> String {
    base64::engine::general_purpose::STANDARD.encode(bytes)
}

#[test]
fn half_inverted_has_half_mismatch() {
    let (w, h) = (64usize, 64usize);
    let mut base = Vec::new();
    let mut modified = Vec::new();
    for _y in 0..h {
        for x in 0..w {
            base.extend_from_slice(&[200, 200, 200, 255]);
            if x >= w / 2 {
                modified.extend_from_slice(&[10, 10, 10, 255]);
            } else {
                modified.extend_from_slice(&[200, 200, 200, 255]);
            }
        }
    }
    let p = pixel_pass(&base, &modified, DiffOptions::default().per_pixel_threshold);
    assert_eq!(p.mismatched, (w * h / 2) as u64);
    assert_eq!(p.sum_abs, (w * h / 2) as u64 * 570);
}

#[test]
fn identical_images_have_black_heatmap() {
    let img: Vec<u8> = (0..64u32).flat_map(|i| vec![(i * 3) as u8, (255 - i) as u8, i as u8, 255]).collect();
    let p = pixel_pass(&img, &img, 16);
    assert_eq!(p.sum_abs, 0);
    assert_eq!(p.mismatched, 0);
    assert!(p.heatmap.chunks(4).all(|px| px == [0, 0, 0, 255]));
}

#[test]
fn asar_header_from_leading_bytes() {
    let mut b = vec![4u8, 0, 0, 0, 12, 0, 0, 0, 8, 0, 0, 0, 4, 0, 0, 0];
    b.extend_from_slice(b"{}\0\0");
    let v = asar_header_from_bytes(&b).unwrap();
    assert_eq!(v, serde_json::Value::Object(serde_json::Map::new()));
    assert_eq!(asar_header_from_bytes(&b[..10]).unwrap_err(), "failed to fill whole buffer");
    assert_eq!(asar_header_from_bytes(&b[..18]).unwrap_err(), "failed to fill whole buffer");
    let mut c = b[..16].to_vec();
    c.extend_from_slice(b"{x\0\0");
    assert!(asar_header_from_bytes(&c).is_err());
}

#[test]
fn canvas_pass_resizes_then_compares() {
    let a = RgbaPixels { width: 1, height: 1, data: vec![100, 100, 100, 255] };
    let b = RgbaPixels { width: 2, height: 2, data: vec![100, 100, 100, 255].repeat(4) };
    let (x, y, p) = diff_on_canvas(&a, &b, 2, 2, 16).unwrap();
    assert_eq!((x.width, x.height, y.data.len()), (2, 2, 16));
    assert_eq!(p.sum_abs, 0);
    assert_eq!(p.mismatched, 0);
    assert_eq!(p.heatmap, vec![0, 0, 0, 255].repeat(4));
    assert_eq!(diff_on_canvas(&a, &b, u32::MAX, u32::MAX, 16).unwrap_err(), "images too large to compare");
}
