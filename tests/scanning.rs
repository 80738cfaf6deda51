use qrcode::{Color, QrCode};
use qrscan::{
    clipboard_text, collect_payloads, handle_capture, is_decodable, joined_text, menu_action,
    plan_dispatch, region_capture_area, tray_menu, CaptureArea, MenuAction, MenuCommand,
    Provenance, RgbaRaster, CLOSE_DELAY_MS, OVERLAY_LABEL_LEN, REGION_HEIGHT_PADDING,
};

const WHITE: [u8; 4] = [255, 255, 255, 255];
const BLACK: [u8; 4] = [0, 0, 0, 255];

/// Draws QR codes side by side on a white canvas, `scale` pixels per module,
/// with a four-module quiet zone round each.
fn draw_codes(texts: &[&str], scale: usize) -> RgbaRaster {
    let codes: Vec<QrCode> = texts.iter().map(|t| QrCode::new(t.as_bytes()).unwrap()).collect();
    let quiet = 4;
    let cell = codes.iter().map(|c| c.width()).max().unwrap() + 2 * quiet;
    let width = cell * scale * codes.len();
    let height = cell * scale;
    let mut pixels = Vec::with_capacity(width * height * 4);
    for py in 0..height {
        for px in 0..width {
            let code = &codes[px / (cell * scale)];
            let mx = (px % (cell * scale)) / scale;
            let my = py / scale;
            let dark = mx >= quiet
                && my >= quiet
                && mx < quiet + code.width()
                && my < quiet + code.width()
                && code[(mx - quiet, my - quiet)] == Color::Dark;
            pixels.extend_from_slice(if dark { &BLACK } else { &WHITE });
        }
    }
    RgbaRaster::new(width as u32, height as u32, pixels).unwrap()
}

/// Runs the QR decoder on an image of a size it handles; none otherwise.
fn decode(img: &RgbaRaster) -> Vec<Option<String>> {
    if !is_decodable(img) {
        return Vec::new();
    }
    let buffer = image::RgbaImage::from_raw(img.width(), img.height(), img.pixels().clone())
        .unwrap();
    bardecoder::default_decoder().decode(&buffer).into_iter().map(|r| r.ok()).collect()
}

fn find_qrcode(img: &RgbaRaster) -> Vec<String> {
    collect_payloads(decode(img))
}

fn strings(items: &[&str]) -> Vec<String> {
    items.iter().map(|s| s.to_string()).collect()
}

#[test]
fn screenshot_with_qr_abc_decodes_and_fills_clipboard() {
    let img = draw_codes(&["ABC"], 6);
    assert_eq!(find_qrcode(&img), strings(&["ABC"]));
    let d = handle_capture(Provenance::FullScreen, Some(decode(&img))).unwrap();
    assert_eq!(d.decoded, strings(&["ABC"]));
    assert_eq!(d.clipboard, Some("ABC".to_string()));
    assert_eq!(d.close_after_ms, None);
}

#[test]
fn blank_white_image_decodes_to_nothing() {
    let img = RgbaRaster::filled(320, 240, WHITE).unwrap();
    assert!(find_qrcode(&img).is_empty());
    let d = handle_capture(Provenance::FullScreen, Some(decode(&img))).unwrap();
    assert!(d.decoded.is_empty());
    assert_eq!(d.clipboard, None);
    assert_eq!(d.close_after_ms, None);
}

#[test]
fn blank_region_scan_writes_nothing_and_keeps_window() {
    let img = RgbaRaster::filled(64, 48, WHITE).unwrap();
    let d = handle_capture(Provenance::Region, Some(decode(&img))).unwrap();
    assert!(d.decoded.is_empty());
    assert_eq!(d.clipboard, None);
    assert_eq!(d.close_after_ms, None);
}

#[test]
fn empty_image_decodes_to_nothing() {
    let img = RgbaRaster::new(0, 0, Vec::new()).unwrap();
    assert!(find_qrcode(&img).is_empty());
    let d = handle_capture(Provenance::Region, Some(decode(&img))).unwrap();
    assert_eq!(d.clipboard, None);
}

#[test]
fn images_below_one_decoder_block_decode_to_nothing() {
    for (w, h) in [(0, 0), (4, 4), (4, 100), (100, 4), (1, 1)] {
        let img = RgbaRaster::filled(w, h, BLACK).unwrap();
        assert!(!is_decodable(&img));
        assert!(find_qrcode(&img).is_empty());
    }
    let img = RgbaRaster::filled(5, 5, WHITE).unwrap();
    assert!(is_decodable(&img));
    assert!(find_qrcode(&img).is_empty());
}

#[test]
fn clipboard_without_image_decodes_nothing() {
    assert!(handle_capture(Provenance::Clipboard, None).is_none());
    assert!(handle_capture(Provenance::Region, None).is_none());
}

#[test]
fn region_scan_with_code_closes_window_after_delay() {
    let img = draw_codes(&["hello region"], 5);
    let d = handle_capture(Provenance::Region, Some(decode(&img))).unwrap();
    assert_eq!(d.decoded, strings(&["hello region"]));
    assert_eq!(d.clipboard, Some("hello region".to_string()));
    assert_eq!(d.close_after_ms, Some(200));
    assert_eq!(CLOSE_DELAY_MS, 200);
}

#[test]
fn two_codes_join_in_decoder_order() {
    let img = draw_codes(&["first", "second"], 6);
    let decoded = find_qrcode(&img);
    let mut sorted = decoded.clone();
    sorted.sort();
    assert_eq!(sorted, strings(&["first", "second"]));
    let d = handle_capture(Provenance::Clipboard, Some(decode(&img))).unwrap();
    assert_eq!(d.decoded, decoded);
    assert_eq!(d.clipboard, Some(decoded.concat()));
}

#[test]
fn region_capture_pads_height() {
    assert_eq!(REGION_HEIGHT_PADDING, 48);
    assert_eq!(
        region_capture_area(10, -20, 300, 0),
        Some(CaptureArea { x: 10, y: -20, width: 300, height: 48 })
    );
    assert_eq!(
        region_capture_area(0, 0, 5, 100),
        Some(CaptureArea { x: 0, y: 0, width: 5, height: 148 })
    );
    assert_eq!(
        region_capture_area(1, 2, 3, u32::MAX - 48),
        Some(CaptureArea { x: 1, y: 2, width: 3, height: u32::MAX })
    );
    assert_eq!(region_capture_area(1, 2, 3, u32::MAX - 47), None);
}

#[test]
fn joined_text_has_no_separator() {
    assert_eq!(joined_text(&strings(&["a", "bc", "d"])), "abcd");
    assert_eq!(joined_text(&Vec::new()), "");
    assert_eq!(clipboard_text(&strings(&["x", "y"])), Some("xy".to_string()));
    assert_eq!(clipboard_text(&Vec::new()), None);
    assert_eq!(clipboard_text(&strings(&[""])), Some(String::new()));
}

#[test]
fn plan_closes_only_successful_region_scans() {
    let d = plan_dispatch(Provenance::Region, strings(&["p", "q"]));
    assert_eq!(d.clipboard, Some("pq".to_string()));
    assert_eq!(d.close_after_ms, Some(200));
    let d = plan_dispatch(Provenance::Region, Vec::new());
    assert_eq!(d.clipboard, None);
    assert_eq!(d.close_after_ms, None);
    let d = plan_dispatch(Provenance::FullScreen, strings(&["p"]));
    assert_eq!(d.clipboard, Some("p".to_string()));
    assert_eq!(d.close_after_ms, None);
    let d = plan_dispatch(Provenance::Clipboard, strings(&["p"]));
    assert_eq!(d.close_after_ms, None);
}

#[test]
fn unreadable_codes_are_dropped_in_order() {
    let results = vec![Some("a".to_string()), None, Some("b".to_string()), None];
    assert_eq!(collect_payloads(results.clone()), strings(&["a", "b"]));
    let d = handle_capture(Provenance::Region, Some(results)).unwrap();
    assert_eq!(d.decoded, strings(&["a", "b"]));
    assert_eq!(d.clipboard, Some("ab".to_string()));
    assert_eq!(d.close_after_ms, Some(200));
    let d = handle_capture(Provenance::FullScreen, Some(vec![None])).unwrap();
    assert!(d.decoded.is_empty());
    assert_eq!(d.clipboard, None);
    assert!(collect_payloads(vec![None, None]).is_empty());
    assert!(collect_payloads(Vec::new()).is_empty());
}

#[test]
fn raster_requires_four_bytes_per_pixel() {
    assert!(RgbaRaster::new(2, 2, vec![0; 15]).is_none());
    assert!(RgbaRaster::new(2, 2, vec![0; 17]).is_none());
    let img = RgbaRaster::new(2, 2, vec![7; 16]).unwrap();
    assert_eq!(img.width(), 2);
    assert_eq!(img.height(), 2);
    assert_eq!(img.pixels().len(), 16);
    let filled = RgbaRaster::filled(3, 1, [1, 2, 3, 4]).unwrap();
    assert_eq!(filled.pixels(), &vec![1, 2, 3, 4, 1, 2, 3, 4, 1, 2, 3, 4]);
    assert!(RgbaRaster::new(u32::MAX, u32::MAX, Vec::new()).is_none());
}

#[test]
fn menu_ids_round_trip() {
    let menu = tray_menu();
    assert_eq!(menu, vec![MenuCommand::Scan, MenuCommand::Crop, MenuCommand::Clipboard]);
    for c in menu {
        assert_eq!(MenuCommand::from_id(c.id()), Some(c));
    }
    assert_eq!(MenuCommand::Scan.id(), "scan");
    assert_eq!(MenuCommand::Crop.id(), "crop");
    assert_eq!(MenuCommand::Clipboard.id(), "clipboard");
    assert_eq!(MenuCommand::Clipboard.title(), "Load From Clipboard");
    assert_eq!(MenuCommand::Scan.title(), "Scan");
    assert_eq!(MenuCommand::from_id("quit"), None);
    assert_eq!(MenuCommand::from_id(""), None);
    assert_eq!(MenuCommand::from_id("Scan"), None);
}

#[test]
fn menu_actions_follow_the_entry() {
    assert!(matches!(menu_action(MenuCommand::Scan), MenuAction::CaptureScreen));
    assert!(matches!(menu_action(MenuCommand::Clipboard), MenuAction::ReadClipboard));
    match menu_action(MenuCommand::Crop) {
        MenuAction::OpenOverlay { label } => {
            assert_eq!(label.len(), OVERLAY_LABEL_LEN);
            assert_eq!(OVERLAY_LABEL_LEN, 16);
            assert!(label.chars().all(|c| c.is_ascii_alphanumeric()));
        }
        other => panic!("unexpected action {other:?}"),
    }
}
