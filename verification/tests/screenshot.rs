use base64::Engine;
use xero_core::screenshot::{
    capture_webview_png, crop_rect, crop_rgba, monitor_contains, monitor_geometry_field, pick_monitor,
    saturating_add_i32, screenshot_origin, CropRect, MonitorField, MonitorReadings,
};

fn monitor(x: i64, y: i64, width: i64, height: i64) -> MonitorReadings {
    MonitorReadings { x: Ok(x), y: Ok(y), width: Ok(width), height: Ok(height) }
}

#[test]
fn saturating_add_clamps_at_the_i32_range() {
    assert_eq!(saturating_add_i32(2, 3), 5);
    assert_eq!(saturating_add_i32(i32::MAX, 1), i32::MAX);
    assert_eq!(saturating_add_i32(i32::MIN, -1), i32::MIN);
}

#[test]
fn geometry_fields_report_read_failures_and_overflow() {
    let m = MonitorReadings { x: Err("gone".into()), y: Ok(1i64 << 40), width: Ok(800), height: Ok(600) };
    let e = monitor_geometry_field(&m, MonitorField::X).unwrap_err();
    assert_eq!(e.code, "browser_screenshot_monitor_field_failed");
    assert_eq!(e.message, "Cadence could not read display geometry: gone");
    let e = monitor_geometry_field(&m, MonitorField::Y).unwrap_err();
    assert_eq!(e.code, "browser_screenshot_monitor_field_overflow");
    assert_eq!(e.message, "Display geometry value did not fit in an i32.");
    assert_eq!(monitor_geometry_field(&m, MonitorField::Width).unwrap(), 800);
    assert!(!monitor_contains(&m, 10, 10));
}

#[test]
fn the_first_display_holding_the_point_is_picked() {
    let left = monitor(0, 0, 1920, 1080);
    let right = monitor(1920, 0, 1280, 1024);
    assert!(monitor_contains(&left, 0, 0));
    assert!(!monitor_contains(&left, 1920, 10));
    assert!(monitor_contains(&right, 1920, 10));
    assert_eq!(pick_monitor(&[left, right], 2000, 500).unwrap(), 1);
    let e = pick_monitor(&[monitor(0, 0, 10, 10)], 50, 50).unwrap_err();
    assert_eq!(e.code, "browser_screenshot_no_monitor");
    assert_eq!(e.message, "Cadence could not find a display containing the browser webview.");
}

#[test]
fn origin_needs_a_visible_webview() {
    let e = screenshot_origin(0, 10, 0, 0, 0, 0).unwrap_err();
    assert_eq!(e.code, "browser_screenshot_zero_area");
    assert_eq!(e.message, "The browser webview has no visible area to capture.");
    assert_eq!(screenshot_origin(10, 10, 100, 50, 20, 30).unwrap(), (120, 80));
    assert_eq!(screenshot_origin(10, 10, i32::MAX, 0, 5, 0).unwrap(), (i32::MAX, 0));
}

#[test]
fn crop_is_cut_at_the_capture_edges() {
    let c = crop_rect(150, 40, 100, 0, 80, 30, 100, 50).unwrap();
    assert_eq!(c, CropRect { x: 50, y: 40, width: 50, height: 10 });
    let c = crop_rect(90, 0, 100, 0, 20, 20, 100, 50).unwrap();
    assert_eq!(c, CropRect { x: 0, y: 0, width: 20, height: 20 });
    let e = crop_rect(300, 0, 100, 0, 20, 20, 100, 50).unwrap_err();
    assert_eq!(e.code, "browser_screenshot_out_of_bounds");
    assert_eq!(e.message, "The browser webview is outside the captured display area.");
}

#[test]
fn crop_keeps_the_rectangle_row_by_row() {
    // A 3x2 image whose pixel (x, y) is [x, y, 7, 255].
    let mut rgba = Vec::new();
    for y in 0..2u8 {
        for x in 0..3u8 {
            rgba.extend_from_slice(&[x, y, 7, 255]);
        }
    }
    let out = crop_rgba(&rgba, 3, 2, CropRect { x: 1, y: 0, width: 2, height: 2 });
    assert_eq!(out, vec![1, 0, 7, 255, 2, 0, 7, 255, 1, 1, 7, 255, 2, 1, 7, 255]);
}

#[test]
fn captured_webview_round_trips_through_png_and_base64() {
    let mut rgba = Vec::new();
    for y in 0..4u8 {
        for x in 0..4u8 {
            rgba.extend_from_slice(&[x * 10, y * 10, 99, 255]);
        }
    }
    let m = monitor(100, 200, 4, 4);
    let text = capture_webview_png(&m, 101, 201, 2, 8, &rgba, 4, 4).unwrap();
    let png = base64::engine::general_purpose::STANDARD.decode(text).unwrap();
    assert_eq!(&png[1..4], b"PNG");
    let decoded = image::load_from_memory(&png).unwrap().to_rgba8();
    assert_eq!(decoded.dimensions(), (2, 3));
    assert_eq!(decoded.get_pixel(0, 0).0, [10, 10, 99, 255]);
    assert_eq!(decoded.get_pixel(1, 2).0, [20, 30, 99, 255]);

    let bad = MonitorReadings { x: Ok(0), y: Err("no y".into()), width: Ok(4), height: Ok(4) };
    let e = capture_webview_png(&bad, 0, 0, 2, 2, &rgba, 4, 4).unwrap_err();
    assert_eq!(e.code, "browser_screenshot_monitor_field_failed");
}
