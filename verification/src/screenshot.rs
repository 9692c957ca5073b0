//! Browser screenshots: where the webview sits on screen, which display
//! holds it, which part of that display's capture it covers, and the
//! base64 PNG of that part.

use vstd::prelude::*;
use crate::codec::{base64_standard_encode, encode_base64_standard, encode_png_rgba8, png_rgba8};
use crate::error::{system_fault_is, user_fixable_is, CommandError, CommandResult};
use crate::text::cat2;

verus! {

/// `v` clamped to the range of `i32`: what `i32::saturating_add` gives.
pub open spec fn clamp_i32(v: int) -> int {
    if v > i32::MAX {
        i32::MAX as int
    } else if v < i32::MIN {
        i32::MIN as int
    } else {
        v
    }
}

/// `i32::saturating_add`.
pub fn saturating_add_i32(a: i32, b: i32) -> (r: i32)
    ensures
        r == clamp_i32(a + b),
{
    let s: i64 = a as i64 + b as i64;
    if s > 2147483647 {
        2147483647
    } else if s < -2147483648 {
        -2147483648
    } else {
        s as i32
    }
}

/// A display's geometry as it was read: each field's value, or the text
/// of the error that reading it gave.
#[derive(Debug)]
pub struct MonitorReadings {
    pub x: Result<i64, String>,
    pub y: Result<i64, String>,
    pub width: Result<i64, String>,
    pub height: Result<i64, String>,
}

#[derive(Debug, Clone, Copy, PartialEq, Eq, Structural)]
pub enum MonitorField {
    X,
    Y,
    Width,
    Height,
}

pub open spec fn field_reading(m: MonitorReadings, field: MonitorField) -> Result<i64, String> {
    match field {
        MonitorField::X => m.x,
        MonitorField::Y => m.y,
        MonitorField::Width => m.width,
        MonitorField::Height => m.height,
    }
}

/// A reading that holds an `i32`.
pub open spec fn field_value(read: Result<i64, String>) -> Option<i32> {
    match read {
        Ok(v) => if i32::MIN <= v <= i32::MAX {
            Some(v as i32)
        } else {
            None
        },
        Err(_) => None,
    }
}

/// The error that a geometry field gives where it holds no `i32`.
pub open spec fn field_error_is(e: CommandError, read: Result<i64, String>) -> bool {
    match read {
        Err(m) => system_fault_is(
            e,
            "browser_screenshot_monitor_field_failed"@,
            "Cadence could not read display geometry: "@ + m@,
        ),
        Ok(_) => system_fault_is(
            e,
            "browser_screenshot_monitor_field_overflow"@,
            "Display geometry value did not fit in an i32."@,
        ),
    }
}

/// One field of a display's geometry as an `i32`.
pub fn monitor_geometry_field(monitor: &MonitorReadings, field: MonitorField) -> (r: CommandResult<i32>)
    ensures
        match field_value(field_reading(*monitor, field)) {
            Some(v) => r == Ok::<i32, CommandError>(v),
            None => r matches Err(e) && field_error_is(e, field_reading(*monitor, field)),
        },
{
    let read = match field {
        MonitorField::X => &monitor.x,
        MonitorField::Y => &monitor.y,
        MonitorField::Width => &monitor.width,
        MonitorField::Height => &monitor.height,
    };
    match read {
        Err(m) => Err(
            CommandError::system_fault(
                "browser_screenshot_monitor_field_failed",
                cat2("Cadence could not read display geometry: ", m.as_str()).as_str(),
            ),
        ),
        Ok(v) => {
            if -2147483648 <= *v && *v <= 2147483647 {
                Ok(*v as i32)
            } else {
                Err(
                    CommandError::system_fault(
                        "browser_screenshot_monitor_field_overflow",
                        "Display geometry value did not fit in an i32.",
                    ),
                )
            }
        },
    }
}

/// The display's geometry holds the point; a display whose geometry could
/// not be read holds none.
pub open spec fn holds_point(m: MonitorReadings, x: i32, y: i32) -> bool {
    match (field_value(m.x), field_value(m.y), field_value(m.width), field_value(m.height)) {
        (Some(mx), Some(my), Some(mw), Some(mh)) => {
            &&& x >= mx
            &&& y >= my
            &&& x < clamp_i32(mx + mw)
            &&& y < clamp_i32(my + mh)
        },
        _ => false,
    }
}

/// Whether the display holds the screen point `(x, y)`.
pub fn monitor_contains(monitor: &MonitorReadings, x: i32, y: i32) -> (r: bool)
    ensures
        r == holds_point(*monitor, x, y),
{
    let mx = match monitor_geometry_field(monitor, MonitorField::X) {
        Ok(v) => v,
        Err(_) => return false,
    };
    let my = match monitor_geometry_field(monitor, MonitorField::Y) {
        Ok(v) => v,
        Err(_) => return false,
    };
    let mw = match monitor_geometry_field(monitor, MonitorField::Width) {
        Ok(v) => v,
        Err(_) => return false,
    };
    let mh = match monitor_geometry_field(monitor, MonitorField::Height) {
        Ok(v) => v,
        Err(_) => return false,
    };
    x >= mx && y >= my && x < saturating_add_i32(mx, mw) && y < saturating_add_i32(my, mh)
}

/// The first display that holds the point.
pub open spec fn first_holding(ms: Seq<MonitorReadings>, x: i32, y: i32, i: int) -> bool {
    &&& 0 <= i < ms.len()
    &&& holds_point(ms[i], x, y)
    &&& forall|j: int| 0 <= j < i ==> !holds_point(#[trigger] ms[j], x, y)
}

/// The position of the first display that holds the screen point, or the
/// error that none does.
pub fn pick_monitor(monitors: &[MonitorReadings], x: i32, y: i32) -> (r: CommandResult<usize>)
    ensures
        match r {
            Ok(i) => first_holding(monitors@, x, y, i as int),
            Err(e) => {
                &&& forall|j: int| 0 <= j < monitors@.len() ==> !holds_point(#[trigger] monitors@[j], x, y)
                &&& system_fault_is(
                    e,
                    "browser_screenshot_no_monitor"@,
                    "Cadence could not find a display containing the browser webview."@,
                )
            },
        },
{
    let mut i: usize = 0;
    while i < monitors.len()
        invariant
            i <= monitors.len(),
            forall|j: int| 0 <= j < i ==> !holds_point(#[trigger] monitors@[j], x, y),
        decreases monitors.len() - i,
    {
        if monitor_contains(&monitors[i], x, y) {
            return Ok(i);
        }
        i = i + 1;
    }
    Err(
        CommandError::system_fault(
            "browser_screenshot_no_monitor",
            "Cadence could not find a display containing the browser webview.",
        ),
    )
}

/// Where the webview's top-left corner is on screen: the host window's
/// inner position plus the webview's position in it, each coordinate
/// saturating; or the error that the webview has no area.
pub fn screenshot_origin(
    view_width: u32,
    view_height: u32,
    inner_x: i32,
    inner_y: i32,
    view_x: i32,
    view_y: i32,
) -> (r: CommandResult<(i32, i32)>)
    ensures
        view_width == 0 || view_height == 0 ==> (r matches Err(e) && user_fixable_is(
            e,
            "browser_screenshot_zero_area"@,
            "The browser webview has no visible area to capture."@,
        )),
        view_width != 0 && view_height != 0 ==> r == Ok::<(i32, i32), CommandError>(
            (clamp_i32(inner_x + view_x) as i32, clamp_i32(inner_y + view_y) as i32),
        ),
{
    if view_width == 0 || view_height == 0 {
        return Err(
            CommandError::user_fixable(
                "browser_screenshot_zero_area",
                "The browser webview has no visible area to capture.",
            ),
        );
    }
    Ok((saturating_add_i32(inner_x, view_x), saturating_add_i32(inner_y, view_y)))
}

/// A rectangle of a captured display, in pixels.
#[derive(Debug, Clone, Copy, PartialEq, Eq, Structural)]
pub struct CropRect {
    pub x: u32,
    pub y: u32,
    pub width: u32,
    pub height: u32,
}

/// How far the webview starts into the display along one axis; zero where
/// it starts before it.
pub open spec fn crop_offset(screen: i32, origin: i32) -> int {
    if screen - origin < 0 {
        0
    } else {
        screen - origin
    }
}

/// `n.saturating_sub(m)` on `u32`.
pub open spec fn sub_or_zero(n: int, m: int) -> int {
    if n < m {
        0
    } else {
        n - m
    }
}

pub open spec fn min_int(a: int, b: int) -> int {
    if a < b {
        a
    } else {
        b
    }
}

/// The part of the display's capture that the webview covers: from its
/// offset in the display, at most its size, cut at the capture's edges.
pub open spec fn crop_of(
    screen_x: i32,
    screen_y: i32,
    monitor_x: i32,
    monitor_y: i32,
    view_width: u32,
    view_height: u32,
    captured_width: u32,
    captured_height: u32,
) -> CropRect {
    let lx = crop_offset(screen_x, monitor_x);
    let ly = crop_offset(screen_y, monitor_y);
    CropRect {
        x: lx as u32,
        y: ly as u32,
        width: min_int(view_width as int, sub_or_zero(captured_width as int, lx)) as u32,
        height: min_int(view_height as int, sub_or_zero(captured_height as int, ly)) as u32,
    }
}

/// The rectangle of the capture to keep, or the error that the webview
/// lies outside the captured display.
pub fn crop_rect(
    screen_x: i32,
    screen_y: i32,
    monitor_x: i32,
    monitor_y: i32,
    view_width: u32,
    view_height: u32,
    captured_width: u32,
    captured_height: u32,
) -> (r: CommandResult<CropRect>)
    requires
        i32::MIN <= screen_x - monitor_x <= i32::MAX,
        i32::MIN <= screen_y - monitor_y <= i32::MAX,
    ensures
        ({
            let c = crop_of(
                screen_x,
                screen_y,
                monitor_x,
                monitor_y,
                view_width,
                view_height,
                captured_width,
                captured_height,
            );
            if c.width == 0 || c.height == 0 {
                r matches Err(e) && system_fault_is(
                    e,
                    "browser_screenshot_out_of_bounds"@,
                    "The browser webview is outside the captured display area."@,
                )
            } else {
                r == Ok::<CropRect, CommandError>(c)
            }
        }),
{
    let dx: i32 = screen_x - monitor_x;
    let dy: i32 = screen_y - monitor_y;
    let local_x: u32 = if dx < 0 { 0 } else { dx as u32 };
    let local_y: u32 = if dy < 0 { 0 } else { dy as u32 };
    let room_w: u32 = if captured_width < local_x { 0 } else { captured_width - local_x };
    let room_h: u32 = if captured_height < local_y { 0 } else { captured_height - local_y };
    let crop_w: u32 = if view_width < room_w { view_width } else { room_w };
    let crop_h: u32 = if view_height < room_h { view_height } else { room_h };
    if crop_w == 0 || crop_h == 0 {
        return Err(
            CommandError::system_fault(
                "browser_screenshot_out_of_bounds",
                "The browser webview is outside the captured display area.",
            ),
        );
    }
    Ok(CropRect { x: local_x, y: local_y, width: crop_w, height: crop_h })
}

/// Row `row` of an RGBA image `width` pixels wide, from column `x`, `w`
/// pixels long.
pub open spec fn pixel_row(rgba: Seq<u8>, width: int, x: int, row: int, w: int) -> Seq<u8> {
    rgba.subrange((row * width + x) * 4, (row * width + x + w) * 4)
}

/// The first `k` rows of a crop, one after the other.
pub open spec fn crop_rows(rgba: Seq<u8>, width: int, x: int, y: int, w: int, k: nat) -> Seq<u8>
    decreases k,
{
    if k == 0 {
        seq![]
    } else {
        crop_rows(rgba, width, x, y, w, (k - 1) as nat) + pixel_row(rgba, width, x, y + k - 1, w)
    }
}

/// The RGBA bytes of the rectangle `c` of an image `width` pixels wide.
pub open spec fn cropped(rgba: Seq<u8>, width: u32, c: CropRect) -> Seq<u8> {
    crop_rows(rgba, width as int, c.x as int, c.y as int, c.width as int, c.height as nat)
}

/// The rectangle lies inside a `width` by `height` image.
pub open spec fn rect_inside(c: CropRect, width: u32, height: u32) -> bool {
    c.x + c.width <= width && c.y + c.height <= height
}

proof fn lemma_row_bounds(row: int, width: int, height: int, x: int, w: int)
    requires
        0 <= row < height,
        0 <= x,
        0 <= w,
        x + w <= width,
    ensures
        0 <= (row * width + x) * 4,
        (row * width + x) * 4 <= (row * width + x + w) * 4,
        (row * width + x + w) * 4 <= 4 * width * height,
{
    assert((row + 1) * width <= height * width) by (nonlinear_arith)
        requires
            row + 1 <= height,
            0 <= width,
    ;
    assert(0 <= row * width) by (nonlinear_arith)
        requires
            0 <= row,
            0 <= width,
    ;
    assert((row + 1) * width == row * width + width) by (nonlinear_arith);
    assert(4 * width * height == 4 * (height * width)) by (nonlinear_arith);
}

proof fn lemma_crop_len(rgba: Seq<u8>, width: int, height: int, x: int, y: int, w: int, k: nat)
    requires
        rgba.len() == 4 * width * height,
        0 <= x,
        0 <= y,
        0 <= w,
        x + w <= width,
        y + k <= height,
    ensures
        crop_rows(rgba, width, x, y, w, k).len() == 4 * w * k,
    decreases k,
{
    if k > 0 {
        lemma_crop_len(rgba, width, height, x, y, w, (k - 1) as nat);
        lemma_row_bounds(y + k - 1, width, height, x, w);
        let prev = crop_rows(rgba, width, x, y, w, (k - 1) as nat);
        let row = pixel_row(rgba, width, x, y + k - 1, w);
        assert(crop_rows(rgba, width, x, y, w, k) == prev + row);
        assert(row.len() == 4 * w);
        assert(4 * w * (k - 1) + 4 * w == 4 * w * k) by (nonlinear_arith);
    } else {
        assert(4 * w * k == 0) by (nonlinear_arith)
            requires
                k == 0,
        ;
    }
}

/// The RGBA bytes of rectangle `c` of an RGBA image, row after row: what
/// `image::imageops::crop_imm(..).to_image()` holds for a rectangle inside
/// the image.
pub fn crop_rgba(rgba: &[u8], width: u32, height: u32, c: CropRect) -> (r: Vec<u8>)
    requires
        rgba@.len() == 4 * width * height,
        rect_inside(c, width, height),
    ensures
        r@ == cropped(rgba@, width, c),
        r@.len() == 4 * c.width * c.height,
{
    let ghost w = width as int;
    let mut out: Vec<u8> = Vec::new();
    let mut k: u32 = 0;
    while k < c.height
        invariant
            w == width as int,
            rgba@.len() == 4 * width * height,
            rect_inside(c, width, height),
            k <= c.height,
            out@ == crop_rows(rgba@, w, c.x as int, c.y as int, c.width as int, k as nat),
        decreases c.height - k,
    {
        let row: u32 = c.y + k;
        proof {
            lemma_row_bounds(row as int, w, height as int, c.x as int, c.width as int);
            assert(rgba@.len() == rgba.len());
        }
        let start: usize = ((row as usize) * (width as usize) + (c.x as usize)) * 4;
        let end: usize = ((row as usize) * (width as usize) + (c.x as usize) + (c.width as usize)) * 4;
        let ghost before = out@;
        let mut b: usize = start;
        while b < end
            invariant
                start <= b <= end <= rgba@.len(),
                out@ == before + rgba@.subrange(start as int, b as int),
            decreases end - b,
        {
            out.push(rgba[b]);
            assert(out@ =~= before + rgba@.subrange(start as int, b + 1));
            b = b + 1;
        }
        k = k + 1;
        assert(out@ =~= crop_rows(rgba@, w, c.x as int, c.y as int, c.width as int, k as nat));
    }
    proof {
        lemma_crop_len(rgba@, w, height as int, c.x as int, c.y as int, c.width as int, c.height as nat);
    }
    out
}

/// A display that holds a point reads both origin fields, and the point
/// lies at an offset from that origin that is not negative and fits in an
/// `i32`: the display that `pick_monitor` finds can be cropped from.
pub proof fn lemma_held_point_offsets(m: MonitorReadings, x: i32, y: i32)
    requires
        holds_point(m, x, y),
    ensures
        field_value(m.x) matches Some(mx) && 0 <= x - mx <= i32::MAX,
        field_value(m.y) matches Some(my) && 0 <= y - my <= i32::MAX,
{
}

/// The base64 text of the PNG of rectangle `c` of a captured display, or
/// the encoder's error.
pub open spec fn screenshot_result_is(
    r: CommandResult<String>,
    rgba: Seq<u8>,
    width: u32,
    c: CropRect,
) -> bool {
    match png_rgba8(cropped(rgba, width, c), c.width, c.height) {
        Ok(png) => r matches Ok(s) && s@ == base64_standard_encode(png),
        Err(m) => r matches Err(e) && system_fault_is(
            e,
            "browser_screenshot_encode_failed"@,
            "Cadence could not encode the screenshot as PNG: "@ + m,
        ),
    }
}

/// The screenshot of the webview from a display's capture: the display's
/// origin is read, the webview's rectangle cut out of the capture, encoded
/// as PNG and then as base64.
pub fn capture_webview_png(
    monitor: &MonitorReadings,
    screen_x: i32,
    screen_y: i32,
    view_width: u32,
    view_height: u32,
    captured: &[u8],
    captured_width: u32,
    captured_height: u32,
) -> (r: CommandResult<String>)
    requires
        captured@.len() == 4 * captured_width * captured_height,
        field_value(monitor.x) matches Some(mx) ==> i32::MIN <= screen_x - mx <= i32::MAX,
        field_value(monitor.y) matches Some(my) ==> i32::MIN <= screen_y - my <= i32::MAX,
    ensures
        match (field_value(monitor.x), field_value(monitor.y)) {
            (None, _) => r matches Err(e) && field_error_is(e, monitor.x),
            (Some(_), None) => r matches Err(e) && field_error_is(e, monitor.y),
            (Some(mx), Some(my)) => {
                let c = crop_of(
                    screen_x,
                    screen_y,
                    mx,
                    my,
                    view_width,
                    view_height,
                    captured_width,
                    captured_height,
                );
                if c.width == 0 || c.height == 0 {
                    r matches Err(e) && system_fault_is(
                        e,
                        "browser_screenshot_out_of_bounds"@,
                        "The browser webview is outside the captured display area."@,
                    )
                } else {
                    screenshot_result_is(r, captured@, captured_width, c)
                }
            },
        },
{
    let monitor_x = match monitor_geometry_field(monitor, MonitorField::X) {
        Ok(v) => v,
        Err(e) => return Err(e),
    };
    let monitor_y = match monitor_geometry_field(monitor, MonitorField::Y) {
        Ok(v) => v,
        Err(e) => return Err(e),
    };
    let c = match crop_rect(
        screen_x,
        screen_y,
        monitor_x,
        monitor_y,
        view_width,
        view_height,
        captured_width,
        captured_height,
    ) {
        Ok(c) => c,
        Err(e) => return Err(e),
    };
    let pixels = crop_rgba(captured, captured_width, captured_height, c);
    match encode_png_rgba8(pixels.as_slice(), c.width, c.height) {
        Ok(png) => Ok(encode_base64_standard(png.as_slice())),
        Err(m) => Err(
            CommandError::system_fault(
                "browser_screenshot_encode_failed",
                cat2("Cadence could not encode the screenshot as PNG: ", m.as_str()).as_str(),
            ),
        ),
    }
}

} // verus!
