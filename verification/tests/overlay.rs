use mintshot::overlay::layout::{
    coord_label, corner_handles, crosshair_guides, edge_guides, help_bar_layout,
    help_instructions, info_panel_box, info_panel_lines, selection_crosshair, selection_outline,
    text_width, tooltip_box, HelpItem, Rect, Segment,
};
use mintshot::overlay::pixels::{extract_region, mask_shift, RawImage};
use mintshot::overlay::{
    finish_overlay, redraw_plan, retry_grab, CursorPos, DragState, OverlayAction, OverlayError,
    OverlayEvent, OverlayKeys, OverlaySession,
};
use mintshot::selection::SelectionRect;

fn keys() -> OverlayKeys {
    OverlayKeys { escape: 9, q: 24, enter: 36 }
}

fn sel(x: u32, y: u32, w: u32, h: u32) -> SelectionRect {
    SelectionRect { x, y, width: w, height: h }
}

#[test]
fn drag_state_tracks_start_and_end() {
    let mut d = DragState::new();
    assert!(!d.active);
    d.begin(30, 40);
    assert!(d.active);
    let s = d.to_selection(10, 100);
    assert_eq!((s.x, s.y, s.width, s.height), (10, 40, 20, 60));
    d.reset();
    assert!(!d.active);
    assert_eq!((d.start_x, d.start_y), (30, 40));
}

#[test]
fn drag_and_release_confirms_the_selection() {
    let mut s = OverlaySession::new(keys());
    assert!(matches!(
        s.handle_event(OverlayEvent::ButtonPress { button: 1, x: 10, y: 20 }),
        OverlayAction::Nothing
    ));
    match s.handle_event(OverlayEvent::Motion { x: 50, y: 70 }) {
        OverlayAction::Redraw { selection: Some(r), cursor: Some(c) } => {
            assert_eq!((r.x, r.y, r.width, r.height), (10, 20, 40, 50));
            assert_eq!((c.x, c.y), (50, 70));
        }
        other => panic!("unexpected {:?}", other),
    }
    match s.handle_event(OverlayEvent::ButtonRelease { button: 1, x: 60, y: 90 }) {
        OverlayAction::Confirm(r) => assert_eq!((r.x, r.y, r.width, r.height), (10, 20, 50, 70)),
        other => panic!("unexpected {:?}", other),
    }
    assert!(!s.drag.active);
}

#[test]
fn click_without_drag_keeps_the_overlay_open() {
    let mut s = OverlaySession::new(keys());
    s.handle_event(OverlayEvent::ButtonPress { button: 1, x: 5, y: 5 });
    match s.handle_event(OverlayEvent::ButtonRelease { button: 1, x: 6, y: 5 }) {
        OverlayAction::Redraw { selection: None, cursor: None } => {}
        other => panic!("unexpected {:?}", other),
    }
    assert!(!s.drag.active);
}

#[test]
fn motion_without_drag_redraws_only_the_pointer() {
    let mut s = OverlaySession::new(keys());
    match s.handle_event(OverlayEvent::Motion { x: -3, y: 8 }) {
        OverlayAction::Redraw { selection: None, cursor: Some(c) } => assert_eq!((c.x, c.y), (-3, 8)),
        other => panic!("unexpected {:?}", other),
    }
    assert!(matches!(s.cursor, Some(CursorPos { x: -3, y: 8 })));
}

#[test]
fn cancel_inputs_close_the_overlay() {
    let mut s = OverlaySession::new(keys());
    assert!(matches!(
        s.handle_event(OverlayEvent::ButtonPress { button: 3, x: 0, y: 0 }),
        OverlayAction::Cancel
    ));
    assert!(matches!(
        s.handle_event(OverlayEvent::KeyPress { keycode: 9, keysym: 0 }),
        OverlayAction::Cancel
    ));
    assert!(matches!(
        s.handle_event(OverlayEvent::KeyPress { keycode: 24, keysym: 0 }),
        OverlayAction::Cancel
    ));
    // Keysym fallback: Escape, q and Q under another keycode.
    for sym in [0xFF1Bu64, 0x71, 0x51] {
        assert!(matches!(
            s.handle_event(OverlayEvent::KeyPress { keycode: 200, keysym: sym }),
            OverlayAction::Cancel
        ));
    }
    assert!(matches!(
        s.handle_event(OverlayEvent::ButtonPress { button: 2, x: 0, y: 0 }),
        OverlayAction::Nothing
    ));
}

#[test]
fn enter_confirms_the_selection_up_to_the_pointer() {
    let mut s = OverlaySession::new(keys());
    // Enter without a drag does nothing.
    assert!(matches!(
        s.handle_event(OverlayEvent::KeyPress { keycode: 36, keysym: 0xFF0D }),
        OverlayAction::Nothing
    ));
    s.handle_event(OverlayEvent::ButtonPress { button: 1, x: 100, y: 100 });
    s.handle_event(OverlayEvent::Motion { x: 101, y: 140 });
    // Only one pixel wide: too small to confirm.
    assert!(matches!(
        s.handle_event(OverlayEvent::KeyPress { keycode: 36, keysym: 0 }),
        OverlayAction::Nothing
    ));
    s.handle_event(OverlayEvent::Motion { x: 150, y: 140 });
    match s.handle_event(OverlayEvent::KeyPress { keycode: 1, keysym: 0xFF0D }) {
        OverlayAction::Confirm(r) => assert_eq!((r.x, r.y, r.width, r.height), (100, 100, 50, 40)),
        other => panic!("unexpected {:?}", other),
    }
}

#[test]
fn window_events_map_to_blit_and_regrab() {
    let mut s = OverlaySession::new(keys());
    assert!(matches!(s.handle_event(OverlayEvent::Expose), OverlayAction::Blit));
    assert!(matches!(s.handle_event(OverlayEvent::FocusIn), OverlayAction::Nothing));
    assert!(matches!(s.handle_event(OverlayEvent::FocusOut), OverlayAction::Regrab));
    assert!(matches!(s.handle_event(OverlayEvent::Other), OverlayAction::Nothing));
}

#[test]
fn grabs_are_retried_twenty_times() {
    let mut attempts = 0u32;
    let mut tries = 1;
    while let Some(n) = retry_grab(attempts) {
        attempts = n;
        tries += 1;
    }
    assert_eq!(attempts, 20);
    assert_eq!(tries, 21);
}

#[test]
fn redraw_plan_prefers_a_valid_selection() {
    let c = CursorPos { x: 1, y: 2 };
    let p = redraw_plan(Some(sel(0, 0, 10, 10)), Some(c));
    assert!(p.selection.is_some() && p.guides.is_none() && p.help_has_selection);
    let p = redraw_plan(Some(sel(0, 0, 1, 10)), Some(c));
    assert!(p.selection.is_none() && p.guides.is_some() && p.help_has_selection);
    let p = redraw_plan(None, None);
    assert!(p.selection.is_none() && p.guides.is_none() && !p.help_has_selection);
}

#[test]
fn overlay_error_messages() {
    assert_eq!(OverlayError::Cancelled.message(), "Selection cancelled");
    assert_eq!(
        OverlayError::BackgroundCaptureFailed.message(),
        "XGetImage failed — cannot capture background"
    );
    assert_eq!(
        OverlayError::KeyboardGrabFailed.message(),
        "Failed to grab keyboard after 20 retries"
    );
}

fn bgra_image(width: u32, height: u32) -> RawImage {
    // Pixel (x, y) has blue x, green y, red 100 + x, and junk in byte 3.
    let bpl = width as usize * 4 + 8;
    let mut data = vec![0u8; bpl * height as usize];
    for y in 0..height as usize {
        for x in 0..width as usize {
            let o = y * bpl + x * 4;
            data[o] = x as u8;
            data[o + 1] = y as u8;
            data[o + 2] = 100 + x as u8;
            data[o + 3] = 0xEE;
        }
    }
    RawImage {
        width,
        height,
        bytes_per_line: bpl,
        bits_per_pixel: 32,
        red_mask: 0xFF0000,
        green_mask: 0xFF00,
        blue_mask: 0xFF,
        data,
    }
}

#[test]
fn mask_shift_counts_trailing_zeros() {
    assert_eq!(mask_shift(0), 0);
    assert_eq!(mask_shift(0xFF), 0);
    assert_eq!(mask_shift(0xFF00), 8);
    assert_eq!(mask_shift(0xFF0000), 16);
    assert_eq!(mask_shift(0xF800), 11);
    assert_eq!(mask_shift(0x8000_0000), 31);
}

#[test]
fn extract_region_reads_bgra_as_rgba() {
    let img = bgra_image(4, 3);
    let px = extract_region(&img, &sel(1, 1, 2, 2));
    assert_eq!(
        px,
        vec![101, 1, 1, 255, 102, 1, 2, 255, 101, 2, 1, 255, 102, 2, 2, 255]
    );
}

#[test]
fn extract_region_clamps_to_the_image() {
    let img = bgra_image(4, 3);
    let px = extract_region(&img, &sel(3, 2, 10, 10));
    assert_eq!(px, vec![103, 2, 3, 255]);
}

#[test]
fn extract_region_uses_masks_for_other_layouts() {
    // 16-bit RGB565: red 0xF800, green 0x07E0, blue 0x001F.
    let pixel: u16 = (0b10101 << 11) | (0b110011 << 5) | 0b01110;
    let data = pixel.to_le_bytes().to_vec();
    let img = RawImage {
        width: 1,
        height: 1,
        bytes_per_line: 2,
        bits_per_pixel: 16,
        red_mask: 0xF800,
        green_mask: 0x07E0,
        blue_mask: 0x001F,
        data,
    };
    assert_eq!(extract_region(&img, &sel(0, 0, 1, 1)), vec![0b10101, 0b110011, 0b01110, 255]);
}

#[test]
fn extract_region_handles_24_bit_pixels() {
    let img = RawImage {
        width: 2,
        height: 1,
        bytes_per_line: 6,
        bits_per_pixel: 24,
        red_mask: 0xFF0000,
        green_mask: 0xFF00,
        blue_mask: 0xFF,
        data: vec![1, 2, 3, 4, 5, 6],
    };
    assert_eq!(extract_region(&img, &sel(0, 0, 2, 1)), vec![3, 2, 1, 255, 6, 5, 4, 255]);
}

#[test]
fn finish_overlay_clamps_and_extracts() {
    let img = bgra_image(4, 3);
    match finish_overlay(Some(sel(2, 1, 100, 100)), &img, 4, 3) {
        Ok(res) => {
            assert_eq!(
                (res.selection.x, res.selection.y, res.selection.width, res.selection.height),
                (2, 1, 2, 2)
            );
            assert_eq!(res.pixels.len(), 16);
            assert_eq!(&res.pixels[0..4], &[102, 1, 2, 255]);
        }
        Err(e) => panic!("unexpected {:?}", e),
    }
    assert!(matches!(finish_overlay(None, &img, 4, 3), Err(OverlayError::Cancelled)));
    // A selection that shrinks to one pixel at the edge counts as cancelled.
    assert!(matches!(
        finish_overlay(Some(sel(3, 2, 5, 5)), &img, 4, 3),
        Err(OverlayError::Cancelled)
    ));
}

#[test]
fn edge_guides_run_to_the_screen_edges() {
    let g = edge_guides(sel(10, 20, 30, 40), 100, 200);
    assert_eq!(g.len(), 8);
    assert_eq!(g[0], Segment { x1: 10, y1: 0, x2: 10, y2: 20 });
    assert_eq!(g[3], Segment { x1: 40, y1: 60, x2: 40, y2: 200 });
    assert_eq!(g[7], Segment { x1: 40, y1: 60, x2: 100, y2: 60 });
    assert_eq!(
        selection_outline(sel(10, 20, 30, 40)),
        Rect { x: 10, y: 20, width: 30, height: 40 }
    );
}

#[test]
fn corner_handles_sit_on_corners_and_midpoints() {
    let h = corner_handles(sel(10, 20, 30, 41));
    assert_eq!(
        h,
        vec![(6, 16), (36, 16), (6, 57), (36, 57), (21, 16), (21, 57), (6, 36), (36, 36)]
    );
}

#[test]
fn crosshairs_span_screen_and_selection() {
    let c = CursorPos { x: 7, y: 9 };
    assert_eq!(
        crosshair_guides(c, 100, 50),
        (Segment { x1: 0, y1: 9, x2: 100, y2: 9 }, Segment { x1: 7, y1: 0, x2: 7, y2: 50 })
    );
    assert_eq!(
        selection_crosshair(sel(5, 6, 10, 20), c),
        (Segment { x1: 5, y1: 9, x2: 15, y2: 9 }, Segment { x1: 7, y1: 6, x2: 7, y2: 26 })
    );
}

#[test]
fn text_width_falls_back_to_seven_pixels_per_byte() {
    assert_eq!(text_width("abc", None), 21);
    assert_eq!(text_width("abc", Some(40)), 40);
    assert_eq!(text_width("", Some(40)), 0);
    assert_eq!(text_width("×", None), 14);
}

#[test]
fn tooltip_flips_near_the_screen_edge() {
    let c = CursorPos { x: 100, y: 100 };
    assert_eq!(coord_label(c), "100, 100");
    assert_eq!(coord_label(CursorPos { x: -5, y: 0 }), "-5, 0");
    assert_eq!(tooltip_box(c, 50, 1000, 1000), Rect { x: 115, y: 115, width: 62, height: 20 });
    assert_eq!(tooltip_box(c, 50, 170, 130), Rect { x: 23, y: 65, width: 62, height: 20 });
}

#[test]
fn info_panel_text_and_placement() {
    let s = sel(100, 50, 300, 200);
    let (a, b) = info_panel_lines(s);
    assert_eq!(a, " 300  ×  200 px");
    assert_eq!(b, " Position: (100, 50)");
    // Below the selection, centred, at least 240 wide.
    assert_eq!(info_panel_box(s, 100, 120, 1080), Rect { x: 130, y: 260, width: 240, height: 52 });
    // Wider text, and no room below: above the selection.
    assert_eq!(info_panel_box(s, 300, 10, 300), Rect { x: 75, y: -12, width: 350, height: 52 });
    // Never closer than eight pixels to the left edge.
    assert_eq!(info_panel_box(sel(0, 0, 10, 10), 0, 0, 1000).x, 8);
}

#[test]
fn help_bar_instructions_and_layout() {
    assert_eq!(
        help_instructions(true),
        [("Release", "Capture"), ("Enter", "Confirm"), ("ESC", "Cancel"), ("Q", "Cancel")]
    );
    assert_eq!(help_instructions(false)[0], ("Click+Drag", "Select area"));
    assert_eq!(help_instructions(false)[3], ("Right Click", "Cancel"));
    let items = help_bar_layout(&[20, 10], &[30, 40]);
    assert_eq!(
        items,
        vec![
            HelpItem { key_x: 92, key_width: 30, desc_x: 126 },
            HelpItem { key_x: 172, key_width: 20, desc_x: 196 },
        ]
    );
}
