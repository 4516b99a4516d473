use overlay::presentation::{FrameAction, FrameOutcome, State, FRAME_INTERVAL_NANOS, RESTACK_INTERVAL};
use overlay::x11::{
    always_on_top_message, overlay_geometry, passthrough_requests, plan_overlay_window,
    restack_request, select_alpha_visual, RestackRequest, ShapeKind, ShapeRegion, StackMode,
    VisualDepth, VisualError, WindowGeometry, ALL_EVENTS_MASK, NET_WM_STATE, NET_WM_STATE_ABOVE,
    NET_WM_STATE_ADD, ROOT_EVENT_MASK,
};

fn depth(depth: u8, visual_ids: Vec<u32>) -> VisualDepth {
    VisualDepth { depth, visual_ids }
}

#[test]
fn resize_to_nonzero_size_takes_it() {
    let mut s = State::new(800, 600).unwrap();
    assert!(s.resize((1024, 768)));
    assert_eq!(s.size(), (1024, 768));
}

#[test]
fn resize_with_zero_side_keeps_size() {
    let mut s = State::new(800, 600).unwrap();
    assert!(!s.resize((0, 768)));
    assert_eq!(s.size(), (800, 600));
    assert!(!s.resize((1024, 0)));
    assert_eq!(s.size(), (800, 600));
    assert!(!s.resize((0, 0)));
    assert_eq!(s.size(), (800, 600));
}

#[test]
fn new_refuses_zero_size() {
    assert!(State::new(0, 10).is_none());
    assert!(State::new(10, 0).is_none());
    let s = State::new(1, 1).unwrap();
    assert_eq!(s.size(), (1, 1));
    assert_eq!(s.idle_frames(), 0);
}

#[test]
fn no_restack_when_already_topmost() {
    assert_eq!(restack_request(&vec![3, 9, 42], 42), None);
    assert_eq!(restack_request(&vec![42], 42), None);
}

#[test]
fn one_restack_when_not_topmost() {
    let expected = Some(RestackRequest { window: 42, stack_mode: StackMode::Above });
    assert_eq!(restack_request(&vec![42, 3, 9], 42), expected);
    assert_eq!(restack_request(&vec![3, 9], 42), expected);
    assert_eq!(restack_request(&vec![], 42), expected);
}

#[test]
fn passthrough_keeps_drawn_shape_and_empties_input() {
    let reqs = passthrough_requests(7, 19);
    assert_eq!(reqs.len(), 2);
    assert_eq!(reqs[0].dest, 7);
    assert_eq!(reqs[0].kind, ShapeKind::Bounding);
    assert_eq!(reqs[0].region, ShapeRegion::Unshaped);
    assert_eq!((reqs[0].x_offset, reqs[0].y_offset), (0, 0));
    assert_eq!(reqs[1].dest, 7);
    assert_eq!(reqs[1].kind, ShapeKind::Input);
    assert_eq!(reqs[1].region, ShapeRegion::Region(19));
    assert_ne!(reqs[0].region, reqs[1].region);
}

#[test]
fn geometry_on_full_hd_screen() {
    let g = overlay_geometry(1920, 1080).unwrap();
    assert_eq!(g, WindowGeometry { x: 100, y: 100, width: 1920 - 200, height: 1080 - 200 });
}

#[test]
fn geometry_on_screen_smaller_than_margin() {
    assert_eq!(overlay_geometry(200, 1080), None);
    assert_eq!(overlay_geometry(1920, 150), None);
    assert_eq!(
        overlay_geometry(201, 201),
        Some(WindowGeometry { x: 100, y: 100, width: 1, height: 1 })
    );
}

#[test]
fn lost_surface_reconfigures_with_previous_size() {
    let mut s = State::new(1720, 880).unwrap();
    assert_eq!(s.on_frame(FrameOutcome::Presented), FrameAction::Continue);
    let action = s.on_frame(FrameOutcome::Lost);
    assert_eq!(action, FrameAction::Reconfigure { width: 1720, height: 880 });
    assert_ne!(action, FrameAction::Terminate);
    assert_eq!(s.size(), (1720, 880));
    assert_eq!(s.on_frame(FrameOutcome::Presented), FrameAction::Continue);
}

#[test]
fn outdated_surface_after_resize_uses_new_size() {
    let mut s = State::new(1720, 880).unwrap();
    assert!(s.resize((640, 480)));
    assert_eq!(
        s.on_frame(FrameOutcome::Outdated),
        FrameAction::Reconfigure { width: 640, height: 480 }
    );
}

#[test]
fn timeout_and_out_of_memory() {
    let mut s = State::new(10, 10).unwrap();
    assert_eq!(s.on_frame(FrameOutcome::Timeout), FrameAction::ReportTimeout);
    assert_eq!(s.on_frame(FrameOutcome::OutOfMemory), FrameAction::Terminate);
    assert_eq!(s.size(), (10, 10));
}

#[test]
fn stacking_checked_every_thirtieth_idle_frame() {
    let mut s = State::new(10, 10).unwrap();
    for _ in 0..RESTACK_INTERVAL - 1 {
        assert!(!s.on_poll(false));
    }
    assert!(!s.on_poll(true));
    assert_eq!(s.idle_frames(), RESTACK_INTERVAL - 1);
    assert!(s.on_poll(false));
    assert_eq!(s.idle_frames(), 0);
    for _ in 0..RESTACK_INTERVAL - 1 {
        assert!(!s.on_poll(false));
    }
    assert!(s.on_poll(false));
}

#[test]
fn frame_interval_is_a_sixtieth_of_a_second() {
    assert_eq!(FRAME_INTERVAL_NANOS, 16_666_666);
}

#[test]
fn alpha_visual_is_first_of_first_32_bit_depth() {
    let depths = vec![
        depth(24, vec![1, 2]),
        depth(32, vec![5, 6]),
        depth(32, vec![8]),
    ];
    assert_eq!(select_alpha_visual(&depths), Ok(5));
}

#[test]
fn alpha_visual_missing_depth() {
    let depths = vec![depth(24, vec![1]), depth(1, vec![2])];
    assert_eq!(select_alpha_visual(&depths), Err(VisualError::NoAlphaDepth));
    assert_eq!(select_alpha_visual(&vec![]), Err(VisualError::NoAlphaDepth));
}

#[test]
fn alpha_visual_skips_depth_without_visuals() {
    let depths = vec![depth(32, vec![]), depth(24, vec![3]), depth(32, vec![8, 9])];
    assert_eq!(select_alpha_visual(&depths), Ok(8));
}

#[test]
fn alpha_visual_all_alpha_depths_empty() {
    let depths = vec![depth(32, vec![]), depth(24, vec![3]), depth(32, vec![])];
    assert_eq!(select_alpha_visual(&depths), Err(VisualError::NoAlphaVisual));
    assert_eq!(
        plan_overlay_window(500, &depths, WindowGeometry { x: 0, y: 0, width: 1, height: 1 }),
        Err(VisualError::NoAlphaVisual)
    );
}

#[test]
fn overlay_window_plan_fields() {
    let g = WindowGeometry { x: 100, y: 100, width: 1720, height: 880 };
    let depths = vec![depth(24, vec![33]), depth(32, vec![77])];
    let p = plan_overlay_window(500, &depths, g).unwrap();
    assert_eq!(p.parent, 500);
    assert_eq!(p.depth, 32);
    assert_eq!(p.visual, 77);
    assert_eq!(p.geometry, g);
    assert_eq!(p.border_width, 1);
    assert_eq!(p.background_pixel, 0);
    assert_eq!(p.border_pixel, 1);
    assert!(p.override_redirect);
    assert_eq!(p.event_mask, 0x1FF_FFFF);
    assert_eq!(p.event_mask, ALL_EVENTS_MASK);
    assert_eq!(
        plan_overlay_window(500, &vec![depth(24, vec![33])], g),
        Err(VisualError::NoAlphaDepth)
    );
}

#[test]
fn always_on_top_message_fields() {
    let m = always_on_top_message(12, 300, 301);
    assert_eq!(m.format, 32);
    assert_eq!(m.window, 12);
    assert_eq!(m.message_type, 300);
    assert_eq!(m.data, [NET_WM_STATE_ADD, 301, 0, 0, 0]);
    assert_eq!(NET_WM_STATE_ADD, 1);
    assert_eq!(ROOT_EVENT_MASK, (1 << 19) | (1 << 20));
    assert_eq!(NET_WM_STATE, "_NET_WM_STATE");
    assert_eq!(NET_WM_STATE_ABOVE, "_NET_WM_STATE_ABOVE");
}
