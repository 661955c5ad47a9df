use bevy_iced::render::{
    extract_iced_data, update_viewport, DidDraw, IcedClearColor, IcedNode, RenderStep,
    ViewportResource, ViewportSize, WindowMetrics,
};
use bevy_iced::IcedPlugin;

#[test]
fn node_new_is_the_node() {
    assert_eq!(IcedNode::new(), IcedNode);
    let _ = IcedPlugin::default();
}

#[test]
fn mark_then_take_hands_over_once() {
    let mut flag = DidDraw::default();
    assert!(!flag.take());
    flag.mark();
    assert!(flag.take());
    assert!(!flag.take());
    assert!(!flag.0);
}

#[test]
fn extract_copies_the_frame_and_clears_the_flag() {
    let mut flag = DidDraw(true);
    let frame = extract_iced_data(ViewportResource((1600u32, 900u32)), &mut flag, Some(IcedClearColor(42u32)));
    assert_eq!(frame.viewport, ViewportResource((1600, 900)));
    assert!(frame.did_draw);
    assert_eq!(frame.clear_color, Some(IcedClearColor(42)));
    assert!(!flag.0);
    let again = extract_iced_data(ViewportResource((1600u32, 900u32)), &mut flag, None::<IcedClearColor<u32>>);
    assert!(!again.did_draw);
    assert_eq!(again.clear_color, None);
}

#[test]
fn pass_draws_only_with_window_flag_and_view() {
    let node = IcedNode::new();
    assert_eq!(node.plan(true, Some(true), true, Some(3u8)), RenderStep::Draw { clear_color: Some(3) });
    assert_eq!(node.plan(true, Some(true), true, None::<u8>), RenderStep::Draw { clear_color: None });
    assert_eq!(node.plan(false, Some(true), true, Some(3u8)), RenderStep::Skip);
    assert_eq!(node.plan(true, Some(false), true, Some(3u8)), RenderStep::Skip);
    assert_eq!(node.plan(true, None, true, Some(3u8)), RenderStep::Skip);
    assert_eq!(node.plan(true, Some(true), false, Some(3u8)), RenderStep::Skip);
}

#[test]
fn a_display_is_drawn_by_one_frame() {
    let node = IcedNode::new();
    let mut flag = DidDraw::default();
    flag.mark();
    let first = extract_iced_data(ViewportResource(()), &mut flag, None::<IcedClearColor<u8>>);
    let second = extract_iced_data(ViewportResource(()), &mut flag, None::<IcedClearColor<u8>>);
    assert_eq!(node.plan(true, Some(first.did_draw), true, None::<u8>), RenderStep::Draw { clear_color: None });
    assert_eq!(node.plan(true, Some(second.did_draw), true, None::<u8>), RenderStep::Skip);
}

fn window(w: u32, h: u32, scale: f64) -> WindowMetrics<f64> {
    WindowMetrics { physical_width: w, physical_height: h, scale_factor: scale }
}

#[test]
fn viewport_uses_the_window_scale_unless_one_is_set() {
    let windows = vec![window(1280, 720, 2.0)];
    assert_eq!(
        update_viewport(&windows, None),
        Some(ViewportSize { physical_width: 1280, physical_height: 720, scale_factor: 2.0 })
    );
    assert_eq!(
        update_viewport(&windows, Some(1.5)),
        Some(ViewportSize { physical_width: 1280, physical_height: 720, scale_factor: 1.5 })
    );
}

#[test]
fn viewport_needs_exactly_one_window() {
    let none: Vec<WindowMetrics<f64>> = vec![];
    assert_eq!(update_viewport(&none, Some(1.0)), None);
    let two = vec![window(10, 10, 1.0), window(20, 20, 1.0)];
    assert_eq!(update_viewport(&two, None), None);
}
