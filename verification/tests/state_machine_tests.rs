use rs_wgpu_cube::state_machine::{
    next_action, surface_format_index, LoopAction, LoopEvent, PhysicalSize, SurfaceState,
    INITIAL_CONFIG_EXTENT,
};

fn size(width: u32, height: u32) -> PhysicalSize {
    PhysicalSize { width, height }
}

#[test]
fn new_surface_state_uses_initial_extent() {
    let st = SurfaceState::new(size(900, 900));
    assert_eq!((st.size.width, st.size.height), (900, 900));
    assert_eq!((st.config_width, st.config_height), (INITIAL_CONFIG_EXTENT, INITIAL_CONFIG_EXTENT));
    assert_eq!(INITIAL_CONFIG_EXTENT, 400);
}

#[test]
fn config_records_the_extent() {
    let mut st = SurfaceState::new(size(900, 900));
    st.config(900, 900);
    assert_eq!((st.config_width, st.config_height), (900, 900));
    assert_eq!((st.size.width, st.size.height), (900, 900));
}

#[test]
fn resize_to_drawable_size_reconfigures() {
    let mut st = SurfaceState::new(size(900, 900));
    assert!(st.resize(size(640, 480)));
    assert_eq!((st.size.width, st.size.height), (640, 480));
    assert_eq!((st.config_width, st.config_height), (640, 480));
}

#[test]
fn resize_with_a_zero_side_is_ignored() {
    let mut st = SurfaceState::new(size(900, 900));
    assert!(!st.resize(size(0, 480)));
    assert!(!st.resize(size(640, 0)));
    assert!(!st.resize(size(0, 0)));
    assert_eq!((st.size.width, st.size.height), (900, 900));
    assert_eq!((st.config_width, st.config_height), (400, 400));
}

#[test]
fn resize_twice_is_resize_once() {
    let mut once = SurfaceState::new(size(10, 10));
    once.resize(size(7, 3));
    let mut twice = SurfaceState::new(size(10, 10));
    twice.resize(size(7, 3));
    assert!(twice.resize(size(7, 3)));
    assert_eq!((once.size.width, once.size.height), (twice.size.width, twice.size.height));
    assert_eq!((once.config_width, once.config_height), (twice.config_width, twice.config_height));
}

#[test]
fn events_map_to_actions() {
    assert!(matches!(next_action(LoopEvent::CloseRequested), LoopAction::Exit));
    assert!(matches!(
        next_action(LoopEvent::Resized(size(5, 6))),
        LoopAction::Resize(PhysicalSize { width: 5, height: 6 })
    ));
    assert!(matches!(next_action(LoopEvent::RedrawRequested), LoopAction::Render));
    assert!(matches!(next_action(LoopEvent::AboutToWait), LoopAction::RequestRedraw));
    assert!(matches!(next_action(LoopEvent::Other), LoopAction::Nothing));
}

#[test]
fn surface_format_prefers_first_srgb() {
    assert_eq!(surface_format_index(&vec![false, true, true]), 1);
    assert_eq!(surface_format_index(&vec![true, false]), 0);
    assert_eq!(surface_format_index(&vec![false, false, false]), 0);
    assert_eq!(surface_format_index(&vec![false, false, true]), 2);
}

#[test]
fn taken_resize_leaves_config_matching_size() {
    let mut st = SurfaceState::new(size(900, 900));
    assert_ne!(st.config_width, st.size.width);
    st.resize(size(0, 3));
    assert_ne!(st.config_width, st.size.width);
    st.resize(size(12, 34));
    assert_eq!((st.config_width, st.config_height), (st.size.width, st.size.height));
    st.resize(size(0, 0));
    assert_eq!((st.config_width, st.config_height), (st.size.width, st.size.height));
}
