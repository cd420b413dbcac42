use fracture::events_mouse::{cursor_zone_computable, mouse_event_possible};
use fracture::events_mouse::{
    on_cursor_movements, on_mouse_events, MouseButton, MouseEvent, ResizeInteractionsState,
};
use fracture::state::{
    GreenScreen, Postprocessor, WindowBackground,
    cropped_layout, AdditionalRenderingState, CursorIcon, LayoutSettings, ResizeDirection,
    ScaleDecision, State, TitleBarDisplay, VideoAspect, VideoLocation, WindowBehaviour,
    WindowRequest,
};

fn layout(hidden: bool, follows_aspect: bool) -> LayoutSettings {
    LayoutSettings {
        display_title: if hidden { TitleBarDisplay::HiddenTitleBar } else { TitleBarDisplay::TitleBarVisible },
        aspect_ratio: VideoAspect::MaintainAspectRatio(
            ScaleDecision::Scale,
            if follows_aspect {
                WindowBehaviour::SizeMatchesMirrorAspect
            } else {
                WindowBehaviour::SizeSetByUser(VideoLocation::Center)
            },
        ),
        frame_transparency_percent: 70,
        green_screen: GreenScreen::Enabled,
        postprocessor: Postprocessor::Custom,
        background: WindowBackground::Default,
        need_rebuild: false,
        updated: false,
    }
}

fn fresh(settings: LayoutSettings) -> AdditionalRenderingState {
    AdditionalRenderingState {
        crop_button_pressed: false,
        in_crop_selection: false,
        new_settings: false,
        settings_state: settings,
        cropped: None,
        last_frame_size: (800, 600),
        last_known_mouse_position: (0, 0),
        mouse_select_start: (0, 0),
        keep_borders: true,
        mouse_resize_state: ResizeInteractionsState::NoResize,
        mouse_is_down: false,
        mouse_over_screen: false,
        mouse_downs: Vec::new(),
        mouse_clicks: Vec::new(),
    }
}

fn zone(settings: LayoutSettings, x: u32, y: u32) -> (CursorIcon, ResizeInteractionsState) {
    let mut a = fresh(settings);
    let requests = on_cursor_movements(&mut a, (x, y), (100, 100));
    assert_eq!(a.last_known_mouse_position, (x, y));
    assert!(!a.keep_borders);
    match requests[..] {
        [WindowRequest::SetCursor(icon)] => (icon, a.mouse_resize_state),
        _ => panic!("expected one cursor request"),
    }
}

#[test]
fn corners_resize_diagonally() {
    let s = layout(true, false);
    assert_eq!(zone(s, 3, 4), (CursorIcon::NwResize, ResizeInteractionsState::NwResize));
    assert_eq!(zone(s, 3, 95), (CursorIcon::SwResize, ResizeInteractionsState::SwResize));
    assert_eq!(zone(s, 95, 3), (CursorIcon::NeResize, ResizeInteractionsState::NeResize));
    assert_eq!(zone(s, 95, 95), (CursorIcon::SeResize, ResizeInteractionsState::SeResize));
}

#[test]
fn borders_resize_along_one_axis() {
    let s = layout(true, false);
    assert_eq!(zone(s, 3, 50), (CursorIcon::ColResize, ResizeInteractionsState::West));
    assert_eq!(zone(s, 95, 50), (CursorIcon::ColResize, ResizeInteractionsState::East));
    assert_eq!(zone(s, 50, 3), (CursorIcon::RowResize, ResizeInteractionsState::North));
    assert_eq!(zone(s, 50, 95), (CursorIcon::RowResize, ResizeInteractionsState::South));
    assert_eq!(zone(s, 50, 50), (CursorIcon::Default, ResizeInteractionsState::NoResize));
    assert_eq!(zone(s, 90, 90), (CursorIcon::Default, ResizeInteractionsState::NoResize));
}

#[test]
fn aspect_following_window_resizes_only_at_corners() {
    let s = layout(true, true);
    assert_eq!(zone(s, 3, 50), (CursorIcon::Default, ResizeInteractionsState::NoResize));
    assert_eq!(zone(s, 95, 95), (CursorIcon::SeResize, ResizeInteractionsState::SeResize));
}

#[test]
fn visible_title_bar_never_resizes() {
    let s = layout(false, false);
    assert_eq!(zone(s, 3, 4), (CursorIcon::Default, ResizeInteractionsState::NoResize));
    assert_eq!(zone(s, 3, 50), (CursorIcon::Default, ResizeInteractionsState::NoResize));
}

#[test]
fn press_on_corner_drags_window() {
    let state = State { should_shutdown: false, last_reported_offsets: (0, 0) };
    let mut a = fresh(layout(true, false));
    on_mouse_events(MouseEvent::CursorMoved(2, 2), &state, (100, 100), 1, &mut a);
    let r = on_mouse_events(MouseEvent::Pressed(MouseButton::Left), &state, (100, 100), 2, &mut a);
    assert_eq!(r, vec![WindowRequest::DragResize(ResizeDirection::NorthWest)]);
    assert!(a.keep_borders);
    assert!(a.mouse_downs.is_empty());
}

#[test]
fn press_inside_starts_selection() {
    let state = State { should_shutdown: false, last_reported_offsets: (0, 0) };
    let mut a = fresh(layout(false, false));
    a.crop_button_pressed = true;
    on_mouse_events(MouseEvent::CursorMoved(40, 30), &state, (100, 100), 1, &mut a);
    let r = on_mouse_events(MouseEvent::Pressed(MouseButton::Left), &state, (100, 100), 5, &mut a);
    assert!(r.is_empty());
    assert!(a.in_crop_selection);
    assert!(a.mouse_is_down);
    assert!(!a.keep_borders);
    assert_eq!(a.mouse_select_start, (40, 30));
    assert_eq!(a.mouse_downs, vec![((40, 30), 5)]);
}

#[test]
fn right_press_opens_window_menu() {
    let state = State { should_shutdown: false, last_reported_offsets: (0, 0) };
    let mut a = fresh(layout(false, false));
    a.last_known_mouse_position = (12, 34);
    let r = on_mouse_events(MouseEvent::Pressed(MouseButton::Right), &state, (100, 100), 0, &mut a);
    assert_eq!(r, vec![WindowRequest::ShowWindowMenu(12, 34)]);
}

#[test]
fn drag_select_release_completes_crop() {
    let state = State { should_shutdown: false, last_reported_offsets: (0, 0) };
    let mut a = fresh(layout(false, false));
    a.crop_button_pressed = true;
    on_mouse_events(MouseEvent::CursorMoved(100, 100), &state, (860, 660), 1, &mut a);
    on_mouse_events(MouseEvent::Pressed(MouseButton::Left), &state, (860, 660), 2, &mut a);
    on_mouse_events(MouseEvent::CursorMoved(300, 200), &state, (860, 660), 3, &mut a);
    let r = on_mouse_events(MouseEvent::Released(MouseButton::Left), &state, (860, 660), 4, &mut a);
    assert_eq!(
        r,
        vec![WindowRequest::RequestInnerSize(201, 101), WindowRequest::SendSettings(cropped_layout())]
    );
    assert_eq!(a.mouse_clicks, vec![((300, 200), 4)]);
    assert!(!a.mouse_is_down);
    assert!(!a.in_crop_selection);
    assert!(!a.crop_button_pressed);
}

#[test]
fn release_without_selection_only_records_click() {
    let state = State { should_shutdown: false, last_reported_offsets: (0, 0) };
    let mut a = fresh(layout(false, false));
    a.mouse_is_down = true;
    let r = on_mouse_events(MouseEvent::Released(MouseButton::Left), &state, (100, 100), 9, &mut a);
    assert!(r.is_empty());
    assert!(!a.mouse_is_down);
    assert_eq!(a.mouse_clicks.len(), 1);
    assert_eq!(a.cropped, None);
}

#[test]
fn entering_and_leaving() {
    let state = State { should_shutdown: false, last_reported_offsets: (0, 0) };
    let mut a = fresh(layout(false, false));
    on_mouse_events(MouseEvent::CursorEntered, &state, (100, 100), 0, &mut a);
    assert!(a.mouse_over_screen);
    a.mouse_is_down = true;
    on_mouse_events(MouseEvent::CursorLeft, &state, (100, 100), 0, &mut a);
    assert!(!a.mouse_over_screen);
    assert!(!a.mouse_is_down);
    let r = on_mouse_events(MouseEvent::Other, &state, (100, 100), 0, &mut a);
    assert!(r.is_empty());
}

#[test]
fn zone_computable_detects_short_windows() {
    let hidden = layout(true, false);
    assert!(cursor_zone_computable(3, 4, 5, 5, hidden));
    assert!(!cursor_zone_computable(50, 2, 100, 5, hidden));
    assert!(cursor_zone_computable(50, 2, 100, 5, layout(false, false)));
    assert!(cursor_zone_computable(50, 50, 100, 100, hidden));
    let state = State { should_shutdown: false, last_reported_offsets: (0, 0) };
    let a = fresh(hidden);
    assert!(!mouse_event_possible(MouseEvent::CursorMoved(50, 2), &state, (100, 5), &a));
    assert!(mouse_event_possible(MouseEvent::CursorEntered, &state, (100, 5), &a));
}
