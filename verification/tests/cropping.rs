use fracture::window_cropping::crop_completion_possible;
use fracture::state::{
    GreenScreen, Postprocessor, WindowBackground,
    crop_selection_layout, cropped_layout, AdditionalRenderingState, LayoutSettings, ScaleDecision,
    State, TitleBarDisplay, VideoAspect, VideoLocation, WindowBehaviour, WindowRequest,
};
use fracture::events_mouse::ResizeInteractionsState;
use fracture::window_cropping::{
    crop_button_unmaximize, if_crop_button_is_active, if_in_crop_complete_crop,
    start_crop_selection, CropEndTriggeredFrom, CroppedArea, InitialAbsoluteFramePosition,
    InitialAbsoluteWindowPosition, Size,
};

fn user_layout() -> LayoutSettings {
    LayoutSettings {
        display_title: TitleBarDisplay::TitleBarVisible,
        aspect_ratio: VideoAspect::MaintainAspectRatio(
            ScaleDecision::DontScale,
            WindowBehaviour::SizeSetByUser(VideoLocation::Center),
        ),
        frame_transparency_percent: 70,
        green_screen: GreenScreen::Enabled,
        postprocessor: Postprocessor::Custom,
        background: WindowBackground::Default,
        need_rebuild: false,
        updated: false,
    }
}

fn fresh(frame: (u32, u32)) -> AdditionalRenderingState {
    AdditionalRenderingState {
        crop_button_pressed: false,
        in_crop_selection: false,
        new_settings: false,
        settings_state: user_layout(),
        cropped: None,
        last_frame_size: frame,
        last_known_mouse_position: (0, 0),
        mouse_select_start: (0, 0),
        keep_borders: false,
        mouse_resize_state: ResizeInteractionsState::NoResize,
        mouse_is_down: false,
        mouse_over_screen: false,
        mouse_downs: Vec::new(),
        mouse_clicks: Vec::new(),
    }
}

fn area(wx: u32, wy: u32, fx: u32, fy: u32, w: u32, h: u32) -> CroppedArea {
    CroppedArea {
        relative_to_window_position: InitialAbsoluteWindowPosition { x: wx, y: wy },
        relative_to_frame_position: InitialAbsoluteFramePosition { x: fx, y: fy },
        size: Size { width: w, height: h },
    }
}

#[test]
fn start_crop_selection_grows_window_around_frame() {
    let state = State { should_shutdown: false, last_reported_offsets: (10, 20) };
    let mut a = fresh((800, 600));
    let requests = start_crop_selection(&mut a, &state);
    assert_eq!(
        requests,
        vec![
            WindowRequest::SetMaximized(false),
            WindowRequest::SetMinimized(false),
            WindowRequest::ShutdownSettingsUi,
            WindowRequest::SendSettings(crop_selection_layout()),
            WindowRequest::RequestInnerSize(860, 660),
        ]
    );
    assert!(a.crop_button_pressed);
    assert_eq!(a.settings_state, crop_selection_layout());
    assert_eq!(a.settings_state.background, WindowBackground::CropColor);
    assert_eq!(a.settings_state.green_screen, GreenScreen::Disabled);
    assert_eq!(a.settings_state.postprocessor, Postprocessor::Default);
    assert_eq!(a.settings_state.frame_transparency_percent, 100);
    assert_eq!(a.cropped, Some(area(0, 0, 10, 20, 800, 600)));
}

#[test]
fn mouse_up_completes_selected_crop() {
    let state = State { should_shutdown: false, last_reported_offsets: (10, 20) };
    let mut a = fresh((800, 600));
    a.in_crop_selection = true;
    a.crop_button_pressed = true;
    a.mouse_select_start = (300, 250);
    a.last_known_mouse_position = (100, 80);
    let requests = if_in_crop_complete_crop(&mut a, &state, CropEndTriggeredFrom::MouseUp, (860, 660));
    assert_eq!(a.cropped, Some(area(70, 50, 80, 70, 201, 171)));
    assert_eq!(
        requests,
        vec![WindowRequest::RequestInnerSize(201, 171), WindowRequest::SendSettings(cropped_layout())]
    );
    assert_eq!(a.settings_state, cropped_layout());
    assert_eq!(a.settings_state.display_title, TitleBarDisplay::HiddenTitleBar);
    assert_eq!(a.settings_state.green_screen, GreenScreen::Disabled);
    assert_eq!(a.settings_state.postprocessor, Postprocessor::Default);
    assert_eq!(a.settings_state.background, WindowBackground::Default);
    assert_eq!(a.settings_state.frame_transparency_percent, 100);
    assert!(a.new_settings);
    assert!(!a.in_crop_selection);
    assert!(!a.crop_button_pressed);
}

#[test]
fn tiny_selection_snaps_to_whole_window() {
    let state = State { should_shutdown: false, last_reported_offsets: (10, 20) };
    let mut a = fresh((800, 600));
    a.in_crop_selection = true;
    a.mouse_select_start = (100, 80);
    a.last_known_mouse_position = (102, 82);
    let requests = if_in_crop_complete_crop(&mut a, &state, CropEndTriggeredFrom::MouseUp, (860, 660));
    assert_eq!(a.cropped, Some(area(0, 0, 10, 20, 800, 600)));
    assert_eq!(
        requests,
        vec![WindowRequest::RequestInnerSize(800, 600), WindowRequest::SendSettings(cropped_layout())]
    );
}

#[test]
fn selection_past_frame_is_cut_at_frame_edge() {
    let state = State { should_shutdown: false, last_reported_offsets: (0, 0) };
    let mut a = fresh((200, 100));
    a.in_crop_selection = true;
    a.mouse_select_start = (10, 5);
    a.last_known_mouse_position = (250, 140);
    if_in_crop_complete_crop(&mut a, &state, CropEndTriggeredFrom::MouseUp, (260, 160));
    // 10 and 5 move back by 30 and clamp at 0; the crop stops at the frame.
    assert_eq!(a.cropped, Some(area(0, 0, 0, 0, 200, 100)));
}

#[test]
fn mouse_up_without_selection_does_nothing() {
    let state = State { should_shutdown: false, last_reported_offsets: (10, 20) };
    let mut a = fresh((800, 600));
    a.crop_button_pressed = true;
    let requests = if_in_crop_complete_crop(&mut a, &state, CropEndTriggeredFrom::MouseUp, (860, 660));
    assert!(requests.is_empty());
    assert_eq!(a.cropped, None);
    assert!(a.crop_button_pressed);
}

#[test]
fn enter_press_crops_whole_window() {
    let state = State { should_shutdown: false, last_reported_offsets: (3, 4) };
    let mut a = fresh((640, 480));
    a.crop_button_pressed = true;
    let requests = if_in_crop_complete_crop(&mut a, &state, CropEndTriggeredFrom::EnterPress, (700, 540));
    assert_eq!(a.cropped, Some(area(0, 0, 3, 4, 640, 480)));
    assert_eq!(requests[0], WindowRequest::RequestInnerSize(640, 480));
    assert!(!a.crop_button_pressed);
}

#[test]
fn crop_button_resizes_window_to_reported_size() {
    let state = State { should_shutdown: false, last_reported_offsets: (5, 6) };
    let mut a = fresh((800, 600));
    let requests = if_crop_button_is_active(&state, &true, (1024, 768), (860, 660), &mut a);
    assert_eq!(requests, vec![WindowRequest::RequestInnerSize(1084, 828)]);
    assert_eq!(a.cropped, Some(area(0, 0, 5, 6, 1024, 768)));
}

#[test]
fn crop_button_leaves_matching_window_alone() {
    let state = State { should_shutdown: false, last_reported_offsets: (5, 6) };
    let mut a = fresh((800, 600));
    let requests = if_crop_button_is_active(&state, &true, (800, 600), (860, 660), &mut a);
    assert!(requests.is_empty());
    assert_eq!(a.cropped, None);
    let requests = if_crop_button_is_active(&state, &false, (10, 10), (860, 660), &mut a);
    assert!(requests.is_empty());
}

#[test]
fn start_then_button_check_is_stable() {
    let state = State { should_shutdown: false, last_reported_offsets: (0, 0) };
    let mut a = fresh((320, 200));
    let requests = start_crop_selection(&mut a, &state);
    let size = match requests[4] {
        WindowRequest::RequestInnerSize(w, h) => (w, h),
        _ => panic!("expected a resize"),
    };
    let pressed = a.crop_button_pressed;
    let again = if_crop_button_is_active(&state, &pressed, (320, 200), size, &mut a);
    assert!(again.is_empty());
}

#[test]
fn unmaximize_only_while_crop_button_active() {
    assert!(crop_button_unmaximize(&true, true));
    assert!(!crop_button_unmaximize(&true, false));
    assert!(!crop_button_unmaximize(&false, true));
}

#[test]
fn completion_possible_rejects_endless_fallback() {
    let state = State { should_shutdown: false, last_reported_offsets: (0, 0) };
    let mut a = fresh((800, 600));
    a.in_crop_selection = true;
    a.mouse_select_start = (100, 100);
    a.last_known_mouse_position = (101, 101);
    // A tiny selection falls back to a tiny window: no crop can be made.
    assert!(!crop_completion_possible(&a, &state, CropEndTriggeredFrom::MouseUp, (20, 20)));
    assert!(crop_completion_possible(&a, &state, CropEndTriggeredFrom::MouseUp, (860, 660)));
    a.in_crop_selection = false;
    assert!(crop_completion_possible(&a, &state, CropEndTriggeredFrom::MouseUp, (20, 20)));
}

#[test]
fn drag_direction_does_not_matter() {
    let state = State { should_shutdown: false, last_reported_offsets: (7, 9) };
    let mut a = fresh((800, 600));
    a.in_crop_selection = true;
    a.mouse_select_start = (300, 80);
    a.last_known_mouse_position = (120, 260);
    let mut b = fresh((800, 600));
    b.in_crop_selection = true;
    b.mouse_select_start = (120, 260);
    b.last_known_mouse_position = (300, 80);
    let ra = if_in_crop_complete_crop(&mut a, &state, CropEndTriggeredFrom::MouseUp, (860, 660));
    let rb = if_in_crop_complete_crop(&mut b, &state, CropEndTriggeredFrom::MouseUp, (860, 660));
    assert_eq!(ra, rb);
    assert_eq!(a.cropped, b.cropped);
    assert_eq!(a.settings_state, b.settings_state);
}
