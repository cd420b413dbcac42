//! The mirror window's interaction state and the requests it makes of the
//! window system.
use vstd::prelude::*;
use crate::events_mouse::ResizeInteractionsState;
use crate::window_cropping::CroppedArea;

verus! {

/// Whether the mirror window shows its title bar.
#[derive(Debug, Clone, Copy, PartialEq, Eq, Structural)]
pub enum TitleBarDisplay {
    TitleBarVisible,
    HiddenTitleBar,
}

/// Whether the mirrored frame is scaled with the window.
#[derive(Debug, Clone, Copy, PartialEq, Eq, Structural)]
pub enum ScaleDecision {
    Scale,
    DontScale,
}

/// Where the frame sits in a window that the user sizes; `Other` is any
/// placement other than the centre.
#[derive(Debug, Clone, Copy, PartialEq, Eq, Structural)]
pub enum VideoLocation {
    Center,
    Other,
}

/// Who decides the window's size.
#[derive(Debug, Clone, Copy, PartialEq, Eq, Structural)]
pub enum WindowBehaviour {
    SizeSetByUser(VideoLocation),
    SizeMatchesMirrorAspect,
}

/// How the frame's aspect ratio is handled; `Unconstrained` is any handling
/// that does not keep the ratio.
#[derive(Debug, Clone, Copy, PartialEq, Eq, Structural)]
pub enum VideoAspect {
    MaintainAspectRatio(ScaleDecision, WindowBehaviour),
    Unconstrained,
}

/// Chroma keying of the mirrored frame.
#[derive(Debug, Clone, Copy, PartialEq, Eq, Structural)]
pub enum GreenScreen {
    Disabled,
    Enabled,
}

/// The shader applied to the mirrored frame: the default one, or one the
/// user chose.
#[derive(Debug, Clone, Copy, PartialEq, Eq, Structural)]
pub enum Postprocessor {
    Default,
    Custom,
}

/// What fills the window around the frame.
#[derive(Debug, Clone, Copy, PartialEq, Eq, Structural)]
pub enum WindowBackground {
    /// The default background.
    Default,
    /// The crop-selection colour.
    CropColor,
}

/// The window's display settings that the crop and pointer logic sets and
/// reads. Settings made by the presets below are complete: every other
/// display setting takes its default value with them.
#[derive(Debug, Clone, Copy, PartialEq, Eq, Structural)]
pub struct LayoutSettings {
    pub display_title: TitleBarDisplay,
    pub aspect_ratio: VideoAspect,
    /// Opacity of the frame, in percent.
    pub frame_transparency_percent: u32,
    pub green_screen: GreenScreen,
    pub postprocessor: Postprocessor,
    pub background: WindowBackground,
    pub need_rebuild: bool,
    pub updated: bool,
}

/// The settings shown while the user selects a crop: title bar shown, the
/// frame unscaled and centred at full opacity over the crop colour, no
/// green screen, the default postprocessor.
pub open spec fn spec_crop_selection_layout() -> LayoutSettings {
    LayoutSettings {
        display_title: TitleBarDisplay::TitleBarVisible,
        aspect_ratio: VideoAspect::MaintainAspectRatio(
            ScaleDecision::DontScale,
            WindowBehaviour::SizeSetByUser(VideoLocation::Center),
        ),
        frame_transparency_percent: 100,
        green_screen: GreenScreen::Disabled,
        postprocessor: Postprocessor::Default,
        background: WindowBackground::CropColor,
        need_rebuild: true,
        updated: true,
    }
}

/// The settings used once a crop is complete: title bar hidden, the frame
/// scaled with a window that follows its aspect ratio, at full opacity over
/// the default background, no green screen, the default postprocessor.
pub open spec fn spec_cropped_layout() -> LayoutSettings {
    LayoutSettings {
        display_title: TitleBarDisplay::HiddenTitleBar,
        aspect_ratio: VideoAspect::MaintainAspectRatio(
            ScaleDecision::Scale,
            WindowBehaviour::SizeMatchesMirrorAspect,
        ),
        frame_transparency_percent: 100,
        green_screen: GreenScreen::Disabled,
        postprocessor: Postprocessor::Default,
        background: WindowBackground::Default,
        need_rebuild: true,
        updated: true,
    }
}

pub fn crop_selection_layout() -> (r: LayoutSettings)
    ensures
        r == spec_crop_selection_layout(),
{
    LayoutSettings {
        display_title: TitleBarDisplay::TitleBarVisible,
        aspect_ratio: VideoAspect::MaintainAspectRatio(
            ScaleDecision::DontScale,
            WindowBehaviour::SizeSetByUser(VideoLocation::Center),
        ),
        frame_transparency_percent: 100,
        green_screen: GreenScreen::Disabled,
        postprocessor: Postprocessor::Default,
        background: WindowBackground::CropColor,
        need_rebuild: true,
        updated: true,
    }
}

pub fn cropped_layout() -> (r: LayoutSettings)
    ensures
        r == spec_cropped_layout(),
{
    LayoutSettings {
        display_title: TitleBarDisplay::HiddenTitleBar,
        aspect_ratio: VideoAspect::MaintainAspectRatio(
            ScaleDecision::Scale,
            WindowBehaviour::SizeMatchesMirrorAspect,
        ),
        frame_transparency_percent: 100,
        green_screen: GreenScreen::Disabled,
        postprocessor: Postprocessor::Default,
        background: WindowBackground::Default,
        need_rebuild: true,
        updated: true,
    }
}

/// Edges and corners from which the window can be resized by dragging.
#[derive(Debug, Clone, Copy, PartialEq, Eq, Structural)]
pub enum ResizeDirection {
    NorthWest,
    SouthWest,
    NorthEast,
    SouthEast,
    North,
    South,
    East,
    West,
}

/// Pointer shapes the window shows.
#[derive(Debug, Clone, Copy, PartialEq, Eq, Structural)]
pub enum CursorIcon {
    Default,
    NwResize,
    SwResize,
    NeResize,
    SeResize,
    ColResize,
    RowResize,
}

/// A request to the window system or to the renderer, in the order made.
#[derive(Debug, Clone, Copy, PartialEq, Eq, Structural)]
pub enum WindowRequest {
    SetMaximized(bool),
    SetMinimized(bool),
    /// Close the settings window.
    ShutdownSettingsUi,
    /// Hand new settings to the renderer.
    SendSettings(LayoutSettings),
    RequestInnerSize(u32, u32),
    DragResize(ResizeDirection),
    ShowWindowMenu(u32, u32),
    SetCursor(CursorIcon),
}

/// The window-wide state that the interaction logic reads and sets.
#[derive(Debug, Clone, Copy)]
pub struct State {
    pub should_shutdown: bool,
    /// Where the window's content begins in the captured frame.
    pub last_reported_offsets: (u32, u32),
}

/// Pointer and crop state of the mirror window. Times are milliseconds of
/// the system clock.
#[derive(Debug)]
pub struct AdditionalRenderingState {
    pub crop_button_pressed: bool,
    pub in_crop_selection: bool,
    pub new_settings: bool,
    pub settings_state: LayoutSettings,
    pub cropped: Option<CroppedArea>,
    pub last_frame_size: (u32, u32),
    pub last_known_mouse_position: (u32, u32),
    pub mouse_select_start: (u32, u32),
    pub keep_borders: bool,
    pub mouse_resize_state: ResizeInteractionsState,
    pub mouse_is_down: bool,
    pub mouse_over_screen: bool,
    pub mouse_downs: Vec<((u32, u32), u64)>,
    pub mouse_clicks: Vec<((u32, u32), u64)>,
}

} // verus!
