//! Selecting the part of the mirrored frame that the window shows.
//!
//! While a crop is selected the window is larger than the frame by
//! `SELECTION_WINDOW_OFFSETS`, the frame sitting in the middle, so a pointer
//! position is moved back by half the offset to land on the frame.
use vstd::prelude::*;
use crate::defaults::SELECTION_WINDOW_OFFSETS;
use crate::state::{
    cropped_layout, crop_selection_layout, spec_crop_selection_layout, spec_cropped_layout,
    AdditionalRenderingState, ScaleDecision, State, TitleBarDisplay, VideoAspect, VideoLocation,
    WindowBackground, WindowBehaviour, WindowRequest,
};

verus! {

/// What ended a crop selection.
#[derive(Debug, Clone, Copy, PartialEq, Eq, Structural)]
pub enum CropEndTriggeredFrom {
    MouseUp,
    EnterPress,
}

#[derive(Debug, Clone, Copy, PartialEq, Eq, Structural)]
pub struct InitialAbsoluteWindowPosition {
    pub x: u32,
    pub y: u32,
}

#[derive(Debug, Clone, Copy, PartialEq, Eq, Structural)]
pub struct InitialAbsoluteFramePosition {
    pub x: u32,
    pub y: u32,
}

#[derive(Debug, Clone, Copy, PartialEq, Eq, Structural)]
pub struct Size {
    pub width: u32,
    pub height: u32,
}

/// A crop of the mirrored frame.
#[derive(Debug, Clone, Copy, PartialEq, Eq, Structural)]
pub struct CroppedArea {
    /// The corner chosen by the pointer in the mirror window, whose size
    /// changes over time.
    pub relative_to_window_position: InitialAbsoluteWindowPosition,
    /// The same corner in the captured frame.
    pub relative_to_frame_position: InitialAbsoluteFramePosition,
    pub size: Size,
}

/// The value of `v` read as an `i32` (two's complement).
pub open spec fn wrap_i32(v: u32) -> int {
    if v <= i32::MAX {
        v as int
    } else {
        v - 0x1_0000_0000
    }
}

/// A window coordinate moved back by `half` and clamped at zero.
pub open spec fn inset(v: u32, half: u32) -> int {
    let s = wrap_i32(v) - half;
    if s < 0 {
        0
    } else {
        s
    }
}

/// The length of a crop from `start` to `end` (both included), cut so that
/// it does not run past a frame side of length `frame`, and at least zero.
pub open spec fn crop_extent(start: int, end: int, frame: u32) -> int {
    let e = end - start + 1;
    let lim = wrap_i32(frame) - start;
    let m = if e < lim {
        e
    } else {
        lim
    };
    if m < 0 {
        0
    } else {
        m
    }
}

pub open spec fn min_u32(a: u32, b: u32) -> u32 {
    if a < b {
        a
    } else {
        b
    }
}

pub open spec fn max_u32(a: u32, b: u32) -> u32 {
    if a < b {
        b
    } else {
        a
    }
}

/// The selected window rectangle `(min_x, max_x, min_y, max_y)`: the box
/// spanned by the pointer's press and its last position for a mouse release,
/// the whole window (of size `inner`) for the enter key.
pub open spec fn selection_bounds(
    a: AdditionalRenderingState,
    from: CropEndTriggeredFrom,
    inner: (u32, u32),
) -> (u32, u32, u32, u32) {
    match from {
        CropEndTriggeredFrom::MouseUp => (
            min_u32(a.last_known_mouse_position.0, a.mouse_select_start.0),
            max_u32(a.last_known_mouse_position.0, a.mouse_select_start.0),
            min_u32(a.last_known_mouse_position.1, a.mouse_select_start.1),
            max_u32(a.last_known_mouse_position.1, a.mouse_select_start.1),
        ),
        CropEndTriggeredFrom::EnterPress => (0, inner.0, 0, inner.1),
    }
}

/// The crop that a selection ended by `from` gives.
pub open spec fn spec_computed_crop(
    a: AdditionalRenderingState,
    offsets: (u32, u32),
    from: CropEndTriggeredFrom,
    inner: (u32, u32),
) -> CroppedArea {
    let (mnx, mxx, mny, mxy) = selection_bounds(a, from, inner);
    let hx = SELECTION_WINDOW_OFFSETS.0 / 2;
    let hy = SELECTION_WINDOW_OFFSETS.1 / 2;
    let x0 = inset(mnx, hx);
    let x1 = inset(mxx, hx);
    let y0 = inset(mny, hy);
    let y1 = inset(mxy, hy);
    CroppedArea {
        relative_to_window_position: InitialAbsoluteWindowPosition { x: x0 as u32, y: y0 as u32 },
        relative_to_frame_position: InitialAbsoluteFramePosition {
            x: (x0 + offsets.0) as u32,
            y: (y0 + offsets.1) as u32,
        },
        size: Size {
            width: crop_extent(x0, x1, a.last_frame_size.0) as u32,
            height: crop_extent(y0, y1, a.last_frame_size.1) as u32,
        },
    }
}

/// The crop arithmetic stays within `i32` and `u32`.
pub open spec fn crop_computable(
    a: AdditionalRenderingState,
    offsets: (u32, u32),
    from: CropEndTriggeredFrom,
    inner: (u32, u32),
) -> bool {
    let (mnx, mxx, mny, mxy) = selection_bounds(a, from, inner);
    let hx = SELECTION_WINDOW_OFFSETS.0 / 2;
    let hy = SELECTION_WINDOW_OFFSETS.1 / 2;
    &&& wrap_i32(mnx) - hx >= i32::MIN
    &&& wrap_i32(mxx) - hx >= i32::MIN
    &&& wrap_i32(mny) - hy >= i32::MIN
    &&& wrap_i32(mxy) - hy >= i32::MIN
    &&& inset(mnx, hx) + offsets.0 <= u32::MAX
    &&& inset(mny, hy) + offsets.1 <= u32::MAX
    &&& wrap_i32(a.last_frame_size.0) - inset(mnx, hx) >= i32::MIN
    &&& wrap_i32(a.last_frame_size.1) - inset(mny, hy) >= i32::MIN
}

/// A crop of five pixels or less in either direction.
pub open spec fn too_small(c: CroppedArea) -> bool {
    c.size.width <= 5 || c.size.height <= 5
}

/// A selection ended by `from` completes a crop.
pub open spec fn crop_active(a: AdditionalRenderingState, from: CropEndTriggeredFrom) -> bool {
    a.in_crop_selection || (a.crop_button_pressed && from == CropEndTriggeredFrom::EnterPress)
}

/// The crop kept when a selection ends: the selected one, or the whole
/// window when the selection is too small.
pub open spec fn spec_final_crop(
    a: AdditionalRenderingState,
    offsets: (u32, u32),
    from: CropEndTriggeredFrom,
    inner: (u32, u32),
) -> CroppedArea {
    let c = spec_computed_crop(a, offsets, from, inner);
    if too_small(c) {
        spec_computed_crop(a, offsets, CropEndTriggeredFrom::EnterPress, inner)
    } else {
        c
    }
}

/// Completing the crop neither overflows nor falls back forever: a
/// selection that is too small is replaced by the whole window, which must
/// itself be larger than five pixels each way.
pub open spec fn crop_completion_ok(
    a: AdditionalRenderingState,
    offsets: (u32, u32),
    from: CropEndTriggeredFrom,
    inner: (u32, u32),
) -> bool {
    crop_active(a, from) ==> {
        &&& crop_computable(a, offsets, from, inner)
        &&& too_small(spec_computed_crop(a, offsets, from, inner)) ==> {
            &&& crop_computable(a, offsets, CropEndTriggeredFrom::EnterPress, inner)
            &&& !too_small(spec_computed_crop(a, offsets, CropEndTriggeredFrom::EnterPress, inner))
        }
    }
}

fn value_as_i32(v: u32) -> (r: i64)
    ensures
        r == wrap_i32(v),
{
    if v <= 0x7fff_ffff {
        v as i64
    } else {
        v as i64 - 0x1_0000_0000
    }
}

fn inset_coordinate(v: u32, half: u32) -> (r: i64)
    ensures
        r == inset(v, half),
{
    let s = value_as_i32(v) - half as i64;
    if s < 0 {
        0
    } else {
        s
    }
}

fn extent(start: i64, end: i64, frame: u32) -> (r: i64)
    requires
        0 <= start <= i32::MAX,
        0 <= end <= i32::MAX,
    ensures
        r == crop_extent(start as int, end as int, frame),
        0 <= r <= i32::MAX + 1,
{
    let e = (end - start) + 1;
    let lim = value_as_i32(frame) - start;
    let m = if e < lim {
        e
    } else {
        lim
    };
    if m < 0 {
        0
    } else {
        m
    }
}

fn compute_crop(
    a: &AdditionalRenderingState,
    offsets: (u32, u32),
    from: CropEndTriggeredFrom,
    inner: (u32, u32),
) -> (c: CroppedArea)
    requires
        crop_computable(*a, offsets, from, inner),
    ensures
        c == spec_computed_crop(*a, offsets, from, inner),
{
    let (lx, ly) = a.last_known_mouse_position;
    let (sx, sy) = a.mouse_select_start;
    let (min_x, max_x, min_y, max_y) = match from {
        CropEndTriggeredFrom::MouseUp => (
            if lx < sx {
                lx
            } else {
                sx
            },
            if lx < sx {
                sx
            } else {
                lx
            },
            if ly < sy {
                ly
            } else {
                sy
            },
            if ly < sy {
                sy
            } else {
                ly
            },
        ),
        CropEndTriggeredFrom::EnterPress => (0, inner.0, 0, inner.1),
    };
    let hx = SELECTION_WINDOW_OFFSETS.0 / 2;
    let hy = SELECTION_WINDOW_OFFSETS.1 / 2;
    let x0 = inset_coordinate(min_x, hx);
    let x1 = inset_coordinate(max_x, hx);
    let y0 = inset_coordinate(min_y, hy);
    let y1 = inset_coordinate(max_y, hy);
    let width = extent(x0, x1, a.last_frame_size.0);
    let height = extent(y0, y1, a.last_frame_size.1);
    CroppedArea {
        relative_to_window_position: InitialAbsoluteWindowPosition { x: x0 as u32, y: y0 as u32 },
        relative_to_frame_position: InitialAbsoluteFramePosition {
            x: x0 as u32 + offsets.0,
            y: y0 as u32 + offsets.1,
        },
        size: Size { width: width as u32, height: height as u32 },
    }
}

/// Ends a crop selection. When a selection is under way (or the crop button
/// is active and the enter key ended it), the selected crop is kept, or the
/// whole window when the selection is five pixels or less in either
/// direction; the window then hides its title bar, follows the frame's
/// aspect, is resized to the crop, and the new settings go to the renderer.
/// `inner_size` is the window's current inner size.
pub fn if_in_crop_complete_crop(
    additional_state: &mut AdditionalRenderingState,
    state: &State,
    from: CropEndTriggeredFrom,
    inner_size: (u32, u32),
) -> (requests: Vec<WindowRequest>)
    requires
        crop_completion_ok(*old(additional_state), state.last_reported_offsets, from, inner_size),
    ensures
        !crop_active(*old(additional_state), from) ==> {
            &&& *final(additional_state) == *old(additional_state)
            &&& requests@ == Seq::<WindowRequest>::empty()
        },
        crop_active(*old(additional_state), from) ==> {
            let c = spec_final_crop(
                *old(additional_state),
                state.last_reported_offsets,
                from,
                inner_size,
            );
            &&& *final(additional_state) == (AdditionalRenderingState {
                cropped: Some(c),
                settings_state: spec_cropped_layout(),
                new_settings: true,
                in_crop_selection: false,
                crop_button_pressed: false,
                ..*old(additional_state)
            })
            &&& requests@ == seq![
                WindowRequest::RequestInnerSize(c.size.width, c.size.height),
                WindowRequest::SendSettings(spec_cropped_layout()),
            ]
            &&& c.size.width > 5
            &&& c.size.height > 5
            &&& final(additional_state).settings_state.aspect_ratio
                == VideoAspect::MaintainAspectRatio(
                ScaleDecision::Scale,
                WindowBehaviour::SizeMatchesMirrorAspect,
            )
            &&& final(additional_state).settings_state.display_title
                == TitleBarDisplay::HiddenTitleBar
        },
    decreases
            (if from == CropEndTriggeredFrom::MouseUp {
                1int
            } else {
                0int
            }),
{
    let active = additional_state.in_crop_selection || additional_state.crop_button_pressed
        && from == CropEndTriggeredFrom::EnterPress;
    if active {
        let c = compute_crop(&*additional_state, state.last_reported_offsets, from, inner_size);
        additional_state.cropped = Some(c);
        let mut requests: Vec<WindowRequest>;
        if c.size.width <= 5 || c.size.height <= 5 {
            requests = if_in_crop_complete_crop(
                additional_state,
                state,
                CropEndTriggeredFrom::EnterPress,
                inner_size,
            );
        } else {
            additional_state.settings_state = cropped_layout();
            additional_state.new_settings = true;
            requests = Vec::new();
            requests.push(WindowRequest::RequestInnerSize(c.size.width, c.size.height));
            requests.push(WindowRequest::SendSettings(additional_state.settings_state));
        }
        additional_state.in_crop_selection = false;
        additional_state.crop_button_pressed = false;
        requests
    } else {
        Vec::new()
    }
}

/// The crop covering a whole frame of size `frame_size`, placed at the frame
/// offsets that were last reported.
pub open spec fn spec_whole_frame_crop(frame_size: (u32, u32), offsets: (u32, u32)) -> CroppedArea {
    CroppedArea {
        relative_to_window_position: InitialAbsoluteWindowPosition { x: 0, y: 0 },
        size: Size { width: frame_size.0, height: frame_size.1 },
        relative_to_frame_position: InitialAbsoluteFramePosition { x: offsets.0, y: offsets.1 },
    }
}

fn whole_frame_crop(frame_size: (u32, u32), offsets: (u32, u32)) -> (c: CroppedArea)
    ensures
        c == spec_whole_frame_crop(frame_size, offsets),
{
    CroppedArea {
        relative_to_window_position: InitialAbsoluteWindowPosition { x: 0, y: 0 },
        size: Size { width: frame_size.0, height: frame_size.1 },
        relative_to_frame_position: InitialAbsoluteFramePosition { x: offsets.0, y: offsets.1 },
    }
}

/// Starts a crop selection: the window leaves the maximized and minimized
/// states, the settings window closes, the window shows its title bar over
/// the crop colour, the crop starts as the whole last frame, and the window
/// is resized to the frame plus `SELECTION_WINDOW_OFFSETS`.
pub fn start_crop_selection(additional_state: &mut AdditionalRenderingState, state: &State) -> (requests:
    Vec<WindowRequest>)
    requires
        old(additional_state).last_frame_size.0 + SELECTION_WINDOW_OFFSETS.0 <= u32::MAX,
        old(additional_state).last_frame_size.1 + SELECTION_WINDOW_OFFSETS.1 <= u32::MAX,
    ensures
        *final(additional_state) == (AdditionalRenderingState {
            crop_button_pressed: true,
            settings_state: spec_crop_selection_layout(),
            cropped: Some(
                spec_whole_frame_crop(old(additional_state).last_frame_size, state.last_reported_offsets),
            ),
            ..*old(additional_state)
        }),
        requests@ == seq![
            WindowRequest::SetMaximized(false),
            WindowRequest::SetMinimized(false),
            WindowRequest::ShutdownSettingsUi,
            WindowRequest::SendSettings(spec_crop_selection_layout()),
            WindowRequest::RequestInnerSize(
                (old(additional_state).last_frame_size.0 + SELECTION_WINDOW_OFFSETS.0) as u32,
                (old(additional_state).last_frame_size.1 + SELECTION_WINDOW_OFFSETS.1) as u32,
            ),
        ],
        final(additional_state).settings_state.aspect_ratio == VideoAspect::MaintainAspectRatio(
            ScaleDecision::DontScale,
            WindowBehaviour::SizeSetByUser(VideoLocation::Center),
        ),
        final(additional_state).settings_state.display_title == TitleBarDisplay::TitleBarVisible,
        final(additional_state).settings_state.background == WindowBackground::CropColor,
{
    let mut requests: Vec<WindowRequest> = Vec::new();
    requests.push(WindowRequest::SetMaximized(false));
    requests.push(WindowRequest::SetMinimized(false));
    additional_state.crop_button_pressed = true;
    requests.push(WindowRequest::ShutdownSettingsUi);
    additional_state.settings_state = crop_selection_layout();
    requests.push(WindowRequest::SendSettings(additional_state.settings_state));
    let c = whole_frame_crop(additional_state.last_frame_size, state.last_reported_offsets);
    additional_state.cropped = Some(c);
    requests.push(
        WindowRequest::RequestInnerSize(
            c.size.width + SELECTION_WINDOW_OFFSETS.0,
            c.size.height + SELECTION_WINDOW_OFFSETS.1,
        ),
    );
    requests
}

/// While the crop button is active, a maximized window first leaves the
/// maximized state.
pub fn crop_button_unmaximize(crop_button_press: &bool, maximized: bool) -> (r: bool)
    ensures
        r == (*crop_button_press && maximized),
{
    *crop_button_press && maximized
}

/// While the crop button is active, keeps the window at the reported window
/// size plus `SELECTION_WINDOW_OFFSETS`: when `inner_size` (read after
/// `crop_button_unmaximize`) differs, the crop is reset to the whole
/// reported window and the window is resized.
pub fn if_crop_button_is_active(
    state: &State,
    crop_button_press: &bool,
    frame_window_dimensions: (u32, u32),
    inner_size: (u32, u32),
    additional_state: &mut AdditionalRenderingState,
) -> (requests: Vec<WindowRequest>)
    requires
        *crop_button_press ==> frame_window_dimensions.0 + SELECTION_WINDOW_OFFSETS.0 <= u32::MAX,
        *crop_button_press ==> frame_window_dimensions.1 + SELECTION_WINDOW_OFFSETS.1 <= u32::MAX,
    ensures
        ({
            let target_w = frame_window_dimensions.0 + SELECTION_WINDOW_OFFSETS.0;
            let target_h = frame_window_dimensions.1 + SELECTION_WINDOW_OFFSETS.1;
            if *crop_button_press && (target_w != inner_size.0 || target_h != inner_size.1) {
                &&& *final(additional_state) == (AdditionalRenderingState {
                    cropped: Some(
                        spec_whole_frame_crop(frame_window_dimensions, state.last_reported_offsets),
                    ),
                    ..*old(additional_state)
                })
                &&& requests@ == seq![
                    WindowRequest::RequestInnerSize(target_w as u32, target_h as u32),
                ]
            } else {
                &&& *final(additional_state) == *old(additional_state)
                &&& requests@ == Seq::<WindowRequest>::empty()
            }
        }),
{
    let mut requests: Vec<WindowRequest> = Vec::new();
    if *crop_button_press {
        let (width, height) = inner_size;
        let (f_w, f_h) = frame_window_dimensions;
        let (off_w, off_h) = SELECTION_WINDOW_OFFSETS;
        if f_w + off_w != width || f_h + off_h != height {
            additional_state.cropped = Some(
                whole_frame_crop(frame_window_dimensions, state.last_reported_offsets),
            );
            requests.push(WindowRequest::RequestInnerSize(f_w + off_w, f_h + off_h));
        }
    }
    requests
}

/// A completed crop lies inside the last frame, its frame position is its
/// window position moved by the reported offsets, and it is more than five
/// pixels in each direction.
pub proof fn lemma_completed_crop_within_frame(
    a: AdditionalRenderingState,
    offsets: (u32, u32),
    from: CropEndTriggeredFrom,
    inner: (u32, u32),
)
    requires
        crop_active(a, from),
        crop_completion_ok(a, offsets, from, inner),
    ensures
        ({
            let c = spec_final_crop(a, offsets, from, inner);
            &&& c.relative_to_window_position.x + c.size.width <= a.last_frame_size.0
            &&& c.relative_to_window_position.y + c.size.height <= a.last_frame_size.1
            &&& c.relative_to_frame_position.x == c.relative_to_window_position.x + offsets.0
            &&& c.relative_to_frame_position.y == c.relative_to_window_position.y + offsets.1
            &&& c.size.width > 5
            &&& c.size.height > 5
        }),
{
}

fn crop_computable_check(
    a: &AdditionalRenderingState,
    offsets: (u32, u32),
    from: CropEndTriggeredFrom,
    inner: (u32, u32),
) -> (b: bool)
    ensures
        b == crop_computable(*a, offsets, from, inner),
{
    let (lx, ly) = a.last_known_mouse_position;
    let (sx, sy) = a.mouse_select_start;
    let (min_x, max_x, min_y, max_y) = match from {
        CropEndTriggeredFrom::MouseUp => (
            if lx < sx {
                lx
            } else {
                sx
            },
            if lx < sx {
                sx
            } else {
                lx
            },
            if ly < sy {
                ly
            } else {
                sy
            },
            if ly < sy {
                sy
            } else {
                ly
            },
        ),
        CropEndTriggeredFrom::EnterPress => (0, inner.0, 0, inner.1),
    };
    let hx = (SELECTION_WINDOW_OFFSETS.0 / 2) as i64;
    let hy = (SELECTION_WINDOW_OFFSETS.1 / 2) as i64;
    let lowest = i32::MIN as i64;
    let x0 = inset_coordinate(min_x, SELECTION_WINDOW_OFFSETS.0 / 2);
    let y0 = inset_coordinate(min_y, SELECTION_WINDOW_OFFSETS.1 / 2);
    value_as_i32(min_x) - hx >= lowest && value_as_i32(max_x) - hx >= lowest && value_as_i32(min_y)
        - hy >= lowest && value_as_i32(max_y) - hy >= lowest && x0 + offsets.0 as i64
        <= u32::MAX as i64 && y0 + offsets.1 as i64 <= u32::MAX as i64 && value_as_i32(
        a.last_frame_size.0,
    ) - x0 >= lowest && value_as_i32(a.last_frame_size.1) - y0 >= lowest
}

/// Whether `if_in_crop_complete_crop` can run on these inputs: its
/// arithmetic stays in range and a too small selection does not fall back
/// to a whole window that is itself too small.
pub fn crop_completion_possible(
    additional_state: &AdditionalRenderingState,
    state: &State,
    from: CropEndTriggeredFrom,
    inner_size: (u32, u32),
) -> (b: bool)
    ensures
        b == crop_completion_ok(*additional_state, state.last_reported_offsets, from, inner_size),
{
    let offsets = state.last_reported_offsets;
    let active = additional_state.in_crop_selection || additional_state.crop_button_pressed
        && from == CropEndTriggeredFrom::EnterPress;
    if !active {
        return true;
    }
    if !crop_computable_check(additional_state, offsets, from, inner_size) {
        return false;
    }
    let c = compute_crop(additional_state, offsets, from, inner_size);
    if c.size.width <= 5 || c.size.height <= 5 {
        if !crop_computable_check(additional_state, offsets, CropEndTriggeredFrom::EnterPress, inner_size) {
            return false;
        }
        let whole = compute_crop(additional_state, offsets, CropEndTriggeredFrom::EnterPress, inner_size);
        whole.size.width > 5 && whole.size.height > 5
    } else {
        true
    }
}

/// A mouse-up crop depends on the two corners of the drag, not on its
/// direction: swapping where the drag started and where the pointer is
/// leaves whether the crop completes, whether it can be completed, and the
/// crop kept all unchanged.
pub proof fn lemma_crop_ignores_drag_direction(
    a: AdditionalRenderingState,
    b: AdditionalRenderingState,
    offsets: (u32, u32),
    inner: (u32, u32),
)
    requires
        b.last_known_mouse_position == a.mouse_select_start,
        b.mouse_select_start == a.last_known_mouse_position,
        b.in_crop_selection == a.in_crop_selection,
        b.crop_button_pressed == a.crop_button_pressed,
        b.last_frame_size == a.last_frame_size,
    ensures
        crop_active(b, CropEndTriggeredFrom::MouseUp) == crop_active(
            a,
            CropEndTriggeredFrom::MouseUp,
        ),
        crop_completion_ok(b, offsets, CropEndTriggeredFrom::MouseUp, inner)
            == crop_completion_ok(a, offsets, CropEndTriggeredFrom::MouseUp, inner),
        spec_final_crop(b, offsets, CropEndTriggeredFrom::MouseUp, inner) == spec_final_crop(
            a,
            offsets,
            CropEndTriggeredFrom::MouseUp,
            inner,
        ),
{
    assert(selection_bounds(b, CropEndTriggeredFrom::MouseUp, inner) == selection_bounds(
        a,
        CropEndTriggeredFrom::MouseUp,
        inner,
    ));
    assert(selection_bounds(b, CropEndTriggeredFrom::EnterPress, inner) == selection_bounds(
        a,
        CropEndTriggeredFrom::EnterPress,
        inner,
    ));
}

/// A kept mouse-up crop spans the dragged rectangle, moved back by half the
/// selection margin: its near corner is the drag's near corner less the
/// margin (clamped at zero), and its far edge is the drag's far corner less
/// the margin (clamped at zero), cut at the frame's last pixel.
pub proof fn lemma_mouse_up_crop_spans_drag(
    a: AdditionalRenderingState,
    offsets: (u32, u32),
    inner: (u32, u32),
)
    requires
        crop_active(a, CropEndTriggeredFrom::MouseUp),
        crop_completion_ok(a, offsets, CropEndTriggeredFrom::MouseUp, inner),
        !too_small(spec_computed_crop(a, offsets, CropEndTriggeredFrom::MouseUp, inner)),
        a.mouse_select_start.0 <= i32::MAX,
        a.mouse_select_start.1 <= i32::MAX,
        a.last_known_mouse_position.0 <= i32::MAX,
        a.last_known_mouse_position.1 <= i32::MAX,
    ensures
        ({
            let c = spec_final_crop(a, offsets, CropEndTriggeredFrom::MouseUp, inner);
            let (px, py) = a.mouse_select_start;
            let (rx, ry) = a.last_known_mouse_position;
            let hx = (SELECTION_WINDOW_OFFSETS.0 / 2) as int;
            let hy = (SELECTION_WINDOW_OFFSETS.1 / 2) as int;
            let near_x = (if px <= rx { px } else { rx }) - hx;
            let far_x = (if px <= rx { rx } else { px }) - hx;
            let near_y = (if py <= ry { py } else { ry }) - hy;
            let far_y = (if py <= ry { ry } else { py }) - hy;
            let near_x0 = if near_x < 0 { 0 } else { near_x };
            let far_x0 = if far_x < 0 { 0 } else { far_x };
            let near_y0 = if near_y < 0 { 0 } else { near_y };
            let far_y0 = if far_y < 0 { 0 } else { far_y };
            &&& c.relative_to_window_position.x == near_x0
            &&& c.relative_to_window_position.y == near_y0
            &&& c.relative_to_window_position.x + c.size.width - 1 == if far_x0
                < a.last_frame_size.0 - 1 {
                far_x0
            } else {
                a.last_frame_size.0 - 1
            }
            &&& c.relative_to_window_position.y + c.size.height - 1 == if far_y0
                < a.last_frame_size.1 - 1 {
                far_y0
            } else {
                a.last_frame_size.1 - 1
            }
        }),
{
}

/// A crop ended by the enter key, or a mouse selection too small to keep,
/// covers the whole window: it starts at the frame's top-left corner and its
/// far edge is the window's far edge moved back by half the selection
/// margin, cut at the frame's last pixel.
pub proof fn lemma_enter_crop_spans_window(
    a: AdditionalRenderingState,
    offsets: (u32, u32),
    from: CropEndTriggeredFrom,
    inner: (u32, u32),
)
    requires
        crop_active(a, from),
        crop_completion_ok(a, offsets, from, inner),
        from == CropEndTriggeredFrom::EnterPress || too_small(
            spec_computed_crop(a, offsets, from, inner),
        ),
        inner.0 <= i32::MAX,
        inner.1 <= i32::MAX,
    ensures
        ({
            let c = spec_final_crop(a, offsets, from, inner);
            let far_x = inner.0 - (SELECTION_WINDOW_OFFSETS.0 / 2) as int;
            let far_y = inner.1 - (SELECTION_WINDOW_OFFSETS.1 / 2) as int;
            let far_x0 = if far_x < 0 { 0 } else { far_x };
            let far_y0 = if far_y < 0 { 0 } else { far_y };
            &&& c.relative_to_window_position.x == 0
            &&& c.relative_to_window_position.y == 0
            &&& c.relative_to_frame_position.x == offsets.0
            &&& c.relative_to_frame_position.y == offsets.1
            &&& c.size.width - 1 == if far_x0 < a.last_frame_size.0 - 1 {
                far_x0
            } else {
                a.last_frame_size.0 - 1
            }
            &&& c.size.height - 1 == if far_y0 < a.last_frame_size.1 - 1 {
                far_y0
            } else {
                a.last_frame_size.1 - 1
            }
        }),
{
}

/// While a crop is selected the frame is shown unscaled and centred in a
/// window with its title bar, over the crop colour, so that a window
/// position less half the selection margin is a frame position; once the
/// crop is complete the frame is scaled to a window without title bar that
/// follows the frame's aspect ratio.
pub proof fn lemma_selection_shows_frame_unscaled()
    ensures
        spec_crop_selection_layout().aspect_ratio == VideoAspect::MaintainAspectRatio(
            ScaleDecision::DontScale,
            WindowBehaviour::SizeSetByUser(VideoLocation::Center),
        ),
        spec_crop_selection_layout().display_title == TitleBarDisplay::TitleBarVisible,
        spec_crop_selection_layout().background == WindowBackground::CropColor,
        spec_cropped_layout().aspect_ratio == VideoAspect::MaintainAspectRatio(
            ScaleDecision::Scale,
            WindowBehaviour::SizeMatchesMirrorAspect,
        ),
        spec_cropped_layout().display_title == TitleBarDisplay::HiddenTitleBar,
{
}

} // verus!
