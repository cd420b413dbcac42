//! Pointer handling of the mirror window: window resizing from its borders
//! when the title bar is hidden, the window menu, and crop selection.
use vstd::prelude::*;
use crate::state::{
    AdditionalRenderingState, CursorIcon, LayoutSettings, ResizeDirection, State, TitleBarDisplay,
    VideoAspect, WindowBehaviour, WindowRequest,
};
use crate::window_cropping::{
    crop_active, crop_completion_ok, crop_completion_possible, if_in_crop_complete_crop,
    spec_final_crop, CropEndTriggeredFrom,
};
use crate::state::spec_cropped_layout;

verus! {

/// The window edge or corner that a press of the left button would drag.
#[derive(Debug, Clone, Copy, PartialEq, Eq, Structural)]
pub enum ResizeInteractionsState {
    NoResize,
    NwResize,
    SwResize,
    NeResize,
    SeResize,
    North,
    South,
    East,
    West,
}

/// Mouse buttons the window tells apart.
#[derive(Debug, Clone, Copy, PartialEq, Eq, Structural)]
pub enum MouseButton {
    Left,
    Right,
    Other,
}

/// Pointer events of the mirror window. `CursorMoved` carries the pointer
/// position rounded to whole pixels; `Other` is any other window event.
#[derive(Debug, Clone, Copy, PartialEq, Eq, Structural)]
pub enum MouseEvent {
    Pressed(MouseButton),
    Released(MouseButton),
    CursorMoved(u32, u32),
    CursorEntered,
    CursorLeft,
    Other,
}

/// Width, in pixels, of the window border that resizes the window.
pub const RESIZE_BORDER: u32 = 10;

/// The window follows the frame's aspect ratio, so only its corners resize it.
pub open spec fn follows_mirror_aspect(settings: LayoutSettings) -> bool {
    settings.aspect_ratio matches VideoAspect::MaintainAspectRatio(
        _,
        WindowBehaviour::SizeMatchesMirrorAspect,
    )
}

/// The pointer shape and the drag that a pointer at (x, y) in a window of
/// size w x h selects: with the title bar hidden, the corners (10 pixels)
/// resize diagonally, and, unless the window follows the frame's aspect
/// ratio, the side borders resize horizontally and the top and bottom
/// borders vertically; anywhere else, or with the title bar shown, nothing.
pub open spec fn spec_cursor_zone(x: int, y: int, w: int, h: int, settings: LayoutSettings) -> (
    CursorIcon,
    ResizeInteractionsState,
) {
    let r = RESIZE_BORDER as int;
    if settings.display_title != TitleBarDisplay::HiddenTitleBar {
        (CursorIcon::Default, ResizeInteractionsState::NoResize)
    } else if x < r && y < r {
        (CursorIcon::NwResize, ResizeInteractionsState::NwResize)
    } else if x < r && y > h - r {
        (CursorIcon::SwResize, ResizeInteractionsState::SwResize)
    } else if y < r && x > w - r {
        (CursorIcon::NeResize, ResizeInteractionsState::NeResize)
    } else if y > h - r && x > w - r {
        (CursorIcon::SeResize, ResizeInteractionsState::SeResize)
    } else if follows_mirror_aspect(settings) {
        (CursorIcon::Default, ResizeInteractionsState::NoResize)
    } else if x < r || x > w - r || y < r || y > h - r {
        if x < r || x > w - r {
            (
                CursorIcon::ColResize,
                if x < r {
                    ResizeInteractionsState::West
                } else {
                    ResizeInteractionsState::East
                },
            )
        } else {
            (
                CursorIcon::RowResize,
                if y < r {
                    ResizeInteractionsState::North
                } else {
                    ResizeInteractionsState::South
                },
            )
        }
    } else {
        (CursorIcon::Default, ResizeInteractionsState::NoResize)
    }
}

/// Deciding the zone never subtracts the border from a window side shorter
/// than the border.
pub open spec fn cursor_zone_defined(x: int, y: int, w: int, h: int, settings: LayoutSettings) -> bool {
    let r = RESIZE_BORDER as int;
    ||| settings.display_title != TitleBarDisplay::HiddenTitleBar
    ||| (x < r && y < r)
    ||| {
        &&& x < r ==> h >= r
        &&& (x < r && y > h - r) || {
            &&& y < r ==> w >= r
            &&& (y < r && x > w - r) || {
                &&& h >= r
                &&& y > h - r ==> w >= r
                &&& (y > h - r && x > w - r) || follows_mirror_aspect(settings) || (x >= r ==> w
                    >= r)
            }
        }
    }
}

/// The window edge or corner dragged from a resize state.
pub open spec fn spec_resize_direction(s: ResizeInteractionsState) -> ResizeDirection {
    match s {
        ResizeInteractionsState::NwResize => ResizeDirection::NorthWest,
        ResizeInteractionsState::SwResize => ResizeDirection::SouthWest,
        ResizeInteractionsState::NeResize => ResizeDirection::NorthEast,
        ResizeInteractionsState::SeResize => ResizeDirection::SouthEast,
        ResizeInteractionsState::North => ResizeDirection::North,
        ResizeInteractionsState::South => ResizeDirection::South,
        ResizeInteractionsState::East => ResizeDirection::East,
        _ => ResizeDirection::West,
    }
}

/// The pointer shape that goes with a resize state.
pub open spec fn spec_icon_for(s: ResizeInteractionsState) -> CursorIcon {
    match s {
        ResizeInteractionsState::NoResize => CursorIcon::Default,
        ResizeInteractionsState::NwResize => CursorIcon::NwResize,
        ResizeInteractionsState::SwResize => CursorIcon::SwResize,
        ResizeInteractionsState::NeResize => CursorIcon::NeResize,
        ResizeInteractionsState::SeResize => CursorIcon::SeResize,
        ResizeInteractionsState::East | ResizeInteractionsState::West => CursorIcon::ColResize,
        ResizeInteractionsState::North | ResizeInteractionsState::South => CursorIcon::RowResize,
    }
}

fn follows_aspect(settings: LayoutSettings) -> (b: bool)
    ensures
        b == follows_mirror_aspect(settings),
{
    match settings.aspect_ratio {
        VideoAspect::MaintainAspectRatio(_, WindowBehaviour::SizeMatchesMirrorAspect) => true,
        _ => false,
    }
}

fn cursor_zone(x: u32, y: u32, width: u32, height: u32, settings: LayoutSettings) -> (r: (
    CursorIcon,
    ResizeInteractionsState,
))
    requires
        cursor_zone_defined(x as int, y as int, width as int, height as int, settings),
    ensures
        r == spec_cursor_zone(x as int, y as int, width as int, height as int, settings),
{
    let resize = RESIZE_BORDER;
    if settings.display_title == TitleBarDisplay::HiddenTitleBar {
        if x < resize && y < resize {
            (CursorIcon::NwResize, ResizeInteractionsState::NwResize)
        } else if x < resize && y > height - resize {
            (CursorIcon::SwResize, ResizeInteractionsState::SwResize)
        } else if y < resize && x > width - resize {
            (CursorIcon::NeResize, ResizeInteractionsState::NeResize)
        } else if y > height - resize && x > width - resize {
            (CursorIcon::SeResize, ResizeInteractionsState::SeResize)
        } else {
            if follows_aspect(settings) {
                (CursorIcon::Default, ResizeInteractionsState::NoResize)
            } else {
                if x < resize || x > width - resize || y < resize || y > height - resize {
                    if x < resize || x > width - resize {
                        if x < resize {
                            (CursorIcon::ColResize, ResizeInteractionsState::West)
                        } else {
                            (CursorIcon::ColResize, ResizeInteractionsState::East)
                        }
                    } else {
                        if y < resize {
                            (CursorIcon::RowResize, ResizeInteractionsState::North)
                        } else {
                            (CursorIcon::RowResize, ResizeInteractionsState::South)
                        }
                    }
                } else {
                    (CursorIcon::Default, ResizeInteractionsState::NoResize)
                }
            }
        }
    } else {
        (CursorIcon::Default, ResizeInteractionsState::NoResize)
    }
}

/// Records a pointer move to `position` in a window of size `inner_size`
/// and picks the pointer shape and resize state for it.
pub fn on_cursor_movements(
    additional_state: &mut AdditionalRenderingState,
    position: (u32, u32),
    inner_size: (u32, u32),
) -> (requests: Vec<WindowRequest>)
    requires
        cursor_zone_defined(
            position.0 as int,
            position.1 as int,
            inner_size.0 as int,
            inner_size.1 as int,
            old(additional_state).settings_state,
        ),
    ensures
        ({
            let z = spec_cursor_zone(
                position.0 as int,
                position.1 as int,
                inner_size.0 as int,
                inner_size.1 as int,
                old(additional_state).settings_state,
            );
            &&& *final(additional_state) == (AdditionalRenderingState {
                keep_borders: false,
                last_known_mouse_position: position,
                mouse_resize_state: z.1,
                ..*old(additional_state)
            })
            &&& requests@ == seq![WindowRequest::SetCursor(z.0)]
        }),
{
    additional_state.keep_borders = false;
    additional_state.last_known_mouse_position = position;
    let (width, height) = inner_size;
    let (x, y) = position;
    let (icon, resize_state) = cursor_zone(x, y, width, height, additional_state.settings_state);
    additional_state.mouse_resize_state = resize_state;
    let mut requests: Vec<WindowRequest> = Vec::new();
    requests.push(WindowRequest::SetCursor(icon));
    requests
}

fn resize_direction(s: ResizeInteractionsState) -> (d: ResizeDirection)
    ensures
        d == spec_resize_direction(s),
{
    match s {
        ResizeInteractionsState::NwResize => ResizeDirection::NorthWest,
        ResizeInteractionsState::SwResize => ResizeDirection::SouthWest,
        ResizeInteractionsState::NeResize => ResizeDirection::NorthEast,
        ResizeInteractionsState::SeResize => ResizeDirection::SouthEast,
        ResizeInteractionsState::North => ResizeDirection::North,
        ResizeInteractionsState::South => ResizeDirection::South,
        ResizeInteractionsState::East => ResizeDirection::East,
        _ => ResizeDirection::West,
    }
}

/// What a pointer event does to the pointer state, and the requests it
/// makes, for a window of size `inner_size` at time `now`.
pub open spec fn mouse_event_effect(
    event: MouseEvent,
    state: State,
    inner_size: (u32, u32),
    now: u64,
    pre: AdditionalRenderingState,
    post: AdditionalRenderingState,
    requests: Seq<WindowRequest>,
) -> bool {
    let pos = pre.last_known_mouse_position;
    match event {
        MouseEvent::Pressed(MouseButton::Left) => if pre.mouse_resize_state
            == ResizeInteractionsState::NoResize {
            &&& post == (AdditionalRenderingState {
                keep_borders: false,
                mouse_downs: post.mouse_downs,
                in_crop_selection: pre.in_crop_selection || pre.crop_button_pressed,
                mouse_is_down: true,
                mouse_select_start: pos,
                ..pre
            })
            &&& post.mouse_downs@ == pre.mouse_downs@.push((pos, now))
            &&& requests == Seq::<WindowRequest>::empty()
        } else {
            &&& post == (AdditionalRenderingState { keep_borders: true, ..pre })
            &&& requests == seq![
                WindowRequest::DragResize(spec_resize_direction(pre.mouse_resize_state)),
            ]
        },
        MouseEvent::Pressed(MouseButton::Right) => {
            &&& post == pre
            &&& requests == seq![WindowRequest::ShowWindowMenu(pos.0, pos.1)]
        },
        MouseEvent::Released(MouseButton::Left) => {
            &&& post.mouse_clicks@ == pre.mouse_clicks@.push((pos, now))
            &&& if crop_active(pre, CropEndTriggeredFrom::MouseUp) {
                let c = spec_final_crop(
                    pre,
                    state.last_reported_offsets,
                    CropEndTriggeredFrom::MouseUp,
                    inner_size,
                );
                &&& post == (AdditionalRenderingState {
                    mouse_clicks: post.mouse_clicks,
                    mouse_is_down: false,
                    cropped: Some(c),
                    settings_state: spec_cropped_layout(),
                    new_settings: true,
                    in_crop_selection: false,
                    crop_button_pressed: false,
                    ..pre
                })
                &&& requests == seq![
                    WindowRequest::RequestInnerSize(c.size.width, c.size.height),
                    WindowRequest::SendSettings(spec_cropped_layout()),
                ]
            } else {
                &&& post == (AdditionalRenderingState {
                    mouse_clicks: post.mouse_clicks,
                    mouse_is_down: false,
                    ..pre
                })
                &&& requests == Seq::<WindowRequest>::empty()
            }
        },
        MouseEvent::CursorMoved(x, y) => {
            let z = spec_cursor_zone(
                x as int,
                y as int,
                inner_size.0 as int,
                inner_size.1 as int,
                pre.settings_state,
            );
            &&& post == (AdditionalRenderingState {
                keep_borders: false,
                last_known_mouse_position: (x, y),
                mouse_resize_state: z.1,
                ..pre
            })
            &&& requests == seq![WindowRequest::SetCursor(z.0)]
        },
        MouseEvent::CursorEntered => {
            &&& post == (AdditionalRenderingState { mouse_over_screen: true, ..pre })
            &&& requests == Seq::<WindowRequest>::empty()
        },
        MouseEvent::CursorLeft => {
            &&& post == (AdditionalRenderingState {
                mouse_over_screen: false,
                mouse_is_down: false,
                ..pre
            })
            &&& requests == Seq::<WindowRequest>::empty()
        },
        _ => {
            &&& post == pre
            &&& requests == Seq::<WindowRequest>::empty()
        },
    }
}

/// The event can be handled: a left release completes the crop safely and a
/// pointer move decides its zone without underflow.
pub open spec fn mouse_event_ok(
    event: MouseEvent,
    state: State,
    inner_size: (u32, u32),
    a: AdditionalRenderingState,
) -> bool {
    match event {
        MouseEvent::Released(MouseButton::Left) => crop_completion_ok(
            a,
            state.last_reported_offsets,
            CropEndTriggeredFrom::MouseUp,
            inner_size,
        ),
        MouseEvent::CursorMoved(x, y) => cursor_zone_defined(
            x as int,
            y as int,
            inner_size.0 as int,
            inner_size.1 as int,
            a.settings_state,
        ),
        _ => true,
    }
}

/// Handles a pointer event of the mirror window whose inner size is
/// `inner_size`, at time `now` (milliseconds of the system clock): a left
/// press starts a drag-resize from a border or else records the press and
/// starts a selection; a right press opens the window menu; a left release
/// records the click and ends a crop selection; a move updates the pointer
/// position, shape and resize state; entering and leaving are recorded.
pub fn on_mouse_events(
    event: MouseEvent,
    state: &State,
    inner_size: (u32, u32),
    now: u64,
    additional_state: &mut AdditionalRenderingState,
) -> (requests: Vec<WindowRequest>)
    requires
        mouse_event_ok(event, *state, inner_size, *old(additional_state)),
    ensures
        mouse_event_effect(
            event,
            *state,
            inner_size,
            now,
            *old(additional_state),
            *final(additional_state),
            requests@,
        ),
{
    match event {
        MouseEvent::Pressed(MouseButton::Left) => {
            additional_state.keep_borders = true;
            match additional_state.mouse_resize_state {
                ResizeInteractionsState::NoResize => {
                    additional_state.keep_borders = false;
                    let pos = additional_state.last_known_mouse_position;
                    additional_state.mouse_downs.push((pos, now));
                    if additional_state.crop_button_pressed {
                        additional_state.in_crop_selection = true;
                    }
                    additional_state.mouse_is_down = true;
                    additional_state.mouse_select_start = pos;
                    Vec::new()
                },
                s => {
                    let mut requests: Vec<WindowRequest> = Vec::new();
                    requests.push(WindowRequest::DragResize(resize_direction(s)));
                    requests
                },
            }
        },
        MouseEvent::Pressed(MouseButton::Right) => {
            let (x, y) = additional_state.last_known_mouse_position;
            let mut requests: Vec<WindowRequest> = Vec::new();
            requests.push(WindowRequest::ShowWindowMenu(x, y));
            requests
        },
        MouseEvent::Released(MouseButton::Left) => {
            let pos = additional_state.last_known_mouse_position;
            additional_state.mouse_clicks.push((pos, now));
            additional_state.mouse_is_down = false;
            if_in_crop_complete_crop(
                additional_state,
                state,
                CropEndTriggeredFrom::MouseUp,
                inner_size,
            )
        },
        MouseEvent::CursorMoved(x, y) => { on_cursor_movements(additional_state, (x, y), inner_size)
        },
        MouseEvent::CursorEntered => {
            additional_state.mouse_over_screen = true;
            Vec::new()
        },
        MouseEvent::CursorLeft => {
            additional_state.mouse_over_screen = false;
            additional_state.mouse_is_down = false;
            Vec::new()
        },
        _ => Vec::new(),
    }
}

/// The pointer shape always matches the resize state: a corner's diagonal
/// arrow for its corner, a column arrow for the side borders, a row arrow
/// for the top and bottom borders, and the default pointer when nothing
/// resizes. With the title bar shown nothing resizes.
pub proof fn lemma_cursor_icon_matches_resize_state(
    x: int,
    y: int,
    w: int,
    h: int,
    settings: LayoutSettings,
)
    ensures
        spec_cursor_zone(x, y, w, h, settings).0 == spec_icon_for(
            spec_cursor_zone(x, y, w, h, settings).1,
        ),
        settings.display_title == TitleBarDisplay::TitleBarVisible ==> spec_cursor_zone(
            x,
            y,
            w,
            h,
            settings,
        ).1 == ResizeInteractionsState::NoResize,
{
}

/// Whether the pointer zone of (x, y) in a window of size w x h can be
/// decided without subtracting the border from a shorter window side.
pub fn cursor_zone_computable(x: u32, y: u32, width: u32, height: u32, settings: LayoutSettings) -> (b:
    bool)
    ensures
        b == cursor_zone_defined(x as int, y as int, width as int, height as int, settings),
{
    let r = RESIZE_BORDER as i64;
    let (x, y, w, h) = (x as i64, y as i64, width as i64, height as i64);
    if settings.display_title != TitleBarDisplay::HiddenTitleBar || (x < r && y < r) {
        return true;
    }
    if x < r && h < r {
        return false;
    }
    if x < r && y > h - r {
        return true;
    }
    if y < r && w < r {
        return false;
    }
    if y < r && x > w - r {
        return true;
    }
    if h < r {
        return false;
    }
    if y > h - r && w < r {
        return false;
    }
    (y > h - r && x > w - r) || follows_aspect(settings) || !(x >= r && w < r)
}

/// Whether `on_mouse_events` can handle the event: a left release can
/// complete the crop, and a pointer move can decide its zone.
pub fn mouse_event_possible(
    event: MouseEvent,
    state: &State,
    inner_size: (u32, u32),
    additional_state: &AdditionalRenderingState,
) -> (b: bool)
    ensures
        b == mouse_event_ok(event, *state, inner_size, *additional_state),
{
    match event {
        MouseEvent::Released(MouseButton::Left) => crop_completion_possible(
            additional_state,
            state,
            CropEndTriggeredFrom::MouseUp,
            inner_size,
        ),
        MouseEvent::CursorMoved(x, y) => cursor_zone_computable(
            x,
            y,
            inner_size.0,
            inner_size.1,
            additional_state.settings_state,
        ),
        _ => true,
    }
}

/// The drag moves the window's west edge.
pub open spec fn drags_west(d: ResizeDirection) -> bool {
    d == ResizeDirection::NorthWest || d == ResizeDirection::SouthWest || d == ResizeDirection::West
}

/// The drag moves the window's east edge.
pub open spec fn drags_east(d: ResizeDirection) -> bool {
    d == ResizeDirection::NorthEast || d == ResizeDirection::SouthEast || d == ResizeDirection::East
}

/// The drag moves the window's north edge.
pub open spec fn drags_north(d: ResizeDirection) -> bool {
    d == ResizeDirection::NorthWest || d == ResizeDirection::NorthEast || d == ResizeDirection::North
}

/// The drag moves the window's south edge.
pub open spec fn drags_south(d: ResizeDirection) -> bool {
    d == ResizeDirection::SouthWest || d == ResizeDirection::SouthEast || d == ResizeDirection::South
}

/// A left press in a resize zone drags the edges the pointer is on: a
/// western drag only from the left border, an eastern one only from the
/// right border, a northern one only from the top border and a southern one
/// only from the bottom border; and every resize zone drags some edge.
pub proof fn lemma_drag_follows_pointer_zone(
    x: int,
    y: int,
    w: int,
    h: int,
    settings: LayoutSettings,
)
    ensures
        ({
            let st = spec_cursor_zone(x, y, w, h, settings).1;
            let d = spec_resize_direction(st);
            let r = RESIZE_BORDER as int;
            st != ResizeInteractionsState::NoResize ==> {
                &&& drags_west(d) ==> x < r
                &&& drags_east(d) ==> x > w - r
                &&& drags_north(d) ==> y < r
                &&& drags_south(d) ==> y > h - r
                &&& drags_west(d) || drags_east(d) || drags_north(d) || drags_south(d)
            }
        }),
{
}

/// Different resize zones drag different edges or corners.
pub proof fn lemma_resize_direction_distinct(s1: ResizeInteractionsState, s2: ResizeInteractionsState)
    requires
        s1 != ResizeInteractionsState::NoResize,
        s2 != ResizeInteractionsState::NoResize,
        s1 != s2,
    ensures
        spec_resize_direction(s1) != spec_resize_direction(s2),
{
}

/// With the title bar hidden, each corner square of the border resizes from
/// that corner, and, unless the window follows the frame's aspect ratio,
/// the rest of each border strip resizes from that side; the inside of the
/// window never resizes, nor does any point while the title bar is shown.
pub proof fn lemma_border_zones_resize_their_edge(
    x: int,
    y: int,
    w: int,
    h: int,
    settings: LayoutSettings,
)
    ensures
        ({
            let r = RESIZE_BORDER as int;
            let z = spec_cursor_zone(x, y, w, h, settings).1;
            let west = x < r;
            let east = !west && x > w - r;
            let north = y < r;
            let south = !north && y > h - r;
            let hidden = settings.display_title == TitleBarDisplay::HiddenTitleBar;
            &&& !hidden ==> z == ResizeInteractionsState::NoResize
            &&& !(x < r || x > w - r || y < r || y > h - r) ==> z
                == ResizeInteractionsState::NoResize
            &&& hidden && west && north ==> z == ResizeInteractionsState::NwResize
            &&& hidden && west && south ==> z == ResizeInteractionsState::SwResize
            &&& hidden && east && north ==> z == ResizeInteractionsState::NeResize
            &&& hidden && east && south ==> z == ResizeInteractionsState::SeResize
            &&& hidden && !follows_mirror_aspect(settings) && !north && !south ==> {
                &&& west ==> z == ResizeInteractionsState::West
                &&& east ==> z == ResizeInteractionsState::East
            }
            &&& hidden && !follows_mirror_aspect(settings) && !west && !east ==> {
                &&& north ==> z == ResizeInteractionsState::North
                &&& south ==> z == ResizeInteractionsState::South
            }
        }),
{
}

/// A window that follows the frame's aspect ratio resizes only from its
/// corners: away from the four corner squares the pointer is the default
/// one and nothing resizes, and only corner zones are ever chosen.
pub proof fn lemma_aspect_locked_window_resizes_at_corners(
    x: int,
    y: int,
    w: int,
    h: int,
    settings: LayoutSettings,
)
    requires
        follows_mirror_aspect(settings),
    ensures
        ({
            let r = RESIZE_BORDER as int;
            let z = spec_cursor_zone(x, y, w, h, settings);
            &&& !((x < r || x > w - r) && (y < r || y > h - r)) ==> z == (
                CursorIcon::Default,
                ResizeInteractionsState::NoResize,
            )
            &&& z.1 == ResizeInteractionsState::NoResize || z.1 == ResizeInteractionsState::NwResize
                || z.1 == ResizeInteractionsState::SwResize || z.1
                == ResizeInteractionsState::NeResize || z.1 == ResizeInteractionsState::SeResize
        }),
{
}

} // verus!
