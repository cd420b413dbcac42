//! What the mirror asks of the screen-cast services: the properties of a
//! window recording and the identity of the PipeWire stream it yields.
use vstd::prelude::*;

verus! {

/// How the pointer appears in the recorded stream.
#[derive(Debug, Clone, Copy, PartialEq, Eq, Structural)]
pub enum CursorMode {
    /// The pointer is not included in the stream.
    Hidden,
    /// The pointer is drawn into the frames.
    Embedded,
    /// The pointer travels as metadata of the PipeWire stream.
    Metadata,
}

/// The number that GNOME's screen-cast interface uses for a cursor mode.
pub open spec fn spec_cursor_mode_code(m: CursorMode) -> u32 {
    match m {
        CursorMode::Hidden => 0,
        CursorMode::Embedded => 1,
        CursorMode::Metadata => 2,
    }
}

/// The number that GNOME's screen-cast interface uses for a cursor mode.
pub fn cursor_mode_code(m: CursorMode) -> (r: u32)
    ensures
        r == spec_cursor_mode_code(m),
{
    match m {
        CursorMode::Hidden => 0,
        CursorMode::Embedded => 1,
        CursorMode::Metadata => 2,
    }
}

/// One entry of the properties of a window recording request.
#[derive(Debug, Clone, Copy, PartialEq, Eq, Structural)]
pub enum RecordWindowProperty {
    /// `"window-id"`, sent as a 64-bit unsigned integer.
    WindowId(u64),
    /// `"cursor-mode"`, sent as a 32-bit unsigned integer.
    CursorMode(u32),
}

impl RecordWindowProperty {
    /// The property's key in the request.
    pub fn key(&self) -> (k: &'static str)
        ensures
            k@ == match self {
                RecordWindowProperty::WindowId(_) => "window-id"@,
                RecordWindowProperty::CursorMode(_) => "cursor-mode"@,
            },
    {
        match self {
            RecordWindowProperty::WindowId(_) => "window-id",
            RecordWindowProperty::CursorMode(_) => "cursor-mode",
        }
    }
}

/// The properties of a request to record the window `window_id`: its id,
/// and the cursor mode unless it is the default (hidden).
pub fn record_window_properties(window_id: u32, cursor_mode: CursorMode) -> (r: Vec<
    RecordWindowProperty,
>)
    ensures
        r@ == if cursor_mode == CursorMode::Hidden {
            seq![RecordWindowProperty::WindowId(window_id as u64)]
        } else {
            seq![
                RecordWindowProperty::WindowId(window_id as u64),
                RecordWindowProperty::CursorMode(spec_cursor_mode_code(cursor_mode)),
            ]
        },
{
    let mut m: Vec<RecordWindowProperty> = Vec::new();
    m.push(RecordWindowProperty::WindowId(window_id as u64));
    match cursor_mode {
        CursorMode::Hidden => {},
        value => {
            m.push(RecordWindowProperty::CursorMode(cursor_mode_code(value)));
        },
    }
    m
}

/// A screen-cast stream, known by its PipeWire node id.
pub trait PipewireStream {
    fn id(&self) -> u32;
}

/// The signal announcing the PipeWire node of a started recording.
#[derive(Debug, Clone, Copy, PartialEq, Eq, Structural)]
pub struct PipeWireStreamCreated {
    pub pipewire_node_id: u32,
}

} // verus!
