use fracture::pipewire_dbus::{
    cursor_mode_code, record_window_properties, CursorMode, PipeWireStreamCreated,
    PipewireStream, RecordWindowProperty,
};

#[test]
fn cursor_mode_codes() {
    assert_eq!(cursor_mode_code(CursorMode::Hidden), 0);
    assert_eq!(cursor_mode_code(CursorMode::Embedded), 1);
    assert_eq!(cursor_mode_code(CursorMode::Metadata), 2);
}

#[test]
fn hidden_cursor_is_left_out() {
    assert_eq!(
        record_window_properties(42, CursorMode::Hidden),
        vec![RecordWindowProperty::WindowId(42)]
    );
}

#[test]
fn visible_cursor_mode_is_sent() {
    let p = record_window_properties(7, CursorMode::Metadata);
    assert_eq!(p, vec![RecordWindowProperty::WindowId(7), RecordWindowProperty::CursorMode(2)]);
    assert_eq!(p[0].key(), "window-id");
    assert_eq!(p[1].key(), "cursor-mode");
}

struct Fixed(u32);

impl PipewireStream for Fixed {
    fn id(&self) -> u32 {
        self.0
    }
}

#[test]
fn stream_ids() {
    let created = PipeWireStreamCreated { pipewire_node_id: 77 };
    let s = Fixed(created.pipewire_node_id);
    assert_eq!(s.id(), 77);
}
