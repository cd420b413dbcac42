# fracture

The decision logic of a window mirror for GNOME, verified with Verus.

- `src/video_frame.rs`: finding the box of non-black pixels in a captured RGBA frame; stream format to texture format.
- `src/gpu.rs`: choosing the surface configuration from GPU capabilities and preference lists.
- `src/state.rs`, `src/window_cropping.rs`, `src/events_mouse.rs`: crop selection and pointer handling, as state changes plus requests to the window system.
- `src/shutdown.rs`: the bounded wait for the settings window to close.
- `src/install_ui.rs`: the installer's state, its window contents, and the channel to its tick loop.
- `src/pipewire_dbus.rs`: the properties of a window recording request.
- `app/`: winit, wgpu, D-Bus, desktop portal, PipeWire and GTK code that carries out what the library decides.
