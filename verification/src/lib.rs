//! Window-mirroring logic: content detection in captured frames, GPU
//! capability selection, crop selection, pointer interaction, shutdown
//! sequencing, installer state, and the screen-cast request model.
pub mod defaults;
pub mod events_mouse;
pub mod gpu;
pub mod install_channel;
pub mod install_ui;
pub mod pipewire_dbus;
pub mod shutdown;
pub mod state;
pub mod video_frame;
pub mod window_cropping;
