// A minimal real-time frame-rendering engine: surface lifecycle and frame acquisition policy,
// a label-keyed resource registry, the renderer's init and per-frame refresh, the frame gate,
// and the event pump's decisions. Device and window calls stay with the caller.

pub mod device;
pub mod frame_timer;
pub mod layout;
pub mod pump;
pub mod registry;
pub mod renderer;
pub mod surface;
pub mod window;
