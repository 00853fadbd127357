//! Host-side logic of a one-window desktop shell: the greeting handed back
//! to the user interface, and the decisions that keep the window's title-bar
//! controls at a fixed offset.

pub mod chrome;
pub mod greeting;

pub use chrome::{
    on_window_event, on_window_events, startup_step, traffic_light_offset, Offset, Step,
    WindowEventKind, MAIN_WINDOW_LABEL, TRAFFIC_LIGHT_X, TRAFFIC_LIGHT_Y,
};
pub use greeting::greet;
