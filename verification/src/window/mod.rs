//! The windows of the application: which are live, and how the
//! application moves between its sign-in surface and its main surface.

pub mod controller;
pub mod laws;
pub mod registry;
pub mod types;

pub use controller::{Demand, WindowLifecycleController};
pub use registry::WindowRegistry;
pub use types::{
    auth_window_spec, main_window_spec, WindowAction, WindowError, WindowHandle, WindowOp,
    WindowReply, WindowSpec, WindowState, WindowStep, AUTH_LABEL, MAIN_LABEL,
};
