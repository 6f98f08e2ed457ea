//! Window and input shim: platform events are translated into a small
//! unified event vocabulary, and a run flag decides when the
//! application's loop stops.

pub mod driver;
pub mod key;
pub mod window;

pub use driver::Driver;
pub use key::KeyCode;
pub use window::{ElementState, Event, KeyboardInput, PlatformEvent, WindowEvent};
