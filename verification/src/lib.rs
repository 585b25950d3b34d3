//! Bookkeeping for a set of floating countdown-timer windows.
//!
//! The crate decides; a window host carries out. Three concerns live here:
//!
//! * [`aspect`] pins the shape of a window: given the size the host reports
//!   after a resize, it says which size, if any, the window should take.
//! * [`ids`] hands out window labels that never collide, also across windows
//!   brought back from an earlier session.
//! * [`window`] plans the windows that the host is to build, new ones and
//!   those brought back, and reads what the host answers.
//!
//! Every function carries a contract that the verifier checks against its
//! body, and the laws that relate several functions are stated as public
//! proof functions next to them.

pub mod aspect;
pub mod ids;
pub mod window;
