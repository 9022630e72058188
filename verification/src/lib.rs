//! Desktop-environment-aware tab control for a Linux terminal emulator.
//!
//! Given the detected desktop environment, this library selects the external
//! inter-process call that creates a new tab or switches to the next or
//! previous tab, and interprets the outcome of that call. Reading the session
//! environment variable and spawning the external processes are left to the
//! embedding program; the library works on the plain values they produce.

pub mod detect;
pub mod dispatch;
pub mod model;
pub mod registry;
pub mod text;

pub use detect::detect_desktop_environment;
pub use dispatch::dispatch_outcome;
pub use dispatch::DispatchFailure;
pub use dispatch::ProcessOutcome;
pub use model::DesktopEnvironment;
pub use model::TabAction;
pub use registry::CallTemplate;
pub use registry::Registry;
