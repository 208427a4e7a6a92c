//! Core of a minimal desktop-overlay shell: the greeting formatter exposed to
//! the front end, and the model of the single application window whose
//! attributes the shell configures at startup and toggles afterwards.

pub mod greeting;
pub mod window;
