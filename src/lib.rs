//! A desktop application shell: the application menu it installs, and the
//! window lifecycle in which closing a window hides it and only the Quit
//! action ends the process.

pub mod menu;
pub mod window;
pub mod session;
