//! The daemon as a service of the operating system: what goes into its unit
//! file, where the file is installed, and the commands that start and stop
//! the service.

pub mod linux;
pub mod macos;
