pub mod emulator;
pub mod emulator_laws;
pub mod foreground;
pub mod foreground_laws;
pub mod forwarder;
pub mod forwarder_laws;
pub mod size;
