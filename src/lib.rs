pub mod acp;
pub mod audio;
pub mod blitter;
pub mod bus;
pub mod cartridges;
pub mod emulator;
pub mod gamepad;
pub mod gates;
pub mod input;
pub mod laws;
pub mod registers;
pub mod session;
