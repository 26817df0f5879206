//! Core of an ESC/POS receipt-printer emulator: the printer state machine that
//! turns printer commands into receipt lines, the emulator that keeps a bounded
//! command history and per-device receipts, and the text logic behind the
//! command log, the save log and the settings.

pub mod config;
pub mod emulator;
pub mod escpos;
pub mod export;
pub mod gui;
pub mod text;
