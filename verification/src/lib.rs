//! Verified core of a command-line tool that renders QR codes as terminal
//! text or PNG images and keeps user-scoped default settings (the Active
//! Context).

pub mod text;

pub mod formats;
pub mod context;
pub mod help;
pub mod error;
pub mod qr;
pub mod run;
pub mod commands;
pub mod laws;

pub use formats::RenderMode;
