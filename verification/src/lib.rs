//! Enumeration and filtering of capturable macOS content: windows, displays and the
//! applications that own them.
pub mod content;
pub mod error;
pub mod filter;
pub mod level;
pub mod text;
pub mod window;
