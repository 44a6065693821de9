//! Decisions of a small desktop application host: how its configuration is
//! resolved, which file a request names, what the asset server answers and
//! how the window's event loop advances. Everything here works on plain
//! values; sockets, files and the window system stay with the caller.

pub mod assets;
pub mod config;
pub mod decimal;
pub mod flag;
pub mod launch;
pub mod loader;
pub mod protection;
pub mod text;
pub mod window;
