//! The session behind the native provider: every decision of connecting,
//! reading and writing, with the native calls left to the embedder.

pub mod laws;
pub mod pair;
pub mod session;
pub mod state;
pub mod utils;
