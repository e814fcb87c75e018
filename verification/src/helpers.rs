//! Helpers that build static geometry for the renderer.

pub mod init_edges;
