//! Request handling and page logic of a small development server for Unity
//! WebGL builds: MIME types, compressed-file headers, build-directory
//! detection, canvas-size detection, page rendering, port search and the
//! per-request serving decisions.

pub mod text;
pub mod content_type;
pub mod canvas;
pub mod page;
pub mod build_path;
pub mod port;
pub mod serve;
