//! State kept by an interactive escape-time fractal viewer: when each view
//! has to be drawn again, and which views are open.

pub mod render_cache;
pub mod windows;
