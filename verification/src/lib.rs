//! The decision logic of a desktop monitor query, kept apart from the
//! platform calls it directs.

pub mod desktop_work_area;
pub mod error;
pub mod measure;
pub mod monitor;
pub mod platform;
pub mod text;
pub mod window;
pub mod work_area;
