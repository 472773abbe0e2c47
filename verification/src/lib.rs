//! Hardware abstraction daemon library: device discovery over sysfs records,
//! screen frame validation, backlight brightness control, an IMU publisher
//! pipeline with a protobuf wire encoder, an HTTP route registry, and the
//! client-side renderer (pixel conversion, resize planning, color bars).
//!
//! The executable edges (sockets, files, subprocesses, signals) live in the
//! companion application crate; everything here is verified.

pub mod backlight;
pub mod client;
pub mod colorbar;
pub mod cover;
pub mod download;
pub mod ffmpeg;
pub mod imu;
pub mod json;
pub mod pixel;
pub mod proto;
pub mod publisher;
pub mod registry;
pub mod render;
pub mod routes;
pub mod scan;
pub mod screen;
pub mod strutil;
