pub mod batch;
pub mod canvas;
pub mod config;
pub mod files;
pub mod position;
pub mod watermark;
