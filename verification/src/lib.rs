//! Builds a playlist document from the maps that are waiting in the ranking
//! queue: the data shapes, how queue entries become songs, the
//! progress of a generation run, and the rendering of the finished document.

pub mod app_data;
pub mod display;
pub mod embedded_image;
pub mod json;
pub mod output_path;
pub mod queue_generator;
pub mod text;
