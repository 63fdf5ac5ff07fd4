//! From the entries of the ranking queue to the playlist document.

pub mod api_data;
pub mod document;
pub mod playlist_data;
pub mod ranked_queue_playlist_generator;
