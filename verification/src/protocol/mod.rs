pub mod tus;
pub mod stream_download;
