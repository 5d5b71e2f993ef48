pub mod audio_api;
pub mod images_api;
pub mod text_api;
