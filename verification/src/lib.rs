pub mod app;
pub mod autocomplete;
pub mod buffer;
pub mod editor;
pub mod text;
