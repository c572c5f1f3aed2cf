pub mod key;
pub mod text;
pub mod text_input;
pub mod url;
pub mod mime_type;
pub mod form_field;
pub mod form;
pub mod scroll_list;
pub mod image_protocol_cache;
pub mod image_cache;
pub mod types;
pub mod tags;
pub mod paths;
pub mod images;
pub mod tui;
pub mod clipboard;
pub mod error;
pub mod cli;
pub mod commands;
pub mod form_layout;
pub mod component;
pub mod laws;
pub mod editing_laws;
pub mod form_laws;
pub mod browser_laws;
