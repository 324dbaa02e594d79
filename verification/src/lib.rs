//! Loading and saving of configuration values as structured text.
//!
//! A configuration value lives in a file as UTF-8 text that a codec (JSON or
//! TOML) wrote. This crate holds the rules of that arrangement: how the bytes
//! of a file become text, how the answers of the file system and of the codec
//! become one result, and which bytes are written for a value. Files and
//! codecs themselves belong to the caller, who hands over what the file system
//! returned and, as a function, the codec to apply.
//!
//! - [`load_config`] and [`save_config`] are the two operations.
//! - [`read_text`] and [`decoded_value`] are the two steps of loading, for a
//!   caller that runs the codec itself.
//! - [`laws`] states what holds of saving and loading together.
pub mod error;
pub mod laws;
pub mod load;
pub mod save;
pub mod text;

pub use error::{ConfigError, ParseFailure};
pub use load::{decoded_value, load_config, read_text};
pub use save::save_config;
