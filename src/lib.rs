//! Weather for a status bar: a unit-aware temperature algebra, the weather
//! model, the vendor response reader, the decisions of the on-disk cache and
//! the variables a display template sees.

pub mod text;
pub mod time;
pub mod temperature;
pub mod weather;
pub mod error;
pub mod template;
pub mod cache;
pub mod config;
pub mod yandex;
