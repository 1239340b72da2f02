//! Bangla clock screensaver: calendar conversion, clock text and settings logic.
pub mod bangla_date;
pub mod calendar;
pub mod clock;
pub mod config;
pub mod launcher;
pub mod raster;
pub mod screensaver;
pub mod settings;
pub mod text;
