//! Sale transaction engine and page navigation for a single-register
//! point-of-sale terminal.
pub mod decimal;
pub mod event;
pub mod item;
pub mod keys;
pub mod laws;
pub mod sale;
pub mod setting;
pub mod state;
pub mod widget;
