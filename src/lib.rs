//! The core of a terminal file browser.
//!
//! - `task_manager` and `fs_ops`: filesystem mutations tracked as tasks whose
//!   statuses follow the progress events of their executions.
//! - `preview` and `raster`: staged (thumbnail, then final) preview requests
//!   and the rule by which their results reach the current selection.
//! - `kitty`: the Kitty graphics protocol encoder that paints a raster.
//! - `app_state`, `clipboard`, `config`, `keys`, `icons`: the browser state
//!   that drives them, its key bindings and its listing.
//! - `three_column`: the state of the three-column browser.
//! - `paths`: the standard library's path operations over text paths.

mod ids;
pub mod app_state;
pub mod clipboard;
pub mod config;
pub mod fs_ops;
pub mod icons;
pub mod keys;
pub mod kitty;
pub mod paths;
pub mod preview;
pub mod raster;
pub mod task_manager;
pub mod three_column;
