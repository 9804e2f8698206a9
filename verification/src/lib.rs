//! Coordination logic of a slow-movie wallpaper: which role a launched
//! process takes, how the persisted settings are read and changed, how the
//! external tools are invoked and answered, and the frame-advance cycle.
//!
//! Nothing here touches the machine. Every function maps plain values to
//! plain values; the program around the library performs the effects and
//! hands back what happened.

pub mod config;
pub mod coordinator;
pub mod errors;
pub mod form;
pub mod laws;
pub mod number;
pub mod run_gui;
pub mod scheduler;
pub mod utils;
pub mod video_process;

pub use config::{load, save_config, Config, Loaded, StoreRead, StoreWrite, Timetype};
pub use errors::Errors;
pub use utils::{delete_file, join, must_delete, strip_trailing_newline, Outcome, Platform, Probe};
pub use video_process::{
    frame_count_command, frame_picture_command, generate_frame_count, generate_frame_picture,
    Invocation, ToolRun,
};
