//! A break-reminder timer: the schedule shared by a clock and an input
//! handler, the rules by which each of them changes it, and the text of the
//! status lines that report those changes.

pub mod config;
pub mod key;
pub mod laws;
pub mod render;
pub mod shared;
pub mod time_format;
pub mod timer;

pub use config::TimerConfig;
pub use key::{Command, Key};
pub use render::status_line;
pub use shared::{ClockWrites, InputWrites, Pressed, SharedTimer, Ticked};
pub use time_format::format_time;
pub use timer::{Tick, TickAction, Timer};
