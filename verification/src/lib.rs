//! Host-side logic for driving OpenHarmony devices and builds: the SDK layout
//! resolved from the environment, the `hdc`/`hvigor`/`ohpm` command lines the
//! tooling runs, and the decisions taken on what those commands report.

pub mod app;
pub mod command;
pub mod device;
pub mod env;
pub mod hdc;
pub mod ohpm;
pub mod opts;
pub mod path;
pub mod report;
pub mod std_io;
pub mod text;
