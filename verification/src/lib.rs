//! The verified core of an editor's client telemetry, and of the list header
//! that its user interface draws.
//!
//! Everything here works on plain values. Clocks, timers, files, the network
//! and the widget toolkit belong to the program around the library, which
//! carries out what the functions below decide.

pub mod checksum;
pub mod dotnet;
pub mod event;
pub mod flush;
pub mod history;
pub mod list_header;
pub mod os;
pub mod project_types;
pub mod request;
pub mod telemetry;
pub mod text;
pub mod time;

