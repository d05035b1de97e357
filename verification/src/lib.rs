//! Rendering core of the `mew` terminal dashboard: the text measurement
//! helpers, the status formatters and the two card layouts, with their
//! contracts and the frame laws proved over a model of ANSI-coloured text.

pub mod text;
pub mod theme;
pub mod git;
pub mod env;
pub mod widgets;
pub mod frame;
pub mod render;
pub mod laws;
pub mod dashboard;
pub mod system;
pub mod telemetry;
pub mod status_laws;
