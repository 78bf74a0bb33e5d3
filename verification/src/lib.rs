//! Decision core of a Bluetooth Low Energy light-polling client.
//!
//! A run finds a nearby peripheral by its advertised name, connects to it,
//! looks up one characteristic by its 128-bit identifier and reads that
//! characteristic a fixed number of times at a fixed cadence. Everything that
//! touches the radio, the clock or the terminal is left to the caller: this
//! crate decides what is done next, and proves what it decides.
//!
//! - `config`: the options of a run and their defaults.
//! - `error`: the ways in which a run fails.
//! - `bleuuid`: short Bluetooth identifiers in their 128-bit form.
//! - `text`: lower case and substring search on advertised names.
//! - `scanner`: choosing the peripheral, `find_light`.
//! - `resolver`: finding the characteristic, `find_characteristic`.
//! - `run`: the run as a state machine, `step`.
//! - `replay`: a whole run over a given sequence of events.
//! - `laws`: what holds of every run, whatever the host reports.
//! - `outcomes`: what a scan and a polling come to, by what the host answers.

pub mod bleuuid;
pub mod config;
pub mod error;
pub mod laws;
pub mod outcomes;
pub mod replay;
pub mod resolver;
pub mod run;
pub mod scanner;
pub mod text;
