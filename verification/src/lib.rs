//! Temperature-driven fan control for out-of-band managed servers.
//!
//! The library holds the decisions of a control cycle; reading files, talking
//! to the network and running threads is left to the program around it.
//!
//! * [`config`]: the configuration and its validation
//! * [`threshold`]: from a temperature to an 8-bit fan control value
//! * [`fans`]: from a fan target to fan indices
//! * [`gen_ssh`]: the command text sent to a controller
//! * [`cputemp`]: readings, and the parser of the thermal report
//! * [`report`]: a thermal report as plain values, and the reading it holds
//! * [`json`]: access to a parsed JSON document
//! * [`words`]: the number at the end of a sensor's name
//! * [`ssh`]: credentials, algorithm preferences and the session protocol
//! * [`controller`]: the decisions of one host's cycle
//! * [`orchestrator`]: the result of a cycle over every host
//! * [`cmds`]: checking a configuration file, the sample configuration

pub mod cmds;
pub mod config;
pub mod controller;
pub mod cputemp;
pub mod fans;
pub mod gen_ssh;
pub mod json;
pub mod orchestrator;
pub mod report;
pub mod ssh;
pub mod threshold;
pub mod words;
