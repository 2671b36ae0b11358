//! Orchestration of a four-stage HDR image pipeline built from external
//! command-line tools.
//!
//! A set of bracketed exposures becomes one calibrated, cropped and resized
//! HDR image in four stages: merge, nullify, crop, resize. Each stage runs
//! one external tool, reads the file the stage before it wrote and writes a
//! file of its own; the first stage that fails ends the run.
//!
//! The library holds every decision of such a run and starts no process
//! itself:
//!
//! * [`stage`] names the stages, their order and their files;
//! * [`config`] holds the tool and working directories;
//! * [`decimal`] reads and writes pixel counts;
//! * [`command`] builds the command line of each stage;
//! * [`outcome`] turns the way a tool ended into the result of its stage;
//! * [`pipeline`] sequences the stages as a state machine that a caller
//!   drives: ask for the action, run the command, record how it ended;
//! * [`run`] states and proves what holds of every run.

pub mod command;
pub mod config;
pub mod decimal;
pub mod outcome;
pub mod pipeline;
pub mod run;
pub mod stage;
