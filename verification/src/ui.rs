//! The interface's state, without its drawing: the event log, the two forms
//! and the controller that ties them to the worker.

pub mod controller;
pub mod forms;
pub mod log;
