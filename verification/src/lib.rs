//! A workflow interpreter for desktop automation: an ordered sequence of
//! typed nodes (logging, delays, pointer motion, clicks, text entry, file
//! relocation) is executed in order, and a structured report of the run is
//! returned to the caller.

pub mod action;
pub mod digits;
pub mod json;
pub mod node;
pub mod run;
