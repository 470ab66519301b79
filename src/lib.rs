//! A command-line weather lookup, as a library: the configuration record and its
//! updates, the location search and choice, the conversion of a weather snapshot into
//! display units, the report lines, and the run itself as a state machine whose
//! actions (file access, prompts, HTTP requests, printing) the caller performs.

pub mod clock;
pub mod config;
pub mod error;
pub mod location;
pub mod report;
pub mod run;
pub mod text;
pub mod weather;
