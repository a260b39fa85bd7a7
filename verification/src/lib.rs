//! A typed shell core: pipelines of processes are assembled in a structural
//! editor, and before anything is spawned each process's declared output
//! representation is checked against the next process's declared input
//! representation using layered type descriptions ("type ladders").

pub mod command;
pub mod command_pattern;
pub mod diag;
pub mod incubator;
pub mod ladder;
pub mod path;
pub mod pipeline;
pub mod process;
pub mod process_types;
pub mod pty;
pub mod text;
