//! The decision core of a file-open command.
//!
//! A UI shell presents a native file-selection dialog, resolves the chosen
//! handle to a filesystem path, and reads the file as text. Everything the
//! command *decides* along that pass — which filter the dialog gets, how each
//! outcome of a step maps to the next step, and which error or content is
//! finally reported — lives here as verified code. The shell performs the
//! requested actions and hands the observed outcomes back as plain events.

pub mod command;
pub mod error;
pub mod filter;
