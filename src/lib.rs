//! Session playback engine for gesture-drawing practice: a catalog of image
//! sources, a non-repeating random draw with a navigable history, a countdown
//! timer with pause and resume, and a load pipeline that drops stale results.
//! Every mutating operation reports what changed as a modification log.

pub mod backend;
pub mod catalog;
pub mod modifications;
pub mod path;
pub mod pipeline;
pub mod selector;
pub mod sequencer;
pub mod session;
pub mod source;
pub mod source_folder;
pub mod timer;
pub mod workflow;
