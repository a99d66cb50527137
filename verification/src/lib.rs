//! Decision logic of a client that listens to a game's event feed and answers
//! each event on an audio sink.
//!
//! The client has two units that run side by side. The network unit keeps a
//! connection to the feed, decodes each frame into a command and hands the
//! command to a bounded queue. The audio unit takes commands out of the
//! queue and plays a fetched clip or changes the state of the sink. A
//! supervisor ends the process when either unit ends.
//!
//! Everything here is a function from plain values to plain values. The
//! program around the library performs the network and audio work that the
//! returned actions describe, logs what the steps report, and tells the
//! library what happened.
//!
//! - [`config`]: the run parameters and their rules.
//! - [`connection`]: opening the connection, with backoff between retries.
//! - [`protocol`]: from the text of a frame to a command; [`json`] is the
//!   parser it reads frames with.
//! - [`queue`]: the bounded first-in, first-out queue between the units.
//! - [`event`]: the steps of the network unit.
//! - [`audio`]: the steps of the audio unit and the model of the sink.
//! - [`supervisor`]: how the process ends.
//! - [`error`]: the failures, and which of them are fatal.

pub mod audio;
pub mod command;
pub mod config;
pub mod connection;
pub mod error;
pub mod event;
pub mod json;
pub mod protocol;
pub mod queue;
pub mod supervisor;
