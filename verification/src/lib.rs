//! Decoding of the keystrokes a barcode scanner types into barcodes, and the
//! rules for forwarding each barcode to an HTTP endpoint.
//!
//! A scanner that emulates a keyboard reports each barcode as a run of key
//! presses that ends with Enter. [`decoder::Decoder`] folds those events into
//! completed barcodes; [`model`] is the state machine it is specified
//! against, and [`laws`] holds what is proved of that machine.
//! [`dispatch`] says which address to request for a barcode and how to read
//! the reply, [`config`] and [`fault`] say what the service needs to start
//! and which failures end it.
//!
//! The library does no input or output: the caller reads the device, hands
//! over the events as plain values and performs the requests.

pub mod config;
pub mod decoder;
pub mod dispatch;
pub mod event;
pub mod fault;
pub mod keys;
pub mod laws;
pub mod model;
mod text;
