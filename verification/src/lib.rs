//! Change propagation between a record store and a message bus.
//!
//! A poller tails the store's mutation log and hands every entry beyond its
//! watermark to a publisher, strictly in position order. A consumer loop
//! processes envelopes from a topic and commits only what it has processed.
//! The decisions of both loops are functions from a state and an event to the
//! next state and an action; the caller performs the action and reports back.

pub mod clock;
pub mod config;
pub mod consumer;
pub mod emitter;
pub mod guarantees;
pub mod json;
pub mod model;
pub mod poller;
pub mod projection;
pub mod publisher;
pub mod secrets;
pub mod subscriber;
pub mod wire;
