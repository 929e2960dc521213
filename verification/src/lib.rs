//! Decision core of an MQTT logging bridge.
//!
//! The bridge subscribes to a set of topics and records every publication it
//! receives twice: as a timestamped line appended to the topic's log file and
//! as a coloured line on the console. This crate holds everything the bridge
//! decides and computes: the connection options, the topic list, the
//! start-up sequence, the topic registry, the timestamp renderings, the
//! reaction to each broker notification and the bytes that go to each sink.
//! The program around it talks to the broker and performs the effects that
//! the functions here return.

pub mod decimal;
pub mod dispatcher;
pub mod effect;
pub mod options;
pub mod protocol;
pub mod registry;
pub mod sink;
pub mod startup;
pub mod timestamp;
pub mod topics;
