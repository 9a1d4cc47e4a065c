//! Decision logic of two LoRaWAN field nodes: a sensor node and a range probe.
//!
//! [`node::Node`] is the program of a node. It tells its driver which action to
//! carry out next and takes back how the action ended. [`link::Link`] decides
//! about joining and sending; the other modules make what is shown and sent.
pub mod identity;
pub mod laws;
pub mod link;
pub mod node;
pub mod payload;
pub mod screen;
pub mod sensor;
pub mod text;
