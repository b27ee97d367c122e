//! Logic of a radio-controlled pan/tilt rotator: Pelco-D commands, the
//! radio packet protocol, relay state and the E220 radio module's register
//! protocol.
pub mod pelcod;
pub mod relays;
pub mod errors;
pub mod answer;
pub mod protocols;
pub mod link;
pub mod ptzdriver;
pub mod e220;
pub mod text;
pub mod context;
