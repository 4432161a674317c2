//! Transport control for an audio graph that runs on a real-time callback
//! thread, and an ownership wrapper for values whose lifetime a garbage
//! collecting host decides.

pub mod channel;
pub mod foreign;
pub mod net;
pub mod play;
pub mod transport;
