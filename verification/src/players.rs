//! The bodies of the other players: which are seen, how they follow the server's
//! reports, and what they wear and do.
pub mod interpolation;
pub mod locomotion;
pub mod preview;
pub mod rig;
pub mod visuals;
