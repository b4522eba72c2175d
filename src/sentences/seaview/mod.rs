//! Proprietary sentences of a wave-measuring buoy (talker `P`, messages `SV..`).
pub mod psvdy;
pub mod psvsd;
pub mod psvsh;
pub mod psvsi;
pub mod psvss;
pub mod psvst;
pub mod psvsv;
pub mod psvsw;
