//! Connection policy, protocol and control logic of a daemon that keeps a pair
//! of AirPods blocked until they are worn.

pub mod address;
pub mod audio;
pub mod authorization;
pub mod bluetooth;
pub mod cipher;
pub mod client;
pub mod conduct;
pub mod continuity;
pub mod control;
pub mod daemon;
pub mod exchange;
pub mod exposure;
pub mod guarantees;
pub mod json;
pub mod keeping;
pub mod media;
pub mod model;
pub mod ownership;
pub mod playback;
pub mod policy;
pub mod promises;
pub mod protocol;
pub mod readings;
pub mod reception;
pub mod recovery;
pub mod scanner;
pub mod session;
pub mod showing;
pub mod storage;
pub mod text;
