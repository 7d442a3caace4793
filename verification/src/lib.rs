//! The decisions behind a game launcher: which games there are, which release
//! of each is the newest, when a download is whole, what a request to a game's
//! local server is answered. Everything that touches the network, the disk or
//! a window is left to the program around the library; the library is told
//! what came back and says what is to be done next.

pub mod catalog;
pub mod folders;
pub mod http;
pub mod install;
pub mod json;
pub mod lookup;
pub mod memory;
pub mod pads;
pub mod payload;
pub mod platform;
pub mod play;
pub mod release;
pub mod search;
pub mod serve;
pub mod text;
pub mod update;
