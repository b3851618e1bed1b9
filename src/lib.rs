use vstd::prelude::*;

pub mod client;
pub mod cmd;
pub mod config;
pub mod session;
pub mod text;

verus! {

/// The reserved speaker tag that marks user-authored lines in a rendered prompt.
pub const USER_CHATTING_NAME: &'static str = "Userc33dc3a";

/// The truncated form of the speaker tag, matched while tokens stream in.
pub const USER_CHATTING_NAME_SHORT: &'static str = "Userc33dc3";

} // verus!
