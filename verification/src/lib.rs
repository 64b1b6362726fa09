//! Decision logic of the Pyrite Discord bot: the vote webhook handler, the help
//! and update-log formatters and the command policy, each with a proved contract.

use vstd::prelude::*;

pub mod embed;
pub mod help;
pub mod http;
pub mod json;
pub mod policy;
pub mod run;
pub mod text;
pub mod update;
pub mod vote;

verus! {

/// User data handed to every command invocation. The bot keeps no state of its own.
pub struct Data {}

} // verus!
