//! The protocol core of a TEI engine for Tak: the command parser, the session
//! state that `teinewgame`, `setoption` and `position` build up, the decisions
//! of a search that runs in growing batches and polls for `stop`, `quit` and
//! `isready`, and the time budget of a move. Building positions, searching and
//! moving lines in and out are left to the caller.
use vstd::prelude::*;

pub mod budget;
pub mod command;
pub mod error;
pub mod laws;
pub mod num;
pub mod search;
pub mod session;
pub mod text;

verus! {

} // verus!
