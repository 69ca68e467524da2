//! The three controllers that, in turn, react to every message.
pub mod main;
pub mod hotkeys;
pub mod timer;

use vstd::prelude::*;
use crate::app::{AdventuriaApp, Command, Message};

verus! {

/// A part of the application that reacts to messages: it updates the state
/// and says what is to be done.
pub trait Controller {
    fn update<W: Copy>(state: &mut AdventuriaApp<W>, message: &Message<W>) -> Vec<Command<W>>;
}

} // verus!
