//! The strategy's entry points, called once per decision cycle.
use vstd::prelude::*;
use crate::agent::{Agent, PlayerOperate};

verus! {

/// A strategy: one game step, and the choice of a buff when the server
/// offers some. Both act through the agent's operations.
pub trait Logic: PlayerOperate {
    fn game_loop(agent: &mut Self);

    fn select_buff(agent: &mut Self);
}

/// The built-in strategy stands still: it issues no command.
impl Logic for Agent {
    fn game_loop(agent: &mut Self) {
    }

    fn select_buff(agent: &mut Self) {
    }
}

} // verus!
